//! Helpers for reporting a fatal error and ending the program.
//!
//! The crate describes every fatal path as a [`Termination`] value: the
//! ordered writes owed to the error stream, and the exit status, which is
//! always 1. A thin unverified layer may then perform the writes and the
//! process exit; everything up to that point is checked here.

mod report;
mod template;
mod unwrapping;

pub use report::ColorCapability;
pub use report::ErrWrite;
pub use report::Termination;
pub use report::WriteEvent;
pub use report::error;
pub use report::error_prefix;
pub use report::event_text;
pub use report::lemma_prefixed_output_text;
pub use report::fatal;
pub use report::lemma_prefixed_events_single_message;
pub use report::message_count;
pub use report::output_of;
pub use report::output_text;
pub use report::prefixed_events;
pub use template::render;
pub use template::rendered;
pub use template::slot_at;
pub use unwrapping::UnwrapExt;
pub use unwrapping::context_message;
pub use unwrapping::expect;
pub use unwrapping::unwrap;
pub use unwrapping::unwrap_format;
pub use unwrapping::unwrap_message;
