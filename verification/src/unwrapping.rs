//! Helpers that take a result apart: the payload passes through unchanged,
//! and a failure becomes a prefixed termination report.

use vstd::prelude::*;

use crate::report::ColorCapability;
use crate::report::Termination;
use crate::report::error;
use crate::report::prefixed_events;
use crate::template::render;
use crate::template::rendered;

verus! {

/// The text of an expect-style message: the context, then the failure's
/// text in parentheses.
pub open spec fn context_message(context: Seq<char>, err: Seq<char>) -> Seq<char> {
    context + " ("@ + err + ")"@
}

/// Returns the payload of a success unchanged. On a failure, builds the
/// prefixed report that carries the failure's text as the message, with
/// exit status 1.
pub fn unwrap<T>(result: Result<T, String>, cap: ColorCapability) -> (r: Result<T, Termination>)
    ensures
        result is Ok ==> r is Ok && r->Ok_0 == result->Ok_0,
        result is Err ==> r is Err && r->Err_0.exit_code == 1 && r->Err_0.events()
            == prefixed_events(cap.enabled, result->Err_0@),
{
    match result {
        Result::Ok(payload) => Result::Ok(payload),
        Result::Err(failure) => Result::Err(error(Option::Some(failure), cap)),
    }
}

/// Returns the payload of a success unchanged. On a failure, builds the
/// prefixed report whose message is the context followed by the failure's
/// text in parentheses, with exit status 1. The context is written as it
/// stands; nothing in it is treated as a slot.
pub fn expect<T>(result: Result<T, String>, context: String, cap: ColorCapability) -> (r: Result<
    T,
    Termination,
>)
    ensures
        result is Ok ==> r is Ok && r->Ok_0 == result->Ok_0,
        result is Err ==> r is Err && r->Err_0.exit_code == 1 && r->Err_0.events()
            == prefixed_events(cap.enabled, context_message(context@, result->Err_0@)),
{
    match result {
        Result::Ok(payload) => Result::Ok(payload),
        Result::Err(failure) => {
            let ghost context_view = context@;
            let mut message = context;
            message.append(" (");
            message.append(failure.as_str());
            message.append(")");
            proof {
                assert(message@ =~= context_message(context_view, failure@));
            }
            Result::Err(error(Option::Some(message), cap))
        },
    }
}

/// Returns the payload of a success unchanged. On a failure, renders the
/// caller's template — every `{error}` slot replaced by the failure's text —
/// and builds the prefixed report with that message and exit status 1.
///
/// The slot should appear somewhere in the template; a template without one
/// is written out verbatim, which loses the failure's text.
pub fn unwrap_format<T>(result: Result<T, String>, template: String, cap: ColorCapability) -> (r:
    Result<T, Termination>)
    ensures
        result is Ok ==> r is Ok && r->Ok_0 == result->Ok_0,
        result is Err ==> r is Err && r->Err_0.exit_code == 1 && r->Err_0.events()
            == prefixed_events(cap.enabled, rendered(template@, result->Err_0@)),
{
    match result {
        Result::Ok(payload) => Result::Ok(payload),
        Result::Err(failure) => {
            let message = render(template.as_str(), failure.as_str());
            Result::Err(error(Option::Some(message), cap))
        },
    }
}

/// Returns the payload of a success unchanged. On a failure, appends
/// `" ({error})"` to the caller's template, renders it — so the failure's
/// text always ends the message, and any `{error}` slot the caller wrote is
/// replaced too — and builds the prefixed report with exit status 1.
pub fn unwrap_message<T>(result: Result<T, String>, template: String, cap: ColorCapability) -> (r:
    Result<T, Termination>)
    ensures
        result is Ok ==> r is Ok && r->Ok_0 == result->Ok_0,
        result is Err ==> r is Err && r->Err_0.exit_code == 1 && r->Err_0.events()
            == prefixed_events(cap.enabled, rendered(template@ + " ({error})"@, result->Err_0@)),
{
    match result {
        Result::Ok(payload) => Result::Ok(payload),
        Result::Err(failure) => {
            let full = template.concat(" ({error})");
            let message = render(full.as_str(), failure.as_str());
            Result::Err(error(Option::Some(message), cap))
        },
    }
}

/// Method forms of [`unwrap`] and [`expect`], with the same behavior.
pub trait UnwrapExt: Sized {
    type T;

    /// The success payload, when there is one.
    spec fn ok_payload(&self) -> Option<Self::T>;

    /// The failure's displayable text; meaningful only when `ok_payload`
    /// is `None`.
    spec fn err_view(&self) -> Seq<char>;

    /// A method synonym for [`unwrap`].
    fn unwrap_fatal(self, cap: ColorCapability) -> (r: Result<Self::T, Termination>)
        ensures
            self.ok_payload() is Some ==> r is Ok && Some(r->Ok_0) == self.ok_payload(),
            self.ok_payload() is None ==> r is Err && r->Err_0.exit_code == 1
                && r->Err_0.events() == prefixed_events(cap.enabled, self.err_view()),
    ;

    /// A method synonym for [`expect`].
    fn expect_fatal(self, context: String, cap: ColorCapability) -> (r: Result<
        Self::T,
        Termination,
    >)
        ensures
            self.ok_payload() is Some ==> r is Ok && Some(r->Ok_0) == self.ok_payload(),
            self.ok_payload() is None ==> r is Err && r->Err_0.exit_code == 1
                && r->Err_0.events() == prefixed_events(
                cap.enabled,
                context_message(context@, self.err_view()),
            ),
    ;
}

impl<A> UnwrapExt for Result<A, String> {
    type T = A;

    open spec fn ok_payload(&self) -> Option<A> {
        if (*self) is Ok {
            Some((*self)->Ok_0)
        } else {
            None
        }
    }

    open spec fn err_view(&self) -> Seq<char> {
        if (*self) is Err {
            (*self)->Err_0@
        } else {
            Seq::empty()
        }
    }

    fn unwrap_fatal(self, cap: ColorCapability) -> (r: Result<A, Termination>) {
        unwrap(self, cap)
    }

    fn expect_fatal(self, context: String, cap: ColorCapability) -> (r: Result<A, Termination>) {
        expect(self, context, cap)
    }
}

} // verus!
