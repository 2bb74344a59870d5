//! The model of a fatal report: write events on the error stream and the
//! exit status, plus the two terminators that build one.

use vstd::prelude::*;

verus! {

/// Whether colored output may be attempted for the error prefix.
///
/// The capability is fixed when the program is built and is passed in
/// explicitly so that both modes can be exercised.
#[derive(Clone, Copy)]
pub struct ColorCapability {
    pub enabled: bool,
}

/// One write owed to the error stream.
pub enum ErrWrite {
    /// The literal `"Error: "`, colored red when `red` is set and the
    /// stream accepts color; written plain otherwise.
    Prefix { red: bool },
    /// A message line: the text followed by a newline.
    Message(String),
}

/// The mathematical form of an [`ErrWrite`]: the same shape, with the
/// message as a sequence of characters.
pub enum WriteEvent {
    Prefix { red: bool },
    Message(Seq<char>),
}

impl View for ErrWrite {
    type V = WriteEvent;

    open spec fn view(&self) -> WriteEvent {
        match self {
            ErrWrite::Prefix { red } => WriteEvent::Prefix { red: *red },
            ErrWrite::Message(text) => WriteEvent::Message(text@),
        }
    }
}

/// Everything a fatal path owes the host process: the ordered writes to
/// the error stream, then an exit with `exit_code`.
///
/// Every function of this crate that builds one sets `exit_code` to 1.
pub struct Termination {
    pub writes: Vec<ErrWrite>,
    pub exit_code: i32,
}

impl Termination {
    /// The writes of this report, as events over character sequences.
    pub open spec fn events(&self) -> Seq<WriteEvent> {
        self.writes@.map_values(|w: ErrWrite| w@)
    }
}

/// The events of a prefixed report: the `"Error: "` prefix, colored when
/// `red` is set, then the message line.
pub open spec fn prefixed_events(red: bool, message: Seq<char>) -> Seq<WriteEvent> {
    seq![WriteEvent::Prefix { red }, WriteEvent::Message(message)]
}

/// The fixed prefix written before every prefixed message.
pub fn error_prefix() -> (s: &'static str)
    ensures
        s@ == "Error: "@,
{
    "Error: "
}

/// What one event puts on the error stream: the literal prefix, or the
/// message followed by a newline.
pub open spec fn event_text(event: WriteEvent) -> Seq<char> {
    match event {
        WriteEvent::Prefix { red: _ } => "Error: "@,
        WriteEvent::Message(message) => message + "\n"@,
    }
}

/// The full text a sequence of events puts on the error stream, in order.
pub open spec fn output_text(events: Seq<WriteEvent>) -> Seq<char>
    decreases events.len(),
{
    if events.len() == 0 {
        Seq::empty()
    } else {
        event_text(events[0]) + output_text(events.skip(1))
    }
}

/// How many message lines a sequence of events carries.
pub open spec fn message_count(events: Seq<WriteEvent>) -> nat
    decreases events.len(),
{
    if events.len() == 0 {
        0nat
    } else {
        (if events[0] is Message {
            1nat
        } else {
            0nat
        }) + message_count(events.skip(1))
    }
}

/// The literal error-stream text of a prefixed report: the prefix, the
/// message, then a newline — the same text whatever the color mode.
pub proof fn lemma_prefixed_output_text(red: bool, message: Seq<char>)
    ensures
        output_text(prefixed_events(red, message)) == "Error: "@ + message + "\n"@,
{
    let events = prefixed_events(red, message);
    let tail = seq![WriteEvent::Message(message)];
    assert(events.skip(1) =~= tail);
    assert(tail.skip(1) =~= Seq::<WriteEvent>::empty());
    assert(output_text(Seq::<WriteEvent>::empty()) == Seq::<char>::empty());
    assert(output_text(tail) == event_text(tail[0]) + output_text(tail.skip(1)));
    assert((message + "\n"@) + Seq::<char>::empty() =~= message + "\n"@);
    assert("Error: "@ + (message + "\n"@) =~= "Error: "@ + message + "\n"@);
}

/// Every prefixed report carries exactly one message line: the prefix is
/// framing, never a line of its own.
pub proof fn lemma_prefixed_events_single_message(red: bool, message: Seq<char>)
    ensures
        message_count(prefixed_events(red, message)) == 1,
{
    let events = prefixed_events(red, message);
    let tail = seq![WriteEvent::Message(message)];
    assert(events.skip(1) =~= tail);
    assert(tail.skip(1) =~= Seq::<WriteEvent>::empty());
    assert(message_count(Seq::<WriteEvent>::empty()) == 0);
    assert(message_count(tail) == 1);
    assert(message_count(events) == message_count(tail));
}

/// Builds the report of an unconditional termination: the message line when
/// one is given, no prefix, and exit status 1.
pub fn fatal(message: Option<String>) -> (t: Termination)
    ensures
        t.exit_code == 1,
        message is None ==> t.events() == Seq::<WriteEvent>::empty(),
        message is Some ==> t.events() == seq![WriteEvent::Message(message->Some_0@)],
{
    let mut writes: Vec<ErrWrite> = Vec::new();
    match message {
        Option::None => {},
        Option::Some(text) => {
            writes.push(ErrWrite::Message(text));
        },
    }
    let t = Termination { writes, exit_code: 1 };
    proof {
        if t.writes@.len() == 0 {
            assert(t.events() =~= Seq::<WriteEvent>::empty());
        } else {
            assert(t.events() =~= seq![t.writes@[0]@]);
        }
    }
    t
}

/// Builds the report of a prefixed termination: the `"Error: "` prefix and
/// the message line when a message is given, nothing at all otherwise (a
/// bare prefix with no message after it is never written), and exit
/// status 1. The prefix is marked for color exactly when the capability
/// allows it.
pub fn error(message: Option<String>, cap: ColorCapability) -> (t: Termination)
    ensures
        t.exit_code == 1,
        message is None ==> t.events() == Seq::<WriteEvent>::empty(),
        message is Some ==> t.events() == prefixed_events(cap.enabled, message->Some_0@),
{
    let mut writes: Vec<ErrWrite> = Vec::new();
    match message {
        Option::None => {},
        Option::Some(text) => {
            writes.push(ErrWrite::Prefix { red: cap.enabled });
            writes.push(ErrWrite::Message(text));
        },
    }
    let t = Termination { writes, exit_code: 1 };
    proof {
        if t.writes@.len() == 0 {
            assert(t.events() =~= Seq::<WriteEvent>::empty());
        } else {
            assert(t.events() =~= seq![t.writes@[0]@, t.writes@[1]@]);
        }
    }
    t
}

/// Renders the full error-stream text of a report: `"Error: "` for the
/// prefix, each message followed by a newline, in order.
pub fn output_of(t: &Termination) -> (s: String)
    ensures
        s@ == output_text(t.events()),
{
    let ghost events = t.events();
    let mut s = String::new();
    let mut i: usize = 0;
    proof {
        assert(events.skip(0) =~= events);
        assert(Seq::<char>::empty() + output_text(events) =~= output_text(events));
    }
    while i < t.writes.len()
        invariant
            i <= t.writes@.len(),
            events == t.events(),
            events.len() == t.writes@.len(),
            output_text(events) == s@ + output_text(events.skip(i as int)),
        decreases t.writes@.len() - i,
    {
        let ghost prev = s@;
        let ghost here = events[i as int];
        proof {
            assert(here == t.writes@[i as int]@);
            assert(events.skip(i as int)[0] == here);
            assert(events.skip(i as int).skip(1) =~= events.skip(i as int + 1));
        }
        match &t.writes[i] {
            ErrWrite::Prefix { red: _ } => {
                s.append(error_prefix());
            },
            ErrWrite::Message(text) => {
                s.append(text.as_str());
                s.append("\n");
                proof {
                    assert((prev + text@) + "\n"@ =~= prev + (text@ + "\n"@));
                }
            },
        }
        proof {
            let rest = output_text(events.skip(i as int + 1));
            assert(s@ == prev + event_text(here));
            assert((prev + event_text(here)) + rest =~= prev + (event_text(here) + rest));
        }
        i = i + 1;
    }
    proof {
        assert(events.skip(i as int) =~= Seq::<WriteEvent>::empty());
        assert(s@ =~= s@ + Seq::<char>::empty());
    }
    s
}

} // verus!
