//! The course of one invocation: connect, send one request, stop.
//!
//! The program performs each step and reports what came of it; this module
//! decides which step is next.

use vstd::prelude::*;

verus! {

/// How far an invocation has come.
#[derive(Clone, Copy, Debug, PartialEq, Eq, Structural)]
pub enum Phase {
    /// Settings are resolved, nothing was done yet.
    Ready,
    /// The connection is being opened.
    Connecting,
    /// The request was sent and its answer is awaited.
    Requesting,
    /// The request was answered.
    Done,
    /// The connection or the request failed.
    Failed,
}

/// What the program reports back.
#[derive(Clone, Copy, Debug, PartialEq, Eq, Structural)]
pub enum Event {
    /// The invocation begins.
    Start,
    /// The session is open.
    Connected,
    /// The service could not be reached, or refused the password.
    ConnectionFailed,
    /// The service answered the request.
    Answered,
    /// The service rejected the request.
    Rejected,
}

/// What the program is to do next.
#[derive(Clone, Copy, Debug, PartialEq, Eq, Structural)]
pub enum Step {
    /// Open the session with the resolved settings.
    Connect,
    /// Send the request of the action.
    Send,
    /// Show the answer and end with success.
    Finish,
    /// Report the connection error and end with failure.
    FailConnection,
    /// Report the service's error and end with failure.
    FailRequest,
    /// The event does not belong here: do nothing.
    Stay,
}

/// The phase after an event, and the step that the event calls for.
pub open spec fn next(phase: Phase, event: Event) -> (Phase, Step) {
    match (phase, event) {
        (Phase::Ready, Event::Start) => (Phase::Connecting, Step::Connect),
        (Phase::Connecting, Event::Connected) => (Phase::Requesting, Step::Send),
        (Phase::Connecting, Event::ConnectionFailed) => (Phase::Failed, Step::FailConnection),
        (Phase::Requesting, Event::Answered) => (Phase::Done, Step::Finish),
        (Phase::Requesting, Event::Rejected) => (Phase::Failed, Step::FailRequest),
        _ => (phase, Step::Stay),
    }
}

/// The phase reached from `phase` by a run of events.
pub open spec fn phase_after(phase: Phase, events: Seq<Event>) -> Phase
    decreases events.len(),
{
    if events.len() == 0 {
        phase
    } else {
        phase_after(next(phase, events[0]).0, events.drop_first())
    }
}

/// How often a run of events from `phase` calls for `step`.
pub open spec fn times(phase: Phase, events: Seq<Event>, step: Step) -> nat
    decreases events.len(),
{
    if events.len() == 0 {
        0
    } else {
        let here: nat = if next(phase, events[0]).1 == step {
            1
        } else {
            0
        };
        here + times(next(phase, events[0]).0, events.drop_first(), step)
    }
}

/// Whether the invocation is over.
pub open spec fn is_over(phase: Phase) -> bool {
    phase == Phase::Done || phase == Phase::Failed
}

/// Decides the next step.
pub fn advance(phase: Phase, event: Event) -> (r: (Phase, Step))
    ensures
        r == next(phase, event),
{
    match phase {
        Phase::Ready => match event {
            Event::Start => (Phase::Connecting, Step::Connect),
            _ => (phase, Step::Stay),
        },
        Phase::Connecting => match event {
            Event::Connected => (Phase::Requesting, Step::Send),
            Event::ConnectionFailed => (Phase::Failed, Step::FailConnection),
            _ => (phase, Step::Stay),
        },
        Phase::Requesting => match event {
            Event::Answered => (Phase::Done, Step::Finish),
            Event::Rejected => (Phase::Failed, Step::FailRequest),
            _ => (phase, Step::Stay),
        },
        _ => (phase, Step::Stay),
    }
}

/// Whatever is reported, and in whatever order, the session is opened at
/// most once and at most one request is sent; once a request is out or the
/// invocation is over, none follows.
pub proof fn lemma_at_most_one_request(phase: Phase, events: Seq<Event>)
    ensures
        times(phase, events, Step::Connect) <= 1,
        times(phase, events, Step::Send) <= 1,
        phase != Phase::Ready ==> times(phase, events, Step::Connect) == 0,
        phase == Phase::Requesting || is_over(phase) ==> times(phase, events, Step::Send) == 0,
    decreases events.len(),
{
    if events.len() > 0 {
        lemma_at_most_one_request(next(phase, events[0]).0, events.drop_first());
    }
}

/// No request is sent on a session that was not opened: from the start, a
/// run of events calls for `Send` no more often than for `Connect`.
pub proof fn lemma_request_follows_connection(events: Seq<Event>)
    ensures
        times(Phase::Ready, events, Step::Send) <= times(Phase::Ready, events, Step::Connect),
    decreases events.len(),
{
    if events.len() > 0 {
        if events[0] == Event::Start {
            lemma_at_most_one_request(Phase::Connecting, events.drop_first());
        } else {
            lemma_request_follows_connection(events.drop_first());
        }
    }
}

/// An invocation that is over stays as it is and calls for nothing more.
pub proof fn lemma_over_is_final(phase: Phase, events: Seq<Event>, step: Step)
    requires
        is_over(phase),
    ensures
        phase_after(phase, events) == phase,
        step != Step::Stay ==> times(phase, events, step) == 0,
    decreases events.len(),
{
    if events.len() > 0 {
        lemma_over_is_final(phase, events.drop_first(), step);
    }
}

} // verus!
