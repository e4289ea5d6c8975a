//! The per-connection protocol, as a pure state machine.
//!
//! A connection reads one line at a time.  A line that parses as a
//! request is dispatched and answered with exactly one response line; a
//! line that does not parse is answered with exactly one error line and
//! the connection stays open; end of stream closes the connection.  The
//! surrounding process plumbing performs the reads and writes and feeds
//! each event through `conn_step`.
use vstd::prelude::*;

use crate::dispatch::GenerateRequest;

verus! {

/// The state of one connection.
#[derive(PartialEq, Eq, Structural, Clone, Copy, Debug)]
pub enum ConnState {
    /// Waiting for the next request line.
    Reading,
    /// The peer closed its write side; the connection is finished.
    Closed,
}

/// One thing that can happen while reading a connection.
pub enum LineEvent {
    /// A line arrived and parsed as a request.
    Request(GenerateRequest),
    /// A line arrived but did not parse as a request.
    Malformed,
    /// The stream ended.
    Eof,
}

/// What the connection driver must do next.
pub enum ConnAction {
    /// Dispatch this request and write its response as one line.
    Dispatch(GenerateRequest),
    /// Write one error line.
    ReportError,
    /// Close the connection.
    Shutdown,
}

/// An action that writes exactly one line back to the peer.
pub open spec fn spec_is_reply(a: ConnAction) -> bool {
    a is Dispatch || a is ReportError
}

/// The transition function of one connection.
pub open spec fn spec_conn_step(state: ConnState, ev: LineEvent) -> (ConnState, ConnAction) {
    match state {
        ConnState::Reading => match ev {
            LineEvent::Request(req) => (ConnState::Reading, ConnAction::Dispatch(req)),
            LineEvent::Malformed => (ConnState::Reading, ConnAction::ReportError),
            LineEvent::Eof => (ConnState::Closed, ConnAction::Shutdown),
        },
        ConnState::Closed => (ConnState::Closed, ConnAction::Shutdown),
    }
}

/// Advances one connection by one event.
pub fn conn_step(state: ConnState, ev: LineEvent) -> (r: (ConnState, ConnAction))
    ensures
        r == spec_conn_step(state, ev),
{
    match state {
        ConnState::Reading => match ev {
            LineEvent::Request(req) => (ConnState::Reading, ConnAction::Dispatch(req)),
            LineEvent::Malformed => (ConnState::Reading, ConnAction::ReportError),
            LineEvent::Eof => (ConnState::Closed, ConnAction::Shutdown),
        },
        ConnState::Closed => (ConnState::Closed, ConnAction::Shutdown),
    }
}

/// The actions a fresh connection takes on the events from index `i`
/// on, up to and including the first end of stream.
pub open spec fn spec_run_from(events: Seq<LineEvent>, i: int) -> Seq<ConnAction>
    decreases events.len() - i,
{
    if i < 0 || i >= events.len() {
        Seq::empty()
    } else {
        match events[i] {
            LineEvent::Request(req) => seq![ConnAction::Dispatch(req)] + spec_run_from(
                events,
                i + 1,
            ),
            LineEvent::Malformed => seq![ConnAction::ReportError] + spec_run_from(events, i + 1),
            LineEvent::Eof => seq![ConnAction::Shutdown],
        }
    }
}

pub open spec fn spec_run(events: Seq<LineEvent>) -> Seq<ConnAction> {
    spec_run_from(events, 0)
}

/// The reply an event is owed: a request is answered by dispatching
/// it, a malformed line by one error line.
pub open spec fn spec_reply_for(ev: LineEvent, a: ConnAction) -> bool {
    match ev {
        LineEvent::Request(req) => a == ConnAction::Dispatch(req),
        LineEvent::Malformed => a == ConnAction::ReportError,
        LineEvent::Eof => a == ConnAction::Shutdown,
    }
}

/// One reply per line, in order: as long as the stream has not ended,
/// a connection answers its lines one for one, each with the reply
/// owed to it, in the order the lines arrived.
pub proof fn lemma_one_reply_per_line(events: Seq<LineEvent>)
    requires
        forall|j: int| 0 <= j < events.len() ==> !(#[trigger] events[j] is Eof),
    ensures
        spec_run(events).len() == events.len(),
        forall|j: int|
            0 <= j < events.len() ==> spec_reply_for(
                #[trigger] events[j],
                spec_run(events)[j],
            ),
{
    lemma_run_from_aligned(events, 0);
}

proof fn lemma_run_from_aligned(events: Seq<LineEvent>, i: int)
    requires
        0 <= i,
        forall|j: int| 0 <= j < events.len() ==> !(#[trigger] events[j] is Eof),
    ensures
        spec_run_from(events, i).len() == if i <= events.len() {
            events.len() - i
        } else {
            0
        },
        forall|j: int|
            i <= j < events.len() ==> spec_reply_for(
                #[trigger] events[j],
                spec_run_from(events, i)[j - i],
            ),
    decreases events.len() - i,
{
    if i < events.len() {
        lemma_run_from_aligned(events, i + 1);
    }
}

/// A malformed line is answered with exactly one error line and the
/// connection keeps reading: the events after it are handled exactly
/// as they would be on a fresh connection.
pub proof fn lemma_malformed_line_keeps_connection(events: Seq<LineEvent>, i: int)
    requires
        0 <= i < events.len(),
        events[i] is Malformed,
    ensures
        spec_conn_step(ConnState::Reading, events[i]) == (
            ConnState::Reading,
            ConnAction::ReportError,
        ),
        spec_run_from(events, i) == seq![ConnAction::ReportError] + spec_run_from(events, i + 1),
{
}

} // verus!
