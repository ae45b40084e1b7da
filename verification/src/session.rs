//! The decisions of the poll loop. The caller does the waiting and the
//! talking: it connects, lets the transport make progress, queries the graph
//! and sleeps, and after each of these it hands the event to `step`, which
//! answers with the next phase and with what to do next.
use crate::report::lines_are;
use crate::report::node_report;
use crate::report::node_report_text;
use crate::store::NodeInfo;
use crate::store::NodeView;
use crate::verdict::node_view;
use vstd::prelude::*;

verus! {

/// Seconds to sleep between two looks at the graph.
pub const POLL_INTERVAL_SECS: u64 = 1;

/// Why the transport is lost. Each of these ends the connection for good.
#[derive(Clone, Copy, Debug, PartialEq, Eq, Structural)]
pub enum TransportError {
    /// The peer could not be reached.
    Unreachable,
    /// The handshake did not verify.
    HandshakeFailed,
    /// A frame did not decrypt.
    DecryptionFailed,
    /// The connection was closed.
    ConnectionLost,
}

/// Where the session stands.
#[derive(Clone, Copy, Debug, PartialEq, Eq, Structural)]
pub enum Phase {
    /// Nothing has been done yet.
    Idle,
    /// The connection is being set up.
    Connecting,
    /// The transport is ready and the graph is being polled.
    Ready,
    /// The node was found and reported.
    Finished,
    /// The transport is lost.
    Failed(TransportError),
}

/// What has happened.
#[derive(Clone, Debug, PartialEq, Eq)]
pub enum Event {
    /// The session is to start.
    Start,
    /// The connection stands.
    Connected,
    /// The transport failed.
    TransportFailed(TransportError),
    /// The transport made progress and the graph was asked for the node:
    /// this is its answer.
    Polled(Option<NodeInfo>),
}

/// What the caller is to do next.
#[derive(Clone, Debug, PartialEq, Eq)]
pub enum Action {
    /// Connect to the peer.
    Connect,
    /// Let the transport make progress and ask the graph for the node, at
    /// once if `delay` is false, after the poll interval if it is true.
    Poll { delay: bool },
    /// Print these lines and stop: the node is found.
    Report(Vec<String>),
    /// Report the failure and stop.
    Fail(TransportError),
    /// Nothing: the event has no meaning in this phase.
    Nothing,
}

/// What stands for an event in contracts.
pub enum EventView {
    Start,
    Connected,
    TransportFailed(TransportError),
    Polled(Option<NodeView>),
}

impl View for Event {
    type V = EventView;

    open spec fn view(&self) -> EventView {
        match *self {
            Event::Start => EventView::Start,
            Event::Connected => EventView::Connected,
            Event::TransportFailed(error) => EventView::TransportFailed(error),
            Event::Polled(found) => EventView::Polled(node_view(found)),
        }
    }
}

/// What stands for an action in contracts: a report is the text of its lines.
pub enum ActionView {
    Connect,
    Poll { delay: bool },
    Report(Seq<Seq<char>>),
    Fail(TransportError),
    Nothing,
}

/// Whether `action` is the action that `view` stands for.
pub open spec fn action_is(action: Action, view: ActionView) -> bool {
    match action {
        Action::Connect => view == ActionView::Connect,
        Action::Poll { delay } => view == (ActionView::Poll { delay }),
        Action::Report(lines) => view matches ActionView::Report(texts) && lines_are(
            lines@,
            texts,
        ),
        Action::Fail(error) => view == ActionView::Fail(error),
        Action::Nothing => view == ActionView::Nothing,
    }
}

/// Whether the session is over in this phase.
pub open spec fn is_terminal(phase: Phase) -> bool {
    phase is Finished || phase is Failed
}

/// The report that ends the polling: that of a node that is known and has
/// announced itself.
pub open spec fn found_report(found: Option<NodeView>) -> Option<Seq<Seq<char>>> {
    match found {
        Some(node) => node_report_text(node),
        None => None,
    }
}

/// The phase that follows `phase` on `event`.
pub open spec fn next_phase(phase: Phase, event: EventView) -> Phase {
    if is_terminal(phase) {
        phase
    } else {
        match event {
            EventView::TransportFailed(error) => Phase::Failed(error),
            EventView::Start => if phase is Idle {
                Phase::Connecting
            } else {
                phase
            },
            EventView::Connected => if phase is Connecting {
                Phase::Ready
            } else {
                phase
            },
            EventView::Polled(found) => if phase is Ready && found_report(found) is Some {
                Phase::Finished
            } else {
                phase
            },
        }
    }
}

/// What the caller is to do after `event` in `phase`.
pub open spec fn next_action(phase: Phase, event: EventView) -> ActionView {
    if is_terminal(phase) {
        ActionView::Nothing
    } else {
        match event {
            EventView::TransportFailed(error) => ActionView::Fail(error),
            EventView::Start => if phase is Idle {
                ActionView::Connect
            } else {
                ActionView::Nothing
            },
            EventView::Connected => if phase is Connecting {
                ActionView::Poll { delay: false }
            } else {
                ActionView::Nothing
            },
            EventView::Polled(found) => if phase is Ready {
                match found_report(found) {
                    Some(texts) => ActionView::Report(texts),
                    None => ActionView::Poll { delay: true },
                }
            } else {
                ActionView::Nothing
            },
        }
    }
}

/// One step of the session: the phase after `event`, and what to do next.
///
/// A session starts idle, connects, and then polls until the graph knows the
/// node and its announcement; it then reports and is finished. A transport
/// failure in any phase but the last two ends it with that failure. There is
/// no limit to the number of polls.
pub fn step(phase: Phase, event: &Event) -> (next: (Phase, Action))
    ensures
        next.0 == next_phase(phase, event@),
        action_is(next.1, next_action(phase, event@)),
{
    match phase {
        Phase::Finished => (phase, Action::Nothing),
        Phase::Failed(_) => (phase, Action::Nothing),
        _ => match event {
            Event::TransportFailed(error) => (Phase::Failed(*error), Action::Fail(*error)),
            Event::Start => match phase {
                Phase::Idle => (Phase::Connecting, Action::Connect),
                _ => (phase, Action::Nothing),
            },
            Event::Connected => match phase {
                Phase::Connecting => (Phase::Ready, Action::Poll { delay: false }),
                _ => (phase, Action::Nothing),
            },
            Event::Polled(found) => match phase {
                Phase::Ready => {
                    let report = match found {
                        Some(node) => node_report(node),
                        None => None,
                    };
                    match report {
                        Some(lines) => (Phase::Finished, Action::Report(lines)),
                        None => (phase, Action::Poll { delay: true }),
                    }
                },
                _ => (phase, Action::Nothing),
            },
        },
    }
}

/// A transport failure, whatever its kind, ends a running session: the next
/// phase is the failure, the action reports it, and no later event brings the
/// session back or makes it ask for anything.
pub proof fn lemma_transport_failure_is_fatal(phase: Phase, error: TransportError, later: EventView)
    requires
        !is_terminal(phase),
    ensures
        next_phase(phase, EventView::TransportFailed(error)) == Phase::Failed(error),
        next_action(phase, EventView::TransportFailed(error)) == ActionView::Fail(error),
        next_phase(Phase::Failed(error), later) == Phase::Failed(error),
        next_action(Phase::Failed(error), later) == ActionView::Nothing,
{
}

/// Nothing but a transport failure makes a session fail: whatever the graph
/// was fed, and whatever it answers, the session goes on or finishes.
pub proof fn lemma_only_transport_failures_fail(phase: Phase, event: EventView)
    requires
        !(phase is Failed),
        next_phase(phase, event) is Failed,
    ensures
        event is TransportFailed,
        next_action(phase, event) is Fail,
{
}

/// While the graph does not hold the node with its announcement, a ready
/// session keeps polling: it neither finishes nor fails.
pub proof fn lemma_polling_goes_on(found: Option<NodeView>)
    requires
        found_report(found) is None,
    ensures
        next_phase(Phase::Ready, EventView::Polled(found)) == Phase::Ready,
        next_action(Phase::Ready, EventView::Polled(found)) == (ActionView::Poll { delay: true }),
{
}

} // verus!
