//! The accept loop: one fixed address, one handler per accepted connection,
//! and no accept error that ends it.

use vstd::prelude::*;

verus! {

/// The host the listener binds to: the local loopback.
pub const BIND_HOST: &'static str = "127.0.0.1";

/// The port the listener binds to.
pub const BIND_PORT: u16 = 7878;

/// Where the listener stands.
#[derive(Clone, Copy, Debug, PartialEq, Eq, Structural)]
pub enum ListenerState {
    /// The address is not bound yet.
    Starting,
    /// Bound and accepting.
    Listening,
    /// The bind failed; the process ends.
    Stopped,
}

/// What the program reports to the listener.
#[derive(Clone, Copy, Debug, PartialEq, Eq, Structural)]
pub enum ListenerEvent {
    /// The address was bound.
    Bound,
    /// The address could not be bound.
    BindFailed,
    /// A connection arrived.
    ConnectionAccepted,
    /// Accepting a connection returned an error.
    AcceptFailed,
}

/// What the listener asks the program to do next.
#[derive(Clone, Copy, Debug, PartialEq, Eq, Structural)]
pub enum ListenerAction {
    /// Say that the server is listening, then accept.
    Announce,
    /// End the process with a failure status.
    Exit,
    /// Hand the connection to a handler of its own, do not wait for it, and
    /// accept again.
    Dispatch,
    /// Record the error and accept again.
    RecordAcceptFailure,
    /// Nothing to do: the event does not belong to the state.
    Nothing,
}

/// The listener's rule: the state after `event` and the action it calls for.
///
/// Only a failed bind stops the listener. Once it listens, every event
/// leaves it listening.
pub open spec fn listener_step(state: ListenerState, event: ListenerEvent) -> (
    ListenerState,
    ListenerAction,
) {
    match (state, event) {
        (ListenerState::Starting, ListenerEvent::Bound) => (
            ListenerState::Listening,
            ListenerAction::Announce,
        ),
        (ListenerState::Starting, ListenerEvent::BindFailed) => (
            ListenerState::Stopped,
            ListenerAction::Exit,
        ),
        (ListenerState::Listening, ListenerEvent::ConnectionAccepted) => (
            ListenerState::Listening,
            ListenerAction::Dispatch,
        ),
        (ListenerState::Listening, ListenerEvent::AcceptFailed) => (
            ListenerState::Listening,
            ListenerAction::RecordAcceptFailure,
        ),
        _ => (state, ListenerAction::Nothing),
    }
}

/// Feeds `events` to the listener one after another, starting in `state`.
/// Gives the state reached and the actions called for, one per event.
pub open spec fn listener_run(state: ListenerState, events: Seq<ListenerEvent>) -> (
    ListenerState,
    Seq<ListenerAction>,
)
    decreases events.len(),
{
    if events.len() == 0 {
        (state, Seq::empty())
    } else {
        let (next, action) = listener_step(state, events[0]);
        let (last, rest) = listener_run(next, events.drop_first());
        (last, seq![action] + rest)
    }
}

/// The address to bind: host and port.
pub fn bind_address() -> (address: (&'static str, u16))
    ensures
        address.0@ == BIND_HOST@,
        address.1 == BIND_PORT,
        address.1 == 7878,
{
    (BIND_HOST, BIND_PORT)
}

/// Takes one event in one state and returns the next state with the action
/// to perform.
pub fn step(state: ListenerState, event: ListenerEvent) -> (next: (ListenerState, ListenerAction))
    ensures
        next == listener_step(state, event),
{
    match (state, event) {
        (ListenerState::Starting, ListenerEvent::Bound) => (
            ListenerState::Listening,
            ListenerAction::Announce,
        ),
        (ListenerState::Starting, ListenerEvent::BindFailed) => (
            ListenerState::Stopped,
            ListenerAction::Exit,
        ),
        (ListenerState::Listening, ListenerEvent::ConnectionAccepted) => (
            ListenerState::Listening,
            ListenerAction::Dispatch,
        ),
        (ListenerState::Listening, ListenerEvent::AcceptFailed) => (
            ListenerState::Listening,
            ListenerAction::RecordAcceptFailure,
        ),
        _ => (state, ListenerAction::Nothing),
    }
}

/// A listener that listens goes on listening whatever happens: no accept
/// error ends it, and each event is acted on as if it were the first, so a
/// connection that arrives after any number of failures is still dispatched.
pub proof fn listening_never_ends(events: Seq<ListenerEvent>)
    ensures
        listener_run(ListenerState::Listening, events).0 == ListenerState::Listening,
        listener_run(ListenerState::Listening, events).1.len() == events.len(),
        forall|i: int|
            0 <= i < events.len() ==> #[trigger] listener_run(ListenerState::Listening, events).1[i]
                == listener_step(ListenerState::Listening, events[i]).1,
    decreases events.len(),
{
    if events.len() > 0 {
        let tail = events.drop_first();
        listening_never_ends(tail);
        let (next, action) = listener_step(ListenerState::Listening, events[0]);
        assert(next == ListenerState::Listening);
        let rest = listener_run(ListenerState::Listening, tail).1;
        assert forall|i: int| 0 <= i < events.len() implies #[trigger] listener_run(
            ListenerState::Listening,
            events,
        ).1[i] == listener_step(ListenerState::Listening, events[i]).1 by {
            if i > 0 {
                assert((seq![action] + rest)[i] == rest[i - 1]);
                assert(tail[i - 1] == events[i]);
            }
        }
    }
}

/// A failed accept is recorded and leaves the listener listening; the next
/// connection is dispatched.
pub proof fn accept_failure_is_survived()
    ensures
        listener_step(ListenerState::Listening, ListenerEvent::AcceptFailed) == (
            ListenerState::Listening,
            ListenerAction::RecordAcceptFailure,
        ),
        listener_run(
            ListenerState::Listening,
            seq![ListenerEvent::AcceptFailed, ListenerEvent::ConnectionAccepted],
        ) == (
            ListenerState::Listening,
            seq![ListenerAction::RecordAcceptFailure, ListenerAction::Dispatch],
        ),
{
    let events = seq![ListenerEvent::AcceptFailed, ListenerEvent::ConnectionAccepted];
    listening_never_ends(events);
    assert(listener_run(ListenerState::Listening, events).1 =~= seq![
        ListenerAction::RecordAcceptFailure,
        ListenerAction::Dispatch,
    ]);
}

/// A failed bind stops the listener for good: nothing is accepted after it.
pub proof fn bind_failure_is_final(events: Seq<ListenerEvent>)
    ensures
        listener_step(ListenerState::Starting, ListenerEvent::BindFailed) == (
            ListenerState::Stopped,
            ListenerAction::Exit,
        ),
        listener_run(ListenerState::Stopped, events).0 == ListenerState::Stopped,
        listener_run(ListenerState::Stopped, events).1.len() == events.len(),
        forall|i: int|
            0 <= i < events.len() ==> #[trigger] listener_run(ListenerState::Stopped, events).1[i]
                == ListenerAction::Nothing,
    decreases events.len(),
{
    if events.len() > 0 {
        let tail = events.drop_first();
        bind_failure_is_final(tail);
        let rest = listener_run(ListenerState::Stopped, tail).1;
        assert forall|i: int| 0 <= i < events.len() implies #[trigger] listener_run(
            ListenerState::Stopped,
            events,
        ).1[i] == ListenerAction::Nothing by {
            if i > 0 {
                assert((seq![ListenerAction::Nothing] + rest)[i] == rest[i - 1]);
            }
        }
    }
}

} // verus!
