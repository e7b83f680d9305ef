//! Whole connections: what the handler does over a sequence of events.

use vstd::prelude::*;
use crate::handler::{handler_step, reply, ActionView, EventView, HandlerState};
use crate::request::{consumed, lossy_text, REQUEST_CAPACITY};
use crate::response::response_bytes;

verus! {

/// Feeds `events` to the handler one after another, starting in `state`.
/// Gives the state reached and the actions called for, one per event.
pub open spec fn handler_run(state: HandlerState, events: Seq<EventView>) -> (
    HandlerState,
    Seq<ActionView>,
)
    decreases events.len(),
{
    if events.len() == 0 {
        (state, Seq::empty())
    } else {
        let (next, action) = handler_step(state, events[0]);
        let (last, rest) = handler_run(next, events.drop_first());
        (last, seq![action] + rest)
    }
}

/// How many of `actions` write a reply.
pub open spec fn response_count(actions: Seq<ActionView>) -> nat
    decreases actions.len(),
{
    if actions.len() == 0 {
        0
    } else {
        let first: nat = if actions[0] is Respond { 1 } else { 0 };
        first + response_count(actions.drop_first())
    }
}

/// How many of `actions` read from the connection.
pub open spec fn read_count(actions: Seq<ActionView>) -> nat
    decreases actions.len(),
{
    if actions.len() == 0 {
        0
    } else {
        let first: nat = if actions[0] is Read { 1 } else { 0 };
        first + read_count(actions.drop_first())
    }
}

/// True where a reply can still be written from `state`.
pub open spec fn can_still_respond(state: HandlerState) -> bool {
    state == HandlerState::Idle || state == HandlerState::Reading
}

/// A run calls for one action per event.
pub proof fn run_length(state: HandlerState, events: Seq<EventView>)
    ensures
        handler_run(state, events).1.len() == events.len(),
    decreases events.len(),
{
    if events.len() > 0 {
        run_length(handler_step(state, events[0]).0, events.drop_first());
    }
}

/// Whatever events arrive and in whatever order, a connection is answered at
/// most once, and not at all once its read is over.
pub proof fn at_most_one_response(state: HandlerState, events: Seq<EventView>)
    ensures
        response_count(handler_run(state, events).1) <= 1,
        !can_still_respond(state) ==> response_count(handler_run(state, events).1) == 0,
    decreases events.len(),
{
    if events.len() > 0 {
        let (next, action) = handler_step(state, events[0]);
        let rest = handler_run(next, events.drop_first()).1;
        at_most_one_response(next, events.drop_first());
        assert((seq![action] + rest).drop_first() =~= rest);
        assert((seq![action] + rest)[0] == action);
    }
}

/// Whatever events arrive and in whatever order, a connection is read at most
/// once, and never again once the read has begun.
pub proof fn at_most_one_read(state: HandlerState, events: Seq<EventView>)
    ensures
        read_count(handler_run(state, events).1) <= 1,
        state != HandlerState::Idle ==> read_count(handler_run(state, events).1) == 0,
    decreases events.len(),
{
    if events.len() > 0 {
        let (next, action) = handler_step(state, events[0]);
        let rest = handler_run(next, events.drop_first()).1;
        at_most_one_read(next, events.drop_first());
        assert((seq![action] + rest).drop_first() =~= rest);
        assert((seq![action] + rest)[0] == action);
    }
}

/// Every reply that a run calls for carries the fixed response.
pub proof fn every_response_is_fixed(state: HandlerState, events: Seq<EventView>, i: int)
    requires
        0 <= i < events.len(),
        handler_run(state, events).1[i] is Respond,
    ensures
        handler_run(state, events).1[i]->response == response_bytes(),
    decreases events.len(),
{
    let (next, action) = handler_step(state, events[0]);
    let rest = handler_run(next, events.drop_first()).1;
    run_length(next, events.drop_first());
    if i > 0 {
        assert((seq![action] + rest)[i] == rest[i - 1]);
        every_response_is_fixed(next, events.drop_first(), i - 1);
    }
}

/// A closed connection stays closed and calls for nothing more.
pub proof fn closed_is_final(events: Seq<EventView>)
    ensures
        handler_run(HandlerState::Closed, events).0 == HandlerState::Closed,
        forall|i: int|
            0 <= i < events.len() ==> #[trigger] handler_run(HandlerState::Closed, events).1[i]
                == ActionView::Nothing,
    decreases events.len(),
{
    if events.len() > 0 {
        closed_is_final(events.drop_first());
        run_length(HandlerState::Closed, events.drop_first());
        let rest = handler_run(HandlerState::Closed, events.drop_first()).1;
        assert forall|i: int| 0 <= i < events.len() implies #[trigger] handler_run(
            HandlerState::Closed,
            events,
        ).1[i] == ActionView::Nothing by {
            if i > 0 {
                assert((seq![ActionView::Nothing] + rest)[i] == rest[i - 1]);
            }
        }
    }
}

/// The events of a connection whose read and write both succeed.
pub open spec fn served(available: Seq<u8>) -> Seq<EventView> {
    seq![EventView::Accepted, EventView::ReadCompleted(available), EventView::WriteCompleted]
}

/// The events of a connection whose read fails.
pub open spec fn read_failure() -> Seq<EventView> {
    seq![EventView::Accepted, EventView::ReadFailed, EventView::FailureRecorded]
}

/// The events of a connection whose read succeeds and whose write fails.
pub open spec fn write_failure(available: Seq<u8>) -> Seq<EventView> {
    seq![EventView::Accepted, EventView::ReadCompleted(available), EventView::WriteFailed]
}

/// A connection whose read succeeds is answered exactly once with the fixed
/// response and then closed, whatever was available to the read: nothing at
/// all, bytes that are no UTF-8, or more than the read can take.
pub proof fn served_connection(available: Seq<u8>)
    ensures
        handler_run(HandlerState::Idle, served(available)) == (
            HandlerState::Closed,
            seq![
                ActionView::Read { capacity: REQUEST_CAPACITY as nat },
                reply(lossy_text(consumed(available))),
                ActionView::Close,
            ],
        ),
        response_count(handler_run(HandlerState::Idle, served(available)).1) == 1,
{
    reveal_with_fuel(handler_run, 4);
    reveal_with_fuel(response_count, 4);
    let events = served(available);
    let tail1 = events.drop_first();
    let tail2 = tail1.drop_first();
    assert(tail2.drop_first().len() == 0);
    let actions = handler_run(HandlerState::Idle, events).1;
    let expected = seq![
        ActionView::Read { capacity: REQUEST_CAPACITY as nat },
        reply(lossy_text(consumed(available))),
        ActionView::Close,
    ];
    assert(actions =~= expected);
    assert(expected.drop_first().drop_first().drop_first().len() == 0);
}

/// A connection whose read fails is closed without any reply.
pub proof fn unread_connection()
    ensures
        handler_run(HandlerState::Idle, read_failure()) == (
            HandlerState::Closed,
            seq![
                ActionView::Read { capacity: REQUEST_CAPACITY as nat },
                ActionView::RecordReadFailure,
                ActionView::Close,
            ],
        ),
        response_count(handler_run(HandlerState::Idle, read_failure()).1) == 0,
{
    reveal_with_fuel(handler_run, 4);
    reveal_with_fuel(response_count, 4);
    let events = read_failure();
    assert(events.drop_first().drop_first().drop_first().len() == 0);
    let actions = handler_run(HandlerState::Idle, events).1;
    let expected = seq![
        ActionView::Read { capacity: REQUEST_CAPACITY as nat },
        ActionView::RecordReadFailure,
        ActionView::Close,
    ];
    assert(actions =~= expected);
    assert(expected.drop_first().drop_first().drop_first().len() == 0);
}

/// A failed write ends the handler as failed, with the connection closed.
pub proof fn unwritten_connection(available: Seq<u8>)
    ensures
        handler_run(HandlerState::Idle, write_failure(available)) == (
            HandlerState::Closed,
            seq![
                ActionView::Read { capacity: REQUEST_CAPACITY as nat },
                reply(lossy_text(consumed(available))),
                ActionView::Fail,
            ],
        ),
{
    reveal_with_fuel(handler_run, 4);
    let events = write_failure(available);
    assert(events.drop_first().drop_first().drop_first().len() == 0);
    let actions = handler_run(HandlerState::Idle, events).1;
    let expected = seq![
        ActionView::Read { capacity: REQUEST_CAPACITY as nat },
        reply(lossy_text(consumed(available))),
        ActionView::Fail,
    ];
    assert(actions =~= expected);
}

/// Connections do not interfere: each of any number of connections, served
/// in any order or at once, gets the same fixed response, which depends on
/// no other connection and not on its own request either.
pub proof fn connections_are_independent(requests: Seq<Seq<u8>>)
    ensures
        forall|i: int|
            0 <= i < requests.len() ==> (#[trigger] handler_run(
                HandlerState::Idle,
                served(requests[i]),
            )).1[1] == reply(lossy_text(consumed(requests[i]))),
        forall|i: int, j: int|
            0 <= i < requests.len() && 0 <= j < requests.len() ==> (#[trigger] handler_run(
                HandlerState::Idle,
                served(requests[i]),
            )).1[1]->response == (#[trigger] handler_run(
                HandlerState::Idle,
                served(requests[j]),
            )).1[1]->response,
{
    assert forall|i: int| 0 <= i < requests.len() implies (#[trigger] handler_run(
        HandlerState::Idle,
        served(requests[i]),
    )).1[1] == reply(lossy_text(consumed(requests[i]))) by {
        served_connection(requests[i]);
    }
}

} // verus!
