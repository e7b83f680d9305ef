//! The life of one connection: a single read, then the fixed reply or none.
//!
//! The handler decides; the program around it performs each action on the
//! socket and reports what happened as the next event.

use vstd::prelude::*;
use vstd::utf8::{decode_utf8, valid_utf8};
use crate::request::{consumed, lossy_text, RequestBuffer, REQUEST_CAPACITY};
use crate::response::{build_response, response_bytes};

verus! {

/// Where a connection stands.
#[derive(Clone, Copy, Debug, PartialEq, Eq, Structural)]
pub enum HandlerState {
    /// Accepted by nobody yet.
    Idle,
    /// The single read is under way.
    Reading,
    /// The read succeeded and the reply is being written.
    Responding,
    /// The read failed; no reply will be written.
    Aborted,
    /// The connection is closed.
    Closed,
}

/// What the program reports to the handler.
#[derive(Debug, PartialEq, Eq)]
pub enum HandlerEvent {
    /// The connection was handed to the handler.
    Accepted,
    /// The read returned; the bytes are those that were available to it.
    ReadCompleted(Vec<u8>),
    /// The read returned an error.
    ReadFailed,
    /// The read error was recorded.
    FailureRecorded,
    /// The reply was written and flushed in full.
    WriteCompleted,
    /// Writing or flushing the reply returned an error.
    WriteFailed,
}

/// What the handler asks the program to do next.
#[derive(Debug, PartialEq, Eq)]
pub enum HandlerAction {
    /// Read once, taking at most `capacity` bytes.
    Read { capacity: usize },
    /// Show `request`, then write `response` and flush it.
    Respond { request: String, response: Vec<u8> },
    /// Record that the read failed. Nothing is written to the peer.
    RecordReadFailure,
    /// Close the connection.
    Close,
    /// Close the connection and end this handler as failed. Other
    /// connections are not affected.
    Fail,
    /// Nothing to do: the event does not belong to the state.
    Nothing,
}

/// The value of an event.
pub enum EventView {
    Accepted,
    ReadCompleted(Seq<u8>),
    ReadFailed,
    FailureRecorded,
    WriteCompleted,
    WriteFailed,
}

/// The value of an action.
pub enum ActionView {
    Read { capacity: nat },
    Respond { request: Seq<char>, response: Seq<u8> },
    RecordReadFailure,
    Close,
    Fail,
    Nothing,
}

impl View for HandlerEvent {
    type V = EventView;

    open spec fn view(&self) -> EventView {
        match self {
            HandlerEvent::Accepted => EventView::Accepted,
            HandlerEvent::ReadCompleted(bytes) => EventView::ReadCompleted(bytes@),
            HandlerEvent::ReadFailed => EventView::ReadFailed,
            HandlerEvent::FailureRecorded => EventView::FailureRecorded,
            HandlerEvent::WriteCompleted => EventView::WriteCompleted,
            HandlerEvent::WriteFailed => EventView::WriteFailed,
        }
    }
}

impl View for HandlerAction {
    type V = ActionView;

    open spec fn view(&self) -> ActionView {
        match self {
            HandlerAction::Read { capacity } => ActionView::Read { capacity: *capacity as nat },
            HandlerAction::Respond { request, response } => ActionView::Respond {
                request: request@,
                response: response@,
            },
            HandlerAction::RecordReadFailure => ActionView::RecordReadFailure,
            HandlerAction::Close => ActionView::Close,
            HandlerAction::Fail => ActionView::Fail,
            HandlerAction::Nothing => ActionView::Nothing,
        }
    }
}

/// The reply to a request whose text is `request`: the fixed response,
/// whatever the request holds.
pub open spec fn reply(request: Seq<char>) -> ActionView {
    ActionView::Respond { request, response: response_bytes() }
}

/// The handler's rule: the state after `event` and the action it calls for.
///
/// A read that completes is a success however many bytes it found, none
/// included. An event that does not belong to the state changes nothing.
pub open spec fn handler_step(state: HandlerState, event: EventView) -> (HandlerState, ActionView) {
    match (state, event) {
        (HandlerState::Idle, EventView::Accepted) => (
            HandlerState::Reading,
            ActionView::Read { capacity: REQUEST_CAPACITY as nat },
        ),
        (HandlerState::Reading, EventView::ReadCompleted(available)) => (
            HandlerState::Responding,
            reply(lossy_text(consumed(available))),
        ),
        (HandlerState::Reading, EventView::ReadFailed) => (
            HandlerState::Aborted,
            ActionView::RecordReadFailure,
        ),
        (HandlerState::Aborted, EventView::FailureRecorded) => (
            HandlerState::Closed,
            ActionView::Close,
        ),
        (HandlerState::Responding, EventView::WriteCompleted) => (
            HandlerState::Closed,
            ActionView::Close,
        ),
        (HandlerState::Responding, EventView::WriteFailed) => (
            HandlerState::Closed,
            ActionView::Fail,
        ),
        _ => (state, ActionView::Nothing),
    }
}

/// The action that answers a request whose text is `request`.
pub fn reply_to(request: String) -> (action: HandlerAction)
    ensures
        action@ == reply(request@),
{
    HandlerAction::Respond { request, response: build_response() }
}

/// Takes one event in one state and returns the next state with the action
/// to perform. Where the bytes that a completed read took are valid UTF-8,
/// the request shown is exactly the text they encode.
pub fn step(state: HandlerState, event: HandlerEvent) -> (next: (HandlerState, HandlerAction))
    ensures
        (next.0, next.1@) == handler_step(state, event@),
        state == HandlerState::Reading ==> match event@ {
            EventView::ReadCompleted(available) => valid_utf8(consumed(available)) ==> next.1@
                == reply(decode_utf8(consumed(available))),
            _ => true,
        },
{
    match (state, event) {
        (HandlerState::Idle, HandlerEvent::Accepted) => (
            HandlerState::Reading,
            HandlerAction::Read { capacity: REQUEST_CAPACITY },
        ),
        (HandlerState::Reading, HandlerEvent::ReadCompleted(available)) => {
            let mut buffer = RequestBuffer::new();
            buffer.fill(available.as_slice());
            (HandlerState::Responding, reply_to(buffer.text()))
        },
        (HandlerState::Reading, HandlerEvent::ReadFailed) => (
            HandlerState::Aborted,
            HandlerAction::RecordReadFailure,
        ),
        (HandlerState::Aborted, HandlerEvent::FailureRecorded) => (
            HandlerState::Closed,
            HandlerAction::Close,
        ),
        (HandlerState::Responding, HandlerEvent::WriteCompleted) => (
            HandlerState::Closed,
            HandlerAction::Close,
        ),
        (HandlerState::Responding, HandlerEvent::WriteFailed) => (
            HandlerState::Closed,
            HandlerAction::Fail,
        ),
        _ => (state, HandlerAction::Nothing),
    }
}

} // verus!
