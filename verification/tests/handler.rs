use hello_server::handler::{reply_to, step, HandlerAction, HandlerEvent, HandlerState};
use hello_server::response::build_response;

const WIRE_IMAGE: &[u8] =
    b"HTTP/1.1 200 OK\r\nContent-Length: 37\r\n\r\n<h1>Hello from your Rust server!</h1>";

const STATES: [HandlerState; 5] = [
    HandlerState::Idle,
    HandlerState::Reading,
    HandlerState::Responding,
    HandlerState::Aborted,
    HandlerState::Closed,
];

fn events() -> Vec<HandlerEvent> {
    vec![
        HandlerEvent::Accepted,
        HandlerEvent::ReadCompleted(b"hello".to_vec()),
        HandlerEvent::ReadFailed,
        HandlerEvent::FailureRecorded,
        HandlerEvent::WriteCompleted,
        HandlerEvent::WriteFailed,
    ]
}

fn run(events: Vec<HandlerEvent>) -> (HandlerState, Vec<HandlerAction>) {
    let mut state = HandlerState::Idle;
    let mut actions = Vec::new();
    for event in events {
        let (next, action) = step(state, event);
        state = next;
        actions.push(action);
    }
    (state, actions)
}

fn respond(request: &str) -> HandlerAction {
    HandlerAction::Respond { request: request.to_string(), response: WIRE_IMAGE.to_vec() }
}

fn serve(payload: &[u8]) -> (HandlerState, Vec<HandlerAction>) {
    run(vec![
        HandlerEvent::Accepted,
        HandlerEvent::ReadCompleted(payload.to_vec()),
        HandlerEvent::WriteCompleted,
    ])
}

#[test]
fn accepted_connection_is_read_once_with_capacity() {
    assert_eq!(
        step(HandlerState::Idle, HandlerEvent::Accepted),
        (HandlerState::Reading, HandlerAction::Read { capacity: 1024 })
    );
}

#[test]
fn completed_read_is_answered_with_the_fixed_response() {
    let (next, action) =
        step(HandlerState::Reading, HandlerEvent::ReadCompleted(b"GET / HTTP/1.1\r\n\r\n".to_vec()));
    assert_eq!(next, HandlerState::Responding);
    assert_eq!(action, respond("GET / HTTP/1.1\r\n\r\n"));
}

#[test]
fn failed_read_is_recorded_and_not_answered() {
    assert_eq!(
        step(HandlerState::Reading, HandlerEvent::ReadFailed),
        (HandlerState::Aborted, HandlerAction::RecordReadFailure)
    );
    assert_eq!(
        step(HandlerState::Aborted, HandlerEvent::FailureRecorded),
        (HandlerState::Closed, HandlerAction::Close)
    );
}

#[test]
fn completed_write_closes_the_connection() {
    assert_eq!(
        step(HandlerState::Responding, HandlerEvent::WriteCompleted),
        (HandlerState::Closed, HandlerAction::Close)
    );
}

#[test]
fn failed_write_fails_the_handler() {
    assert_eq!(
        step(HandlerState::Responding, HandlerEvent::WriteFailed),
        (HandlerState::Closed, HandlerAction::Fail)
    );
}

#[test]
fn events_out_of_place_change_nothing() {
    for state in STATES {
        for event in events() {
            let in_place = matches!(
                (state, &event),
                (HandlerState::Idle, HandlerEvent::Accepted)
                    | (HandlerState::Reading, HandlerEvent::ReadCompleted(_))
                    | (HandlerState::Reading, HandlerEvent::ReadFailed)
                    | (HandlerState::Aborted, HandlerEvent::FailureRecorded)
                    | (HandlerState::Responding, HandlerEvent::WriteCompleted)
                    | (HandlerState::Responding, HandlerEvent::WriteFailed)
            );
            let (next, action) = step(state, event);
            if in_place {
                assert_ne!(next, state);
                assert_ne!(action, HandlerAction::Nothing);
            } else {
                assert_eq!(next, state);
                assert_eq!(action, HandlerAction::Nothing);
            }
        }
    }
}

#[test]
fn closed_connection_stays_closed() {
    for event in events() {
        assert_eq!(
            step(HandlerState::Closed, event),
            (HandlerState::Closed, HandlerAction::Nothing)
        );
    }
}

#[test]
fn reply_to_carries_request_and_fixed_response() {
    assert_eq!(reply_to("anything".to_string()), respond("anything"));
    assert_eq!(reply_to(String::new()), respond(""));
    match reply_to("x".to_string()) {
        HandlerAction::Respond { response, .. } => assert_eq!(response, build_response()),
        other => panic!("unexpected action {:?}", other),
    }
}

#[test]
fn small_request_gets_exactly_one_response() {
    let (state, actions) = serve(b"GET /index.html HTTP/1.1\r\n\r\n");
    assert_eq!(state, HandlerState::Closed);
    assert_eq!(
        actions,
        vec![
            HandlerAction::Read { capacity: 1024 },
            respond("GET /index.html HTTP/1.1\r\n\r\n"),
            HandlerAction::Close,
        ]
    );
    let responses =
        actions.iter().filter(|a| matches!(a, HandlerAction::Respond { .. })).count();
    assert_eq!(responses, 1);
}

#[test]
fn empty_request_still_gets_the_response() {
    let (state, actions) = serve(b"");
    assert_eq!(state, HandlerState::Closed);
    assert_eq!(
        actions,
        vec![HandlerAction::Read { capacity: 1024 }, respond(""), HandlerAction::Close]
    );
}

#[test]
fn request_of_exactly_the_capacity_is_shown_whole() {
    let payload = vec![b'a'; 1024];
    let (_, actions) = serve(&payload);
    assert_eq!(actions[1], respond(&"a".repeat(1024)));
}

#[test]
fn oversized_request_is_cut_and_still_answered() {
    let mut payload = vec![b'a'; 1024];
    payload.extend_from_slice(b"beyond the buffer");
    let (state, actions) = serve(&payload);
    assert_eq!(state, HandlerState::Closed);
    assert_eq!(actions[1], respond(&"a".repeat(1024)));
    assert_eq!(actions.len(), 3);
}

#[test]
fn malformed_request_is_shown_with_replacements_and_answered() {
    let (state, actions) = serve(&[0xff, 0xfe, b'G', b'E', b'T', 0x80]);
    assert_eq!(state, HandlerState::Closed);
    assert_eq!(actions[1], respond("\u{fffd}\u{fffd}GET\u{fffd}"));
}

#[test]
fn read_failure_ends_without_a_response() {
    let (state, actions) =
        run(vec![HandlerEvent::Accepted, HandlerEvent::ReadFailed, HandlerEvent::FailureRecorded]);
    assert_eq!(state, HandlerState::Closed);
    assert_eq!(
        actions,
        vec![
            HandlerAction::Read { capacity: 1024 },
            HandlerAction::RecordReadFailure,
            HandlerAction::Close,
        ]
    );
}

#[test]
fn write_failure_ends_the_handler_as_failed() {
    let (state, actions) = run(vec![
        HandlerEvent::Accepted,
        HandlerEvent::ReadCompleted(b"x".to_vec()),
        HandlerEvent::WriteFailed,
    ]);
    assert_eq!(state, HandlerState::Closed);
    assert_eq!(actions[2], HandlerAction::Fail);
}

#[test]
fn repeated_events_never_give_a_second_response() {
    let (state, actions) = run(vec![
        HandlerEvent::Accepted,
        HandlerEvent::ReadCompleted(b"one".to_vec()),
        HandlerEvent::ReadCompleted(b"two".to_vec()),
        HandlerEvent::Accepted,
        HandlerEvent::WriteCompleted,
        HandlerEvent::ReadCompleted(b"three".to_vec()),
        HandlerEvent::Accepted,
    ]);
    assert_eq!(state, HandlerState::Closed);
    let responses =
        actions.iter().filter(|a| matches!(a, HandlerAction::Respond { .. })).count();
    assert_eq!(responses, 1);
    assert_eq!(actions[1], respond("one"));
}

#[test]
fn fifty_connections_each_get_the_fixed_response() {
    let mut handlers: Vec<(HandlerState, Vec<u8>)> = Vec::new();
    for i in 0..50usize {
        let payload = format!("GET /{} HTTP/1.1\r\n\r\n", i).into_bytes();
        let (state, action) = step(HandlerState::Idle, HandlerEvent::Accepted);
        assert_eq!(action, HandlerAction::Read { capacity: 1024 });
        handlers.push((state, payload));
    }
    // Interleave: every read completes before any write does, last first.
    let mut responded: Vec<HandlerState> = Vec::new();
    for (i, (state, payload)) in handlers.iter().enumerate().rev() {
        let (next, action) = step(*state, HandlerEvent::ReadCompleted(payload.clone()));
        assert_eq!(action, respond(&format!("GET /{} HTTP/1.1\r\n\r\n", i)));
        responded.push(next);
    }
    for state in responded {
        assert_eq!(
            step(state, HandlerEvent::WriteCompleted),
            (HandlerState::Closed, HandlerAction::Close)
        );
    }
}
