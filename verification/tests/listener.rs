use hello_server::listener::{
    bind_address, step, ListenerAction, ListenerEvent, ListenerState, BIND_HOST, BIND_PORT,
};

const EVENTS: [ListenerEvent; 4] = [
    ListenerEvent::Bound,
    ListenerEvent::BindFailed,
    ListenerEvent::ConnectionAccepted,
    ListenerEvent::AcceptFailed,
];

#[test]
fn binds_to_loopback_port_7878() {
    assert_eq!(bind_address(), ("127.0.0.1", 7878));
    assert_eq!(BIND_HOST, "127.0.0.1");
    assert_eq!(BIND_PORT, 7878);
}

#[test]
fn successful_bind_starts_listening() {
    assert_eq!(
        step(ListenerState::Starting, ListenerEvent::Bound),
        (ListenerState::Listening, ListenerAction::Announce)
    );
}

#[test]
fn failed_bind_ends_the_process() {
    assert_eq!(
        step(ListenerState::Starting, ListenerEvent::BindFailed),
        (ListenerState::Stopped, ListenerAction::Exit)
    );
}

#[test]
fn accepted_connection_is_dispatched() {
    assert_eq!(
        step(ListenerState::Listening, ListenerEvent::ConnectionAccepted),
        (ListenerState::Listening, ListenerAction::Dispatch)
    );
}

#[test]
fn accept_failure_is_recorded_and_listening_goes_on() {
    assert_eq!(
        step(ListenerState::Listening, ListenerEvent::AcceptFailed),
        (ListenerState::Listening, ListenerAction::RecordAcceptFailure)
    );
}

#[test]
fn connection_after_accept_failures_is_still_dispatched() {
    let mut state = ListenerState::Listening;
    for _ in 0..100 {
        let (next, action) = step(state, ListenerEvent::AcceptFailed);
        assert_eq!(action, ListenerAction::RecordAcceptFailure);
        state = next;
    }
    assert_eq!(
        step(state, ListenerEvent::ConnectionAccepted),
        (ListenerState::Listening, ListenerAction::Dispatch)
    );
}

#[test]
fn listening_survives_every_event() {
    for event in EVENTS {
        assert_eq!(step(ListenerState::Listening, event).0, ListenerState::Listening);
    }
    assert_eq!(
        step(ListenerState::Listening, ListenerEvent::Bound).1,
        ListenerAction::Nothing
    );
    assert_eq!(
        step(ListenerState::Listening, ListenerEvent::BindFailed).1,
        ListenerAction::Nothing
    );
}

#[test]
fn nothing_is_accepted_before_the_bind() {
    assert_eq!(
        step(ListenerState::Starting, ListenerEvent::ConnectionAccepted),
        (ListenerState::Starting, ListenerAction::Nothing)
    );
    assert_eq!(
        step(ListenerState::Starting, ListenerEvent::AcceptFailed),
        (ListenerState::Starting, ListenerAction::Nothing)
    );
}

#[test]
fn stopped_listener_does_nothing() {
    for event in EVENTS {
        assert_eq!(
            step(ListenerState::Stopped, event),
            (ListenerState::Stopped, ListenerAction::Nothing)
        );
    }
}
