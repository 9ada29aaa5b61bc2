use pgrag::client::{CallAction, CallError, CallEvent, CallState, ClientCall};

const EXT: &str = "rag_bge_small_en_v15";

#[test]
fn call_connects_to_the_endpoint_of_the_recorded_identity() {
    let mut call = ClientCall::new(EXT);
    assert_eq!(call.current(), CallState::Idle);
    assert_eq!(
        call.step(CallEvent::Begun(Some(4242))),
        CallAction::Connect("/tmp/.s.pgrag.rag_bge_small_en_v15.4242".to_string())
    );
    assert_eq!(call.current(), CallState::Connecting(4242));
}

#[test]
fn call_sends_one_request_and_delivers_one_reply() {
    let mut call = ClientCall::new(EXT);
    call.step(CallEvent::Begun(Some(1)));
    assert_eq!(call.step(CallEvent::Connected), CallAction::Send);
    assert_eq!(call.current(), CallState::Awaiting);
    assert_eq!(call.step(CallEvent::Replied), CallAction::Deliver);
    assert_eq!(call.current(), CallState::Done);
}

#[test]
fn call_without_a_recorded_identity_fails() {
    let mut call = ClientCall::new(EXT);
    let action = call.step(CallEvent::Begun(None));
    assert_eq!(
        action,
        CallAction::Fail(CallError::Unreachable {
            endpoint: None,
            cause: "Couldn't get PID".to_string(),
        })
    );
    assert_eq!(call.current(), CallState::Done);
}

#[test]
fn call_that_cannot_connect_is_unreachable() {
    let mut call = ClientCall::new(EXT);
    call.step(CallEvent::Begun(Some(7)));
    let action = call.step(CallEvent::ConnectFailed("Connection refused".to_string()));
    assert_eq!(
        action,
        CallAction::Fail(CallError::Unreachable {
            endpoint: Some("/tmp/.s.pgrag.rag_bge_small_en_v15.7".to_string()),
            cause: "Connection refused".to_string(),
        })
    );
    assert_eq!(call.current(), CallState::Done);
}

#[test]
fn call_that_is_refused_carries_the_message_of_the_service() {
    let mut call = ClientCall::new(EXT);
    call.step(CallEvent::Begun(Some(7)));
    call.step(CallEvent::Connected);
    let action = call.step(CallEvent::Refused("Embedding process crashed".to_string()));
    assert_eq!(
        action,
        CallAction::Fail(CallError::ServiceError("Embedding process crashed".to_string()))
    );
    assert_eq!(call.current(), CallState::Done);
}

#[test]
fn call_is_not_tried_again() {
    let mut call = ClientCall::new(EXT);
    call.step(CallEvent::Begun(Some(7)));
    call.step(CallEvent::ConnectFailed("No such file or directory".to_string()));
    for event in [
        CallEvent::Begun(Some(7)),
        CallEvent::Connected,
        CallEvent::ConnectFailed("again".to_string()),
        CallEvent::Replied,
        CallEvent::Refused("late".to_string()),
    ] {
        assert_eq!(call.step(event), CallAction::Nothing);
        assert_eq!(call.current(), CallState::Done);
    }
}

#[test]
fn call_asks_for_one_connection_and_one_request_at_most() {
    let events = || {
        vec![
            CallEvent::Connected,
            CallEvent::Begun(Some(3)),
            CallEvent::Begun(Some(4)),
            CallEvent::Replied,
            CallEvent::Connected,
            CallEvent::Connected,
            CallEvent::Begun(None),
            CallEvent::Replied,
            CallEvent::Replied,
            CallEvent::Refused("x".to_string()),
        ]
    };
    let mut call = ClientCall::new(EXT);
    let mut connects = 0;
    let mut sends = 0;
    let mut ends = 0;
    for event in events() {
        match call.step(event) {
            CallAction::Connect(path) => {
                assert_eq!(path, "/tmp/.s.pgrag.rag_bge_small_en_v15.3");
                connects += 1;
            }
            CallAction::Send => sends += 1,
            CallAction::Deliver | CallAction::Fail(_) => ends += 1,
            CallAction::Nothing => {}
        }
    }
    assert_eq!((connects, sends, ends), (1, 1, 1));
}

#[test]
fn events_out_of_place_leave_the_call_as_it_is() {
    let mut call = ClientCall::new(EXT);
    assert_eq!(call.step(CallEvent::Replied), CallAction::Nothing);
    assert_eq!(call.step(CallEvent::Connected), CallAction::Nothing);
    assert_eq!(call.current(), CallState::Idle);
    call.step(CallEvent::Begun(Some(1)));
    assert_eq!(call.step(CallEvent::Replied), CallAction::Nothing);
    assert_eq!(call.step(CallEvent::Refused("x".to_string())), CallAction::Nothing);
    assert_eq!(call.current(), CallState::Connecting(1));
}

#[test]
fn host_message_of_a_missing_identity() {
    let error = CallError::Unreachable { endpoint: None, cause: "Couldn't get PID".to_string() };
    assert_eq!(error.pg_error().message, "[neon_ai] Couldn't get PID");
}

#[test]
fn host_message_of_a_failed_connection() {
    let error = CallError::Unreachable {
        endpoint: Some("/tmp/.s.pgrag.ext.7".to_string()),
        cause: "Connection refused".to_string(),
    };
    assert_eq!(
        error.pg_error().message,
        "[neon_ai] Couldn't connect worker stream /tmp/.s.pgrag.ext.7: Connection refused"
    );
}

#[test]
fn host_message_of_a_service_error() {
    let error = CallError::ServiceError("Empty result vector".to_string());
    assert_eq!(
        error.pg_error().message,
        "[neon_ai] Worker process returned error: Empty result vector"
    );
}
