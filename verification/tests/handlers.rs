use sse_bridge::frame::session_frame;
use sse_bridge::handler::{
    handle_delete, handle_post, open_failure_status, stream_step, StreamStep, STATUS_ACCEPTED,
    STATUS_BAD_REQUEST, STATUS_NOT_FOUND, STATUS_OK, STATUS_UNAVAILABLE,
};
use sse_bridge::message::{Event, TransportError};
use sse_bridge::registry::Registry;

#[test]
fn post_without_session_header_is_bad_request() {
    let mut reg = Registry::new();
    let code = handle_post(&mut reg, None, Some(1), Some("increment".to_string()));
    assert_eq!(code, STATUS_BAD_REQUEST);
}

#[test]
fn post_with_malformed_body_is_bad_request() {
    let mut reg = Registry::new();
    let grant = reg.open_stream(None).unwrap();
    assert_eq!(
        handle_post(&mut reg, Some(grant.session_id), None, Some("increment".to_string())),
        STATUS_BAD_REQUEST
    );
    assert_eq!(
        handle_post(&mut reg, Some(grant.session_id), Some(1), None),
        STATUS_BAD_REQUEST
    );
    // Nothing was enqueued by the rejected requests.
    assert_eq!(reg.take_events(grant.session_id, grant.epoch).unwrap(), Some(vec![]));
}

#[test]
fn post_to_unknown_session_is_not_found() {
    let mut reg = Registry::new();
    let code = handle_post(&mut reg, Some(77), Some(1), Some("increment".to_string()));
    assert_eq!(code, STATUS_NOT_FOUND);
}

#[test]
fn accepted_post_reaches_exactly_its_session() {
    let mut reg = Registry::new();
    let a = reg.open_stream(None).unwrap();
    let b = reg.open_stream(None).unwrap();

    let code = handle_post(&mut reg, Some(a.session_id), Some(1), Some("increment".to_string()));
    assert_eq!(code, STATUS_ACCEPTED);
    reg.dispatch_all(a.session_id).unwrap();

    let evs = reg.take_events(a.session_id, a.epoch).unwrap().unwrap();
    assert_eq!(evs, vec![Event::Response { id: 1, result: 1 }]);
    assert_eq!(reg.take_events(b.session_id, b.epoch).unwrap(), Some(vec![]));
}

#[test]
fn delete_statuses() {
    let mut reg = Registry::new();
    assert_eq!(handle_delete(&mut reg, None), STATUS_BAD_REQUEST);
    // Success whether the session ever existed or not.
    assert_eq!(handle_delete(&mut reg, Some(5)), STATUS_OK);
    let grant = reg.open_stream(None).unwrap();
    assert_eq!(handle_delete(&mut reg, Some(grant.session_id)), STATUS_OK);
    assert_eq!(
        handle_post(&mut reg, Some(grant.session_id), Some(1), Some("increment".to_string())),
        STATUS_NOT_FOUND
    );
}

#[test]
fn open_failures_map_to_their_statuses() {
    assert_eq!(open_failure_status(TransportError::SessionNotFound), STATUS_NOT_FOUND);
    assert_eq!(open_failure_status(TransportError::RegistryExhausted), STATUS_UNAVAILABLE);
}

#[test]
fn stream_writer_steps() {
    assert!(matches!(
        stream_step(Err(TransportError::SessionNotFound)),
        StreamStep::Exit
    ));
    // A superseded or cancelled writer exits without an error frame.
    assert!(matches!(stream_step(Ok(None)), StreamStep::Exit));
    assert!(matches!(stream_step(Ok(Some(vec![]))), StreamStep::Wait));
    let evs = vec![Event::Ping];
    match stream_step(Ok(Some(evs.clone()))) {
        StreamStep::Emit(out) => assert_eq!(out, evs),
        _ => panic!("expected an emit step"),
    }
}

#[test]
fn session_frame_announces_the_id() {
    assert_eq!(session_frame(12), b"{\"session\":12}".to_vec());
}
