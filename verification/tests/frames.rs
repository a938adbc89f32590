use sse_bridge::frame::event_frame;
use sse_bridge::message::Event;

#[test]
fn response_frame_is_exact() {
    let bytes = event_frame(&Event::Response { id: 1, result: 2 });
    assert_eq!(bytes, b"{\"id\":1,\"result\":2}".to_vec());
}

#[test]
fn response_frame_with_wide_numbers() {
    let bytes = event_frame(&Event::Response { id: 1234567890, result: u64::MAX });
    assert_eq!(
        bytes,
        b"{\"id\":1234567890,\"result\":18446744073709551615}".to_vec()
    );
}

#[test]
fn error_frame_carries_the_signed_code() {
    let bytes = event_frame(&Event::Error { id: 3, code: -32601 });
    assert_eq!(bytes, b"{\"id\":3,\"error\":{\"code\":-32601}}".to_vec());
}

#[test]
fn ping_frame_is_a_comment() {
    let bytes = event_frame(&Event::Ping);
    assert_eq!(bytes, b": keep-alive".to_vec());
}
