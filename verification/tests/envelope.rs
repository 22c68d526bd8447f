use cacp::codec::{blank_line, classify, empty_object_value, frame_line, Frame, Message, Version};
use cacp::error::Error;
use cacp::id::RequestId;
use cacp::peer::{answer, disconnected, next_step, settle, Step};
use serde_json::Value;

fn object() -> Value {
    Value::Object(serde_json::Map::new())
}

#[test]
fn version_is_exactly_two_point_zero() {
    assert_eq!(Version::text(), "2.0");
    assert_eq!(Version::parse("2.0"), Some(Version));
    assert_eq!(Version::parse("2"), None);
    assert_eq!(Version::parse("1.0"), None);
    assert_eq!(Version::parse(" 2.0"), None);
}

#[test]
fn frames_are_told_apart_by_their_fields() {
    let req = Message::request(RequestId::Num(7), "session/new".to_string(), object());
    match classify(req) {
        Frame::Request { id, method, params } => {
            assert_eq!(id, RequestId::Num(7));
            assert_eq!(method, "session/new");
            assert_eq!(params, Some(object()));
        }
        other => panic!("{other:?}"),
    }
    let note = Message::notification("session/cancel".to_string(), Value::Null);
    assert!(matches!(classify(note), Frame::Notification { .. }));
    let resp = Message::response(RequestId::Str("a".to_string()), Value::Bool(true));
    match classify(resp) {
        Frame::Response { id, outcome } => {
            assert_eq!(id, RequestId::Str("a".to_string()));
            assert_eq!(outcome, Ok(Value::Bool(true)));
        }
        other => panic!("{other:?}"),
    }
}

#[test]
fn error_wins_over_result_and_missing_result_is_empty_object() {
    let mut m = Message::error(Some(RequestId::Num(1)), Error::invalid_params());
    m.result = Some(Value::Bool(true));
    match classify(m) {
        Frame::Response { outcome, .. } => assert_eq!(outcome, Err(Error::invalid_params())),
        other => panic!("{other:?}"),
    }
    let mut m = Message::response(RequestId::Num(2), Value::Null);
    m.result = None;
    match classify(m) {
        Frame::Response { outcome, .. } => assert_eq!(outcome, Ok(object())),
        other => panic!("{other:?}"),
    }
    assert_eq!(empty_object_value(), object());
}

#[test]
fn frame_with_neither_id_nor_method_is_invalid() {
    let m = Message::error(None, Error::parse_error());
    assert!(matches!(classify(m), Frame::Invalid));
}

#[test]
fn lines_are_newline_terminated_and_blank_lines_skipped() {
    assert_eq!(frame_line("{}".to_string()), "{}\n");
    assert!(blank_line(""));
    assert!(blank_line("  \t\r\n"));
    assert!(blank_line("\u{3000}\u{a0}"));
    assert!(!blank_line("  {}  "));
}

#[test]
fn read_loop_steps() {
    match next_step(Err(Error::parse_error())) {
        Step::Reply(m) => {
            assert_eq!(m.id, None);
            assert_eq!(m.error, Some(Error::parse_error()));
        }
        other => panic!("{other:?}"),
    }
    let cancel = Message::notification("$/cancel_request".to_string(), object());
    assert!(matches!(next_step(Ok(cancel)), Step::Cancel { params: Some(_) }));
    let update = Message::notification("session/update".to_string(), object());
    assert!(matches!(next_step(Ok(update)), Step::Notify { .. }));
    let req = Message::request(RequestId::Num(3), "initialize".to_string(), object());
    assert!(matches!(next_step(Ok(req)), Step::Serve { .. }));
    let resp = Message::response(RequestId::Num(3), Value::Null);
    assert!(matches!(next_step(Ok(resp)), Step::Resolve { .. }));
    let bad = Message::error(None, Error::internal_error());
    match next_step(Ok(bad)) {
        Step::Reply(m) => assert_eq!(m.error, Some(Error::invalid_request())),
        other => panic!("{other:?}"),
    }
}

#[test]
fn an_answer_resolves_its_call_with_the_outcome() {
    let m = answer(RequestId::Num(9), Ok(Value::Bool(false)));
    match classify(m) {
        Frame::Response { id, outcome } => {
            assert_eq!(id, RequestId::Num(9));
            assert_eq!(outcome, Ok(Value::Bool(false)));
        }
        other => panic!("{other:?}"),
    }
    let m = answer(RequestId::Num(9), Err(Error::method_not_found()));
    assert_eq!(m.error, Some(Error::method_not_found()));
    assert_eq!(m.result, None);
}

#[test]
fn a_closed_connection_fails_waiters() {
    let e = disconnected();
    assert_eq!(e.code, -32603);
    assert_eq!(e.data, Some(Value::String("connection closed".to_string())));
    assert_eq!(settle(None), Err(disconnected()));
    assert_eq!(settle(Some(Ok(Value::Null))), Ok(Value::Null));
    assert_eq!(settle(Some(Err(Error::auth_required()))), Err(Error::auth_required()));
}
