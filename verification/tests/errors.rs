use cacp::error::Error;
use cacp::id::{RequestId, SessionId};
use cacp::text::decimal_text;
use serde_json::Value;

#[test]
fn standard_codes_and_messages() {
    assert_eq!(Error::parse_error().code, -32700);
    assert_eq!(Error::invalid_request().code, -32600);
    assert_eq!(Error::method_not_found().code, -32601);
    assert_eq!(Error::invalid_params().code, -32602);
    assert_eq!(Error::internal_error().code, -32603);
    assert_eq!(Error::request_cancelled().code, -32800);
    assert_eq!(Error::auth_required().code, -32000);
    assert_eq!(Error::method_not_found().message, "Method not found");
    assert_eq!(Error::request_cancelled().message, "Request cancelled");
    assert_eq!(Error::auth_required().data, None);
}

#[test]
fn auth_required_is_recognised_by_code() {
    assert!(Error::auth_required().is_auth_required());
    assert!(Error::new(-32000, "something else".to_string()).is_auth_required());
    assert!(!Error::internal_error().is_auth_required());
}

#[test]
fn resource_not_found_carries_the_uri() {
    let e = Error::resource_not_found("file:///x".to_string());
    assert_eq!(e.code, -32002);
    let mut expected = serde_json::Map::new();
    expected.insert("uri".to_string(), Value::String("file:///x".to_string()));
    assert_eq!(e.data, Some(Value::Object(expected)));
}

#[test]
fn errors_read_as_message_code_and_data() {
    assert_eq!(Error::invalid_params().describe(), "Invalid params (-32602)");
    let e = Error::invalid_params().with_text("bad".to_string());
    assert_eq!(e.describe(), "Invalid params (-32602): \"bad\"");
    let e = Error::new(5, "odd".to_string()).data(Value::Bool(true));
    assert_eq!(e.describe(), "odd (5): true");
}

#[test]
fn json_and_io_failures_become_wire_errors() {
    let bad = serde_json::from_str::<Value>("{").unwrap_err();
    let e = Error::from_json_error(&bad);
    assert_eq!(e.code, -32700);
    assert_eq!(e.data, Some(Value::String(bad.to_string())));
    let e = Error::from_bad_params(&bad);
    assert_eq!(e.code, -32602);
    let e = Error::from_unencodable(&bad);
    assert_eq!(e.code, -32603);
    let io = std::io::Error::new(std::io::ErrorKind::Other, "pipe gone");
    let e = Error::from_io_error(&io);
    assert_eq!(e.code, -32603);
    assert_eq!(e.data, Some(Value::String("pipe gone".to_string())));
}

#[test]
fn decimal_text_writes_every_i64() {
    assert_eq!(decimal_text(0), "0");
    assert_eq!(decimal_text(7), "7");
    assert_eq!(decimal_text(-42), "-42");
    assert_eq!(decimal_text(1234567890), "1234567890");
    assert_eq!(decimal_text(i64::MAX), "9223372036854775807");
    assert_eq!(decimal_text(i64::MIN), "-9223372036854775808");
}

#[test]
fn request_ids_compare_by_shape_and_value() {
    let a = RequestId::from_num(1);
    assert!(a.same(&RequestId::Num(1)));
    assert!(!a.same(&RequestId::Str("1".to_string())));
    assert!(RequestId::from_text("x".to_string()).same(&RequestId::Str("x".to_string())));
    assert_eq!(RequestId::Num(-3).describe(), "-3");
    assert_eq!(RequestId::Str("abc".to_string()).describe(), "abc");
    assert_eq!(a.duplicate(), a);
}

#[test]
fn string_ids_keep_their_text() {
    let s = SessionId::new("sess-1".to_string());
    assert_eq!(s.as_str(), "sess-1");
    assert!(s.same(&SessionId("sess-1".to_string())));
    assert!(!s.same(&SessionId("sess-2".to_string())));
    assert_eq!(s.duplicate(), s);
}

#[test]
fn ids_convert_from_their_raw_values() {
    let n: RequestId = 5i64.into();
    assert_eq!(n, RequestId::Num(5));
    let s: RequestId = "abc".to_string().into();
    assert_eq!(s, RequestId::Str("abc".to_string()));
    let session: SessionId = "s1".to_string().into();
    assert_eq!(session.as_str(), "s1");
}

#[test]
fn a_json_error_wrapping_io_carries_the_io_text() {
    let io = std::io::Error::new(std::io::ErrorKind::Other, "disk gone");
    let wrapped = serde_json::Error::io(io);
    let e = Error::from_json_error(&wrapped);
    assert_eq!(e.code, -32700);
    assert_eq!(e.data, Some(Value::String(wrapped.to_string())));
}

#[test]
fn json_failures_tell_io_from_syntax() {
    let syntax = serde_json::from_str::<Value>("[1,").unwrap_err();
    assert!(!Error::json_failure_is_io(&syntax));
    let io = serde_json::Error::io(std::io::Error::new(std::io::ErrorKind::Other, "gone"));
    assert!(Error::json_failure_is_io(&io));
}
