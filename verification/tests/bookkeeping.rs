use cacp::codec::{classify, Frame};
use cacp::id::RequestId;
use cacp::peer::{cancel_message, next_step, InFlight, PendingCalls, Step};
use serde_json::Value;

#[test]
fn calls_get_fresh_increasing_ids() {
    let mut p: PendingCalls<&str> = PendingCalls::new();
    assert_eq!(p.register("first"), RequestId::Num(0));
    assert_eq!(p.register("second"), RequestId::Num(1));
    assert_eq!(p.register("third"), RequestId::Num(2));
}

#[test]
fn an_answer_wakes_its_waiter_once() {
    let mut p: PendingCalls<&str> = PendingCalls::new();
    let a = p.register("a");
    let b = p.register("b");
    assert_eq!(p.take(&b), Some("b"));
    assert_eq!(p.take(&b), None);
    assert_eq!(p.take(&a), Some("a"));
    assert_eq!(p.take(&RequestId::Num(99)), None);
    assert_eq!(p.take(&RequestId::Str("0".to_string())), None);
}

#[test]
fn closing_fails_every_outstanding_call() {
    let mut p: PendingCalls<u8> = PendingCalls::new();
    p.register(1);
    p.register(2);
    let id = p.register(3);
    p.take(&id);
    let all = p.take_all();
    assert_eq!(all.len(), 2);
    assert_eq!(all.get(&0), Some(&1));
    assert_eq!(all.get(&1), Some(&2));
    assert!(p.take_all().is_empty());
    // Ids keep counting after a close.
    assert_eq!(p.register(4), RequestId::Num(3));
}

#[test]
fn in_flight_tasks_are_found_by_id() {
    let mut f: InFlight<&str> = InFlight::new();
    assert_eq!(f.insert(RequestId::Num(1), "one"), None);
    assert_eq!(f.insert(RequestId::Str("1".to_string()), "text one"), None);
    assert_eq!(f.insert(RequestId::Num(1), "again"), Some("one"));
    assert_eq!(f.remove(&RequestId::Num(1)), Some("again"));
    // Cancelling a request that already finished does nothing.
    assert_eq!(f.remove(&RequestId::Num(1)), None);
    assert_eq!(f.remove(&RequestId::Str("1".to_string())), Some("text one"));
    assert_eq!(f.remove(&RequestId::Str("1".to_string())), None);
}

#[test]
fn dropping_a_waiting_call_tells_the_peer() {
    let mut p: PendingCalls<&str> = PendingCalls::new();
    let a = p.register("a");
    let b = p.register("b");
    let cancel = p.abandon(&b).expect("b was waiting");
    assert_eq!(cancel.method.as_deref(), Some("$/cancel_request"));
    let mut params = serde_json::Map::new();
    params.insert("requestId".to_string(), Value::from(1i64));
    assert_eq!(cancel.params, Some(Value::Object(params.clone())));
    assert_eq!(cancel.id, None);
    // The peer reads it as a cancellation naming that call.
    match next_step(Ok(cancel)) {
        Step::Cancel { params: Some(p) } => assert_eq!(p, Value::Object(params)),
        other => panic!("{other:?}"),
    }
    // Nobody waits for `b` any more; `a` still does.
    assert_eq!(p.take(&b), None);
    assert!(p.abandon(&b).is_none());
    assert_eq!(p.take(&a), Some("a"));
    // Ids that were never handed out need nothing sent.
    assert!(p.abandon(&RequestId::Str("x".to_string())).is_none());
    assert!(p.abandon(&RequestId::Null).is_none());
}

#[test]
fn a_cancel_message_is_a_notification() {
    assert!(matches!(classify(cancel_message(-5)), Frame::Notification { .. }));
}

#[test]
fn null_request_ids_match_only_each_other() {
    assert!(RequestId::Null.same(&RequestId::Null));
    assert!(!RequestId::Null.same(&RequestId::Num(0)));
    assert_eq!(RequestId::Null.describe(), "null");
    let mut f: InFlight<u8> = InFlight::new();
    assert_eq!(f.insert(RequestId::Null, 1), None);
    assert_eq!(f.insert(RequestId::Num(7), 2), None);
    assert_eq!(f.remove(&RequestId::Null), Some(1));
    assert_eq!(f.remove(&RequestId::Num(7)), Some(2));
}

#[test]
fn ids_are_not_reused_after_answers_or_cancels() {
    let mut p: PendingCalls<u8> = PendingCalls::new();
    let a = p.register(1);
    p.take(&a);
    let b = p.register(2);
    p.abandon(&b);
    let c = p.register(3);
    p.take_all();
    let d = p.register(4);
    let ids = [a, b, c, d];
    for i in 0..ids.len() {
        for j in 0..ids.len() {
            assert_eq!(i == j, ids[i] == ids[j]);
        }
    }
}
