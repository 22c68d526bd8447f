use cacp::content::ContentBlock;
use cacp::id::ToolCallId;
use cacp::tool_call::{
    ToolCall, ToolCallContent, ToolCallStatus, ToolCallUpdate, ToolCallUpdateFields, ToolKind,
};
use serde_json::Value;

fn call() -> ToolCall {
    let mut c = ToolCall::new(ToolCallId::new("t1".to_string()), "Read file".to_string());
    c.kind = ToolKind::Read;
    c.raw_input = Some(Value::String("in".to_string()));
    c
}

#[test]
fn a_new_call_is_pending_and_of_the_default_kind() {
    let c = ToolCall::new(ToolCallId::new("t".to_string()), "x".to_string());
    assert_eq!(c.status, ToolCallStatus::Pending);
    assert_eq!(c.kind, ToolKind::Other);
    assert!(c.kind.is_default());
    assert!(c.status.is_default());
    assert!(!ToolKind::Edit.is_default());
    assert!(!ToolCallStatus::Failed.is_default());
    assert!(c.content.is_empty() && c.locations.is_empty() && c.name.is_none());
    assert_eq!(ToolKind::default(), ToolKind::Other);
    assert_eq!(ToolCallStatus::default(), ToolCallStatus::Pending);
}

#[test]
fn an_update_changes_only_what_it_carries() {
    let mut target = call();
    let update = ToolCallUpdate {
        tool_call_id: ToolCallId::new("t1".to_string()),
        fields: ToolCallUpdateFields {
            status: Some(ToolCallStatus::Completed),
            raw_output: Some(Value::Bool(true)),
            ..Default::default()
        },
        meta: None,
    };
    update.apply(&mut target);
    assert_eq!(target.status, ToolCallStatus::Completed);
    assert_eq!(target.raw_output, Some(Value::Bool(true)));
    assert_eq!(target.kind, ToolKind::Read);
    assert_eq!(target.title, "Read file");
    assert_eq!(target.raw_input, Some(Value::String("in".to_string())));
}

#[test]
fn an_empty_update_changes_nothing_and_applying_twice_is_applying_once() {
    let mut target = call();
    ToolCallUpdate {
        tool_call_id: ToolCallId::new("t1".to_string()),
        fields: ToolCallUpdateFields::default(),
        meta: None,
    }
    .apply(&mut target);
    assert_eq!(target, call());

    let fields = ToolCallUpdateFields {
        title: Some("Edit file".to_string()),
        content: Some(vec![ToolCallContent::from_block(ContentBlock::text("diff".to_string()))]),
        ..Default::default()
    };
    let mut once = call();
    ToolCallUpdate { tool_call_id: ToolCallId::new("t1".to_string()), fields: fields.clone(), meta: None }
        .apply(&mut once);
    let mut twice = once.clone();
    ToolCallUpdate { tool_call_id: ToolCallId::new("t1".to_string()), fields, meta: None }
        .apply(&mut twice);
    assert_eq!(once, twice);
    assert_eq!(once.title, "Edit file");
}

#[test]
fn a_whole_report_of_a_call_reproduces_it() {
    let reported = call();
    let mut other = ToolCall::new(ToolCallId::new("t1".to_string()), "stale".to_string());
    ToolCallUpdate::of_call(reported.clone()).apply(&mut other);
    assert_eq!(other, reported);
    let mut same = reported.clone();
    ToolCallUpdate::of_call(reported.clone()).apply(&mut same);
    assert_eq!(same, reported);
}

#[test]
fn an_update_never_changes_the_calls_id() {
    let mut target = call();
    let update = ToolCallUpdate {
        tool_call_id: ToolCallId::new("other".to_string()),
        fields: ToolCallUpdateFields { kind: Some(ToolKind::Fetch), ..Default::default() },
        meta: None,
    };
    update.apply(&mut target);
    assert_eq!(target.tool_call_id, ToolCallId::new("t1".to_string()));
    assert_eq!(target.kind, ToolKind::Fetch);
}

#[test]
fn conversions_build_content_and_whole_reports() {
    let block: ContentBlock = "hi".to_string().into();
    assert_eq!(block, ContentBlock::text("hi".to_string()));
    let content: ToolCallContent = block.clone().into();
    assert_eq!(content, ToolCallContent::Content { content: block });
    let update: ToolCallUpdate = call().into();
    assert_eq!(update.fields.title, Some("Read file".to_string()));
    assert_eq!(update.fields.kind, Some(ToolKind::Read));
    assert_eq!(update.tool_call_id, ToolCallId::new("t1".to_string()));
    assert!(update.meta.is_none());
}
