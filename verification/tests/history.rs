use cacp::content::{ContentBlock, OtherContentBlock};
use cacp::error::Error;
use cacp::history::{history_prefix, HistoryEntry, HistoryFork, HistoryRole, CLOSING, PREAMBLE};
use cacp::id::SessionId;
use cacp::prompt::PromptRequest;
use cacp::session::NewSessionResponse;
use serde_json::Value;

fn text(s: &str) -> ContentBlock {
    ContentBlock::text(s.to_string())
}

fn history() -> Vec<HistoryEntry> {
    vec![
        HistoryEntry { role: HistoryRole::User, content: vec![text("earlier question")] },
        HistoryEntry { role: HistoryRole::Agent, content: vec![text("earlier answer")] },
        HistoryEntry { role: HistoryRole::User, content: vec![text("excluded message")] },
    ]
}

fn fork_session() -> NewSessionResponse {
    NewSessionResponse { session_id: SessionId::new("fork".to_string()), meta: None }
}

#[test]
fn fork_stays_idle_then_sends_only_the_selected_prefix_once() {
    let saved = history();
    let pending = history_prefix(&saved, 2).unwrap();
    let mut fork = HistoryFork::restore(fork_session(), pending);
    assert_eq!(fork.pending_history(), &saved[..2]);
    let mut request = PromptRequest::new(fork.session().session_id.clone(), vec![text("edited question")]);
    let mut meta = serde_json::Map::new();
    meta.insert("trace".to_string(), Value::String("kept".to_string()));
    request.meta = Some(meta);
    let sent = fork.prepare(request.clone()).unwrap();
    assert_eq!(sent.session_id, request.session_id);
    assert_eq!(sent.meta, request.meta);
    assert_eq!(sent.prompt[2], saved[0].content[0]);
    assert_eq!(sent.prompt[4], saved[1].content[0]);
    assert_eq!(sent.prompt.last(), request.prompt.last());
    assert!(!sent.prompt.contains(&saved[2].content[0]));
    let done: Result<(), Error> = fork.finish(Ok(()));
    assert_eq!(done, Ok(()));
    assert!(fork.pending_history().is_empty());
    assert_eq!(fork.prepare(request.clone()).unwrap(), request);
}

#[test]
fn empty_fork_and_invalid_cutoff_do_not_import_history() {
    let err = history_prefix(&history(), 4).unwrap_err();
    assert_eq!(err.code, -32602);
    assert_eq!(err.data, Some(Value::String("fork position exceeds history".to_string())));
    let fork = HistoryFork::restore(fork_session(), history_prefix(&history(), 0).unwrap());
    let request = PromptRequest::new(SessionId::new("fork".to_string()), vec![text("new question")]);
    assert_eq!(fork.prepare(request.clone()).unwrap(), request);
}

#[test]
fn errors_keep_pending_history_and_wrong_session_is_rejected_locally() {
    let saved = history();
    let mut fork = HistoryFork::restore(fork_session(), history_prefix(&saved, saved.len()).unwrap());
    let err = fork.prepare(PromptRequest::new(SessionId::new("original".to_string()), vec![])).unwrap_err();
    assert_eq!(err.code, -32602);
    assert_eq!(err.data, Some(Value::String("prompt must target the fork".to_string())));
    let retry = PromptRequest::new(SessionId::new("fork".to_string()), vec![text("retry")]);
    let failed = fork.prepare(retry.clone()).unwrap();
    // The agent refuses the prompt: the error comes back and the history stays.
    let outcome: Result<(), Error> = fork.finish(Err(Error::invalid_params()));
    assert_eq!(outcome, Err(Error::invalid_params()));
    assert_eq!(fork.pending_history(), &saved[..]);
    // The retry carries the same transcript, and once it goes through the
    // history is gone.
    let again = fork.prepare(retry.clone()).unwrap();
    assert_eq!(again, failed);
    assert_eq!(fork.finish(Ok(7)), Ok(7));
    assert!(fork.pending_history().is_empty());
    assert_eq!(fork.prepare(retry.clone()).unwrap(), retry);
}

#[test]
fn typed_content_and_restored_history_survive_without_text_conversion() {
    let mut fields = serde_json::Map::new();
    fields.insert("data".to_string(), Value::String("aGVsbG8=".to_string()));
    fields.insert("mimeType".to_string(), Value::String("image/png".to_string()));
    let image = ContentBlock::Other(OtherContentBlock { kind: "image".to_string(), fields });
    let saved = vec![HistoryEntry { role: HistoryRole::User, content: vec![image.clone()] }];
    let fork = HistoryFork::restore(fork_session(), history_prefix(&saved, 1).unwrap());
    let restored = HistoryFork::restore(fork.session().clone(), fork.pending_history().to_vec());
    let sent = restored
        .prepare(PromptRequest::new(SessionId::new("fork".to_string()), vec![text("describe it")]))
        .unwrap();
    assert!(sent.prompt.contains(&image));
}

#[test]
fn the_transcript_layout() {
    let fork = HistoryFork::restore(fork_session(), history_prefix(&history(), 2).unwrap());
    let sent = fork.prepare(PromptRequest::new(SessionId::new("fork".to_string()), vec![text("now")])).unwrap();
    assert_eq!(
        sent.prompt,
        vec![
            text(PREAMBLE),
            text("Saved user message:"),
            text("earlier question"),
            text("Saved agent message:"),
            text("earlier answer"),
            text(CLOSING),
            text("now"),
        ]
    );
    assert_eq!(HistoryRole::Tool.label(), "tool output");
    assert_eq!(HistoryRole::User.label(), "user");
    assert_eq!(HistoryRole::Agent.label(), "agent");
}
