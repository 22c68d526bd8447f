//! Running a prompt turn, and cancelling one.

use vstd::prelude::*;
use crate::content::ContentBlock;
use crate::id::{RequestId, SessionId};
use crate::json::Meta;

verus! {

#[derive(Debug, Clone, PartialEq)]
pub struct PromptRequest {
    pub session_id: SessionId,
    pub prompt: Vec<ContentBlock>,
    pub meta: Option<Meta>,
}

impl PromptRequest {
    pub fn new(session_id: SessionId, prompt: Vec<ContentBlock>) -> (r: PromptRequest)
        ensures
            r.session_id == session_id,
            r.prompt == prompt,
            r.meta is None,
    {
        PromptRequest { session_id, prompt, meta: None }
    }
}

#[derive(Debug, Clone, PartialEq)]
pub struct PromptResponse {
    pub stop_reason: StopReason,
    pub usage: Option<Usage>,
    pub meta: Option<Meta>,
}

impl PromptResponse {
    pub fn new(stop_reason: StopReason) -> (r: PromptResponse)
        ensures
            r.stop_reason == stop_reason,
            r.usage is None,
            r.meta is None,
    {
        PromptResponse { stop_reason, usage: None, meta: None }
    }
}

/// Tokens the whole turn cost.
#[derive(Debug, Clone, Default, PartialEq)]
pub struct Usage {
    pub total_tokens: u64,
    pub input_tokens: u64,
    pub output_tokens: u64,
    pub thought_tokens: Option<u64>,
    pub cached_read_tokens: Option<u64>,
    pub cached_write_tokens: Option<u64>,
    pub meta: Option<Meta>,
}

/// Why the agent stopped working on a turn.
#[derive(Debug, Clone, PartialEq, Eq)]
pub enum StopReason {
    EndTurn,
    MaxTokens,
    MaxTurnRequests,
    Refusal,
    Cancelled,
    /// A reason added after this revision, kept as the agent spelled it.
    Other(String),
}

/// A notification, not a request: the agent still ends the turn by
/// answering `session/prompt` with `StopReason::Cancelled`.
#[derive(Debug, Clone, PartialEq)]
pub struct CancelNotification {
    pub session_id: SessionId,
    pub meta: Option<Meta>,
}

/// Cancels a single in-flight request, in either direction.
#[derive(Debug, Clone, PartialEq)]
pub struct CancelRequestNotification {
    pub request_id: RequestId,
    pub meta: Option<Meta>,
}

} // verus!
