//! `session/request_permission` — the agent asking the user to authorize a tool call.

use vstd::prelude::*;
use crate::id::{PermissionOptionId, SessionId};
use crate::json::Meta;
use crate::tool_call::ToolCallUpdate;

verus! {

#[derive(Debug, Clone, PartialEq)]
pub struct RequestPermissionRequest {
    pub session_id: SessionId,
    pub tool_call: ToolCallUpdate,
    pub options: Vec<PermissionOption>,
    pub meta: Option<Meta>,
}

#[derive(Debug, Clone, PartialEq)]
pub struct PermissionOption {
    pub option_id: PermissionOptionId,
    pub name: String,
    pub kind: PermissionOptionKind,
    pub meta: Option<Meta>,
}

#[derive(Debug, Clone, PartialEq, Eq)]
pub enum PermissionOptionKind {
    AllowOnce,
    AllowAlways,
    RejectOnce,
    RejectAlways,
    Other(String),
}

/// Wraps [`RequestPermissionOutcome`] because a JSON-RPC result must be an object.
#[derive(Debug, Clone, PartialEq)]
pub struct RequestPermissionResponse {
    pub outcome: RequestPermissionOutcome,
    pub meta: Option<Meta>,
}

impl RequestPermissionResponse {
    /// The answer naming the option the user chose.
    pub fn selected(option_id: PermissionOptionId) -> (r: RequestPermissionResponse)
        ensures
            r.outcome == (RequestPermissionOutcome::Selected { option_id }),
            r.meta is None,
    {
        RequestPermissionResponse {
            outcome: RequestPermissionOutcome::Selected { option_id },
            meta: None,
        }
    }

    /// The answer when the turn is cancelled before the user chose.
    pub fn cancelled() -> (r: RequestPermissionResponse)
        ensures
            r.outcome == RequestPermissionOutcome::Cancelled,
            r.meta is None,
    {
        RequestPermissionResponse { outcome: RequestPermissionOutcome::Cancelled, meta: None }
    }
}

#[derive(Debug, Clone, PartialEq, Eq)]
pub enum RequestPermissionOutcome {
    Cancelled,
    Selected {
        option_id: PermissionOptionId,
    },
}

} // verus!
