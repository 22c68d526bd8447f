//! Opening a session.

use vstd::prelude::*;
use crate::id::SessionId;
use crate::json::{duplicate_meta, Meta};
use crate::mcp::McpServer;

verus! {

/// Open a new session working in `cwd`, with the MCP servers the agent
/// should connect to for it.
#[derive(Debug, Clone, PartialEq)]
pub struct NewSessionRequest {
    pub cwd: String,
    pub mcp_servers: Vec<McpServer>,
    pub meta: Option<Meta>,
}

impl NewSessionRequest {
    pub fn new(cwd: String) -> (r: NewSessionRequest)
        ensures
            r.cwd@ == cwd@,
            r.mcp_servers@.len() == 0,
            r.meta is None,
    {
        NewSessionRequest { cwd, mcp_servers: Vec::new(), meta: None }
    }
}

#[derive(Debug, Clone, PartialEq)]
pub struct NewSessionResponse {
    pub session_id: SessionId,
    pub meta: Option<Meta>,
}

impl NewSessionResponse {
    /// A copy of this response, equal to it.
    pub fn duplicate(&self) -> (r: NewSessionResponse)
        ensures
            r == *self,
    {
        NewSessionResponse { session_id: self.session_id.duplicate(), meta: duplicate_meta(&self.meta) }
    }
}

} // verus!
