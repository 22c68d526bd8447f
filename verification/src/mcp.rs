//! MCP servers the client asks the agent to connect to for a session, and
//! the tunnel the agent uses to reach servers the client holds.

use vstd::prelude::*;
use crate::id::{McpConnectionId, McpServerAcpId};
use crate::json::Meta;

verus! {

/// Stdio is the untagged fallback: those entries predate the `type` tag and
/// still arrive without one.
#[derive(Debug, Clone, PartialEq)]
pub enum McpServer {
    Http(McpServerHttp),
    Sse(McpServerSse),
    /// The client already holds this connection; the agent reaches it over
    /// `mcp/*` rather than dialling out itself.
    Acp(McpServerAcp),
    Stdio(McpServerStdio),
}

#[derive(Debug, Clone, PartialEq)]
pub struct McpServerStdio {
    pub name: String,
    pub command: std::path::PathBuf,
    pub args: Vec<String>,
    pub env: Vec<EnvVariable>,
}

#[derive(Debug, Clone, PartialEq)]
pub struct McpServerHttp {
    pub name: String,
    pub url: String,
    pub headers: Vec<HttpHeader>,
}

#[derive(Debug, Clone, PartialEq)]
pub struct McpServerSse {
    pub name: String,
    pub url: String,
    pub headers: Vec<HttpHeader>,
}

#[derive(Debug, Clone, PartialEq)]
pub struct McpServerAcp {
    pub name: String,
    pub server_id: McpServerAcpId,
    pub meta: Option<Meta>,
}

#[derive(Debug, Clone, PartialEq)]
pub struct EnvVariable {
    pub name: String,
    pub value: String,
}

#[derive(Debug, Clone, PartialEq)]
pub struct HttpHeader {
    pub name: String,
    pub value: String,
}

/// Open a connection to a server named in an `McpServerAcp` entry.
#[derive(Debug, Clone, PartialEq)]
pub struct ConnectMcpRequest {
    pub server_id: McpServerAcpId,
}

#[derive(Debug, Clone, PartialEq)]
pub struct ConnectMcpResponse {
    pub connection_id: McpConnectionId,
}

/// One MCP call forwarded down the tunnel, by whichever side has something
/// to ask.
#[derive(Debug, Clone, PartialEq)]
pub struct MessageMcpRequest {
    pub connection_id: McpConnectionId,
    pub method: String,
    pub params: Option<Meta>,
}

/// The MCP server's reply, passed through untouched.
#[derive(Debug, Clone, PartialEq)]
pub struct MessageMcpResponse(pub serde_json::Value);

/// The same tunnel, for MCP messages that expect no reply.
#[derive(Debug, Clone, PartialEq)]
pub struct MessageMcpNotification {
    pub connection_id: McpConnectionId,
    pub method: String,
    pub params: Option<Meta>,
}

#[derive(Debug, Clone, PartialEq)]
pub struct DisconnectMcpRequest {
    pub connection_id: McpConnectionId,
}

#[derive(Debug, Clone, Copy, Default, PartialEq, Eq)]
pub struct DisconnectMcpResponse {}

} // verus!
