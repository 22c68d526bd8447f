//! A compact implementation of the Agent Client Protocol v1: the wire types,
//! the method names and how calls are routed by them, the JSON-RPC envelope,
//! the bookkeeping of calls in flight on a connection, client-side history
//! forks, and the path rules of the agent installer.

pub mod json;
pub mod maybe;
pub mod error;
pub mod text;
pub mod method;
pub mod id;
pub mod codec;
pub mod peer;
pub mod content;
pub mod tool_call;
pub mod mcp;
pub mod nes;
pub mod initialize;
pub mod permission;
pub mod provider;
pub mod session;
pub mod prompt;
pub mod history;
pub mod agents;
pub mod events;
