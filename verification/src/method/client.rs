//! Methods the client serves.

use vstd::prelude::*;

verus! {

/// Notification.
pub const SESSION_UPDATE: &'static str = "session/update";
pub const SESSION_REQUEST_PERMISSION: &'static str = "session/request_permission";
pub const FS_READ_TEXT_FILE: &'static str = "fs/read_text_file";
pub const FS_WRITE_TEXT_FILE: &'static str = "fs/write_text_file";
pub const TERMINAL_CREATE: &'static str = "terminal/create";
pub const TERMINAL_OUTPUT: &'static str = "terminal/output";
pub const TERMINAL_RELEASE: &'static str = "terminal/release";
pub const TERMINAL_WAIT_FOR_EXIT: &'static str = "terminal/wait_for_exit";
pub const TERMINAL_KILL: &'static str = "terminal/kill";
pub const ELICITATION_CREATE: &'static str = "elicitation/create";
/// Notification.
pub const ELICITATION_COMPLETE: &'static str = "elicitation/complete";
pub const MCP_CONNECT: &'static str = "mcp/connect";
pub const MCP_DISCONNECT: &'static str = "mcp/disconnect";
/// Also an agent method.
pub const MCP_MESSAGE: &'static str = "mcp/message";

} // verus!
