//! Methods the agent serves.

use vstd::prelude::*;

verus! {

pub const INITIALIZE: &'static str = "initialize";
pub const AUTHENTICATE: &'static str = "authenticate";
pub const LOGOUT: &'static str = "logout";
pub const SESSION_NEW: &'static str = "session/new";
pub const SESSION_LOAD: &'static str = "session/load";
pub const SESSION_RESUME: &'static str = "session/resume";
pub const SESSION_FORK: &'static str = "session/fork";
pub const SESSION_CLOSE: &'static str = "session/close";
pub const SESSION_LIST: &'static str = "session/list";
pub const SESSION_DELETE: &'static str = "session/delete";
pub const SESSION_SET_MODE: &'static str = "session/set_mode";
pub const SESSION_SET_CONFIG_OPTION: &'static str = "session/set_config_option";
pub const SESSION_PROMPT: &'static str = "session/prompt";
/// Notification.
pub const SESSION_CANCEL: &'static str = "session/cancel";
pub const PROVIDERS_LIST: &'static str = "providers/list";
pub const PROVIDERS_SET: &'static str = "providers/set";
pub const PROVIDERS_DISABLE: &'static str = "providers/disable";
pub const NES_START: &'static str = "nes/start";
pub const NES_SUGGEST: &'static str = "nes/suggest";
pub const NES_CLOSE: &'static str = "nes/close";
/// Notification.
pub const NES_ACCEPT: &'static str = "nes/accept";
/// Notification.
pub const NES_REJECT: &'static str = "nes/reject";
/// Notification.
pub const DOCUMENT_DID_OPEN: &'static str = "document/didOpen";
/// Notification.
pub const DOCUMENT_DID_CHANGE: &'static str = "document/didChange";
/// Notification.
pub const DOCUMENT_DID_CLOSE: &'static str = "document/didClose";
/// Notification.
pub const DOCUMENT_DID_SAVE: &'static str = "document/didSave";
/// Notification.
pub const DOCUMENT_DID_FOCUS: &'static str = "document/didFocus";
/// Also a client method: MCP traffic tunnels in both directions, as a request
/// when it wants an answer and as a notification when it does not.
pub const MCP_MESSAGE: &'static str = "mcp/message";

} // verus!
