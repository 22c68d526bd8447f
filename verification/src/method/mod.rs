//! Every method name in ACP v1, in one place, and how an incoming call is
//! routed by its name.
//!
//! Both sides need both lists: a server routes on the agent names and calls
//! the client names, and a client does the reverse. A name that is not on the
//! receiving side's list is an extension call: it goes to `ext_request` or
//! `ext_notification`, which decline by default.

use vstd::prelude::*;
use crate::text::same_text;

pub mod agent;
pub mod client;

verus! {

/// Cancels an in-flight request by id, in either direction.
pub const CANCEL_REQUEST: &'static str = "$/cancel_request";

/// The requests an agent serves, by the method name they arrive under.
#[derive(Debug, Clone, Copy, PartialEq, Eq, Structural)]
pub enum AgentRequest {
    Initialize,
    Authenticate,
    Logout,
    NewSession,
    LoadSession,
    ResumeSession,
    ForkSession,
    CloseSession,
    ListSessions,
    DeleteSession,
    SetSessionMode,
    SetSessionConfigOption,
    Prompt,
    ListProviders,
    SetProvider,
    DisableProvider,
    StartNes,
    SuggestNes,
    CloseNes,
    MessageMcp,
    /// Any other name: an extension method.
    Ext,
}

/// The route taken for a request an agent received under the name `m`.
pub open spec fn agent_request_route(m: Seq<char>) -> AgentRequest {
    if m == agent::INITIALIZE@ { AgentRequest::Initialize }
    else if m == agent::AUTHENTICATE@ { AgentRequest::Authenticate }
    else if m == agent::LOGOUT@ { AgentRequest::Logout }
    else if m == agent::SESSION_NEW@ { AgentRequest::NewSession }
    else if m == agent::SESSION_LOAD@ { AgentRequest::LoadSession }
    else if m == agent::SESSION_RESUME@ { AgentRequest::ResumeSession }
    else if m == agent::SESSION_FORK@ { AgentRequest::ForkSession }
    else if m == agent::SESSION_CLOSE@ { AgentRequest::CloseSession }
    else if m == agent::SESSION_LIST@ { AgentRequest::ListSessions }
    else if m == agent::SESSION_DELETE@ { AgentRequest::DeleteSession }
    else if m == agent::SESSION_SET_MODE@ { AgentRequest::SetSessionMode }
    else if m == agent::SESSION_SET_CONFIG_OPTION@ { AgentRequest::SetSessionConfigOption }
    else if m == agent::SESSION_PROMPT@ { AgentRequest::Prompt }
    else if m == agent::PROVIDERS_LIST@ { AgentRequest::ListProviders }
    else if m == agent::PROVIDERS_SET@ { AgentRequest::SetProvider }
    else if m == agent::PROVIDERS_DISABLE@ { AgentRequest::DisableProvider }
    else if m == agent::NES_START@ { AgentRequest::StartNes }
    else if m == agent::NES_SUGGEST@ { AgentRequest::SuggestNes }
    else if m == agent::NES_CLOSE@ { AgentRequest::CloseNes }
    else if m == agent::MCP_MESSAGE@ { AgentRequest::MessageMcp }
    else { AgentRequest::Ext }
}

/// The name a route is reached by; extension methods have none of their own.
pub open spec fn agent_request_name(r: AgentRequest) -> Option<Seq<char>> {
    match r {
        AgentRequest::Initialize => Some(agent::INITIALIZE@),
        AgentRequest::Authenticate => Some(agent::AUTHENTICATE@),
        AgentRequest::Logout => Some(agent::LOGOUT@),
        AgentRequest::NewSession => Some(agent::SESSION_NEW@),
        AgentRequest::LoadSession => Some(agent::SESSION_LOAD@),
        AgentRequest::ResumeSession => Some(agent::SESSION_RESUME@),
        AgentRequest::ForkSession => Some(agent::SESSION_FORK@),
        AgentRequest::CloseSession => Some(agent::SESSION_CLOSE@),
        AgentRequest::ListSessions => Some(agent::SESSION_LIST@),
        AgentRequest::DeleteSession => Some(agent::SESSION_DELETE@),
        AgentRequest::SetSessionMode => Some(agent::SESSION_SET_MODE@),
        AgentRequest::SetSessionConfigOption => Some(agent::SESSION_SET_CONFIG_OPTION@),
        AgentRequest::Prompt => Some(agent::SESSION_PROMPT@),
        AgentRequest::ListProviders => Some(agent::PROVIDERS_LIST@),
        AgentRequest::SetProvider => Some(agent::PROVIDERS_SET@),
        AgentRequest::DisableProvider => Some(agent::PROVIDERS_DISABLE@),
        AgentRequest::StartNes => Some(agent::NES_START@),
        AgentRequest::SuggestNes => Some(agent::NES_SUGGEST@),
        AgentRequest::CloseNes => Some(agent::NES_CLOSE@),
        AgentRequest::MessageMcp => Some(agent::MCP_MESSAGE@),
        AgentRequest::Ext => None,
    }
}

/// Route one request an agent received.
pub fn route_agent_request(method: &str) -> (r: AgentRequest)
    ensures
        r == agent_request_route(method@),
{
    if same_text(method, agent::INITIALIZE) { AgentRequest::Initialize }
    else if same_text(method, agent::AUTHENTICATE) { AgentRequest::Authenticate }
    else if same_text(method, agent::LOGOUT) { AgentRequest::Logout }
    else if same_text(method, agent::SESSION_NEW) { AgentRequest::NewSession }
    else if same_text(method, agent::SESSION_LOAD) { AgentRequest::LoadSession }
    else if same_text(method, agent::SESSION_RESUME) { AgentRequest::ResumeSession }
    else if same_text(method, agent::SESSION_FORK) { AgentRequest::ForkSession }
    else if same_text(method, agent::SESSION_CLOSE) { AgentRequest::CloseSession }
    else if same_text(method, agent::SESSION_LIST) { AgentRequest::ListSessions }
    else if same_text(method, agent::SESSION_DELETE) { AgentRequest::DeleteSession }
    else if same_text(method, agent::SESSION_SET_MODE) { AgentRequest::SetSessionMode }
    else if same_text(method, agent::SESSION_SET_CONFIG_OPTION) { AgentRequest::SetSessionConfigOption }
    else if same_text(method, agent::SESSION_PROMPT) { AgentRequest::Prompt }
    else if same_text(method, agent::PROVIDERS_LIST) { AgentRequest::ListProviders }
    else if same_text(method, agent::PROVIDERS_SET) { AgentRequest::SetProvider }
    else if same_text(method, agent::PROVIDERS_DISABLE) { AgentRequest::DisableProvider }
    else if same_text(method, agent::NES_START) { AgentRequest::StartNes }
    else if same_text(method, agent::NES_SUGGEST) { AgentRequest::SuggestNes }
    else if same_text(method, agent::NES_CLOSE) { AgentRequest::CloseNes }
    else if same_text(method, agent::MCP_MESSAGE) { AgentRequest::MessageMcp }
    else { AgentRequest::Ext }
}

impl AgentRequest {
    /// The method name this route is reached by; `None` for an extension method.
    pub fn name(self) -> (n: Option<&'static str>)
        ensures
            n matches Some(t) ==> agent_request_name(self) == Some(t@),
            n is None <==> agent_request_name(self) is None,
    {
        match self {
            AgentRequest::Initialize => Some(agent::INITIALIZE),
            AgentRequest::Authenticate => Some(agent::AUTHENTICATE),
            AgentRequest::Logout => Some(agent::LOGOUT),
            AgentRequest::NewSession => Some(agent::SESSION_NEW),
            AgentRequest::LoadSession => Some(agent::SESSION_LOAD),
            AgentRequest::ResumeSession => Some(agent::SESSION_RESUME),
            AgentRequest::ForkSession => Some(agent::SESSION_FORK),
            AgentRequest::CloseSession => Some(agent::SESSION_CLOSE),
            AgentRequest::ListSessions => Some(agent::SESSION_LIST),
            AgentRequest::DeleteSession => Some(agent::SESSION_DELETE),
            AgentRequest::SetSessionMode => Some(agent::SESSION_SET_MODE),
            AgentRequest::SetSessionConfigOption => Some(agent::SESSION_SET_CONFIG_OPTION),
            AgentRequest::Prompt => Some(agent::SESSION_PROMPT),
            AgentRequest::ListProviders => Some(agent::PROVIDERS_LIST),
            AgentRequest::SetProvider => Some(agent::PROVIDERS_SET),
            AgentRequest::DisableProvider => Some(agent::PROVIDERS_DISABLE),
            AgentRequest::StartNes => Some(agent::NES_START),
            AgentRequest::SuggestNes => Some(agent::NES_SUGGEST),
            AgentRequest::CloseNes => Some(agent::NES_CLOSE),
            AgentRequest::MessageMcp => Some(agent::MCP_MESSAGE),
            AgentRequest::Ext => None,
        }
    }
}

/// Every named route is reached by its own name, and no two routes share a
/// name: the name table and the router agree.
pub proof fn lemma_agent_request_names_route_home(r: AgentRequest)
    ensures
        agent_request_name(r) matches Some(m) ==> agent_request_route(m) == r,
{
    reveal_strlit("initialize");
    reveal_strlit("authenticate");
    reveal_strlit("logout");
    reveal_strlit("session/new");
    reveal_strlit("session/load");
    reveal_strlit("session/resume");
    reveal_strlit("session/fork");
    reveal_strlit("session/close");
    reveal_strlit("session/list");
    reveal_strlit("session/delete");
    reveal_strlit("session/set_mode");
    reveal_strlit("session/set_config_option");
    reveal_strlit("session/prompt");
    reveal_strlit("providers/list");
    reveal_strlit("providers/set");
    reveal_strlit("providers/disable");
    reveal_strlit("nes/start");
    reveal_strlit("nes/suggest");
    reveal_strlit("nes/close");
    reveal_strlit("mcp/message");
    assert(agent::INITIALIZE@.len() == 10);
    assert(agent::AUTHENTICATE@.len() == 12);
    assert(agent::LOGOUT@.len() == 6);
    assert(agent::SESSION_NEW@.len() == 11);
    assert(agent::SESSION_LOAD@.len() == 12);
    assert(agent::SESSION_RESUME@.len() == 14);
    assert(agent::SESSION_FORK@.len() == 12);
    assert(agent::SESSION_CLOSE@.len() == 13);
    assert(agent::SESSION_LIST@.len() == 12);
    assert(agent::SESSION_DELETE@.len() == 14);
    assert(agent::SESSION_SET_MODE@.len() == 16);
    assert(agent::SESSION_SET_CONFIG_OPTION@.len() == 25);
    assert(agent::SESSION_PROMPT@.len() == 14);
    assert(agent::PROVIDERS_LIST@.len() == 14);
    assert(agent::PROVIDERS_SET@.len() == 13);
    assert(agent::PROVIDERS_DISABLE@.len() == 17);
    assert(agent::NES_START@.len() == 9);
    assert(agent::NES_SUGGEST@.len() == 11);
    assert(agent::NES_CLOSE@.len() == 9);
    assert(agent::MCP_MESSAGE@.len() == 11);
    assert(agent::SESSION_LOAD@[0] != agent::AUTHENTICATE@[0]);
    assert(agent::SESSION_FORK@[0] != agent::AUTHENTICATE@[0]);
    assert(agent::SESSION_FORK@[8] != agent::SESSION_LOAD@[8]);
    assert(agent::SESSION_LIST@[0] != agent::AUTHENTICATE@[0]);
    assert(agent::SESSION_LIST@[9] != agent::SESSION_LOAD@[9]);
    assert(agent::SESSION_LIST@[8] != agent::SESSION_FORK@[8]);
    assert(agent::SESSION_DELETE@[8] != agent::SESSION_RESUME@[8]);
    assert(agent::SESSION_PROMPT@[8] != agent::SESSION_RESUME@[8]);
    assert(agent::SESSION_PROMPT@[8] != agent::SESSION_DELETE@[8]);
    assert(agent::PROVIDERS_LIST@[0] != agent::SESSION_RESUME@[0]);
    assert(agent::PROVIDERS_LIST@[0] != agent::SESSION_DELETE@[0]);
    assert(agent::PROVIDERS_LIST@[0] != agent::SESSION_PROMPT@[0]);
    assert(agent::PROVIDERS_SET@[0] != agent::SESSION_CLOSE@[0]);
    assert(agent::NES_SUGGEST@[0] != agent::SESSION_NEW@[0]);
    assert(agent::NES_CLOSE@[4] != agent::NES_START@[4]);
    assert(agent::MCP_MESSAGE@[0] != agent::SESSION_NEW@[0]);
    assert(agent::MCP_MESSAGE@[0] != agent::NES_SUGGEST@[0]);
}

/// A name that is not an extension method is the name of the route it takes.
pub proof fn lemma_agent_request_routes_by_name(m: Seq<char>)
    ensures
        agent_request_route(m) != AgentRequest::Ext ==> agent_request_name(agent_request_route(m)) == Some(m),
{
}

/// The notifications an agent handles, by the method name they arrive under.
#[derive(Debug, Clone, Copy, PartialEq, Eq, Structural)]
pub enum AgentNotification {
    Cancel,
    AcceptNes,
    RejectNes,
    DidOpenDocument,
    DidChangeDocument,
    DidCloseDocument,
    DidSaveDocument,
    DidFocusDocument,
    NotifyMcp,
    /// Any other name: an extension method.
    Ext,
}

/// The route taken for a notification an agent received under the name `m`.
pub open spec fn agent_notification_route(m: Seq<char>) -> AgentNotification {
    if m == agent::SESSION_CANCEL@ { AgentNotification::Cancel }
    else if m == agent::NES_ACCEPT@ { AgentNotification::AcceptNes }
    else if m == agent::NES_REJECT@ { AgentNotification::RejectNes }
    else if m == agent::DOCUMENT_DID_OPEN@ { AgentNotification::DidOpenDocument }
    else if m == agent::DOCUMENT_DID_CHANGE@ { AgentNotification::DidChangeDocument }
    else if m == agent::DOCUMENT_DID_CLOSE@ { AgentNotification::DidCloseDocument }
    else if m == agent::DOCUMENT_DID_SAVE@ { AgentNotification::DidSaveDocument }
    else if m == agent::DOCUMENT_DID_FOCUS@ { AgentNotification::DidFocusDocument }
    else if m == agent::MCP_MESSAGE@ { AgentNotification::NotifyMcp }
    else { AgentNotification::Ext }
}

/// The name a route is reached by; extension methods have none of their own.
pub open spec fn agent_notification_name(r: AgentNotification) -> Option<Seq<char>> {
    match r {
        AgentNotification::Cancel => Some(agent::SESSION_CANCEL@),
        AgentNotification::AcceptNes => Some(agent::NES_ACCEPT@),
        AgentNotification::RejectNes => Some(agent::NES_REJECT@),
        AgentNotification::DidOpenDocument => Some(agent::DOCUMENT_DID_OPEN@),
        AgentNotification::DidChangeDocument => Some(agent::DOCUMENT_DID_CHANGE@),
        AgentNotification::DidCloseDocument => Some(agent::DOCUMENT_DID_CLOSE@),
        AgentNotification::DidSaveDocument => Some(agent::DOCUMENT_DID_SAVE@),
        AgentNotification::DidFocusDocument => Some(agent::DOCUMENT_DID_FOCUS@),
        AgentNotification::NotifyMcp => Some(agent::MCP_MESSAGE@),
        AgentNotification::Ext => None,
    }
}

/// Route one notification an agent received.
pub fn route_agent_notification(method: &str) -> (r: AgentNotification)
    ensures
        r == agent_notification_route(method@),
{
    if same_text(method, agent::SESSION_CANCEL) { AgentNotification::Cancel }
    else if same_text(method, agent::NES_ACCEPT) { AgentNotification::AcceptNes }
    else if same_text(method, agent::NES_REJECT) { AgentNotification::RejectNes }
    else if same_text(method, agent::DOCUMENT_DID_OPEN) { AgentNotification::DidOpenDocument }
    else if same_text(method, agent::DOCUMENT_DID_CHANGE) { AgentNotification::DidChangeDocument }
    else if same_text(method, agent::DOCUMENT_DID_CLOSE) { AgentNotification::DidCloseDocument }
    else if same_text(method, agent::DOCUMENT_DID_SAVE) { AgentNotification::DidSaveDocument }
    else if same_text(method, agent::DOCUMENT_DID_FOCUS) { AgentNotification::DidFocusDocument }
    else if same_text(method, agent::MCP_MESSAGE) { AgentNotification::NotifyMcp }
    else { AgentNotification::Ext }
}

impl AgentNotification {
    /// The method name this route is reached by; `None` for an extension method.
    pub fn name(self) -> (n: Option<&'static str>)
        ensures
            n matches Some(t) ==> agent_notification_name(self) == Some(t@),
            n is None <==> agent_notification_name(self) is None,
    {
        match self {
            AgentNotification::Cancel => Some(agent::SESSION_CANCEL),
            AgentNotification::AcceptNes => Some(agent::NES_ACCEPT),
            AgentNotification::RejectNes => Some(agent::NES_REJECT),
            AgentNotification::DidOpenDocument => Some(agent::DOCUMENT_DID_OPEN),
            AgentNotification::DidChangeDocument => Some(agent::DOCUMENT_DID_CHANGE),
            AgentNotification::DidCloseDocument => Some(agent::DOCUMENT_DID_CLOSE),
            AgentNotification::DidSaveDocument => Some(agent::DOCUMENT_DID_SAVE),
            AgentNotification::DidFocusDocument => Some(agent::DOCUMENT_DID_FOCUS),
            AgentNotification::NotifyMcp => Some(agent::MCP_MESSAGE),
            AgentNotification::Ext => None,
        }
    }
}

/// Every named route is reached by its own name, and no two routes share a
/// name: the name table and the router agree.
pub proof fn lemma_agent_notification_names_route_home(r: AgentNotification)
    ensures
        agent_notification_name(r) matches Some(m) ==> agent_notification_route(m) == r,
{
    reveal_strlit("session/cancel");
    reveal_strlit("nes/accept");
    reveal_strlit("nes/reject");
    reveal_strlit("document/didOpen");
    reveal_strlit("document/didChange");
    reveal_strlit("document/didClose");
    reveal_strlit("document/didSave");
    reveal_strlit("document/didFocus");
    reveal_strlit("mcp/message");
    assert(agent::SESSION_CANCEL@.len() == 14);
    assert(agent::NES_ACCEPT@.len() == 10);
    assert(agent::NES_REJECT@.len() == 10);
    assert(agent::DOCUMENT_DID_OPEN@.len() == 16);
    assert(agent::DOCUMENT_DID_CHANGE@.len() == 18);
    assert(agent::DOCUMENT_DID_CLOSE@.len() == 17);
    assert(agent::DOCUMENT_DID_SAVE@.len() == 16);
    assert(agent::DOCUMENT_DID_FOCUS@.len() == 17);
    assert(agent::MCP_MESSAGE@.len() == 11);
    assert(agent::NES_REJECT@[4] != agent::NES_ACCEPT@[4]);
    assert(agent::DOCUMENT_DID_SAVE@[12] != agent::DOCUMENT_DID_OPEN@[12]);
    assert(agent::DOCUMENT_DID_FOCUS@[12] != agent::DOCUMENT_DID_CLOSE@[12]);
}

/// A name that is not an extension method is the name of the route it takes.
pub proof fn lemma_agent_notification_routes_by_name(m: Seq<char>)
    ensures
        agent_notification_route(m) != AgentNotification::Ext ==> agent_notification_name(agent_notification_route(m)) == Some(m),
{
}

/// The requests a client serves, by the method name they arrive under.
#[derive(Debug, Clone, Copy, PartialEq, Eq, Structural)]
pub enum ClientRequest {
    RequestPermission,
    ReadTextFile,
    WriteTextFile,
    CreateTerminal,
    TerminalOutput,
    ReleaseTerminal,
    WaitForTerminalExit,
    KillTerminal,
    CreateElicitation,
    ConnectMcp,
    MessageMcp,
    DisconnectMcp,
    /// Any other name: an extension method.
    Ext,
}

/// The route taken for a request a client received under the name `m`.
pub open spec fn client_request_route(m: Seq<char>) -> ClientRequest {
    if m == client::SESSION_REQUEST_PERMISSION@ { ClientRequest::RequestPermission }
    else if m == client::FS_READ_TEXT_FILE@ { ClientRequest::ReadTextFile }
    else if m == client::FS_WRITE_TEXT_FILE@ { ClientRequest::WriteTextFile }
    else if m == client::TERMINAL_CREATE@ { ClientRequest::CreateTerminal }
    else if m == client::TERMINAL_OUTPUT@ { ClientRequest::TerminalOutput }
    else if m == client::TERMINAL_RELEASE@ { ClientRequest::ReleaseTerminal }
    else if m == client::TERMINAL_WAIT_FOR_EXIT@ { ClientRequest::WaitForTerminalExit }
    else if m == client::TERMINAL_KILL@ { ClientRequest::KillTerminal }
    else if m == client::ELICITATION_CREATE@ { ClientRequest::CreateElicitation }
    else if m == client::MCP_CONNECT@ { ClientRequest::ConnectMcp }
    else if m == client::MCP_MESSAGE@ { ClientRequest::MessageMcp }
    else if m == client::MCP_DISCONNECT@ { ClientRequest::DisconnectMcp }
    else { ClientRequest::Ext }
}

/// The name a route is reached by; extension methods have none of their own.
pub open spec fn client_request_name(r: ClientRequest) -> Option<Seq<char>> {
    match r {
        ClientRequest::RequestPermission => Some(client::SESSION_REQUEST_PERMISSION@),
        ClientRequest::ReadTextFile => Some(client::FS_READ_TEXT_FILE@),
        ClientRequest::WriteTextFile => Some(client::FS_WRITE_TEXT_FILE@),
        ClientRequest::CreateTerminal => Some(client::TERMINAL_CREATE@),
        ClientRequest::TerminalOutput => Some(client::TERMINAL_OUTPUT@),
        ClientRequest::ReleaseTerminal => Some(client::TERMINAL_RELEASE@),
        ClientRequest::WaitForTerminalExit => Some(client::TERMINAL_WAIT_FOR_EXIT@),
        ClientRequest::KillTerminal => Some(client::TERMINAL_KILL@),
        ClientRequest::CreateElicitation => Some(client::ELICITATION_CREATE@),
        ClientRequest::ConnectMcp => Some(client::MCP_CONNECT@),
        ClientRequest::MessageMcp => Some(client::MCP_MESSAGE@),
        ClientRequest::DisconnectMcp => Some(client::MCP_DISCONNECT@),
        ClientRequest::Ext => None,
    }
}

/// Route one request a client received.
pub fn route_client_request(method: &str) -> (r: ClientRequest)
    ensures
        r == client_request_route(method@),
{
    if same_text(method, client::SESSION_REQUEST_PERMISSION) { ClientRequest::RequestPermission }
    else if same_text(method, client::FS_READ_TEXT_FILE) { ClientRequest::ReadTextFile }
    else if same_text(method, client::FS_WRITE_TEXT_FILE) { ClientRequest::WriteTextFile }
    else if same_text(method, client::TERMINAL_CREATE) { ClientRequest::CreateTerminal }
    else if same_text(method, client::TERMINAL_OUTPUT) { ClientRequest::TerminalOutput }
    else if same_text(method, client::TERMINAL_RELEASE) { ClientRequest::ReleaseTerminal }
    else if same_text(method, client::TERMINAL_WAIT_FOR_EXIT) { ClientRequest::WaitForTerminalExit }
    else if same_text(method, client::TERMINAL_KILL) { ClientRequest::KillTerminal }
    else if same_text(method, client::ELICITATION_CREATE) { ClientRequest::CreateElicitation }
    else if same_text(method, client::MCP_CONNECT) { ClientRequest::ConnectMcp }
    else if same_text(method, client::MCP_MESSAGE) { ClientRequest::MessageMcp }
    else if same_text(method, client::MCP_DISCONNECT) { ClientRequest::DisconnectMcp }
    else { ClientRequest::Ext }
}

impl ClientRequest {
    /// The method name this route is reached by; `None` for an extension method.
    pub fn name(self) -> (n: Option<&'static str>)
        ensures
            n matches Some(t) ==> client_request_name(self) == Some(t@),
            n is None <==> client_request_name(self) is None,
    {
        match self {
            ClientRequest::RequestPermission => Some(client::SESSION_REQUEST_PERMISSION),
            ClientRequest::ReadTextFile => Some(client::FS_READ_TEXT_FILE),
            ClientRequest::WriteTextFile => Some(client::FS_WRITE_TEXT_FILE),
            ClientRequest::CreateTerminal => Some(client::TERMINAL_CREATE),
            ClientRequest::TerminalOutput => Some(client::TERMINAL_OUTPUT),
            ClientRequest::ReleaseTerminal => Some(client::TERMINAL_RELEASE),
            ClientRequest::WaitForTerminalExit => Some(client::TERMINAL_WAIT_FOR_EXIT),
            ClientRequest::KillTerminal => Some(client::TERMINAL_KILL),
            ClientRequest::CreateElicitation => Some(client::ELICITATION_CREATE),
            ClientRequest::ConnectMcp => Some(client::MCP_CONNECT),
            ClientRequest::MessageMcp => Some(client::MCP_MESSAGE),
            ClientRequest::DisconnectMcp => Some(client::MCP_DISCONNECT),
            ClientRequest::Ext => None,
        }
    }
}

/// Every named route is reached by its own name, and no two routes share a
/// name: the name table and the router agree.
pub proof fn lemma_client_request_names_route_home(r: ClientRequest)
    ensures
        client_request_name(r) matches Some(m) ==> client_request_route(m) == r,
{
    reveal_strlit("session/request_permission");
    reveal_strlit("fs/read_text_file");
    reveal_strlit("fs/write_text_file");
    reveal_strlit("terminal/create");
    reveal_strlit("terminal/output");
    reveal_strlit("terminal/release");
    reveal_strlit("terminal/wait_for_exit");
    reveal_strlit("terminal/kill");
    reveal_strlit("elicitation/create");
    reveal_strlit("mcp/connect");
    reveal_strlit("mcp/message");
    reveal_strlit("mcp/disconnect");
    assert(client::SESSION_REQUEST_PERMISSION@.len() == 26);
    assert(client::FS_READ_TEXT_FILE@.len() == 17);
    assert(client::FS_WRITE_TEXT_FILE@.len() == 18);
    assert(client::TERMINAL_CREATE@.len() == 15);
    assert(client::TERMINAL_OUTPUT@.len() == 15);
    assert(client::TERMINAL_RELEASE@.len() == 16);
    assert(client::TERMINAL_WAIT_FOR_EXIT@.len() == 22);
    assert(client::TERMINAL_KILL@.len() == 13);
    assert(client::ELICITATION_CREATE@.len() == 18);
    assert(client::MCP_CONNECT@.len() == 11);
    assert(client::MCP_MESSAGE@.len() == 11);
    assert(client::MCP_DISCONNECT@.len() == 14);
    assert(client::TERMINAL_OUTPUT@[9] != client::TERMINAL_CREATE@[9]);
    assert(client::ELICITATION_CREATE@[0] != client::FS_WRITE_TEXT_FILE@[0]);
    assert(client::MCP_MESSAGE@[4] != client::MCP_CONNECT@[4]);
}

/// A name that is not an extension method is the name of the route it takes.
pub proof fn lemma_client_request_routes_by_name(m: Seq<char>)
    ensures
        client_request_route(m) != ClientRequest::Ext ==> client_request_name(client_request_route(m)) == Some(m),
{
}

/// The notifications a client handles, by the method name they arrive under.
#[derive(Debug, Clone, Copy, PartialEq, Eq, Structural)]
pub enum ClientNotification {
    SessionUpdate,
    CompleteElicitation,
    NotifyMcp,
    /// Any other name: an extension method.
    Ext,
}

/// The route taken for a notification a client received under the name `m`.
pub open spec fn client_notification_route(m: Seq<char>) -> ClientNotification {
    if m == client::SESSION_UPDATE@ { ClientNotification::SessionUpdate }
    else if m == client::ELICITATION_COMPLETE@ { ClientNotification::CompleteElicitation }
    else if m == client::MCP_MESSAGE@ { ClientNotification::NotifyMcp }
    else { ClientNotification::Ext }
}

/// The name a route is reached by; extension methods have none of their own.
pub open spec fn client_notification_name(r: ClientNotification) -> Option<Seq<char>> {
    match r {
        ClientNotification::SessionUpdate => Some(client::SESSION_UPDATE@),
        ClientNotification::CompleteElicitation => Some(client::ELICITATION_COMPLETE@),
        ClientNotification::NotifyMcp => Some(client::MCP_MESSAGE@),
        ClientNotification::Ext => None,
    }
}

/// Route one notification a client received.
pub fn route_client_notification(method: &str) -> (r: ClientNotification)
    ensures
        r == client_notification_route(method@),
{
    if same_text(method, client::SESSION_UPDATE) { ClientNotification::SessionUpdate }
    else if same_text(method, client::ELICITATION_COMPLETE) { ClientNotification::CompleteElicitation }
    else if same_text(method, client::MCP_MESSAGE) { ClientNotification::NotifyMcp }
    else { ClientNotification::Ext }
}

impl ClientNotification {
    /// The method name this route is reached by; `None` for an extension method.
    pub fn name(self) -> (n: Option<&'static str>)
        ensures
            n matches Some(t) ==> client_notification_name(self) == Some(t@),
            n is None <==> client_notification_name(self) is None,
    {
        match self {
            ClientNotification::SessionUpdate => Some(client::SESSION_UPDATE),
            ClientNotification::CompleteElicitation => Some(client::ELICITATION_COMPLETE),
            ClientNotification::NotifyMcp => Some(client::MCP_MESSAGE),
            ClientNotification::Ext => None,
        }
    }
}

/// Every named route is reached by its own name, and no two routes share a
/// name: the name table and the router agree.
pub proof fn lemma_client_notification_names_route_home(r: ClientNotification)
    ensures
        client_notification_name(r) matches Some(m) ==> client_notification_route(m) == r,
{
    reveal_strlit("session/update");
    reveal_strlit("elicitation/complete");
    reveal_strlit("mcp/message");
    assert(client::SESSION_UPDATE@.len() == 14);
    assert(client::ELICITATION_COMPLETE@.len() == 20);
    assert(client::MCP_MESSAGE@.len() == 11);
}

/// A name that is not an extension method is the name of the route it takes.
pub proof fn lemma_client_notification_routes_by_name(m: Seq<char>)
    ensures
        client_notification_route(m) != ClientNotification::Ext ==> client_notification_name(client_notification_route(m)) == Some(m),
{
}

/// Each request an agent serves is reached by its own wire name, written out:
/// `session/load` reaches the load handler, `session/resume` the resume
/// handler, and so on for every request ACP defines.
pub proof fn lemma_agent_requests_route_by_wire_name()
    ensures
        agent_request_route("initialize"@) == AgentRequest::Initialize,
        agent_request_route("authenticate"@) == AgentRequest::Authenticate,
        agent_request_route("logout"@) == AgentRequest::Logout,
        agent_request_route("session/new"@) == AgentRequest::NewSession,
        agent_request_route("session/load"@) == AgentRequest::LoadSession,
        agent_request_route("session/resume"@) == AgentRequest::ResumeSession,
        agent_request_route("session/fork"@) == AgentRequest::ForkSession,
        agent_request_route("session/close"@) == AgentRequest::CloseSession,
        agent_request_route("session/list"@) == AgentRequest::ListSessions,
        agent_request_route("session/delete"@) == AgentRequest::DeleteSession,
        agent_request_route("session/set_mode"@) == AgentRequest::SetSessionMode,
        agent_request_route("session/set_config_option"@) == AgentRequest::SetSessionConfigOption,
        agent_request_route("session/prompt"@) == AgentRequest::Prompt,
        agent_request_route("providers/list"@) == AgentRequest::ListProviders,
        agent_request_route("providers/set"@) == AgentRequest::SetProvider,
        agent_request_route("providers/disable"@) == AgentRequest::DisableProvider,
        agent_request_route("nes/start"@) == AgentRequest::StartNes,
        agent_request_route("nes/suggest"@) == AgentRequest::SuggestNes,
        agent_request_route("nes/close"@) == AgentRequest::CloseNes,
        agent_request_route("mcp/message"@) == AgentRequest::MessageMcp,
{
    lemma_agent_request_names_route_home(AgentRequest::Initialize);
    lemma_agent_request_names_route_home(AgentRequest::Authenticate);
    lemma_agent_request_names_route_home(AgentRequest::Logout);
    lemma_agent_request_names_route_home(AgentRequest::NewSession);
    lemma_agent_request_names_route_home(AgentRequest::LoadSession);
    lemma_agent_request_names_route_home(AgentRequest::ResumeSession);
    lemma_agent_request_names_route_home(AgentRequest::ForkSession);
    lemma_agent_request_names_route_home(AgentRequest::CloseSession);
    lemma_agent_request_names_route_home(AgentRequest::ListSessions);
    lemma_agent_request_names_route_home(AgentRequest::DeleteSession);
    lemma_agent_request_names_route_home(AgentRequest::SetSessionMode);
    lemma_agent_request_names_route_home(AgentRequest::SetSessionConfigOption);
    lemma_agent_request_names_route_home(AgentRequest::Prompt);
    lemma_agent_request_names_route_home(AgentRequest::ListProviders);
    lemma_agent_request_names_route_home(AgentRequest::SetProvider);
    lemma_agent_request_names_route_home(AgentRequest::DisableProvider);
    lemma_agent_request_names_route_home(AgentRequest::StartNes);
    lemma_agent_request_names_route_home(AgentRequest::SuggestNes);
    lemma_agent_request_names_route_home(AgentRequest::CloseNes);
    lemma_agent_request_names_route_home(AgentRequest::MessageMcp);
}

/// Each notification an agent handles is reached by its own wire name,
/// written out.
pub proof fn lemma_agent_notifications_route_by_wire_name()
    ensures
        agent_notification_route("session/cancel"@) == AgentNotification::Cancel,
        agent_notification_route("nes/accept"@) == AgentNotification::AcceptNes,
        agent_notification_route("nes/reject"@) == AgentNotification::RejectNes,
        agent_notification_route("document/didOpen"@) == AgentNotification::DidOpenDocument,
        agent_notification_route("document/didChange"@) == AgentNotification::DidChangeDocument,
        agent_notification_route("document/didClose"@) == AgentNotification::DidCloseDocument,
        agent_notification_route("document/didSave"@) == AgentNotification::DidSaveDocument,
        agent_notification_route("document/didFocus"@) == AgentNotification::DidFocusDocument,
        agent_notification_route("mcp/message"@) == AgentNotification::NotifyMcp,
{
    lemma_agent_notification_names_route_home(AgentNotification::Cancel);
    lemma_agent_notification_names_route_home(AgentNotification::AcceptNes);
    lemma_agent_notification_names_route_home(AgentNotification::RejectNes);
    lemma_agent_notification_names_route_home(AgentNotification::DidOpenDocument);
    lemma_agent_notification_names_route_home(AgentNotification::DidChangeDocument);
    lemma_agent_notification_names_route_home(AgentNotification::DidCloseDocument);
    lemma_agent_notification_names_route_home(AgentNotification::DidSaveDocument);
    lemma_agent_notification_names_route_home(AgentNotification::DidFocusDocument);
    lemma_agent_notification_names_route_home(AgentNotification::NotifyMcp);
}

/// Each request a client serves is reached by its own wire name, written
/// out.
pub proof fn lemma_client_requests_route_by_wire_name()
    ensures
        client_request_route("session/request_permission"@) == ClientRequest::RequestPermission,
        client_request_route("fs/read_text_file"@) == ClientRequest::ReadTextFile,
        client_request_route("fs/write_text_file"@) == ClientRequest::WriteTextFile,
        client_request_route("terminal/create"@) == ClientRequest::CreateTerminal,
        client_request_route("terminal/output"@) == ClientRequest::TerminalOutput,
        client_request_route("terminal/release"@) == ClientRequest::ReleaseTerminal,
        client_request_route("terminal/wait_for_exit"@) == ClientRequest::WaitForTerminalExit,
        client_request_route("terminal/kill"@) == ClientRequest::KillTerminal,
        client_request_route("elicitation/create"@) == ClientRequest::CreateElicitation,
        client_request_route("mcp/connect"@) == ClientRequest::ConnectMcp,
        client_request_route("mcp/message"@) == ClientRequest::MessageMcp,
        client_request_route("mcp/disconnect"@) == ClientRequest::DisconnectMcp,
{
    lemma_client_request_names_route_home(ClientRequest::RequestPermission);
    lemma_client_request_names_route_home(ClientRequest::ReadTextFile);
    lemma_client_request_names_route_home(ClientRequest::WriteTextFile);
    lemma_client_request_names_route_home(ClientRequest::CreateTerminal);
    lemma_client_request_names_route_home(ClientRequest::TerminalOutput);
    lemma_client_request_names_route_home(ClientRequest::ReleaseTerminal);
    lemma_client_request_names_route_home(ClientRequest::WaitForTerminalExit);
    lemma_client_request_names_route_home(ClientRequest::KillTerminal);
    lemma_client_request_names_route_home(ClientRequest::CreateElicitation);
    lemma_client_request_names_route_home(ClientRequest::ConnectMcp);
    lemma_client_request_names_route_home(ClientRequest::MessageMcp);
    lemma_client_request_names_route_home(ClientRequest::DisconnectMcp);
}

/// Each notification a client handles is reached by its own wire name,
/// written out.
pub proof fn lemma_client_notifications_route_by_wire_name()
    ensures
        client_notification_route("session/update"@) == ClientNotification::SessionUpdate,
        client_notification_route("elicitation/complete"@) == ClientNotification::CompleteElicitation,
        client_notification_route("mcp/message"@) == ClientNotification::NotifyMcp,
{
    lemma_client_notification_names_route_home(ClientNotification::SessionUpdate);
    lemma_client_notification_names_route_home(ClientNotification::CompleteElicitation);
    lemma_client_notification_names_route_home(ClientNotification::NotifyMcp);
}

} // verus!
