use cacp::method::agent;
use cacp::method::client;
use cacp::method::{
    route_agent_notification, route_agent_request, route_client_notification,
    route_client_request, AgentNotification, AgentRequest, ClientNotification, ClientRequest,
    CANCEL_REQUEST,
};

#[test]
fn agent_requests_route_by_name() {
    assert_eq!(route_agent_request(agent::INITIALIZE), AgentRequest::Initialize);
    assert_eq!(route_agent_request("session/prompt"), AgentRequest::Prompt);
    assert_eq!(route_agent_request("session/set_config_option"), AgentRequest::SetSessionConfigOption);
    assert_eq!(route_agent_request("mcp/message"), AgentRequest::MessageMcp);
    assert_eq!(route_agent_request("nes/close"), AgentRequest::CloseNes);
}

#[test]
fn unknown_agent_request_is_an_extension() {
    assert_eq!(route_agent_request("_vendor/do_thing"), AgentRequest::Ext);
    assert_eq!(route_agent_request(""), AgentRequest::Ext);
    // A notification name is not a request name.
    assert_eq!(route_agent_request(agent::SESSION_CANCEL), AgentRequest::Ext);
    // Names match exactly, case included.
    assert_eq!(route_agent_request("Initialize"), AgentRequest::Ext);
}

#[test]
fn every_agent_request_name_routes_home() {
    let all = [
        AgentRequest::Initialize,
        AgentRequest::Authenticate,
        AgentRequest::Logout,
        AgentRequest::NewSession,
        AgentRequest::LoadSession,
        AgentRequest::ResumeSession,
        AgentRequest::ForkSession,
        AgentRequest::CloseSession,
        AgentRequest::ListSessions,
        AgentRequest::DeleteSession,
        AgentRequest::SetSessionMode,
        AgentRequest::SetSessionConfigOption,
        AgentRequest::Prompt,
        AgentRequest::ListProviders,
        AgentRequest::SetProvider,
        AgentRequest::DisableProvider,
        AgentRequest::StartNes,
        AgentRequest::SuggestNes,
        AgentRequest::CloseNes,
        AgentRequest::MessageMcp,
    ];
    for r in all {
        let name = r.name().unwrap();
        assert_eq!(route_agent_request(name), r);
    }
    assert_eq!(AgentRequest::Ext.name(), None);
}

#[test]
fn agent_notifications_route_by_name() {
    assert_eq!(route_agent_notification("session/cancel"), AgentNotification::Cancel);
    assert_eq!(route_agent_notification("document/didFocus"), AgentNotification::DidFocusDocument);
    assert_eq!(route_agent_notification("mcp/message"), AgentNotification::NotifyMcp);
    assert_eq!(route_agent_notification("initialize"), AgentNotification::Ext);
    for r in [
        AgentNotification::Cancel,
        AgentNotification::AcceptNes,
        AgentNotification::RejectNes,
        AgentNotification::DidOpenDocument,
        AgentNotification::DidChangeDocument,
        AgentNotification::DidCloseDocument,
        AgentNotification::DidSaveDocument,
        AgentNotification::DidFocusDocument,
        AgentNotification::NotifyMcp,
    ] {
        assert_eq!(route_agent_notification(r.name().unwrap()), r);
    }
}

#[test]
fn client_requests_and_notifications_route_by_name() {
    assert_eq!(route_client_request(client::SESSION_REQUEST_PERMISSION), ClientRequest::RequestPermission);
    assert_eq!(route_client_request("terminal/wait_for_exit"), ClientRequest::WaitForTerminalExit);
    assert_eq!(route_client_request("session/update"), ClientRequest::Ext);
    assert_eq!(route_client_notification("session/update"), ClientNotification::SessionUpdate);
    assert_eq!(route_client_notification("elicitation/complete"), ClientNotification::CompleteElicitation);
    assert_eq!(route_client_notification("fs/read_text_file"), ClientNotification::Ext);
    for r in [
        ClientRequest::RequestPermission,
        ClientRequest::ReadTextFile,
        ClientRequest::WriteTextFile,
        ClientRequest::CreateTerminal,
        ClientRequest::TerminalOutput,
        ClientRequest::ReleaseTerminal,
        ClientRequest::WaitForTerminalExit,
        ClientRequest::KillTerminal,
        ClientRequest::CreateElicitation,
        ClientRequest::ConnectMcp,
        ClientRequest::MessageMcp,
        ClientRequest::DisconnectMcp,
    ] {
        assert_eq!(route_client_request(r.name().unwrap()), r);
    }
}

#[test]
fn method_names_are_the_wire_names() {
    assert_eq!(agent::SESSION_NEW, "session/new");
    assert_eq!(agent::DOCUMENT_DID_CHANGE, "document/didChange");
    assert_eq!(client::TERMINAL_KILL, "terminal/kill");
    assert_eq!(CANCEL_REQUEST, "$/cancel_request");
    assert_eq!(agent::MCP_MESSAGE, client::MCP_MESSAGE);
}
