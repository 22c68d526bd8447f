use cacp::error::Error;
use cacp::events::{answered, answered_ext, declined_ext};
use cacp::id::{AuthMethodId, PermissionOptionId, ProviderId};
use cacp::initialize::{
    check_version, is_no, is_yes, yes, AgentCapabilities, AuthMethod, AuthMethodAgent,
    AuthMethodEnvVar, AuthMethodTerminal, ClientCapabilities, InitializeRequest,
    InitializeResponse, ProtocolVersion,
};
use cacp::maybe::MaybeUndefined;
use cacp::permission::{RequestPermissionOutcome, RequestPermissionResponse};
use cacp::provider::{LlmProtocol, SetProviderRequest};
use serde_json::Value;
use std::collections::HashMap;

fn response(version: u16) -> InitializeResponse {
    InitializeResponse {
        protocol_version: ProtocolVersion(version),
        agent_capabilities: AgentCapabilities::default(),
        auth_methods: vec![],
        agent_info: None,
        meta: None,
    }
}

#[test]
fn initialize_refuses_a_version_this_build_cannot_speak() {
    let error = check_version(response(2)).expect_err("a version we do not speak must not pass silently");
    assert_eq!(error.code, -32600);
    assert_eq!(
        error.data,
        Some(Value::String("agent chose protocol version 2; this build speaks 1".to_string()))
    );
    assert!(check_version(response(ProtocolVersion::latest().0)).is_ok());
    assert!(check_version(response(0)).is_err());
}

#[test]
fn versions_and_requests() {
    assert_eq!(ProtocolVersion::latest(), ProtocolVersion::v1());
    assert_eq!(ProtocolVersion::default(), ProtocolVersion(1));
    assert_eq!(ProtocolVersion::v0(), ProtocolVersion(0));
    let r = InitializeRequest::new(ClientCapabilities::default());
    assert_eq!(r.protocol_version, ProtocolVersion(1));
    assert!(r.client_info.is_none());
    assert!(r.meta.is_none());
}

#[test]
fn every_auth_method_has_an_id_a_name_and_maybe_a_description() {
    let agent = AuthMethod::Agent(AuthMethodAgent {
        id: AuthMethodId::new("oauth".to_string()),
        name: "Sign in".to_string(),
        description: None,
        meta: None,
    });
    assert_eq!(agent.id().as_str(), "oauth");
    assert_eq!(agent.name(), "Sign in");
    assert_eq!(agent.description(), None);
    let env = AuthMethod::EnvVar(AuthMethodEnvVar {
        id: AuthMethodId::new("key".to_string()),
        name: "API key".to_string(),
        description: Some("paste it".to_string()),
        vars: vec![],
        link: None,
        meta: None,
    });
    assert_eq!(env.id().as_str(), "key");
    assert_eq!(env.description(), Some("paste it"));
    let term = AuthMethod::Terminal(AuthMethodTerminal {
        id: AuthMethodId::new("tui".to_string()),
        name: "Terminal".to_string(),
        description: Some("log in".to_string()),
        args: vec!["login".to_string()],
        env: HashMap::new(),
        meta: None,
    });
    assert_eq!(term.name(), "Terminal");
    assert_eq!(term.description(), Some("log in"));
}

#[test]
fn secret_defaults_to_yes_and_optional_to_no() {
    assert!(yes());
    assert!(is_yes(&true));
    assert!(!is_yes(&false));
    assert!(is_no(&false));
    assert!(!is_no(&true));
}

#[test]
fn maybe_undefined_tells_absent_from_null() {
    let absent: MaybeUndefined<u8> = MaybeUndefined::default();
    assert!(absent.is_undefined());
    assert_eq!(absent.value(), None);
    let null: MaybeUndefined<u8> = MaybeUndefined::from(None);
    assert_eq!(null, MaybeUndefined::Null);
    assert!(!null.is_undefined());
    assert_eq!(null.value(), None);
    let set: MaybeUndefined<u8> = MaybeUndefined::from(Some(3));
    assert_eq!(set.clone().value(), Some(3));
    assert!(!set.is_undefined());
}

#[test]
fn permission_answers() {
    let r = RequestPermissionResponse::selected(PermissionOptionId::new("allow".to_string()));
    assert_eq!(
        r.outcome,
        RequestPermissionOutcome::Selected { option_id: PermissionOptionId::new("allow".to_string()) }
    );
    assert_eq!(RequestPermissionResponse::cancelled().outcome, RequestPermissionOutcome::Cancelled);
}

#[test]
fn provider_requests_start_without_headers() {
    let r = SetProviderRequest::new(
        ProviderId::new("main".to_string()),
        LlmProtocol::Other("groq".to_string()),
        "https://x".to_string(),
    );
    assert!(r.headers.is_empty());
    assert_eq!(r.base_url, "https://x");
    assert_eq!(r.api_type, LlmProtocol::Other("groq".to_string()));
    assert!(r.meta.is_none());
}

#[test]
fn unanswered_events_are_declined() {
    let declined: Result<u8, Error> = answered(None);
    assert_eq!(declined, Err(Error::method_not_found()));
    assert_eq!(answered(Some(Ok::<u8, Error>(4))), Ok(4));
    assert_eq!(answered(Some(Err::<u8, Error>(Error::internal_error()))), Err(Error::internal_error()));
    let e = declined_ext("_x/y".to_string());
    assert_eq!(e.code, -32601);
    assert_eq!(e.data, Some(Value::String("_x/y".to_string())));
    assert_eq!(answered_ext::<u8>("_x/y".to_string(), None), Err(e));
    assert_eq!(answered_ext("_x/y".to_string(), Some(Ok::<u8, Error>(1))), Ok(1));
}
