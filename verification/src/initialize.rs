//! Version and capability negotiation, and authentication.

use vstd::prelude::*;
use std::collections::HashMap;
use crate::error::{with_data, Error, INVALID_REQUEST};
use crate::id::AuthMethodId;
use crate::json::Meta;
use crate::json::json_string;
use crate::nes::{ClientNesCapabilities, NesCapabilities, PositionEncodingKind};
use crate::text::{decimal, push_text, write_decimal, owned};

verus! {

/// The protocol revision. This crate speaks [`ProtocolVersion::V1`].
#[derive(Debug, Clone, Copy, PartialEq, Eq, PartialOrd, Ord)]
pub struct ProtocolVersion(pub u16);

impl ProtocolVersion {
    /// The draft revision before the first release.
    pub fn v0() -> (v: ProtocolVersion)
        ensures
            v.0 == 0,
    {
        ProtocolVersion(0)
    }

    pub fn v1() -> (v: ProtocolVersion)
        ensures
            v.0 == 1,
    {
        ProtocolVersion(1)
    }

    /// The revision this crate speaks.
    pub fn latest() -> (v: ProtocolVersion)
        ensures
            v.0 == 1,
    {
        ProtocolVersion::v1()
    }
}

impl Default for ProtocolVersion {
    /// The revision this crate speaks.
    fn default() -> (v: ProtocolVersion)
        ensures
            v.0 == 1,
    {
        ProtocolVersion::latest()
    }
}

/// An empty object whose presence is itself the capability flag.
#[derive(Debug, Clone, Copy, Default, PartialEq, Eq)]
pub struct Capability {}

#[derive(Debug, Clone, PartialEq)]
pub struct InitializeRequest {
    pub protocol_version: ProtocolVersion,
    pub client_capabilities: ClientCapabilities,
    pub client_info: Option<Implementation>,
    pub meta: Option<Meta>,
}

impl InitializeRequest {
    /// A request for the revision this crate speaks.
    pub fn new(client_capabilities: ClientCapabilities) -> (r: InitializeRequest)
        ensures
            r.protocol_version.0 == 1,
            r.client_capabilities == client_capabilities,
            r.client_info is None,
            r.meta is None,
    {
        InitializeRequest {
            protocol_version: ProtocolVersion::latest(),
            client_capabilities,
            client_info: None,
            meta: None,
        }
    }
}

#[derive(Debug, Clone, PartialEq)]
pub struct InitializeResponse {
    pub protocol_version: ProtocolVersion,
    pub agent_capabilities: AgentCapabilities,
    pub auth_methods: Vec<AuthMethod>,
    pub agent_info: Option<Implementation>,
    pub meta: Option<Meta>,
}

/// Name and version of the program on either end.
#[derive(Debug, Clone, PartialEq, Eq)]
pub struct Implementation {
    pub name: String,
    pub version: String,
    pub title: Option<String>,
}

#[derive(Debug, Clone, Default, PartialEq)]
pub struct ClientCapabilities {
    pub fs: FileSystemCapabilities,
    pub terminal: bool,
    pub session: Option<ClientSessionCapabilities>,
    /// Whether the client understands the `plan_update` and `plan_removed`
    /// session updates, as opposed to whole-plan `plan` reports.
    pub plan: Option<Capability>,
    pub auth: ClientAuthCapabilities,
    pub nes: Option<ClientNesCapabilities>,
    /// Column encodings the client accepts in a
    /// [`Position`](crate::Position), best first.
    pub position_encodings: Vec<PositionEncodingKind>,
}

/// Which [`AuthMethod`] variants the agent may offer. A client that cannot
/// run a terminal must not be handed [`AuthMethod::Terminal`].
#[derive(Debug, Clone, Copy, Default, PartialEq, Eq)]
pub struct ClientAuthCapabilities {
    pub terminal: bool,
}

#[derive(Debug, Clone, Copy, Default, PartialEq, Eq)]
pub struct FileSystemCapabilities {
    pub read_text_file: bool,
    pub write_text_file: bool,
}

#[derive(Debug, Clone, Copy, Default, PartialEq, Eq)]
pub struct ClientSessionCapabilities {
    pub config_options: Option<SessionConfigOptionsCapabilities>,
}

#[derive(Debug, Clone, Copy, Default, PartialEq, Eq)]
pub struct SessionConfigOptionsCapabilities {
    pub boolean: Option<Capability>,
}

#[derive(Debug, Clone, Default, PartialEq, Eq)]
pub struct AgentCapabilities {
    pub load_session: bool,
    pub prompt_capabilities: PromptCapabilities,
    pub mcp_capabilities: McpCapabilities,
    pub session_capabilities: SessionCapabilities,
    pub auth: AgentAuthCapabilities,
    pub providers: Option<Capability>,
    pub nes: Option<NesCapabilities>,
    /// The one encoding the agent picked from the client's
    /// [`position_encodings`](ClientCapabilities::position_encodings).
    pub position_encoding: Option<PositionEncodingKind>,
}

#[derive(Debug, Clone, Copy, Default, PartialEq, Eq)]
pub struct PromptCapabilities {
    pub image: bool,
    pub audio: bool,
    pub embedded_context: bool,
}

#[derive(Debug, Clone, Copy, Default, PartialEq, Eq)]
pub struct McpCapabilities {
    pub http: bool,
    pub sse: bool,
}

#[derive(Debug, Clone, Copy, Default, PartialEq, Eq)]
pub struct SessionCapabilities {
    pub list: Option<Capability>,
    pub delete: Option<Capability>,
    pub additional_directories: Option<Capability>,
    pub fork: Option<Capability>,
    pub resume: Option<Capability>,
    pub close: Option<Capability>,
}

#[derive(Debug, Clone, Copy, Default, PartialEq, Eq)]
pub struct AgentAuthCapabilities {
    pub logout: Option<Capability>,
}

/// A way to sign in. [`Agent`](AuthMethod::Agent) is the untagged fallback:
/// methods that predate the `type` tag still arrive without one, and they
/// mean "the agent handles this itself".
///
/// Only offer [`EnvVar`](AuthMethod::EnvVar) or
/// [`Terminal`](AuthMethod::Terminal) to a client that advertised
/// [`ClientAuthCapabilities`].
#[derive(Debug, Clone, PartialEq, Eq)]
pub enum AuthMethod {
    EnvVar(AuthMethodEnvVar),
    Terminal(AuthMethodTerminal),
    Agent(AuthMethodAgent),
}

/// The id, name and description every kind of sign-in method carries.
pub open spec fn method_id(m: AuthMethod) -> AuthMethodId {
    match m {
        AuthMethod::EnvVar(method) => method.id,
        AuthMethod::Terminal(method) => method.id,
        AuthMethod::Agent(method) => method.id,
    }
}

pub open spec fn method_name(m: AuthMethod) -> Seq<char> {
    match m {
        AuthMethod::EnvVar(method) => method.name@,
        AuthMethod::Terminal(method) => method.name@,
        AuthMethod::Agent(method) => method.name@,
    }
}

pub open spec fn method_description(m: AuthMethod) -> Option<String> {
    match m {
        AuthMethod::EnvVar(method) => method.description,
        AuthMethod::Terminal(method) => method.description,
        AuthMethod::Agent(method) => method.description,
    }
}

/// Borrows the text of an optional description.
fn borrowed(d: &Option<String>) -> (r: Option<&str>)
    ensures
        r is Some <==> d is Some,
        r is Some ==> r->0@ == d->0@,
{
    match d {
        Some(text) => Some(text.as_str()),
        None => None,
    }
}

impl AuthMethod {
    pub fn id(&self) -> (id: &AuthMethodId)
        ensures
            *id == method_id(*self),
    {
        match self {
            AuthMethod::EnvVar(method) => &method.id,
            AuthMethod::Terminal(method) => &method.id,
            AuthMethod::Agent(method) => &method.id,
        }
    }

    pub fn name(&self) -> (n: &str)
        ensures
            n@ == method_name(*self),
    {
        match self {
            AuthMethod::EnvVar(method) => method.name.as_str(),
            AuthMethod::Terminal(method) => method.name.as_str(),
            AuthMethod::Agent(method) => method.name.as_str(),
        }
    }

    pub fn description(&self) -> (d: Option<&str>)
        ensures
            d is Some <==> method_description(*self) is Some,
            d is Some ==> d->0@ == method_description(*self)->0@,
    {
        match self {
            AuthMethod::EnvVar(method) => borrowed(&method.description),
            AuthMethod::Terminal(method) => borrowed(&method.description),
            AuthMethod::Agent(method) => borrowed(&method.description),
        }
    }
}

/// The agent signs in on its own — an API key already in its environment, or
/// an OAuth flow it opens a browser for.
#[derive(Debug, Clone, PartialEq, Eq)]
pub struct AuthMethodAgent {
    pub id: AuthMethodId,
    pub name: String,
    pub description: Option<String>,
    pub meta: Option<Meta>,
}

/// The client collects values from the user and passes them to the agent as
/// environment variables.
#[derive(Debug, Clone, PartialEq, Eq)]
pub struct AuthMethodEnvVar {
    pub id: AuthMethodId,
    pub name: String,
    pub description: Option<String>,
    pub vars: Vec<AuthEnvVar>,
    /// Where the user can go to obtain the credentials.
    pub link: Option<String>,
    pub meta: Option<Meta>,
}

#[derive(Debug, Clone, PartialEq, Eq)]
pub struct AuthEnvVar {
    pub name: String,
    pub label: Option<String>,
    /// Secret by default — a client that guesses wrong echoes an API key to
    /// the screen.
    pub secret: bool,
    pub optional: bool,
}

/// What an absent `secret` reads as.
pub fn yes() -> (b: bool)
    ensures
        b,
{
    true
}

/// Whether `secret` holds its default, and so is left out when written.
pub fn is_yes(value: &bool) -> (b: bool)
    ensures
        b == *value,
{
    *value
}

/// Whether `optional` holds its default, and so is left out when written.
pub fn is_no(value: &bool) -> (b: bool)
    ensures
        b == !*value,
{
    !*value
}

/// The client runs a terminal for the user to sign in interactively.
#[derive(Debug, Clone, PartialEq, Eq)]
pub struct AuthMethodTerminal {
    pub id: AuthMethodId,
    pub name: String,
    pub description: Option<String>,
    pub args: Vec<String>,
    pub env: HashMap<String, String>,
    pub meta: Option<Meta>,
}

#[derive(Debug, Clone, PartialEq, Eq)]
pub struct AuthenticateRequest {
    pub method_id: AuthMethodId,
}

#[derive(Debug, Clone, Copy, Default, PartialEq, Eq)]
pub struct AuthenticateResponse {}

#[derive(Debug, Clone, Copy, Default, PartialEq, Eq)]
pub struct LogoutRequest {}

#[derive(Debug, Clone, Copy, Default, PartialEq, Eq)]
pub struct LogoutResponse {}

/// Why a client refuses an agent that chose revision `chosen`: both
/// revisions, named.
pub open spec fn version_refusal(chosen: u16) -> Seq<char> {
    "agent chose protocol version "@ + decimal(chosen as int) + "; this build speaks "@
        + decimal(1)
}

/// Whether an agent's chosen revision is one this build speaks; the refusal
/// names both revisions.
pub fn refuse_unknown_version(chosen: u16) -> (r: Result<(), Error>)
    ensures
        chosen == 1 ==> r is Ok,
        chosen != 1 ==> (r matches Err(e) && with_data(
            e,
            INVALID_REQUEST,
            "Invalid request"@,
            json_string(version_refusal(chosen)),
        )),
{
    let latest = ProtocolVersion::latest();
    if chosen == latest.0 {
        return Ok(());
    }
    let mut text = owned("agent chose protocol version ");
    write_decimal(chosen as i64, &mut text);
    push_text(&mut text, "; this build speaks ");
    write_decimal(latest.0 as i64, &mut text);
    Err(Error::invalid_request().with_text(text))
}

/// Accepts the agent's answer to `initialize` only if it picked the revision
/// this build speaks: proceeding on a version it cannot decode only fails
/// later, and less clearly.
pub fn check_version(response: InitializeResponse) -> (r: Result<InitializeResponse, Error>)
    ensures
        response.protocol_version.0 == 1 ==> r == Ok::<InitializeResponse, Error>(response),
        response.protocol_version.0 != 1 ==> (r matches Err(e) && with_data(
            e,
            INVALID_REQUEST,
            "Invalid request"@,
            json_string(version_refusal(response.protocol_version.0)),
        )),
{
    match refuse_unknown_version(response.protocol_version.0) {
        Ok(()) => Ok(response),
        Err(e) => Err(e),
    }
}

} // verus!
