//! The protocol's string-newtype identifiers, and the JSON-RPC request id.

use vstd::prelude::*;
use crate::text::{decimal, decimal_text, owned, same_text};

verus! {

/// Identifies a conversation with an agent.
#[derive(Debug, Clone, PartialEq, Eq, Hash, PartialOrd, Ord)]
pub struct SessionId(pub String);

impl SessionId {
    pub fn new(text: String) -> (id: SessionId)
        ensures
            id.0@ == text@,
    {
        SessionId(text)
    }

    /// The identifier's text.
    pub fn as_str(&self) -> (t: &str)
        ensures
            t@ == self.0@,
    {
        self.0.as_str()
    }

    /// Whether two identifiers name the same thing.
    pub fn same(&self, other: &SessionId) -> (b: bool)
        ensures
            b == (self.0@ == other.0@),
    {
        same_text(self.0.as_str(), other.0.as_str())
    }

    /// A copy of this identifier.
    pub fn duplicate(&self) -> (id: SessionId)
        ensures
            id == *self,
    {
        SessionId(self.0.clone())
    }
}

impl From<String> for SessionId {
    fn from(text: String) -> (id: SessionId) {
        SessionId(text)
    }
}

impl vstd::std_specs::convert::FromSpecImpl<String> for SessionId {
    open spec fn obeys_from_spec() -> bool {
        true
    }

    open spec fn from_spec(text: String) -> SessionId {
        SessionId(text)
    }
}

/// Identifies one tool invocation within a session.
#[derive(Debug, Clone, PartialEq, Eq, Hash, PartialOrd, Ord)]
pub struct ToolCallId(pub String);

impl ToolCallId {
    pub fn new(text: String) -> (id: ToolCallId)
        ensures
            id.0@ == text@,
    {
        ToolCallId(text)
    }

    /// The identifier's text.
    pub fn as_str(&self) -> (t: &str)
        ensures
            t@ == self.0@,
    {
        self.0.as_str()
    }

    /// Whether two identifiers name the same thing.
    pub fn same(&self, other: &ToolCallId) -> (b: bool)
        ensures
            b == (self.0@ == other.0@),
    {
        same_text(self.0.as_str(), other.0.as_str())
    }

    /// A copy of this identifier.
    pub fn duplicate(&self) -> (id: ToolCallId)
        ensures
            id == *self,
    {
        ToolCallId(self.0.clone())
    }
}

impl From<String> for ToolCallId {
    fn from(text: String) -> (id: ToolCallId) {
        ToolCallId(text)
    }
}

impl vstd::std_specs::convert::FromSpecImpl<String> for ToolCallId {
    open spec fn obeys_from_spec() -> bool {
        true
    }

    open spec fn from_spec(text: String) -> ToolCallId {
        ToolCallId(text)
    }
}

/// Identifies a terminal the client runs on the agent's behalf.
#[derive(Debug, Clone, PartialEq, Eq, Hash, PartialOrd, Ord)]
pub struct TerminalId(pub String);

impl TerminalId {
    pub fn new(text: String) -> (id: TerminalId)
        ensures
            id.0@ == text@,
    {
        TerminalId(text)
    }

    /// The identifier's text.
    pub fn as_str(&self) -> (t: &str)
        ensures
            t@ == self.0@,
    {
        self.0.as_str()
    }

    /// Whether two identifiers name the same thing.
    pub fn same(&self, other: &TerminalId) -> (b: bool)
        ensures
            b == (self.0@ == other.0@),
    {
        same_text(self.0.as_str(), other.0.as_str())
    }

    /// A copy of this identifier.
    pub fn duplicate(&self) -> (id: TerminalId)
        ensures
            id == *self,
    {
        TerminalId(self.0.clone())
    }
}

impl From<String> for TerminalId {
    fn from(text: String) -> (id: TerminalId) {
        TerminalId(text)
    }
}

impl vstd::std_specs::convert::FromSpecImpl<String> for TerminalId {
    open spec fn obeys_from_spec() -> bool {
        true
    }

    open spec fn from_spec(text: String) -> TerminalId {
        TerminalId(text)
    }
}

/// Identifies an authentication method the agent offers.
#[derive(Debug, Clone, PartialEq, Eq, Hash, PartialOrd, Ord)]
pub struct AuthMethodId(pub String);

impl AuthMethodId {
    pub fn new(text: String) -> (id: AuthMethodId)
        ensures
            id.0@ == text@,
    {
        AuthMethodId(text)
    }

    /// The identifier's text.
    pub fn as_str(&self) -> (t: &str)
        ensures
            t@ == self.0@,
    {
        self.0.as_str()
    }

    /// Whether two identifiers name the same thing.
    pub fn same(&self, other: &AuthMethodId) -> (b: bool)
        ensures
            b == (self.0@ == other.0@),
    {
        same_text(self.0.as_str(), other.0.as_str())
    }

    /// A copy of this identifier.
    pub fn duplicate(&self) -> (id: AuthMethodId)
        ensures
            id == *self,
    {
        AuthMethodId(self.0.clone())
    }
}

impl From<String> for AuthMethodId {
    fn from(text: String) -> (id: AuthMethodId) {
        AuthMethodId(text)
    }
}

impl vstd::std_specs::convert::FromSpecImpl<String> for AuthMethodId {
    open spec fn obeys_from_spec() -> bool {
        true
    }

    open spec fn from_spec(text: String) -> AuthMethodId {
        AuthMethodId(text)
    }
}

/// Identifies one of the agent's operating modes.
#[derive(Debug, Clone, PartialEq, Eq, Hash, PartialOrd, Ord)]
pub struct SessionModeId(pub String);

impl SessionModeId {
    pub fn new(text: String) -> (id: SessionModeId)
        ensures
            id.0@ == text@,
    {
        SessionModeId(text)
    }

    /// The identifier's text.
    pub fn as_str(&self) -> (t: &str)
        ensures
            t@ == self.0@,
    {
        self.0.as_str()
    }

    /// Whether two identifiers name the same thing.
    pub fn same(&self, other: &SessionModeId) -> (b: bool)
        ensures
            b == (self.0@ == other.0@),
    {
        same_text(self.0.as_str(), other.0.as_str())
    }

    /// A copy of this identifier.
    pub fn duplicate(&self) -> (id: SessionModeId)
        ensures
            id == *self,
    {
        SessionModeId(self.0.clone())
    }
}

impl From<String> for SessionModeId {
    fn from(text: String) -> (id: SessionModeId) {
        SessionModeId(text)
    }
}

impl vstd::std_specs::convert::FromSpecImpl<String> for SessionModeId {
    open spec fn obeys_from_spec() -> bool {
        true
    }

    open spec fn from_spec(text: String) -> SessionModeId {
        SessionModeId(text)
    }
}

/// Identifies a per-session configuration option.
#[derive(Debug, Clone, PartialEq, Eq, Hash, PartialOrd, Ord)]
pub struct SessionConfigId(pub String);

impl SessionConfigId {
    pub fn new(text: String) -> (id: SessionConfigId)
        ensures
            id.0@ == text@,
    {
        SessionConfigId(text)
    }

    /// The identifier's text.
    pub fn as_str(&self) -> (t: &str)
        ensures
            t@ == self.0@,
    {
        self.0.as_str()
    }

    /// Whether two identifiers name the same thing.
    pub fn same(&self, other: &SessionConfigId) -> (b: bool)
        ensures
            b == (self.0@ == other.0@),
    {
        same_text(self.0.as_str(), other.0.as_str())
    }

    /// A copy of this identifier.
    pub fn duplicate(&self) -> (id: SessionConfigId)
        ensures
            id == *self,
    {
        SessionConfigId(self.0.clone())
    }
}

impl From<String> for SessionConfigId {
    fn from(text: String) -> (id: SessionConfigId) {
        SessionConfigId(text)
    }
}

impl vstd::std_specs::convert::FromSpecImpl<String> for SessionConfigId {
    open spec fn obeys_from_spec() -> bool {
        true
    }

    open spec fn from_spec(text: String) -> SessionConfigId {
        SessionConfigId(text)
    }
}

/// Identifies one selectable value of a config option.
#[derive(Debug, Clone, PartialEq, Eq, Hash, PartialOrd, Ord)]
pub struct SessionConfigValueId(pub String);

impl SessionConfigValueId {
    pub fn new(text: String) -> (id: SessionConfigValueId)
        ensures
            id.0@ == text@,
    {
        SessionConfigValueId(text)
    }

    /// The identifier's text.
    pub fn as_str(&self) -> (t: &str)
        ensures
            t@ == self.0@,
    {
        self.0.as_str()
    }

    /// Whether two identifiers name the same thing.
    pub fn same(&self, other: &SessionConfigValueId) -> (b: bool)
        ensures
            b == (self.0@ == other.0@),
    {
        same_text(self.0.as_str(), other.0.as_str())
    }

    /// A copy of this identifier.
    pub fn duplicate(&self) -> (id: SessionConfigValueId)
        ensures
            id == *self,
    {
        SessionConfigValueId(self.0.clone())
    }
}

impl From<String> for SessionConfigValueId {
    fn from(text: String) -> (id: SessionConfigValueId) {
        SessionConfigValueId(text)
    }
}

impl vstd::std_specs::convert::FromSpecImpl<String> for SessionConfigValueId {
    open spec fn obeys_from_spec() -> bool {
        true
    }

    open spec fn from_spec(text: String) -> SessionConfigValueId {
        SessionConfigValueId(text)
    }
}

/// Groups related config option values.
#[derive(Debug, Clone, PartialEq, Eq, Hash, PartialOrd, Ord)]
pub struct SessionConfigGroupId(pub String);

impl SessionConfigGroupId {
    pub fn new(text: String) -> (id: SessionConfigGroupId)
        ensures
            id.0@ == text@,
    {
        SessionConfigGroupId(text)
    }

    /// The identifier's text.
    pub fn as_str(&self) -> (t: &str)
        ensures
            t@ == self.0@,
    {
        self.0.as_str()
    }

    /// Whether two identifiers name the same thing.
    pub fn same(&self, other: &SessionConfigGroupId) -> (b: bool)
        ensures
            b == (self.0@ == other.0@),
    {
        same_text(self.0.as_str(), other.0.as_str())
    }

    /// A copy of this identifier.
    pub fn duplicate(&self) -> (id: SessionConfigGroupId)
        ensures
            id == *self,
    {
        SessionConfigGroupId(self.0.clone())
    }
}

impl From<String> for SessionConfigGroupId {
    fn from(text: String) -> (id: SessionConfigGroupId) {
        SessionConfigGroupId(text)
    }
}

impl vstd::std_specs::convert::FromSpecImpl<String> for SessionConfigGroupId {
    open spec fn obeys_from_spec() -> bool {
        true
    }

    open spec fn from_spec(text: String) -> SessionConfigGroupId {
        SessionConfigGroupId(text)
    }
}

/// Identifies one choice offered in a permission request.
#[derive(Debug, Clone, PartialEq, Eq, Hash, PartialOrd, Ord)]
pub struct PermissionOptionId(pub String);

impl PermissionOptionId {
    pub fn new(text: String) -> (id: PermissionOptionId)
        ensures
            id.0@ == text@,
    {
        PermissionOptionId(text)
    }

    /// The identifier's text.
    pub fn as_str(&self) -> (t: &str)
        ensures
            t@ == self.0@,
    {
        self.0.as_str()
    }

    /// Whether two identifiers name the same thing.
    pub fn same(&self, other: &PermissionOptionId) -> (b: bool)
        ensures
            b == (self.0@ == other.0@),
    {
        same_text(self.0.as_str(), other.0.as_str())
    }

    /// A copy of this identifier.
    pub fn duplicate(&self) -> (id: PermissionOptionId)
        ensures
            id == *self,
    {
        PermissionOptionId(self.0.clone())
    }
}

impl From<String> for PermissionOptionId {
    fn from(text: String) -> (id: PermissionOptionId) {
        PermissionOptionId(text)
    }
}

impl vstd::std_specs::convert::FromSpecImpl<String> for PermissionOptionId {
    open spec fn obeys_from_spec() -> bool {
        true
    }

    open spec fn from_spec(text: String) -> PermissionOptionId {
        PermissionOptionId(text)
    }
}

/// Groups content chunks belonging to the same assistant message.
#[derive(Debug, Clone, PartialEq, Eq, Hash, PartialOrd, Ord)]
pub struct MessageId(pub String);

impl MessageId {
    pub fn new(text: String) -> (id: MessageId)
        ensures
            id.0@ == text@,
    {
        MessageId(text)
    }

    /// The identifier's text.
    pub fn as_str(&self) -> (t: &str)
        ensures
            t@ == self.0@,
    {
        self.0.as_str()
    }

    /// Whether two identifiers name the same thing.
    pub fn same(&self, other: &MessageId) -> (b: bool)
        ensures
            b == (self.0@ == other.0@),
    {
        same_text(self.0.as_str(), other.0.as_str())
    }

    /// A copy of this identifier.
    pub fn duplicate(&self) -> (id: MessageId)
        ensures
            id == *self,
    {
        MessageId(self.0.clone())
    }
}

impl From<String> for MessageId {
    fn from(text: String) -> (id: MessageId) {
        MessageId(text)
    }
}

impl vstd::std_specs::convert::FromSpecImpl<String> for MessageId {
    open spec fn obeys_from_spec() -> bool {
        true
    }

    open spec fn from_spec(text: String) -> MessageId {
        MessageId(text)
    }
}

/// Identifies an in-flight elicitation.
#[derive(Debug, Clone, PartialEq, Eq, Hash, PartialOrd, Ord)]
pub struct ElicitationId(pub String);

impl ElicitationId {
    pub fn new(text: String) -> (id: ElicitationId)
        ensures
            id.0@ == text@,
    {
        ElicitationId(text)
    }

    /// The identifier's text.
    pub fn as_str(&self) -> (t: &str)
        ensures
            t@ == self.0@,
    {
        self.0.as_str()
    }

    /// Whether two identifiers name the same thing.
    pub fn same(&self, other: &ElicitationId) -> (b: bool)
        ensures
            b == (self.0@ == other.0@),
    {
        same_text(self.0.as_str(), other.0.as_str())
    }

    /// A copy of this identifier.
    pub fn duplicate(&self) -> (id: ElicitationId)
        ensures
            id == *self,
    {
        ElicitationId(self.0.clone())
    }
}

impl From<String> for ElicitationId {
    fn from(text: String) -> (id: ElicitationId) {
        ElicitationId(text)
    }
}

impl vstd::std_specs::convert::FromSpecImpl<String> for ElicitationId {
    open spec fn obeys_from_spec() -> bool {
        true
    }

    open spec fn from_spec(text: String) -> ElicitationId {
        ElicitationId(text)
    }
}

/// Identifies one of the agent's plans within a session.
#[derive(Debug, Clone, PartialEq, Eq, Hash, PartialOrd, Ord)]
pub struct PlanId(pub String);

impl PlanId {
    pub fn new(text: String) -> (id: PlanId)
        ensures
            id.0@ == text@,
    {
        PlanId(text)
    }

    /// The identifier's text.
    pub fn as_str(&self) -> (t: &str)
        ensures
            t@ == self.0@,
    {
        self.0.as_str()
    }

    /// Whether two identifiers name the same thing.
    pub fn same(&self, other: &PlanId) -> (b: bool)
        ensures
            b == (self.0@ == other.0@),
    {
        same_text(self.0.as_str(), other.0.as_str())
    }

    /// A copy of this identifier.
    pub fn duplicate(&self) -> (id: PlanId)
        ensures
            id == *self,
    {
        PlanId(self.0.clone())
    }
}

impl From<String> for PlanId {
    fn from(text: String) -> (id: PlanId) {
        PlanId(text)
    }
}

impl vstd::std_specs::convert::FromSpecImpl<String> for PlanId {
    open spec fn obeys_from_spec() -> bool {
        true
    }

    open spec fn from_spec(text: String) -> PlanId {
        PlanId(text)
    }
}

/// Identifies an LLM provider the agent can be pointed at.
#[derive(Debug, Clone, PartialEq, Eq, Hash, PartialOrd, Ord)]
pub struct ProviderId(pub String);

impl ProviderId {
    pub fn new(text: String) -> (id: ProviderId)
        ensures
            id.0@ == text@,
    {
        ProviderId(text)
    }

    /// The identifier's text.
    pub fn as_str(&self) -> (t: &str)
        ensures
            t@ == self.0@,
    {
        self.0.as_str()
    }

    /// Whether two identifiers name the same thing.
    pub fn same(&self, other: &ProviderId) -> (b: bool)
        ensures
            b == (self.0@ == other.0@),
    {
        same_text(self.0.as_str(), other.0.as_str())
    }

    /// A copy of this identifier.
    pub fn duplicate(&self) -> (id: ProviderId)
        ensures
            id == *self,
    {
        ProviderId(self.0.clone())
    }
}

impl From<String> for ProviderId {
    fn from(text: String) -> (id: ProviderId) {
        ProviderId(text)
    }
}

impl vstd::std_specs::convert::FromSpecImpl<String> for ProviderId {
    open spec fn obeys_from_spec() -> bool {
        true
    }

    open spec fn from_spec(text: String) -> ProviderId {
        ProviderId(text)
    }
}

/// Names an MCP server the agent reaches through the client.
#[derive(Debug, Clone, PartialEq, Eq, Hash, PartialOrd, Ord)]
pub struct McpServerAcpId(pub String);

impl McpServerAcpId {
    pub fn new(text: String) -> (id: McpServerAcpId)
        ensures
            id.0@ == text@,
    {
        McpServerAcpId(text)
    }

    /// The identifier's text.
    pub fn as_str(&self) -> (t: &str)
        ensures
            t@ == self.0@,
    {
        self.0.as_str()
    }

    /// Whether two identifiers name the same thing.
    pub fn same(&self, other: &McpServerAcpId) -> (b: bool)
        ensures
            b == (self.0@ == other.0@),
    {
        same_text(self.0.as_str(), other.0.as_str())
    }

    /// A copy of this identifier.
    pub fn duplicate(&self) -> (id: McpServerAcpId)
        ensures
            id == *self,
    {
        McpServerAcpId(self.0.clone())
    }
}

impl From<String> for McpServerAcpId {
    fn from(text: String) -> (id: McpServerAcpId) {
        McpServerAcpId(text)
    }
}

impl vstd::std_specs::convert::FromSpecImpl<String> for McpServerAcpId {
    open spec fn obeys_from_spec() -> bool {
        true
    }

    open spec fn from_spec(text: String) -> McpServerAcpId {
        McpServerAcpId(text)
    }
}

/// Identifies one live MCP-over-ACP connection the client holds.
#[derive(Debug, Clone, PartialEq, Eq, Hash, PartialOrd, Ord)]
pub struct McpConnectionId(pub String);

impl McpConnectionId {
    pub fn new(text: String) -> (id: McpConnectionId)
        ensures
            id.0@ == text@,
    {
        McpConnectionId(text)
    }

    /// The identifier's text.
    pub fn as_str(&self) -> (t: &str)
        ensures
            t@ == self.0@,
    {
        self.0.as_str()
    }

    /// Whether two identifiers name the same thing.
    pub fn same(&self, other: &McpConnectionId) -> (b: bool)
        ensures
            b == (self.0@ == other.0@),
    {
        same_text(self.0.as_str(), other.0.as_str())
    }

    /// A copy of this identifier.
    pub fn duplicate(&self) -> (id: McpConnectionId)
        ensures
            id == *self,
    {
        McpConnectionId(self.0.clone())
    }
}

impl From<String> for McpConnectionId {
    fn from(text: String) -> (id: McpConnectionId) {
        McpConnectionId(text)
    }
}

impl vstd::std_specs::convert::FromSpecImpl<String> for McpConnectionId {
    open spec fn obeys_from_spec() -> bool {
        true
    }

    open spec fn from_spec(text: String) -> McpConnectionId {
        McpConnectionId(text)
    }
}

/// Identifies one suggestion within a next-edit response.
#[derive(Debug, Clone, PartialEq, Eq, Hash, PartialOrd, Ord)]
pub struct NesSuggestionId(pub String);

impl NesSuggestionId {
    pub fn new(text: String) -> (id: NesSuggestionId)
        ensures
            id.0@ == text@,
    {
        NesSuggestionId(text)
    }

    /// The identifier's text.
    pub fn as_str(&self) -> (t: &str)
        ensures
            t@ == self.0@,
    {
        self.0.as_str()
    }

    /// Whether two identifiers name the same thing.
    pub fn same(&self, other: &NesSuggestionId) -> (b: bool)
        ensures
            b == (self.0@ == other.0@),
    {
        same_text(self.0.as_str(), other.0.as_str())
    }

    /// A copy of this identifier.
    pub fn duplicate(&self) -> (id: NesSuggestionId)
        ensures
            id == *self,
    {
        NesSuggestionId(self.0.clone())
    }
}

impl From<String> for NesSuggestionId {
    fn from(text: String) -> (id: NesSuggestionId) {
        NesSuggestionId(text)
    }
}

impl vstd::std_specs::convert::FromSpecImpl<String> for NesSuggestionId {
    open spec fn obeys_from_spec() -> bool {
        true
    }

    open spec fn from_spec(text: String) -> NesSuggestionId {
        NesSuggestionId(text)
    }
}

/// What a request id is, as far as matching a response to its request goes.
pub enum RequestKey {
    Num(i64),
    Str(Seq<char>),
    Null,
}

/// A JSON-RPC request id. Every shape is legal, `null` included; peers echo
/// back whatever they were sent.
#[derive(Debug, Clone, PartialEq, Eq, Hash, PartialOrd, Ord)]
pub enum RequestId {
    Num(i64),
    Str(String),
    Null,
}

impl RequestId {
    pub open spec fn key(self) -> RequestKey {
        match self {
            RequestId::Num(n) => RequestKey::Num(n),
            RequestId::Str(s) => RequestKey::Str(s@),
            RequestId::Null => RequestKey::Null,
        }
    }

    /// How the id reads to a person (what `Display` prints): the number in
    /// decimal, the text as it is, or `null`.
    pub open spec fn text(self) -> Seq<char> {
        match self {
            RequestId::Num(n) => decimal(n as int),
            RequestId::Str(s) => s@,
            RequestId::Null => "null"@,
        }
    }

    pub fn from_num(n: i64) -> (id: RequestId)
        ensures
            id == RequestId::Num(n),
    {
        RequestId::Num(n)
    }

    pub fn from_text(s: String) -> (id: RequestId)
        ensures
            id == RequestId::Str(s),
    {
        RequestId::Str(s)
    }

    /// Whether two ids are the same id.
    pub fn same(&self, other: &RequestId) -> (b: bool)
        ensures
            b == (self.key() == other.key()),
    {
        match (self, other) {
            (RequestId::Num(a), RequestId::Num(b)) => *a == *b,
            (RequestId::Str(a), RequestId::Str(b)) => same_text(a.as_str(), b.as_str()),
            (RequestId::Null, RequestId::Null) => true,
            _ => false,
        }
    }

    /// A copy of this id.
    pub fn duplicate(&self) -> (id: RequestId)
        ensures
            id == *self,
    {
        match self {
            RequestId::Num(n) => RequestId::Num(*n),
            RequestId::Str(s) => RequestId::Str(s.clone()),
            RequestId::Null => RequestId::Null,
        }
    }

    pub fn describe(&self) -> (s: String)
        ensures
            s@ == self.text(),
    {
        match self {
            RequestId::Num(n) => decimal_text(*n),
            RequestId::Str(s) => s.clone(),
            RequestId::Null => owned("null"),
        }
    }
}

impl From<i64> for RequestId {
    fn from(n: i64) -> (id: RequestId) {
        RequestId::Num(n)
    }
}

impl vstd::std_specs::convert::FromSpecImpl<i64> for RequestId {
    open spec fn obeys_from_spec() -> bool {
        true
    }

    open spec fn from_spec(n: i64) -> RequestId {
        RequestId::Num(n)
    }
}

impl From<String> for RequestId {
    fn from(s: String) -> (id: RequestId) {
        RequestId::Str(s)
    }
}

impl vstd::std_specs::convert::FromSpecImpl<String> for RequestId {
    open spec fn obeys_from_spec() -> bool {
        true
    }

    open spec fn from_spec(s: String) -> RequestId {
        RequestId::Str(s)
    }
}

/// Two request ids are the same id exactly when they are equal: numbers
/// when the numbers are, text when the whole text is, `null` only with
/// `null`; ids of different shapes never match.
pub proof fn lemma_ids_match_exactly_when_equal(a: String, b: String, n: i64, m: i64)
    ensures
        (RequestId::Str(a).key() == RequestId::Str(b).key()) <==> a@ == b@,
        (RequestId::Num(n).key() == RequestId::Num(m).key()) <==> n == m,
        RequestId::Num(n).key() != RequestId::Str(a).key(),
        RequestId::Null.key() != RequestId::Str(a).key(),
        RequestId::Null.key() != RequestId::Num(n).key(),
        RequestId::Null.key() == RequestId::Null.key(),
{
}

} // verus!
