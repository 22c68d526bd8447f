//! Pointing the agent at a different LLM endpoint.

use vstd::prelude::*;
use std::collections::HashMap;
use crate::id::ProviderId;
use crate::json::Meta;

verus! {

/// The API dialect an endpoint speaks. `Other` is the untagged fallback, so a
/// dialect added later deserializes as itself instead of failing.
#[derive(Debug, Clone, PartialEq, Eq)]
pub enum LlmProtocol {
    Anthropic,
    OpenAi,
    Azure,
    Vertex,
    Bedrock,
    Other(String),
}

#[derive(Debug, Clone, PartialEq)]
pub struct ProviderInfo {
    pub provider_id: ProviderId,
    pub supported: Vec<LlmProtocol>,
    /// The agent cannot run until this provider is configured.
    pub required: bool,
    pub current: Option<ProviderCurrentConfig>,
    pub meta: Option<Meta>,
}

/// What the provider is pointed at right now.
#[derive(Debug, Clone, PartialEq)]
pub struct ProviderCurrentConfig {
    pub api_type: LlmProtocol,
    pub base_url: String,
    pub meta: Option<Meta>,
}

#[derive(Debug, Clone, Default, PartialEq)]
pub struct ListProvidersRequest {
    pub meta: Option<Meta>,
}

#[derive(Debug, Clone, PartialEq)]
pub struct ListProvidersResponse {
    pub providers: Vec<ProviderInfo>,
    pub meta: Option<Meta>,
}

#[derive(Debug, Clone, PartialEq)]
pub struct SetProviderRequest {
    pub provider_id: ProviderId,
    pub api_type: LlmProtocol,
    pub base_url: String,
    pub headers: HashMap<String, String>,
    pub meta: Option<Meta>,
}

impl SetProviderRequest {
    /// Point `provider_id` at `base_url`, speaking `api_type`, with no extra
    /// headers.
    pub fn new(provider_id: ProviderId, api_type: LlmProtocol, base_url: String) -> (r:
        SetProviderRequest)
        ensures
            r.provider_id == provider_id,
            r.api_type == api_type,
            r.base_url == base_url,
            r.headers@ == Map::<String, String>::empty(),
            r.meta is None,
    {
        SetProviderRequest { provider_id, api_type, base_url, headers: HashMap::new(), meta: None }
    }
}

#[derive(Debug, Clone, Default, PartialEq)]
pub struct SetProviderResponse {
    pub meta: Option<Meta>,
}

#[derive(Debug, Clone, PartialEq)]
pub struct DisableProviderRequest {
    pub provider_id: ProviderId,
    pub meta: Option<Meta>,
}

#[derive(Debug, Clone, Default, PartialEq)]
pub struct DisableProviderResponse {
    pub meta: Option<Meta>,
}

} // verus!
