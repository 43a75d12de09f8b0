//! Credential bundle shared by every service client.
//!
//! A bundle holds the two API keys and the optional organization and
//! workspace scope, and checks key presence lazily: only when a request for
//! the corresponding service is built.

use vstd::prelude::*;

use crate::error::LangstarError;

verus! {

/// Authentication configuration for the three services.
///
/// The prompt-hub key also authenticates against the control plane; the
/// graph-runtime key is a separate credential. Either key may be absent
/// until a request that needs it is built.
pub struct AuthConfig {
    /// API key for the prompt-hub and control-plane services.
    pub langsmith_api_key: Option<String>,
    /// API key for the graph-runtime service.
    pub langgraph_api_key: Option<String>,
    /// Optional organization ID for scoping requests.
    pub organization_id: Option<String>,
    /// Optional workspace ID for narrower scoping of requests.
    pub workspace_id: Option<String>,
}

impl AuthConfig {
    /// Create a new AuthConfig with explicit values.
    pub fn new(
        langsmith_api_key: Option<String>,
        langgraph_api_key: Option<String>,
        organization_id: Option<String>,
        workspace_id: Option<String>,
    ) -> (r: Self)
        ensures
            r.langsmith_api_key == langsmith_api_key,
            r.langgraph_api_key == langgraph_api_key,
            r.organization_id == organization_id,
            r.workspace_id == workspace_id,
    {
        Self { langsmith_api_key, langgraph_api_key, organization_id, workspace_id }
    }

    /// Get the prompt-hub API key, or an authentication error when it is
    /// not configured.
    pub fn require_langsmith_key(&self) -> (r: Result<&String, LangstarError>)
        ensures
            self.langsmith_api_key is Some <==> r is Ok,
            r is Ok ==> r->Ok_0 == &self.langsmith_api_key->0,
            r is Err ==> r->Err_0 is AuthError,
    {
        match &self.langsmith_api_key {
            Some(key) => Ok(key),
            None => Err(
                LangstarError::AuthError(
                    "LANGSMITH_API_KEY not configured. Set it via environment variable or config file.".to_owned(),
                ),
            ),
        }
    }

    /// Get the graph-runtime API key, or an authentication error when it is
    /// not configured.
    pub fn require_langgraph_key(&self) -> (r: Result<&String, LangstarError>)
        ensures
            self.langgraph_api_key is Some <==> r is Ok,
            r is Ok ==> r->Ok_0 == &self.langgraph_api_key->0,
            r is Err ==> r->Err_0 is AuthError,
    {
        match &self.langgraph_api_key {
            Some(key) => Ok(key),
            None => Err(
                LangstarError::AuthError(
                    "LANGGRAPH_API_KEY not configured. Set it via environment variable or config file.".to_owned(),
                ),
            ),
        }
    }
}

impl Clone for AuthConfig {
    fn clone(&self) -> (r: Self)
        ensures
            r == *self,
    {
        Self {
            langsmith_api_key: clone_opt_string(&self.langsmith_api_key),
            langgraph_api_key: clone_opt_string(&self.langgraph_api_key),
            organization_id: clone_opt_string(&self.organization_id),
            workspace_id: clone_opt_string(&self.workspace_id),
        }
    }
}

/// Clone an optional string, preserving the value exactly.
pub fn clone_opt_string(s: &Option<String>) -> (r: Option<String>)
    ensures
        r == *s,
{
    match s {
        Some(v) => Some(v.clone()),
        None => None,
    }
}

} // verus!
