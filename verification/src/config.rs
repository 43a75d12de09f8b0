//! Configuration and scope resolution.
//!
//! One effective configuration is produced from ordered sources: an
//! explicit flag wins over the configuration file, which wins over the
//! environment; a lower-priority source is simply never consulted once a
//! higher one has supplied a value, and no field is merged partially.
//! Reading the file and the environment is the caller's business; this
//! module decides what the resolved bundle is.

use vstd::prelude::*;

use crate::auth::{clone_opt_string, AuthConfig};

verus! {

/// The value a single field resolves to: the highest-priority present
/// source, or nothing when all three are absent.
pub open spec fn resolved_spec(
    flag: Option<String>,
    file: Option<String>,
    env: Option<String>,
) -> Option<String> {
    if flag is Some {
        flag
    } else if file is Some {
        file
    } else {
        env
    }
}

/// Resolve one field from its three ordered sources: flag over file over
/// environment. Absence of all three resolves to nothing.
pub fn resolve_setting(flag: Option<String>, file: Option<String>, env: Option<String>) -> (r:
    Option<String>)
    ensures
        r == resolved_spec(flag, file, env),
{
    match flag {
        Some(v) => Some(v),
        None => match file {
            Some(v) => Some(v),
            None => env,
        },
    }
}

/// For every combination of present and absent sources, a field resolves
/// to the highest-priority present source, and to nothing only when all
/// three are absent.
pub proof fn lemma_scope_precedence(flag: Option<String>, file: Option<String>, env: Option<String>)
    ensures
        flag is Some ==> resolved_spec(flag, file, env) == flag,
        flag is None && file is Some ==> resolved_spec(flag, file, env) == file,
        flag is None && file is None ==> resolved_spec(flag, file, env) == env,
        resolved_spec(flag, file, env) is None <==> (flag is None && file is None && env is None),
{
}

/// The values one source (the configuration file, or the environment)
/// supplies; any field may be absent.
pub struct SettingsLayer {
    /// API key for the prompt-hub and control-plane services.
    pub langsmith_api_key: Option<String>,
    /// API key for the graph-runtime service.
    pub langgraph_api_key: Option<String>,
    /// Organization ID for scoping.
    pub organization_id: Option<String>,
    /// Workspace ID for narrower scoping.
    pub workspace_id: Option<String>,
    /// GitHub integration ID for deployment creation.
    pub github_integration_id: Option<String>,
    /// Output format name ("json" or "table").
    pub output_format: Option<String>,
}

impl Default for SettingsLayer {
    /// A layer that supplies nothing.
    fn default() -> (r: Self)
        ensures
            r.langsmith_api_key is None,
            r.langgraph_api_key is None,
            r.organization_id is None,
            r.workspace_id is None,
            r.github_integration_id is None,
            r.output_format is None,
    {
        Self {
            langsmith_api_key: None,
            langgraph_api_key: None,
            organization_id: None,
            workspace_id: None,
            github_integration_id: None,
            output_format: None,
        }
    }
}

/// The effective configuration.
pub struct Config {
    /// API key for the prompt-hub and control-plane services.
    pub langsmith_api_key: Option<String>,
    /// API key for the graph-runtime service.
    pub langgraph_api_key: Option<String>,
    /// Organization ID for scoping.
    pub organization_id: Option<String>,
    /// Workspace ID for narrower scoping.
    pub workspace_id: Option<String>,
    /// GitHub integration ID for deployment creation.
    pub github_integration_id: Option<String>,
    /// Output format name; "table" when nothing chose otherwise.
    pub output_format: String,
}

impl Default for Config {
    /// The configuration nothing has set: no keys, no scope, tables.
    fn default() -> (r: Self)
        ensures
            r.langsmith_api_key is None,
            r.langgraph_api_key is None,
            r.organization_id is None,
            r.workspace_id is None,
            r.github_integration_id is None,
            r.output_format@ == "table"@,
    {
        Self {
            langsmith_api_key: None,
            langgraph_api_key: None,
            organization_id: None,
            workspace_id: None,
            github_integration_id: None,
            output_format: "table".to_owned(),
        }
    }
}

impl Config {
    /// Resolve the effective configuration from the file layer and the
    /// environment layer, field by field: file over environment, and the
    /// default output format when neither supplies one. Per-call flags are
    /// applied later, by rebuilding a derived client value.
    pub fn resolve(file: SettingsLayer, env: SettingsLayer) -> (r: Config)
        ensures
            r.langsmith_api_key == resolved_spec(None, file.langsmith_api_key, env.langsmith_api_key),
            r.langgraph_api_key == resolved_spec(None, file.langgraph_api_key, env.langgraph_api_key),
            r.organization_id == resolved_spec(None, file.organization_id, env.organization_id),
            r.workspace_id == resolved_spec(None, file.workspace_id, env.workspace_id),
            r.github_integration_id == resolved_spec(
                None,
                file.github_integration_id,
                env.github_integration_id,
            ),
            (match resolved_spec(None, file.output_format, env.output_format) {
                Some(f) => r.output_format == f,
                None => r.output_format@ == "table"@,
            }),
    {
        let output_format = match resolve_setting(None, file.output_format, env.output_format) {
            Some(f) => f,
            None => "table".to_owned(),
        };
        Config {
            langsmith_api_key: resolve_setting(None, file.langsmith_api_key, env.langsmith_api_key),
            langgraph_api_key: resolve_setting(None, file.langgraph_api_key, env.langgraph_api_key),
            organization_id: resolve_setting(None, file.organization_id, env.organization_id),
            workspace_id: resolve_setting(None, file.workspace_id, env.workspace_id),
            github_integration_id: resolve_setting(
                None,
                file.github_integration_id,
                env.github_integration_id,
            ),
            output_format,
        }
    }

    /// Whether the advisory about simultaneous organization and workspace
    /// scope applies: both ended up set from the implicit sources. The
    /// advisory is observability, never an error.
    pub fn scope_advisory(&self) -> (r: bool)
        ensures
            r == (self.organization_id is Some && self.workspace_id is Some),
    {
        let org_set = match &self.organization_id {
            Some(_) => true,
            None => false,
        };
        let ws_set = match &self.workspace_id {
            Some(_) => true,
            None => false,
        };
        org_set && ws_set
    }

    /// The credential bundle this configuration resolves to.
    pub fn to_auth_config(&self) -> (r: AuthConfig)
        ensures
            r.langsmith_api_key == self.langsmith_api_key,
            r.langgraph_api_key == self.langgraph_api_key,
            r.organization_id == self.organization_id,
            r.workspace_id == self.workspace_id,
    {
        AuthConfig::new(
            clone_opt_string(&self.langsmith_api_key),
            clone_opt_string(&self.langgraph_api_key),
            clone_opt_string(&self.organization_id),
            clone_opt_string(&self.workspace_id),
        )
    }
}

} // verus!
