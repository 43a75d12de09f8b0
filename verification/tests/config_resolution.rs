use langstar::config::{resolve_setting, Config, SettingsLayer};

#[test]
fn test_config_defaults() {
    let config = Config::default();
    assert_eq!(config.output_format, "table");
    assert!(config.langsmith_api_key.is_none());
    assert!(config.langgraph_api_key.is_none());
}

#[test]
fn test_config_with_workspace() {
    let config = Config {
        langsmith_api_key: Some("test_key".to_string()),
        langgraph_api_key: None,
        organization_id: None,
        workspace_id: Some("test_workspace_id".to_string()),
        github_integration_id: None,
        output_format: "table".to_string(),
    };

    let auth = config.to_auth_config();
    assert!(auth.organization_id.is_none());
    assert_eq!(auth.workspace_id, Some("test_workspace_id".to_string()));
}

#[test]
fn test_config_to_auth_config_with_both() {
    let config = Config {
        langsmith_api_key: Some("key".to_string()),
        langgraph_api_key: None,
        organization_id: Some("org_123".to_string()),
        workspace_id: Some("workspace_456".to_string()),
        github_integration_id: None,
        output_format: "table".to_string(),
    };

    let auth = config.to_auth_config();
    assert_eq!(auth.organization_id, Some("org_123".to_string()));
    assert_eq!(auth.workspace_id, Some("workspace_456".to_string()));
}

fn layer(
    key: Option<&str>,
    org: Option<&str>,
    ws: Option<&str>,
    format: Option<&str>,
) -> SettingsLayer {
    SettingsLayer {
        langsmith_api_key: key.map(|s| s.to_string()),
        langgraph_api_key: None,
        organization_id: org.map(|s| s.to_string()),
        workspace_id: ws.map(|s| s.to_string()),
        github_integration_id: None,
        output_format: format.map(|s| s.to_string()),
    }
}

#[test]
fn test_resolve_setting_precedence() {
    // The highest-priority present source wins; lower ones are never
    // consulted once a higher one supplied a value.
    let flag = Some("from_flag".to_string());
    let file = Some("from_file".to_string());
    let env = Some("from_env".to_string());
    assert_eq!(
        resolve_setting(flag.clone(), file.clone(), env.clone()),
        Some("from_flag".to_string())
    );
    assert_eq!(
        resolve_setting(None, file.clone(), env.clone()),
        Some("from_file".to_string())
    );
    assert_eq!(resolve_setting(None, None, env.clone()), Some("from_env".to_string()));
    assert_eq!(resolve_setting(None, None, None), None);
    assert_eq!(
        resolve_setting(flag.clone(), None, None),
        Some("from_flag".to_string())
    );
    assert_eq!(
        resolve_setting(flag.clone(), None, env.clone()),
        Some("from_flag".to_string())
    );
    assert_eq!(
        resolve_setting(flag, file, None),
        Some("from_flag".to_string())
    );
    assert_eq!(
        resolve_setting(None, Some("from_file".to_string()), None),
        Some("from_file".to_string())
    );
}

#[test]
fn test_config_resolve_file_over_env() {
    let file = layer(Some("file_key"), Some("file_org"), None, None);
    let env = layer(Some("env_key"), Some("env_org"), Some("env_ws"), Some("json"));
    let config = Config::resolve(file, env);
    assert_eq!(config.langsmith_api_key.as_deref(), Some("file_key"));
    assert_eq!(config.organization_id.as_deref(), Some("file_org"));
    assert_eq!(config.workspace_id.as_deref(), Some("env_ws"));
    assert_eq!(config.output_format, "json");
}

#[test]
fn test_config_resolve_defaults_output_format() {
    let config = Config::resolve(
        layer(None, None, None, None),
        layer(None, None, None, None),
    );
    assert_eq!(config.output_format, "table");
    assert!(config.langsmith_api_key.is_none());
}

#[test]
fn test_scope_advisory_needs_both() {
    let both = Config {
        organization_id: Some("o".to_string()),
        workspace_id: Some("w".to_string()),
        ..Config::default()
    };
    assert!(both.scope_advisory());
    let only_org = Config {
        organization_id: Some("o".to_string()),
        ..Config::default()
    };
    assert!(!only_org.scope_advisory());
    assert!(!Config::default().scope_advisory());
}
