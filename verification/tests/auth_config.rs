use langstar::auth::AuthConfig;

#[test]
fn test_auth_config_new() {
    let config = AuthConfig::new(
        Some("test_langsmith_key".to_string()),
        Some("test_langgraph_key".to_string()),
        Some("test_org_id".to_string()),
        Some("test_workspace_id".to_string()),
    );
    assert_eq!(
        config.require_langsmith_key().unwrap(),
        "test_langsmith_key"
    );
    assert_eq!(
        config.require_langgraph_key().unwrap(),
        "test_langgraph_key"
    );
    assert_eq!(config.organization_id.as_deref().unwrap(), "test_org_id");
    assert_eq!(
        config.workspace_id.as_deref().unwrap(),
        "test_workspace_id"
    );
}

#[test]
fn test_auth_config_missing_key() {
    let config = AuthConfig::new(None, None, None, None);
    assert!(config.require_langsmith_key().is_err());
    assert!(config.require_langgraph_key().is_err());
}

#[test]
fn test_auth_config_with_org_only() {
    let config = AuthConfig::new(
        Some("test_key".to_string()),
        None,
        Some("org_123".to_string()),
        None,
    );
    assert_eq!(config.organization_id.as_deref().unwrap(), "org_123");
    assert!(config.workspace_id.is_none());
}

#[test]
fn test_auth_config_with_workspace_only() {
    let config = AuthConfig::new(
        Some("test_key".to_string()),
        None,
        None,
        Some("workspace_456".to_string()),
    );
    assert!(config.organization_id.is_none());
    assert_eq!(
        config.workspace_id.as_deref().unwrap(),
        "workspace_456"
    );
}

#[test]
fn test_auth_config_clone_keeps_fields() {
    let config = AuthConfig::new(
        Some("key_a".to_string()),
        None,
        Some("org_9".to_string()),
        None,
    );
    let copy = config.clone();
    assert_eq!(copy.langsmith_api_key.as_deref(), Some("key_a"));
    assert!(copy.langgraph_api_key.is_none());
    assert_eq!(copy.organization_id.as_deref(), Some("org_9"));
    assert!(copy.workspace_id.is_none());
}
