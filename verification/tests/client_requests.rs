use langstar::auth::AuthConfig;
use langstar::client::{
    check_response, LangchainClient, Method, CONTROL_PLANE_API_BASE, LANGGRAPH_API_BASE,
    LANGSMITH_API_BASE,
};
use langstar::error::LangstarError;

fn header<'a>(headers: &'a [(String, String)], name: &str) -> Option<&'a str> {
    headers
        .iter()
        .find(|(n, _)| n == name)
        .map(|(_, v)| v.as_str())
}

#[test]
fn test_client_creation() {
    let auth = AuthConfig::new(
        Some("test_key".to_string()),
        Some("test_key".to_string()),
        None,
        None,
    );
    let client = LangchainClient::new(auth);
    assert!(client.is_ok());
}

#[test]
fn test_client_missing_auth() {
    let auth = AuthConfig::new(None, None, None, None);
    let client = LangchainClient::new(auth).unwrap();

    // Should fail when trying to build authenticated requests
    assert!(client.langsmith_get("/test").is_err());
    assert!(client.langgraph_get("/test").is_err());
}

#[test]
fn test_client_with_org_and_workspace() {
    let auth = AuthConfig::new(
        Some("test_key".to_string()),
        None,
        Some("org_123".to_string()),
        Some("workspace_456".to_string()),
    );
    let client = LangchainClient::new(auth).unwrap();
    assert_eq!(client.organization_id(), Some("org_123"));
    assert_eq!(client.workspace_id(), Some("workspace_456"));
}

#[test]
fn test_client_builder_methods() {
    let auth = AuthConfig::new(Some("test_key".to_string()), None, None, None);
    let client = LangchainClient::new(auth)
        .unwrap()
        .with_organization_id("new_org".to_string())
        .with_workspace_id("new_workspace".to_string());

    assert_eq!(client.organization_id(), Some("new_org"));
    assert_eq!(client.workspace_id(), Some("new_workspace"));
}

#[test]
fn test_langsmith_request_headers_scoped() {
    let auth = AuthConfig::new(
        Some("sk".to_string()),
        None,
        Some("org_1".to_string()),
        Some("ws_1".to_string()),
    );
    let client = LangchainClient::new(auth).unwrap();
    let req = client.langsmith_get("/api/v1/repos/?limit=20&offset=0").unwrap();
    assert!(matches!(req.method, Method::Get));
    assert_eq!(
        req.url,
        format!("{}{}", LANGSMITH_API_BASE, "/api/v1/repos/?limit=20&offset=0")
    );
    assert_eq!(header(&req.headers, "x-api-key"), Some("sk"));
    assert_eq!(header(&req.headers, "Content-Type"), Some("application/json"));
    assert_eq!(header(&req.headers, "x-organization-id"), Some("org_1"));
    assert_eq!(header(&req.headers, "X-Tenant-Id"), Some("ws_1"));
    assert!(req.body.is_none());
}

#[test]
fn test_langsmith_request_headers_unscoped() {
    let auth = AuthConfig::new(Some("sk".to_string()), None, None, None);
    let client = LangchainClient::new(auth).unwrap();
    let req = client.langsmith_post("/api/v1/repos").unwrap();
    assert!(matches!(req.method, Method::Post));
    assert_eq!(header(&req.headers, "x-organization-id"), None);
    assert_eq!(header(&req.headers, "X-Tenant-Id"), None);
    assert_eq!(req.headers.len(), 2);
}

#[test]
fn test_langgraph_request_never_scoped() {
    // Graph-runtime requests must carry the api key only, even when the
    // client has organization and workspace scope set.
    let auth = AuthConfig::new(
        Some("smith".to_string()),
        Some("graph".to_string()),
        Some("org_1".to_string()),
        Some("ws_1".to_string()),
    );
    let client = LangchainClient::new(auth).unwrap();
    let req = client.langgraph_post("/assistants/search").unwrap();
    assert_eq!(
        req.url,
        format!("{}{}", LANGGRAPH_API_BASE, "/assistants/search")
    );
    assert_eq!(header(&req.headers, "x-api-key"), Some("graph"));
    assert_eq!(header(&req.headers, "x-organization-id"), None);
    assert_eq!(header(&req.headers, "X-Tenant-Id"), None);
    assert_eq!(req.headers.len(), 2);
}

#[test]
fn test_langgraph_key_is_separate() {
    // A client with only the prompt-hub key cannot build graph-runtime
    // requests, and the other way round.
    let auth = AuthConfig::new(Some("smith".to_string()), None, None, None);
    let client = LangchainClient::new(auth).unwrap();
    assert!(client.langsmith_get("/x").is_ok());
    assert!(matches!(
        client.langgraph_get("/x"),
        Err(LangstarError::AuthError(_))
    ));

    let auth = AuthConfig::new(None, Some("graph".to_string()), None, None);
    let client = LangchainClient::new(auth).unwrap();
    assert!(client.langgraph_get("/x").is_ok());
    assert!(matches!(
        client.langsmith_get("/x"),
        Err(LangstarError::AuthError(_))
    ));
    assert!(matches!(
        client.control_plane_get("/x"),
        Err(LangstarError::AuthError(_))
    ));
}

#[test]
fn test_control_plane_request_headers() {
    let auth = AuthConfig::new(
        Some("smith".to_string()),
        None,
        Some("org_1".to_string()),
        Some("ws_1".to_string()),
    );
    let client = LangchainClient::new(auth).unwrap();
    let req = client.control_plane_get("/v2/deployments").unwrap();
    assert_eq!(
        req.url,
        format!("{}{}", CONTROL_PLANE_API_BASE, "/v2/deployments")
    );
    // Control-plane requests use the capitalized api-key header, carry the
    // workspace header, and never the organization header.
    assert_eq!(header(&req.headers, "X-Api-Key"), Some("smith"));
    assert_eq!(header(&req.headers, "X-Tenant-Id"), Some("ws_1"));
    assert_eq!(header(&req.headers, "x-organization-id"), None);
}

#[test]
fn test_with_langgraph_url_retargets() {
    let auth = AuthConfig::new(None, Some("graph".to_string()), None, None);
    let client = LangchainClient::new(auth)
        .unwrap()
        .with_langgraph_url("https://demo.example.test".to_string());
    let req = client.langgraph_get("/assistants/abc").unwrap();
    assert_eq!(req.url, "https://demo.example.test/assistants/abc");
}

#[test]
fn test_check_response_success_range() {
    assert_eq!(check_response(200, "ok".to_string()).unwrap(), "ok");
    assert_eq!(check_response(204, String::new()).unwrap(), "");
    assert_eq!(check_response(299, "edge".to_string()).unwrap(), "edge");
    match check_response(404, "missing".to_string()) {
        Err(LangstarError::ApiError { status, message }) => {
            assert_eq!(status, 404);
            assert_eq!(message, "missing");
        }
        _ => panic!("a 404 must be an API error"),
    }
    assert!(check_response(199, "x".to_string()).is_err());
    assert!(check_response(300, "x".to_string()).is_err());
    assert!(check_response(500, "boom".to_string()).is_err());
}

#[test]
fn test_with_base_urls_overrides() {
    let auth = AuthConfig::new(Some("k".to_string()), None, None, None);
    let client = LangchainClient::with_base_urls(
        auth,
        "http://smith.local".to_string(),
        "http://graph.local".to_string(),
        "http://plane.local".to_string(),
    )
    .unwrap();
    assert_eq!(client.langsmith_get("/a").unwrap().url, "http://smith.local/a");
    assert_eq!(client.control_plane_get("/c").unwrap().url, "http://plane.local/c");
}
