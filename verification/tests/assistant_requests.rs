use langstar::assistants::{AssistantSearchRequest, CreateAssistantRequest, UpdateAssistantRequest};
use langstar::auth::AuthConfig;
use langstar::client::{LangchainClient, Method};
use langstar::json::Json;

fn client() -> LangchainClient {
    let auth = AuthConfig::new(None, Some("graph-key".to_string()), None, None);
    LangchainClient::new(auth).unwrap()
}

/// Serialize a request body the way the transport does, to check what the
/// wire actually carries.
fn to_wire(j: &Json) -> serde_json::Value {
    match j {
        Json::Null => serde_json::Value::Null,
        Json::Bool(b) => serde_json::Value::Bool(*b),
        Json::Int(n) => serde_json::Value::from(*n),
        Json::Str(s) => serde_json::Value::String(s.clone()),
        Json::Arr(items) => serde_json::Value::Array(items.iter().map(to_wire).collect()),
        Json::Obj(entries) => {
            let mut map = serde_json::Map::new();
            for (k, v) in entries {
                map.insert(k.clone(), to_wire(v));
            }
            serde_json::Value::Object(map)
        }
    }
}

#[test]
fn test_assistant_client_creation() {
    let auth = AuthConfig::new(None, Some("test".to_string()), None, None);
    let client = LangchainClient::new(auth).unwrap();
    let _assistant_client = client.assistants();
}

#[test]
fn test_list_uses_search_without_query() {
    // Listing goes through the search endpoint with a body whose query
    // field is entirely absent: not null, not an empty string.
    let c = client();
    let req = c.assistants().list_request(Some(20), None).unwrap();
    assert!(matches!(req.method, Method::Post));
    assert!(req.url.ends_with("/assistants/search"));
    let body = req.body.expect("a search carries a body");
    assert!(body.get("query").is_none());
    match body.get("limit") {
        Some(Json::Int(n)) => assert_eq!(*n, 20),
        _ => panic!("limit must be an integer"),
    }
    assert!(body.get("offset").is_none());
}

#[test]
fn test_list_body_serializes_without_query() {
    // On the wire the body of a list call has no query member at all.
    let c = client();
    let req = c.assistants().list_request(Some(20), None).unwrap();
    let wire = serde_json::to_string(&to_wire(&req.body.unwrap())).unwrap();
    assert!(!wire.contains("query"));
    assert!(!wire.contains("null"));
    assert!(!wire.contains("\"\""));
    assert_eq!(wire, "{\"limit\":20}");
}

#[test]
fn test_list_with_offset() {
    let c = client();
    let req = c.assistants().list_request(Some(10), Some(5)).unwrap();
    let body = req.body.unwrap();
    assert!(body.get("query").is_none());
    match body.get("offset") {
        Some(Json::Int(n)) => assert_eq!(*n, 5),
        _ => panic!("offset must be an integer"),
    }
}

#[test]
fn test_search_request_serialization() {
    // With a query
    let c = client();
    let req = c.assistants().search_request("test", Some(10)).unwrap();
    let body = req.body.unwrap();
    match body.get("query") {
        Some(Json::Str(s)) => assert_eq!(s, "test"),
        _ => panic!("the query must be carried as a string"),
    }
    match body.get("limit") {
        Some(Json::Int(n)) => assert_eq!(*n, 10),
        _ => panic!("limit must be an integer"),
    }
    assert!(body.get("offset").is_none());

    // Without a limit
    let req = c.assistants().search_request("x", None).unwrap();
    let body = req.body.unwrap();
    assert!(body.get("limit").is_none());
}

#[test]
fn test_search_request_fields_optional() {
    let request = AssistantSearchRequest {
        query: None,
        limit: None,
        offset: None,
    };
    assert!(request.query.is_none());
    assert!(request.limit.is_none());
    assert!(request.offset.is_none());
}

#[test]
fn test_assistant_get_request_path() {
    let c = client();
    let req = c.assistants().get_request("asst-1").unwrap();
    assert!(matches!(req.method, Method::Get));
    assert!(req.url.ends_with("/assistants/asst-1"));
    assert!(req.body.is_none());
}

#[test]
fn test_create_request_body() {
    let c = client();
    let request = CreateAssistantRequest {
        graph_id: "graph-123".to_string(),
        name: "My Assistant".to_string(),
        config: Some(Json::Obj(vec![(
            "temperature".to_string(),
            Json::Int(1),
        )])),
        metadata: None,
    };
    let req = c.assistants().create_request(request).unwrap();
    assert!(matches!(req.method, Method::Post));
    assert!(req.url.ends_with("/assistants"));
    let body = req.body.unwrap();
    match body.get("graph_id") {
        Some(Json::Str(s)) => assert_eq!(s, "graph-123"),
        _ => panic!("graph_id must be a string"),
    }
    match body.get("name") {
        Some(Json::Str(s)) => assert_eq!(s, "My Assistant"),
        _ => panic!("name must be a string"),
    }
    assert!(body.get("config").is_some());
    assert!(body.get("metadata").is_none());
}

#[test]
fn test_update_request_partial() {
    let c = client();
    let request = UpdateAssistantRequest {
        name: Some("renamed".to_string()),
        config: None,
        metadata: None,
    };
    let req = c.assistants().update_request("asst-9", request).unwrap();
    assert!(matches!(req.method, Method::Patch));
    assert!(req.url.ends_with("/assistants/asst-9"));
    let body = req.body.unwrap();
    match body.get("name") {
        Some(Json::Str(s)) => assert_eq!(s, "renamed"),
        _ => panic!("name must be carried"),
    }
    assert!(body.get("config").is_none());
    assert!(body.get("metadata").is_none());
}

#[test]
fn test_assistant_delete_request_path() {
    let c = client();
    let req = c.assistants().delete_request("asst-1").unwrap();
    assert!(matches!(req.method, Method::Delete));
    assert!(req.url.ends_with("/assistants/asst-1"));
    assert!(req.body.is_none());
}

#[test]
fn test_assistant_requests_need_graph_key() {
    let auth = AuthConfig::new(Some("smith-only".to_string()), None, None, None);
    let c = LangchainClient::new(auth).unwrap();
    assert!(c.assistants().list_request(None, None).is_err());
    assert!(c.assistants().search_request("q", None).is_err());
    assert!(c.assistants().get_request("a").is_err());
    assert!(c.assistants().delete_request("a").is_err());
}
