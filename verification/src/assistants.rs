//! Assistants of the graph-runtime.
//!
//! Assistants are deployment-scoped: the API key alone selects the
//! deployment, and no organization or workspace headers are ever sent —
//! the request contracts inherit that rule from the client. The API has no
//! pure "list all" verb: listing is a search whose body carries no query
//! field at all (not a null, not an empty string).

use vstd::prelude::*;

use crate::client::{HttpRequest, LangchainClient, Method};
use crate::error::LangstarError;
use crate::json::Json;

verus! {

/// An assistant: a named, configured instance of one graph within one
/// deployment.
pub struct Assistant {
    /// Unique identifier for the assistant.
    pub assistant_id: String,
    /// Graph this assistant is based on.
    pub graph_id: String,
    /// Name of the assistant.
    pub name: String,
    /// Configuration for the assistant.
    pub config: Option<Json>,
    /// Metadata for the assistant.
    pub metadata: Option<Json>,
    /// When the assistant was created.
    pub created_at: Option<String>,
    /// When the assistant was last updated.
    pub updated_at: Option<String>,
}

/// Request to create a new assistant.
pub struct CreateAssistantRequest {
    /// Graph to base the assistant on.
    pub graph_id: String,
    /// Name for the assistant.
    pub name: String,
    /// Optional configuration.
    pub config: Option<Json>,
    /// Optional metadata.
    pub metadata: Option<Json>,
}

/// Request to update an existing assistant; absent fields are left
/// untouched by the server and omitted from the body.
pub struct UpdateAssistantRequest {
    /// Updated name.
    pub name: Option<String>,
    /// Updated configuration.
    pub config: Option<Json>,
    /// Updated metadata.
    pub metadata: Option<Json>,
}

/// Request to search for assistants. An absent query lists everything.
pub struct AssistantSearchRequest {
    /// Search term over assistant names; absent from the body when not
    /// given.
    pub query: Option<String>,
    /// Maximum number of results; absent from the body when not given.
    pub limit: Option<u32>,
    /// Number of results to skip; absent from the body when not given.
    pub offset: Option<u32>,
}

/// The keys a search body carries: exactly the present fields, in order.
pub open spec fn search_keys_spec(request: AssistantSearchRequest) -> Seq<Seq<char>> {
    (if request.query is Some {
        seq!["query"@]
    } else {
        Seq::empty()
    }) + (if request.limit is Some {
        seq!["limit"@]
    } else {
        Seq::empty()
    }) + (if request.offset is Some {
        seq!["offset"@]
    } else {
        Seq::empty()
    })
}

/// Whether `b` is the JSON form of the search request: each present field
/// under its key, each absent field missing from the object entirely.
pub open spec fn search_body_ok(b: Json, request: AssistantSearchRequest) -> bool {
    &&& b.keys() =~= search_keys_spec(request)
    &&& (match request.query {
        Some(q) => b.str_under("query"@) == Some(q@),
        None => !b.keys().contains("query"@),
    })
    &&& (match request.limit {
        Some(l) => b.int_under("limit"@) == Some(l as int),
        None => !b.keys().contains("limit"@),
    })
    &&& (match request.offset {
        Some(o) => b.int_under("offset"@) == Some(o as int),
        None => !b.keys().contains("offset"@),
    })
}

/// Build the JSON body of a search request.
fn search_body(request: AssistantSearchRequest) -> (b: Json)
    ensures
        search_body_ok(b, request),
{
    let mut entries: Vec<(String, Json)> = Vec::new();
    match request.query {
        Some(q) => {
            entries.push(("query".to_owned(), Json::Str(q)));
        },
        None => {},
    }
    match request.limit {
        Some(l) => {
            entries.push(("limit".to_owned(), Json::Int(l as i64)));
        },
        None => {},
    }
    match request.offset {
        Some(o) => {
            entries.push(("offset".to_owned(), Json::Int(o as i64)));
        },
        None => {},
    }
    let b = Json::Obj(entries);
    proof {
        reveal_strlit("query");
        reveal_strlit("limit");
        reveal_strlit("offset");
        assert(("query"@).len() == 5);
        assert(("limit"@).len() == 5);
        assert(("offset"@).len() == 6);
        assert(("query"@)[0] == 'q');
        assert(("limit"@)[0] == 'l');
        assert("query"@ != "limit"@);
        reveal_with_fuel(crate::json::lookup, 5);
        assert(b.keys() =~= search_keys_spec(request));
    }
    b
}

/// Client for the graph-runtime assistants API, bound to one client
/// handle.
pub struct AssistantClient<'a> {
    pub client: &'a LangchainClient,
}

impl<'a> AssistantClient<'a> {
    /// Create a new AssistantClient.
    pub fn new(client: &'a LangchainClient) -> (r: Self)
        ensures
            r.client == client,
    {
        Self { client }
    }

    /// The request that lists assistants: a search whose body has no query
    /// field at all, because the API has no other way to list everything.
    pub fn list_request(&self, limit: Option<u32>, offset: Option<u32>) -> (r: Result<
        HttpRequest,
        LangstarError,
    >)
        ensures
            r is Ok <==> self.client.auth.langgraph_api_key is Some,
            r matches Err(e) ==> e is AuthError,
            r matches Ok(req) ==> {
                &&& self.client.langgraph_sends(Method::Post, "/assistants/search"@, req)
                &&& req.body matches Some(b) && search_body_ok(
                    b,
                    AssistantSearchRequest { query: None, limit, offset },
                )
            },
    {
        let base = match self.client.langgraph_post("/assistants/search") {
            Ok(req) => req,
            Err(e) => {
                return Err(e);
            },
        };
        let body = search_body(AssistantSearchRequest { query: None, limit, offset });
        Ok(base.with_body(body))
    }

    /// The request that searches assistants by name.
    pub fn search_request(&self, query: &str, limit: Option<u32>) -> (r: Result<
        HttpRequest,
        LangstarError,
    >)
        ensures
            r is Ok <==> self.client.auth.langgraph_api_key is Some,
            r matches Err(e) ==> e is AuthError,
            r matches Ok(req) ==> {
                &&& self.client.langgraph_sends(Method::Post, "/assistants/search"@, req)
                &&& req.body matches Some(b) && {
                    &&& b.str_under("query"@) == Some(query@)
                    &&& (match limit {
                        Some(l) => b.int_under("limit"@) == Some(l as int),
                        None => !b.keys().contains("limit"@),
                    })
                    &&& !b.keys().contains("offset"@)
                }
            },
    {
        let base = match self.client.langgraph_post("/assistants/search") {
            Ok(req) => req,
            Err(e) => {
                return Err(e);
            },
        };
        let body = search_body(
            AssistantSearchRequest { query: Some(query.to_owned()), limit, offset: None },
        );
        proof {
            reveal_strlit("query");
            reveal_strlit("limit");
            reveal_strlit("offset");
            assert(("query"@).len() == 5);
            assert(("limit"@).len() == 5);
            assert(("offset"@).len() == 6);
            assert(("query"@)[0] == 'q');
            assert(("limit"@)[0] == 'l');
            assert("query"@ != "limit"@);
        }
        Ok(base.with_body(body))
    }

    /// The request that fetches one assistant by ID.
    pub fn get_request(&self, assistant_id: &str) -> (r: Result<HttpRequest, LangstarError>)
        ensures
            self.client.is_langgraph_request(Method::Get, "/assistants/"@ + assistant_id@, r),
    {
        let path = "/assistants/".to_owned().concat(assistant_id);
        self.client.langgraph_get(path.as_str())
    }

    /// The request that creates an assistant. Absent configuration and
    /// metadata are omitted from the body entirely.
    pub fn create_request(&self, request: CreateAssistantRequest) -> (r: Result<
        HttpRequest,
        LangstarError,
    >)
        ensures
            r is Ok <==> self.client.auth.langgraph_api_key is Some,
            r matches Err(e) ==> e is AuthError,
            r matches Ok(req) ==> {
                &&& self.client.langgraph_sends(Method::Post, "/assistants"@, req)
                &&& req.body matches Some(b) && {
                    &&& b.str_under("graph_id"@) == Some(request.graph_id@)
                    &&& b.str_under("name"@) == Some(request.name@)
                    &&& (match request.config {
                        Some(c) => b.get_spec("config"@) == Some(c),
                        None => !b.keys().contains("config"@),
                    })
                    &&& (match request.metadata {
                        Some(m) => b.get_spec("metadata"@) == Some(m),
                        None => !b.keys().contains("metadata"@),
                    })
                }
            },
    {
        let base = match self.client.langgraph_post("/assistants") {
            Ok(req) => req,
            Err(e) => {
                return Err(e);
            },
        };
        let mut entries: Vec<(String, Json)> = Vec::new();
        entries.push(("graph_id".to_owned(), Json::Str(request.graph_id)));
        entries.push(("name".to_owned(), Json::Str(request.name)));
        match request.config {
            Some(c) => {
                entries.push(("config".to_owned(), c));
            },
            None => {},
        }
        match request.metadata {
            Some(m) => {
                entries.push(("metadata".to_owned(), m));
            },
            None => {},
        }
        let body = Json::Obj(entries);
        proof {
            reveal_strlit("graph_id");
            reveal_strlit("name");
            reveal_strlit("config");
            reveal_strlit("metadata");
            assert(("graph_id"@).len() == 8);
            assert(("name"@).len() == 4);
            assert(("config"@).len() == 6);
            assert(("metadata"@).len() == 8);
            assert(("graph_id"@)[0] == 'g');
            assert(("metadata"@)[0] == 'm');
            assert("graph_id"@ != "metadata"@);
            reveal_with_fuel(crate::json::lookup, 6);
        }
        Ok(base.with_body(body))
    }

    /// The request that updates an assistant: a partial PATCH whose body
    /// carries only the present fields.
    pub fn update_request(&self, assistant_id: &str, request: UpdateAssistantRequest) -> (r:
        Result<HttpRequest, LangstarError>)
        ensures
            r is Ok <==> self.client.auth.langgraph_api_key is Some,
            r matches Err(e) ==> e is AuthError,
            r matches Ok(req) ==> {
                &&& self.client.langgraph_sends(
                    Method::Patch,
                    "/assistants/"@ + assistant_id@,
                    req,
                )
                &&& req.body matches Some(b) && {
                    &&& (match request.name {
                        Some(n) => b.str_under("name"@) == Some(n@),
                        None => !b.keys().contains("name"@),
                    })
                    &&& (match request.config {
                        Some(c) => b.get_spec("config"@) == Some(c),
                        None => !b.keys().contains("config"@),
                    })
                    &&& (match request.metadata {
                        Some(m) => b.get_spec("metadata"@) == Some(m),
                        None => !b.keys().contains("metadata"@),
                    })
                }
            },
    {
        let path = "/assistants/".to_owned().concat(assistant_id);
        let base = match self.client.langgraph_patch(path.as_str()) {
            Ok(req) => req,
            Err(e) => {
                return Err(e);
            },
        };
        let mut entries: Vec<(String, Json)> = Vec::new();
        match request.name {
            Some(n) => {
                entries.push(("name".to_owned(), Json::Str(n)));
            },
            None => {},
        }
        match request.config {
            Some(c) => {
                entries.push(("config".to_owned(), c));
            },
            None => {},
        }
        match request.metadata {
            Some(m) => {
                entries.push(("metadata".to_owned(), m));
            },
            None => {},
        }
        let body = Json::Obj(entries);
        proof {
            reveal_strlit("name");
            reveal_strlit("config");
            reveal_strlit("metadata");
            assert(("name"@).len() == 4);
            assert(("config"@).len() == 6);
            assert(("metadata"@).len() == 8);
            reveal_with_fuel(crate::json::lookup, 5);
        }
        Ok(base.with_body(body))
    }

    /// The request that deletes one assistant by ID. A success may come
    /// back with no content at all; the caller must not expect a body.
    pub fn delete_request(&self, assistant_id: &str) -> (r: Result<HttpRequest, LangstarError>)
        ensures
            self.client.is_langgraph_request(Method::Delete, "/assistants/"@ + assistant_id@, r),
    {
        let path = "/assistants/".to_owned().concat(assistant_id);
        self.client.langgraph_delete(path.as_str())
    }
}

impl LangchainClient {
    /// Get an AssistantClient bound to this client handle.
    pub fn assistants(&self) -> (r: AssistantClient<'_>)
        ensures
            r.client == self,
    {
        AssistantClient::new(self)
    }
}

} // verus!
