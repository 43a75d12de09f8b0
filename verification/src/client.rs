//! The client handle and the request builders.
//!
//! A client owns the credential bundle, the three service base URLs and the
//! effective organization/workspace scope. Builders produce plain
//! [`HttpRequest`] values; the contracts pin down, per service, exactly
//! which headers are attached:
//!
//! - prompt-hub: api-key header, plus the organization header and the
//!   workspace (tenant) header when those scopes are set;
//! - graph-runtime: api-key header only — assistants are deployment-scoped
//!   and must never receive organization or workspace headers;
//! - control-plane: api-key header plus the workspace (tenant) header when
//!   set, never the organization header.
//!
//! `with_*` builders return a new client value and leave the original
//! untouched, so a per-call override never bleeds into other calls.

use vstd::prelude::*;

use crate::auth::{clone_opt_string, AuthConfig};
use crate::error::LangstarError;
use crate::json::Json;

verus! {

/// Default base URL of the prompt-hub service.
pub const LANGSMITH_API_BASE: &'static str = "https://api.smith.langchain.com";

/// Default base URL of the graph-runtime service.
pub const LANGGRAPH_API_BASE: &'static str = "https://api.langgraph.cloud";

/// Default base URL of the control-plane service.
pub const CONTROL_PLANE_API_BASE: &'static str = "https://api.host.langchain.com";

/// An HTTP method used by the three services.
#[derive(Clone, Copy, Debug, PartialEq, Eq, Structural)]
pub enum Method {
    Get,
    Post,
    Put,
    Patch,
    Delete,
}

/// A fully described request: everything the transport needs to send it.
pub struct HttpRequest {
    pub method: Method,
    pub url: String,
    pub headers: Vec<(String, String)>,
    pub body: Option<Json>,
}

/// The headers of a request as character sequences.
pub open spec fn header_views(headers: Seq<(String, String)>) -> Seq<(Seq<char>, Seq<char>)> {
    headers.map_values(|h: (String, String)| (h.0@, h.1@))
}

/// The exact prompt-hub header list: api-key and content type, then the
/// organization header if scoped, then the workspace header if scoped.
pub open spec fn langsmith_header_spec(
    key: Seq<char>,
    org: Option<String>,
    ws: Option<String>,
) -> Seq<(Seq<char>, Seq<char>)> {
    let base = seq![("x-api-key"@, key), ("Content-Type"@, "application/json"@)];
    let with_org = if org is Some {
        base.push(("x-organization-id"@, org->0@))
    } else {
        base
    };
    if ws is Some {
        with_org.push(("X-Tenant-Id"@, ws->0@))
    } else {
        with_org
    }
}

/// The exact graph-runtime header list: the api-key and content type and
/// nothing else. Organization and workspace headers are deliberately never
/// sent to this service.
pub open spec fn langgraph_header_spec(key: Seq<char>) -> Seq<(Seq<char>, Seq<char>)> {
    seq![("x-api-key"@, key), ("Content-Type"@, "application/json"@)]
}

/// The exact control-plane header list: api-key and content type, then the
/// workspace header if scoped. The organization header is never sent here.
pub open spec fn control_plane_header_spec(key: Seq<char>, ws: Option<String>) -> Seq<
    (Seq<char>, Seq<char>),
> {
    let base = seq![("X-Api-Key"@, key), ("Content-Type"@, "application/json"@)];
    if ws is Some {
        base.push(("X-Tenant-Id"@, ws->0@))
    } else {
        base
    }
}

/// When no organization scope was resolved from any source, prompt-hub
/// requests carry no organization header at all.
pub proof fn lemma_unscoped_sends_no_org_header(key: Seq<char>, ws: Option<String>)
    ensures
        forall|i: int|
            0 <= i < langsmith_header_spec(key, None, ws).len() ==> (#[trigger] langsmith_header_spec(
                key,
                None,
                ws,
            )[i]).0 != "x-organization-id"@,
{
    reveal_strlit("x-api-key");
    reveal_strlit("Content-Type");
    reveal_strlit("X-Tenant-Id");
    reveal_strlit("x-organization-id");
    assert(("x-api-key"@).len() == 9);
    assert(("Content-Type"@).len() == 12);
    assert(("X-Tenant-Id"@).len() == 11);
    assert(("x-organization-id"@).len() == 17);
}

/// Whether an HTTP status code counts as success.
pub open spec fn success_status(status: u16) -> bool {
    200 <= status < 300
}

/// Shared response interpretation: a non-success status fails with an API
/// error carrying the status and the body text; a success hands the body on
/// for decoding by the caller.
pub fn check_response(status: u16, body: String) -> (r: Result<String, LangstarError>)
    ensures
        success_status(status) <==> r is Ok,
        r is Ok ==> r->Ok_0 == body,
        r matches Err(e) ==> e matches LangstarError::ApiError { status: s, message } && s
            == status && message == body,
{
    if 200 <= status && status < 300 {
        Ok(body)
    } else {
        Err(LangstarError::ApiError { status, message: body })
    }
}

/// Client handle for the three services.
pub struct LangchainClient {
    pub auth: AuthConfig,
    pub langsmith_base_url: String,
    pub langgraph_base_url: String,
    pub control_plane_base_url: String,
    /// Effective organization scope (sent as the organization header on
    /// prompt-hub requests).
    pub organization_id: Option<String>,
    /// Effective workspace scope (sent as the tenant header on prompt-hub
    /// and control-plane requests).
    pub workspace_id: Option<String>,
}

impl LangchainClient {
    /// The request line and headers of a prompt-hub request built by this
    /// client: the given method and path against the prompt-hub base URL,
    /// with exactly the prompt-hub header set.
    pub open spec fn langsmith_sends(&self, method: Method, path: Seq<char>, req: HttpRequest) -> bool {
        &&& req.method == method
        &&& req.url@ == self.langsmith_base_url@ + path
        &&& header_views(req.headers@) == langsmith_header_spec(
            self.auth.langsmith_api_key->0@,
            self.organization_id,
            self.workspace_id,
        )
    }

    /// The request line and headers of a graph-runtime request built by
    /// this client: exactly the graph-runtime header set, which never
    /// carries organization or workspace scope.
    pub open spec fn langgraph_sends(&self, method: Method, path: Seq<char>, req: HttpRequest) -> bool {
        &&& req.method == method
        &&& req.url@ == self.langgraph_base_url@ + path
        &&& header_views(req.headers@) == langgraph_header_spec(self.auth.langgraph_api_key->0@)
    }

    /// The request line and headers of a control-plane request built by
    /// this client: exactly the control-plane header set.
    pub open spec fn control_plane_sends(&self, method: Method, path: Seq<char>, req: HttpRequest) -> bool {
        &&& req.method == method
        &&& req.url@ == self.control_plane_base_url@ + path
        &&& header_views(req.headers@) == control_plane_header_spec(
            self.auth.langsmith_api_key->0@,
            self.workspace_id,
        )
    }

    /// What a bodiless prompt-hub request built by this client must look
    /// like: built only when the prompt-hub key is present, an
    /// authentication error otherwise.
    pub open spec fn is_langsmith_request(
        &self,
        method: Method,
        path: Seq<char>,
        r: Result<HttpRequest, LangstarError>,
    ) -> bool {
        &&& (r is Ok <==> self.auth.langsmith_api_key is Some)
        &&& (r matches Err(e) ==> e is AuthError)
        &&& (r matches Ok(req) ==> self.langsmith_sends(method, path, req) && req.body is None)
    }

    /// What a bodiless graph-runtime request built by this client must
    /// look like: built only when the graph-runtime key is present, an
    /// authentication error otherwise.
    pub open spec fn is_langgraph_request(
        &self,
        method: Method,
        path: Seq<char>,
        r: Result<HttpRequest, LangstarError>,
    ) -> bool {
        &&& (r is Ok <==> self.auth.langgraph_api_key is Some)
        &&& (r matches Err(e) ==> e is AuthError)
        &&& (r matches Ok(req) ==> self.langgraph_sends(method, path, req) && req.body is None)
    }

    /// What a bodiless control-plane request built by this client must
    /// look like: built only when the prompt-hub key (which the control
    /// plane shares) is present, an authentication error otherwise.
    pub open spec fn is_control_plane_request(
        &self,
        method: Method,
        path: Seq<char>,
        r: Result<HttpRequest, LangstarError>,
    ) -> bool {
        &&& (r is Ok <==> self.auth.langsmith_api_key is Some)
        &&& (r matches Err(e) ==> e is AuthError)
        &&& (r matches Ok(req) ==> self.control_plane_sends(method, path, req) && req.body is None)
    }

    /// Create a new client with the default base URLs. The organization and
    /// workspace scope is taken from the credential bundle.
    pub fn new(auth: AuthConfig) -> (r: Result<Self, LangstarError>)
        ensures
            r matches Ok(c) ==> {
                &&& c.auth == auth
                &&& c.langsmith_base_url@ == LANGSMITH_API_BASE@
                &&& c.langgraph_base_url@ == LANGGRAPH_API_BASE@
                &&& c.control_plane_base_url@ == CONTROL_PLANE_API_BASE@
                &&& c.organization_id == auth.organization_id
                &&& c.workspace_id == auth.workspace_id
            },
            r is Ok,
    {
        let organization_id = clone_opt_string(&auth.organization_id);
        let workspace_id = clone_opt_string(&auth.workspace_id);
        Ok(
            Self {
                auth,
                langsmith_base_url: LANGSMITH_API_BASE.to_owned(),
                langgraph_base_url: LANGGRAPH_API_BASE.to_owned(),
                control_plane_base_url: CONTROL_PLANE_API_BASE.to_owned(),
                organization_id,
                workspace_id,
            },
        )
    }

    /// Create a new client with custom base URLs.
    pub fn with_base_urls(
        auth: AuthConfig,
        langsmith_base_url: String,
        langgraph_base_url: String,
        control_plane_base_url: String,
    ) -> (r: Result<Self, LangstarError>)
        ensures
            r matches Ok(c) ==> {
                &&& c.auth == auth
                &&& c.langsmith_base_url == langsmith_base_url
                &&& c.langgraph_base_url == langgraph_base_url
                &&& c.control_plane_base_url == control_plane_base_url
                &&& c.organization_id == auth.organization_id
                &&& c.workspace_id == auth.workspace_id
            },
            r is Ok,
    {
        let organization_id = clone_opt_string(&auth.organization_id);
        let workspace_id = clone_opt_string(&auth.workspace_id);
        Ok(
            Self {
                auth,
                langsmith_base_url,
                langgraph_base_url,
                control_plane_base_url,
                organization_id,
                workspace_id,
            },
        )
    }

    /// Set the organization scope, returning a new client value.
    pub fn with_organization_id(self, org_id: String) -> (r: Self)
        ensures
            r == (Self { organization_id: Some(org_id), ..self }),
    {
        Self { organization_id: Some(org_id), ..self }
    }

    /// Set the workspace scope, returning a new client value.
    pub fn with_workspace_id(self, workspace_id: String) -> (r: Self)
        ensures
            r == (Self { workspace_id: Some(workspace_id), ..self }),
    {
        Self { workspace_id: Some(workspace_id), ..self }
    }

    /// Retarget the graph-runtime at a different base URL, typically a
    /// deployment's discovered custom URL.
    pub fn with_langgraph_url(self, url: String) -> (r: Self)
        ensures
            r == (Self { langgraph_base_url: url, ..self }),
    {
        Self { langgraph_base_url: url, ..self }
    }

    /// The organization scope currently in effect, if any.
    pub fn organization_id(&self) -> (r: Option<&str>)
        ensures
            r is Some <==> self.organization_id is Some,
            r matches Some(s) ==> s@ == self.organization_id->0@,
    {
        match &self.organization_id {
            Some(s) => Some(s.as_str()),
            None => None,
        }
    }

    /// The workspace scope currently in effect, if any.
    pub fn workspace_id(&self) -> (r: Option<&str>)
        ensures
            r is Some <==> self.workspace_id is Some,
            r matches Some(s) ==> s@ == self.workspace_id->0@,
    {
        match &self.workspace_id {
            Some(s) => Some(s.as_str()),
            None => None,
        }
    }

    /// Build a prompt-hub request: api-key header, then the organization
    /// and workspace headers when those scopes are set.
    fn langsmith_request(&self, method: Method, path: &str) -> (r: Result<
        HttpRequest,
        LangstarError,
    >)
        ensures
            self.is_langsmith_request(method, path@, r),
    {
        let key = match self.auth.require_langsmith_key() {
            Ok(k) => k,
            Err(e) => {
                return Err(e);
            },
        };
        let url = self.langsmith_base_url.clone().concat(path);
        let mut headers: Vec<(String, String)> = Vec::new();
        headers.push(("x-api-key".to_owned(), key.clone()));
        headers.push(("Content-Type".to_owned(), "application/json".to_owned()));
        if let Some(org_id) = &self.organization_id {
            headers.push(("x-organization-id".to_owned(), org_id.clone()));
        }
        if let Some(ws_id) = &self.workspace_id {
            headers.push(("X-Tenant-Id".to_owned(), ws_id.clone()));
        }
        proof {
            assert(header_views(headers@) =~= langsmith_header_spec(
                self.auth.langsmith_api_key->0@,
                self.organization_id,
                self.workspace_id,
            ));
        }
        Ok(HttpRequest { method, url, headers, body: None })
    }

    /// Build a graph-runtime request: the api-key header only. This service
    /// is deployment-scoped and never receives organization or workspace
    /// headers.
    fn langgraph_request(&self, method: Method, path: &str) -> (r: Result<
        HttpRequest,
        LangstarError,
    >)
        ensures
            self.is_langgraph_request(method, path@, r),
    {
        let key = match self.auth.require_langgraph_key() {
            Ok(k) => k,
            Err(e) => {
                return Err(e);
            },
        };
        let url = self.langgraph_base_url.clone().concat(path);
        let mut headers: Vec<(String, String)> = Vec::new();
        headers.push(("x-api-key".to_owned(), key.clone()));
        headers.push(("Content-Type".to_owned(), "application/json".to_owned()));
        proof {
            assert(header_views(headers@) =~= langgraph_header_spec(
                self.auth.langgraph_api_key->0@,
            ));
        }
        Ok(HttpRequest { method, url, headers, body: None })
    }

    /// Build a control-plane request: api-key header plus the workspace
    /// header when that scope is set.
    fn control_plane_request(&self, method: Method, path: &str) -> (r: Result<
        HttpRequest,
        LangstarError,
    >)
        ensures
            self.is_control_plane_request(method, path@, r),
    {
        let key = match self.auth.require_langsmith_key() {
            Ok(k) => k,
            Err(e) => {
                return Err(e);
            },
        };
        let url = self.control_plane_base_url.clone().concat(path);
        let mut headers: Vec<(String, String)> = Vec::new();
        headers.push(("X-Api-Key".to_owned(), key.clone()));
        headers.push(("Content-Type".to_owned(), "application/json".to_owned()));
        if let Some(ws_id) = &self.workspace_id {
            headers.push(("X-Tenant-Id".to_owned(), ws_id.clone()));
        }
        proof {
            assert(header_views(headers@) =~= control_plane_header_spec(
                self.auth.langsmith_api_key->0@,
                self.workspace_id,
            ));
        }
        Ok(HttpRequest { method, url, headers, body: None })
    }

    /// Create a GET request to the prompt-hub API.
    pub fn langsmith_get(&self, path: &str) -> (r: Result<HttpRequest, LangstarError>)
        ensures
            self.is_langsmith_request(Method::Get, path@, r),
    {
        self.langsmith_request(Method::Get, path)
    }

    /// Create a POST request to the prompt-hub API.
    pub fn langsmith_post(&self, path: &str) -> (r: Result<HttpRequest, LangstarError>)
        ensures
            self.is_langsmith_request(Method::Post, path@, r),
    {
        self.langsmith_request(Method::Post, path)
    }

    /// Create a PUT request to the prompt-hub API.
    pub fn langsmith_put(&self, path: &str) -> (r: Result<HttpRequest, LangstarError>)
        ensures
            self.is_langsmith_request(Method::Put, path@, r),
    {
        self.langsmith_request(Method::Put, path)
    }

    /// Create a GET request to the graph-runtime API.
    pub fn langgraph_get(&self, path: &str) -> (r: Result<HttpRequest, LangstarError>)
        ensures
            self.is_langgraph_request(Method::Get, path@, r),
    {
        self.langgraph_request(Method::Get, path)
    }

    /// Create a POST request to the graph-runtime API.
    pub fn langgraph_post(&self, path: &str) -> (r: Result<HttpRequest, LangstarError>)
        ensures
            self.is_langgraph_request(Method::Post, path@, r),
    {
        self.langgraph_request(Method::Post, path)
    }

    /// Create a PATCH request to the graph-runtime API.
    pub fn langgraph_patch(&self, path: &str) -> (r: Result<HttpRequest, LangstarError>)
        ensures
            self.is_langgraph_request(Method::Patch, path@, r),
    {
        self.langgraph_request(Method::Patch, path)
    }

    /// Create a DELETE request to the graph-runtime API.
    pub fn langgraph_delete(&self, path: &str) -> (r: Result<HttpRequest, LangstarError>)
        ensures
            self.is_langgraph_request(Method::Delete, path@, r),
    {
        self.langgraph_request(Method::Delete, path)
    }

    /// Create a GET request to the control-plane API.
    pub fn control_plane_get(&self, path: &str) -> (r: Result<HttpRequest, LangstarError>)
        ensures
            self.is_control_plane_request(Method::Get, path@, r),
    {
        self.control_plane_request(Method::Get, path)
    }

    /// Create a POST request to the control-plane API.
    pub fn control_plane_post(&self, path: &str) -> (r: Result<HttpRequest, LangstarError>)
        ensures
            self.is_control_plane_request(Method::Post, path@, r),
    {
        self.control_plane_request(Method::Post, path)
    }

    /// Create a DELETE request to the control-plane API.
    pub fn control_plane_delete(&self, path: &str) -> (r: Result<HttpRequest, LangstarError>)
        ensures
            self.is_control_plane_request(Method::Delete, path@, r),
    {
        self.control_plane_request(Method::Delete, path)
    }
}

impl HttpRequest {
    /// Attach a JSON body, leaving everything else unchanged.
    pub fn with_body(self, body: Json) -> (r: Self)
        ensures
            r == (Self { body: Some(body), ..self }),
    {
        Self { body: Some(body), ..self }
    }
}

impl Clone for LangchainClient {
    /// Cloning duplicates the scope and the URLs exactly.
    fn clone(&self) -> (r: Self)
        ensures
            r.auth.langsmith_api_key == self.auth.langsmith_api_key,
            r.auth.langgraph_api_key == self.auth.langgraph_api_key,
            r.auth.organization_id == self.auth.organization_id,
            r.auth.workspace_id == self.auth.workspace_id,
            r.langsmith_base_url == self.langsmith_base_url,
            r.langgraph_base_url == self.langgraph_base_url,
            r.control_plane_base_url == self.control_plane_base_url,
            r.organization_id == self.organization_id,
            r.workspace_id == self.workspace_id,
    {
        Self {
            auth: self.auth.clone(),
            langsmith_base_url: self.langsmith_base_url.clone(),
            langgraph_base_url: self.langgraph_base_url.clone(),
            control_plane_base_url: self.control_plane_base_url.clone(),
            organization_id: clone_opt_string(&self.organization_id),
            workspace_id: clone_opt_string(&self.workspace_id),
        }
    }
}

/// Generic wrapper for paginated API responses.
pub struct ListResponse<T> {
    pub items: Vec<T>,
    pub next: Option<String>,
    pub total: Option<usize>,
}

} // verus!
