//! Prompts stored in the prompt-hub.
//!
//! Listing and searching share one endpoint shape; both apply a
//! *client-side* visibility filter after the page is fetched, because the
//! remote list endpoint has no visibility parameter. The filter never tops
//! the page back up: the limit applies before filtering, so a caller may
//! see fewer than `limit` results.

use vstd::prelude::*;

use crate::client::{HttpRequest, LangchainClient, Method};
use crate::error::LangstarError;
use crate::json::{string_array, Json};
use crate::text::dec_of;
use crate::text::{u32_to_dec};

verus! {

/// Visibility filter for prompts, applied client-side to a fetched page.
#[derive(Debug, Clone, Copy, PartialEq, Eq, Structural)]
pub enum Visibility {
    /// Only public prompts.
    Public,
    /// Only private prompts.
    Private,
    /// All prompts.
    Any,
}

/// A prompt from the prompt-hub.
pub struct Prompt {
    /// Unique identifier for the prompt.
    pub id: String,
    /// Repo handle, "owner/name".
    pub repo_handle: String,
    /// Description of the prompt.
    pub description: Option<String>,
    /// Number of likes.
    pub num_likes: u32,
    /// Number of downloads.
    pub num_downloads: u32,
    /// Prompt content, an opaque manifest document.
    pub manifest: Option<Json>,
    /// When the prompt was created.
    pub created_at: Option<String>,
    /// When the prompt was last updated.
    pub updated_at: Option<String>,
    /// Whether this prompt is public.
    pub is_public: bool,
}

/// Whether a prompt with the given public flag passes a visibility filter.
pub open spec fn vis_keeps(vis: Visibility, is_public: bool) -> bool {
    match vis {
        Visibility::Public => is_public,
        Visibility::Private => !is_public,
        Visibility::Any => true,
    }
}

/// A page filtered by visibility, keeping the original order.
pub open spec fn filtered(prompts: Seq<Prompt>, vis: Visibility) -> Seq<Prompt> {
    prompts.filter(|p: Prompt| vis_keeps(vis, p.is_public))
}

proof fn lemma_filtered_push(s: Seq<Prompt>, vis: Visibility, p: Prompt)
    ensures
        filtered(s.push(p), vis) == if vis_keeps(vis, p.is_public) {
            filtered(s, vis).push(p)
        } else {
            filtered(s, vis)
        },
{
    reveal_with_fuel(Seq::filter, 2);
    assert(s.push(p).drop_last() =~= s);
    assert(s.push(p).last() == p);
}

proof fn lemma_filtered_all_kept(s: Seq<Prompt>, vis: Visibility)
    requires
        forall|i: int| 0 <= i < s.len() ==> vis_keeps(vis, (#[trigger] s[i]).is_public),
    ensures
        filtered(s, vis) == s,
    decreases s.len(),
{
    reveal_with_fuel(Seq::filter, 2);
    if s.len() == 0 {
        assert(filtered(s, vis) =~= s);
    } else {
        lemma_filtered_all_kept(s.drop_last(), vis);
        assert(s.drop_last().push(s.last()) =~= s);
        lemma_filtered_push(s.drop_last(), vis, s.last());
    }
}

/// Filtering an already-filtered page by the same visibility returns the
/// identical sequence, and filtering by `Any` is the identity.
pub proof fn lemma_visibility_filter_idempotent(prompts: Seq<Prompt>, vis: Visibility)
    ensures
        filtered(filtered(prompts, vis), vis) == filtered(prompts, vis),
        filtered(prompts, Visibility::Any) == prompts,
{
    broadcast use Seq::lemma_filter_pred;

    let once = filtered(prompts, vis);
    assert(forall|i: int| 0 <= i < once.len() ==> vis_keeps(vis, (#[trigger] once[i]).is_public));
    lemma_filtered_all_kept(once, vis);
    assert(forall|i: int|
        0 <= i < prompts.len() ==> vis_keeps(Visibility::Any, (#[trigger] prompts[i]).is_public));
    lemma_filtered_all_kept(prompts, Visibility::Any);
}

/// Apply a visibility filter to a fetched page of prompts. The page is
/// never topped back up: filtering can only shorten it.
pub fn filter_by_visibility(prompts: Vec<Prompt>, vis: Visibility) -> (r: Vec<Prompt>)
    ensures
        r@ == filtered(prompts@, vis),
{
    let ghost orig = prompts@;
    let mut input = prompts;
    let ghost mut done: Seq<Prompt> = Seq::empty();
    let mut out: Vec<Prompt> = Vec::new();
    while input.len() > 0
        invariant
            orig =~= done + input@,
            out@ == filtered(done, vis),
        decreases input.len(),
    {
        let keep = match vis {
            Visibility::Public => input[0].is_public,
            Visibility::Private => !input[0].is_public,
            Visibility::Any => true,
        };
        let p = input.remove(0);
        proof {
            lemma_filtered_push(done, vis, p);
            done = done.push(p);
        }
        if keep {
            out.push(p);
        }
    }
    proof {
        assert(done =~= orig);
    }
    out
}

/// The page returned by a list or search call: the fetched page filtered by
/// the requested visibility (`Any` when none was given).
pub fn visible_page(page: Vec<Prompt>, visibility: Option<Visibility>) -> (r: Vec<Prompt>)
    ensures
        visibility matches Some(v) ==> r@ == filtered(page@, v),
        visibility is None ==> r@ == filtered(page@, Visibility::Any),
{
    match visibility {
        Some(v) => filter_by_visibility(page, v),
        None => filter_by_visibility(page, Visibility::Any),
    }
}

/// Request to create a commit: a versioned manifest push to a prompt repo.
pub struct CommitRequest {
    /// The prompt manifest.
    pub manifest: Json,
    /// Parent commit hash, for updates.
    pub parent_commit: Option<String>,
    /// Example run IDs to associate with this commit.
    pub example_run_ids: Option<Vec<String>>,
}

/// Response from creating a commit.
pub struct CommitResponse {
    /// The commit data.
    pub commit: CommitData,
}

/// Commit data within the response.
pub struct CommitData {
    /// Commit hash.
    pub commit_hash: String,
    /// URL to the commit.
    pub url: Option<String>,
}

/// The path of the list endpoint for the given page.
pub open spec fn list_path_spec(limit: u32, offset: u32) -> Seq<char> {
    "/api/v1/repos/?limit="@ + dec_of(limit as int) + "&offset="@ + dec_of(offset as int)
}

/// The path of the search endpoint for the given query and page size.
pub open spec fn search_path_spec(query: Seq<char>, limit: u32) -> Seq<char> {
    "/api/v1/repos/?query="@ + query + "&limit="@ + dec_of(limit as int)
}

/// Client for the prompt-hub prompts API, bound to one client handle.
pub struct PromptClient<'a> {
    pub client: &'a LangchainClient,
}

impl<'a> PromptClient<'a> {
    /// Create a new PromptClient.
    pub fn new(client: &'a LangchainClient) -> (r: Self)
        ensures
            r.client == client,
    {
        Self { client }
    }

    /// The request that lists a page of prompts. The limit defaults to 20
    /// and the offset to 0. The visibility filter is applied to the
    /// response, not the request: see [`visible_page`].
    pub fn list_request(&self, limit: Option<u32>, offset: Option<u32>) -> (r: Result<
        HttpRequest,
        LangstarError,
    >)
        ensures
            self.client.is_langsmith_request(
                Method::Get,
                list_path_spec(
                    if limit is Some { limit->0 } else { 20 },
                    if offset is Some { offset->0 } else { 0 },
                ),
                r,
            ),
    {
        let limit = match limit {
            Some(l) => l,
            None => 20,
        };
        let offset = match offset {
            Some(o) => o,
            None => 0,
        };
        let path = "/api/v1/repos/?limit=".to_owned().concat(u32_to_dec(limit).as_str()).concat(
            "&offset=",
        ).concat(u32_to_dec(offset).as_str());
        proof {
            assert(path@ =~= list_path_spec(limit, offset));
        }
        self.client.langsmith_get(path.as_str())
    }

    /// The request that searches prompts. The limit defaults to 20. The
    /// query term is embedded in the query string as given.
    pub fn search_request(&self, query: &str, limit: Option<u32>) -> (r: Result<
        HttpRequest,
        LangstarError,
    >)
        ensures
            self.client.is_langsmith_request(
                Method::Get,
                search_path_spec(query@, if limit is Some { limit->0 } else { 20 }),
                r,
            ),
    {
        let limit = match limit {
            Some(l) => l,
            None => 20,
        };
        let path = "/api/v1/repos/?query=".to_owned().concat(query).concat("&limit=").concat(
            u32_to_dec(limit).as_str(),
        );
        proof {
            assert(path@ =~= search_path_spec(query@, limit));
        }
        self.client.langsmith_get(path.as_str())
    }

    /// The request that fetches one prompt by its "owner/name" handle.
    pub fn get_request(&self, handle: &str) -> (r: Result<HttpRequest, LangstarError>)
        ensures
            self.client.is_langsmith_request(Method::Get, "/api/v1/repos/"@ + handle@, r),
    {
        let path = "/api/v1/repos/".to_owned().concat(handle);
        self.client.langsmith_get(path.as_str())
    }

    /// The request that creates a prompt repository. Absent optional fields
    /// are sent as JSON nulls.
    pub fn create_repo_request(
        &self,
        repo_handle: &str,
        description: Option<String>,
        readme: Option<String>,
        is_public: bool,
        tags: Option<Vec<String>>,
    ) -> (r: Result<HttpRequest, LangstarError>)
        ensures
            r is Ok <==> self.client.auth.langsmith_api_key is Some,
            r matches Err(e) ==> e is AuthError,
            r matches Ok(req) ==> {
                &&& self.client.langsmith_sends(Method::Post, "/api/v1/repos"@, req)
                &&& req.body matches Some(b) && {
                    &&& b.keys() =~= seq![
                        "repo_handle"@,
                        "description"@,
                        "readme"@,
                        "is_public"@,
                        "tags"@,
                    ]
                    &&& b.str_under("repo_handle"@) == Some(repo_handle@)
                    &&& (match description {
                        Some(d) => b.str_under("description"@) == Some(d@),
                        None => b.null_under("description"@),
                    })
                    &&& (match readme {
                        Some(d) => b.str_under("readme"@) == Some(d@),
                        None => b.null_under("readme"@),
                    })
                    &&& b.bool_under("is_public"@) == Some(is_public)
                    &&& (match tags {
                        Some(t) => b.strings_under("tags"@) == Some(
                            t@.map_values(|s: String| s@),
                        ),
                        None => b.null_under("tags"@),
                    })
                }
            },
    {
        let base = match self.client.langsmith_post("/api/v1/repos") {
            Ok(req) => req,
            Err(e) => {
                return Err(e);
            },
        };
        let mut entries: Vec<(String, Json)> = Vec::new();
        entries.push(("repo_handle".to_owned(), Json::Str(repo_handle.to_owned())));
        entries.push(
            (
                "description".to_owned(),
                match description {
                    Some(d) => Json::Str(d),
                    None => Json::Null,
                },
            ),
        );
        entries.push(
            (
                "readme".to_owned(),
                match readme {
                    Some(d) => Json::Str(d),
                    None => Json::Null,
                },
            ),
        );
        entries.push(("is_public".to_owned(), Json::Bool(is_public)));
        entries.push(
            (
                "tags".to_owned(),
                match tags {
                    Some(t) => string_array(t),
                    None => Json::Null,
                },
            ),
        );
        let body = Json::Obj(entries);
        proof {
            reveal_strlit("repo_handle");
            reveal_strlit("description");
            reveal_strlit("readme");
            reveal_strlit("is_public");
            reveal_strlit("tags");
            assert(("repo_handle"@).len() == 11);
            assert(("description"@).len() == 11);
            assert(("readme"@).len() == 6);
            assert(("is_public"@).len() == 9);
            assert(("tags"@).len() == 4);
            assert(("repo_handle"@)[0] == 'r');
            assert(("description"@)[0] == 'd');
            assert("repo_handle"@ != "description"@);
            reveal_with_fuel(crate::json::lookup, 8);
        }
        Ok(base.with_body(body))
    }

    /// The request that pushes a commit to a prompt repo. The manifest is
    /// always sent; the parent commit and example run IDs are omitted
    /// entirely when absent.
    pub fn push_request(&self, owner: &str, repo: &str, commit_request: CommitRequest) -> (r:
        Result<HttpRequest, LangstarError>)
        ensures
            r is Ok <==> self.client.auth.langsmith_api_key is Some,
            r matches Err(e) ==> e is AuthError,
            r matches Ok(req) ==> {
                &&& self.client.langsmith_sends(
                    Method::Post,
                    "/api/v1/commits/"@ + owner@ + "/"@ + repo@,
                    req,
                )
                &&& req.body matches Some(b) && {
                    &&& b.get_spec("manifest"@) == Some(commit_request.manifest)
                    &&& (match commit_request.parent_commit {
                        Some(p) => b.str_under("parent_commit"@) == Some(p@),
                        None => !b.keys().contains("parent_commit"@),
                    })
                    &&& (match commit_request.example_run_ids {
                        Some(ids) => b.strings_under("example_run_ids"@) == Some(
                            ids@.map_values(|s: String| s@),
                        ),
                        None => !b.keys().contains("example_run_ids"@),
                    })
                }
            },
    {
        let path = "/api/v1/commits/".to_owned().concat(owner).concat("/").concat(repo);
        proof {
            assert(path@ =~= "/api/v1/commits/"@ + owner@ + "/"@ + repo@);
        }
        let base = match self.client.langsmith_post(path.as_str()) {
            Ok(req) => req,
            Err(e) => {
                return Err(e);
            },
        };
        let mut entries: Vec<(String, Json)> = Vec::new();
        entries.push(("manifest".to_owned(), commit_request.manifest));
        match commit_request.parent_commit {
            Some(p) => {
                entries.push(("parent_commit".to_owned(), Json::Str(p)));
            },
            None => {},
        }
        match commit_request.example_run_ids {
            Some(ids) => {
                entries.push(("example_run_ids".to_owned(), string_array(ids)));
            },
            None => {},
        }
        let body = Json::Obj(entries);
        proof {
            reveal_strlit("manifest");
            reveal_strlit("parent_commit");
            reveal_strlit("example_run_ids");
            assert(("manifest"@).len() == 8);
            assert(("parent_commit"@).len() == 13);
            assert(("example_run_ids"@).len() == 15);
            reveal_with_fuel(crate::json::lookup, 8);
        }
        Ok(base.with_body(body))
    }
}

impl LangchainClient {
    /// Get a PromptClient bound to this client handle.
    pub fn prompts(&self) -> (r: PromptClient<'_>)
        ensures
            r.client == self,
    {
        PromptClient::new(self)
    }
}

} // verus!
