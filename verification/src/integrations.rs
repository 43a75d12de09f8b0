//! GitHub integrations of the control plane.
//!
//! Discovery walks all configured integrations and, for each, lists its
//! accessible repositories, looking for an owner/name match; the first
//! integration whose list contains the match wins. An integration whose
//! repository listing fails is skipped. The caller drives the walk (each
//! listing is a separate fetch); this module decides each step.

use vstd::prelude::*;

use crate::client::{HttpRequest, LangchainClient, Method};
use crate::error::LangstarError;
use crate::text::str_eq;

verus! {

/// A GitHub integration.
pub struct GitHubIntegration {
    /// Unique identifier for the integration.
    pub id: String,
    /// Name of the integration.
    pub name: Option<String>,
}

/// A GitHub repository an integration can reach.
pub struct GitHubRepository {
    /// Repository owner.
    pub owner: String,
    /// Repository name.
    pub name: String,
}

/// Whether the listed repositories contain the owner/name pair.
pub open spec fn repos_contain(
    repos: Seq<GitHubRepository>,
    owner: Seq<char>,
    name: Seq<char>,
) -> bool {
    exists|i: int|
        0 <= i < repos.len() && (#[trigger] repos[i]).owner@ == owner && repos[i].name@ == name
}

/// Client for the control-plane GitHub integrations API, bound to one
/// client handle.
pub struct IntegrationClient<'a> {
    pub client: &'a LangchainClient,
}

impl<'a> IntegrationClient<'a> {
    /// Create a new IntegrationClient.
    pub fn new(client: &'a LangchainClient) -> (r: Self)
        ensures
            r.client == client,
    {
        Self { client }
    }

    /// The request that lists the workspace's GitHub integrations.
    pub fn list_github_integrations_request(&self) -> (r: Result<HttpRequest, LangstarError>)
        ensures
            self.client.is_control_plane_request(
                Method::Get,
                "/v1/integrations/github/install"@,
                r,
            ),
    {
        self.client.control_plane_get("/v1/integrations/github/install")
    }

    /// The request that lists the repositories one integration can reach.
    pub fn list_github_repositories_request(&self, integration_id: &str) -> (r: Result<
        HttpRequest,
        LangstarError,
    >)
        ensures
            self.client.is_control_plane_request(
                Method::Get,
                "/v1/integrations/github/"@ + integration_id@ + "/repos"@,
                r,
            ),
    {
        let path = "/v1/integrations/github/".to_owned().concat(integration_id).concat("/repos");
        proof {
            assert(path@ =~= "/v1/integrations/github/"@ + integration_id@ + "/repos"@);
        }
        self.client.control_plane_get(path.as_str())
    }
}

/// One step of the discovery walk: whether this integration's repository
/// list contains the target repository. A listing that failed matches
/// nothing and the walk goes on.
pub fn integration_grants_repo(
    repos: &Result<Vec<GitHubRepository>, LangstarError>,
    owner: &str,
    repo: &str,
) -> (r: bool)
    ensures
        match repos {
            Ok(list) => r == repos_contain(list@, owner@, repo@),
            Err(_) => r == false,
        },
{
    match repos {
        Ok(list) => {
            let n = list.len();
            let mut i: usize = 0;
            while i < n
                invariant
                    repos matches Ok(l) && l == *list,
                    n == list@.len(),
                    i <= n,
                    forall|j: int|
                        0 <= j < i ==> !((#[trigger] list@[j]).owner@ == owner@ && list@[j].name@
                            == repo@),
                decreases n - i,
            {
                let entry = &list[i];
                let owner_matches = str_eq(entry.owner.as_str(), owner);
                let name_matches = str_eq(entry.name.as_str(), repo);
                if owner_matches && name_matches {
                    proof {
                        assert(0 <= i < list@.len() && (list@[i as int]).owner@ == owner@ && (
                        list@[i as int]).name@ == repo@);
                    }
                    return true;
                }
                i = i + 1;
            }
            false
        },
        Err(_) => false,
    }
}

/// The error reported when no integration grants access to the target
/// repository: the 404-equivalent the discovery maps exhaustion to.
pub fn integration_not_found_error(owner: &str, repo: &str) -> (e: LangstarError)
    ensures
        e matches LangstarError::ApiError { status, message } && status == 404 && message@
            == "No integration found with access to "@ + owner@ + "/"@ + repo@,
{
    let message = "No integration found with access to ".to_owned().concat(owner).concat(
        "/",
    ).concat(repo);
    proof {
        assert(message@ =~= "No integration found with access to "@ + owner@ + "/"@ + repo@);
    }
    LangstarError::ApiError { status: 404, message }
}

impl LangchainClient {
    /// Get an IntegrationClient bound to this client handle.
    pub fn integrations(&self) -> (r: IntegrationClient<'_>)
        ensures
            r.client == self,
    {
        IntegrationClient::new(self)
    }
}

} // verus!
