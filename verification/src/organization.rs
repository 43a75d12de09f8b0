//! Organizations and workspaces of the prompt-hub.
//!
//! The current organization is fetched opportunistically before a prompt
//! push when the caller supplied no organization scope; a failure there is
//! non-fatal and the push proceeds without the header.

use vstd::prelude::*;

use crate::client::{HttpRequest, LangchainClient, Method};
use crate::error::LangstarError;

verus! {

/// Organization information.
pub struct Organization {
    /// Organization ID (a UUID).
    pub id: Option<String>,
    /// Display name of the organization.
    pub display_name: Option<String>,
    /// Whether this is a personal organization.
    pub is_personal: bool,
    /// Organization handle.
    pub handle: Option<String>,
}

/// Workspace information. Workspaces are nested under organizations and
/// scope resources more narrowly.
pub struct Workspace {
    /// Workspace ID (a UUID).
    pub id: String,
    /// Display name of the workspace.
    pub display_name: Option<String>,
    /// The organization this workspace belongs to.
    pub organization_id: Option<String>,
    /// Workspace handle.
    pub handle: Option<String>,
}

impl LangchainClient {
    /// The request that fetches the caller's current organization.
    pub fn get_current_organization_request(&self) -> (r: Result<HttpRequest, LangstarError>)
        ensures
            self.is_langsmith_request(Method::Get, "/api/v1/orgs/current"@, r),
    {
        self.langsmith_get("/api/v1/orgs/current")
    }

    /// The request that lists the workspaces accessible in the current
    /// organization context.
    pub fn get_workspaces_request(&self) -> (r: Result<HttpRequest, LangstarError>)
        ensures
            self.is_langsmith_request(Method::Get, "/api/v1/workspaces"@, r),
    {
        self.langsmith_get("/api/v1/workspaces")
    }

    /// Whether the organization should be fetched before a push: only when
    /// neither an explicit flag nor the client's own scope supplies one.
    pub fn should_fetch_organization(&self, flag_org_id: &Option<String>) -> (r: bool)
        ensures
            r == (flag_org_id is None && self.organization_id is None),
    {
        let flag_absent = match flag_org_id {
            Some(_) => false,
            None => true,
        };
        let client_absent = match &self.organization_id {
            Some(_) => false,
            None => true,
        };
        flag_absent && client_absent
    }

    /// Adopt the organization scope from a fetched organization, when it
    /// carries an ID; a fetched organization without one changes nothing.
    pub fn adopt_organization(self, org: &Organization) -> (r: Self)
        ensures
            org.id matches Some(id) ==> r == (Self {
                organization_id: Some(id),
                ..self
            }),
            org.id is None ==> r == self,
    {
        match &org.id {
            Some(id) => {
                let id_copy = id.clone();
                self.with_organization_id(id_copy)
            },
            None => self,
        }
    }
}

} // verus!
