//! Deployments managed by the control plane, and the create/wait workflow.
//!
//! Listing builds a query string from the page and the optional filters,
//! each filter independently optional and omitted when absent. The wait
//! workflow is a small polling state machine: poll every 10 seconds for the
//! first 30 seconds, every 30 seconds thereafter, until the deployment is
//! ready, with a hard 30-minute ceiling.

use vstd::prelude::*;

use crate::client::{HttpRequest, LangchainClient, Method};
use crate::error::LangstarError;
use crate::json::{string_object, Json};
use crate::text::{dec_of, str_eq, u32_to_dec};

verus! {

/// A secret environment variable for a deployment.
pub struct DeploymentSecret {
    /// Name of the secret environment variable.
    pub name: String,
    /// Value of the secret.
    pub value: String,
}

/// Source kind of a deployment.
#[derive(Debug, Clone, Copy, PartialEq, Eq, Structural)]
pub enum DeploymentSource {
    /// Built from a GitHub repository.
    Github,
    /// Pulled as an external Docker image.
    ExternalDocker,
    /// Anything the server sends that this client does not know.
    Unknown,
}

/// Current status of a deployment. Unrecognized server values decode to
/// `Unknown` rather than failing, for forward compatibility.
#[derive(Debug, Clone, Copy, PartialEq, Eq, Structural)]
pub enum DeploymentStatus {
    AwaitingDatabase,
    Ready,
    Unused,
    AwaitingDelete,
    Unknown,
}

/// Type of deployment environment.
#[derive(Debug, Clone, Copy, PartialEq, Eq, Structural)]
pub enum DeploymentType {
    /// Free development deployment.
    DevFree,
    /// Paid development deployment.
    Dev,
    /// Production deployment.
    Prod,
}

impl DeploymentSource {
    /// The wire name of each source kind.
    pub open spec fn wire_spec(&self) -> Seq<char> {
        match self {
            DeploymentSource::Github => "github"@,
            DeploymentSource::ExternalDocker => "external_docker"@,
            DeploymentSource::Unknown => "unknown"@,
        }
    }

    /// The source kind a wire name decodes to: anything unrecognized is
    /// `Unknown`.
    pub open spec fn of_wire_spec(s: Seq<char>) -> DeploymentSource {
        if s == "github"@ {
            DeploymentSource::Github
        } else if s == "external_docker"@ {
            DeploymentSource::ExternalDocker
        } else {
            DeploymentSource::Unknown
        }
    }

    /// The wire name of this source kind.
    pub fn wire(&self) -> (r: &'static str)
        ensures
            r@ == self.wire_spec(),
    {
        match self {
            DeploymentSource::Github => "github",
            DeploymentSource::ExternalDocker => "external_docker",
            DeploymentSource::Unknown => "unknown",
        }
    }

    /// Decode a wire name; unrecognized values give `Unknown`.
    pub fn from_wire(s: &str) -> (r: DeploymentSource)
        ensures
            r == DeploymentSource::of_wire_spec(s@),
    {
        if str_eq(s, "github") {
            DeploymentSource::Github
        } else if str_eq(s, "external_docker") {
            DeploymentSource::ExternalDocker
        } else {
            DeploymentSource::Unknown
        }
    }

    /// The display label of each source kind.
    pub open spec fn label_spec(&self) -> Seq<char> {
        match self {
            DeploymentSource::Github => "Github"@,
            DeploymentSource::ExternalDocker => "ExternalDocker"@,
            DeploymentSource::Unknown => "Unknown"@,
        }
    }

    /// The display label of this source kind.
    pub fn label(&self) -> (r: &'static str)
        ensures
            r@ == self.label_spec(),
    {
        match self {
            DeploymentSource::Github => "Github",
            DeploymentSource::ExternalDocker => "ExternalDocker",
            DeploymentSource::Unknown => "Unknown",
        }
    }
}

impl DeploymentStatus {
    /// The wire name of each status.
    pub open spec fn wire_spec(&self) -> Seq<char> {
        match self {
            DeploymentStatus::AwaitingDatabase => "AWAITING_DATABASE"@,
            DeploymentStatus::Ready => "READY"@,
            DeploymentStatus::Unused => "UNUSED"@,
            DeploymentStatus::AwaitingDelete => "AWAITING_DELETE"@,
            DeploymentStatus::Unknown => "UNKNOWN"@,
        }
    }

    /// The status a wire name decodes to: anything unrecognized is
    /// `Unknown`, never a decode failure.
    pub open spec fn of_wire_spec(s: Seq<char>) -> DeploymentStatus {
        if s == "AWAITING_DATABASE"@ {
            DeploymentStatus::AwaitingDatabase
        } else if s == "READY"@ {
            DeploymentStatus::Ready
        } else if s == "UNUSED"@ {
            DeploymentStatus::Unused
        } else if s == "AWAITING_DELETE"@ {
            DeploymentStatus::AwaitingDelete
        } else {
            DeploymentStatus::Unknown
        }
    }

    /// The wire name of this status.
    pub fn wire(&self) -> (r: &'static str)
        ensures
            r@ == self.wire_spec(),
    {
        match self {
            DeploymentStatus::AwaitingDatabase => "AWAITING_DATABASE",
            DeploymentStatus::Ready => "READY",
            DeploymentStatus::Unused => "UNUSED",
            DeploymentStatus::AwaitingDelete => "AWAITING_DELETE",
            DeploymentStatus::Unknown => "UNKNOWN",
        }
    }

    /// Decode a wire name; unrecognized values give `Unknown`.
    pub fn from_wire(s: &str) -> (r: DeploymentStatus)
        ensures
            r == DeploymentStatus::of_wire_spec(s@),
    {
        if str_eq(s, "AWAITING_DATABASE") {
            DeploymentStatus::AwaitingDatabase
        } else if str_eq(s, "READY") {
            DeploymentStatus::Ready
        } else if str_eq(s, "UNUSED") {
            DeploymentStatus::Unused
        } else if str_eq(s, "AWAITING_DELETE") {
            DeploymentStatus::AwaitingDelete
        } else {
            DeploymentStatus::Unknown
        }
    }

    /// The display label of each status.
    pub open spec fn label_spec(&self) -> Seq<char> {
        match self {
            DeploymentStatus::AwaitingDatabase => "AwaitingDatabase"@,
            DeploymentStatus::Ready => "Ready"@,
            DeploymentStatus::Unused => "Unused"@,
            DeploymentStatus::AwaitingDelete => "AwaitingDelete"@,
            DeploymentStatus::Unknown => "Unknown"@,
        }
    }

    /// The display label of this status.
    pub fn label(&self) -> (r: &'static str)
        ensures
            r@ == self.label_spec(),
    {
        match self {
            DeploymentStatus::AwaitingDatabase => "AwaitingDatabase",
            DeploymentStatus::Ready => "Ready",
            DeploymentStatus::Unused => "Unused",
            DeploymentStatus::AwaitingDelete => "AwaitingDelete",
            DeploymentStatus::Unknown => "Unknown",
        }
    }
}

impl DeploymentType {
    /// The wire name of each deployment type.
    pub open spec fn wire_spec(&self) -> Seq<char> {
        match self {
            DeploymentType::DevFree => "dev_free"@,
            DeploymentType::Dev => "dev"@,
            DeploymentType::Prod => "prod"@,
        }
    }

    /// The wire name of this deployment type.
    pub fn wire(&self) -> (r: &'static str)
        ensures
            r@ == self.wire_spec(),
    {
        match self {
            DeploymentType::DevFree => "dev_free",
            DeploymentType::Dev => "dev",
            DeploymentType::Prod => "prod",
        }
    }
}

/// A deployment: a provisioned, independently addressable instance of the
/// graph-runtime.
pub struct Deployment {
    /// Unique identifier (a UUID).
    pub id: String,
    /// User-assigned name.
    pub name: String,
    /// Source kind.
    pub source: DeploymentSource,
    /// Source configuration; may embed a `custom_url` once provisioned.
    pub source_config: Option<Json>,
    /// Source revision configuration.
    pub source_revision_config: Option<Json>,
    /// Environment variable secrets.
    pub secrets: Option<Vec<DeploymentSecret>>,
    /// When the deployment was created.
    pub created_at: String,
    /// When the deployment was last updated.
    pub updated_at: String,
    /// Current status.
    pub status: DeploymentStatus,
    /// ID of the latest revision.
    pub latest_revision_id: Option<String>,
    /// ID of the active revision.
    pub active_revision_id: Option<String>,
    /// Optional image version.
    pub image_version: Option<String>,
}

impl Default for Deployment {
    /// An empty deployment record with unknown source and status.
    fn default() -> (r: Self)
        ensures
            r.id@ == Seq::<char>::empty(),
            r.name@ == Seq::<char>::empty(),
            r.source is Unknown,
            r.source_config is None,
            r.source_revision_config is None,
            r.secrets is None,
            r.created_at@ == Seq::<char>::empty(),
            r.updated_at@ == Seq::<char>::empty(),
            r.status is Unknown,
            r.latest_revision_id is None,
            r.active_revision_id is None,
            r.image_version is None,
    {
        Self {
            id: String::new(),
            name: String::new(),
            source: DeploymentSource::Unknown,
            source_config: None,
            source_revision_config: None,
            secrets: None,
            created_at: String::new(),
            updated_at: String::new(),
            status: DeploymentStatus::Unknown,
            latest_revision_id: None,
            active_revision_id: None,
            image_version: None,
        }
    }
}

impl Deployment {
    /// The custom URL embedded in `source_config`, when the deployment has
    /// provisioned one: absent `source_config`, an absent `custom_url` key
    /// and a null `custom_url` all give nothing.
    pub open spec fn custom_url_spec(&self) -> Option<Seq<char>> {
        match self.source_config {
            Some(cfg) => cfg.str_under("custom_url"@),
            None => None,
        }
    }

    /// Extract the custom URL from the deployment's `source_config`. This
    /// is the address used for assistant calls against this deployment; it
    /// is absent before the deployment finishes provisioning.
    pub fn custom_url(&self) -> (r: Option<String>)
        ensures
            r matches Some(u) ==> self.custom_url_spec() == Some(u@),
            r is None ==> self.custom_url_spec() is None,
    {
        match &self.source_config {
            Some(cfg) => cfg.get_str("custom_url"),
            None => None,
        }
    }
}

/// Response from listing deployments.
pub struct DeploymentsList {
    /// One page of deployments.
    pub resources: Vec<Deployment>,
    /// Offset for pagination.
    pub offset: i32,
}

/// Optional filters for querying deployments; each is omitted from the
/// query string when absent.
pub struct DeploymentFilters {
    /// Substring match on the name.
    pub name_contains: Option<String>,
    /// Match on the status.
    pub status: Option<DeploymentStatus>,
    /// Match on the deployment type.
    pub deployment_type: Option<DeploymentType>,
    /// Match on the image version.
    pub image_version: Option<String>,
}

impl Default for DeploymentFilters {
    /// No filters at all.
    fn default() -> (r: Self)
        ensures
            r.name_contains is None,
            r.status is None,
            r.deployment_type is None,
            r.image_version is None,
    {
        Self { name_contains: None, status: None, deployment_type: None, image_version: None }
    }
}

/// What an application-supplied value becomes inside a URL query string.
/// Percent-encoding depends on the characters alone.
pub uninterp spec fn url_encoded(s: Seq<char>) -> Seq<char>;

/// Relies on urlencoding::encode: percent-encodes every byte except
/// alphanumerics and `-`, `_`, `.`, `~`; the result is a function of the
/// input characters alone.
#[verifier::external_body]
fn encode_component(s: &str) -> (r: String)
    ensures
        r@ == url_encoded(s@),
{
    urlencoding::encode(s).into_owned()
}

/// The page size actually requested: the given limit capped at 100, or the
/// default of 20.
pub open spec fn effective_limit(limit: Option<u32>) -> u32 {
    let l = if limit is Some {
        limit->0
    } else {
        20
    };
    if l > 100 {
        100
    } else {
        l
    }
}

/// The query-string fragment contributed by the optional filters, each
/// field omitted entirely when absent.
pub open spec fn filter_query_spec(filters: Option<DeploymentFilters>) -> Seq<char> {
    match filters {
        None => Seq::empty(),
        Some(f) => {
            let name_part = match f.name_contains {
                Some(n) => "&name_contains="@ + url_encoded(n@),
                None => Seq::empty(),
            };
            let status_part = match f.status {
                Some(s) => "&status="@ + s.wire_spec(),
                None => Seq::empty(),
            };
            let type_part = match f.deployment_type {
                Some(t) => "&deployment_type="@ + t.wire_spec(),
                None => Seq::empty(),
            };
            let image_part = match f.image_version {
                Some(v) => "&image_version="@ + url_encoded(v@),
                None => Seq::empty(),
            };
            name_part + status_part + type_part + image_part
        },
    }
}

/// The full path of the list endpoint for the given page and filters.
pub open spec fn list_path_spec(
    limit: Option<u32>,
    offset: Option<u32>,
    filters: Option<DeploymentFilters>,
) -> Seq<char> {
    "/v2/deployments?limit="@ + dec_of(effective_limit(limit) as int) + "&offset="@ + dec_of(
        (if offset is Some {
            offset->0
        } else {
            0
        }) as int,
    ) + filter_query_spec(filters)
}

/// Request to create a new deployment.
pub struct CreateDeploymentRequest {
    /// Name of the deployment.
    pub name: String,
    /// Source kind wire name ("github" or "external_docker").
    pub source: String,
    /// Source configuration (repository URL, integration, ...).
    pub source_config: Json,
    /// Source revision configuration (branch, config path, ...).
    pub source_revision_config: Json,
    /// Deployment type wire name ("dev_free", "dev" or "prod").
    pub deployment_type: String,
    /// Environment variable secrets.
    pub secrets: Vec<DeploymentSecret>,
    /// Optional plain environment variables.
    pub env_vars: Option<Vec<(String, String)>>,
}

impl CreateDeploymentRequest {
    /// A new request with an empty revision configuration, no secrets and
    /// no environment variables.
    pub fn new(name: String, source: String, source_config: Json, deployment_type: String) -> (r:
        Self)
        ensures
            r.name == name,
            r.source == source,
            r.source_config == source_config,
            r.source_revision_config matches Json::Obj(es) && es@ =~= Seq::<(String, Json)>::empty(),
            r.deployment_type == deployment_type,
            r.secrets@ =~= Seq::<DeploymentSecret>::empty(),
            r.env_vars is None,
    {
        Self {
            name,
            source,
            source_config,
            source_revision_config: Json::Obj(Vec::new()),
            deployment_type,
            secrets: Vec::new(),
            env_vars: None,
        }
    }

    /// Add environment variables, leaving everything else unchanged.
    pub fn with_env_vars(self, env_vars: Vec<(String, String)>) -> (r: Self)
        ensures
            r == (Self { env_vars: Some(env_vars), ..self }),
    {
        Self { env_vars: Some(env_vars), ..self }
    }

    /// Add secrets, leaving everything else unchanged.
    pub fn with_secrets(self, secrets: Vec<DeploymentSecret>) -> (r: Self)
        ensures
            r == (Self { secrets, ..self }),
    {
        Self { secrets, ..self }
    }

    /// Replace the source revision configuration, leaving everything else
    /// unchanged.
    pub fn with_source_revision_config(self, source_revision_config: Json) -> (r: Self)
        ensures
            r == (Self { source_revision_config, ..self }),
    {
        Self { source_revision_config, ..self }
    }
}

/// Whether `v` is the JSON form of one secret: an object with exactly a
/// name and a value.
pub open spec fn secret_json_ok(v: Json, s: DeploymentSecret) -> bool {
    &&& v.keys() =~= seq!["name"@, "value"@]
    &&& v.str_under("name"@) == Some(s.name@)
    &&& v.str_under("value"@) == Some(s.value@)
}

/// Whether `v` is the JSON form of the secrets list, in order.
pub open spec fn secrets_json_ok(v: Json, secrets: Seq<DeploymentSecret>) -> bool {
    match v {
        Json::Arr(items) => {
            &&& items@.len() == secrets.len()
            &&& forall|i: int|
                0 <= i < secrets.len() ==> secret_json_ok(#[trigger] items@[i], secrets[i])
        },
        _ => false,
    }
}

/// Build the JSON form of the secrets list.
fn secrets_array(secrets: Vec<DeploymentSecret>) -> (r: Json)
    ensures
        secrets_json_ok(r, secrets@),
{
    let ghost orig = secrets@;
    let mut input = secrets;
    let mut out: Vec<Json> = Vec::new();
    while input.len() > 0
        invariant
            orig =~= orig.take(out@.len() as int) + input@,
            out@.len() <= orig.len(),
            forall|i: int| 0 <= i < out@.len() ==> secret_json_ok(#[trigger] out@[i], orig[i]),
        decreases input.len(),
    {
        let s = input.remove(0);
        proof {
            assert(s == orig[out@.len() as int]);
        }
        let mut entries: Vec<(String, Json)> = Vec::new();
        entries.push(("name".to_owned(), Json::Str(s.name)));
        entries.push(("value".to_owned(), Json::Str(s.value)));
        let item = Json::Obj(entries);
        proof {
            reveal_strlit("name");
            reveal_strlit("value");
            assert(("name"@).len() == 4);
            assert(("value"@).len() == 5);
            reveal_with_fuel(crate::json::lookup, 4);
            assert(item.keys() =~= seq!["name"@, "value"@]);
        }
        out.push(item);
    }
    proof {
        assert(out@.len() == orig.len());
    }
    Json::Arr(out)
}

/// Client for the control-plane deployments API, bound to one client
/// handle.
pub struct DeploymentClient<'a> {
    pub client: &'a LangchainClient,
}

impl<'a> DeploymentClient<'a> {
    /// Create a new DeploymentClient.
    pub fn new(client: &'a LangchainClient) -> (r: Self)
        ensures
            r.client == client,
    {
        Self { client }
    }

    /// The request that lists a page of deployments. The limit defaults to
    /// 20 and is capped at 100; the offset defaults to 0; each filter field
    /// is appended only when present.
    pub fn list_request(
        &self,
        limit: Option<u32>,
        offset: Option<u32>,
        filters: Option<DeploymentFilters>,
    ) -> (r: Result<HttpRequest, LangstarError>)
        ensures
            self.client.is_control_plane_request(
                Method::Get,
                list_path_spec(limit, offset, filters),
                r,
            ),
    {
        let ghost olimit = limit;
        let ghost ooffset = offset;
        let ghost ofilters = filters;
        let limit_v: u32 = match limit {
            Some(l) => if l > 100 {
                100
            } else {
                l
            },
            None => 20,
        };
        let offset_v: u32 = match offset {
            Some(o) => o,
            None => 0,
        };
        proof {
            assert(limit_v == effective_limit(olimit));
        }
        let mut path = "/v2/deployments?limit=".to_owned().concat(
            u32_to_dec(limit_v).as_str(),
        ).concat("&offset=").concat(u32_to_dec(offset_v).as_str());
        match filters {
            Some(f) => {
                let mut tail = String::new();
                match f.name_contains {
                    Some(n) => {
                        tail = tail.concat("&name_contains=").concat(
                            encode_component(n.as_str()).as_str(),
                        );
                    },
                    None => {},
                }
                match f.status {
                    Some(s) => {
                        tail = tail.concat("&status=").concat(s.wire());
                    },
                    None => {},
                }
                match f.deployment_type {
                    Some(t) => {
                        tail = tail.concat("&deployment_type=").concat(t.wire());
                    },
                    None => {},
                }
                match f.image_version {
                    Some(v) => {
                        tail = tail.concat("&image_version=").concat(
                            encode_component(v.as_str()).as_str(),
                        );
                    },
                    None => {},
                }
                proof {
                    assert(tail@ =~= filter_query_spec(ofilters));
                }
                path = path.concat(tail.as_str());
                proof {
                    assert(path@ =~= list_path_spec(olimit, ooffset, ofilters));
                }
                self.client.control_plane_get(path.as_str())
            },
            None => {
                proof {
                    assert(path@ =~= list_path_spec(olimit, ooffset, ofilters));
                }
                self.client.control_plane_get(path.as_str())
            },
        }
    }

    /// The request that fetches one deployment by ID.
    pub fn get_request(&self, deployment_id: &str) -> (r: Result<HttpRequest, LangstarError>)
        ensures
            self.client.is_control_plane_request(
                Method::Get,
                "/v2/deployments/"@ + deployment_id@,
                r,
            ),
    {
        let path = "/v2/deployments/".to_owned().concat(deployment_id);
        self.client.control_plane_get(path.as_str())
    }

    /// The request that creates a deployment: a POST of the full manifest.
    /// The environment variables are omitted entirely when absent.
    pub fn create_request(&self, request: CreateDeploymentRequest) -> (r: Result<
        HttpRequest,
        LangstarError,
    >)
        ensures
            r is Ok <==> self.client.auth.langsmith_api_key is Some,
            r matches Err(e) ==> e is AuthError,
            r matches Ok(req) ==> {
                &&& self.client.control_plane_sends(Method::Post, "/v2/deployments"@, req)
                &&& req.body matches Some(b) && {
                    &&& b.keys() =~= (if request.env_vars is Some {
                        seq![
                            "name"@,
                            "source"@,
                            "source_config"@,
                            "source_revision_config"@,
                            "deployment_type"@,
                            "secrets"@,
                            "env_vars"@,
                        ]
                    } else {
                        seq![
                            "name"@,
                            "source"@,
                            "source_config"@,
                            "source_revision_config"@,
                            "deployment_type"@,
                            "secrets"@,
                        ]
                    })
                    &&& b.str_under("name"@) == Some(request.name@)
                    &&& b.str_under("source"@) == Some(request.source@)
                    &&& b.get_spec("source_config"@) == Some(request.source_config)
                    &&& b.get_spec("source_revision_config"@) == Some(
                        request.source_revision_config,
                    )
                    &&& b.str_under("deployment_type"@) == Some(request.deployment_type@)
                    &&& (b.get_spec("secrets"@) matches Some(v) && secrets_json_ok(
                        v,
                        request.secrets@,
                    ))
                    &&& (match request.env_vars {
                        Some(env) => b.get_spec("env_vars"@) matches Some(v) && v.str_entries()
                            == Some(env@.map_values(|p: (String, String)| (p.0@, p.1@))),
                        None => !b.keys().contains("env_vars"@),
                    })
                }
            },
    {
        let base = match self.client.control_plane_post("/v2/deployments") {
            Ok(req) => req,
            Err(e) => {
                return Err(e);
            },
        };
        let mut entries: Vec<(String, Json)> = Vec::new();
        entries.push(("name".to_owned(), Json::Str(request.name)));
        entries.push(("source".to_owned(), Json::Str(request.source)));
        entries.push(("source_config".to_owned(), request.source_config));
        entries.push(("source_revision_config".to_owned(), request.source_revision_config));
        entries.push(("deployment_type".to_owned(), Json::Str(request.deployment_type)));
        entries.push(("secrets".to_owned(), secrets_array(request.secrets)));
        match request.env_vars {
            Some(env) => {
                entries.push(("env_vars".to_owned(), string_object(env)));
            },
            None => {},
        }
        let body = Json::Obj(entries);
        proof {
            reveal_strlit("name");
            reveal_strlit("source");
            reveal_strlit("source_config");
            reveal_strlit("source_revision_config");
            reveal_strlit("deployment_type");
            reveal_strlit("secrets");
            reveal_strlit("env_vars");
            assert(("name"@).len() == 4);
            assert(("source"@).len() == 6);
            assert(("source_config"@).len() == 13);
            assert(("source_revision_config"@).len() == 22);
            assert(("deployment_type"@).len() == 15);
            assert(("secrets"@).len() == 7);
            assert(("env_vars"@).len() == 8);
            reveal_with_fuel(crate::json::lookup, 9);
        }
        Ok(base.with_body(body))
    }

    /// The request that deletes one deployment by ID: a hard delete with no
    /// undo.
    pub fn delete_request(&self, deployment_id: &str) -> (r: Result<HttpRequest, LangstarError>)
        ensures
            self.client.is_control_plane_request(
                Method::Delete,
                "/v2/deployments/"@ + deployment_id@,
                r,
            ),
    {
        let path = "/v2/deployments/".to_owned().concat(deployment_id);
        self.client.control_plane_delete(path.as_str())
    }
}

impl LangchainClient {
    /// Get a DeploymentClient bound to this client handle.
    pub fn deployments(&self) -> (r: DeploymentClient<'_>)
        ensures
            r.client == self,
    {
        DeploymentClient::new(self)
    }
}

/// Hard ceiling on the wait-for-ready workflow, in seconds.
pub const WAIT_CEILING_SECS: u64 = 1800;

/// The polling cadence of the wait workflow: every 10 seconds while under
/// 30 seconds of elapsed time, every 30 seconds thereafter.
pub open spec fn poll_interval_spec(elapsed_secs: u64) -> u64 {
    if elapsed_secs < 30 {
        10
    } else {
        30
    }
}

/// Compute the next poll interval from the elapsed wall-clock time.
pub fn poll_interval_secs(elapsed_secs: u64) -> (r: u64)
    ensures
        r == poll_interval_spec(elapsed_secs),
{
    if elapsed_secs < 30 {
        10
    } else {
        30
    }
}

/// What the wait workflow does next.
#[derive(Debug, Clone, Copy, PartialEq, Eq, Structural)]
pub enum WaitDecision {
    /// The deployment is ready: stop successfully.
    Ready,
    /// Sleep this many seconds, then fetch the deployment again.
    Poll(u64),
    /// The ceiling was reached without the deployment becoming ready:
    /// stop with a failure.
    TimedOut,
}

/// One step of the wait-for-ready state machine: ready is terminal, the
/// ceiling is a terminal failure, and everything else polls again on the
/// staged cadence. The caller performs the sleep and the re-fetch.
pub fn wait_step(status: DeploymentStatus, elapsed_secs: u64) -> (r: WaitDecision)
    ensures
        status is Ready ==> r is Ready,
        !(status is Ready) && elapsed_secs >= WAIT_CEILING_SECS ==> r is TimedOut,
        !(status is Ready) && elapsed_secs < WAIT_CEILING_SECS ==> r == WaitDecision::Poll(
            poll_interval_spec(elapsed_secs),
        ),
{
    if matches!(status, DeploymentStatus::Ready) {
        WaitDecision::Ready
    } else if elapsed_secs >= WAIT_CEILING_SECS {
        WaitDecision::TimedOut
    } else {
        WaitDecision::Poll(poll_interval_secs(elapsed_secs))
    }
}

/// Whether a deployment is the one a caller named, by name or by ID.
pub open spec fn matches_target(d: Deployment, target: Seq<char>) -> bool {
    d.name@ == target || d.id@ == target
}

/// The first listed deployment matching the target, if any.
pub open spec fn first_match(ds: Seq<Deployment>, target: Seq<char>) -> Option<Deployment>
    decreases ds.len(),
{
    if ds.len() == 0 {
        None
    } else if matches_target(ds[0], target) {
        Some(ds[0])
    } else {
        first_match(ds.drop_first(), target)
    }
}

proof fn lemma_first_match_from(ds: Seq<Deployment>, target: Seq<char>, i: int)
    requires
        0 <= i <= ds.len(),
        forall|j: int| 0 <= j < i ==> !matches_target(#[trigger] ds[j], target),
    ensures
        first_match(ds, target) == first_match(ds.skip(i), target),
    decreases i,
{
    if i > 0 {
        lemma_first_match_from(ds.drop_first(), target, i - 1);
        assert(ds.drop_first().skip(i - 1) =~= ds.skip(i));
    } else {
        assert(ds.skip(0) =~= ds);
    }
}

/// Resolve a deployment name or ID to the deployment's custom URL: find
/// the first deployment in the fetched page whose name or ID matches, then
/// extract the custom URL from its source configuration. Both missing
/// deployment and missing URL are configuration errors that name the
/// culprit.
pub fn resolve_deployment_url(deployments: &Vec<Deployment>, target: &str) -> (r: Result<
    String,
    LangstarError,
>)
    ensures
        match first_match(deployments@, target@) {
            None => r matches Err(e) && e matches LangstarError::ConfigError(m) && m@
                == "Deployment '"@ + target@
                + "' not found. Run 'langstar graph list' to see available deployments."@,
            Some(d) => match d.custom_url_spec() {
                Some(u) => r matches Ok(url) && url@ == u,
                None => r matches Err(e) && e matches LangstarError::ConfigError(m) && m@
                    == "Deployment '"@ + d.name@ + "' has no custom_url in source_config"@,
            },
        },
{
    let n = deployments.len();
    let mut i: usize = 0;
    while i < n
        invariant
            n == deployments@.len(),
            i <= n,
            forall|j: int| 0 <= j < i ==> !matches_target(#[trigger] deployments@[j], target@),
        decreases n - i,
    {
        let d = &deployments[i];
        let name_matches = str_eq(d.name.as_str(), target);
        let id_matches = str_eq(d.id.as_str(), target);
        if name_matches || id_matches {
            proof {
                lemma_first_match_from(deployments@, target@, i as int);
                let rest = deployments@.skip(i as int);
                assert(rest[0] == deployments@[i as int]);
                assert(first_match(rest, target@) == Some(deployments@[i as int]));
            }
            match d.custom_url() {
                Some(url) => {
                    return Ok(url);
                },
                None => {
                    let msg = "Deployment '".to_owned().concat(d.name.as_str()).concat(
                        "' has no custom_url in source_config",
                    );
                    proof {
                        assert(msg@ =~= "Deployment '"@ + d.name@
                            + "' has no custom_url in source_config"@);
                    }
                    return Err(LangstarError::ConfigError(msg));
                },
            }
        }
        i = i + 1;
    }
    proof {
        lemma_first_match_from(deployments@, target@, n as int);
        assert(deployments@.skip(n as int) =~= Seq::<Deployment>::empty());
    }
    let msg = "Deployment '".to_owned().concat(target).concat(
        "' not found. Run 'langstar graph list' to see available deployments.",
    );
    proof {
        assert(msg@ =~= "Deployment '"@ + target@
            + "' not found. Run 'langstar graph list' to see available deployments."@);
    }
    Err(LangstarError::ConfigError(msg))
}

} // verus!
