//! The command layer's decisions.
//!
//! The command enums describe what the user asked for; the functions here
//! make every decision a command takes that does not itself touch the
//! network: scope overrides, visibility defaults, filter and environment
//! parsing, integration-ID precedence, request assembly for deployment
//! creation, confirmation prompts, and the manifest built for a prompt
//! push. The caller performs the I/O around them.

use vstd::prelude::*;

use crate::client::LangchainClient;
use crate::deployments::{
    CreateDeploymentRequest, Deployment, DeploymentFilters, DeploymentStatus, DeploymentType,
};
use crate::error::LangstarError;
use crate::json::{string_array, Json};
use crate::prompts::Visibility;
use crate::text::{
    has_char, lower, prefix_to, str_eq, take_until, to_ascii_lower, to_ascii_upper, trim, trimmed,
    upper,
};

verus! {

/// Commands on prompts.
pub enum PromptCommands {
    /// List prompts.
    List {
        limit: u32,
        offset: u32,
        organization_id: Option<String>,
        workspace_id: Option<String>,
        public: bool,
    },
    /// Get one prompt by handle.
    Get { handle: String, organization_id: Option<String>, workspace_id: Option<String> },
    /// Search prompts.
    Search {
        query: String,
        limit: u32,
        organization_id: Option<String>,
        workspace_id: Option<String>,
        public: bool,
    },
    /// Push a prompt commit.
    Push {
        owner: String,
        repo: String,
        template: String,
        input_variables: Option<String>,
        template_format: String,
        organization_id: Option<String>,
        workspace_id: Option<String>,
    },
}

/// Commands on assistants. Every one is aimed at a named deployment.
pub enum AssistantCommands {
    /// List assistants in a deployment.
    List { deployment: String, limit: u32, offset: u32 },
    /// Search assistants by name.
    Search { deployment: String, query: String, limit: u32 },
    /// Get one assistant by ID.
    Get { deployment: String, assistant_id: String },
    /// Create an assistant.
    Create {
        deployment: String,
        graph_id: String,
        name: String,
        config_file: Option<String>,
        config: Option<String>,
    },
    /// Update an assistant.
    Update {
        deployment: String,
        assistant_id: String,
        name: Option<String>,
        config_file: Option<String>,
        config: Option<String>,
    },
    /// Delete an assistant.
    Delete { deployment: String, assistant_id: String, force: bool },
}

/// Commands on deployments.
pub enum GraphCommands {
    /// List deployments.
    List {
        limit: u32,
        offset: u32,
        deployment_type: Option<String>,
        status: Option<String>,
        name_contains: Option<String>,
    },
    /// Get one deployment by ID.
    Get { deployment_id: String },
    /// Create a deployment.
    Create {
        name: String,
        source: String,
        repo_url: Option<String>,
        branch: Option<String>,
        integration_id: Option<String>,
        config_path: String,
        image_uri: Option<String>,
        deployment_type: String,
        env: Vec<String>,
        wait: bool,
    },
    /// Delete a deployment.
    Delete { deployment_id: String, yes: bool },
}

impl PromptCommands {
    /// Apply per-call organization and workspace overrides: a flag wins
    /// over whatever the client already resolved; an absent flag changes
    /// nothing. The original client value is left untouched.
    pub fn apply_scoping(
        client: LangchainClient,
        flag_org_id: &Option<String>,
        flag_workspace_id: &Option<String>,
    ) -> (r: LangchainClient)
        ensures
            (match flag_org_id {
                Some(o) => r.organization_id == Some(*o),
                None => r.organization_id == client.organization_id,
            }),
            (match flag_workspace_id {
                Some(w) => r.workspace_id == Some(*w),
                None => r.workspace_id == client.workspace_id,
            }),
            r.auth == client.auth,
            r.langsmith_base_url == client.langsmith_base_url,
            r.langgraph_base_url == client.langgraph_base_url,
            r.control_plane_base_url == client.control_plane_base_url,
    {
        let mut client = client;
        if let Some(org_id) = flag_org_id {
            client = client.with_organization_id(org_id.clone());
        }
        if let Some(workspace_id) = flag_workspace_id {
            client = client.with_workspace_id(workspace_id.clone());
        }
        client
    }

    /// Whether both scope flags were given at once; the caller then warns
    /// that the workspace is the narrower scope.
    pub fn both_scope_flags(flag_org_id: &Option<String>, flag_workspace_id: &Option<String>) -> (r:
        bool)
        ensures
            r == (flag_org_id is Some && flag_workspace_id is Some),
    {
        let org = match flag_org_id {
            Some(_) => true,
            None => false,
        };
        let ws = match flag_workspace_id {
            Some(_) => true,
            None => false,
        };
        org && ws
    }

    /// Whether the client ended up with both scopes from implicit sources
    /// alone (no flag given); the caller then emits the one-line advisory.
    pub fn both_scopes_configured(
        client: &LangchainClient,
        flag_org_id: &Option<String>,
        flag_workspace_id: &Option<String>,
    ) -> (r: bool)
        ensures
            r == (client.organization_id is Some && client.workspace_id is Some && flag_org_id
                is None && flag_workspace_id is None),
    {
        let org = match &client.organization_id {
            Some(_) => true,
            None => false,
        };
        let ws = match &client.workspace_id {
            Some(_) => true,
            None => false,
        };
        let no_org_flag = match flag_org_id {
            Some(_) => false,
            None => true,
        };
        let no_ws_flag = match flag_workspace_id {
            Some(_) => false,
            None => true,
        };
        org && ws && no_org_flag && no_ws_flag
    }

    /// The visibility a listing runs with: private by default when the
    /// client is scoped, public there only on request, and everything
    /// when no scope is set at all.
    pub fn determine_visibility(client: &LangchainClient, public_flag: bool) -> (r: Visibility)
        ensures
            r == (if client.organization_id is Some || client.workspace_id is Some {
                if public_flag {
                    Visibility::Public
                } else {
                    Visibility::Private
                }
            } else {
                Visibility::Any
            }),
    {
        let scoped = {
            let org = match &client.organization_id {
                Some(_) => true,
                None => false,
            };
            let ws = match &client.workspace_id {
                Some(_) => true,
                None => false,
            };
            org || ws
        };
        if scoped {
            if public_flag {
                Visibility::Public
            } else {
                Visibility::Private
            }
        } else {
            Visibility::Any
        }
    }
}

/// The comma-separated parts of a string, each trimmed of surrounding
/// whitespace. A string without commas is one part; every comma separates
/// two parts, so consecutive commas contribute empty parts.
pub open spec fn csv_parts(s: Seq<char>) -> Seq<Seq<char>>
    decreases s.len(),
    via csv_parts_decreases
{
    if !has_char(s, ',') {
        seq![trimmed(s)]
    } else {
        seq![trimmed(prefix_to(s, ','))] + csv_parts(
            s.skip(prefix_to(s, ',').len() as int + 1),
        )
    }
}

#[via_fn]
proof fn csv_parts_decreases(s: Seq<char>) {
    crate::text::lemma_prefix_to_bounds(s, ',');
}

/// Split a comma-separated list, trimming each part.
pub fn split_csv_trimmed(s: &str) -> (r: Vec<String>)
    ensures
        r@.map_values(|p: String| p@) == csv_parts(s@),
{
    let mut parts: Vec<String> = Vec::new();
    let mut rest: String = s.to_owned();
    let ghost full = s@;
    loop
        invariant_except_break
            csv_parts(full) == parts@.map_values(|p: String| p@) + csv_parts(rest@),
        ensures
            csv_parts(full) == parts@.map_values(|p: String| p@),
        decreases rest@.len(),
    {
        let part = take_until(rest.as_str(), ',');
        let k = part.as_str().unicode_len();
        let n = rest.as_str().unicode_len();
        let trimmed_part = trim(part.as_str());
        let ghost old_parts = parts@;
        let ghost old_rest = rest@;
        parts.push(trimmed_part);
        proof {
            crate::text::lemma_prefix_to_bounds(old_rest, ',');
            assert(parts@.map_values(|p: String| p@) =~= old_parts.map_values(|p: String| p@)
                .push(trimmed(prefix_to(old_rest, ','))));
        }
        if k >= n {
            proof {
                assert(!has_char(old_rest, ','));
                assert(csv_parts(old_rest) =~= seq![trimmed(prefix_to(old_rest, ','))]) by {
                    assert(prefix_to(old_rest, ',') == old_rest) by {
                        crate::text::lemma_prefix_to_bounds(old_rest, ',');
                    }
                }
                assert(old_parts.map_values(|p: String| p@) + csv_parts(old_rest)
                    =~= parts@.map_values(|p: String| p@));
            }
            break;
        }
        proof {
            assert(has_char(old_rest, ',')) by {
                assert(old_rest[k as int] == ',');
            }
        }
        rest = rest.as_str().substring_char(k + 1, n).to_owned();
        proof {
            assert(rest@ == old_rest.skip(prefix_to(old_rest, ',').len() as int + 1));
            assert(csv_parts(old_rest) =~= seq![trimmed(prefix_to(old_rest, ','))] + csv_parts(
                rest@,
            ));
            assert(old_parts.map_values(|p: String| p@) + csv_parts(old_rest) =~= parts@.map_values(
                |p: String| p@,
            ) + csv_parts(rest@));
        }
    }
    parts
}

impl GraphCommands {
    /// Parse a status filter given on the command line, ignoring ASCII
    /// case; anything unrecognized is a configuration error naming the
    /// valid values. (Contrast with decoding a response, where an unknown
    /// status becomes `Unknown`.)
    pub fn parse_status_filter(s: &str) -> (r: Result<DeploymentStatus, LangstarError>)
        ensures
            upper(s@) == "READY"@ ==> r == Ok::<DeploymentStatus, LangstarError>(
                DeploymentStatus::Ready,
            ),
            upper(s@) == "AWAITING_DATABASE"@ ==> r == Ok::<DeploymentStatus, LangstarError>(
                DeploymentStatus::AwaitingDatabase,
            ),
            upper(s@) == "UNUSED"@ ==> r == Ok::<DeploymentStatus, LangstarError>(
                DeploymentStatus::Unused,
            ),
            upper(s@) == "AWAITING_DELETE"@ ==> r == Ok::<DeploymentStatus, LangstarError>(
                DeploymentStatus::AwaitingDelete,
            ),
            upper(s@) == "UNKNOWN"@ ==> r == Ok::<DeploymentStatus, LangstarError>(
                DeploymentStatus::Unknown,
            ),
            upper(s@) != "READY"@ && upper(s@) != "AWAITING_DATABASE"@ && upper(s@) != "UNUSED"@
                && upper(s@) != "AWAITING_DELETE"@ && upper(s@) != "UNKNOWN"@ ==> (r matches Err(e)
                && e matches LangstarError::ConfigError(m) && m@ == "Invalid status: "@ + s@
                + ". Valid values: READY, AWAITING_DATABASE, UNUSED, AWAITING_DELETE, UNKNOWN"@),
    {
        proof {
            reveal_strlit("READY");
            reveal_strlit("AWAITING_DATABASE");
            reveal_strlit("UNUSED");
            reveal_strlit("AWAITING_DELETE");
            reveal_strlit("UNKNOWN");
            assert(("READY"@).len() == 5);
            assert(("AWAITING_DATABASE"@).len() == 17);
            assert(("UNUSED"@).len() == 6);
            assert(("AWAITING_DELETE"@).len() == 15);
            assert(("UNKNOWN"@).len() == 7);
        }
        let uppered = to_ascii_upper(s);
        if str_eq(uppered.as_str(), "READY") {
            Ok(DeploymentStatus::Ready)
        } else if str_eq(uppered.as_str(), "AWAITING_DATABASE") {
            Ok(DeploymentStatus::AwaitingDatabase)
        } else if str_eq(uppered.as_str(), "UNUSED") {
            Ok(DeploymentStatus::Unused)
        } else if str_eq(uppered.as_str(), "AWAITING_DELETE") {
            Ok(DeploymentStatus::AwaitingDelete)
        } else if str_eq(uppered.as_str(), "UNKNOWN") {
            Ok(DeploymentStatus::Unknown)
        } else {
            let msg = "Invalid status: ".to_owned().concat(s).concat(
                ". Valid values: READY, AWAITING_DATABASE, UNUSED, AWAITING_DELETE, UNKNOWN",
            );
            proof {
                assert(msg@ =~= "Invalid status: "@ + s@
                    + ". Valid values: READY, AWAITING_DATABASE, UNUSED, AWAITING_DELETE, UNKNOWN"@);
            }
            Err(LangstarError::ConfigError(msg))
        }
    }

    /// Parse a deployment-type filter given on the command line, ignoring
    /// ASCII case; anything unrecognized is a configuration error naming
    /// the valid values.
    pub fn parse_deployment_type_filter(s: &str) -> (r: Result<DeploymentType, LangstarError>)
        ensures
            lower(s@) == "dev_free"@ ==> r == Ok::<DeploymentType, LangstarError>(
                DeploymentType::DevFree,
            ),
            lower(s@) == "dev"@ ==> r == Ok::<DeploymentType, LangstarError>(DeploymentType::Dev),
            lower(s@) == "prod"@ ==> r == Ok::<DeploymentType, LangstarError>(DeploymentType::Prod),
            lower(s@) != "dev_free"@ && lower(s@) != "dev"@ && lower(s@) != "prod"@ ==> (r matches
                Err(e) && e matches LangstarError::ConfigError(m) && m@
                == "Invalid deployment type: "@ + s@ + ". Valid values: dev_free, dev, prod"@),
    {
        proof {
            reveal_strlit("dev_free");
            reveal_strlit("dev");
            reveal_strlit("prod");
            assert(("dev_free"@).len() == 8);
            assert(("dev"@).len() == 3);
            assert(("prod"@).len() == 4);
        }
        let lowered = to_ascii_lower(s);
        if str_eq(lowered.as_str(), "dev_free") {
            Ok(DeploymentType::DevFree)
        } else if str_eq(lowered.as_str(), "dev") {
            Ok(DeploymentType::Dev)
        } else if str_eq(lowered.as_str(), "prod") {
            Ok(DeploymentType::Prod)
        } else {
            let msg = "Invalid deployment type: ".to_owned().concat(s).concat(
                ". Valid values: dev_free, dev, prod",
            );
            proof {
                assert(msg@ =~= "Invalid deployment type: "@ + s@
                    + ". Valid values: dev_free, dev, prod"@);
            }
            Err(LangstarError::ConfigError(msg))
        }
    }

    /// The filter bundle a listing sends: nothing at all when no filter
    /// field was given.
    pub fn build_filters(
        name_contains: Option<String>,
        status: Option<DeploymentStatus>,
        deployment_type: Option<DeploymentType>,
    ) -> (r: Option<DeploymentFilters>)
        ensures
            (name_contains is None && status is None && deployment_type is None) ==> r is None,
            !(name_contains is None && status is None && deployment_type is None) ==> (r matches
                Some(f) && f.name_contains == name_contains && f.status == status
                && f.deployment_type == deployment_type && f.image_version is None),
    {
        let any = {
            let n = match &name_contains {
                Some(_) => true,
                None => false,
            };
            let s = match &status {
                Some(_) => true,
                None => false,
            };
            let t = match &deployment_type {
                Some(_) => true,
                None => false,
            };
            n || s || t
        };
        if any {
            Some(
                DeploymentFilters {
                    name_contains,
                    status,
                    deployment_type,
                    image_version: None,
                },
            )
        } else {
            None
        }
    }

    /// Parse KEY=VALUE environment variable arguments: each argument is
    /// split at its first '='; an argument without one is a configuration
    /// error naming it.
    pub fn parse_env_pairs(env: &Vec<String>) -> (r: Result<
        Vec<(String, String)>,
        LangstarError,
    >)
        ensures
            r matches Ok(pairs) ==> {
                &&& forall|i: int| 0 <= i < env@.len() ==> has_char((#[trigger] env@[i])@, '=')
                &&& pairs@.len() == env@.len()
                &&& forall|i: int|
                    0 <= i < env@.len() ==> (#[trigger] pairs@[i]).0@ == prefix_to(env@[i]@, '=')
                        && pairs@[i].1@ == env@[i]@.skip(prefix_to(env@[i]@, '=').len() as int + 1)
            },
            r matches Err(e) ==> (e matches LangstarError::ConfigError(m) && exists|i: int|
                0 <= i < env@.len() && !has_char((#[trigger] env@[i])@, '=') && m@
                    == "Invalid environment variable format: "@ + env@[i]@ + ". Expected KEY=VALUE"@),
    {
        let mut pairs: Vec<(String, String)> = Vec::new();
        let mut i: usize = 0;
        while i < env.len()
            invariant
                i <= env@.len(),
                pairs@.len() == i,
                forall|j: int| 0 <= j < i ==> has_char((#[trigger] env@[j])@, '='),
                forall|j: int|
                    0 <= j < i ==> (#[trigger] pairs@[j]).0@ == prefix_to(env@[j]@, '=')
                        && pairs@[j].1@ == env@[j]@.skip(prefix_to(env@[j]@, '=').len() as int + 1),
            decreases env@.len() - i,
        {
            let item = &env[i];
            let key = take_until(item.as_str(), '=');
            let k = key.as_str().unicode_len();
            let n = item.as_str().unicode_len();
            proof {
                crate::text::lemma_prefix_to_bounds(item@, '=');
            }
            if k >= n {
                proof {
                    assert(!has_char(item@, '='));
                }
                let msg = "Invalid environment variable format: ".to_owned().concat(
                    item.as_str(),
                ).concat(". Expected KEY=VALUE");
                proof {
                    assert(msg@ =~= "Invalid environment variable format: "@ + env@[i as int]@
                        + ". Expected KEY=VALUE"@);
                    assert(!has_char((env@[i as int])@, '='));
                }
                return Err(LangstarError::ConfigError(msg));
            }
            let value = item.as_str().substring_char(k + 1, n).to_owned();
            proof {
                assert(has_char(item@, '=')) by {
                    assert(item@[k as int] == '=');
                }
            }
            pairs.push((key, value));
            i = i + 1;
        }
        Ok(pairs)
    }

    /// Whether a deployment deletion goes ahead: either the prompt was
    /// skipped with the explicit flag, or the user typed an affirmative
    /// answer ("yes", in any ASCII case, surrounding whitespace ignored).
    /// Declining is a successful no-op, not an error.
    pub fn should_delete(yes_flag: bool, answer: &str) -> (r: bool)
        ensures
            r == (yes_flag || lower(trimmed(answer@)) == "yes"@),
    {
        if yes_flag {
            true
        } else {
            let normalized = to_ascii_lower(trim(answer).as_str());
            str_eq(normalized.as_str(), "yes")
        }
    }
}

/// Where the GitHub integration ID for a new deployment comes from: the
/// explicit flag wins, then the configured value, and only with neither
/// present is discovery from existing deployments attempted.
pub enum IntegrationChoice {
    /// The command-line flag supplied it.
    FromFlag(String),
    /// The configuration (file or environment) supplied it.
    FromConfig(String),
    /// Neither did: discover it from existing deployments.
    Discover,
}

impl GraphCommands {
    /// Decide where the integration ID comes from, by precedence: flag
    /// over configuration over discovery.
    pub fn choose_integration_id(flag: Option<String>, configured: Option<String>) -> (r:
        IntegrationChoice)
        ensures
            flag matches Some(v) ==> r == IntegrationChoice::FromFlag(v),
            flag is None && configured is Some ==> r == IntegrationChoice::FromConfig(
                configured->0,
            ),
            flag is None && configured is None ==> r is Discover,
    {
        match flag {
            Some(v) => IntegrationChoice::FromFlag(v),
            None => match configured {
                Some(v) => IntegrationChoice::FromConfig(v),
                None => IntegrationChoice::Discover,
            },
        }
    }
}

/// Whether a listed deployment can supply an integration ID: a GitHub
/// deployment that carries a source configuration.
pub open spec fn github_candidate(d: Deployment) -> bool {
    d.source is Github && d.source_config is Some
}

/// The first GitHub deployment with a source configuration, if any.
pub open spec fn first_github_candidate(ds: Seq<Deployment>) -> Option<Deployment>
    decreases ds.len(),
{
    if ds.len() == 0 {
        None
    } else if github_candidate(ds[0]) {
        Some(ds[0])
    } else {
        first_github_candidate(ds.drop_first())
    }
}

proof fn lemma_first_github_from(ds: Seq<Deployment>, i: int)
    requires
        0 <= i <= ds.len(),
        forall|j: int| 0 <= j < i ==> !github_candidate(#[trigger] ds[j]),
    ensures
        first_github_candidate(ds) == first_github_candidate(ds.skip(i)),
    decreases i,
{
    if i > 0 {
        lemma_first_github_from(ds.drop_first(), i - 1);
        assert(ds.drop_first().skip(i - 1) =~= ds.skip(i));
    } else {
        assert(ds.skip(0) =~= ds);
    }
}

impl GraphCommands {
    /// Discover the integration ID from existing deployments: the first
    /// GitHub deployment with a source configuration supplies it; one
    /// without an `integration_id` entry there, or no such deployment at
    /// all, is a configuration error telling the user what to do.
    pub fn discover_integration_id(deployments: &Vec<Deployment>) -> (r: Result<
        String,
        LangstarError,
    >)
        ensures
            (match first_github_candidate(deployments@) {
                Some(d) => match d.source_config->0.str_under("integration_id"@) {
                    Some(id) => r matches Ok(s) && s@ == id,
                    None => r matches Err(e) && e matches LangstarError::ConfigError(m) && m@
                        == "Found GitHub deployment but integration_id is missing from source_config"@,
                },
                None => r matches Err(e) && e matches LangstarError::ConfigError(m) && m@
                    == "GitHub integration ID not found. Please provide it via:\n1. CLI flag: --integration-id <your-integration-id>\n2. Environment variable: LANGGRAPH_GITHUB_INTEGRATION_ID=<your-integration-id>\n3. Config file: github_integration_id = \"<your-integration-id>\"\n\nTo get your integration ID:\n1. Log in to LangSmith UI (https://smith.langchain.com/)\n2. Navigate to Deployments → + New Deployment\n3. Click 'Import from GitHub' and authorize the 'hosted-langserve' GitHub app\n4. After setup, you can find your integration ID in existing deployment configs"@,
            }),
    {
        let n = deployments.len();
        let mut i: usize = 0;
        while i < n
            invariant
                n == deployments@.len(),
                i <= n,
                forall|j: int| 0 <= j < i ==> !github_candidate(#[trigger] deployments@[j]),
            decreases n - i,
        {
            let d = &deployments[i];
            let is_github = matches!(d.source, crate::deployments::DeploymentSource::Github);
            let has_config = match &d.source_config {
                Some(_) => true,
                None => false,
            };
            if is_github && has_config {
                proof {
                    lemma_first_github_from(deployments@, i as int);
                    let rest = deployments@.skip(i as int);
                    assert(rest[0] == deployments@[i as int]);
                    assert(first_github_candidate(rest) == Some(deployments@[i as int]));
                }
                match &d.source_config {
                    Some(cfg) => {
                        match cfg.get_str("integration_id") {
                            Some(id) => {
                                return Ok(id);
                            },
                            None => {
                                return Err(
                                    LangstarError::ConfigError(
                                        "Found GitHub deployment but integration_id is missing from source_config".to_owned(),
                                    ),
                                );
                            },
                        }
                    },
                    None => {
                        proof {
                            assert(false);
                        }
                    },
                }
            }
            i = i + 1;
        }
        proof {
            lemma_first_github_from(deployments@, n as int);
            assert(deployments@.skip(n as int) =~= Seq::<Deployment>::empty());
        }
        Err(
            LangstarError::ConfigError(
                "GitHub integration ID not found. Please provide it via:\n1. CLI flag: --integration-id <your-integration-id>\n2. Environment variable: LANGGRAPH_GITHUB_INTEGRATION_ID=<your-integration-id>\n3. Config file: github_integration_id = \"<your-integration-id>\"\n\nTo get your integration ID:\n1. Log in to LangSmith UI (https://smith.langchain.com/)\n2. Navigate to Deployments → + New Deployment\n3. Click 'Import from GitHub' and authorize the 'hosted-langserve' GitHub app\n4. After setup, you can find your integration ID in existing deployment configs".to_owned(),
            ),
        )
    }
}

impl AssistantCommands {
    /// The deployment every assistant command is aimed at.
    pub fn deployment(&self) -> (r: &String)
        ensures
            (match self {
                AssistantCommands::List { deployment, .. } => r == deployment,
                AssistantCommands::Search { deployment, .. } => r == deployment,
                AssistantCommands::Get { deployment, .. } => r == deployment,
                AssistantCommands::Create { deployment, .. } => r == deployment,
                AssistantCommands::Update { deployment, .. } => r == deployment,
                AssistantCommands::Delete { deployment, .. } => r == deployment,
            }),
    {
        match self {
            AssistantCommands::List { deployment, .. } => deployment,
            AssistantCommands::Search { deployment, .. } => deployment,
            AssistantCommands::Get { deployment, .. } => deployment,
            AssistantCommands::Create { deployment, .. } => deployment,
            AssistantCommands::Update { deployment, .. } => deployment,
            AssistantCommands::Delete { deployment, .. } => deployment,
        }
    }

    /// Demand the deployment target before anything else runs: an
    /// assistant command without one fails here, before any request is
    /// even built.
    pub fn require_deployment(deployment: Option<String>) -> (r: Result<String, LangstarError>)
        ensures
            deployment matches Some(d) ==> r == Ok::<String, LangstarError>(d),
            deployment is None ==> (r matches Err(e) && e matches LangstarError::ConfigError(m)
                && m@ == "a deployment must be named with --deployment <name-or-id>"@),
    {
        match deployment {
            Some(d) => Ok(d),
            None => Err(
                LangstarError::ConfigError(
                    "a deployment must be named with --deployment <name-or-id>".to_owned(),
                ),
            ),
        }
    }

    /// Whether an assistant deletion goes ahead: either the prompt was
    /// skipped with the force flag, or the user answered "y" or "yes" (in
    /// any ASCII case, surrounding whitespace ignored). Declining is a
    /// successful no-op.
    pub fn should_delete(force: bool, answer: &str) -> (r: bool)
        ensures
            r == (force || lower(trimmed(answer@)) == "y"@ || lower(trimmed(answer@)) == "yes"@),
    {
        if force {
            true
        } else {
            let normalized = to_ascii_lower(trim(answer).as_str());
            let is_y = str_eq(normalized.as_str(), "y");
            let is_yes = str_eq(normalized.as_str(), "yes");
            is_y || is_yes
        }
    }
}

impl PromptCommands {
    /// The manifest a prompt push sends: the template, its comma-separated
    /// input variables (each trimmed), and the template format.
    pub fn build_prompt_manifest(
        template: &str,
        input_variables: &Option<String>,
        template_format: &str,
    ) -> (r: Json)
        ensures
            r.keys() =~= seq!["type"@, "template"@, "input_variables"@, "template_format"@],
            r.str_under("type"@) == Some("prompt"@),
            r.str_under("template"@) == Some(template@),
            (match input_variables {
                Some(vars) => r.strings_under("input_variables"@) == Some(csv_parts(vars@)),
                None => r.strings_under("input_variables"@) == Some(Seq::<Seq<char>>::empty()),
            }),
            r.str_under("template_format"@) == Some(template_format@),
    {
        let vars: Vec<String> = match input_variables {
            Some(vars_str) => split_csv_trimmed(vars_str.as_str()),
            None => Vec::new(),
        };
        let mut entries: Vec<(String, Json)> = Vec::new();
        entries.push(("type".to_owned(), Json::Str("prompt".to_owned())));
        entries.push(("template".to_owned(), Json::Str(template.to_owned())));
        entries.push(("input_variables".to_owned(), string_array(vars)));
        entries.push(("template_format".to_owned(), Json::Str(template_format.to_owned())));
        let r = Json::Obj(entries);
        proof {
            reveal_strlit("type");
            reveal_strlit("template");
            reveal_strlit("input_variables");
            reveal_strlit("template_format");
            assert(("type"@).len() == 4);
            assert(("template"@).len() == 8);
            assert(("input_variables"@).len() == 15);
            assert(("template_format"@).len() == 15);
            assert(("input_variables"@)[0] == 'i');
            assert(("template_format"@)[0] == 't');
            assert("input_variables"@ != "template_format"@);
            reveal_with_fuel(crate::json::lookup, 6);
        }
        r
    }
}

impl GraphCommands {
    /// Assemble the full deployment-creation request. For a GitHub source
    /// the repository URL and branch are demanded and the source
    /// configuration carries the integration ID, the repository, the
    /// deployment type and the fixed provisioning fields, with the branch
    /// and the configuration path in the revision configuration; for an
    /// external Docker source the image is demanded and named; any other
    /// source kind is rejected. Parsed environment variables ride along
    /// only when there are any.
    pub fn build_create_request(
        name: &str,
        source: &str,
        repo_url: &Option<String>,
        branch: &Option<String>,
        integration_id: Option<String>,
        config_path: &str,
        image_uri: &Option<String>,
        deployment_type: &str,
        env_vars: Vec<(String, String)>,
    ) -> (r: Result<CreateDeploymentRequest, LangstarError>)
        ensures
            source@ == "github"@ && repo_url is None ==> (r matches Err(e) && e matches
                LangstarError::ConfigError(m) && m@ == "repo_url is required for github source"@),
            source@ == "github"@ && repo_url is Some && branch is None ==> (r matches Err(e) && e
                matches LangstarError::ConfigError(m) && m@
                == "branch is required for github source"@),
            source@ == "github"@ && repo_url is Some && branch is Some ==> (r
                matches Ok(req) && {
                &&& req.name@ == name@
                &&& req.source@ == source@
                &&& req.deployment_type@ == deployment_type@
                &&& req.source_config.keys() =~= seq![
                    "integration_id"@,
                    "repo_url"@,
                    "deployment_type"@,
                    "build_on_push"@,
                    "custom_url"@,
                    "resource_spec"@,
                ]
                &&& (match integration_id {
                    Some(id) => req.source_config.str_under("integration_id"@) == Some(id@),
                    None => req.source_config.null_under("integration_id"@),
                })
                &&& req.source_config.str_under("repo_url"@) == Some(repo_url->0@)
                &&& req.source_config.str_under("deployment_type"@) == Some(deployment_type@)
                &&& req.source_config.bool_under("build_on_push"@) == Some(false)
                &&& req.source_config.null_under("custom_url"@)
                &&& req.source_config.null_under("resource_spec"@)
                &&& req.source_revision_config.keys() =~= seq![
                    "repo_ref"@,
                    "langgraph_config_path"@,
                ]
                &&& req.source_revision_config.str_under("repo_ref"@) == Some(branch->0@)
                &&& req.source_revision_config.str_under("langgraph_config_path"@) == Some(
                    config_path@,
                )
                &&& req.secrets@ =~= Seq::<crate::deployments::DeploymentSecret>::empty()
                &&& (if env_vars@.len() == 0 {
                    req.env_vars is None
                } else {
                    req.env_vars == Some(env_vars)
                })
            }),
            source@ == "external_docker"@ && image_uri is None ==> (r matches Err(e) && e matches
                LangstarError::ConfigError(m) && m@
                == "image_uri is required for external_docker source"@),
            source@ == "external_docker"@ && image_uri is Some ==> (r matches Ok(req)
                && {
                &&& req.name@ == name@
                &&& req.source@ == source@
                &&& req.deployment_type@ == deployment_type@
                &&& req.source_config.keys() =~= seq!["integration_id"@, "image_path"@]
                &&& req.source_config.null_under("integration_id"@)
                &&& req.source_config.str_under("image_path"@) == Some(image_uri->0@)
                &&& req.source_revision_config is Null
                &&& req.secrets@ =~= Seq::<crate::deployments::DeploymentSecret>::empty()
                &&& (if env_vars@.len() == 0 {
                    req.env_vars is None
                } else {
                    req.env_vars == Some(env_vars)
                })
            }),
            source@ != "github"@ && source@ != "external_docker"@ ==> (r matches Err(e) && e
                matches LangstarError::ConfigError(m) && m@ == "Invalid source type: "@ + source@
                + ". Valid values: github, external_docker"@),
    {
        proof {
            reveal_strlit("github");
            reveal_strlit("external_docker");
            assert(("github"@).len() == 6);
            assert(("external_docker"@).len() == 15);
        }
        let is_github = str_eq(source, "github");
        let is_docker = str_eq(source, "external_docker");
        if !is_github && !is_docker {
            let msg = "Invalid source type: ".to_owned().concat(source).concat(
                ". Valid values: github, external_docker",
            );
            proof {
                assert(msg@ =~= "Invalid source type: "@ + source@
                    + ". Valid values: github, external_docker"@);
            }
            return Err(LangstarError::ConfigError(msg));
        }
        let source_config: Json;
        let source_revision_config: Json;
        if is_github {
            let url = match repo_url {
                Some(u) => u,
                None => {
                    return Err(
                        LangstarError::ConfigError(
                            "repo_url is required for github source".to_owned(),
                        ),
                    );
                },
            };
            let b = match branch {
                Some(b) => b,
                None => {
                    return Err(
                        LangstarError::ConfigError(
                            "branch is required for github source".to_owned(),
                        ),
                    );
                },
            };
            let mut cfg: Vec<(String, Json)> = Vec::new();
            cfg.push(
                (
                    "integration_id".to_owned(),
                    match integration_id {
                        Some(id) => Json::Str(id),
                        None => Json::Null,
                    },
                ),
            );
            cfg.push(("repo_url".to_owned(), Json::Str(url.clone())));
            cfg.push(("deployment_type".to_owned(), Json::Str(deployment_type.to_owned())));
            cfg.push(("build_on_push".to_owned(), Json::Bool(false)));
            cfg.push(("custom_url".to_owned(), Json::Null));
            cfg.push(("resource_spec".to_owned(), Json::Null));
            source_config = Json::Obj(cfg);
            let mut rev: Vec<(String, Json)> = Vec::new();
            rev.push(("repo_ref".to_owned(), Json::Str(b.clone())));
            rev.push(("langgraph_config_path".to_owned(), Json::Str(config_path.to_owned())));
            source_revision_config = Json::Obj(rev);
            proof {
                reveal_strlit("integration_id");
                reveal_strlit("repo_url");
                reveal_strlit("deployment_type");
                reveal_strlit("build_on_push");
                reveal_strlit("custom_url");
                reveal_strlit("resource_spec");
                reveal_strlit("repo_ref");
                reveal_strlit("langgraph_config_path");
                assert(("integration_id"@).len() == 14);
                assert(("repo_url"@).len() == 8);
                assert(("deployment_type"@).len() == 15);
                assert(("build_on_push"@).len() == 13);
                assert(("custom_url"@).len() == 10);
                assert(("resource_spec"@).len() == 13);
                assert(("repo_ref"@).len() == 8);
                assert(("langgraph_config_path"@).len() == 21);
                assert(("build_on_push"@)[0] == 'b');
                assert(("resource_spec"@)[0] == 'r');
                assert("build_on_push"@ != "resource_spec"@);
                assert(("repo_url"@)[0] == 'r');
                assert(("repo_ref"@)[0] == 'r');
                assert(("repo_url"@)[5] == 'u');
                assert(("repo_ref"@)[5] == 'r');
                assert("repo_url"@ != "repo_ref"@);
                reveal_with_fuel(crate::json::lookup, 8);
            }
        } else {
            let image = match image_uri {
                Some(img) => img,
                None => {
                    return Err(
                        LangstarError::ConfigError(
                            "image_uri is required for external_docker source".to_owned(),
                        ),
                    );
                },
            };
            let mut cfg: Vec<(String, Json)> = Vec::new();
            cfg.push(("integration_id".to_owned(), Json::Null));
            cfg.push(("image_path".to_owned(), Json::Str(image.clone())));
            source_config = Json::Obj(cfg);
            source_revision_config = Json::Null;
            proof {
                reveal_strlit("integration_id");
                reveal_strlit("image_path");
                assert(("integration_id"@).len() == 14);
                assert(("image_path"@).len() == 10);
                reveal_with_fuel(crate::json::lookup, 4);
            }
        }
        let mut req = CreateDeploymentRequest::new(
            name.to_owned(),
            source.to_owned(),
            source_config,
            deployment_type.to_owned(),
        ).with_source_revision_config(source_revision_config);
        if env_vars.len() > 0 {
            req = req.with_env_vars(env_vars);
        }
        Ok(req)
    }
}

} // verus!
