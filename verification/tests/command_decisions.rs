use langstar::commands::{
    split_csv_trimmed, AssistantCommands, GraphCommands, IntegrationChoice, PromptCommands,
};
use langstar::deployments::{Deployment, DeploymentSource, DeploymentStatus, DeploymentType};
use langstar::error::LangstarError;
use langstar::json::Json;

#[test]
fn test_parse_status_filter_values() {
    assert_eq!(
        GraphCommands::parse_status_filter("ready").unwrap(),
        DeploymentStatus::Ready
    );
    assert_eq!(
        GraphCommands::parse_status_filter("READY").unwrap(),
        DeploymentStatus::Ready
    );
    assert_eq!(
        GraphCommands::parse_status_filter("awaiting_database").unwrap(),
        DeploymentStatus::AwaitingDatabase
    );
    assert_eq!(
        GraphCommands::parse_status_filter("Unused").unwrap(),
        DeploymentStatus::Unused
    );
    match GraphCommands::parse_status_filter("bogus") {
        Err(LangstarError::ConfigError(m)) => {
            assert_eq!(
                m,
                "Invalid status: bogus. Valid values: READY, AWAITING_DATABASE, UNUSED, AWAITING_DELETE, UNKNOWN"
            );
        }
        _ => panic!("an unknown status filter must be a configuration error"),
    }
}

#[test]
fn test_parse_deployment_type_filter_values() {
    assert_eq!(
        GraphCommands::parse_deployment_type_filter("dev_free").unwrap(),
        DeploymentType::DevFree
    );
    assert_eq!(
        GraphCommands::parse_deployment_type_filter("DEV").unwrap(),
        DeploymentType::Dev
    );
    assert_eq!(
        GraphCommands::parse_deployment_type_filter("prod").unwrap(),
        DeploymentType::Prod
    );
    match GraphCommands::parse_deployment_type_filter("staging") {
        Err(LangstarError::ConfigError(m)) => {
            assert_eq!(
                m,
                "Invalid deployment type: staging. Valid values: dev_free, dev, prod"
            );
        }
        _ => panic!("an unknown type filter must be a configuration error"),
    }
}

#[test]
fn test_build_filters_none_when_empty() {
    assert!(GraphCommands::build_filters(None, None, None).is_none());
    let f = GraphCommands::build_filters(Some("x".to_string()), None, None).unwrap();
    assert_eq!(f.name_contains.as_deref(), Some("x"));
    assert!(f.status.is_none());
    let f = GraphCommands::build_filters(None, Some(DeploymentStatus::Ready), None).unwrap();
    assert_eq!(f.status, Some(DeploymentStatus::Ready));
}

#[test]
fn test_parse_env_pairs() {
    let env = vec!["API_KEY=secret123".to_string(), "DEBUG=true".to_string()];
    let pairs = GraphCommands::parse_env_pairs(&env).unwrap();
    assert_eq!(pairs.len(), 2);
    assert_eq!(pairs[0], ("API_KEY".to_string(), "secret123".to_string()));
    assert_eq!(pairs[1], ("DEBUG".to_string(), "true".to_string()));

    // The split happens at the first '=' only.
    let env = vec!["A=b=c".to_string()];
    let pairs = GraphCommands::parse_env_pairs(&env).unwrap();
    assert_eq!(pairs[0], ("A".to_string(), "b=c".to_string()));
}

#[test]
fn test_parse_env_pairs_rejects_missing_separator() {
    let env = vec!["GOOD=1".to_string(), "BAD".to_string()];
    match GraphCommands::parse_env_pairs(&env) {
        Err(LangstarError::ConfigError(m)) => {
            assert_eq!(
                m,
                "Invalid environment variable format: BAD. Expected KEY=VALUE"
            );
        }
        _ => panic!("an argument without '=' must be a configuration error"),
    }
}

#[test]
fn test_choose_integration_id_precedence() {
    // Flag over configuration over discovery.
    match GraphCommands::choose_integration_id(
        Some("flag-id".to_string()),
        Some("config-id".to_string()),
    ) {
        IntegrationChoice::FromFlag(v) => assert_eq!(v, "flag-id"),
        _ => panic!("the flag must win"),
    }
    match GraphCommands::choose_integration_id(None, Some("config-id".to_string())) {
        IntegrationChoice::FromConfig(v) => assert_eq!(v, "config-id"),
        _ => panic!("the configuration must win over discovery"),
    }
    assert!(matches!(
        GraphCommands::choose_integration_id(None, None),
        IntegrationChoice::Discover
    ));
}

#[test]
fn test_discover_integration_id() {
    let github = Deployment {
        source: DeploymentSource::Github,
        source_config: Some(Json::Obj(vec![(
            "integration_id".to_string(),
            Json::Str("found-id".to_string()),
        )])),
        ..Deployment::default()
    };
    let docker = Deployment {
        source: DeploymentSource::ExternalDocker,
        ..Deployment::default()
    };
    let list = vec![docker, github];
    assert_eq!(
        GraphCommands::discover_integration_id(&list).unwrap(),
        "found-id"
    );
}

#[test]
fn test_discover_integration_id_missing_entry() {
    let github = Deployment {
        source: DeploymentSource::Github,
        source_config: Some(Json::Obj(vec![])),
        ..Deployment::default()
    };
    match GraphCommands::discover_integration_id(&vec![github]) {
        Err(LangstarError::ConfigError(m)) => {
            assert_eq!(
                m,
                "Found GitHub deployment but integration_id is missing from source_config"
            );
        }
        _ => panic!("a candidate without the entry must be a configuration error"),
    }
}

#[test]
fn test_discover_integration_id_no_candidates() {
    match GraphCommands::discover_integration_id(&vec![]) {
        Err(LangstarError::ConfigError(m)) => {
            assert!(m.starts_with("GitHub integration ID not found."));
            assert!(m.contains("--integration-id"));
        }
        _ => panic!("no candidates must be a configuration error"),
    }
}

#[test]
fn test_create_deployment_scenario() {
    // Creating "demo" from github with a resolved integration ID carries
    // the integration in source_config and the branch and config path in
    // source_revision_config.
    let req = GraphCommands::build_create_request(
        "demo",
        "github",
        &Some("https://github.com/o/r".to_string()),
        &Some("main".to_string()),
        Some("integ-1".to_string()),
        "langgraph.json",
        &None,
        "dev_free",
        vec![],
    )
    .unwrap();
    assert_eq!(req.name, "demo");
    assert_eq!(req.source, "github");
    assert_eq!(req.deployment_type, "dev_free");
    match req.source_config.get("integration_id") {
        Some(Json::Str(s)) => assert_eq!(s, "integ-1"),
        _ => panic!("the resolved integration ID must be carried"),
    }
    match req.source_config.get("repo_url") {
        Some(Json::Str(s)) => assert_eq!(s, "https://github.com/o/r"),
        _ => panic!("the repository URL must be carried"),
    }
    assert!(matches!(
        req.source_config.get("build_on_push"),
        Some(Json::Bool(false))
    ));
    assert!(matches!(req.source_config.get("custom_url"), Some(Json::Null)));
    match req.source_revision_config.get("repo_ref") {
        Some(Json::Str(s)) => assert_eq!(s, "main"),
        _ => panic!("the branch must become repo_ref"),
    }
    match req.source_revision_config.get("langgraph_config_path") {
        Some(Json::Str(s)) => assert_eq!(s, "langgraph.json"),
        _ => panic!("the config path must be carried"),
    }
    assert!(req.env_vars.is_none());
}

#[test]
fn test_create_deployment_requires_repo_url_and_branch() {
    match GraphCommands::build_create_request(
        "demo", "github", &None, &None, None, "langgraph.json", &None, "dev_free", vec![],
    ) {
        Err(LangstarError::ConfigError(m)) => {
            assert_eq!(m, "repo_url is required for github source");
        }
        _ => panic!("a github source without a repository must be rejected"),
    }
    match GraphCommands::build_create_request(
        "demo",
        "github",
        &Some("https://github.com/o/r".to_string()),
        &None,
        None,
        "langgraph.json",
        &None,
        "dev_free",
        vec![],
    ) {
        Err(LangstarError::ConfigError(m)) => {
            assert_eq!(m, "branch is required for github source");
        }
        _ => panic!("a github source without a branch must be rejected"),
    }
}

#[test]
fn test_create_deployment_external_docker() {
    let req = GraphCommands::build_create_request(
        "imgdep",
        "external_docker",
        &None,
        &None,
        None,
        "langgraph.json",
        &Some("ghcr.io/owner/repo:tag".to_string()),
        "prod",
        vec![("K".to_string(), "V".to_string())],
    )
    .unwrap();
    assert!(matches!(
        req.source_config.get("integration_id"),
        Some(Json::Null)
    ));
    match req.source_config.get("image_path") {
        Some(Json::Str(s)) => assert_eq!(s, "ghcr.io/owner/repo:tag"),
        _ => panic!("the image must be carried"),
    }
    assert!(matches!(req.source_revision_config, Json::Null));
    assert_eq!(
        req.env_vars,
        Some(vec![("K".to_string(), "V".to_string())])
    );

    match GraphCommands::build_create_request(
        "imgdep",
        "external_docker",
        &None,
        &None,
        None,
        "langgraph.json",
        &None,
        "prod",
        vec![],
    ) {
        Err(LangstarError::ConfigError(m)) => {
            assert_eq!(m, "image_uri is required for external_docker source");
        }
        _ => panic!("a docker source without an image must be rejected"),
    }
}

#[test]
fn test_create_deployment_rejects_unknown_source() {
    match GraphCommands::build_create_request(
        "demo", "svn", &None, &None, None, "langgraph.json", &None, "dev_free", vec![],
    ) {
        Err(LangstarError::ConfigError(m)) => {
            assert_eq!(m, "Invalid source type: svn. Valid values: github, external_docker");
        }
        _ => panic!("an unknown source kind must be rejected"),
    }
}

#[test]
fn test_deployment_delete_confirmation() {
    // Declining the confirmation is a no-op, not an error; the explicit
    // flag skips the prompt entirely.
    assert!(!GraphCommands::should_delete(false, "no"));
    assert!(!GraphCommands::should_delete(false, ""));
    assert!(!GraphCommands::should_delete(false, "y"));
    assert!(GraphCommands::should_delete(false, "yes"));
    assert!(GraphCommands::should_delete(false, " YES \n"));
    assert!(GraphCommands::should_delete(true, "no"));
}

#[test]
fn test_assistant_delete_confirmation() {
    assert!(!AssistantCommands::should_delete(false, "no"));
    assert!(!AssistantCommands::should_delete(false, ""));
    assert!(AssistantCommands::should_delete(false, "y"));
    assert!(AssistantCommands::should_delete(false, "yes"));
    assert!(AssistantCommands::should_delete(false, " Y "));
    assert!(AssistantCommands::should_delete(true, "whatever"));
}

#[test]
fn test_require_deployment_fails_without_target() {
    // An assistant command without a deployment target fails before any
    // request is built.
    assert_eq!(
        AssistantCommands::require_deployment(Some("demo".to_string())).unwrap(),
        "demo"
    );
    match AssistantCommands::require_deployment(None) {
        Err(LangstarError::ConfigError(m)) => {
            assert!(m.contains("deployment"));
        }
        _ => panic!("a missing deployment target must be a configuration error"),
    }
}

#[test]
fn test_assistant_command_names_deployment() {
    let cmd = AssistantCommands::Create {
        deployment: "demo".to_string(),
        graph_id: "g".to_string(),
        name: "n".to_string(),
        config_file: None,
        config: None,
    };
    assert_eq!(cmd.deployment(), "demo");
    let cmd = AssistantCommands::List {
        deployment: "other".to_string(),
        limit: 20,
        offset: 0,
    };
    assert_eq!(cmd.deployment(), "other");
}

#[test]
fn test_split_csv_trimmed() {
    assert_eq!(
        split_csv_trimmed("context,question"),
        vec!["context".to_string(), "question".to_string()]
    );
    assert_eq!(
        split_csv_trimmed(" a , b "),
        vec!["a".to_string(), "b".to_string()]
    );
    assert_eq!(split_csv_trimmed("solo"), vec!["solo".to_string()]);
    assert_eq!(
        split_csv_trimmed("x,,y"),
        vec!["x".to_string(), "".to_string(), "y".to_string()]
    );
}

#[test]
fn test_build_prompt_manifest() {
    let manifest = PromptCommands::build_prompt_manifest(
        "Answer {question} using {context}",
        &Some("context,question".to_string()),
        "f-string",
    );
    match manifest.get("type") {
        Some(Json::Str(s)) => assert_eq!(s, "prompt"),
        _ => panic!("the manifest type must be 'prompt'"),
    }
    match manifest.get("template") {
        Some(Json::Str(s)) => assert_eq!(s, "Answer {question} using {context}"),
        _ => panic!("the template must be carried"),
    }
    match manifest.get("input_variables") {
        Some(Json::Arr(items)) => {
            assert_eq!(items.len(), 2);
            match (&items[0], &items[1]) {
                (Json::Str(a), Json::Str(b)) => {
                    assert_eq!(a, "context");
                    assert_eq!(b, "question");
                }
                _ => panic!("variables must be strings"),
            }
        }
        _ => panic!("input_variables must be an array"),
    }
    match manifest.get("template_format") {
        Some(Json::Str(s)) => assert_eq!(s, "f-string"),
        _ => panic!("the template format must be carried"),
    }

    // Without variables the array is empty, not absent.
    let manifest = PromptCommands::build_prompt_manifest("t", &None, "f-string");
    match manifest.get("input_variables") {
        Some(Json::Arr(items)) => assert!(items.is_empty()),
        _ => panic!("input_variables must still be an empty array"),
    }
}

#[test]
fn test_scope_warning_decisions() {
    let both = PromptCommands::both_scope_flags(
        &Some("o".to_string()),
        &Some("w".to_string()),
    );
    assert!(both);
    assert!(!PromptCommands::both_scope_flags(&Some("o".to_string()), &None));
    assert!(!PromptCommands::both_scope_flags(&None, &None));
}
