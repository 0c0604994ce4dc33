use verdictan::env_map::EnvMap;
use verdictan::error::CliError;
use verdictan::gateway_run::{
    agent_text, bind_agent, build_runtime_config, build_runtime_config_with_env,
    build_runtime_config_with_env_connected_mode, configured_runtime_agent_selector,
    find_agent_id_by_selector, lookup_step, merge_policies, resolve_api_base_url,
    resolve_event_sink_config, resolve_existing_agent_id, resolve_policy_config_paths,
    resolve_runtime_launch_env, sync_step, trimmed_non_empty, unreadable_policy, AgentBinding, EventSinkConfig, FailMode,
    GatewayRunArgs, GatewayRunEnvironment, GatewayRuntimeLaunchEnv, SyncStep,
    DEFAULT_HOSTED_UPSTREAM_URL, DEFAULT_LISTEN_ADDR, DYNAMIC_PROVIDER_UPSTREAM_SENTINEL,
};
use verdictan::json::{Json, Number};

fn convert(value: &serde_json::Value) -> Json {
    match value {
        serde_json::Value::Null => Json::Null,
        serde_json::Value::Bool(b) => Json::Bool(*b),
        serde_json::Value::Number(n) => Json::Number(match (n.as_i64(), n.as_u64()) {
            (Some(i), _) => Number::Integer(i),
            (None, Some(u)) => Number::Unsigned(u),
            (None, None) => Number::Other(n.to_string()),
        }),
        serde_json::Value::String(s) => Json::Text(s.clone()),
        serde_json::Value::Array(items) => Json::Array(items.iter().map(convert).collect()),
        serde_json::Value::Object(members) => Json::Object(
            members.iter().map(|(k, v)| (k.clone(), convert(v))).collect(),
        ),
    }
}

fn json(text: &str) -> Json {
    convert(&serde_json::from_str(text).expect("test json"))
}

fn env(pairs: &[(&str, &str)]) -> EnvMap {
    let mut map = EnvMap::new();
    for (key, value) in pairs {
        map.insert(key.to_string(), value.to_string());
    }
    map
}

fn gateway_run_args() -> GatewayRunArgs {
    GatewayRunArgs {
        listen: DEFAULT_LISTEN_ADDR.to_string(),
        upstream: None,
        upstream_api_key_header: None,
        upstream_api_key_prefix: None,
        fail_mode: "block".to_string(),
        policy_config: Vec::new(),
        agent: None,
        config_name: None,
        max_concurrency: None,
        runtime_registration_id: None,
    }
}

fn listen() -> Result<String, CliError> {
    Ok(DEFAULT_LISTEN_ADDR.to_string())
}

fn sink(token: &str) -> EventSinkConfig {
    EventSinkConfig {
        base_url: "https://api.example.com".to_string(),
        api_token: token.to_string(),
        gateway_service_token: None,
    }
}

fn agents(texts: &[&str]) -> Vec<Json> {
    texts.iter().map(|text| json(text)).collect()
}

#[test]
fn resolve_policy_config_paths_skips_auto_discovered_defaults_in_connected_mode() {
    let default_path = "/tmp/policy-config.yaml";
    assert!(resolve_policy_config_paths(&vec![], true, default_path, true).is_empty());
    assert_eq!(
        resolve_policy_config_paths(&vec![], false, default_path, true),
        vec![default_path.to_string()]
    );
}

#[test]
fn build_runtime_config_with_env_requires_agent_for_policy_config() {
    let mut args = gateway_run_args();
    args.policy_config = vec!["/tmp/policy-config.yaml".to_string()];

    let error = build_runtime_config_with_env(
        &args,
        None,
        &GatewayRunEnvironment::default(),
        listen(),
        false,
    )
    .expect_err("missing agent should fail");

    assert!(error
        .to_string()
        .contains("--policy-config requires --agent"));
}

#[test]
fn build_runtime_config_with_env_uses_connected_mode_defaults_when_unset() {
    let config = build_runtime_config_with_env(
        &gateway_run_args(),
        None,
        &GatewayRunEnvironment::default(),
        listen(),
        false,
    )
    .expect("runtime config");

    assert_eq!(config.upstream, DYNAMIC_PROVIDER_UPSTREAM_SENTINEL);
    assert_eq!(config.max_concurrency, 16);
    assert!(config.connected_mode);
    assert!(config.upstream_auth.is_none());
    assert!(config.runtime_registration_id.is_none());
}

#[test]
fn build_runtime_config_with_env_uses_hosted_default_upstream_in_disconnected_mode() {
    let config = build_runtime_config_with_env_connected_mode(
        &gateway_run_args(),
        None,
        &GatewayRunEnvironment::default(),
        false,
        listen(),
        false,
    )
    .expect("runtime config");

    assert_eq!(config.upstream, DEFAULT_HOSTED_UPSTREAM_URL);
    assert!(!config.connected_mode);
}

#[test]
fn build_runtime_config_with_env_prefers_cli_values_and_normalizes_runtime_fields() {
    let mut args = gateway_run_args();
    args.upstream = Some("https://cli-upstream.example.com".to_string());
    args.fail_mode = "allow".to_string();
    args.max_concurrency = Some(0);
    args.runtime_registration_id = Some(" runtime-reg-id ".to_string());

    let env = GatewayRunEnvironment {
        upstream_url: Some("https://env-upstream.example.com".to_string()),
        upstream_api_key: Some("env-secret".to_string()),
        upstream_api_key_header: Some("x-env-key".to_string()),
        upstream_api_key_prefix: Some("Token ".to_string()),
        max_concurrency: Some(42),
        runtime_registration_id: Some("env-reg-id".to_string()),
        ..GatewayRunEnvironment::default()
    };

    let config = build_runtime_config_with_env(&args, None, &env, listen(), false)
        .expect("runtime config from cli");
    let auth = config.upstream_auth.expect("upstream auth");

    assert_eq!(config.upstream, "https://cli-upstream.example.com");
    assert_eq!(config.fail_mode, FailMode::Allow);
    assert_eq!(config.max_concurrency, 1);
    assert_eq!(
        config.runtime_registration_id.as_deref(),
        Some("runtime-reg-id")
    );
    assert_eq!(auth.header_name, "x-env-key");
    assert_eq!(auth.header_value, "Token env-secret");
}

#[test]
fn build_runtime_config_with_env_uses_env_values_when_cli_missing() {
    let env = GatewayRunEnvironment {
        upstream_url: Some("https://env-upstream.example.com".to_string()),
        upstream_api_key: Some("env-secret".to_string()),
        upstream_api_key_header: Some("x-env-key".to_string()),
        upstream_api_key_prefix: Some("Token ".to_string()),
        max_concurrency: Some(23),
        runtime_registration_id: Some("   ".to_string()),
        ..GatewayRunEnvironment::default()
    };

    let config = build_runtime_config_with_env(&gateway_run_args(), None, &env, listen(), false)
        .expect("runtime config from env");
    let auth = config.upstream_auth.expect("upstream auth");

    assert_eq!(config.upstream, "https://env-upstream.example.com");
    assert_eq!(config.max_concurrency, 23);
    assert_eq!(auth.header_name, "x-env-key");
    assert_eq!(auth.header_value, "Token env-secret");
    assert_eq!(config.runtime_registration_id, None);
}

#[test]
fn build_runtime_config_reads_process_env_and_uses_default_upstream_auth_parts() {
    let process = env(&[
        ("VERDICTAN_UPSTREAM_URL", "https://env-upstream.example.com"),
        ("VERDICTAN_UPSTREAM_API_KEY", "process-secret"),
        ("VERDICTAN_GATEWAY_MAX_CONCURRENCY", "7"),
        ("VERDICTAN_RUNTIME_REGISTRATION_ID", " process-runtime-id "),
    ]);
    let config = build_runtime_config(&gateway_run_args(), None, &process, listen(), false)
        .expect("runtime config");
    let auth = config.upstream_auth.expect("upstream auth");

    assert_eq!(config.upstream, "https://env-upstream.example.com");
    assert_eq!(config.max_concurrency, 7);
    assert_eq!(
        config.runtime_registration_id.as_deref(),
        Some("process-runtime-id")
    );
    assert_eq!(auth.header_name, "Authorization");
    assert_eq!(auth.header_value, "Bearer process-secret");
}

#[test]
fn build_runtime_config_with_env_sets_source_path_for_single_policy_config() {
    let mut args = gateway_run_args();
    args.policy_config = vec!["/tmp/policy-config.yaml".to_string()];
    args.agent = Some("agent-1".to_string());

    let config = build_runtime_config_with_env_connected_mode(
        &args,
        None,
        &GatewayRunEnvironment::default(),
        false,
        listen(),
        false,
    )
    .expect("runtime config");

    assert_eq!(
        config.source_config_path.as_deref(),
        Some("/tmp/policy-config.yaml")
    );
    assert_eq!(config.config_paths, args.policy_config);
}

#[test]
fn build_runtime_config_with_env_omits_source_path_for_multiple_policy_configs() {
    let mut args = gateway_run_args();
    args.policy_config = vec!["/tmp/base.yaml".to_string(), "/tmp/overlay.yaml".to_string()];
    args.agent = Some("agent-1".to_string());

    let config = build_runtime_config_with_env_connected_mode(
        &args,
        None,
        &GatewayRunEnvironment::default(),
        false,
        listen(),
        false,
    )
    .expect("runtime config");

    assert_eq!(config.source_config_path, None);
    assert_eq!(config.config_paths, args.policy_config);
}

#[test]
fn find_agent_id_by_selector_matches_id_or_name() {
    let agents = agents(&[
        r#"{"id": "agent_1", "name": "Assistant"}"#,
        r#"{"id": "agent_2", "display_name": "Research agent"}"#,
        r#"{"agent_id": "agent_3", "resource_name": "Billing helper"}"#,
    ]);

    assert_eq!(
        find_agent_id_by_selector(&agents, "agent_1").expect("id lookup"),
        Some("agent_1".to_string())
    );
    assert_eq!(
        find_agent_id_by_selector(&agents, "Assistant").expect("name lookup"),
        Some("agent_1".to_string())
    );
    assert_eq!(
        find_agent_id_by_selector(&agents, "Research agent").expect("display lookup"),
        Some("agent_2".to_string())
    );
    assert_eq!(
        find_agent_id_by_selector(&agents, "Billing helper").expect("resource lookup"),
        Some("agent_3".to_string())
    );
}

#[test]
fn find_agent_id_by_selector_rejects_ambiguous_names() {
    let agents = agents(&[
        r#"{"id": "agent_1", "name": "Assistant"}"#,
        r#"{"id": "agent_2", "name": "Assistant"}"#,
    ]);

    let error = find_agent_id_by_selector(&agents, "Assistant").expect_err("ambiguous name");
    assert!(error.to_string().contains("matched multiple agents"));
}

#[test]
fn find_agent_id_by_selector_prefers_exact_id_match_before_name_matching() {
    let agents = agents(&[
        r#"{"id": "shared-selector", "name": "Assistant"}"#,
        r#"{"id": "agent_2", "name": "shared-selector"}"#,
        r#"{"id": "agent_3", "name": "shared-selector"}"#,
    ]);

    assert_eq!(
        find_agent_id_by_selector(&agents, "shared-selector").expect("selector"),
        Some("shared-selector".to_string())
    );
}

#[test]
fn resolve_event_sink_config_uses_launch_env_token() {
    let env = GatewayRunEnvironment {
        api_token: Some("env-token".to_string()),
        ..GatewayRunEnvironment::default()
    };

    let event_sink = resolve_event_sink_config(
        &gateway_run_args(),
        &env,
        "https://control-plane.example.com",
    )
    .expect("event sink");

    assert_eq!(event_sink.base_url, "https://control-plane.example.com");
    assert_eq!(event_sink.api_token, "env-token");
    assert_eq!(
        event_sink.gateway_service_token.as_deref(),
        Some("env-token")
    );
}

#[test]
fn resolve_runtime_launch_env_only_seeds_missing_values() {
    let event_sink = sink("runtime-token");
    let env = GatewayRunEnvironment {
        api_token: Some("existing-token".to_string()),
        runtime_agent_id: Some("agent-existing".to_string()),
        ..GatewayRunEnvironment::default()
    };

    let launch_env = resolve_runtime_launch_env(&env, Some(&event_sink), Some("resolved-agent"));

    assert_eq!(launch_env.api_token, None);
    assert_eq!(launch_env.agent_id, None);
}

#[test]
fn resolve_runtime_launch_env_seeds_from_event_sink_when_env_empty() {
    let event_sink = sink("sink-token");
    let env = GatewayRunEnvironment::default();

    let launch_env =
        resolve_runtime_launch_env(&env, Some(&event_sink), Some("resolved-agent-id"));

    assert_eq!(launch_env.api_token, Some("sink-token".to_string()));
    assert_eq!(launch_env.agent_id, Some("resolved-agent-id".to_string()));
}

#[test]
fn resolve_runtime_launch_env_skips_whitespace_only_resolved_agent() {
    let event_sink = sink("tok");
    let env = GatewayRunEnvironment::default();

    let launch_env = resolve_runtime_launch_env(&env, Some(&event_sink), Some("   "));
    assert_eq!(launch_env.agent_id, None);
}

#[test]
fn resolve_runtime_launch_env_trims_seeded_values_when_existing_env_is_blank() {
    let event_sink = sink("  sink-token  ");
    let env = GatewayRunEnvironment {
        api_token: Some("   ".to_string()),
        runtime_agent_id: Some("  ".to_string()),
        ..GatewayRunEnvironment::default()
    };

    let launch_env =
        resolve_runtime_launch_env(&env, Some(&event_sink), Some(" resolved-agent "));

    assert_eq!(launch_env.api_token.as_deref(), Some("sink-token"));
    assert_eq!(launch_env.agent_id.as_deref(), Some("resolved-agent"));
}

#[test]
fn trimmed_non_empty_handles_edge_cases() {
    assert_eq!(trimmed_non_empty(""), None);
    assert_eq!(trimmed_non_empty("   "), None);
    assert_eq!(trimmed_non_empty("hello"), Some("hello".to_string()));
    assert_eq!(trimmed_non_empty("  hello  "), Some("hello".to_string()));
}

#[test]
fn find_agent_id_by_selector_returns_none_for_missing() {
    let agents = agents(&[r#"{"id": "agent_1", "name": "A"}"#]);
    assert_eq!(
        find_agent_id_by_selector(&agents, "nonexistent").unwrap(),
        None
    );
}

#[test]
fn find_agent_id_by_selector_skips_empty_and_whitespace() {
    let agents = agents(&[r#"{"id": "agent_1", "name": "A"}"#]);
    assert_eq!(find_agent_id_by_selector(&agents, "").unwrap(), None);
    assert_eq!(find_agent_id_by_selector(&agents, "   ").unwrap(), None);
}

#[test]
fn resolve_event_sink_config_returns_none_without_tokens() {
    let env = GatewayRunEnvironment::default();
    let result = resolve_event_sink_config(&gateway_run_args(), &env, "https://api.example.com");
    assert!(result.is_none());
}

#[test]
fn resolve_event_sink_config_uses_trimmed_launch_env_token() {
    let env = GatewayRunEnvironment {
        api_token: Some("  env-tok  ".to_string()),
        ..GatewayRunEnvironment::default()
    };
    let sink = resolve_event_sink_config(&gateway_run_args(), &env, "https://api.x.com").unwrap();
    assert_eq!(sink.api_token, "env-tok");
}

#[test]
fn run_returns_invalid_fail_mode_error_before_runtime_start() {
    let mut args = gateway_run_args();
    args.fail_mode = "invalid".to_string();

    let error = build_runtime_config(&args, None, &EnvMap::new(), listen(), false)
        .expect_err("invalid fail mode should fail");
    assert!(error
        .to_string()
        .contains("invalid --fail-mode (expected allow|block)"));
    assert_eq!(FailMode::parse("block"), Some(FailMode::Block));
    assert_eq!(FailMode::parse("invalid"), None);
}

/// Carries a sync through to its end. Gives the requests that it made, with their
/// bodies, and its outcome.
fn sync(
    agents: &str,
    configurations: &str,
    policies: Result<Vec<String>, CliError>,
) -> (Vec<(String, Option<Json>)>, Result<String, CliError>) {
    sync_as("Assistant", "baseline", agents, configurations, policies)
}

fn sync_as(
    agent_name: &str,
    config_name: &str,
    agents: &str,
    configurations: &str,
    policies: Result<Vec<String>, CliError>,
) -> (Vec<(String, Option<Json>)>, Result<String, CliError>) {
    let mut requests = vec![];
    let mut responses = vec![];
    let mut read = None;
    loop {
        match sync_step(agent_name, config_name, read.as_ref(), &responses) {
            SyncStep::Get(path) => {
                responses.push(json(if path == "/v1/agents" {
                    agents
                } else {
                    configurations
                }));
                requests.push((format!("GET {path}"), None));
            }
            SyncStep::Post(path, body) => {
                responses.push(json(match path.as_str() {
                    "/v1/agents" => r#"{"id": "agent-created"}"#,
                    "/v1/configurations" => r#"{"id": "config-created"}"#,
                    _ => r#"{"saved": true}"#,
                }));
                requests.push((format!("POST {path}"), Some(body)));
            }
            SyncStep::ReadPolicies => {
                assert!(read.is_none());
                read = Some(match &policies {
                    Ok(texts) => Ok(texts.clone()),
                    Err(error) => Err(error.copy()),
                });
            }
            SyncStep::Done(agent) => return (requests, Ok(agent)),
            SyncStep::Fail(error) => return (requests, Err(error)),
        }
    }
}

fn lines(requests: &[(String, Option<Json>)]) -> Vec<&str> {
    requests.iter().map(|(line, _)| line.as_str()).collect()
}

#[test]
fn ensure_agent_config_creates_resources_and_posts_merged_yaml() {
    let (requests, outcome) = sync(
        r#"{"agents": []}"#,
        r#"{"configurations": []}"#,
        Ok(vec![
            "pack:\n  name: base\n".to_string(),
            "targets:\n  - demo\n".to_string(),
        ]),
    );

    assert_eq!(outcome.expect("ensure agent config"), "agent-created");
    assert_eq!(
        lines(&requests),
        vec![
            "GET /v1/agents",
            "POST /v1/agents",
            "GET /v1/configurations",
            "POST /v1/configurations",
            "POST /v1/configurations/config-created/versions",
        ]
    );
    assert_eq!(requests[1].1, Some(json(r#"{"name": "Assistant"}"#)));
    let created = requests[3].1.as_ref().expect("create configuration body");
    assert_eq!(created.get_str("name"), Some("baseline"));
    assert_eq!(created.get_str("agent_id"), Some("agent-created"));
    let saved = requests[4].1.as_ref().expect("save version body");
    assert_eq!(
        saved.get_str("yaml"),
        Some("pack:\n  name: base\n\n---\ntargets:\n  - demo\n")
    );
    assert_eq!(saved.get("deploy"), Some(&Json::Bool(true)));
}

#[test]
fn ensure_agent_config_reuses_existing_resources_when_names_match() {
    let (requests, outcome) = sync(
        r#"{"agents": [{"id": "agent-existing", "name": "Assistant"}]}"#,
        r#"{"configurations": [{"id": "config-existing", "name": "baseline"}]}"#,
        Ok(vec!["pack:\n  version: 1.0.0\n".to_string()]),
    );

    assert_eq!(outcome.expect("ensure agent config"), "agent-existing");
    assert_eq!(
        lines(&requests),
        vec![
            "GET /v1/agents",
            "GET /v1/configurations",
            "POST /v1/configurations/config-existing/versions",
        ]
    );
}

#[test]
fn ensure_agent_config_returns_user_error_for_missing_policy_file() {
    let (requests, outcome) = sync(
        r#"{"agents": [{"id": "agent-existing", "name": "Assistant"}]}"#,
        r#"{"configurations": []}"#,
        Err(unreadable_policy(
            "/definitely/missing/policy-config.yaml",
            "no such file",
        )),
    );

    let error = outcome.expect_err("missing policy file should fail");
    assert!(error
        .to_string()
        .contains("failed to read policy config /definitely/missing/policy-config.yaml"));
    assert_eq!(lines(&requests), vec!["GET /v1/agents"]);
}

#[test]
fn run_async_requires_api_token_to_sync_policy_config() {
    let mut args = gateway_run_args();
    args.agent = Some("Assistant".to_string());
    args.policy_config = vec!["/tmp/policy-config.yaml".to_string()];

    let error = bind_agent(
        &args,
        &GatewayRunEnvironment::default(),
        None,
        Some("policy-config"),
    )
    .expect_err("missing token should fail before runtime start");

    assert!(error
        .to_string()
        .contains("--agent requires an API token to sync with the control plane"));
}

#[test]
fn run_async_syncs_policy_config_before_runtime_build() {
    let mut args = gateway_run_args();
    args.agent = Some("Assistant".to_string());
    args.policy_config = vec!["/tmp/baseline-policy.yaml".to_string()];
    args.fail_mode = "invalid".to_string();

    let requests = match bind_agent(
        &args,
        &GatewayRunEnvironment::default(),
        Some(&sink("admin-token")),
        Some("baseline-policy"),
    )
    .expect("binding")
    {
        AgentBinding::Sync(agent, config) => {
            assert_eq!(agent, "Assistant");
            assert_eq!(config, "baseline-policy");
            let (requests, outcome) = sync_as(
                &agent,
                &config,
                r#"{"agents": []}"#,
                r#"{"configurations": []}"#,
                Ok(vec!["pack:\n  name: sync\n".to_string()]),
            );
            outcome.expect("sync");
            requests
        }
        other => panic!("unexpected binding: {other:?}"),
    };

    assert_invalid_fail_mode(&args);
    assert_eq!(
        lines(&requests),
        vec![
            "GET /v1/agents",
            "POST /v1/agents",
            "GET /v1/configurations",
            "POST /v1/configurations",
            "POST /v1/configurations/config-created/versions",
        ]
    );
    assert_eq!(
        requests[3].1.as_ref().expect("create configuration body"),
        &Json::Object(vec![
            ("name".to_string(), Json::Text("baseline-policy".to_string())),
            ("agent_id".to_string(), Json::Text("agent-created".to_string())),
        ])
    );
}

fn assert_invalid_fail_mode(args: &GatewayRunArgs) {
    let error = build_runtime_config_with_env(
        args,
        Some(sink("admin-token")),
        &GatewayRunEnvironment::default(),
        listen(),
        false,
    )
    .expect_err("invalid fail mode should stop before runtime start");
    assert!(error
        .to_string()
        .contains("invalid --fail-mode (expected allow|block)"));
}

/// Carries a lookup through to its end. Gives the requests that it made and its
/// outcome.
fn look_up(
    args: &GatewayRunArgs,
    agents: &str,
) -> (Vec<(String, Option<Json>)>, Result<String, CliError>) {
    let binding = bind_agent(
        args,
        &GatewayRunEnvironment::default(),
        Some(&sink("admin-token")),
        None,
    )
    .expect("binding");
    let selector = match binding {
        AgentBinding::Lookup(selector) => selector,
        other => panic!("unexpected binding: {other:?}"),
    };
    let mut requests = vec![];
    let mut responses = vec![];
    loop {
        match lookup_step(&selector, &responses) {
            SyncStep::Get(path) => {
                requests.push((format!("GET {path}"), None));
                responses.push(json(agents));
            }
            SyncStep::Done(agent) => return (requests, Ok(agent)),
            SyncStep::Fail(error) => return (requests, Err(error)),
            other => panic!("unexpected step: {other:?}"),
        }
    }
}

#[test]
fn run_async_requires_api_token_to_resolve_agent_selector() {
    let mut args = gateway_run_args();
    args.agent = Some("Assistant".to_string());

    let error = bind_agent(&args, &GatewayRunEnvironment::default(), None, None)
        .expect_err("missing token should fail before runtime start");

    assert!(error
        .to_string()
        .contains("--agent or VERDICTAN_AGENT_NAME requires an API token to resolve the agent"));
}

#[test]
fn run_async_resolves_agent_selector_before_runtime_build() {
    let mut args = gateway_run_args();
    args.agent = Some("Assistant".to_string());
    args.fail_mode = "invalid".to_string();

    let (requests, outcome) = look_up(
        &args,
        r#"{"agents": [{"agent_id": "agent-resolved", "display_name": "Assistant"}]}"#,
    );

    assert_eq!(outcome.expect("agent"), "agent-resolved");
    assert_invalid_fail_mode(&args);
    assert_eq!(lines(&requests), vec!["GET /v1/agents"]);
}

#[test]
fn run_async_returns_not_found_when_agent_selector_is_missing() {
    let mut args = gateway_run_args();
    args.agent = Some("Missing agent".to_string());

    let (requests, outcome) = look_up(
        &args,
        r#"{"agents": [{"id": "agent-1", "name": "Different agent"}]}"#,
    );

    assert!(outcome
        .expect_err("missing agent should fail")
        .to_string()
        .contains("agent 'Missing agent' was not found on the control plane"));
    assert_eq!(lines(&requests), vec!["GET /v1/agents"]);
}

#[test]
fn resolve_policy_config_paths_returns_explicit_paths_regardless_of_connected_mode() {
    let paths = vec!["/a.yaml".to_string()];
    let result = resolve_policy_config_paths(&paths, true, "/nonexistent", false);
    assert_eq!(result, paths);
}

#[test]
fn resolve_policy_config_paths_returns_empty_when_default_missing() {
    let result = resolve_policy_config_paths(&vec![], false, "/does/not/exist.yaml", false);
    assert!(result.is_empty());
}

#[test]
fn gateway_run_environment_from_process_reads_trimmed_values() {
    let env = GatewayRunEnvironment::from_process(&env(&[
        ("VERDICTAN_API_URL", " https://cp.example.com "),
        ("VERDICTAN_API_TOKEN", "token-value"),
        ("VERDICTAN_UPSTREAM_URL", "https://upstream.example.com"),
        ("VERDICTAN_UPSTREAM_API_KEY", "upstream-key"),
        ("VERDICTAN_UPSTREAM_API_KEY_HEADER", "x-api-key"),
        ("VERDICTAN_UPSTREAM_API_KEY_PREFIX", "Token "),
        ("VERDICTAN_GATEWAY_MAX_CONCURRENCY", "  not-a-number "),
        (
            "VERDICTAN_RUNTIME_REGISTRATION_ID",
            " 11111111-1111-1111-1111-111111111111 ",
        ),
        ("VERDICTAN_AGENT_ID", " agent-123 "),
        ("VERDICTAN_AGENT_NAME", " assistant-selector "),
    ]));

    assert_eq!(env.api_base_url.as_deref(), Some("https://cp.example.com"));
    assert_eq!(env.api_token.as_deref(), Some("token-value"));
    assert_eq!(
        env.upstream_url.as_deref(),
        Some("https://upstream.example.com")
    );
    assert_eq!(env.upstream_api_key.as_deref(), Some("upstream-key"));
    assert_eq!(env.upstream_api_key_header.as_deref(), Some("x-api-key"));
    assert_eq!(env.upstream_api_key_prefix.as_deref(), Some("Token "));
    assert_eq!(env.max_concurrency, None);
    assert_eq!(
        env.runtime_registration_id.as_deref(),
        Some("11111111-1111-1111-1111-111111111111")
    );
    assert_eq!(env.runtime_agent_id.as_deref(), Some("agent-123"));
    assert_eq!(
        env.runtime_agent_selector.as_deref(),
        Some("assistant-selector")
    );
}

#[test]
fn gateway_run_environment_reads_trimmed_agent_name_env() {
    let env =
        GatewayRunEnvironment::from_process(&env(&[("VERDICTAN_AGENT_NAME", " primary-agent ")]));

    assert_eq!(env.runtime_agent_selector.as_deref(), Some("primary-agent"));
}

#[test]
fn gateway_runtime_launch_env_applies_only_present_values() {
    let changes = GatewayRuntimeLaunchEnv {
        api_token: Some("runtime-token".to_string()),
        agent_id: Some("agent-live".to_string()),
    }
    .apply_to_process_env();

    let found: Vec<(&str, Option<&str>)> = changes
        .iter()
        .map(|change| (change.name.as_str(), change.value.as_deref()))
        .collect();
    assert_eq!(
        found,
        vec![
            ("VERDICTAN_API_TOKEN", Some("runtime-token")),
            ("VERDICTAN_AGENT_ID", Some("agent-live")),
        ]
    );
}

#[test]
fn resolve_api_base_url_defaults_to_hosted_control_plane() {
    assert_eq!(
        resolve_api_base_url(&GatewayRunEnvironment::default()),
        "https://api.verdictan.com"
    );
    assert_eq!(
        resolve_api_base_url(&GatewayRunEnvironment {
            api_base_url: Some("https://override.example.com".to_string()),
            ..GatewayRunEnvironment::default()
        }),
        "https://override.example.com"
    );
}

#[test]
fn configured_runtime_agent_selector_prefers_cli_agent_then_env_selector() {
    let mut args = gateway_run_args();
    args.agent = Some(" cli-agent ".to_string());
    let env = GatewayRunEnvironment {
        runtime_agent_selector: Some("env-agent".to_string()),
        ..GatewayRunEnvironment::default()
    };

    assert_eq!(
        configured_runtime_agent_selector(&args, &env).as_deref(),
        Some("cli-agent")
    );
    args.agent = None;
    assert_eq!(
        configured_runtime_agent_selector(&args, &env).as_deref(),
        Some("env-agent")
    );
}

#[test]
fn configured_runtime_agent_selector_ignores_whitespace_cli_agent() {
    let mut args = gateway_run_args();
    args.agent = Some("   ".to_string());

    let env = GatewayRunEnvironment {
        runtime_agent_selector: Some("env-agent".to_string()),
        ..GatewayRunEnvironment::default()
    };

    assert_eq!(
        configured_runtime_agent_selector(&args, &env).as_deref(),
        Some("env-agent")
    );
}

#[test]
fn configured_runtime_agent_selector_returns_none_when_both_empty() {
    let env = GatewayRunEnvironment::default();
    assert_eq!(
        configured_runtime_agent_selector(&gateway_run_args(), &env),
        None
    );
}

#[test]
fn resolve_policy_config_paths_uses_default_when_file_exists() {
    let default_path = "/tmp/policy-config.yaml";
    let result = resolve_policy_config_paths(&vec![], false, default_path, true);
    assert_eq!(result, vec![default_path.to_string()]);
}

#[test]
fn resolve_policy_config_paths_connected_mode_ignores_default() {
    let result = resolve_policy_config_paths(&vec![], true, "/tmp/policy-config.yaml", true);
    assert!(result.is_empty());
}

#[test]
fn trimmed_non_empty_returns_none_for_empty() {
    assert_eq!(trimmed_non_empty(""), None);
    assert_eq!(trimmed_non_empty("   "), None);
}

#[test]
fn trimmed_non_empty_trims_value() {
    assert_eq!(trimmed_non_empty(" hello "), Some("hello".to_string()));
}

#[test]
fn trimmed_non_empty_preserves_untrimmed_value() {
    assert_eq!(trimmed_non_empty("hello"), Some("hello".to_string()));
}

#[test]
fn gateway_runtime_launch_env_skips_none_values() {
    let changes = GatewayRuntimeLaunchEnv {
        api_token: None,
        agent_id: None,
    }
    .apply_to_process_env();
    assert!(changes.is_empty());
}

#[test]
fn resolve_runtime_launch_env_skips_when_process_env_already_set() {
    let env = GatewayRunEnvironment {
        api_token: Some("existing-token".to_string()),
        runtime_agent_id: Some("existing-agent".to_string()),
        ..GatewayRunEnvironment::default()
    };
    let launch_env =
        resolve_runtime_launch_env(&env, Some(&sink("sink-token")), Some("resolved-agent"));
    assert_eq!(launch_env.api_token, None);
    assert_eq!(launch_env.agent_id, None);
}

#[test]
fn resolve_runtime_launch_env_uses_sink_when_env_empty() {
    let env = GatewayRunEnvironment::default();
    let launch_env =
        resolve_runtime_launch_env(&env, Some(&sink("sink-token")), Some("resolved-agent"));
    assert_eq!(launch_env.api_token.as_deref(), Some("sink-token"));
    assert_eq!(launch_env.agent_id.as_deref(), Some("resolved-agent"));
}

#[test]
fn dynamic_provider_upstream_sentinel() {
    assert_eq!(
        DYNAMIC_PROVIDER_UPSTREAM_SENTINEL,
        "http://verdictan-dynamic-provider.invalid"
    );
}

#[test]
fn default_hosted_upstream_url() {
    assert_eq!(DEFAULT_HOSTED_UPSTREAM_URL, "https://api.verdictan.com");
}

#[test]
fn default_listen_addr() {
    assert_eq!(DEFAULT_LISTEN_ADDR, "0.0.0.0:41002");
}

#[test]
fn gateway_run_environment_default() {
    let env = GatewayRunEnvironment::default();
    assert!(env.api_base_url.is_none());
    assert!(env.api_token.is_none());
    assert!(env.upstream_url.is_none());
    assert!(env.upstream_api_key.is_none());
    assert!(env.upstream_api_key_header.is_none());
    assert!(env.upstream_api_key_prefix.is_none());
    assert!(env.max_concurrency.is_none());
    assert!(env.runtime_registration_id.is_none());
    assert!(env.runtime_agent_id.is_none());
    assert!(env.runtime_agent_selector.is_none());
}

#[test]
fn gateway_run_environment_eq() {
    let env1 = GatewayRunEnvironment::default();
    let env2 = GatewayRunEnvironment::default();
    assert_eq!(env1, env2);
}

#[test]
fn gateway_runtime_launch_env_default() {
    let env = GatewayRuntimeLaunchEnv::default();
    assert!(env.api_token.is_none());
    assert!(env.agent_id.is_none());
}

#[test]
fn policies_are_merged_as_documents() {
    assert_eq!(merge_policies(&vec![]), "");
    assert_eq!(merge_policies(&vec!["a".to_string()]), "a");
    assert_eq!(
        merge_policies(&vec!["a".to_string(), "b".to_string()]),
        "a\n---\nb"
    );
}

#[test]
fn an_agent_without_a_policy_or_a_selector_is_not_bound() {
    assert!(matches!(
        bind_agent(
            &gateway_run_args(),
            &GatewayRunEnvironment::default(),
            None,
            None
        )
        .expect("binding"),
        AgentBinding::Unbound
    ));
    assert_eq!(
        agent_text(&json(r#"{"name": "  A  "}"#), "name"),
        Some("A".to_string())
    );
    assert_eq!(agent_text(&json(r#"{"name": "  "}"#), "name"), None);
}

#[test]
fn a_bad_listen_address_is_reported() {
    let error = build_runtime_config(
        &gateway_run_args(),
        None,
        &EnvMap::new(),
        Err(CliError::user("invalid --listen".to_string())),
        false,
    )
    .expect_err("bad address");
    assert_eq!(error.to_string(), "invalid --listen");
}

#[test]
fn an_agent_is_found_by_its_name_or_missed() {
    let listing = json(r#"{"agents": [{"id": "agent-1", "name": "Assistant"}]}"#);
    assert_eq!(
        resolve_existing_agent_id(&listing, "Assistant").expect("agent"),
        "agent-1"
    );
    assert_eq!(
        resolve_existing_agent_id(&listing, "Other")
            .expect_err("missing")
            .to_string(),
        "agent 'Other' was not found on the control plane. Use an existing agent name or set \
         VERDICTAN_AGENT_ID to the agent ID."
    );
}
