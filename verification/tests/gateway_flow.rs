use verdictan::env_map::EnvMap;
use verdictan::error::CliError;
use verdictan::gateway_check::{
    build_report_lines, check_verdict, classify_provider, is_gateway_ready, missing_config_error,
    summarize_provider_registry, CheckedConfig, GatewayCheckArgs, ProviderClassification,
    ProviderRegistry, ProviderTarget,
};
use verdictan::gateway_config::{check_expected, config_report, GatewayConfigArgs};
use verdictan::gateway_install::{
    build_supervised_env, connected_mode_from_env, copy_nonempty_env, instance_install_spec,
    installed_lines, plain_install_spec, platform_name, populate_service_runtime_env,
    record_install, resolve_agent_id_arg, resolve_agent_name_arg, set_secret, set_value,
    start_command, GatewayInstallArgs, ResolvedSecrets,
};
use verdictan::gateway_reconcile::{
    cancel_reconcile, derive_gateway_url, format_result, reconcile_step, reconcile_targets,
    reconcile_verdict, ListenAddress, ListenHost, ReconcileInstanceResult, ReconcileOutcome,
    ReconcileRequest, ReconcileStep,
};
use verdictan::gateway_reload::{
    config_url, describe_config_paths, health_url, parse_reload_config, read_config_answer,
    read_reload_answer, reload_config_paths, reload_payload, reload_step, reload_url,
    resolve_gateway_api_token, verify_gateway_config, verify_gateway_health, GatewayAnswer,
    GatewayReloadArgs, GatewayReply, ReloadRequest, ReloadStep,
};
use verdictan::gateway_revert::{revert_step, revert_target, RevertStep, REVERT_REASON};
use verdictan::gateway_service::ServicePlatform;
use verdictan::gateway_upgrade::{
    begin_apply, build_plan_from_args, build_plan_from_optional_args, build_service_spec,
    current_active_binary_path, current_active_version, ended_check, finish_apply,
    finish_rollback,
    health_check_seconds, infer_service_manager, preview_text, record_plan, rollback_record,
    run_health_check, runtime_phase_label, try_preview_bytes, upgrade_reinstalls_service,
    upgrade_report, validate_binary_path, CheckRun, GatewayUpgradeApplyArgs,
    GatewayUpgradePlanArgs, ServiceManagerArg, UpgradeHost, HEALTH_CHECK_FAILED, PREVIEW_BYTES,
};
use verdictan::instances::{
    ConfigVerificationState, GatewayInstanceLifecycle, GatewayInstanceSpec,
    GatewayInstanceStatus, InstanceRecord, LoadedConfig, OperationAction,
    OperationHistoryEntry, OperationOutcome, SecretReference,
};
use verdictan::json::{Json, Number};
use verdictan::runtime_upgrade::{
    RuntimeServiceManager, RuntimeUpgradeHealthCheck, RuntimeUpgradePhase, RuntimeUpgradePlan,
    RuntimeUpgradeStatus,
};

fn convert(value: &serde_json::Value) -> Json {
    match value {
        serde_json::Value::Null => Json::Null,
        serde_json::Value::Bool(b) => Json::Bool(*b),
        serde_json::Value::Number(n) => Json::Number(match (n.as_i64(), n.as_u64()) {
            (Some(i), _) => Number::Integer(i),
            (None, Some(u)) => Number::Unsigned(u),
            (None, None) => Number::Other(n.to_string()),
        }),
        serde_json::Value::String(s) => Json::Text(s.clone()),
        serde_json::Value::Array(items) => Json::Array(items.iter().map(convert).collect()),
        serde_json::Value::Object(members) => Json::Object(
            members.iter().map(|(k, v)| (k.clone(), convert(v))).collect(),
        ),
    }
}

fn json(text: &str) -> Json {
    convert(&serde_json::from_str(text).expect("test json"))
}

const NOW: &str = "2026-08-01T00:00:00+00:00";

fn env(pairs: &[(&str, &str)]) -> EnvMap {
    let mut map = EnvMap::new();
    for (key, value) in pairs {
        map.insert(key.to_string(), value.to_string());
    }
    map
}

fn reply(success: bool, body: &str) -> GatewayAnswer {
    GatewayAnswer::Reply(GatewayReply {
        success,
        status: if success {
            "200 OK"
        } else {
            "503 Service Unavailable"
        }
        .to_string(),
        body: body.to_string(),
        json: serde_json::from_str(body)
            .map(|value| convert(&value))
            .map_err(|e: serde_json::Error| e.to_string()),
    })
}

fn config_body(version: &str, sha256: &str) -> String {
    format!(
        r#"{{"ok": true, "config": {{"config_version": "{version}", "config_sha256": "{sha256}", "config_content": "pack:\n  version: target\n"}}}}"#
    )
}

fn serving(version: &str, sha256: &str) -> GatewayAnswer {
    reply(true, &config_body(version, sha256))
}

fn healthy() -> GatewayAnswer {
    reply(true, r#"{"status": "ok"}"#)
}

fn unreachable_gateway() -> GatewayAnswer {
    GatewayAnswer::Unreachable("connection refused".to_string())
}

fn record(name: &str) -> InstanceRecord {
    InstanceRecord {
        spec: GatewayInstanceSpec {
            instance_id: name.to_string(),
            gateway_id: format!("{name}_gateway"),
            name: name.to_string(),
            listen_addr: "127.0.0.1:41002".to_string(),
            upstream_base_url: "https://api.example.com".to_string(),
            upstream_api_key: None,
            upstream_api_key_header: None,
            upstream_api_key_prefix: None,
            fail_mode: "block".to_string(),
            policy_paths: vec![],
            max_concurrency: 8,
            admin_token: None,
            admin_local_only: true,
        },
        status: GatewayInstanceStatus::fresh("2026-07-31T00:00:00Z"),
        operations_history: vec![],
        rollout_plan: None,
    }
}

// Configuration of a gateway ----------------------------------------------

#[test]
fn config_url_formatting() {
    assert_eq!(
        config_url("http://127.0.0.1:8080"),
        "http://127.0.0.1:8080/verdictan/config"
    );
}

#[test]
fn config_url_strips_trailing_slash() {
    assert_eq!(
        config_url("http://127.0.0.1:8080/"),
        "http://127.0.0.1:8080/verdictan/config"
    );
}

#[test]
fn config_url_with_port_and_path() {
    assert_eq!(
        config_url("http://gateway.internal:9090/"),
        "http://gateway.internal:9090/verdictan/config"
    );
}

#[test]
fn config_url_with_ipv6_host() {
    assert_eq!(
        config_url("http://[::1]:8080"),
        "http://[::1]:8080/verdictan/config"
    );
}

#[test]
fn config_url_double_trailing_slash() {
    assert_eq!(
        config_url("http://gateway.example.com//"),
        "http://gateway.example.com/verdictan/config"
    );
}

#[test]
fn the_other_endpoints_stand_below_the_gateway_too() {
    assert_eq!(reload_url("http://g/"), "http://g/verdictan/config/reload");
    assert_eq!(health_url("http://g/"), "http://g/healthz");
}

#[test]
fn gateway_config_args_debug_impl() {
    let args = GatewayConfigArgs {
        gateway_url: "http://localhost:8080".to_string(),
        expect_version: None,
        expect_sha256: None,
    };
    let debug = format!("{:?}", args);
    assert!(debug.contains("localhost"));
}

#[test]
fn expect_version_match() {
    let value = json(r#"{"config": {"config_version": "v3", "config_sha256": "abc"}}"#);
    assert!(check_expected(&value, Some("v3"), None).is_ok());
}

#[test]
fn expect_version_mismatch_detected() {
    let value = json(r#"{"config": {"config_version": "v2"}}"#);
    let error = check_expected(&value, Some("v3"), None).expect_err("mismatch");
    assert_eq!(
        error.to_string(),
        "proxy is running config version v2 instead of v3"
    );
}

#[test]
fn expect_sha256_defaults_empty() {
    let value = json(r#"{"config": {}}"#);
    assert!(check_expected(&value, None, Some("")).is_ok());
}

#[test]
fn parse_config_response_extracts_config_object() {
    let value = json(r#"{"config": {"config_version": "v1", "config_sha256": "deadbeef"}}"#);
    assert!(check_expected(&value, Some("v1"), Some("deadbeef")).is_ok());
}

#[test]
fn parse_config_response_missing_config() {
    let value = json(r#"{"status": "ok"}"#);
    let error = check_expected(&value, None, None).expect_err("missing");
    assert!(error.to_string().contains("missing config object"));
}

#[test]
fn expect_version_missing_defaults_empty() {
    let value = json(r#"{"config": {}}"#);
    assert!(check_expected(&value, Some(""), None).is_ok());
}

#[test]
fn expect_sha256_match() {
    let value = json(r#"{"config": {"config_sha256": "deadbeef123"}}"#);
    assert!(check_expected(&value, None, Some("deadbeef123")).is_ok());
}

#[test]
fn expect_sha256_mismatch_detected() {
    let value = json(r#"{"config": {"config_sha256": "aaa"}}"#);
    assert!(check_expected(&value, None, Some("bbb")).is_err());
}

#[test]
fn parse_config_response_nested_config_fields() {
    let value = json(
        r#"{"config": {"config_version": "v5", "config_sha256": "sha256:aabb", "policy": {"name": "default"}}}"#,
    );
    let policy = value
        .get("config")
        .and_then(|config| config.get("policy"))
        .expect("policy");
    assert_eq!(policy.get_str("name"), Some("default"));
}

#[test]
fn parse_config_response_empty_config_object() {
    let value = json(r#"{"config": {}}"#);
    assert!(check_expected(&value, None, None).is_ok());
}

#[test]
fn expect_version_null_value_defaults_empty() {
    let value = json(r#"{"config": {"config_version": null}}"#);
    assert!(check_expected(&value, Some(""), None).is_ok());
}

#[test]
fn expect_sha256_null_value_defaults_empty() {
    let value = json(r#"{"config": {"config_sha256": null}}"#);
    assert!(check_expected(&value, None, Some("")).is_ok());
}

#[test]
fn a_configuration_is_reported_in_an_indented_form() {
    let report = config_report(
        &reply(true, r#"{"config":{"config_version":"v1"}}"#),
        Some("v1"),
        None,
    )
    .expect("report");
    assert_eq!(
        report,
        "{\n  \"config\": {\n    \"config_version\": \"v1\"\n  }\n}"
    );
    let error = config_report(&reply(false, "busy"), None, None).expect_err("status");
    assert_eq!(
        error.to_string(),
        "proxy config endpoint returned 503 Service Unavailable: busy"
    );
    let error = config_report(&reply(true, "nonsense"), None, None).expect_err("not JSON");
    assert!(error
        .to_string()
        .starts_with("proxy config response is not valid JSON"));
    let error = config_report(&unreachable_gateway(), None, None).expect_err("unreachable");
    assert_eq!(error.error_code(), "cli.network");
}

// Reload ------------------------------------------------------------------

#[test]
fn describe_config_paths_formats_single_and_multiple_paths() {
    assert_eq!(
        describe_config_paths(&vec!["/tmp/policy.yaml".to_string()]),
        "/tmp/policy.yaml"
    );
    assert_eq!(
        describe_config_paths(&vec![
            "/tmp/base.yaml".to_string(),
            "/tmp/overlay.yaml".to_string()
        ]),
        "/tmp/base.yaml, /tmp/overlay.yaml"
    );
}

#[test]
fn describe_config_paths_empty_slice() {
    assert_eq!(describe_config_paths(&vec![]), "");
}

#[test]
fn resolve_gateway_api_token_uses_explicit_then_stored_then_env() {
    let env_token = || Some("env-token".to_string());
    assert_eq!(
        resolve_gateway_api_token(
            Some("explicit".to_string()),
            Some("stored".to_string()),
            env_token()
        )
        .as_deref(),
        Some("explicit")
    );
    assert_eq!(
        resolve_gateway_api_token(None, Some("stored".to_string()), env_token()).as_deref(),
        Some("stored")
    );
    assert_eq!(
        resolve_gateway_api_token(None, None, env_token()).as_deref(),
        Some("env-token")
    );
}

#[test]
fn resolve_gateway_api_token_all_none_and_no_env() {
    assert_eq!(resolve_gateway_api_token(None, None, None), None);
}

#[test]
fn parse_reload_config_requires_config_object() {
    let parsed = parse_reload_config(&json(
        r#"{"config": {"config_version": "2.0.0", "config_sha256": "sha-256", "config_content": "pack: {}"}}"#,
    ))
    .expect("parse config");
    assert_eq!(parsed.version.as_deref(), Some("2.0.0"));
    assert_eq!(parsed.sha256.as_deref(), Some("sha-256"));
    assert_eq!(parsed.content.as_deref(), Some("pack: {}"));

    let error = parse_reload_config(&json(r#"{"missing": {}}"#)).expect_err("missing config");
    assert!(error.to_string().contains("missing config object"));
}

#[test]
fn parse_reload_config_extracts_all_fields() {
    let parsed = parse_reload_config(&json(
        r#"{"config": {"config_version": "5.0.0", "config_sha256": "sha-abc", "config_content": "pack:\n  name: test"}}"#,
    ))
    .expect("parse config");
    assert_eq!(parsed.version.as_deref(), Some("5.0.0"));
    assert_eq!(parsed.sha256.as_deref(), Some("sha-abc"));
    assert_eq!(parsed.content.as_deref(), Some("pack:\n  name: test"));
}

#[test]
fn parse_reload_config_missing_optional_fields() {
    let parsed = parse_reload_config(&json(r#"{"config": {}}"#)).expect("parse minimal config");
    assert_eq!(parsed.version, None);
    assert_eq!(parsed.sha256, None);
    assert_eq!(parsed.content, None);
}

#[test]
fn gateway_reload_args_debug_impl() {
    let args = GatewayReloadArgs {
        name: "my-gw".to_string(),
        gateway_url: "http://localhost:8080".to_string(),
        config_path: Some("/tmp/policy.yaml".to_string()),
        state_dir: None,
        json: true,
    };
    let debug = format!("{:?}", args);
    assert!(debug.contains("my-gw"));
    assert!(debug.contains("localhost"));
}

#[test]
fn fetch_post_and_verify_gateway_config_use_expected_routes() {
    let live = r#"{"config": {"config_version": "4.0.0", "config_sha256": "sha-live", "config_content": "pack:\n  version: \"4.0.0\"\n"}}"#;
    let fetched = read_config_answer(&reply(true, live)).expect("fetch config");
    assert_eq!(fetched.version.as_deref(), Some("4.0.0"));

    let answer = reply(true, live);
    let posted = read_reload_answer(&answer).expect("post reload");
    assert_eq!(
        posted.get("config").and_then(|c| c.get_str("config_sha256")),
        Some("sha-live")
    );
    assert_eq!(
        reload_payload("pack:\n  version: \"4.0.0\"\n").get_str("config_yaml"),
        Some("pack:\n  version: \"4.0.0\"\n")
    );

    let verified = verify_gateway_config(&reply(true, live), "sha-live", "4.0.0")
        .expect("verify config");
    assert_eq!(verified.sha256.as_deref(), Some("sha-live"));
    verify_gateway_health(&healthy()).expect("verify health");
}

#[test]
fn run_async_requires_config_path_when_instance_has_no_saved_paths() {
    let error = reload_config_paths(None, &vec![]).expect_err("missing config path");
    assert!(error.to_string().contains("pass --config-path"));
    assert_eq!(
        reload_config_paths(Some("/a"), &vec!["/b".to_string()]).expect("explicit"),
        vec!["/a".to_string()]
    );
    assert_eq!(
        reload_config_paths(None, &vec!["/b".to_string()]).expect("stored"),
        vec!["/b".to_string()]
    );
}

fn reload_request() -> ReloadRequest {
    ReloadRequest {
        name: "gw".to_string(),
        loaded: LoadedConfig {
            config_version: "v2".to_string(),
            config_sha256: "sha2".to_string(),
        },
        config_yaml: "pack: v2".to_string(),
        config_source: "/tmp/policy.yaml".to_string(),
    }
}

#[test]
fn a_reload_asks_applies_verifies_and_settles() {
    let status = record("gw").status;
    let request = reload_request();
    let mut answers = vec![];
    assert!(matches!(
        reload_step(&status, &request, &answers, NOW),
        ReloadStep::FetchConfig
    ));
    answers.push(serving("v1", "sha1"));
    match reload_step(&status, &request, &answers, NOW) {
        ReloadStep::Apply(begun, yaml) => {
            assert_eq!(yaml, "pack: v2");
            assert_eq!(begun.lifecycle, GatewayInstanceLifecycle::Starting);
            assert_eq!(begun.rollback_target_version.as_deref(), Some("v1"));
            assert_eq!(begun.verification_state, ConfigVerificationState::Pending);
        }
        other => panic!("unexpected step: {other:?}"),
    }
    answers.push(serving("v2", "sha2"));
    assert!(matches!(
        reload_step(&status, &request, &answers, NOW),
        ReloadStep::FetchConfig
    ));
    answers.push(serving("v2", "sha2"));
    assert!(matches!(
        reload_step(&status, &request, &answers, NOW),
        ReloadStep::CheckHealth
    ));
    answers.push(healthy());
    match reload_step(&status, &request, &answers, NOW) {
        ReloadStep::Settle(outcome) => {
            assert_eq!(outcome.status.lifecycle, GatewayInstanceLifecycle::Running);
            assert_eq!(
                outcome.status.observed_config_version.as_deref(),
                Some("v2")
            );
            assert_eq!(
                outcome.status.verification_state,
                ConfigVerificationState::Verified
            );
            assert_eq!(outcome.entry.outcome, OperationOutcome::Succeeded);
            assert_eq!(outcome.entry.previous_version.as_deref(), Some("v1"));
            assert_eq!(
                outcome.report.expect("report"),
                "reloaded gw to version v2"
            );
        }
        other => panic!("unexpected step: {other:?}"),
    }
}

#[test]
fn a_failed_activation_is_rolled_back() {
    let status = record("gw").status;
    let request = reload_request();
    let mut answers = vec![
        serving("v1", "sha1"),
        serving("v2", "sha2"),
        serving("v1", "sha1"),
    ];
    match reload_step(&status, &request, &answers, NOW) {
        ReloadStep::RollBack(yaml) => assert_eq!(yaml, "pack:\n  version: target\n"),
        other => panic!("unexpected step: {other:?}"),
    }
    answers.push(serving("v1", "sha1"));
    match reload_step(&status, &request, &answers, NOW) {
        ReloadStep::Settle(outcome) => {
            assert_eq!(outcome.status.lifecycle, GatewayInstanceLifecycle::Failed);
            assert_eq!(
                outcome.status.verification_state,
                ConfigVerificationState::RolledBack
            );
            assert_eq!(outcome.entry.outcome, OperationOutcome::RolledBack);
            assert!(outcome
                .report
                .expect_err("failed")
                .to_string()
                .contains("rollback was applied"));
        }
        other => panic!("unexpected step: {other:?}"),
    }
    answers.pop();
    answers.push(unreachable_gateway());
    match reload_step(&status, &request, &answers, NOW) {
        ReloadStep::Settle(outcome) => {
            assert_eq!(
                outcome.status.verification_state,
                ConfigVerificationState::Failed
            );
            assert_eq!(outcome.entry.outcome, OperationOutcome::Failed);
            assert!(outcome
                .report
                .expect_err("failed")
                .to_string()
                .contains("rollback failed"));
        }
        other => panic!("unexpected step: {other:?}"),
    }
}

#[test]
fn a_gateway_that_refuses_the_configuration_changes_nothing() {
    let status = record("gw").status;
    let request = reload_request();
    let answers = vec![serving("v1", "sha1"), reply(false, "bad policy")];
    match reload_step(&status, &request, &answers, NOW) {
        ReloadStep::Refuse(error) => assert_eq!(
            error.to_string(),
            "proxy reload endpoint returned 503 Service Unavailable: bad policy"
        ),
        other => panic!("unexpected step: {other:?}"),
    }
}

// Revert ------------------------------------------------------------------

fn staged() -> GatewayInstanceStatus {
    let mut status = record("gw").status;
    status.lifecycle = GatewayInstanceLifecycle::Failed;
    status.observed_config_version = Some("v-current".to_string());
    status.observed_config_sha256 = Some("sha-current".to_string());
    status.rollback_target_version = Some("v-target".to_string());
    status.rollback_target_sha256 = Some("sha-target".to_string());
    status.rollback_target_yaml = Some("pack:\n  version: v-target\n".to_string());
    status.last_error = Some("prior activation failed".to_string());
    status
}

fn revert_to_end(
    name: &str,
    status: &GatewayInstanceStatus,
    live: (&str, &str),
    health: GatewayAnswer,
) -> RevertStep {
    let mut health = Some(health);
    let mut answers = vec![];
    loop {
        match revert_step(name, status, &answers, NOW) {
            RevertStep::Apply(yaml) => {
                assert_eq!(Some(yaml), status.rollback_target_yaml);
                answers.push(serving(live.0, live.1));
            }
            RevertStep::FetchConfig => answers.push(serving(live.0, live.1)),
            RevertStep::CheckHealth => answers.push(health.take().expect("asked once")),
            done => return done,
        }
    }
}

#[test]
fn verified_revert_sets_running_and_clears_rollback_evidence() {
    match revert_to_end("verified", &staged(), ("v-target", "sha-target"), healthy()) {
        RevertStep::Settle(status, entry, message) => {
            assert_eq!(status.lifecycle, GatewayInstanceLifecycle::Running);
            assert_eq!(status.observed_config_version.as_deref(), Some("v-target"));
            assert_eq!(status.observed_config_sha256.as_deref(), Some("sha-target"));
            assert_eq!(status.last_observed_healthy, Some(true));
            assert!(status.rollback_target_version.is_none());
            assert!(status.rollback_target_sha256.is_none());
            assert!(status.rollback_target_yaml.is_none());
            assert_eq!(entry.outcome, OperationOutcome::Succeeded);
            assert_eq!(message, "reverted verified");
        }
        other => panic!("unexpected step: {other:?}"),
    }
}

/// An instance whose activation failed, with the evidence of it.
fn staged_record(name: &str) -> InstanceRecord {
    let mut record = record(name);
    record.status = staged();
    record.operations_history = vec![OperationHistoryEntry {
        action: OperationAction::Reload,
        outcome: OperationOutcome::Failed,
        reason: Some("prior activation failed".to_string()),
        previous_version: Some("v-target".to_string()),
        previous_sha256: Some("sha-target".to_string()),
        target_version: Some("v-current".to_string()),
        target_sha256: Some("sha-current".to_string()),
        active_version: Some("v-current".to_string()),
        active_sha256: Some("sha-current".to_string()),
        recorded_at: NOW.to_string(),
    }];
    record
}

/// Reverts an instance and keeps in its record what the last step says is kept.
fn run_revert(
    record: &mut InstanceRecord,
    live: (&str, &str),
    health: GatewayAnswer,
) -> Result<String, CliError> {
    let name = record.spec.instance_id.clone();
    match revert_to_end(&name, &record.status, live, health) {
        RevertStep::Settle(status, entry, message) => {
            record.status = status;
            record.operations_history.push(entry);
            Ok(message)
        }
        RevertStep::Refuse(error) => Err(error),
        other => panic!("unexpected step: {other:?}"),
    }
}

fn assert_revert_evidence_retained(record: &InstanceRecord) {
    assert_eq!(record.status.lifecycle, GatewayInstanceLifecycle::Failed);
    assert_eq!(
        record.status.rollback_target_version.as_deref(),
        Some("v-target")
    );
    assert_eq!(
        record.status.rollback_target_sha256.as_deref(),
        Some("sha-target")
    );
    assert!(record.status.rollback_target_yaml.is_some());
    assert_eq!(record.operations_history.len(), 1);
    assert_eq!(
        record.operations_history[0].reason.as_deref(),
        Some("prior activation failed")
    );
}

#[test]
fn revert_rejects_reload_2xx_with_digest_mismatch_and_retains_evidence() {
    let mut record = staged_record("digest-mismatch");
    let error = run_revert(&mut record, ("v-target", "sha-other"), healthy())
        .expect_err("digest mismatch");
    assert!(error
        .to_string()
        .contains("expected active config digest sha-target but proxy is reporting sha-other"));
    assert_revert_evidence_retained(&record);
}

#[test]
fn revert_rejects_reload_2xx_with_version_mismatch_and_retains_evidence() {
    let mut record = staged_record("version-mismatch");
    let error = run_revert(&mut record, ("v-other", "sha-target"), healthy())
        .expect_err("version mismatch");
    assert!(error
        .to_string()
        .contains("expected active config version v-target but proxy is reporting v-other"));
    assert_revert_evidence_retained(&record);
}

#[test]
fn revert_rejects_unhealthy_target_and_retains_evidence() {
    let mut record = staged_record("health-mismatch");
    let health = reply(true, r#"{"status": "degraded"}"#);
    let error = run_revert(&mut record, ("v-target", "sha-target"), health)
        .expect_err("health mismatch");
    assert!(error
        .to_string()
        .contains("expected gateway health status ok but proxy is reporting degraded"));
    assert_revert_evidence_retained(&record);
}

#[test]
fn revert_records_manual_reason() {
    assert_eq!(REVERT_REASON, "manual revert requested");
    match revert_to_end("gw", &staged(), ("v-target", "sha-target"), healthy()) {
        RevertStep::Settle(status, entry, _) => {
            assert_eq!(entry.reason.as_deref(), Some("manual revert requested"));
            assert_eq!(
                status.last_rollback_reason.as_deref(),
                Some("manual revert requested")
            );
        }
        other => panic!("unexpected step: {other:?}"),
    }
}

#[test]
fn revert_output_message() {
    match revert_to_end(
        "my-gateway",
        &staged(),
        ("v-target", "sha-target"),
        healthy(),
    ) {
        RevertStep::Settle(_, _, message) => assert!(message.contains("reverted my-gateway")),
        other => panic!("unexpected step: {other:?}"),
    }
}

#[test]
fn revert_output_message_with_special_chars() {
    match revert_to_end(
        "gw-prod/region-1",
        &staged(),
        ("v-target", "sha-target"),
        healthy(),
    ) {
        RevertStep::Settle(_, _, message) => assert!(message.contains("gw-prod/region-1")),
        other => panic!("unexpected step: {other:?}"),
    }
}

#[test]
fn rollback_clears_target_fields() {
    match revert_to_end("gw", &staged(), ("v-target", "sha-target"), healthy()) {
        RevertStep::Settle(status, _, _) => {
            assert!(status.rollback_target_version.is_none());
            assert!(status.rollback_target_sha256.is_none());
            assert!(status.rollback_target_yaml.is_none());
            assert!(status.last_error.is_none());
            assert!(revert_target("gw", &status).is_err());
        }
        other => panic!("unexpected step: {other:?}"),
    }
}

#[test]
fn operation_history_entry_with_version_tracking() {
    match revert_to_end("gw", &staged(), ("v-target", "sha-target"), healthy()) {
        RevertStep::Settle(_, entry, _) => {
            assert_eq!(entry.action, OperationAction::Revert);
            assert_eq!(entry.previous_version.as_deref(), Some("v-current"));
            assert_eq!(entry.target_version.as_deref(), Some("v-target"));
            assert_eq!(entry.active_version.as_deref(), Some("v-target"));
            assert_eq!(entry.target_sha256, entry.active_sha256);
        }
        other => panic!("unexpected step: {other:?}"),
    }
}

// Reconcile ---------------------------------------------------------------

fn v4(a: u8, b: u8, c: u8, d: u8, port: u16) -> Result<ListenAddress, String> {
    Ok(ListenAddress {
        host: ListenHost::V4(a, b, c, d),
        port,
    })
}

fn v6(host: &str, port: u16) -> Result<ListenAddress, String> {
    Ok(ListenAddress {
        host: ListenHost::V6(host.to_string()),
        port,
    })
}

fn unparsed() -> Result<ListenAddress, String> {
    Err("invalid socket address syntax".to_string())
}

#[test]
fn command_helper_coverage_derive_gateway_url_maps_unspecified_bind_to_localhost() {
    assert_eq!(
        derive_gateway_url("0.0.0.0:8080", &v4(0, 0, 0, 0, 8080)).expect("ipv4 unspecified"),
        "http://127.0.0.1:8080"
    );
    assert_eq!(
        derive_gateway_url("[::]:9090", &v6("::", 9090)).expect("ipv6 unspecified"),
        "http://::1:9090"
    );
    assert_eq!(
        derive_gateway_url("10.0.0.5:41002", &v4(10, 0, 0, 5, 41002)).expect("explicit host"),
        "http://10.0.0.5:41002"
    );
}

#[test]
fn command_helper_coverage_derive_gateway_url_rejects_invalid_listen_address() {
    let error =
        derive_gateway_url("not-a-socket", &unparsed()).expect_err("invalid listen addr");
    assert!(error.to_string().contains("invalid listen address"));
}

#[test]
fn derive_gateway_url_localhost_passthrough() {
    assert_eq!(
        derive_gateway_url("127.0.0.1:3000", &v4(127, 0, 0, 1, 3000)).expect("localhost v4"),
        "http://127.0.0.1:3000"
    );
}

#[test]
fn derive_gateway_url_ipv6_localhost_passthrough() {
    assert_eq!(
        derive_gateway_url("[::1]:4000", &v6("::1", 4000)).expect("localhost v6"),
        "http://::1:4000"
    );
}

#[test]
fn derive_gateway_url_high_port() {
    assert_eq!(
        derive_gateway_url("192.168.1.1:65535", &v4(192, 168, 1, 1, 65535)).expect("high port"),
        "http://192.168.1.1:65535"
    );
}

#[test]
fn derive_gateway_url_port_zero_is_valid() {
    assert_eq!(
        derive_gateway_url("10.0.0.1:0", &v4(10, 0, 0, 1, 0)).expect("port zero"),
        "http://10.0.0.1:0"
    );
}

#[test]
fn derive_gateway_url_rejects_empty_string() {
    let error = derive_gateway_url("", &unparsed()).expect_err("empty addr");
    assert!(error.to_string().contains("invalid listen address"));
}

#[test]
fn derive_gateway_url_rejects_missing_port() {
    let error = derive_gateway_url("127.0.0.1", &unparsed()).expect_err("no port");
    assert!(error.to_string().contains("invalid listen address"));
}

#[test]
fn derive_gateway_url_ipv4_private_range() {
    assert_eq!(
        derive_gateway_url("172.16.0.1:8443", &v4(172, 16, 0, 1, 8443)).expect("private"),
        "http://172.16.0.1:8443"
    );
}

fn reconcile_request(apply_rollback: bool) -> ReconcileRequest {
    ReconcileRequest {
        instance_id: "gw".to_string(),
        gateway_url: "http://127.0.0.1:41002".to_string(),
        apply_rollback,
        cancel: false,
    }
}

fn reconcile_to_end(
    request: &ReconcileRequest,
    status: &GatewayInstanceStatus,
    live: (&str, &str),
    after_rollback: (&str, &str),
) -> ReconcileOutcome {
    let mut current = live;
    let mut answers = vec![];
    loop {
        match reconcile_step(request, status, &answers, NOW) {
            ReconcileStep::FetchConfig => answers.push(serving(current.0, current.1)),
            ReconcileStep::Apply(_) => {
                current = after_rollback;
                answers.push(serving(current.0, current.1));
            }
            ReconcileStep::Settle(outcome) => return outcome,
        }
    }
}

#[test]
fn a_gateway_that_serves_what_is_desired_is_healthy() {
    let mut status = staged();
    status.desired_config_version = Some("v-new".to_string());
    status.desired_config_sha256 = Some("sha-new".to_string());
    let outcome = reconcile_to_end(
        &reconcile_request(true),
        &status,
        ("v-new", "sha-new"),
        ("", ""),
    );
    assert!(outcome.result.healthy);
    assert!(!outcome.result.rollback_applied);
    assert_eq!(outcome.entry.outcome, OperationOutcome::Succeeded);
    assert_eq!(
        outcome.status.verification_state,
        ConfigVerificationState::Verified
    );
}

#[test]
fn a_gateway_at_its_rollback_target_is_recognised() {
    let mut status = staged();
    status.desired_config_version = Some("v-new".to_string());
    status.desired_config_sha256 = Some("sha-new".to_string());
    let outcome = reconcile_to_end(
        &reconcile_request(false),
        &status,
        ("v-target", "sha-target"),
        ("", ""),
    );
    assert_eq!(outcome.result.outcome, "rollback_verified");
    assert_eq!(
        outcome.status.verification_state,
        ConfigVerificationState::RolledBack
    );
    assert!(!outcome.result.rollback_applied);
}

#[test]
fn drift_is_rolled_back_only_on_request() {
    let mut status = staged();
    status.desired_config_version = Some("v-new".to_string());
    status.desired_config_sha256 = Some("sha-new".to_string());
    let left = reconcile_to_end(
        &reconcile_request(false),
        &status,
        ("v-odd", "sha-odd"),
        ("v-target", "sha-target"),
    );
    assert!(!left.result.healthy);
    assert_eq!(left.entry.outcome, OperationOutcome::Failed);
    assert_eq!(left.status.lifecycle, GatewayInstanceLifecycle::Failed);

    let taken = reconcile_to_end(
        &reconcile_request(true),
        &status,
        ("v-odd", "sha-odd"),
        ("v-target", "sha-target"),
    );
    assert!(taken.result.rollback_applied);
    assert_eq!(taken.entry.outcome, OperationOutcome::RolledBack);
    assert_eq!(
        taken.status.observed_config_version.as_deref(),
        Some("v-target")
    );

    let lost = reconcile_to_end(
        &reconcile_request(true),
        &status,
        ("v-odd", "sha-odd"),
        ("v-odd", "sha-odd"),
    );
    assert_eq!(lost.result.outcome, "unreachable");
    assert!(!lost.result.rollback_applied);
}

#[test]
fn an_unreachable_gateway_is_recorded_as_such() {
    let status = staged();
    let answers = vec![unreachable_gateway()];
    match reconcile_step(&reconcile_request(true), &status, &answers, NOW) {
        ReconcileStep::Settle(outcome) => {
            assert_eq!(outcome.result.outcome, "unreachable");
            assert_eq!(
                outcome.result.message,
                "failed to query proxy config: connection refused"
            );
            assert_eq!(outcome.status.last_observed_healthy, Some(false));
        }
        other => panic!("unexpected step: {other:?}"),
    }
}

#[test]
fn a_cancelled_reconciliation_asks_nothing_and_clears_the_plan() {
    let request = ReconcileRequest {
        cancel: true,
        ..reconcile_request(true)
    };
    for answers in [vec![], vec![serving("v-other", "sha-other")]] {
        match reconcile_step(&request, &staged(), &answers, NOW) {
            ReconcileStep::Settle(outcome) => {
                assert!(outcome.plan_cleared);
                assert!(outcome.result.healthy);
                assert_eq!(outcome.result.outcome, "cancelled");
                assert!(!outcome.result.rollback_applied);
                assert_eq!(outcome.entry.action, OperationAction::CancelReconcile);
                assert_eq!(outcome.entry.outcome, OperationOutcome::Succeeded);
                assert_eq!(outcome.status.last_reconciled_at.as_deref(), Some(NOW));
                assert_eq!(
                    outcome.status.last_reconciliation_outcome.as_deref(),
                    Some("cancelled")
                );
                assert_eq!(outcome.status.last_reconciliation_error, None);
                assert_eq!(outcome.status.updated_at, NOW);
            }
            other => panic!("unexpected step: {other:?}"),
        }
    }
    let carried = reconcile_to_end(
        &reconcile_request(true),
        &staged(),
        ("v-current", "sha-current"),
        ("v-target", "sha-target"),
    );
    assert!(!carried.plan_cleared);
}

#[test]
fn a_gateway_without_a_client_is_recorded_as_unreachable() {
    let answers = vec![GatewayAnswer::Unequipped("no TLS backend".to_string())];
    match reconcile_step(&reconcile_request(false), &staged(), &answers, NOW) {
        ReconcileStep::Settle(outcome) => {
            assert_eq!(outcome.result.outcome, "unreachable");
            assert_eq!(outcome.result.message, "no TLS backend");
            assert_eq!(outcome.status.lifecycle, GatewayInstanceLifecycle::Failed);
        }
        other => panic!("unexpected step: {other:?}"),
    }
    let error = read_config_answer(&answers[0]).expect_err("no client");
    assert_eq!(error.error_code(), "cli.internal");
}

#[test]
fn a_cancelled_reconciliation_keeps_what_was_observed() {
    let outcome = cancel_reconcile("gw", "http://g", &staged(), NOW);
    assert_eq!(outcome.result.outcome, "cancelled");
    assert_eq!(outcome.entry.action, OperationAction::CancelReconcile);
    assert_eq!(
        outcome.status.observed_config_version.as_deref(),
        Some("v-current")
    );
    assert_eq!(outcome.status.lifecycle, GatewayInstanceLifecycle::Failed);
}

fn reconciled(healthy: bool) -> ReconcileInstanceResult {
    ReconcileInstanceResult {
        instance_id: "gw-test".to_string(),
        gateway_url: "http://127.0.0.1:8080".to_string(),
        healthy,
        outcome: if healthy { "healthy" } else { "unreachable" }.to_string(),
        message: "live proxy is serving expected config v1".to_string(),
        observed_version: Some("v1".to_string()),
        observed_sha256: Some("abc123".to_string()),
        rollback_applied: false,
    }
}

#[test]
fn results_are_printed_and_judged() {
    assert_eq!(
        format_result(&reconciled(true)),
        "gw-test [healthy] healthy - live proxy is serving expected config v1"
    );
    assert!(format_result(&reconciled(false)).contains("attention"));
    assert!(reconcile_verdict(&vec![reconciled(true)]).is_ok());
    assert!(reconcile_verdict(&vec![reconciled(true), reconciled(false)]).is_err());
    assert!(reconcile_verdict(&vec![]).is_ok());
}

#[test]
fn the_instances_to_reconcile_are_named_or_all() {
    let registered = vec!["a".to_string(), "b".to_string()];
    assert_eq!(
        reconcile_targets(true, None, &registered).expect("all"),
        registered
    );
    assert_eq!(
        reconcile_targets(false, Some("b"), &registered).expect("one"),
        vec!["b".to_string()]
    );
    assert!(reconcile_targets(false, None, &registered).is_err());
}

// Upgrade -----------------------------------------------------------------

fn upgrade_host() -> UpgradeHost {
    UpgradeHost {
        target_binary: Ok(true),
        rollback_binary: Ok(true),
        installed: Ok(false),
        platform: Ok(ServicePlatform::SystemdUser),
        current_exe: Ok("/usr/bin/verdictan".to_string()),
        current_dir: Some("/work".to_string()),
    }
}

fn upgraded_record() -> InstanceRecord {
    let mut record = record("finance_main");
    record.status.observed_config_version = Some("2.0.0".to_string());
    record.status.observed_config_sha256 = Some("sha-observed".to_string());
    record.status.runtime_upgrade_status = Some(RuntimeUpgradeStatus {
        phase: RuntimeUpgradePhase::Succeeded,
        active_version: Some("2.0.0".to_string()),
        active_binary_path: Some("/opt/verdictan/bin/verdictan-prev".to_string()),
        target_version: Some("2.0.0".to_string()),
        target_binary_path: Some("/opt/verdictan/bin/verdictan-prev".to_string()),
        service_manager: RuntimeServiceManager::SystemdUser,
        config_sha256: Some("sha-observed".to_string()),
        last_restart_at: None,
        last_error: None,
        health_check: None,
        rollback: None,
        updated_at: Some("2026-07-05T00:00:00Z".to_string()),
    });
    record
}

fn plan_args() -> GatewayUpgradePlanArgs {
    GatewayUpgradePlanArgs {
        name: "finance-main".to_string(),
        target_version: "2.1.0".to_string(),
        binary_path: "/tmp/verdictan-new".to_string(),
        config_sha256: None,
        health_command: Some("true".to_string()),
        health_timeout_secs: 15,
        rollback_version: None,
        rollback_binary_path: None,
        service_manager: Some(ServiceManagerArg::SystemdUser),
        state_dir: None,
        assume_yes: true,
        json: false,
    }
}

fn plan() -> RuntimeUpgradePlan {
    build_plan_from_args(&upgraded_record(), &plan_args(), &upgrade_host(), NOW).expect("plan")
}

#[test]
fn build_plan_uses_existing_runtime_as_rollback_checkpoint() {
    let plan = plan();
    assert_eq!(plan.target_version, "2.1.0");
    assert_eq!(plan.rollback.version, "2.0.0");
    assert_eq!(
        plan.rollback.binary_path,
        "/opt/verdictan/bin/verdictan-prev"
    );
    assert_eq!(plan.service_manager, RuntimeServiceManager::SystemdUser);
}

#[test]
fn a_plan_needs_a_binary_and_a_version_to_go_back_to() {
    let mut host = upgrade_host();
    host.target_binary = Ok(false);
    let error = build_plan_from_args(&upgraded_record(), &plan_args(), &host, NOW)
        .expect_err("not a file");
    assert!(error.to_string().contains("must point to a file"));
    host.target_binary = Err("denied".to_string());
    let error = build_plan_from_args(&upgraded_record(), &plan_args(), &host, NOW)
        .expect_err("not readable");
    assert!(error.to_string().contains("is not readable: denied"));
    let error = build_plan_from_args(&record("gw"), &plan_args(), &upgrade_host(), NOW)
        .expect_err("no version");
    assert!(error.to_string().contains("--rollback-version"));
    assert_eq!(
        validate_binary_path("/bin/x", &Ok(true)).expect("file"),
        "/bin/x"
    );
}

fn apply_args() -> GatewayUpgradeApplyArgs {
    GatewayUpgradeApplyArgs {
        name: "finance-main".to_string(),
        target_version: None,
        binary_path: None,
        config_sha256: None,
        health_command: None,
        health_timeout_secs: 30,
        rollback_version: None,
        rollback_binary_path: None,
        service_manager: None,
        state_dir: None,
        assume_yes: true,
        json: false,
    }
}

#[test]
fn applying_takes_the_recorded_plan_or_the_arguments() {
    let mut record = upgraded_record();
    let error = build_plan_from_optional_args(&record, &apply_args(), &upgrade_host(), NOW)
        .expect_err("no plan");
    assert!(error.to_string().contains("no runtime upgrade plan found"));
    record.status.runtime_upgrade_plan = Some(plan());
    let recorded = build_plan_from_optional_args(&record, &apply_args(), &upgrade_host(), NOW)
        .expect("recorded");
    assert_eq!(recorded.target_version, "2.1.0");

    let mut args = apply_args();
    args.binary_path = Some("/tmp/other".to_string());
    let error = build_plan_from_optional_args(&record, &args, &upgrade_host(), NOW)
        .expect_err("no target");
    assert!(error.to_string().contains("--target-version is required"));
    args.target_version = Some("3.0.0".to_string());
    args.binary_path = None;
    let error = build_plan_from_optional_args(&record, &args, &upgrade_host(), NOW)
        .expect_err("no binary");
    assert!(error.to_string().contains("--binary-path is required"));
}

#[test]
fn the_service_manager_is_asked_for_or_found_out() {
    let mut host = upgrade_host();
    assert_eq!(
        infer_service_manager(Some(ServiceManagerArg::Launchd), &host).expect("asked"),
        RuntimeServiceManager::Launchd
    );
    assert_eq!(
        infer_service_manager(None, &host).expect("not installed"),
        RuntimeServiceManager::Manual
    );
    host.installed = Ok(true);
    assert_eq!(
        infer_service_manager(None, &host).expect("installed"),
        RuntimeServiceManager::SystemdUser
    );
    host.platform = Err(CliError::user("unsupported".to_string()));
    assert!(infer_service_manager(None, &host).is_err());
}

#[test]
fn an_upgrade_runs_from_plan_to_rollback() {
    let record = upgraded_record();
    let plan = plan();
    let planned = record_plan(&record.status, &plan, &upgrade_host().current_exe, NOW)
        .expect("planned");
    assert_eq!(planned.entry.action, OperationAction::UpgradePlan);
    let begun = begin_apply(&planned.status, &plan, &upgrade_host().current_exe, NOW)
        .expect("begun");
    assert_eq!(
        begun.runtime_upgrade_status.as_ref().expect("upgrade").phase,
        RuntimeUpgradePhase::Applying
    );
    let (done, verdict) = finish_apply(&begun, &plan, None, NOW);
    assert!(verdict.is_ok());
    assert_eq!(
        current_active_version(&done.status).as_deref(),
        Some("2.1.0")
    );
    assert_eq!(
        current_active_binary_path(&done.status, &upgrade_host().current_exe).expect("binary"),
        "/tmp/verdictan-new"
    );
    let checkpoint = rollback_record(&done.status).expect("checkpoint");
    let back = finish_rollback(
        &done.status,
        &checkpoint,
        RuntimeServiceManager::Manual,
        NOW,
    );
    assert_eq!(
        current_active_version(&back.status).as_deref(),
        Some("2.0.0")
    );
    assert_eq!(back.entry.action, OperationAction::UpgradeRollback);
    assert!(rollback_record(&record.status).is_err());
}

fn check() -> RuntimeUpgradeHealthCheck {
    RuntimeUpgradeHealthCheck {
        command: "true".to_string(),
        timeout_secs: 15,
        working_directory: None,
        last_exit_code: None,
        last_stdout_preview: None,
        last_stderr_preview: None,
        passed: None,
        checked_at: None,
    }
}

#[test]
fn a_failing_health_check_fails_the_upgrade() {
    let plan = plan();
    let begun = begin_apply(
        &upgraded_record().status,
        &plan,
        &upgrade_host().current_exe,
        NOW,
    )
    .expect("begun");
    let run = CheckRun::Ended(Some(1), false, None, Some("no".to_string()));
    let failed = run_health_check(&check(), run, NOW).expect("ran");
    assert_eq!(failed.passed, Some(false));
    assert_eq!(failed.last_exit_code, Some(1));
    let (record, verdict) = finish_apply(&begun, &plan, Some(failed), NOW);
    assert_eq!(
        verdict.expect_err("failed").to_string(),
        HEALTH_CHECK_FAILED
    );
    assert_eq!(record.entry.outcome, OperationOutcome::Failed);
    assert_eq!(
        current_active_version(&record.status).as_deref(),
        Some("2.0.0")
    );
}

#[test]
fn health_checks_end_pass_time_out_or_do_not_run() {
    let passed = run_health_check(&check(), CheckRun::Ended(Some(0), true, None, None), NOW)
        .expect("ran");
    assert_eq!(passed.passed, Some(true));
    assert_eq!(passed.checked_at.as_deref(), Some(NOW));
    let late = run_health_check(&check(), CheckRun::TimedOut, NOW).expect("late");
    assert_eq!(late.passed, Some(false));
    assert_eq!(
        late.last_stderr_preview.as_deref(),
        Some("health check timed out")
    );
    let error = run_health_check(&check(), CheckRun::NotRun("no shell".to_string()), NOW)
        .expect_err("not run");
    assert!(error
        .to_string()
        .contains("failed to run upgrade health check: no shell"));
    assert_eq!(health_check_seconds(&check()), 15);
    let mut hasty = check();
    hasty.timeout_secs = 0;
    assert_eq!(health_check_seconds(&hasty), 1);
}

#[test]
fn previews_are_trimmed_and_cut() {
    assert_eq!(preview_text("  ok \n").as_deref(), Some("ok"));
    assert_eq!(preview_text("  \n"), None);
    let long = "x".repeat(300);
    let shown = preview_text(&long).expect("preview");
    assert_eq!(shown, format!("{}...", "x".repeat(PREVIEW_BYTES)));
    assert_eq!(
        try_preview_bytes(b"a\xffb"),
        Some(Some("a\u{fffd}b".to_string()))
    );
    let mut split = "x".repeat(PREVIEW_BYTES - 1);
    split.push('\u{e9}');
    split.push_str("tail");
    assert_eq!(try_preview_bytes(split.as_bytes()), None);
    match ended_check(Some(0), true, b" out ", b"").expect("printable") {
        CheckRun::Ended(code, success, stdout, stderr) => {
            assert_eq!((code, success), (Some(0), true));
            assert_eq!(stdout.as_deref(), Some("out"));
            assert_eq!(stderr, None);
        }
        other => panic!("unexpected end: {other:?}"),
    }
    assert!(ended_check(None, false, b"", split.as_bytes()).is_none());
}

#[test]
fn only_managed_services_are_reinstalled() {
    let mut plan = plan();
    assert!(upgrade_reinstalls_service(&plan, true));
    plan.service_manager = RuntimeServiceManager::Manual;
    assert!(!upgrade_reinstalls_service(&plan, false));
}

#[test]
fn upgrades_are_reported() {
    let plan = Some(plan());
    let status = upgraded_record().status.runtime_upgrade_status;
    let lines = upgrade_report("status", "finance_main", &plan, &status);
    assert_eq!(lines[0], "status: finance_main");
    assert!(lines.contains(&"phase: succeeded".to_string()));
    assert!(lines.contains(&"active version: 2.0.0".to_string()));
    assert_eq!(
        runtime_phase_label(RuntimeUpgradePhase::RolledBack),
        "rolled_back"
    );
}

#[test]
fn the_upgraded_service_runs_the_new_binary() {
    let spec = build_service_spec(
        &upgraded_record(),
        &ResolvedSecrets {
            upstream_api_key: None,
            admin_token: None,
        },
        "/state",
        "/opt/new",
        &env(&[("VERDICTAN_API_TOKEN", "tok")]),
        "https://api.test",
    );
    assert_eq!(spec.binary_path_override.as_deref(), Some("/opt/new"));
    assert_eq!(spec.api_token.as_deref(), Some("tok"));
    assert_eq!(
        spec.command_override.expect("command"),
        start_command("finance_main", "/state")
    );
}

// Install -----------------------------------------------------------------

#[test]
fn command_helper_coverage_resolve_agent_id_arg_prefers_flag_then_env() {
    let process = env(&[("VERDICTAN_AGENT_ID", "  agent-env  ")]);
    assert_eq!(
        resolve_agent_id_arg(Some("  agent-flag  "), &EnvMap::new()),
        Some("agent-flag".to_string())
    );
    assert_eq!(
        resolve_agent_id_arg(None, &process),
        Some("agent-env".to_string())
    );
    assert_eq!(resolve_agent_id_arg(Some("   "), &EnvMap::new()), None);
}

#[test]
fn command_helper_coverage_resolve_agent_name_arg_checks_aliases() {
    assert_eq!(
        resolve_agent_name_arg(Some("  display-name  "), &EnvMap::new()),
        Some("display-name".to_string())
    );
    assert_eq!(
        resolve_agent_name_arg(None, &env(&[("VERDICTAN_AGENT_NAME", "env-agent")])),
        Some("env-agent".to_string())
    );
    assert_eq!(
        resolve_agent_name_arg(None, &env(&[("VERDICTAN_AGENT_NAME", "verdictan-agent")])),
        Some("verdictan-agent".to_string())
    );
}

#[test]
fn command_helper_coverage_copy_nonempty_env_skips_existing_and_blank_values() {
    let mut target = env(&[("VERDICTAN_API_TOKEN", "preset")]);
    copy_nonempty_env(
        &mut target,
        "VERDICTAN_API_TOKEN",
        &env(&[("VERDICTAN_API_TOKEN", "from-env")]),
    );
    assert_eq!(target.get("VERDICTAN_API_TOKEN"), Some("preset"));

    copy_nonempty_env(
        &mut target,
        "VERDICTAN_OTLP_ENDPOINT",
        &env(&[("VERDICTAN_OTLP_ENDPOINT", "   ")]),
    );
    assert!(!target.contains_key("VERDICTAN_OTLP_ENDPOINT"));

    copy_nonempty_env(
        &mut target,
        "VERDICTAN_OTLP_ENDPOINT",
        &env(&[("VERDICTAN_OTLP_ENDPOINT", "http://otel:4317")]),
    );
    assert_eq!(
        target.get("VERDICTAN_OTLP_ENDPOINT"),
        Some("http://otel:4317")
    );
}

#[test]
fn command_helper_coverage_populate_service_runtime_env_uses_defaults_and_copies() {
    let mut target = EnvMap::new();
    populate_service_runtime_env(
        &mut target,
        &env(&[("VERDICTAN_API_TOKEN", "runtime-token")]),
        "https://api.verdictan.com",
    );
    assert_eq!(
        target.get("VERDICTAN_API_URL"),
        Some("https://api.verdictan.com")
    );
    assert_eq!(target.get("VERDICTAN_API_TOKEN"), Some("runtime-token"));
}

#[test]
fn resolve_agent_id_arg_returns_none_for_all_blank() {
    assert_eq!(resolve_agent_id_arg(None, &EnvMap::new()), None);
}

#[test]
fn resolve_agent_name_arg_returns_none_when_all_unset() {
    assert_eq!(resolve_agent_name_arg(None, &EnvMap::new()), None);
}

#[test]
fn connected_mode_from_env_always_true() {
    assert!(connected_mode_from_env());
}

#[test]
fn platform_name_returns_expected_strings() {
    assert_eq!(platform_name(&ServicePlatform::Launchd), "launchd");
    assert_eq!(
        platform_name(&ServicePlatform::SystemdUser),
        "systemd --user"
    );
}

fn install_args() -> GatewayInstallArgs {
    GatewayInstallArgs {
        name: "gw".to_string(),
        listen: None,
        upstream: None,
        upstream_api_key_header: Some("x-key".to_string()),
        upstream_api_key_prefix: None,
        fail_mode: "block".to_string(),
        policy_config: vec!["/tmp/policy.yaml".to_string()],
        max_concurrency: Some(4),
        agent_id: None,
        agent_name: Some("agent".to_string()),
        state_dir: None,
    }
}

#[test]
fn installs_take_the_instance_or_the_arguments() {
    let mut record = record("gw");
    record.spec.upstream_api_key = Some(SecretReference::env_var("KEY"));
    let secrets = ResolvedSecrets {
        upstream_api_key: Some("secret".to_string()),
        admin_token: None,
    };
    let process = env(&[("VERDICTAN_API_TOKEN", "tok")]);
    let supervised = instance_install_spec(
        &install_args(),
        &record,
        &secrets,
        "/state",
        &process,
        "https://api.test",
    );
    assert_eq!(
        supervised.command_override.expect("command"),
        start_command("gw", "/state")
    );
    assert_eq!(
        supervised.env.get("VERDICTAN_UPSTREAM_API_KEY"),
        Some("secret")
    );
    assert_eq!(supervised.listen, "127.0.0.1:41002");

    let plain = plain_install_spec(&install_args(), true, &process, "https://api.test");
    assert!(plain.connected_mode);
    assert!(plain.command_override.is_none());
    assert_eq!(plain.max_concurrency, Some(4));
    assert_eq!(plain.env.get("VERDICTAN_API_URL"), Some("https://api.test"));
    assert_eq!(plain.env.get("VERDICTAN_AGENT_NAME"), Some("agent"));
}

#[test]
fn supervised_services_know_their_secrets() {
    let mut target = EnvMap::new();
    set_value(&mut target, "A", None);
    assert!(target.is_empty());
    set_secret(
        &mut target,
        "KEY",
        "KEY_SOURCE",
        &Some(SecretReference::env_var("ORIGIN")),
        Some("value"),
    );
    assert_eq!(target.get("KEY"), Some("value"));
    let supervised = build_supervised_env(
        &record("gw").spec,
        &ResolvedSecrets {
            upstream_api_key: None,
            admin_token: None,
        },
    );
    assert!(!supervised.contains_key("VERDICTAN_UPSTREAM_API_KEY"));
}

#[test]
fn installs_are_recorded_with_their_outcome() {
    let record = record("gw");
    let done = record_install(&record, &Ok(ServicePlatform::SystemdUser), NOW);
    assert_eq!(done.action, OperationAction::Install);
    assert_eq!(done.outcome, OperationOutcome::Succeeded);
    let failed = record_install(&record, &Err(CliError::user("denied".to_string())), NOW);
    assert_eq!(failed.outcome, OperationOutcome::Failed);
    assert_eq!(failed.reason.as_deref(), Some("denied"));
    let lines = installed_lines(&ServicePlatform::SystemdUser, "gw", "/f");
    assert!(lines[0].contains("systemd --user"));
    assert!(lines.iter().any(|line| line.contains("/f")));
}

// Check -------------------------------------------------------------------

fn target(id: &str, provider: &str, model: &str, base_url: &str) -> ProviderTarget {
    ProviderTarget {
        id: id.to_string(),
        provider: provider.to_string(),
        model: model.to_string(),
        base_url: base_url.to_string(),
        timeout: "30s".to_string(),
        api_key: String::new(),
        secret_key_ref: None,
        required: false,
        requires_resolved_api_key: false,
    }
}

fn optional_openai() -> ProviderTarget {
    target(
        "optional-openai",
        "openai",
        "gpt-5.4-mini",
        "https://api.openai.com/v1",
    )
}

fn required_anthropic() -> ProviderTarget {
    let mut anthropic = target(
        "required-anthropic",
        "anthropic",
        "sonnet-latest",
        "https://api.anthropic.com",
    );
    anthropic.required = true;
    anthropic.requires_resolved_api_key = true;
    anthropic.secret_key_ref = Some("ANTHROPIC_API_KEY".to_string());
    anthropic
}

fn checked(targets: Option<Vec<ProviderTarget>>, chain: &[&str]) -> CheckedConfig {
    CheckedConfig {
        config_version: "1.0.0".to_string(),
        config_sha256: "abc".to_string(),
        provider_registry: targets.map(|targets| ProviderRegistry {
            targets,
            strategy: "round_robin".to_string(),
        }),
        chain_entries: chain.iter().map(|kind| kind.to_string()).collect(),
    }
}

#[test]
fn report_marks_missing_providers_not_ready() {
    let lines = build_report_lines("policy-config.yaml", &checked(None, &[]), false);

    assert!(lines.contains(&"No providers section found.".to_string()));
    assert!(lines.contains(&"\u{2717} Status: Not Ready".to_string()));
    assert!(lines.contains(&"  - No providers configured".to_string()));
}

#[test]
fn report_renders_verbose_provider_readiness() {
    let loaded = checked(Some(vec![optional_openai(), required_anthropic()]), &[]);
    let lines = build_report_lines("policy-config.yaml", &loaded, true);

    assert!(lines.contains(&"Active providers (1):".to_string()));
    assert!(lines.contains(&"  \u{2713} optional-openai".to_string()));
    assert!(lines.contains(&"      provider: openai, model: gpt-5.4-mini".to_string()));
    assert!(lines.contains(&"Inactive providers (1):".to_string()));
    assert!(lines
        .contains(&"  \u{2717} required-anthropic \u{2014} credential unresolved".to_string()));
    assert!(lines.contains(&"\u{2717} Status: Not Ready".to_string()));
    assert!(lines.contains(
        &"  - Required provider 'required-anthropic' has unresolved credentials".to_string()
    ));
}

#[test]
fn run_reports_missing_config_file() {
    let err = missing_config_error("missing-policy-config.yaml");
    assert!(err.to_string().contains("config file not found"));
}

#[test]
fn run_succeeds_for_valid_on_disk_config() {
    check_verdict(&checked(Some(vec![optional_openai()]), &[])).expect("gateway check succeeds");
}

#[test]
fn report_verbose_includes_routing_and_policy_chain_details() {
    let mut openai = optional_openai();
    openai.api_key = "inline-key".to_string();
    let loaded = checked(Some(vec![openai]), &["prompt-injection", "pii-detector"]);
    let lines = build_report_lines("policy-config.yaml", &loaded, true);

    assert!(lines.iter().any(|line| line.contains("Routing strategy:")));
    assert!(lines
        .iter()
        .any(|line| line.contains("Policy chain: 2 rule(s)")));
    assert!(lines
        .iter()
        .any(|line| line.contains("[1] prompt-injection")));
    assert!(lines.iter().any(|line| line.contains("timeout:")));
}

#[test]
fn report_marks_not_ready_when_required_credentials_missing() {
    let loaded = checked(Some(vec![required_anthropic()]), &[]);
    let lines = build_report_lines("policy-config.yaml", &loaded, false);

    assert!(lines.contains(&"\u{2717} Status: Not Ready".to_string()));
    assert!(lines.contains(
        &"  - Required provider 'required-anthropic' has unresolved credentials".to_string()
    ));
    assert!(!is_gateway_ready(&loaded));
    assert!(check_verdict(&loaded).is_err());
}

#[test]
fn report_marks_ready_when_active_providers_present() {
    let mut openai = optional_openai();
    openai.api_key = "inline-key".to_string();
    let loaded = checked(Some(vec![openai]), &[]);
    let lines = build_report_lines("policy-config.yaml", &loaded, false);

    assert!(lines.contains(&"\u{2713} Status: Ready".to_string()));
    assert!(lines.contains(&"Active providers (1):".to_string()));
    assert!(!lines.iter().any(|line| line.contains("Inactive providers")));
    assert!(is_gateway_ready(&loaded));
}

#[test]
fn build_report_lines_includes_config_name_and_version() {
    let mut provider = target("test-provider", "openai", "gpt-5.4", "https://api.openai.com/v1");
    provider.api_key = "key".to_string();
    let mut loaded = checked(Some(vec![provider]), &[]);
    loaded.config_version = "2.5.0".to_string();
    let lines = build_report_lines("custom-config.yaml", &loaded, false);
    assert!(lines.iter().any(|line| line.contains("custom-config.yaml")));
    assert!(lines.iter().any(|line| line.contains("Version:")));
    assert!(lines.iter().any(|line| line.contains("SHA256:")));
}

#[test]
fn report_non_verbose_excludes_timeout_detail() {
    let mut openai = optional_openai();
    openai.api_key = "key".to_string();
    let lines = build_report_lines(
        "policy-config.yaml",
        &checked(Some(vec![openai]), &[]),
        false,
    );
    assert!(!lines.iter().any(|line| line.contains("timeout:")));
}

#[test]
fn gateway_check_args_debug_impl() {
    let args = GatewayCheckArgs {
        config: "policy.yaml".to_string(),
        verbose: true,
    };
    let debug = format!("{:?}", args);
    assert!(debug.contains("policy.yaml"));
    assert!(debug.contains("true"));
}

#[test]
fn providers_are_sorted_by_their_credentials() {
    assert!(matches!(
        classify_provider(&optional_openai()),
        ProviderClassification::Active
    ));
    let mut keyless = optional_openai();
    keyless.requires_resolved_api_key = true;
    assert!(matches!(
        classify_provider(&keyless),
        ProviderClassification::Inactive("no api_key or secret_key_ref")
    ));
    let registry = ProviderRegistry {
        targets: vec![optional_openai(), required_anthropic(), keyless],
        strategy: "first".to_string(),
    };
    let summary = summarize_provider_registry(&registry);
    assert_eq!(summary.active.len(), 1);
    assert_eq!(summary.inactive.len(), 2);
    assert_eq!(summary.required_missing.len(), 1);
    assert_eq!(summary.required_missing[0].id, "required-anthropic");
}
