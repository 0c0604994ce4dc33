use verdictan::error::{require_api_token, CliError};
use verdictan::gateway_create::{
    build_instance_spec, created_lines, resolve_gateway_name_with, secret_reference,
    GatewayCreateArgs,
};
use verdictan::gateway_diff::{
    diff_lines, latest_diff, no_history_message, version_changed, DiffOutput,
};
use verdictan::gateway_history::{
    action_label, build_operation_entry, filter_history, history_filter_label, matches_filter,
    operation_entry_at, HistoryActionFilter,
};
use verdictan::gateway_inspect::{inspect, GatewayInspectArgs};
use verdictan::gateway_list::{
    local_lines, recovery_warning, remote_lines, GatewayListArgs, InstanceSummary,
    GATEWAYS_PATH,
};
use verdictan::gateway_service::{ServicePlatform, ServiceStatus};
use verdictan::gateway_start::{
    after_load, after_runtime, after_service_start, apply_runtime_upgrade_env,
    infer_runtime_service_manager, invoked_by_service, running_status, set_optional_env,
    starting_status, GatewayStartArgs, StartAction,
};
use verdictan::gateway_status::{
    format_history_entry, render_supervisor_record, service_report, show_record,
    GatewayStatusArgs, RecordOutput,
};
use verdictan::gateway_stop::{record_stop, stopped_message, GatewayStopArgs};
use verdictan::gateway_uninstall::{
    platform_name, record_uninstall, removed_lines, GatewayUninstallArgs,
};
use verdictan::instances::{
    choose_state_dir, missing_instance_error, ConfigVerificationState, GatewayInstanceLifecycle,
    GatewayInstanceSpec, GatewayInstanceStatus, InstanceRecord, LoadedConfig, OperationAction,
    OperationHistoryEntry, OperationOutcome, SecretReference, SupervisorStateMetadata,
};
use verdictan::json::{Json, Number};
use verdictan::runtime_upgrade::{
    RuntimeServiceManager, RuntimeUpgradePhase, RuntimeUpgradeStatus,
};

fn convert(value: &serde_json::Value) -> Json {
    match value {
        serde_json::Value::Null => Json::Null,
        serde_json::Value::Bool(b) => Json::Bool(*b),
        serde_json::Value::Number(n) => Json::Number(match (n.as_i64(), n.as_u64()) {
            (Some(i), _) => Number::Integer(i),
            (None, Some(u)) => Number::Unsigned(u),
            (None, None) => Number::Other(n.to_string()),
        }),
        serde_json::Value::String(s) => Json::Text(s.clone()),
        serde_json::Value::Array(items) => Json::Array(items.iter().map(convert).collect()),
        serde_json::Value::Object(members) => Json::Object(
            members.iter().map(|(k, v)| (k.clone(), convert(v))).collect(),
        ),
    }
}

fn json(text: &str) -> Json {
    convert(&serde_json::from_str(text).expect("test json"))
}

const NOW: &str = "2026-06-23T12:00:00+00:00";

fn spec(name: &str) -> GatewayInstanceSpec {
    GatewayInstanceSpec {
        instance_id: name.to_string(),
        gateway_id: format!("{name}_gw"),
        name: name.to_string(),
        listen_addr: "127.0.0.1:41002".to_string(),
        upstream_base_url: "https://api.example.com".to_string(),
        upstream_api_key: None,
        upstream_api_key_header: None,
        upstream_api_key_prefix: None,
        fail_mode: "block".to_string(),
        policy_paths: vec!["/tmp/policy.yaml".to_string()],
        max_concurrency: 8,
        admin_token: None,
        admin_local_only: true,
    }
}

fn fresh_record(name: &str) -> InstanceRecord {
    InstanceRecord {
        spec: spec(name),
        status: GatewayInstanceStatus::fresh("2026-06-23T09:00:00Z"),
        operations_history: vec![],
        rollout_plan: None,
    }
}

fn sample_record() -> InstanceRecord {
    let mut record = fresh_record("finance_main");
    record.status.lifecycle = GatewayInstanceLifecycle::Running;
    record.status.observed_config_version = Some("2.0.0".to_string());
    record.status.observed_config_sha256 = Some("sha-256".to_string());
    record.status.last_error = Some("last failure".to_string());
    record.status.last_reconciled_at = Some("2026-06-23T10:00:00Z".to_string());
    record.status.last_reconciliation_outcome = Some("rollback_verified".to_string());
    record.status.last_reconciliation_error = Some("transient upstream drift".to_string());
    record.operations_history = vec![
        OperationHistoryEntry {
            action: OperationAction::Reload,
            outcome: OperationOutcome::Succeeded,
            reason: Some("rolled config forward".to_string()),
            previous_version: Some("1.0.0".to_string()),
            previous_sha256: Some("sha-old".to_string()),
            target_version: Some("2.0.0".to_string()),
            target_sha256: Some("sha-256".to_string()),
            active_version: Some("2.0.0".to_string()),
            active_sha256: Some("sha-256".to_string()),
            recorded_at: "2026-06-23T10:01:00Z".to_string(),
        },
        OperationHistoryEntry {
            action: OperationAction::Stop,
            outcome: OperationOutcome::Failed,
            reason: Some("service manager unavailable".to_string()),
            previous_version: None,
            previous_sha256: None,
            target_version: None,
            target_sha256: None,
            active_version: None,
            active_sha256: None,
            recorded_at: "2026-06-23T10:02:00Z".to_string(),
        },
    ];
    record
}

fn supervisor(state_dir: &str) -> SupervisorStateMetadata {
    SupervisorStateMetadata {
        state_dir: state_dir.to_string(),
        recovered_from_backup: false,
        recovery_message: None,
        wal_recovered: false,
        state_checksum: None,
    }
}

fn make_entry(action: OperationAction) -> OperationHistoryEntry {
    OperationHistoryEntry {
        action,
        outcome: OperationOutcome::Succeeded,
        reason: None,
        previous_version: None,
        previous_sha256: None,
        target_version: None,
        target_sha256: None,
        active_version: None,
        active_sha256: None,
        recorded_at: "2025-01-01T00:00:00Z".into(),
    }
}

fn versions(
    previous: Option<&str>,
    previous_sha: Option<&str>,
    active: Option<&str>,
    active_sha: Option<&str>,
) -> OperationHistoryEntry {
    let mut entry = make_entry(OperationAction::Reload);
    entry.previous_version = previous.map(str::to_string);
    entry.previous_sha256 = previous_sha.map(str::to_string);
    entry.active_version = active.map(str::to_string);
    entry.active_sha256 = active_sha.map(str::to_string);
    entry
}

fn loaded(version: &str) -> LoadedConfig {
    LoadedConfig {
        config_version: version.to_string(),
        config_sha256: format!("sha-{version}"),
    }
}

// History -----------------------------------------------------------------

#[test]
fn action_label_all_variants() {
    assert_eq!(action_label(OperationAction::Reload), "reload");
    assert_eq!(action_label(OperationAction::Reconcile), "reconcile");
    assert_eq!(
        action_label(OperationAction::CancelReconcile),
        "cancel_reconcile"
    );
    assert_eq!(action_label(OperationAction::Revert), "revert");
    assert_eq!(action_label(OperationAction::Install), "install");
    assert_eq!(action_label(OperationAction::Start), "start");
    assert_eq!(action_label(OperationAction::Stop), "stop");
    assert_eq!(action_label(OperationAction::Uninstall), "uninstall");
}

#[test]
fn history_filter_label_all_variants() {
    assert_eq!(history_filter_label(HistoryActionFilter::Reload), "reload");
    assert_eq!(
        history_filter_label(HistoryActionFilter::Reconcile),
        "reconcile"
    );
    assert_eq!(history_filter_label(HistoryActionFilter::Revert), "revert");
    assert_eq!(
        history_filter_label(HistoryActionFilter::Install),
        "install"
    );
    assert_eq!(history_filter_label(HistoryActionFilter::Start), "start");
    assert_eq!(history_filter_label(HistoryActionFilter::Stop), "stop");
    assert_eq!(
        history_filter_label(HistoryActionFilter::Uninstall),
        "uninstall"
    );
}

#[test]
fn matches_filter_reload() {
    assert!(matches_filter(
        OperationAction::Reload,
        HistoryActionFilter::Reload
    ));
    assert!(!matches_filter(
        OperationAction::Reload,
        HistoryActionFilter::Stop
    ));
}

#[test]
fn matches_filter_reconcile_includes_cancel() {
    assert!(matches_filter(
        OperationAction::Reconcile,
        HistoryActionFilter::Reconcile
    ));
    assert!(matches_filter(
        OperationAction::CancelReconcile,
        HistoryActionFilter::Reconcile
    ));
}

#[test]
fn matches_filter_negative_cases() {
    assert!(!matches_filter(
        OperationAction::Revert,
        HistoryActionFilter::Install
    ));
    assert!(!matches_filter(
        OperationAction::Start,
        HistoryActionFilter::Stop
    ));
    assert!(!matches_filter(
        OperationAction::Install,
        HistoryActionFilter::Uninstall
    ));
}

#[test]
fn filter_history_empty() {
    let entries: Vec<OperationHistoryEntry> = vec![];
    let result = filter_history(&entries, 10, None);
    assert!(result.is_empty());
}

#[test]
fn filter_history_no_filter_respects_limit() {
    let entries = vec![
        make_entry(OperationAction::Reload),
        make_entry(OperationAction::Start),
        make_entry(OperationAction::Stop),
    ];
    let result = filter_history(&entries, 2, None);
    assert_eq!(result.len(), 2);
}

#[test]
fn filter_history_returns_most_recent_first() {
    let entries = vec![
        make_entry(OperationAction::Install),
        make_entry(OperationAction::Reload),
        make_entry(OperationAction::Stop),
    ];
    let result = filter_history(&entries, 10, None);
    assert_eq!(result.len(), 3);
    assert_eq!(result[0].action, OperationAction::Stop);
}

#[test]
fn filter_history_with_action_filter() {
    let entries = vec![
        make_entry(OperationAction::Reload),
        make_entry(OperationAction::Start),
        make_entry(OperationAction::Reload),
    ];
    let result = filter_history(&entries, 10, Some(HistoryActionFilter::Reload));
    assert_eq!(result.len(), 2);
    for entry in &result {
        assert_eq!(entry.action, OperationAction::Reload);
    }
}

#[test]
fn filter_history_limit_zero_treated_as_one() {
    let entries = vec![
        make_entry(OperationAction::Reload),
        make_entry(OperationAction::Start),
    ];
    let result = filter_history(&entries, 0, None);
    assert_eq!(result.len(), 1);
}

#[test]
fn filter_history_limit_exceeds_entries() {
    let entries = vec![make_entry(OperationAction::Reload)];
    let result = filter_history(&entries, 100, None);
    assert_eq!(result.len(), 1);
}

#[test]
fn filter_history_with_action_filter_no_match() {
    let entries = vec![
        make_entry(OperationAction::Reload),
        make_entry(OperationAction::Start),
    ];
    let result = filter_history(&entries, 10, Some(HistoryActionFilter::Uninstall));
    assert!(result.is_empty());
}

#[test]
fn matches_filter_all_action_filter_combinations() {
    assert!(matches_filter(
        OperationAction::Revert,
        HistoryActionFilter::Revert
    ));
    assert!(matches_filter(
        OperationAction::Install,
        HistoryActionFilter::Install
    ));
    assert!(matches_filter(
        OperationAction::Start,
        HistoryActionFilter::Start
    ));
    assert!(matches_filter(
        OperationAction::Stop,
        HistoryActionFilter::Stop
    ));
    assert!(matches_filter(
        OperationAction::Uninstall,
        HistoryActionFilter::Uninstall
    ));
}

#[test]
fn action_label_cancel_reconcile() {
    assert_eq!(
        action_label(OperationAction::CancelReconcile),
        "cancel_reconcile"
    );
}

#[test]
fn operation_history_entry_manual_construction() {
    let entry = OperationHistoryEntry {
        action: OperationAction::Reload,
        outcome: OperationOutcome::Succeeded,
        reason: Some("test reason".to_string()),
        previous_version: None,
        previous_sha256: None,
        target_version: None,
        target_sha256: None,
        active_version: None,
        active_sha256: None,
        recorded_at: "2025-01-01T00:00:00Z".into(),
    };
    assert_eq!(entry.action, OperationAction::Reload);
    assert_eq!(entry.outcome, OperationOutcome::Succeeded);
    assert_eq!(entry.reason.as_deref(), Some("test reason"));
    assert!(!entry.recorded_at.is_empty());
}

#[test]
fn operation_history_entry_with_all_version_fields() {
    let entry = OperationHistoryEntry {
        action: OperationAction::Reconcile,
        outcome: OperationOutcome::RolledBack,
        reason: Some("drift detected".to_string()),
        previous_version: Some("1.0.0".to_string()),
        previous_sha256: Some("sha-prev".to_string()),
        target_version: Some("2.0.0".to_string()),
        target_sha256: Some("sha-target".to_string()),
        active_version: Some("1.0.0".to_string()),
        active_sha256: Some("sha-prev".to_string()),
        recorded_at: "2025-06-01T00:00:00Z".into(),
    };
    assert_eq!(entry.previous_version.as_deref(), Some("1.0.0"));
    assert_eq!(entry.previous_sha256.as_deref(), Some("sha-prev"));
    assert_eq!(entry.target_version.as_deref(), Some("2.0.0"));
    assert_eq!(entry.target_sha256.as_deref(), Some("sha-target"));
    assert_eq!(entry.active_version.as_deref(), Some("1.0.0"));
    assert_eq!(entry.active_sha256.as_deref(), Some("sha-prev"));
}

#[test]
fn upgrade_filter_matches_every_upgrade_action() {
    for action in [
        OperationAction::UpgradePlan,
        OperationAction::UpgradeApply,
        OperationAction::UpgradeRollback,
    ] {
        assert!(matches_filter(action, HistoryActionFilter::Upgrade));
        assert!(!matches_filter(action, HistoryActionFilter::Reload));
    }
}

#[test]
fn a_limited_history_is_the_start_of_the_whole_one() {
    let entries = vec![
        versions(Some("1"), None, None, None),
        versions(Some("2"), None, None, None),
        versions(Some("3"), None, None, None),
    ];
    let whole = filter_history(&entries, 10, None);
    let two = filter_history(&entries, 2, None);
    assert_eq!(
        two.iter().map(|e| e.previous_version.clone()).collect::<Vec<_>>(),
        whole[..2].iter().map(|e| e.previous_version.clone()).collect::<Vec<_>>()
    );
    assert_eq!(two[0].previous_version.as_deref(), Some("3"));
}

#[test]
fn operation_entries_carry_the_observed_configuration() {
    let record = sample_record();
    let entry = operation_entry_at(
        OperationAction::Start,
        OperationOutcome::Failed,
        Some("boom".to_string()),
        &record,
        NOW,
    );
    assert_eq!(entry.previous_version.as_deref(), Some("2.0.0"));
    assert_eq!(entry.target_version.as_deref(), Some("2.0.0"));
    assert_eq!(entry.active_sha256.as_deref(), Some("sha-256"));
    assert_eq!(entry.reason.as_deref(), Some("boom"));
    assert_eq!(entry.recorded_at, NOW);
}

#[test]
fn operation_entries_are_stamped_with_the_present_time() {
    let record = sample_record();
    let entry = build_operation_entry(
        OperationAction::Stop,
        OperationOutcome::Succeeded,
        None,
        &record,
    );
    assert!(entry.recorded_at.contains('T'));
    assert!(entry.recorded_at.ends_with("+00:00"));
    assert!(entry.recorded_at.as_str() > "2024");
}

// Diff --------------------------------------------------------------------

fn diff_output(id: &str, previous: Option<&str>, active: Option<&str>) -> DiffOutput {
    DiffOutput {
        instance_id: id.into(),
        latest_action: "reload".into(),
        latest_outcome: "succeeded".into(),
        previous_version: previous.map(str::to_string),
        previous_sha256: None,
        active_version: active.map(str::to_string),
        active_sha256: None,
        recorded_at: "2025-06-01T00:00:00Z".into(),
        version_changed: previous != active,
    }
}

#[test]
fn diff_output_version_changed_when_versions_differ() {
    let diff = DiffOutput {
        instance_id: "gw-1".into(),
        latest_action: "reload".into(),
        latest_outcome: "succeeded".into(),
        previous_version: Some("v1".into()),
        previous_sha256: Some("aaa".into()),
        active_version: Some("v2".into()),
        active_sha256: Some("bbb".into()),
        recorded_at: "2025-06-01T00:00:00Z".into(),
        version_changed: true,
    };
    assert!(diff.version_changed);
    assert!(version_changed(&versions(
        Some("v1"),
        Some("aaa"),
        Some("v2"),
        Some("bbb")
    )));
}

#[test]
fn diff_output_version_unchanged_when_equal() {
    assert!(!version_changed(&versions(
        Some("v1"),
        Some("abc"),
        Some("v1"),
        Some("abc")
    )));
}

#[test]
fn diff_output_version_changed_sha_only() {
    assert!(version_changed(&versions(
        Some("v1"),
        Some("aaa"),
        Some("v1"),
        Some("bbb")
    )));
}

#[test]
fn diff_output_none_versions_display_none() {
    let lines = diff_lines(&diff_output("gw-1", None, Some("v1")));
    assert!(lines.iter().any(|line| line.contains("<none>")));
}

#[test]
fn diff_output_both_none_is_unchanged() {
    assert!(!version_changed(&versions(None, None, None, None)));
}

#[test]
fn diff_output_version_changed_only_sha_differs() {
    assert!(version_changed(&versions(
        Some("v1"),
        Some("aaa"),
        Some("v1"),
        Some("bbb")
    )));
}

#[test]
fn diff_output_version_unchanged_same_values() {
    assert!(!version_changed(&versions(
        Some("v2"),
        Some("sha"),
        Some("v2"),
        Some("sha")
    )));
}

#[test]
fn diff_output_display_none_placeholder() {
    let lines = diff_lines(&diff_output("gw-1", None, Some("v3")));
    assert!(lines.iter().any(|line| line.contains("<none>")));
    assert!(lines.iter().any(|line| line.contains("v3")));
}

#[test]
fn the_latest_operation_is_compared() {
    let mut record = sample_record();
    let diff = latest_diff("finance_main", Some(&record))
        .expect("diff")
        .expect("history");
    assert_eq!(diff.instance_id, "finance_main");
    assert_eq!(diff.latest_action, "stop");
    assert_eq!(diff.latest_outcome, "failed");
    assert!(!diff.version_changed);

    record.operations_history.pop();
    let diff = latest_diff("finance_main", Some(&record))
        .expect("diff")
        .expect("history");
    assert_eq!(diff.latest_action, "reload");
    assert!(diff.version_changed);

    record.operations_history.clear();
    assert!(latest_diff("finance_main", Some(&record))
        .expect("diff")
        .is_none());
    assert!(no_history_message("finance_main").contains("finance_main"));
    let error = latest_diff("nobody", None).expect_err("missing");
    assert_eq!(error.to_string(), "instance nobody not found");
}

// Status and inspection ---------------------------------------------------

#[test]
fn render_supervisor_record_uses_region_override_and_filtered_history() {
    let mut metadata = supervisor("/tmp/verdictan");
    metadata.recovered_from_backup = true;
    metadata.recovery_message = Some("recovered successfully".to_string());
    metadata.state_checksum = Some("checksum".to_string());
    let output = render_supervisor_record(
        &metadata,
        &sample_record(),
        5,
        Some(HistoryActionFilter::Reload),
        Some("eu-central"),
    );

    assert!(output.contains("region: eu-central"));
    assert!(output.contains("observed config: 2.0.0 (sha-256)"));
    assert!(output.contains("last error: last failure"));
    assert!(output.contains("recovered from backup: true"));
    assert!(output.contains("recovery message: recovered successfully"));
    assert!(output.contains("recent history (action=reload):"));
    assert!(output.contains("reload | succeeded"));
    assert!(!output.contains("stop | failed"));
}

#[test]
fn render_supervisor_record_reports_no_history_after_filtering() {
    let output = render_supervisor_record(
        &supervisor("/tmp/verdictan"),
        &sample_record(),
        5,
        Some(HistoryActionFilter::Install),
        None,
    );

    assert!(output.contains("region: (not set)"));
    assert!(output.contains("recent history (action=install):"));
    assert!(output.contains("- none"));
}

#[test]
fn format_history_entry_includes_target_active_and_reason() {
    let rendered = format_history_entry(&OperationHistoryEntry {
        action: OperationAction::Reconcile,
        outcome: OperationOutcome::RolledBack,
        reason: Some("verification drift".to_string()),
        previous_version: Some("1.0.0".to_string()),
        previous_sha256: Some("old".to_string()),
        target_version: Some("2.0.0".to_string()),
        target_sha256: Some("new".to_string()),
        active_version: Some("1.0.0".to_string()),
        active_sha256: Some("old".to_string()),
        recorded_at: "2026-06-23T11:00:00Z".to_string(),
    });

    assert_eq!(
        rendered,
        "2026-06-23T11:00:00Z | reconcile | rolledback | target=2.0.0 | active=1.0.0 | reason=verification drift"
    );
}

#[test]
fn format_history_entry_no_target_no_active_no_reason() {
    let rendered = format_history_entry(&OperationHistoryEntry {
        action: OperationAction::Install,
        outcome: OperationOutcome::Succeeded,
        reason: None,
        previous_version: None,
        previous_sha256: None,
        target_version: None,
        target_sha256: None,
        active_version: None,
        active_sha256: None,
        recorded_at: "2026-06-23T12:00:00Z".to_string(),
    });
    assert!(rendered.contains("install"));
    assert!(rendered.contains("succeeded"));
    assert!(rendered.contains("2026-06-23T12:00:00Z"));
}

#[test]
fn format_history_entry_with_only_reason() {
    let rendered = format_history_entry(&OperationHistoryEntry {
        action: OperationAction::Stop,
        outcome: OperationOutcome::Failed,
        reason: Some("timeout".to_string()),
        previous_version: None,
        previous_sha256: None,
        target_version: None,
        target_sha256: None,
        active_version: None,
        active_sha256: None,
        recorded_at: "2026-06-23T13:00:00Z".to_string(),
    });
    assert!(rendered.contains("stop"));
    assert!(rendered.contains("failed"));
    assert!(rendered.contains("reason=timeout"));
}

#[test]
fn render_supervisor_record_no_recovery_message() {
    let output = render_supervisor_record(
        &supervisor("/tmp/verdictan"),
        &sample_record(),
        10,
        None,
        None,
    );
    assert!(!output.contains("recovered from backup: true"));
    assert!(!output.contains("recovery message:"));
}

#[test]
fn render_supervisor_record_no_observed_config() {
    let mut record = sample_record();
    record.status.observed_config_version = None;
    record.status.observed_config_sha256 = None;
    record.status.last_error = None;
    record.status.last_reconciled_at = None;
    record.status.last_reconciliation_outcome = None;
    record.status.last_reconciliation_error = None;
    let output = render_supervisor_record(&supervisor("/tmp"), &record, 5, None, None);
    assert!(!output.contains("observed config:"));
    assert!(!output.contains("last error:"));
    assert!(!output.contains("last reconciled at:"));
}

#[test]
fn render_supervisor_record_empty_history() {
    let mut record = sample_record();
    record.operations_history.clear();
    let output = render_supervisor_record(&supervisor("/tmp"), &record, 5, None, None);
    assert!(output.contains("- none"));
}

#[test]
fn render_supervisor_record_all_history_unfiltered() {
    let output = render_supervisor_record(&supervisor("/tmp"), &sample_record(), 10, None, None);
    assert!(output.contains("recent history:"));
    assert!(output.contains("reload | succeeded"));
    assert!(output.contains("stop | failed"));
}

#[test]
fn format_history_entry_with_target_and_active_versions() {
    let rendered = format_history_entry(&OperationHistoryEntry {
        action: OperationAction::Reload,
        outcome: OperationOutcome::Succeeded,
        reason: None,
        previous_version: Some("v1".to_string()),
        previous_sha256: Some("old-sha".to_string()),
        target_version: Some("v2".to_string()),
        target_sha256: Some("new-sha".to_string()),
        active_version: Some("v2".to_string()),
        active_sha256: Some("new-sha".to_string()),
        recorded_at: "2026-06-25T00:00:00Z".to_string(),
    });
    assert!(rendered.contains("target=v2"));
    assert!(rendered.contains("active=v2"));
    assert!(!rendered.contains("reason="));
}

#[test]
fn a_record_is_shown_in_the_form_that_was_asked_for() {
    let record = sample_record();
    let mut args = GatewayStatusArgs {
        name: "finance_main".to_string(),
        state_dir: None,
        json: true,
        history_limit: 1,
        history_action: None,
        history_json: false,
    };
    match show_record(&supervisor("/tmp"), &record, &args, None) {
        RecordOutput::Record(entries) => {
            assert_eq!(entries.len(), 1);
            assert_eq!(entries[0].action, OperationAction::Stop);
        }
        other => panic!("unexpected output: {other:?}"),
    }
    args.history_json = true;
    assert!(matches!(
        show_record(&supervisor("/tmp"), &record, &args, None),
        RecordOutput::History(_)
    ));
}

#[test]
fn args_all_fields_populated() {
    let args = GatewayInspectArgs {
        name: "prod-gw".to_string(),
        state_dir: Some("/var/state".to_string()),
        json: true,
        history_limit: 25,
        history_action: Some(HistoryActionFilter::Reload),
        history_json: false,
    };
    assert!(args.json);
    assert_eq!(args.history_limit, 25);
    assert!(args.history_action.is_some());
    assert!(!args.history_json);
}

#[test]
fn args_default_history_limit() {
    let args = GatewayInspectArgs {
        name: "test".to_string(),
        state_dir: None,
        json: false,
        history_limit: 5,
        history_action: None,
        history_json: false,
    };
    assert_eq!(args.history_limit, 5);
}

#[test]
fn inspecting_shows_the_record_or_says_that_it_is_missing() {
    let record = sample_record();
    let args = GatewayInspectArgs {
        name: "finance_main".to_string(),
        state_dir: None,
        json: false,
        history_limit: 5,
        history_action: None,
        history_json: false,
    };
    match inspect(&args, &supervisor("/tmp"), Some(&record), Some("eu")).expect("shown") {
        RecordOutput::Text(shown) => assert_eq!(
            shown,
            render_supervisor_record(&supervisor("/tmp"), &record, 5, None, Some("eu"))
        ),
        other => panic!("unexpected output: {other:?}"),
    }
    let error = inspect(&args, &supervisor("/tmp"), None, None).expect_err("missing");
    assert_eq!(
        error.to_string(),
        missing_instance_error("finance_main").to_string()
    );
}

#[test]
fn services_outside_the_supervisor_are_reported() {
    let status = ServiceStatus {
        platform: ServicePlatform::SystemdUser,
        label: "gw.service".to_string(),
        state: "active/running".to_string(),
        pid: Some(12),
        service_file: "/home/dev/.config/systemd/user/gw.service".to_string(),
    };
    assert_eq!(
        service_report("gw", &status, true).expect("report"),
        vec![
            "label: gw.service".to_string(),
            "state: active/running".to_string(),
            "pid: 12".to_string(),
            "service file: /home/dev/.config/systemd/user/gw.service".to_string(),
        ]
    );
    let error = service_report("gw", &status, false).expect_err("not installed");
    assert!(error.to_string().contains("is not installed as a service"));
}

// Stop and uninstall ------------------------------------------------------

#[test]
fn run_updates_supervisor_state_and_history_on_success() {
    let record = fresh_record("finance_main");
    let (status, history) = record_stop(&record, None, NOW);
    assert_eq!(
        status.expect("status").lifecycle,
        GatewayInstanceLifecycle::Stopped
    );
    assert_eq!(history.action, OperationAction::Stop);
    assert_eq!(history.outcome, OperationOutcome::Succeeded);
    assert_eq!(history.reason.as_deref(), Some("service stop requested"));
    assert!(stopped_message("finance_main").contains("finance_main"));
}

#[test]
fn run_records_failed_stop_when_service_manager_errors() {
    let record = fresh_record("missing_service");
    let failure = CliError::user("service missing_service is not installed".to_string());
    let (status, history) = record_stop(&record, Some(&failure), NOW);
    assert!(status.is_none());
    assert_eq!(history.action, OperationAction::Stop);
    assert_eq!(history.outcome, OperationOutcome::Failed);
    assert!(history
        .reason
        .as_deref()
        .unwrap_or_default()
        .contains("is not installed"));
}

#[test]
fn gateway_stop_args_debug_impl() {
    let args = GatewayStopArgs {
        name: "finance-gw".to_string(),
        state_dir: Some("/tmp/state".to_string()),
    };
    let debug = format!("{:?}", args);
    assert!(debug.contains("finance-gw"));
    assert!(debug.contains("/tmp/state"));
}

#[test]
fn gateway_stop_args_default_state_dir_is_none() {
    let args = GatewayStopArgs {
        name: "test-gw".to_string(),
        state_dir: None,
    };
    assert!(args.state_dir.is_none());
    assert_eq!(args.name, "test-gw");
}

#[test]
fn platform_name_launchd() {
    assert_eq!(platform_name(&ServicePlatform::Launchd), "launchd");
}

#[test]
fn platform_name_systemd_user() {
    assert_eq!(
        platform_name(&ServicePlatform::SystemdUser),
        "systemd --user"
    );
}

#[test]
fn default_service_name() {
    let args = GatewayUninstallArgs {
        name: "verdictan-proxy".to_string(),
        state_dir: None,
    };
    assert_eq!(args.name, "verdictan-proxy");
}

#[test]
fn output_messages_include_service_name() {
    let name = "my-proxy";
    let launchd = removed_lines(&ServicePlatform::Launchd, name, "/f");
    let systemd = removed_lines(&ServicePlatform::SystemdUser, name, "/f");
    assert!(launchd[0].contains("my-proxy"));
    assert!(systemd[0].contains("my-proxy"));
}

#[test]
fn args_with_custom_state_dir() {
    let args = GatewayUninstallArgs {
        name: "test".to_string(),
        state_dir: Some("/custom/state".to_string()),
    };
    assert_eq!(args.state_dir.unwrap(), "/custom/state");
}

#[test]
fn gateway_uninstall_args_debug_impl() {
    let args = GatewayUninstallArgs {
        name: "proxy-prod".to_string(),
        state_dir: None,
    };
    let debug = format!("{:?}", args);
    assert!(debug.contains("proxy-prod"));
}

#[test]
fn platform_name_matches_output_format() {
    let name = "my-service";
    assert_eq!(
        removed_lines(&ServicePlatform::Launchd, name, "/f")[0],
        "removed launchd service my-service"
    );
    assert_eq!(
        removed_lines(&ServicePlatform::SystemdUser, name, "/f")[0],
        "removed systemd --user service my-service"
    );
}

#[test]
fn gateway_uninstall_args_default_state_dir_is_none() {
    let args = GatewayUninstallArgs {
        name: "test".to_string(),
        state_dir: None,
    };
    assert!(args.state_dir.is_none());
}

#[test]
fn uninstalls_are_recorded_with_their_outcome() {
    let record = fresh_record("gw");
    let done = record_uninstall(&record, &Ok(ServicePlatform::Launchd), NOW);
    assert_eq!(done.action, OperationAction::Uninstall);
    assert_eq!(done.outcome, OperationOutcome::Succeeded);
    assert!(done.reason.as_deref().unwrap_or_default().contains("launchd"));
    let failed = record_uninstall(&record, &Err(CliError::user("denied".to_string())), NOW);
    assert_eq!(failed.outcome, OperationOutcome::Failed);
    assert_eq!(failed.reason.as_deref(), Some("denied"));
}

// Start -------------------------------------------------------------------

#[test]
fn run_starts_managed_service_and_records_success() {
    let record = fresh_record("finance_main");
    let config = loaded("1.2.3");
    let action = after_load(&record, &Ok(loaded("1.2.3")), false, true, NOW);
    assert!(matches!(action, StartAction::StartService));
    let start = after_service_start(
        "finance_main",
        &record,
        &config,
        &Ok((ServicePlatform::Launchd, "/agents/gw.plist".to_string())),
        NOW,
    );
    let status = start.status.expect("status");
    assert_eq!(status.lifecycle, GatewayInstanceLifecycle::Running);
    assert_eq!(status.verification_state, ConfigVerificationState::Verified);
    assert_eq!(status.observed_config_version.as_deref(), Some("1.2.3"));
    assert_eq!(
        status.desired_config_version,
        status.observed_config_version
    );
    assert_eq!(start.entry.action, OperationAction::Start);
    assert_eq!(start.entry.outcome, OperationOutcome::Succeeded);
    assert!(start
        .entry
        .reason
        .as_deref()
        .unwrap_or_default()
        .contains("launchd"));
    assert!(start
        .report
        .expect("report")
        .iter()
        .any(|line| line.contains("/agents/gw.plist")));
}

#[test]
fn run_marks_instance_stopped_after_runtime_exits_cleanly() {
    let record = fresh_record("runtime_main");
    assert!(invoked_by_service(Some("true")));
    let action = after_load(&record, &Ok(loaded("2.0.0")), true, true, NOW);
    let running = match action {
        StartAction::RunRuntime(status) => status,
        other => panic!("unexpected action: {other:?}"),
    };
    let status = after_runtime(&running, None, NOW);
    assert_eq!(status.lifecycle, GatewayInstanceLifecycle::Stopped);
    assert_eq!(status.verification_state, ConfigVerificationState::Verified);
    assert_eq!(status.observed_config_version.as_deref(), Some("2.0.0"));
}

#[test]
fn run_marks_instance_failed_when_runtime_returns_error() {
    let record = fresh_record("runtime_fail");
    assert!(invoked_by_service(Some("1")));
    let running = running_status(&record.status, &loaded("3.0.0"), NOW);
    let failure = CliError::internal("runtime exploded".to_string());
    let status = after_runtime(&running, Some(&failure), NOW);
    assert_eq!(status.lifecycle, GatewayInstanceLifecycle::Failed);
    assert_eq!(status.verification_state, ConfigVerificationState::Failed);
    assert!(status
        .last_error
        .as_deref()
        .unwrap_or_default()
        .contains("runtime exploded"));
    assert_eq!(status.last_observed_healthy, Some(false));
}

#[test]
fn run_marks_instance_failed_when_runtime_config_cannot_load() {
    let record = fresh_record("broken_runtime");
    let failure = CliError::user("failed to read missing.yaml".to_string());
    match after_load(&record, &Err(failure), false, true, NOW) {
        StartAction::Fail(status, error) => {
            assert!(error.to_string().contains("failed to read"));
            assert_eq!(status.lifecycle, GatewayInstanceLifecycle::Failed);
            assert!(status
                .last_error
                .as_deref()
                .unwrap_or_default()
                .contains("failed to read"));
        }
        other => panic!("unexpected action: {other:?}"),
    }
}

#[test]
fn run_fails_for_nonexistent_instance() {
    let error = missing_instance_error("nonexistent");
    assert!(error.to_string().contains("does not exist"));
}

#[test]
fn gateway_start_args_debug_impl() {
    let args = GatewayStartArgs {
        name: "prod-gw".to_string(),
        state_dir: Some("/var/lib/verdictan".to_string()),
    };
    let debug = format!("{:?}", args);
    assert!(debug.contains("prod-gw"));
    assert!(debug.contains("/var/lib/verdictan"));
}

#[test]
fn a_start_without_a_service_file_runs_in_this_process() {
    let record = fresh_record("gw");
    assert!(matches!(
        after_load(&record, &Ok(loaded("1")), false, false, NOW),
        StartAction::RunRuntime(_)
    ));
    assert!(!invoked_by_service(None));
    assert!(!invoked_by_service(Some("no")));
}

#[test]
fn a_failed_service_start_keeps_the_status_and_records_the_reason() {
    let record = fresh_record("gw");
    let start = after_service_start(
        "gw",
        &record,
        &loaded("1"),
        &Err(CliError::user("denied".to_string())),
        NOW,
    );
    assert_eq!(start.entry.outcome, OperationOutcome::Failed);
    assert_eq!(start.entry.reason.as_deref(), Some("denied"));
    assert_eq!(start.report.expect_err("error").to_string(), "denied");
}

#[test]
fn starting_marks_the_lifecycle() {
    let status = starting_status(&fresh_record("gw").status, NOW);
    assert_eq!(status.lifecycle, GatewayInstanceLifecycle::Starting);
    assert_eq!(status.updated_at, NOW);
}

#[test]
fn the_runtime_sees_which_binary_runs() {
    let mut record = fresh_record("gw");
    let change = set_optional_env("K", None);
    assert_eq!((change.name.as_str(), change.value), ("K", None));
    assert_eq!(
        infer_runtime_service_manager(Some(ServicePlatform::SystemdUser)),
        RuntimeServiceManager::SystemdUser
    );
    assert_eq!(
        infer_runtime_service_manager(None),
        RuntimeServiceManager::Manual
    );

    record.status.runtime_upgrade_status = Some(RuntimeUpgradeStatus {
        phase: RuntimeUpgradePhase::Succeeded,
        active_version: Some("2.0.0".to_string()),
        active_binary_path: Some("/opt/prev".to_string()),
        target_version: None,
        target_binary_path: None,
        service_manager: RuntimeServiceManager::SystemdUser,
        config_sha256: None,
        last_restart_at: None,
        last_error: None,
        health_check: None,
        rollback: None,
        updated_at: None,
    });
    let changes = apply_runtime_upgrade_env(&record.status, Some("/opt/now"), None);
    assert!(changes
        .iter()
        .any(|change| change.value.as_deref() == Some("/opt/prev")));
    assert!(changes
        .iter()
        .any(|change| change.value.as_deref() == Some("2.0.0")));
}

// Create ------------------------------------------------------------------

#[test]
fn command_helper_coverage_resolve_gateway_name_with_priority_chain() {
    assert_eq!(
        resolve_gateway_name_with(
            Some("cli-name".to_string()),
            Some("env-host".to_string()),
            Some("sys-host".to_string()),
        ),
        "cli-name"
    );
    assert_eq!(
        resolve_gateway_name_with(
            None,
            Some("env-host".to_string()),
            Some("sys-host".to_string())
        ),
        "env-host"
    );
    assert_eq!(
        resolve_gateway_name_with(None, None, Some("sys-host".to_string())),
        "sys-host"
    );
    assert_eq!(
        resolve_gateway_name_with(None, Some("   ".to_string()), None),
        "gateway-default"
    );
}

#[test]
fn command_helper_coverage_secret_reference_rejects_mixed_sources() {
    let error = secret_reference(
        Some("TOKEN_ENV".to_string()),
        Some("service".to_string()),
        Some("account".to_string()),
        "proxy api token",
    )
    .expect_err("env and keychain should conflict");
    assert!(error.to_string().contains("not both"));

    let env_only = secret_reference(Some("TOKEN_ENV".to_string()), None, None, "proxy api token")
        .expect("env reference");
    assert_eq!(env_only, Some(SecretReference::env_var("TOKEN_ENV")));

    let keychain = secret_reference(
        None,
        Some("svc".to_string()),
        Some("acct".to_string()),
        "upstream api key",
    )
    .expect("keychain reference");
    assert_eq!(
        keychain,
        Some(SecretReference::keychain(
            "svc".to_string(),
            "acct".to_string()
        ))
    );
}

#[test]
fn resolve_gateway_name_with_all_none_returns_default() {
    assert_eq!(
        resolve_gateway_name_with(None, None, None),
        "gateway-default"
    );
}

#[test]
fn resolve_gateway_name_with_empty_cli_name_falls_through() {
    assert_eq!(
        resolve_gateway_name_with(Some("".to_string()), Some("env-host".to_string()), None),
        "env-host"
    );
}

#[test]
fn resolve_gateway_name_with_whitespace_env_falls_to_system() {
    assert_eq!(
        resolve_gateway_name_with(None, Some("   ".to_string()), Some("sys-host".to_string())),
        "sys-host"
    );
}

#[test]
fn secret_reference_none_when_all_empty() {
    let result = secret_reference(None, None, None, "api key").expect("all-none should succeed");
    assert_eq!(result, None);
}

#[test]
fn secret_reference_keychain_requires_both_service_and_account() {
    let error = secret_reference(None, Some("svc".to_string()), None, "test key")
        .expect_err("keychain needs both");
    assert!(error.to_string().contains("both"));
}

fn create_args() -> GatewayCreateArgs {
    GatewayCreateArgs {
        name: None,
        gateway_id: None,
        listen: "127.0.0.1:41002".to_string(),
        upstream: "https://api.example.com".to_string(),
        upstream_api_key_env: None,
        upstream_api_key_keychain_service: None,
        upstream_api_key_keychain_account: None,
        upstream_api_key_header: None,
        upstream_api_key_prefix: None,
        fail_mode: "block".to_string(),
        policy_config: vec!["/tmp/policy.yaml".to_string()],
        max_concurrency: None,
        admin_token_env: Some("ADMIN".to_string()),
        admin_token_keychain_service: None,
        admin_token_keychain_account: None,
        admin_local_only: true,
        state_dir: None,
        json: false,
    }
}

#[test]
fn created_instances_take_their_settings_from_the_arguments() {
    let mut args = create_args();
    let spec = build_instance_spec(&args, "gw").expect("spec");
    assert_eq!(spec.instance_id, "gw");
    assert_eq!(spec.listen_addr, "127.0.0.1:41002");
    assert_eq!(spec.admin_token, Some(SecretReference::env_var("ADMIN")));
    assert_eq!(spec.policy_paths, vec!["/tmp/policy.yaml".to_string()]);
    assert!(created_lines(&spec)[0].contains("gw"));

    args.upstream_api_key_env = Some("KEY".to_string());
    args.upstream_api_key_keychain_service = Some("svc".to_string());
    assert!(build_instance_spec(&args, "gw").is_err());
}

// List --------------------------------------------------------------------

#[test]
fn gateway_list_args_debug_impl() {
    let args = GatewayListArgs {
        state_dir: None,
        json: false,
        remote: false,
        config: None,
        api_url: None,
        api_token: None,
        profile: "default".to_string(),
        region: None,
    };
    let debug = format!("{:?}", args);
    assert!(debug.contains("GatewayListArgs"));
}

#[test]
fn args_remote_mode_flag() {
    let args = GatewayListArgs {
        state_dir: None,
        json: true,
        remote: true,
        config: None,
        api_url: Some("http://api.test".to_string()),
        api_token: Some("tok".to_string()),
        profile: "default".to_string(),
        region: Some("us-east-1".to_string()),
    };
    assert!(args.remote);
    assert!(args.json);
    assert_eq!(args.region.as_deref(), Some("us-east-1"));
}

fn summary(id: &str) -> InstanceSummary {
    InstanceSummary {
        instance_id: id.to_string(),
        lifecycle: GatewayInstanceLifecycle::Running,
        listen_addr: "127.0.0.1:8080".to_string(),
        gateway_id: format!("gateway_{id}"),
    }
}

#[test]
fn command_helper_coverage_run_local_reports_empty_supervisor_state() {
    assert_eq!(local_lines(&vec![]).len(), 1);
}

#[test]
fn command_helper_coverage_run_local_prints_instance_rows() {
    let lines = local_lines(&vec![summary("inst-b")]);
    assert!(lines.iter().any(|line| line.contains("inst-b")
        && line.contains("127.0.0.1:8080")
        && line.contains("gateway_inst-b")));
}

#[test]
fn command_helper_coverage_run_local_multiple_instances() {
    let lines = local_lines(&vec![summary("inst-1"), summary("inst-2"), summary("inst-3")]);
    for id in ["inst-1", "inst-2", "inst-3"] {
        assert!(lines.iter().any(|line| line.contains(id)));
    }
    assert!(recovery_warning("from backup").contains("from backup"));
}

#[test]
fn command_helper_coverage_run_remote_async_prints_human_rows() {
    let lines = remote_lines(&json(
        r#"{"gateways": [
            {"id": "gw-1", "name": "prod", "status": "active"},
            {"id": "gw-2", "name": "staging", "status": "inactive"}
        ]}"#,
    ));
    assert_eq!(lines.len(), 2);
    assert!(lines[0].contains("gw-1") && lines[0].contains("prod"));
    assert!(lines[1].contains("gw-2") && lines[1].contains("inactive"));
}

#[test]
fn command_helper_coverage_run_remote_async_reports_empty_remote_gateways() {
    assert_eq!(remote_lines(&json(r#"{"gateways": []}"#)).len(), 1);
}

#[test]
fn a_missing_api_token_is_an_auth_error() {
    let error = require_api_token(None).unwrap_err();
    assert_eq!(error.error_code(), "cli.auth");
    assert_eq!(
        error.to_string(),
        "missing api token (set VERDICTAN_API_TOKEN or run `verdictan auth login`)"
    );
    assert_eq!(require_api_token(Some("tok".to_string())).unwrap(), "tok");
}

#[test]
fn each_kind_of_error_has_its_code() {
    let text = "boom".to_string();
    assert_eq!(CliError::user(text.clone()).error_code(), "cli.user");
    assert_eq!(CliError::internal(text.clone()).error_code(), "cli.internal");
    assert_eq!(CliError::network(text.clone()).error_code(), "cli.network");
    let refused = CliError::auth(text).with_http_status(403);
    assert_eq!(refused.http_status, Some(403));
    assert_eq!(refused.to_string(), "boom");
}

#[test]
fn the_state_directory_needs_a_default_even_where_one_is_given() {
    let default_dir = || Ok("/home/dev/.verdictan/supervisor".to_string());
    assert_eq!(
        choose_state_dir(None, default_dir()).expect("default"),
        "/home/dev/.verdictan/supervisor"
    );
    assert_eq!(
        choose_state_dir(Some("/srv/state"), default_dir()).expect("given"),
        "/srv/state"
    );
    for asked in [None, Some("/srv/state")] {
        let error = choose_state_dir(asked, Err(CliError::user("no home".to_string())))
            .expect_err("no default");
        assert_eq!(error.to_string(), "no home");
    }
}

#[test]
fn remote_gateways_have_one_place() {
    assert_eq!(GATEWAYS_PATH, "/v1/gateways");
}
