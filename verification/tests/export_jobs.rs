use verdictan::export_job_common::{
    created_job, find_job, job_failure_message, job_id, jobs, required_job_id,
    required_job_status, JOBS_PATH,
};
use verdictan::export_job_create::{
    completed_message, create_payload, created_message, export_job_expired_error,
    export_job_failed_error, next_pause, parse_relative_duration, resolve_export_dates, wait_step,
    wait_timeout_error, POLL_INTERVAL,
};
use verdictan::export_job_download::{
    check_download_status, download_error, download_path, stdout_write_error, ExportJobDownloadArgs,
};
use verdictan::export_job_get::{job_lines, select_job};
use verdictan::export_job_list::{job_line, list_lines};
use verdictan::json::{Json, Number};

fn convert(value: &serde_json::Value) -> Json {
    match value {
        serde_json::Value::Null => Json::Null,
        serde_json::Value::Bool(b) => Json::Bool(*b),
        serde_json::Value::Number(n) => Json::Number(match (n.as_i64(), n.as_u64()) {
            (Some(i), _) => Number::Integer(i),
            (None, Some(u)) => Number::Unsigned(u),
            (None, None) => Number::Other(n.to_string()),
        }),
        serde_json::Value::String(s) => Json::Text(s.clone()),
        serde_json::Value::Array(items) => Json::Array(items.iter().map(convert).collect()),
        serde_json::Value::Object(members) => Json::Object(
            members.iter().map(|(k, v)| (k.clone(), convert(v))).collect(),
        ),
    }
}

fn json(text: &str) -> Json {
    convert(&serde_json::from_str(text).expect("test json"))
}

#[test]
fn parses_current_create_response_shape() {
    let response = json(
        r#"{"job": {"job_id": "exp_123", "status": "queued", "format": "csv"},
            "queue_topic": "org.exports"}"#,
    );
    let job = created_job(&response).unwrap();
    assert_eq!(required_job_id(job).unwrap(), "exp_123");
    assert_eq!(required_job_status(job).unwrap(), "queued");
}

#[test]
fn finds_job_by_current_job_id_field() {
    let response = json(
        r#"{"jobs": [{"job_id": "exp_queued", "status": "queued"},
                     {"job_id": "exp_ready", "status": "completed"}]}"#,
    );
    let job = find_job(&response, "exp_ready").unwrap().unwrap();
    assert_eq!(required_job_status(job).unwrap(), "completed");
    assert!(find_job(&response, "exp_none").unwrap().is_none());
}

#[test]
fn rejects_legacy_id_field() {
    let response = json(r#"{"job": {"id": "legacy-id", "status": "queued"}}"#);
    let job = created_job(&response).unwrap();
    assert!(required_job_id(job).is_err());
}

#[test]
fn trims_failure_message() {
    let job = json(r#"{"failure_message": "  worker failed  "}"#);
    assert_eq!(job_failure_message(&job).as_deref(), Some("worker failed"));
}

#[test]
fn empty_failure_message_is_absent() {
    assert_eq!(job_failure_message(&json(r#"{"failure_message": "   "}"#)), None);
}

#[test]
fn jobs_requires_array() {
    assert!(jobs(&json(r#"{"jobs": {}}"#)).is_err());
    assert!(jobs(&json("{}")).is_err());
}

#[test]
fn parse_relative_duration_hours() {
    assert_eq!(parse_relative_duration("24h").unwrap(), 24 * 3600);
}

#[test]
fn parse_relative_duration_days() {
    assert_eq!(parse_relative_duration("7d").unwrap(), 7 * 86400);
}

#[test]
fn parse_relative_duration_single_day() {
    assert_eq!(parse_relative_duration("1d").unwrap(), 86400);
}

#[test]
fn parse_relative_duration_invalid_suffix() {
    assert!(parse_relative_duration("30m").is_err());
}

#[test]
fn parse_relative_duration_invalid_number() {
    assert!(parse_relative_duration("abch").is_err());
}

#[test]
fn parse_relative_duration_no_suffix() {
    assert!(parse_relative_duration("123").is_err());
}

#[test]
fn parse_relative_duration_whitespace_trimmed() {
    assert_eq!(parse_relative_duration("  12h  ").unwrap(), 12 * 3600);
}

#[test]
fn parse_relative_duration_large_numbers() {
    assert_eq!(parse_relative_duration("365d").unwrap(), 365 * 86400);
    assert!(parse_relative_duration("9223372036854775807d").is_err());
}

#[test]
fn parse_relative_duration_minutes_not_supported() {
    assert!(parse_relative_duration("45m").is_err());
}

#[test]
fn parse_relative_duration_zero_hours() {
    assert!(parse_relative_duration("0h").is_err());
}

#[test]
fn parse_relative_duration_zero_days() {
    assert!(parse_relative_duration("0d").is_err());
}

#[test]
fn parse_relative_duration_with_leading_whitespace() {
    assert_eq!(parse_relative_duration("  24h  ").unwrap(), 24 * 3600);
}

#[test]
fn export_job_failed_error_with_message() {
    let err = export_job_failed_error("j-1", &json(r#"{"failure_message": "quota exceeded"}"#));
    let msg = err.to_string();
    assert!(msg.contains("j-1"));
    assert!(msg.contains("quota exceeded"));
}

#[test]
fn export_job_failed_error_without_message() {
    let msg = export_job_failed_error("j-2", &json("{}")).to_string();
    assert!(msg.contains("j-2"));
    assert!(msg.contains("failed"));
}

#[test]
fn export_job_failed_error_uses_current_failure_field() {
    let err =
        export_job_failed_error("j-3", &json(r#"{"failure_message": "disk quota exceeded"}"#));
    assert!(err.to_string().contains("disk quota exceeded"));
}

#[test]
fn export_job_failed_error_empty_failure_message() {
    let err = export_job_failed_error("j-empty", &json(r#"{"failure_message": ""}"#));
    assert!(err.to_string().contains("j-empty"));
}

#[test]
fn export_job_expired_error_is_actionable() {
    let message = export_job_expired_error("j-expired").to_string();
    assert!(message.contains("j-expired"));
    assert!(message.contains("expired"));
}

#[test]
fn create_payload_construction() {
    let payload = create_payload("2025-01-01", "2025-01-31", "csv");
    assert_eq!(payload.get_str("start_date"), Some("2025-01-01"));
    assert_eq!(payload.get_str("end_date"), Some("2025-01-31"));
    assert_eq!(payload.get_str("format"), Some("csv"));
}

#[test]
fn create_payload_with_all_formats() {
    for fmt in [
        "csv",
        "json",
        "compliance-aesia",
        "compliance-aepd",
        "compliance-ens",
        "compliance-all",
    ] {
        let payload = create_payload("2025-01-01", "2025-01-31", fmt);
        assert_eq!(payload.get_str("format"), Some(fmt));
    }
}

/// 2026-07-17T12:00:00Z.
const NOW: i64 = 1_784_289_600;

#[test]
fn resolve_export_dates_rejects_partial_or_reversed_explicit_window() {
    assert!(resolve_export_dates(Some("2026-07-01"), None, Some("7d"), NOW).is_err());
    assert!(resolve_export_dates(None, Some("2026-07-17"), Some("7d"), NOW).is_err());
    assert!(resolve_export_dates(Some("2026-07-18"), Some("2026-07-17"), None, NOW).is_err());
    assert!(resolve_export_dates(None, None, None, NOW).is_err());
    assert!(resolve_export_dates(Some("2026-02-30"), Some("2026-07-17"), None, NOW).is_err());
}

#[test]
fn resolve_export_dates_uses_positive_since_when_explicit_dates_are_absent() {
    assert_eq!(
        resolve_export_dates(None, None, Some("7d"), NOW).unwrap(),
        ("2026-07-10".to_string(), "2026-07-17".to_string())
    );
}

#[test]
fn resolve_export_dates_keeps_an_explicit_window() {
    assert_eq!(
        resolve_export_dates(Some("2026-07-01"), Some("2026-07-17"), None, NOW).unwrap(),
        ("2026-07-01".to_string(), "2026-07-17".to_string())
    );
}

#[test]
fn resolve_export_dates_refuses_a_window_before_all_dates() {
    assert!(resolve_export_dates(None, None, Some("106751991167d"), NOW).is_err());
}

#[test]
fn waiting_ends_with_the_state_of_the_job() {
    let running = json(r#"{"jobs": [{"job_id": "j", "status": "processing"}]}"#);
    assert!(wait_step(&running, "j").unwrap().is_none());
    let ready = json(r#"{"jobs": [{"job_id": "j", "status": "completed"}]}"#);
    assert!(wait_step(&ready, "j").unwrap().is_some());
    for status in ["failed", "expired", "mystery"] {
        let text = format!("{{\"jobs\": [{{\"job_id\": \"j\", \"status\": \"{status}\"}}]}}");
        assert!(wait_step(&json(&text), "j").is_err());
    }
}

#[test]
fn pauses_never_outlast_the_deadline() {
    assert_eq!(next_pause(0), None);
    assert_eq!(next_pause(5), Some(5));
    assert_eq!(next_pause(10 * POLL_INTERVAL), Some(POLL_INTERVAL));
    assert!(wait_timeout_error("j-9", 30).to_string().contains("j-9"));
}

#[test]
fn export_job_messages_name_the_job() {
    assert!(created_message("j-4").contains("j-4"));
    assert!(completed_message("j-4").contains("j-4"));
}

#[test]
fn download_path_formatting() {
    assert_eq!(download_path("job-42"), "/v1/exports/jobs/job-42/download");
}

#[test]
fn error_status_message() {
    assert!(download_error(404).to_string().contains("404"));
}

#[test]
fn error_status_message_500() {
    let message = download_error(500).to_string();
    assert!(message.contains("500"));
    assert_eq!(message, "download failed with status 500");
}

#[test]
fn download_path_with_uuid() {
    assert!(download_path("550e8400-e29b-41d4-a716-446655440000")
        .contains("550e8400-e29b-41d4-a716-446655440000"));
}

#[test]
fn download_path_starts_with_expected_prefix() {
    let path = download_path("any-id");
    assert!(path.starts_with("/v1/exports/jobs/"));
    assert!(path.ends_with("/download"));
}

#[test]
fn error_status_message_formats_all_common_codes() {
    for code in [400u16, 401, 403, 404, 500, 502, 503] {
        assert!(download_error(code).to_string().contains(&code.to_string()));
    }
}

#[test]
fn export_job_download_args_debug_impl() {
    let args = ExportJobDownloadArgs {
        job_id: "job-123".to_string(),
        config: None,
        api_url: Some("http://api.test".to_string()),
        api_token: Some("tok".to_string()),
        profile: "default".to_string(),
        region: Some("us-west-2".to_string()),
    };
    let debug = format!("{:?}", args);
    assert!(debug.contains("job-123"));
    assert!(debug.contains("us-west-2"));
}

#[test]
fn args_with_config_path() {
    let args = ExportJobDownloadArgs {
        job_id: "j-1".to_string(),
        config: Some("/etc/verdictan/config.yaml".to_string()),
        api_url: None,
        api_token: None,
        profile: "prod".to_string(),
        region: None,
    };
    assert_eq!(args.config.unwrap(), "/etc/verdictan/config.yaml");
    assert_eq!(args.profile, "prod");
}

#[test]
fn stdout_write_error_message_formatting() {
    let msg = stdout_write_error("broken pipe").to_string();
    assert!(msg.contains("failed to write export to stdout"));
    assert!(msg.contains("broken pipe"));
}

#[test]
fn current_job_shape_has_expected_lifecycle_fields() {
    for status in ["queued", "processing", "completed", "failed", "expired"] {
        let text = format!(
            "{{\"jobs\": [{{\"job_id\": \"j-1\", \"status\": \"{status}\", \"format\": \"csv\", \"requested_at\": \"2025-01-01T00:00:00Z\"}}]}}"
        );
        let response = json(&text);
        let job = select_job(&response, "j-1").unwrap();
        assert_eq!(job_id(job), Some("j-1"));
        assert_eq!(required_job_status(job).unwrap(), status);
        assert!(job_lines(job).iter().any(|line| line.contains(status)));
    }
    assert!(select_job(&json(r#"{"jobs": []}"#), "j-1").is_err());
}

#[test]
fn parse_jobs_from_response() {
    let value = json(
        r#"{"jobs": [
            {"job_id": "j-1", "status": "completed", "format": "csv", "requested_at": "2025-01-01"},
            {"job_id": "j-2", "status": "queued", "format": "json", "requested_at": "2025-01-02"}
        ]}"#,
    );
    assert_eq!(jobs(&value).unwrap().len(), 2);
    assert_eq!(list_lines(&value).unwrap().len(), 2);
}

#[test]
fn parse_jobs_empty() {
    assert!(jobs(&json(r#"{"jobs": []}"#)).unwrap().is_empty());
}

#[test]
fn parse_jobs_missing_key_is_contract_error() {
    assert!(jobs(&json("{}")).is_err());
    assert!(list_lines(&json("{}")).is_err());
}

#[test]
fn job_row_defaults() {
    let j = json("{}");
    assert_eq!(job_id(&j).unwrap_or("-"), "-");
    assert_eq!(job_line(&j), "-  -  -  -");
}

#[test]
fn job_row_all_fields() {
    let j = json(
        r#"{"job_id": "j-1", "status": "completed", "format": "csv",
            "requested_at": "2025-06-01T00:00:00Z"}"#,
    );
    assert_eq!(job_id(&j), Some("j-1"));
    assert_eq!(job_line(&j), "j-1  completed  csv  2025-06-01T00:00:00Z");
}

#[test]
fn output_no_jobs_message() {
    let lines = list_lines(&json(r#"{"jobs": []}"#)).unwrap();
    assert!(lines[0].contains("no export jobs"));
    assert_eq!(lines.len(), 1);
}

#[test]
fn parse_jobs_null_values_in_array() {
    let value = json(
        r#"{"jobs": [{"job_id": null, "status": null, "format": null, "requested_at": null}]}"#,
    );
    let items = jobs(&value).unwrap();
    assert_eq!(items.len(), 1);
    assert_eq!(job_id(&items[0]).unwrap_or("-"), "-");
    assert_eq!(items[0].get_str("status").unwrap_or("-"), "-");
}

#[test]
fn job_row_formatting() {
    let j = json(
        r#"{"job_id": "j-1", "status": "completed", "format": "csv", "requested_at": "2025-01-01"}"#,
    );
    let row = job_line(&j);
    assert!(row.contains("j-1"));
    assert!(row.contains("completed"));
    assert!(row.contains("csv"));
    assert!(row.contains("2025-01-01"));
}

#[test]
fn parse_jobs_non_array_type_is_contract_error() {
    assert!(jobs(&json(r#"{"jobs": "not-an-array"}"#)).is_err());
}

#[test]
fn a_download_succeeds_on_the_success_statuses_alone() {
    assert!(check_download_status(200).is_ok());
    assert!(check_download_status(299).is_ok());
    for code in [199, 300, 404, 410, 500] {
        assert_eq!(
            check_download_status(code).expect_err("refused").to_string(),
            download_error(code).to_string()
        );
    }
}

#[test]
fn export_jobs_have_one_place() {
    assert_eq!(JOBS_PATH, "/v1/exports/jobs");
}
