use verdictan::error::ErrorKind;
use verdictan::events_export::{
    build_export_path, check_export_status, classify_export_error, EventsExportArgs,
};
use verdictan::events_tail::{
    after_page, build_query, event_lines, format_event_line, has_printable_time, next_page,
    page_lines, prints_json, TailFilter,
};
use verdictan::json::{Json, Number};

fn convert(value: &serde_json::Value) -> Json {
    match value {
        serde_json::Value::Null => Json::Null,
        serde_json::Value::Bool(b) => Json::Bool(*b),
        serde_json::Value::Number(n) => Json::Number(match (n.as_i64(), n.as_u64()) {
            (Some(i), _) => Number::Integer(i),
            (None, Some(u)) => Number::Unsigned(u),
            (None, None) => Number::Other(n.to_string()),
        }),
        serde_json::Value::String(s) => Json::Text(s.clone()),
        serde_json::Value::Array(items) => Json::Array(items.iter().map(convert).collect()),
        serde_json::Value::Object(members) => Json::Object(
            members.iter().map(|(k, v)| (k.clone(), convert(v))).collect(),
        ),
    }
}

fn json(text: &str) -> Json {
    convert(&serde_json::from_str(text).expect("test json"))
}

#[test]
fn command_helper_coverage_build_export_path_encodes_query_params() {
    assert_eq!(build_export_path("1h", "csv"), "/v1/events/export?since=1h&format=csv");
    assert_eq!(
        build_export_path("2025-01-01T00:00:00Z", "json"),
        "/v1/events/export?since=2025-01-01T00%3A00%3A00Z&format=json"
    );
}

#[test]
fn build_export_path_with_plus_in_since() {
    let path = build_export_path("2025-01-01T00:00:00+05:30", "csv");
    assert!(path.contains("since=2025-01-01T00%3A00%3A00%2B05%3A30"));
}

#[test]
fn build_export_path_encodes_ampersand_in_since() {
    assert!(build_export_path("a&b", "csv").contains("since=a%26b"));
}

#[test]
fn build_export_path_empty_since() {
    assert_eq!(build_export_path("", "csv"), "/v1/events/export?since=&format=csv");
}

#[test]
fn build_export_path_encodes_text_outside_ascii() {
    assert_eq!(
        build_export_path("h\u{e9} ~", "csv"),
        "/v1/events/export?since=h%C3%A9%20~&format=csv"
    );
}

#[test]
fn events_export_args_debug_impl() {
    let args = EventsExportArgs {
        since: "1h".to_string(),
        format: "csv".to_string(),
        config: None,
        api_url: Some("http://localhost".to_string()),
        profile: "default".to_string(),
        region: None,
    };
    let debug = format!("{:?}", args);
    assert!(debug.contains("csv"));
    assert!(debug.contains("1h"));
}

#[test]
fn export_errors_follow_the_status() {
    let remote = classify_export_error(500);
    assert!(remote.to_string().contains("remote service error"));
    assert_eq!(remote.kind, ErrorKind::Network);
    assert_eq!(remote.error_code(), "cli.network");
    let refused = classify_export_error(403);
    assert!(refused.to_string().contains("authorization failed"));
    assert_eq!(refused.kind, ErrorKind::Auth);
    assert_eq!(refused.error_code(), "cli.auth");
    let invalid = classify_export_error(422);
    assert!(invalid.to_string().contains("validation error"));
    assert_eq!(invalid.kind, ErrorKind::User);
    assert_eq!(invalid.error_code(), "cli.user");
}

#[test]
fn build_query_with_all_params() {
    let q = build_query(
        Some("2024-01-01T00:00:00Z"),
        Some("cursor-abc"),
        50,
        Some("decision"),
        Some("gw-1"),
        Some("blocked"),
    );
    assert!(q.starts_with("/v1/events?"));
    assert!(q.contains("since=2024-01-01T00%3A00%3A00Z"));
    assert!(q.contains("cursor=cursor-abc"));
    assert!(q.contains("limit=50"));
    assert!(q.contains("event_type=decision"));
    assert!(q.contains("gateway_id=gw-1"));
    assert!(q.contains("verdict=blocked"));
}

#[test]
fn build_query_minimal() {
    assert_eq!(build_query(None, None, 100, None, None, None), "/v1/events?limit=100");
}

#[test]
fn build_query_only_since() {
    let q = build_query(Some("10m"), None, 20, None, None, None);
    assert!(q.contains("since=10m"));
    assert!(q.contains("limit=20"));
    assert!(!q.contains("cursor="));
}

#[test]
fn build_query_encodes_special_characters() {
    let q = build_query(None, None, 10, Some("type with spaces"), None, None);
    assert!(q.contains("event_type=type%20with%20spaces"));
}

#[test]
fn build_query_cursor_only() {
    let q = build_query(None, Some("next-page-token"), 100, None, None, None);
    assert!(q.contains("cursor=next-page-token"));
    assert!(!q.contains("since="));
}

#[test]
fn build_query_verdict_only() {
    let q = build_query(None, None, 50, None, None, Some("blocked"));
    assert!(q.contains("verdict=blocked"));
    assert!(q.contains("limit=50"));
}

#[test]
fn build_query_all_params_present() {
    let q = build_query(
        Some("10m"),
        Some("cursor-abc"),
        50,
        Some("decision"),
        Some("gw-1"),
        Some("blocked"),
    );
    assert!(q.contains("since=10m"));
    assert!(q.contains("cursor=cursor-abc"));
    assert!(q.contains("limit=50"));
    assert!(q.contains("event_type=decision"));
    assert!(q.contains("gateway_id=gw-1"));
    assert!(q.contains("verdict=blocked"));
}

#[test]
fn build_query_limit_zero() {
    let q = build_query(None, None, 0, None, None, None);
    assert!(q.contains("limit=0"));
    assert!(!q.contains("since="));
    assert!(!q.contains("cursor="));
}

#[test]
fn build_query_limit_max() {
    assert!(build_query(None, None, 100, None, None, None).contains("limit=100"));
}

#[test]
fn build_query_encodes_verdict_with_spaces() {
    let q = build_query(None, None, 10, None, None, Some("partially blocked"));
    assert!(q.contains("verdict=partially%20blocked"));
}

#[test]
fn format_event_line_full_event() {
    let event = json(
        r#"{"event_time": "2024-06-15T12:30:45.123Z", "event_type": "decision",
            "verdict": "allowed", "model": "gpt-4o", "policy_name": "default"}"#,
    );
    assert!(has_printable_time(&event));
    let line = format_event_line(&event);
    assert!(line.contains("2024-06-15T12:30:45"));
    assert!(!line.contains(".123"));
    assert!(line.contains("decision"));
    assert!(line.contains("allowed"));
    assert!(line.contains("gpt-4o"));
    assert!(line.contains("default"));
}

#[test]
fn format_event_line_missing_fields_uses_defaults() {
    let line = format_event_line(&json("{}"));
    assert!(line.contains("-"));
    assert!(line.contains("unknown"));
}

#[test]
fn format_event_line_falls_back_to_created_at() {
    let event = json(r#"{"created_at": "2024-03-01T08:00:00Z", "event_type": "audit"}"#);
    assert!(format_event_line(&event).contains("2024-03-01T08:00:00"));
}

#[test]
fn format_event_line_short_time_not_truncated() {
    let event = json(r#"{"event_time": "short", "event_type": "x"}"#);
    assert!(format_event_line(&event).contains("short"));
}

#[test]
fn format_event_line_exact_19_char_time() {
    let event = json(r#"{"event_time": "2024-06-15T12:30:45", "event_type": "decision"}"#);
    assert!(format_event_line(&event).contains("2024-06-15T12:30:45"));
}

#[test]
fn format_event_line_with_policy_name_fallback() {
    let event = json(
        r#"{"event_time": "2024-06-15T12:30:45.123Z", "event_type": "decision",
            "verdict": "blocked"}"#,
    );
    assert!(format_event_line(&event).contains("policy=-"));
}

#[test]
fn format_event_line_empty_object() {
    assert!(!format_event_line(&json("{}")).is_empty());
}

#[test]
fn an_event_time_that_cannot_be_cut_is_told() {
    let event = json("{\"event_time\": \"123456789012345678\u{e9}0\"}");
    assert!(!has_printable_time(&event));
}

#[test]
fn tail_follows_the_cursor_of_the_page() {
    let filter = TailFilter { limit: 5, event_type: None, gateway_id: None, verdict: None };
    let state = after_page(&json(r#"{"events": [], "next_cursor": "cursor-1"}"#));
    assert_eq!(next_page(&state, &filter), "/v1/events?cursor=cursor-1&limit=5");
}

#[test]
fn run_async_prints_human_event_rows() {
    let page = json(
        r#"{"events": [
            {"event_time": "2026-06-23T10:00:00Z", "event_type": "request", "verdict": "allow"},
            {"event_type": "response"}
        ]}"#,
    );
    let lines = page_lines(&page).expect("printable");
    assert_eq!(lines.len(), 2);
    assert!(lines[0].contains("2026-06-23T10:00:00 request"));
    assert_eq!(event_lines(&page).expect("printable"), lines);
}

#[test]
fn run_async_reports_empty_human_output() {
    let page = json(r#"{"events": []}"#);
    assert_eq!(
        page_lines(&page).expect("printable"),
        vec!["No events found.".to_string()]
    );
    assert!(event_lines(&page).expect("printable").is_empty());
    assert!(page_lines(&json("{}")).expect("printable").is_empty());
}

#[test]
fn a_time_that_cannot_be_cut_is_refused() {
    let page = json(r#"{"events": [{"event_time": "012345678901234567\u00e9 tail"}]}"#);
    assert!(page_lines(&page).is_none());
    assert!(event_lines(&page).is_none());
}

#[test]
fn an_export_succeeds_on_the_success_statuses_alone() {
    for code in [200, 204, 299] {
        assert!(check_export_status(code).is_ok());
    }
    for (code, error_code) in [
        (199, "cli.network"),
        (300, "cli.network"),
        (403, "cli.auth"),
        (422, "cli.user"),
        (500, "cli.network"),
    ] {
        let error = check_export_status(code).expect_err("refused");
        assert_eq!(error.error_code(), error_code);
        assert_eq!(error.to_string(), classify_export_error(code).to_string());
    }
}

#[test]
fn following_the_stream_prints_json() {
    assert!(prints_json(false, true));
    assert!(prints_json(true, false));
    assert!(prints_json(true, true));
    assert!(!prints_json(false, false));
}
