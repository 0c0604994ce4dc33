use verdictan::clock::parse_rfc3339;
use verdictan::error::CliError;
use verdictan::history_condense::{
    self, artifact, artifact_lines, condense_entries, dry_run_info, dry_run_lines,
    estimate_tokens, gather_entries, matching_session_ids_from_value, require_sessions,
    synthesize_condensed_text, Condensation,
};
use verdictan::history_export::{
    accept_page, append_validated_page, extract_content, extract_role, format_json,
    format_markdown, format_txt, json_result, page_path, require_entry_count, require_session,
    session_document, ExportProgress,
};
use verdictan::history_get_session::{
    self, attach_entries, session_path, session_summary_text,
};
use verdictan::history_learn::{
    build_sessions_discovery_path, learn_lines, learn_path, learn_payload, learn_preview,
    pick_most_recent_session, preview_lines, resolve_most_recent_session_id,
};
use verdictan::history_list_sessions::{
    build_sessions_path, filter_sessions_by_activity, list_lines, list_value, listed_sessions,
    parse_bound, session_line,
};
use verdictan::json::{Json, Number};

fn convert(value: &serde_json::Value) -> Json {
    match value {
        serde_json::Value::Null => Json::Null,
        serde_json::Value::Bool(b) => Json::Bool(*b),
        serde_json::Value::Number(n) => Json::Number(match (n.as_i64(), n.as_u64()) {
            (Some(i), _) => Number::Integer(i),
            (None, Some(u)) => Number::Unsigned(u),
            (None, None) => Number::Other(n.to_string()),
        }),
        serde_json::Value::String(s) => Json::Text(s.clone()),
        serde_json::Value::Array(items) => Json::Array(items.iter().map(convert).collect()),
        serde_json::Value::Object(members) => Json::Object(
            members.iter().map(|(k, v)| (k.clone(), convert(v))).collect(),
        ),
    }
}

fn json(text: &str) -> Json {
    convert(&serde_json::from_str(text).expect("test json"))
}

fn list(text: &str) -> Vec<Json> {
    match json(text) {
        Json::Array(items) => items,
        other => vec![other],
    }
}

#[test]
fn command_helper_coverage_estimate_tokens_rounds_up_word_count() {
    assert_eq!(estimate_tokens("one two three"), 4);
}

#[test]
fn estimate_tokens_basic() {
    assert_eq!(estimate_tokens(""), 0);
    assert_eq!(estimate_tokens("hello"), 2);
    assert_eq!(estimate_tokens("one two three"), 4);
}

#[test]
fn estimate_tokens_of_ten_words_is_exact() {
    assert_eq!(estimate_tokens("a b c d e f g h i j"), 13);
    assert_eq!(estimate_tokens(&"w ".repeat(1000)), 1300);
}

#[test]
fn command_helper_coverage_synthesize_condensed_text_filters_and_stops_at_budget() {
    let entries = list(
        r#"[{"role": "user", "verdict": "allowed", "content": "alpha beta"},
            {"role": "assistant", "verdict": "blocked", "content": "should skip"},
            {"role": "user", "verdict": "allowed", "content": ""},
            {"role": "assistant", "verdict": "allowed", "content": "gamma delta epsilon"}]"#,
    );
    assert_eq!(synthesize_condensed_text(&entries, true, false, 5), "user: alpha beta\n");
}

#[test]
fn command_helper_coverage_synthesize_condensed_text_can_include_blocked_entries() {
    let entries = list(
        r#"[{"role": "user", "verdict": "blocked", "content": "blocked content"},
            {"role": "assistant", "verdict": "allowed", "content": "allowed content"}]"#,
    );
    let text = synthesize_condensed_text(&entries, false, true, 50);
    assert!(text.contains("user: blocked content"));
    assert!(text.contains("assistant: allowed content"));
}

#[test]
fn history_condense_command_helper_coverage_parse_rfc3339_rejects_invalid_timestamp() {
    assert!(parse_rfc3339("not-a-timestamp").is_err());
}

#[test]
fn command_helper_coverage_build_sessions_path_includes_scope_team_and_agent() {
    assert_eq!(
        history_condense::build_sessions_path(
            Some("team"),
            Some("team alpha"),
            Some("agent/beta")
        ),
        "/v1/history/sessions?scope=team&team_id=team%20alpha&agent_id=agent%2Fbeta"
    );
}

#[test]
fn command_helper_coverage_matching_session_ids_from_value_applies_window() {
    let since = parse_rfc3339("2025-01-10T00:00:00Z").unwrap();
    let until = parse_rfc3339("2025-01-20T00:00:00Z").unwrap();
    let value = json(
        r#"{"sessions": [
            {"session_id": "sess-before", "last_activity_at": "2025-01-09T23:00:00Z"},
            {"session_id": "sess-match", "last_activity_at": "2025-01-15T12:00:00Z"},
            {"session_id": "sess-after", "last_activity_at": "2025-01-21T12:00:00Z"},
            {"last_activity_at": "2025-01-15T12:00:00Z"}
        ]}"#,
    );
    assert_eq!(
        matching_session_ids_from_value(&value, Some(since), Some(until)),
        vec!["sess-match".to_string()]
    );
}

#[test]
fn command_helper_coverage_matching_session_ids_keeps_missing_timestamps() {
    let since = parse_rfc3339("2025-01-10T00:00:00Z").unwrap();
    let value = json(
        r#"{"sessions": [{"session_id": "sess-missing"},
            {"session_id": "sess-valid", "last_activity_at": "2025-01-15T12:00:00Z"}]}"#,
    );
    assert_eq!(
        matching_session_ids_from_value(&value, Some(since), None),
        vec!["sess-missing".to_string(), "sess-valid".to_string()]
    );
}

#[test]
fn synthesize_condensed_text_skips_blocked_when_not_include_blocked() {
    let entries = list(
        r#"[{"role": "user", "verdict": "blocked", "content": "blocked msg"},
            {"role": "assistant", "verdict": "unknown", "content": "unknown msg"}]"#,
    );
    let text = synthesize_condensed_text(&entries, false, false, 100);
    assert!(!text.contains("blocked msg"));
    assert!(text.contains("unknown msg"));
}

#[test]
fn synthesize_condensed_text_includes_unknown_verdict_when_not_allowed_only() {
    let entries = list(
        r#"[{"role": "system", "content": "system instructions"},
            {"role": "user", "content": "user request"}]"#,
    );
    let text = synthesize_condensed_text(&entries, false, false, 100);
    assert!(text.contains("system: system instructions"));
    assert!(text.contains("user: user request"));
}

#[test]
fn synthesize_condensed_text_skips_empty_content() {
    let entries = list(
        r#"[{"role": "user", "verdict": "allowed", "content": ""},
            {"role": "user", "verdict": "allowed", "content": "   "},
            {"role": "user", "verdict": "allowed", "content": "real content"}]"#,
    );
    assert_eq!(synthesize_condensed_text(&entries, false, false, 100), "user: real content\n");
}

#[test]
fn synthesize_condensed_text_respects_max_chars_boundary() {
    let entries = list(
        r#"[{"role": "user", "verdict": "allowed", "content": "short"},
            {"role": "assistant", "verdict": "allowed",
             "content": "this is a much longer response that should exceed the budget"}]"#,
    );
    let text = synthesize_condensed_text(&entries, false, false, 5);
    assert!(text.contains("user: short"));
    assert!(!text.contains("much longer"));
}

#[test]
fn condensing_nothing_is_refused() {
    assert!(condense_entries(&Vec::new(), false, false, 100).is_err());
    assert!(require_sessions(Vec::new()).is_err());
    assert_eq!(require_sessions(vec!["s".to_string()]).unwrap(), vec!["s".to_string()]);
}

#[test]
fn matching_session_ids_from_value_no_filters() {
    let value = json(
        r#"{"sessions": [
            {"session_id": "s1", "last_activity_at": "2025-01-01T00:00:00Z"},
            {"session_id": "s2", "last_activity_at": "2025-06-01T00:00:00Z"}]}"#,
    );
    assert_eq!(
        matching_session_ids_from_value(&value, None, None),
        vec!["s1".to_string(), "s2".to_string()]
    );
}

#[test]
fn matching_session_ids_from_value_empty_sessions() {
    assert!(matching_session_ids_from_value(&json(r#"{"sessions": []}"#), None, None).is_empty());
}

#[test]
fn matching_session_ids_from_value_missing_key() {
    assert!(matching_session_ids_from_value(&json("{}"), None, None).is_empty());
}

#[test]
fn build_sessions_path_no_filters() {
    assert_eq!(history_condense::build_sessions_path(None, None, None), "/v1/history/sessions");
}

#[test]
fn build_sessions_path_scope_only() {
    assert_eq!(
        history_condense::build_sessions_path(Some("org"), None, None),
        "/v1/history/sessions?scope=org"
    );
}

#[test]
fn command_helper_coverage_parse_rfc3339_accepts_valid_timestamp() {
    let parsed = parse_rfc3339("2026-06-23T10:15:30Z").unwrap();
    assert_eq!(parsed.seconds, 1_782_209_730);
    assert_eq!(parsed.nanos, 0);
}

#[test]
fn history_list_sessions_command_helper_coverage_parse_rfc3339_rejects_invalid_timestamp() {
    assert!(parse_rfc3339("2026-06-23").is_err());
    assert!(parse_bound(Some("2026-06-23"), "--since").is_err());
    assert!(parse_bound(None, "--since").unwrap().is_none());
}

#[test]
fn command_helper_coverage_build_sessions_path_includes_all_server_filters() {
    assert_eq!(
        build_sessions_path(
            Some("team"),
            Some("team alpha"),
            Some("agent/beta"),
            Some("incident review"),
        ),
        "/v1/history/sessions?scope=team&team_id=team%20alpha&agent_id=agent%2Fbeta&tag=incident%20review"
    );
}

#[test]
fn command_helper_coverage_build_sessions_path_omits_query_without_filters() {
    assert_eq!(build_sessions_path(None, None, None, None), "/v1/history/sessions");
}

#[test]
fn command_helper_coverage_filter_sessions_by_activity_applies_window_and_limit() {
    let since = parse_rfc3339("2025-01-10T00:00:00Z").unwrap();
    let until = parse_rfc3339("2025-01-20T00:00:00Z").unwrap();
    let sessions = list(
        r#"[{"session_id": "sess-before", "last_activity_at": "2025-01-09T00:00:00Z"},
            {"session_id": "sess-one", "last_activity_at": "2025-01-11T00:00:00Z"},
            {"session_id": "sess-two", "last_activity_at": "2025-01-12T00:00:00Z"}]"#,
    );
    let filtered = filter_sessions_by_activity(sessions, Some(since), Some(until), 1);
    assert_eq!(filtered.len(), 1);
    assert_eq!(filtered[0].get_str("session_id"), Some("sess-one"));
}

#[test]
fn command_helper_coverage_filter_sessions_by_activity_keeps_missing_timestamp_entries() {
    let since = parse_rfc3339("2025-01-10T00:00:00Z").unwrap();
    let filtered = filter_sessions_by_activity(
        list(r#"[{"session_id": "sess-missing"}]"#),
        Some(since),
        None,
        10,
    );
    assert_eq!(filtered.len(), 1);
    assert_eq!(filtered[0].get_str("session_id"), Some("sess-missing"));
}

#[test]
fn command_helper_coverage_filter_sessions_no_filters_returns_all() {
    let sessions = list(
        r#"[{"session_id": "s1", "last_activity_at": "2025-01-01T00:00:00Z"},
            {"session_id": "s2", "last_activity_at": "2025-06-01T00:00:00Z"},
            {"session_id": "s3", "last_activity_at": "2025-12-01T00:00:00Z"}]"#,
    );
    assert_eq!(filter_sessions_by_activity(sessions, None, None, 100).len(), 3);
}

#[test]
fn command_helper_coverage_filter_sessions_excludes_after_until() {
    let until = parse_rfc3339("2025-01-15T00:00:00Z").unwrap();
    let sessions = list(
        r#"[{"session_id": "before", "last_activity_at": "2025-01-10T00:00:00Z"},
            {"session_id": "after", "last_activity_at": "2025-01-20T00:00:00Z"}]"#,
    );
    let filtered = filter_sessions_by_activity(sessions, None, Some(until), 10);
    assert_eq!(filtered.len(), 1);
    assert_eq!(filtered[0].get_str("session_id"), Some("before"));
}

#[test]
fn command_helper_coverage_filter_sessions_limit_zero_returns_empty() {
    let sessions =
        list(r#"[{"session_id": "s1", "last_activity_at": "2025-01-15T00:00:00Z"}]"#);
    assert!(filter_sessions_by_activity(sessions, None, None, 0).is_empty());
}

#[test]
fn command_helper_coverage_build_sessions_path_single_filter() {
    assert_eq!(
        build_sessions_path(Some("org"), None, None, None),
        "/v1/history/sessions?scope=org"
    );
    assert_eq!(
        build_sessions_path(None, Some("t-1"), None, None),
        "/v1/history/sessions?team_id=t-1"
    );
    assert_eq!(
        build_sessions_path(None, None, Some("a-1"), None),
        "/v1/history/sessions?agent_id=a-1"
    );
    assert_eq!(
        build_sessions_path(None, None, None, Some("tag1")),
        "/v1/history/sessions?tag=tag1"
    );
}

#[test]
fn command_helper_coverage_parse_rfc3339_with_offset() {
    let parsed = parse_rfc3339("2025-06-01T12:30:00+05:30").unwrap();
    let expected = parse_rfc3339("2025-06-01T07:00:00Z").unwrap();
    assert_eq!((parsed.seconds, parsed.nanos), (expected.seconds, expected.nanos));
}

#[test]
fn session_lines_name_the_session() {
    assert!(session_line(&json(r#"{"session_id": "s-77"}"#)).contains("s-77"));
}

#[test]
fn pick_most_recent_session_selects_latest_activity() {
    let sessions = list(
        r#"[{"session_id": "old", "last_activity_at": "2024-01-01T00:00:00Z"},
            {"session_id": "newest", "last_activity_at": "2024-06-15T12:00:00Z"},
            {"session_id": "mid", "last_activity_at": "2024-03-10T06:00:00Z"}]"#,
    );
    assert_eq!(pick_most_recent_session(&sessions), Some("newest"));
}

#[test]
fn pick_most_recent_session_returns_none_for_empty() {
    assert_eq!(pick_most_recent_session(&Vec::new()), None);
    assert!(resolve_most_recent_session_id(&json(r#"{"sessions": []}"#)).is_err());
}

#[test]
fn pick_most_recent_session_handles_missing_timestamp() {
    let sessions = list(
        r#"[{"session_id": "a"},
            {"session_id": "b", "last_activity_at": "2024-01-01T00:00:00Z"}]"#,
    );
    assert_eq!(pick_most_recent_session(&sessions), Some("b"));
}

#[test]
fn build_sessions_discovery_path_no_filters() {
    assert_eq!(build_sessions_discovery_path(None, None, None), "/v1/history/sessions");
}

#[test]
fn build_sessions_discovery_path_all_filters() {
    let path = build_sessions_discovery_path(Some("team"), Some("t-1"), Some("a-1"));
    assert!(path.starts_with("/v1/history/sessions?"));
    assert!(path.contains("scope=team"));
    assert!(path.contains("team_id=t-1"));
    assert!(path.contains("agent_id=a-1"));
}

#[test]
fn build_sessions_discovery_path_encodes_special_chars() {
    let path = build_sessions_discovery_path(None, Some("team with spaces"), None);
    assert!(path.contains("team_id=team%20with%20spaces"));
}

#[test]
fn session_id_encoding_in_learn_path() {
    let path = learn_path("session/with special&chars");
    assert!(path.contains("session%2Fwith%20special%26chars"));
    assert_eq!(path, "/v1/history/sessions/session%2Fwith%20special%26chars/learn");
}

#[test]
fn learning_states_its_request_and_its_result() {
    let payload = learn_payload("summary", 3, 500);
    assert_eq!(payload.get_str("strategy"), Some("summary"));
    assert_eq!(payload.get_i64("target_max_tokens"), Some(500));
    assert!(learn_lines("s-1", &json("{}")).iter().any(|line| line.contains("s-1")));
}

#[test]
fn attach_entries_inserts_payload_on_object_values() {
    let merged = attach_entries(
        json(r#"{"session": {"session_id": "sess-1"}}"#),
        json(r#"{"entries": [{"id": "entry-1"}]}"#),
    );
    let entries = merged.get("entries").unwrap().get_array("entries").unwrap();
    assert_eq!(entries[0].get_str("id"), Some("entry-1"));
}

#[test]
fn attach_entries_ignores_non_object_values() {
    let merged = attach_entries(json(r#"["not", "an", "object"]"#), json(r#"{"entries": []}"#));
    assert_eq!(merged, json(r#"["not", "an", "object"]"#));
}

#[test]
fn session_summary_text_prefers_nested_session_payload() {
    let value = json(
        r#"{"session": {"session_id": "sess-1", "scope": "team", "entry_count": 7,
            "allowed_entry_count": 5, "blocked_entry_count": 2,
            "started_at": "2025-01-15T11:00:00Z"}}"#,
    );
    assert_eq!(
        session_summary_text(&value),
        "session_id:       sess-1\nscope:            team\nstarted_at:       2025-01-15T11:00:00Z\nentry_count:      7\nallowed:          5\nblocked:          2"
    );
}

#[test]
fn session_summary_text_falls_back_to_top_level_and_defaults() {
    assert_eq!(
        session_summary_text(&json(r#"{"session_id": "sess-top", "scope": "org"}"#)),
        "session_id:       sess-top\nscope:            org\nstarted_at:       -\nentry_count:      0\nallowed:          0\nblocked:          0"
    );
}

#[test]
fn session_summary_text_all_defaults() {
    let text = session_summary_text(&json("{}"));
    assert!(text.contains("session_id:       -"));
    assert!(text.contains("scope:            -"));
    assert!(text.contains("started_at:       -"));
    assert!(text.contains("entry_count:      0"));
    assert!(text.contains("allowed:          0"));
    assert!(text.contains("blocked:          0"));
}

#[test]
fn attach_entries_adds_under_entries_key() {
    let merged = attach_entries(json(r#"{"session_id": "s1"}"#), json(r#"{"data": [1, 2, 3]}"#));
    assert_eq!(merged.get("entries"), Some(&json(r#"{"data": [1, 2, 3]}"#)));
    assert_eq!(merged.get_str("session_id"), Some("s1"));
}

#[test]
fn get_session_path_formatting() {
    assert_eq!(session_path("my-session-123"), "/v1/history/sessions/my-session-123");
}

#[test]
fn get_session_path_encodes_special_chars() {
    assert_eq!(session_path("sess/with space"), "/v1/history/sessions/sess%2Fwith%20space");
    assert_eq!(
        history_get_session::entries_path("a b"),
        "/v1/history/sessions/a%20b/entries"
    );
    assert_eq!(
        history_condense::entries_path("s1"),
        "/v1/history/sessions/s1/entries"
    );
}

fn conversation() -> Vec<Json> {
    list(
        r#"[{"request_payload": {"messages": [{"role": "user", "content": "what happened?"}]}},
            {"entry_kind": "assistant", "response_payload": {"choices": [
                {"message": {"role": "assistant", "content": "the system recovered"}}]}}]"#,
    )
}

#[test]
fn format_markdown_renders_frontmatter_and_entries() {
    let session = json(
        r#"{"session_id": "sess-export", "scope": "team", "started_at": "2025-01-15T10:00:00Z",
            "entry_count": 2, "tags": ["incident", "ops"]}"#,
    );
    let markdown = format_markdown(&session, &conversation());
    assert!(markdown.contains("session_id: sess-export"));
    assert!(markdown.contains("tags: [incident, ops]"));
    assert!(markdown.contains("## user\n\nwhat happened?"));
    assert!(markdown.contains("## assistant\n\nthe system recovered"));
}

fn value(text: &str) -> serde_json::Value {
    serde_json::from_str(text).expect("valid json")
}

#[test]
fn format_json_wraps_session_and_entries() {
    let rendered = format_json(
        &value(r#"{"session_id": "sess-1"}"#),
        &[value(r#"{"entry_kind": "user", "content": "hello"}"#)],
    )
    .expect("json formatting");
    let parsed = value(&rendered);
    assert_eq!(parsed["session"]["session_id"], "sess-1");
    assert_eq!(parsed["entries"][0]["content"], "hello");
    assert_eq!(
        rendered,
        "{\n  \"entries\": [\n    {\n      \"content\": \"hello\",\n      \"entry_kind\": \"user\"\n    \
         }\n  ],\n  \"session\": {\n    \"session_id\": \"sess-1\"\n  }\n}"
    );
}

#[test]
fn a_session_document_holds_the_session_and_its_entries() {
    let session = value(r#"{"session_id": "sess-1"}"#);
    let entries = [value("{}"), value(r#"{"content": "hello"}"#)];
    assert_eq!(
        session_document(&session, &entries).to_string(),
        r#"{"entries":[{},{"content":"hello"}],"session":{"session_id":"sess-1"}}"#
    );
    assert_eq!(
        session_document(&session, &[]).to_string(),
        r#"{"entries":[],"session":{"session_id":"sess-1"}}"#
    );
}

#[test]
fn a_value_that_cannot_be_printed_is_an_internal_error() {
    let error = json_result(Err("no room".to_string())).expect_err("not printed");
    assert_eq!(error.to_string(), "failed to serialize JSON: no room");
    assert_eq!(error.error_code(), "cli.internal");
    assert_eq!(json_result(Ok("{}".to_string())).expect("printed"), "{}");
}

#[test]
fn a_value_of_any_depth_and_any_float_is_exported_as_it_is() {
    let mut deep = serde_json::Value::from(5e-324);
    for _ in 0..200 {
        deep = serde_json::Value::from(vec![deep]);
    }
    let entries = [deep, serde_json::Value::from(1.7976931348623157e308)];
    let rendered = format_json(&serde_json::Value::from(0.1), &entries).expect("json formatting");
    assert!(rendered.contains("5e-324\n"));
    assert!(rendered.contains("1.7976931348623157e+308\n  ]"));
    assert!(rendered.ends_with("\"session\": 0.1\n}"));
}

#[test]
fn format_txt_uses_extracted_role_and_content() {
    let entries = list(
        r#"[{"request_payload": {"messages": [{"role": "user", "content": "user asks"}]}},
            {"entry_kind": "assistant", "response_payload": {"choices": [
                {"message": {"role": "assistant", "content": "assistant answers"}}]}}]"#,
    );
    let text = format_txt(&entries);
    assert!(text.contains("[user]: user asks"));
    assert!(text.contains("[assistant]: assistant answers"));
}

#[test]
fn extract_role_prefers_last_request_message_and_falls_back_to_entry_kind() {
    let from_request = json(
        r#"{"entry_kind": "fallback-kind", "request_payload": {"messages": [
            {"role": "system", "content": "setup"},
            {"role": "user", "content": "latest role wins"}]}}"#,
    );
    assert_eq!(extract_role(&from_request), "user");
    assert_eq!(extract_role(&json(r#"{"entry_kind": "assistant"}"#)), "assistant");
}

#[test]
fn extract_content_prefers_response_then_request_then_content() {
    let from_response = json(
        r#"{"request_payload": {"messages": [{"role": "user", "content": "request text"}]},
            "response_payload": {"choices": [
                {"message": {"role": "assistant", "content": "response text"}}]},
            "content": "stored text"}"#,
    );
    let from_request = json(
        r#"{"request_payload": {"messages": [{"role": "user", "content": "request only"}]}}"#,
    );
    assert_eq!(extract_content(&from_response), "response text");
    assert_eq!(extract_content(&from_request), "request only");
    assert_eq!(extract_content(&json(r#"{"content": "content only"}"#)), "content only");
}

#[test]
fn append_validated_page_rejects_duplicate_entry_ids_across_pages() {
    let mut entries = Vec::new();
    let mut seen_entry_ids = Vec::new();
    let mut last_request_index = None;
    append_validated_page(
        &mut entries,
        &mut seen_entry_ids,
        &mut last_request_index,
        list(r#"[{"entry_id": "entry-1", "request_index": 1}]"#),
        0,
    )
    .expect("first page");
    let error = append_validated_page(
        &mut entries,
        &mut seen_entry_ids,
        &mut last_request_index,
        list(r#"[{"entry_id": "entry-1", "request_index": 2}]"#),
        500,
    )
    .expect_err("duplicate entry ID must fail");
    assert!(error.to_string().contains("repeated entry_id entry-1"));
}

#[test]
fn append_validated_page_rejects_non_increasing_request_indexes() {
    let mut entries = Vec::new();
    let mut seen_entry_ids = Vec::new();
    let mut last_request_index = None;
    append_validated_page(
        &mut entries,
        &mut seen_entry_ids,
        &mut last_request_index,
        list(r#"[{"entry_id": "entry-2", "request_index": 2}]"#),
        0,
    )
    .expect("first page");
    let error = append_validated_page(
        &mut entries,
        &mut seen_entry_ids,
        &mut last_request_index,
        list(r#"[{"entry_id": "entry-3", "request_index": 1}]"#),
        500,
    )
    .expect_err("out-of-order request index must fail");
    assert!(error.to_string().contains("not in strictly increasing request_index order"));
}

#[test]
fn append_validated_page_rejects_malformed_entries() {
    let mut entries = Vec::new();
    let mut seen_entry_ids = Vec::new();
    let mut last_request_index = None;
    let error = append_validated_page(
        &mut entries,
        &mut seen_entry_ids,
        &mut last_request_index,
        list(r#"[{"entry_id": "entry-without-index"}]"#),
        0,
    )
    .expect_err("missing request index must fail");
    assert!(error.to_string().contains("no integer request_index"));
}

#[test]
fn an_export_is_complete_with_its_last_page() {
    let session = json(r#"{"session": {"session_id": "s", "entry_count": 2}}"#);
    let expected = require_entry_count(require_session(&session).unwrap()).unwrap();
    assert_eq!(expected, 2);
    let page = json(
        r#"{"entries": [{"entry_id": "e1", "request_index": 1},
                        {"entry_id": "e2", "request_index": 2}]}"#,
    );
    let (progress, done) = accept_page(ExportProgress::new(), page, expected).unwrap();
    assert!(done);
    assert_eq!(progress.entries.len(), 2);
    assert!(accept_page(ExportProgress::new(), json("{}"), expected).is_err());
    assert!(page_path("s 1", 500).contains("s%201"));
}

#[test]
fn entries_of_several_sessions_are_gathered_in_order() {
    let first = gather_entries(vec![], json(r#"{"entries": [{"n": 1}, {"n": 2}]}"#));
    let second = gather_entries(first, json(r#"{"note": "no list"}"#));
    let third = gather_entries(second, json(r#"{"entries": [{"n": 3}]}"#));
    assert_eq!(
        third,
        vec![json(r#"{"n": 1}"#), json(r#"{"n": 2}"#), json(r#"{"n": 3}"#)]
    );
    let failure = CliError::network("timed out".to_string());
    assert_eq!(
        history_condense::unfetched_warning("s1", &failure),
        "warning: could not fetch entries for session s1: timed out"
    );
    assert_eq!(
        history_get_session::unfetched_warning(&failure),
        "warning: could not fetch entries: timed out"
    );
}

fn condensation() -> Condensation {
    Condensation {
        strategy: "summary".to_string(),
        session_ids: vec!["s1".to_string(), "s2".to_string()],
        entries_fetched: 7,
        token_estimate: 13,
        target_max_tokens: 100,
        allowed_only: true,
        include_blocked: false,
    }
}

#[test]
fn a_dry_run_of_a_condensation_is_reported() {
    assert_eq!(
        dry_run_info(&condensation()),
        Json::Object(vec![
            ("dry_run".to_string(), Json::Bool(true)),
            ("strategy".to_string(), Json::Text("summary".to_string())),
            ("sessions".to_string(), json(r#"["s1", "s2"]"#)),
            ("entries_fetched".to_string(), json("7")),
            ("token_estimate".to_string(), json("13")),
            ("target_max_tokens".to_string(), json("100")),
        ])
    );
    assert_eq!(
        dry_run_lines(&condensation()),
        vec![
            "dry-run: strategy=summary".to_string(),
            "  sessions:         2".to_string(),
            "  entries_fetched:  7".to_string(),
            "  token_estimate:   13".to_string(),
        ]
    );
}

#[test]
fn an_artifact_holds_the_text_and_where_it_is_from() {
    let value = artifact(&condensation(), "user: hello\n");
    assert_eq!(value.get_str("load_kind"), Some("condense_artifact"));
    let source = value.get("source").expect("source");
    assert_eq!(source.get("session_ids"), Some(&json(r#"["s1", "s2"]"#)));
    let made = value.get("condensation").expect("condensation");
    assert_eq!(made.get_i64("token_estimate"), Some(13));
    assert_eq!(made.get("allowed_only"), Some(&Json::Bool(true)));
    let units = value.get_array("units").expect("units");
    assert_eq!(units.len(), 1);
    assert_eq!(units[0].get_str("content"), Some("user: hello\n"));
    assert_eq!(
        units[0].get("labels"),
        Some(&json(r#"["condensed_history", "history"]"#))
    );
    assert_eq!(
        artifact_lines(&condensation(), "/tmp/out.json"),
        vec![
            "artifact: /tmp/out.json".to_string(),
            "strategy: summary".to_string(),
            "sessions: 2".to_string(),
            "tokens:   ~13".to_string(),
        ]
    );
}

#[test]
fn a_dry_run_of_learning_is_reported() {
    let preview = learn_preview("s1", "summary", 3, 100, vec![json("{}"), json("{}")]);
    assert_eq!(preview.get_str("session_id"), Some("s1"));
    assert_eq!(preview.get_i64("entries_fetched"), Some(2));
    assert_eq!(preview.get_i64("previous_sessions_max"), Some(3));
    assert_eq!(
        preview_lines("s1", "summary", 2),
        vec![
            "dry-run: history learn".to_string(),
            "session: s1".to_string(),
            "strategy: summary".to_string(),
            "entries fetched: 2".to_string(),
        ]
    );
}

#[test]
fn listed_sessions_are_shown_one_by_one() {
    let sessions = listed_sessions(json(
        r#"{"sessions": [{"session_id": "s1", "scope": "team", "entry_count": 2}]}"#,
    ));
    assert_eq!(
        list_lines(&sessions),
        vec!["s1\tteam\tentries=2\tlast_activity=-".to_string()]
    );
    assert_eq!(
        list_value(sessions).get_array("sessions").map(|all| all.len()),
        Some(1)
    );
    let none = listed_sessions(json("{}"));
    assert_eq!(list_lines(&none), vec!["no sessions".to_string()]);
}
