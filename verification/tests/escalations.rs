use verdictan::escalation_resolve::{
    resolve_path, resolve_payload, resolved_message, EscalationResolution,
    EscalationResolutionCategory,
};
use verdictan::escalation_unclaim::{unclaim_path, unclaimed_message};

#[test]
fn resolve_payload_required_only() {
    let payload = resolve_payload(EscalationResolution::Allow, None, None);
    assert_eq!(payload.get_str("resolution"), Some("allow"));
    assert!(payload.get("resolution_note").is_none());
    assert!(payload.get("resolution_category").is_none());
}

#[test]
fn resolve_payload_with_note_and_category() {
    let payload = resolve_payload(
        EscalationResolution::Block,
        Some("PII detected"),
        Some(EscalationResolutionCategory::TruePositiveApproved),
    );
    assert_eq!(payload.get_str("resolution"), Some("block"));
    assert_eq!(payload.get_str("resolution_note"), Some("PII detected"));
    assert_eq!(payload.get_str("resolution_category"), Some("true_positive_approved"));
}

#[test]
fn resolve_payload_with_note_only() {
    let payload = resolve_payload(EscalationResolution::Allow, Some("Looks safe"), None);
    assert_eq!(payload.get_str("resolution_note"), Some("Looks safe"));
    assert!(payload.get("resolution_category").is_none());
}

#[test]
fn resolve_payload_with_category_only() {
    let payload = resolve_payload(
        EscalationResolution::Block,
        None,
        Some(EscalationResolutionCategory::FalsePositive),
    );
    assert_eq!(payload.get_str("resolution_category"), Some("false_positive"));
    assert!(payload.get("resolution_note").is_none());
}

#[test]
fn resolve_payload_note_and_category_are_string_type() {
    let payload = resolve_payload(
        EscalationResolution::Allow,
        Some("This was reviewed by security team"),
        Some(EscalationResolutionCategory::FalsePositive),
    );
    assert!(payload.get_str("resolution_note").is_some());
    assert!(payload.get_str("resolution_category").is_some());
}

#[test]
fn resolve_payload_empty_note_still_added() {
    let payload = resolve_payload(EscalationResolution::Allow, Some(""), None);
    assert_eq!(payload.get_str("resolution_note"), Some(""));
}

#[test]
fn resolve_path_formatting() {
    assert_eq!(resolve_path("esc-99"), "/v1/escalations/esc-99/resolve");
}

#[test]
fn escalation_resolve_output_message() {
    let msg = resolved_message("esc-resolved");
    assert!(msg.contains("resolved escalation"));
    assert!(msg.contains("esc-resolved"));
    assert_eq!(msg, "resolved escalation esc-resolved");
}

#[test]
fn resolve_path_with_uuid() {
    let path = resolve_path("550e8400-e29b-41d4-a716-446655440000");
    assert!(path.starts_with("/v1/escalations/"));
    assert!(path.ends_with("/resolve"));
}

#[test]
fn resolution_values_match_api_contract() {
    let values = [
        EscalationResolution::Allow,
        EscalationResolution::Block,
        EscalationResolution::Rewrite,
        EscalationResolution::Redact,
        EscalationResolution::Rejected,
    ];
    assert_eq!(
        values.map(EscalationResolution::as_str),
        ["allow", "block", "rewrite", "redact", "rejected"]
    );
}

#[test]
fn resolution_category_values_match_api_contract() {
    let values = [
        EscalationResolutionCategory::FalsePositive,
        EscalationResolutionCategory::TruePositiveApproved,
        EscalationResolutionCategory::TruePositiveBlocked,
        EscalationResolutionCategory::NeedsPolicyUpdate,
        EscalationResolutionCategory::NeedsRewrite,
        EscalationResolutionCategory::Duplicate,
        EscalationResolutionCategory::Other,
    ];
    assert_eq!(
        values.map(EscalationResolutionCategory::as_str),
        [
            "false_positive",
            "true_positive_approved",
            "true_positive_blocked",
            "needs_policy_update",
            "needs_rewrite",
            "duplicate",
            "other",
        ]
    );
}

#[test]
fn unclaim_path_formatting() {
    assert_eq!(unclaim_path("esc-7"), "/v1/escalations/esc-7/unclaim");
}

#[test]
fn escalation_unclaim_output_message() {
    let msg = unclaimed_message("esc-unclaimed");
    assert!(msg.contains("unclaimed escalation"));
    assert!(msg.contains("esc-unclaimed"));
}

#[test]
fn unclaim_path_with_uuid() {
    let path = unclaim_path("550e8400-e29b-41d4-a716-446655440000");
    assert!(path.starts_with("/v1/escalations/"));
    assert!(path.ends_with("/unclaim"));
    assert!(path.contains("550e8400"));
}

#[test]
fn unclaim_path_with_empty_id() {
    assert_eq!(unclaim_path(""), "/v1/escalations//unclaim");
}
