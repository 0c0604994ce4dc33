//! `verdictan escalations resolve`: the request and the confirmation.
use vstd::prelude::*;

use crate::json::{self, Json, JsonView};
use crate::text;

verus! {

#[derive(Clone, Copy, Debug, PartialEq, Eq, Structural)]
pub enum EscalationResolution {
    Allow,
    Block,
    Rewrite,
    Redact,
    Rejected,
}

pub open spec fn resolution_text(resolution: EscalationResolution) -> Seq<char> {
    match resolution {
        EscalationResolution::Allow => "allow"@,
        EscalationResolution::Block => "block"@,
        EscalationResolution::Rewrite => "rewrite"@,
        EscalationResolution::Redact => "redact"@,
        EscalationResolution::Rejected => "rejected"@,
    }
}

impl EscalationResolution {
    pub fn as_str(self) -> (r: &'static str)
        ensures
            r@ == resolution_text(self),
    {
        match self {
            EscalationResolution::Allow => "allow",
            EscalationResolution::Block => "block",
            EscalationResolution::Rewrite => "rewrite",
            EscalationResolution::Redact => "redact",
            EscalationResolution::Rejected => "rejected",
        }
    }
}

#[derive(Clone, Copy, Debug, PartialEq, Eq, Structural)]
pub enum EscalationResolutionCategory {
    FalsePositive,
    TruePositiveApproved,
    TruePositiveBlocked,
    NeedsPolicyUpdate,
    NeedsRewrite,
    Duplicate,
    Other,
}

pub open spec fn category_text(category: EscalationResolutionCategory) -> Seq<char> {
    match category {
        EscalationResolutionCategory::FalsePositive => "false_positive"@,
        EscalationResolutionCategory::TruePositiveApproved => "true_positive_approved"@,
        EscalationResolutionCategory::TruePositiveBlocked => "true_positive_blocked"@,
        EscalationResolutionCategory::NeedsPolicyUpdate => "needs_policy_update"@,
        EscalationResolutionCategory::NeedsRewrite => "needs_rewrite"@,
        EscalationResolutionCategory::Duplicate => "duplicate"@,
        EscalationResolutionCategory::Other => "other"@,
    }
}

impl EscalationResolutionCategory {
    pub fn as_str(self) -> (r: &'static str)
        ensures
            r@ == category_text(self),
    {
        match self {
            EscalationResolutionCategory::FalsePositive => "false_positive",
            EscalationResolutionCategory::TruePositiveApproved => "true_positive_approved",
            EscalationResolutionCategory::TruePositiveBlocked => "true_positive_blocked",
            EscalationResolutionCategory::NeedsPolicyUpdate => "needs_policy_update",
            EscalationResolutionCategory::NeedsRewrite => "needs_rewrite",
            EscalationResolutionCategory::Duplicate => "duplicate",
            EscalationResolutionCategory::Other => "other",
        }
    }
}

/// A member of the request, where it is given.
pub open spec fn given_member(key: Seq<char>, value: Option<Seq<char>>) -> Seq<
    (Seq<char>, JsonView),
> {
    match value {
        Some(v) => seq![(key, JsonView::Text(v))],
        None => Seq::empty(),
    }
}

/// The request: the resolution, and the note and the category where given.
pub open spec fn resolve_payload_of(
    resolution: EscalationResolution,
    note: Option<Seq<char>>,
    category: Option<EscalationResolutionCategory>,
) -> JsonView {
    JsonView::Object(
        seq![("resolution"@, JsonView::Text(resolution_text(resolution)))] + given_member(
            "resolution_note"@,
            note,
        ) + given_member(
            "resolution_category"@,
            match category {
                Some(c) => Some(category_text(c)),
                None => None,
            },
        ),
    )
}

pub fn resolve_payload(
    resolution: EscalationResolution,
    note: Option<&str>,
    category: Option<EscalationResolutionCategory>,
) -> (r: Json)
    ensures
        r@ == resolve_payload_of(resolution, text::opt_ref(note), category),
{
    let mut members: Vec<(String, Json)> = Vec::new();
    members.push(("resolution".to_string(), Json::Text(resolution.as_str().to_string())));
    if let Some(note) = note {
        members.push(("resolution_note".to_string(), Json::Text(note.to_string())));
    }
    if let Some(category) = category {
        members.push(
            ("resolution_category".to_string(), Json::Text(category.as_str().to_string())),
        );
    }
    let r = Json::Object(members);
    reveal_with_fuel(json::json_view, 3);
    assert(r@->Object_0 =~= resolve_payload_of(
        resolution,
        text::opt_ref(note),
        category,
    )->Object_0);
    r
}

pub open spec fn resolve_path_of(escalation_id: Seq<char>) -> Seq<char> {
    "/v1/escalations/"@ + escalation_id + "/resolve"@
}

pub fn resolve_path(escalation_id: &str) -> (r: String)
    ensures
        r@ == resolve_path_of(escalation_id@),
{
    let mut path = "/v1/escalations/".to_string();
    path.append(escalation_id);
    path.append("/resolve");
    path
}

/// What the operator reads once the escalation is resolved.
pub fn resolved_message(escalation_id: &str) -> (r: String)
    ensures
        r@ == "resolved escalation "@ + escalation_id@,
{
    let mut message = "resolved escalation ".to_string();
    message.append(escalation_id);
    message
}

} // verus!
