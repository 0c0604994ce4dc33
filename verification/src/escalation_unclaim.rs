//! `verdictan escalations unclaim`: the request and the confirmation.
use vstd::prelude::*;

verus! {

pub fn unclaim_path(escalation_id: &str) -> (r: String)
    ensures
        r@ == "/v1/escalations/"@ + escalation_id@ + "/unclaim"@,
{
    let mut path = "/v1/escalations/".to_string();
    path.append(escalation_id);
    path.append("/unclaim");
    path
}

/// What the operator reads once the escalation is unclaimed.
pub fn unclaimed_message(escalation_id: &str) -> (r: String)
    ensures
        r@ == "unclaimed escalation "@ + escalation_id@,
{
    let mut message = "unclaimed escalation ".to_string();
    message.append(escalation_id);
    message
}

} // verus!
