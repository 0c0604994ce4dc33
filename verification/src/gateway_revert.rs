//! Taking a gateway back to its rollback target.
use vstd::prelude::*;

use crate::error::{self, CliError, ErrorView};
use crate::gateway_reload::{
    self, parse_reload_config, read_reload_answer, verify_gateway_config, verify_gateway_health,
    AnswerView, ConfigView, GatewayAnswer, ParsedGatewayConfig,
};
use crate::instances::{
    ConfigVerificationState, EntryView, GatewayInstanceLifecycle, GatewayInstanceStatus,
    OperationAction, OperationHistoryEntry, OperationOutcome, StatusView,
};
use crate::text;

verus! {

pub const REVERT_REASON: &'static str = "manual revert requested";

#[derive(Debug)]
pub struct GatewayRevertArgs {
    pub name: String,
    pub gateway_url: String,
    pub state_dir: Option<String>,
    pub json: bool,
}

/// A complete rollback target.
#[derive(Debug)]
pub struct RevertTarget {
    pub yaml: String,
    pub version: String,
    pub sha256: String,
}

pub struct TargetView {
    pub yaml: Seq<char>,
    pub version: Seq<char>,
    pub sha256: Seq<char>,
}

impl View for RevertTarget {
    type V = TargetView;

    open spec fn view(&self) -> TargetView {
        TargetView { yaml: self.yaml@, version: self.version@, sha256: self.sha256@ }
    }
}

/// The rollback target of an instance, or what is missing of it.
pub open spec fn target_of(name: Seq<char>, status: StatusView) -> Result<TargetView, ErrorView> {
    match (
        status.rollback_target_yaml,
        status.rollback_target_version,
        status.rollback_target_sha256,
    ) {
        (None, _, _) => Err(
            error::user_error("instance "@ + name + " has no rollback target"@),
        ),
        (Some(_), None, _) => Err(
            error::user_error(
                "instance "@ + name + " has an incomplete rollback target: missing version"@,
            ),
        ),
        (Some(_), Some(_), None) => Err(
            error::user_error(
                "instance "@ + name + " has an incomplete rollback target: missing digest"@,
            ),
        ),
        (Some(yaml), Some(version), Some(sha256)) => Ok(TargetView { yaml, version, sha256 }),
    }
}

fn lacking(name: &str, what: &str) -> (r: CliError)
    ensures
        r@ == error::user_error("instance "@ + name@ + what@),
{
    let mut message = "instance ".to_string();
    message.append(name);
    message.append(what);
    CliError::user(message)
}

pub fn revert_target(name: &str, status: &GatewayInstanceStatus) -> (r: Result<
    RevertTarget,
    CliError,
>)
    ensures
        error::viewed(r) == target_of(name@, status@),
{
    match &status.rollback_target_yaml {
        None => Err(lacking(name, " has no rollback target")),
        Some(yaml) => match &status.rollback_target_version {
            None => Err(
                lacking(name, " has an incomplete rollback target: missing version"),
            ),
            Some(version) => match &status.rollback_target_sha256 {
                None => Err(
                    lacking(name, " has an incomplete rollback target: missing digest"),
                ),
                Some(sha256) => Ok(
                    RevertTarget {
                        yaml: yaml.clone(),
                        version: version.clone(),
                        sha256: sha256.clone(),
                    },
                ),
            },
        },
    }
}

/// What a revert does next.
#[derive(Debug)]
pub enum RevertStep {
    /// Send the configuration to the gateway.
    Apply(String),
    /// Ask the gateway for its configuration.
    FetchConfig,
    /// Ask the gateway for its health.
    CheckHealth,
    /// Keep the status and the entry, and report the text.
    Settle(GatewayInstanceStatus, OperationHistoryEntry, String),
    /// Keep nothing and report the error.
    Refuse(CliError),
}

pub enum RevertStepView {
    Apply(Seq<char>),
    FetchConfig,
    CheckHealth,
    Settle(StatusView, EntryView, Seq<char>),
    Refuse(ErrorView),
}

impl View for RevertStep {
    type V = RevertStepView;

    open spec fn view(&self) -> RevertStepView {
        match self {
            RevertStep::Apply(yaml) => RevertStepView::Apply(yaml@),
            RevertStep::FetchConfig => RevertStepView::FetchConfig,
            RevertStep::CheckHealth => RevertStepView::CheckHealth,
            RevertStep::Settle(status, entry, message) => RevertStepView::Settle(
                status@,
                entry@,
                message@,
            ),
            RevertStep::Refuse(e) => RevertStepView::Refuse(e@),
        }
    }
}

/// The status of an instance that was taken back: what is verified now is at once
/// observed, desired and last known good, and there is no rollback target left.
pub open spec fn reverted(status: StatusView, verified: ConfigView, now: Seq<char>) -> StatusView {
    StatusView {
        lifecycle: GatewayInstanceLifecycle::Running,
        observed_config_version: verified.version,
        observed_config_sha256: verified.sha256,
        last_known_good_version: verified.version,
        last_known_good_sha256: verified.sha256,
        desired_config_version: verified.version,
        desired_config_sha256: verified.sha256,
        desired_config_source: None,
        rollback_target_version: None,
        rollback_target_sha256: None,
        rollback_target_yaml: None,
        last_error: None,
        last_rollback_reason: Some(REVERT_REASON@),
        verification_state: ConfigVerificationState::RolledBack,
        last_verified_at: Some(now),
        last_healthcheck_at: Some(now),
        last_observed_healthy: Some(true),
        last_seen_at: Some(now),
        updated_at: now,
        ..status
    }
}

fn revert_status(
    status: &GatewayInstanceStatus,
    verified: &ParsedGatewayConfig,
    now: &str,
) -> (r: GatewayInstanceStatus)
    ensures
        r@ == reverted(status@, verified@, now@),
{
    let mut next = status.copy();
    next.lifecycle = GatewayInstanceLifecycle::Running;
    next.observed_config_version = text::copy_opt(&verified.version);
    next.observed_config_sha256 = text::copy_opt(&verified.sha256);
    next.last_known_good_version = text::copy_opt(&verified.version);
    next.last_known_good_sha256 = text::copy_opt(&verified.sha256);
    next.desired_config_version = text::copy_opt(&verified.version);
    next.desired_config_sha256 = text::copy_opt(&verified.sha256);
    next.desired_config_source = None;
    next.rollback_target_version = None;
    next.rollback_target_sha256 = None;
    next.rollback_target_yaml = None;
    next.last_error = None;
    next.last_rollback_reason = Some(REVERT_REASON.to_string());
    next.verification_state = ConfigVerificationState::RolledBack;
    next.last_verified_at = Some(now.to_string());
    next.last_healthcheck_at = Some(now.to_string());
    next.last_observed_healthy = Some(true);
    next.last_seen_at = Some(now.to_string());
    next.updated_at = now.to_string();
    next
}

pub open spec fn revert_entry(
    status: StatusView,
    target: TargetView,
    verified: ConfigView,
    now: Seq<char>,
) -> EntryView {
    EntryView {
        action: OperationAction::Revert,
        outcome: OperationOutcome::Succeeded,
        reason: Some(REVERT_REASON@),
        previous_version: status.observed_config_version,
        previous_sha256: status.observed_config_sha256,
        target_version: Some(target.version),
        target_sha256: Some(target.sha256),
        active_version: verified.version,
        active_sha256: verified.sha256,
        recorded_at: now,
    }
}

/// The next step of a revert, from what the gateway answered so far: the reload of
/// the target, its configuration, and its health.
pub open spec fn next_revert_step(
    name: Seq<char>,
    status: StatusView,
    answers: Seq<AnswerView>,
    now: Seq<char>,
) -> RevertStepView {
    match target_of(name, status) {
        Err(e) => RevertStepView::Refuse(e),
        Ok(target) => if answers.len() == 0 {
            RevertStepView::Apply(target.yaml)
        } else {
            match gateway_reload::reloaded_config(answers[0]) {
                Err(e) => RevertStepView::Refuse(e),
                Ok(_) => if answers.len() == 1 {
                    RevertStepView::FetchConfig
                } else {
                    match gateway_reload::confirmed(answers[1], target.sha256, target.version) {
                        Err(e) => RevertStepView::Refuse(e),
                        Ok(verified) => if answers.len() == 2 {
                            RevertStepView::CheckHealth
                        } else {
                            match gateway_reload::health_answer(answers[2]) {
                                Err(e) => RevertStepView::Refuse(e),
                                Ok(_) => RevertStepView::Settle(
                                    reverted(status, verified, now),
                                    revert_entry(status, target, verified, now),
                                    "reverted "@ + name,
                                ),
                            }
                        },
                    }
                },
            }
        },
    }
}

/// The next step of a revert, from the answers that the gateway has given so far.
pub fn revert_step(
    name: &str,
    status: &GatewayInstanceStatus,
    answers: &Vec<GatewayAnswer>,
    now: &str,
) -> (r: RevertStep)
    ensures
        r@ == next_revert_step(name@, status@, gateway_reload::answers_of(answers@), now@),
{
    let target = match revert_target(name, status) {
        Ok(target) => target,
        Err(e) => return RevertStep::Refuse(e),
    };
    if answers.len() == 0 {
        return RevertStep::Apply(target.yaml);
    }
    let value = match read_reload_answer(&answers[0]) {
        Ok(value) => value,
        Err(e) => return RevertStep::Refuse(e),
    };
    match parse_reload_config(value) {
        Ok(_) => {},
        Err(e) => return RevertStep::Refuse(e),
    }
    if answers.len() == 1 {
        return RevertStep::FetchConfig;
    }
    let verified = match verify_gateway_config(
        &answers[1],
        target.sha256.as_str(),
        target.version.as_str(),
    ) {
        Ok(verified) => verified,
        Err(e) => return RevertStep::Refuse(e),
    };
    if answers.len() == 2 {
        return RevertStep::CheckHealth;
    }
    match verify_gateway_health(&answers[2]) {
        Err(e) => RevertStep::Refuse(e),
        Ok(_) => {
            let next = revert_status(status, &verified, now);
            let entry = OperationHistoryEntry {
                action: OperationAction::Revert,
                outcome: OperationOutcome::Succeeded,
                reason: Some(REVERT_REASON.to_string()),
                previous_version: text::copy_opt(&status.observed_config_version),
                previous_sha256: text::copy_opt(&status.observed_config_sha256),
                target_version: Some(target.version),
                target_sha256: Some(target.sha256),
                active_version: verified.version,
                active_sha256: verified.sha256,
                recorded_at: now.to_string(),
            };
            RevertStep::Settle(next, entry, text::concat("reverted ", name))
        },
    }
}

// ---------------------------------------------------------------------------
// Laws
// ---------------------------------------------------------------------------

/// A revert that settles ran the target: the gateway confirmed its digest and its
/// version and was healthy, the instance runs it, and the evidence of the rollback
/// is cleared.
pub proof fn settled_revert_runs_the_target(
    name: Seq<char>,
    status: StatusView,
    answers: Seq<AnswerView>,
    now: Seq<char>,
    next: StatusView,
    entry: EntryView,
    message: Seq<char>,
)
    requires
        next_revert_step(name, status, answers, now) == RevertStepView::Settle(
            next,
            entry,
            message,
        ),
        status.rollback_target_version matches Some(v) && v.len() > 0,
        status.rollback_target_sha256 matches Some(s) && s.len() > 0,
    ensures
        next.lifecycle == GatewayInstanceLifecycle::Running,
        next.last_observed_healthy == Some(true),
        next.observed_config_version == status.rollback_target_version,
        next.observed_config_sha256 == status.rollback_target_sha256,
        next.desired_config_version == next.observed_config_version,
        next.desired_config_sha256 == next.observed_config_sha256,
        next.rollback_target_version is None,
        next.rollback_target_sha256 is None,
        next.rollback_target_yaml is None,
        entry.target_version == entry.active_version,
        entry.target_sha256 == entry.active_sha256,
        entry.previous_version == status.observed_config_version,
{
}

/// A revert settles only when the gateway took the target, confirmed it and was
/// healthy; in every other case nothing is kept, so the rollback target stays.
pub proof fn unverified_revert_keeps_nothing(
    name: Seq<char>,
    status: StatusView,
    answers: Seq<AnswerView>,
    now: Seq<char>,
)
    requires
        target_of(name, status) is Ok,
        answers.len() >= 3,
    ensures
        ({
            let target = target_of(name, status)->Ok_0;
            next_revert_step(name, status, answers, now) is Settle <==> {
                &&& gateway_reload::reloaded_config(answers[0]) is Ok
                &&& gateway_reload::confirmed(answers[1], target.sha256, target.version) is Ok
                &&& gateway_reload::health_answer(answers[2]) is Ok
            }
        }),
        next_revert_step(name, status, answers, now) is Settle || next_revert_step(
            name,
            status,
            answers,
            now,
        ) is Refuse,
{
}

/// A second revert finds no target.
pub proof fn revert_is_done_once(
    name: Seq<char>,
    status: StatusView,
    verified: ConfigView,
    now: Seq<char>,
)
    ensures
        target_of(name, reverted(status, verified, now)) == Err::<TargetView, ErrorView>(
            error::user_error("instance "@ + name + " has no rollback target"@),
        ),
{
}

/// After a reload, whatever came of it, a revert goes back to what the gateway ran
/// before, if the gateway told all of it.
pub proof fn revert_undoes_a_reload(
    name: Seq<char>,
    status: StatusView,
    request: gateway_reload::RequestView,
    answers: Seq<AnswerView>,
    now: Seq<char>,
    outcome: gateway_reload::OutcomeView,
)
    requires
        gateway_reload::next_reload_step(status, request, answers, now)
            == gateway_reload::ReloadStepView::Settle(outcome),
        gateway_reload::config_answer(answers[0]) matches Ok(before) && before.content is Some
            && before.version is Some && before.sha256 is Some,
    ensures
        target_of(name, outcome.status) matches Ok(target)
            && gateway_reload::config_answer(answers[0]) matches Ok(before) && {
            &&& before.content == Some(target.yaml)
            &&& before.version == Some(target.version)
            &&& before.sha256 == Some(target.sha256)
        },
{
    gateway_reload::reload_keeps_the_rollback_target(status, request, answers, now, outcome);
}

/// A revert settles exactly where a whole target is on record, the gateway took it,
/// serves its version and its digest, and says that it is healthy.
pub proof fn revert_settles_exactly_when_served(
    name: Seq<char>,
    status: StatusView,
    answers: Seq<AnswerView>,
    now: Seq<char>,
)
    ensures
        next_revert_step(name, status, answers, now) is Settle <==> (
        status.rollback_target_yaml is Some && (status.rollback_target_version matches Some(version)
            && (status.rollback_target_sha256 matches Some(sha256) && answers.len() >= 3
            && gateway_reload::reports_a_config(answers[0]) && gateway_reload::serves(
            answers[1],
            version,
            sha256,
        ) && gateway_reload::says_ok(answers[2])))),
        next_revert_step(name, status, answers, now) matches RevertStepView::Apply(yaml)
            ==> Some(yaml) == status.rollback_target_yaml,
        next_revert_step(name, status, answers, now) matches RevertStepView::Settle(
            next,
            entry,
            message,
        ) ==> {
            &&& message == "reverted "@ + name
            &&& entry.action == OperationAction::Revert
            &&& entry.outcome == OperationOutcome::Succeeded
            &&& entry.reason == Some("manual revert requested"@)
            &&& entry.target_version == status.rollback_target_version
            &&& entry.target_sha256 == status.rollback_target_sha256
            &&& entry.previous_sha256 == status.observed_config_sha256
            &&& entry.recorded_at == now
            &&& next.last_known_good_version == next.observed_config_version
            &&& next.last_known_good_sha256 == next.observed_config_sha256
            &&& next.desired_config_source is None
            &&& next.last_error is None
            &&& next.last_rollback_reason == Some("manual revert requested"@)
            &&& next.verification_state == ConfigVerificationState::RolledBack
            &&& next.updated_at == now
            &&& next.last_verified_at == Some(now)
            &&& next.runtime_upgrade_plan == status.runtime_upgrade_plan
            &&& next.runtime_upgrade_status == status.runtime_upgrade_status
            &&& next.last_reconciled_at == status.last_reconciled_at
            &&& next.last_reconciliation_outcome == status.last_reconciliation_outcome
        },
{
    reveal_strlit("ok");
}

} // verus!
