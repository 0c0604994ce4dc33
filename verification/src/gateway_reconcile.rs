//! Comparing what a gateway runs with what it is meant to run.
use vstd::prelude::*;

use crate::error::{self, CliError, ErrorView};
use crate::gateway_reload::{
    self, read_config_answer, read_reload_answer, verify_gateway_config, AnswerView, ConfigView,
    GatewayAnswer, ParsedGatewayConfig,
};
use crate::instances::{
    ConfigVerificationState, EntryView, GatewayInstanceLifecycle, GatewayInstanceStatus,
    OperationAction, OperationHistoryEntry, OperationOutcome, StatusView,
};
use crate::text;

verus! {

#[derive(Debug)]
pub struct GatewayReconcileArgs {
    pub name: Option<String>,
    pub all: bool,
    pub state_dir: Option<String>,
    pub apply_rollback: bool,
    pub cancel: bool,
    pub json: bool,
}

#[derive(Debug)]
pub struct ReconcileInstanceResult {
    pub instance_id: String,
    pub gateway_url: String,
    pub healthy: bool,
    pub outcome: String,
    pub message: String,
    pub observed_version: Option<String>,
    pub observed_sha256: Option<String>,
    pub rollback_applied: bool,
}

pub struct ResultView {
    pub instance_id: Seq<char>,
    pub gateway_url: Seq<char>,
    pub healthy: bool,
    pub outcome: Seq<char>,
    pub message: Seq<char>,
    pub observed_version: Option<Seq<char>>,
    pub observed_sha256: Option<Seq<char>>,
    pub rollback_applied: bool,
}

impl View for ReconcileInstanceResult {
    type V = ResultView;

    open spec fn view(&self) -> ResultView {
        ResultView {
            instance_id: self.instance_id@,
            gateway_url: self.gateway_url@,
            healthy: self.healthy,
            outcome: self.outcome@,
            message: self.message@,
            observed_version: text::opt(self.observed_version),
            observed_sha256: text::opt(self.observed_sha256),
            rollback_applied: self.rollback_applied,
        }
    }
}

pub open spec fn results_of(v: Seq<ReconcileInstanceResult>) -> Seq<ResultView> {
    Seq::new(v.len(), |i: int| v[i]@)
}

// ---------------------------------------------------------------------------
// Which instances, and where they listen
// ---------------------------------------------------------------------------

pub open spec fn targets_of(
    all: bool,
    name: Option<Seq<char>>,
    registered: Seq<Seq<char>>,
) -> Result<Seq<Seq<char>>, ErrorView> {
    if all {
        if registered.len() == 0 {
            Err(error::user_error("no proxy instances registered"@))
        } else {
            Ok(registered)
        }
    } else {
        match name {
            Some(n) => Ok(seq![n]),
            None => Err(error::user_error("pass --name <instance> or --all"@)),
        }
    }
}

/// The instances to look at.
pub fn reconcile_targets(all: bool, name: Option<&str>, registered: &Vec<String>) -> (r: Result<
    Vec<String>,
    CliError,
>)
    ensures
        gateway_reload::paths_result(r) == targets_of(
            all,
            text::opt_ref(name),
            text::texts(registered@),
        ),
{
    if all {
        if registered.len() == 0 {
            return Err(CliError::user("no proxy instances registered".to_string()));
        }
        return Ok(text::copy_texts(registered));
    }
    match name {
        Some(name) => {
            let targets: Vec<String> = vec![name.to_string()];
            assert(text::texts(targets@) =~= seq![name@]);
            Ok(targets)
        },
        None => Err(CliError::user("pass --name <instance> or --all".to_string())),
    }
}

/// The host part of a socket address.
#[derive(Debug)]
pub enum ListenHost {
    /// The four octets of an IPv4 address.
    V4(u8, u8, u8, u8),
    /// An IPv6 address in its canonical text form.
    V6(String),
}

/// A socket address.
#[derive(Debug)]
pub struct ListenAddress {
    pub host: ListenHost,
    pub port: u16,
}

pub open spec fn dotted(a: u8, b: u8, c: u8, d: u8) -> Seq<char> {
    text::decimal(a as nat) + "."@ + text::decimal(b as nat) + "."@ + text::decimal(c as nat)
        + "."@ + text::decimal(d as nat)
}

/// The host to connect to. An unspecified address is reached at the loopback
/// address of its family.
pub open spec fn reachable_host(host: ListenHost) -> Seq<char> {
    match host {
        ListenHost::V4(a, b, c, d) => if a == 0 && b == 0 && c == 0 && d == 0 {
            dotted(127, 0, 0, 1)
        } else {
            dotted(a, b, c, d)
        },
        ListenHost::V6(text) => if text@ == "::"@ {
            "::1"@
        } else {
            text@
        },
    }
}

pub open spec fn gateway_url_of(
    listen_addr: Seq<char>,
    parsed: Result<ListenAddress, String>,
) -> Result<Seq<char>, ErrorView> {
    match parsed {
        Ok(addr) => Ok(
            "http://"@ + reachable_host(addr.host) + ":"@ + text::decimal(addr.port as nat),
        ),
        Err(e) => Err(
            error::user_error("invalid listen address "@ + listen_addr + ": "@ + e@),
        ),
    }
}

fn dotted_text(a: u8, b: u8, c: u8, d: u8) -> (r: String)
    ensures
        r@ == dotted(a, b, c, d),
{
    let mut out = text::number_text(a as u64);
    out.append(".");
    out.append(text::number_text(b as u64).as_str());
    out.append(".");
    out.append(text::number_text(c as u64).as_str());
    out.append(".");
    out.append(text::number_text(d as u64).as_str());
    out
}

/// The URL of the gateway that listens at an address. `parsed` is the address read
/// as a socket address, or the reason why it is none.
pub fn derive_gateway_url(listen_addr: &str, parsed: &Result<ListenAddress, String>) -> (r: Result<
    String,
    CliError,
>)
    ensures
        error::viewed(r) == gateway_url_of(listen_addr@, *parsed),
{
    match parsed {
        Ok(addr) => {
            let host = match &addr.host {
                ListenHost::V4(a, b, c, d) => if *a == 0 && *b == 0 && *c == 0 && *d == 0 {
                    dotted_text(127, 0, 0, 1)
                } else {
                    dotted_text(*a, *b, *c, *d)
                },
                ListenHost::V6(host) => if text::same(host.as_str(), "::") {
                    "::1".to_string()
                } else {
                    host.clone()
                },
            };
            let mut url = "http://".to_string();
            url.append(host.as_str());
            url.append(":");
            url.append(text::number_text(addr.port as u64).as_str());
            Ok(url)
        },
        Err(e) => {
            let mut message = "invalid listen address ".to_string();
            message.append(listen_addr);
            message.append(": ");
            message.append(e.as_str());
            Err(CliError::user(message))
        },
    }
}

// ---------------------------------------------------------------------------
// What was found
// ---------------------------------------------------------------------------

/// What a look at the live gateway came to.
pub struct Finding {
    pub healthy: bool,
    pub outcome: Seq<char>,
    pub message: Seq<char>,
    pub observed: ConfigView,
    pub rollback_applied: bool,
}

pub open spec fn serving_desired(version: Seq<char>, live: ConfigView) -> Finding {
    Finding {
        healthy: true,
        outcome: "healthy"@,
        message: "live proxy is serving expected config "@ + version,
        observed: live,
        rollback_applied: false,
    }
}

pub open spec fn serving_rollback(version: Seq<char>, live: ConfigView) -> Finding {
    Finding {
        healthy: true,
        outcome: "rollback_verified"@,
        message: "live proxy already matches rollback target "@ + version,
        observed: live,
        rollback_applied: false,
    }
}

pub open spec fn taken_back(version: Seq<char>, verified: ConfigView) -> Finding {
    Finding {
        healthy: true,
        outcome: "rollback_applied"@,
        message: "rollback target "@ + version + " reapplied and verified"@,
        observed: verified,
        rollback_applied: true,
    }
}

pub open spec fn drifted(live: ConfigView) -> Finding {
    Finding {
        healthy: false,
        outcome: "drift_detected"@,
        message: "live proxy configuration does not match desired or rollback target"@,
        observed: live,
        rollback_applied: false,
    }
}

/// What is kept of a reconciliation, and what the operator is told.
#[derive(Debug)]
pub struct ReconcileOutcome {
    pub status: GatewayInstanceStatus,
    pub entry: OperationHistoryEntry,
    pub result: ReconcileInstanceResult,
    /// True where the rollout plan of the instance is cleared, else it is kept.
    pub plan_cleared: bool,
}

pub struct OutcomeView {
    pub status: StatusView,
    pub entry: EntryView,
    pub result: ResultView,
    pub plan_cleared: bool,
}

impl View for ReconcileOutcome {
    type V = OutcomeView;

    open spec fn view(&self) -> OutcomeView {
        OutcomeView {
            status: self.status@,
            entry: self.entry@,
            result: self.result@,
            plan_cleared: self.plan_cleared,
        }
    }
}

pub open spec fn reconcile_entry(
    action: OperationAction,
    outcome: OperationOutcome,
    reason: Seq<char>,
    status: StatusView,
    active_version: Option<Seq<char>>,
    active_sha256: Option<Seq<char>>,
    now: Seq<char>,
) -> EntryView {
    EntryView {
        action,
        outcome,
        reason: Some(reason),
        previous_version: status.observed_config_version,
        previous_sha256: status.observed_config_sha256,
        target_version: status.desired_config_version,
        target_sha256: status.desired_config_sha256,
        active_version,
        active_sha256,
        recorded_at: now,
    }
}

fn build_reconcile_entry(
    action: OperationAction,
    outcome: OperationOutcome,
    reason: &str,
    status: &GatewayInstanceStatus,
    active_version: &Option<String>,
    active_sha256: &Option<String>,
    now: &str,
) -> (r: OperationHistoryEntry)
    ensures
        r@ == reconcile_entry(
            action,
            outcome,
            reason@,
            status@,
            text::opt(*active_version),
            text::opt(*active_sha256),
            now@,
        ),
{
    OperationHistoryEntry {
        action,
        outcome,
        reason: Some(reason.to_string()),
        previous_version: text::copy_opt(&status.observed_config_version),
        previous_sha256: text::copy_opt(&status.observed_config_sha256),
        target_version: text::copy_opt(&status.desired_config_version),
        target_sha256: text::copy_opt(&status.desired_config_sha256),
        active_version: text::copy_opt(active_version),
        active_sha256: text::copy_opt(active_sha256),
        recorded_at: now.to_string(),
    }
}

/// How a finding is verified.
pub open spec fn verification_of(finding: Finding) -> ConfigVerificationState {
    if finding.rollback_applied || finding.outcome == "rollback_verified"@ {
        ConfigVerificationState::RolledBack
    } else if finding.healthy {
        ConfigVerificationState::Verified
    } else {
        ConfigVerificationState::Failed
    }
}

pub open spec fn found(
    instance_id: Seq<char>,
    gateway_url: Seq<char>,
    status: StatusView,
    finding: Finding,
    now: Seq<char>,
) -> OutcomeView {
    OutcomeView {
        status: StatusView {
            lifecycle: if finding.healthy {
                GatewayInstanceLifecycle::Running
            } else {
                GatewayInstanceLifecycle::Failed
            },
            observed_config_version: finding.observed.version,
            observed_config_sha256: finding.observed.sha256,
            last_reconciled_at: Some(now),
            last_reconciliation_outcome: Some(finding.outcome),
            last_reconciliation_error: if finding.healthy {
                None
            } else {
                Some(finding.message)
            },
            last_healthcheck_at: Some(now),
            last_observed_healthy: Some(finding.healthy),
            last_seen_at: Some(now),
            verification_state: verification_of(finding),
            updated_at: now,
            ..status
        },
        entry: reconcile_entry(
            OperationAction::Reconcile,
            if finding.rollback_applied {
                OperationOutcome::RolledBack
            } else if finding.healthy {
                OperationOutcome::Succeeded
            } else {
                OperationOutcome::Failed
            },
            finding.message,
            status,
            finding.observed.version,
            finding.observed.sha256,
            now,
        ),
        result: ResultView {
            instance_id,
            gateway_url,
            healthy: finding.healthy,
            outcome: finding.outcome,
            message: finding.message,
            observed_version: finding.observed.version,
            observed_sha256: finding.observed.sha256,
            rollback_applied: finding.rollback_applied,
        },
        plan_cleared: false,
    }
}

fn settle_found(
    instance_id: &str,
    gateway_url: &str,
    status: &GatewayInstanceStatus,
    healthy: bool,
    outcome: &str,
    message: String,
    observed: ParsedGatewayConfig,
    rollback_applied: bool,
    now: &str,
) -> (r: ReconcileOutcome)
    ensures
        r@ == found(
            instance_id@,
            gateway_url@,
            status@,
            (Finding {
                healthy,
                outcome: outcome@,
                message: message@,
                observed: observed@,
                rollback_applied,
            }),
            now@,
        ),
{
    let mut next = status.copy();
    next.lifecycle = if healthy {
        GatewayInstanceLifecycle::Running
    } else {
        GatewayInstanceLifecycle::Failed
    };
    next.observed_config_version = text::copy_opt(&observed.version);
    next.observed_config_sha256 = text::copy_opt(&observed.sha256);
    next.last_reconciled_at = Some(now.to_string());
    next.last_reconciliation_outcome = Some(outcome.to_string());
    next.last_reconciliation_error = if healthy {
        None
    } else {
        Some(message.clone())
    };
    next.last_healthcheck_at = Some(now.to_string());
    next.last_observed_healthy = Some(healthy);
    next.last_seen_at = Some(now.to_string());
    next.verification_state = if rollback_applied || text::same(outcome, "rollback_verified") {
        ConfigVerificationState::RolledBack
    } else if healthy {
        ConfigVerificationState::Verified
    } else {
        ConfigVerificationState::Failed
    };
    next.updated_at = now.to_string();
    let recorded = if rollback_applied {
        OperationOutcome::RolledBack
    } else if healthy {
        OperationOutcome::Succeeded
    } else {
        OperationOutcome::Failed
    };
    let entry = build_reconcile_entry(
        OperationAction::Reconcile,
        recorded,
        message.as_str(),
        status,
        &observed.version,
        &observed.sha256,
        now,
    );
    ReconcileOutcome {
        status: next,
        entry,
        result: ReconcileInstanceResult {
            instance_id: instance_id.to_string(),
            gateway_url: gateway_url.to_string(),
            healthy,
            outcome: outcome.to_string(),
            message,
            observed_version: observed.version,
            observed_sha256: observed.sha256,
            rollback_applied,
        },
        plan_cleared: false,
    }
}

/// The gateway could not be asked, or did not do what it was asked for.
pub open spec fn unreachable(
    instance_id: Seq<char>,
    gateway_url: Seq<char>,
    status: StatusView,
    failure: Seq<char>,
    now: Seq<char>,
) -> OutcomeView {
    OutcomeView {
        status: StatusView {
            lifecycle: GatewayInstanceLifecycle::Failed,
            last_reconciled_at: Some(now),
            last_reconciliation_outcome: Some("unreachable"@),
            last_reconciliation_error: Some(failure),
            last_healthcheck_at: Some(now),
            last_observed_healthy: Some(false),
            last_seen_at: Some(now),
            verification_state: ConfigVerificationState::Failed,
            updated_at: now,
            ..status
        },
        entry: reconcile_entry(
            OperationAction::Reconcile,
            OperationOutcome::Failed,
            failure,
            status,
            None,
            None,
            now,
        ),
        result: ResultView {
            instance_id,
            gateway_url,
            healthy: false,
            outcome: "unreachable"@,
            message: failure,
            observed_version: None,
            observed_sha256: None,
            rollback_applied: false,
        },
        plan_cleared: false,
    }
}

fn settle_unreachable(
    instance_id: &str,
    gateway_url: &str,
    status: &GatewayInstanceStatus,
    failure: &CliError,
    now: &str,
) -> (r: ReconcileOutcome)
    ensures
        r@ == unreachable(instance_id@, gateway_url@, status@, failure@.message, now@),
{
    let mut next = status.copy();
    next.lifecycle = GatewayInstanceLifecycle::Failed;
    next.last_reconciled_at = Some(now.to_string());
    next.last_reconciliation_outcome = Some("unreachable".to_string());
    next.last_reconciliation_error = Some(failure.to_string());
    next.last_healthcheck_at = Some(now.to_string());
    next.last_observed_healthy = Some(false);
    next.last_seen_at = Some(now.to_string());
    next.verification_state = ConfigVerificationState::Failed;
    next.updated_at = now.to_string();
    let entry = build_reconcile_entry(
        OperationAction::Reconcile,
        OperationOutcome::Failed,
        failure.to_string().as_str(),
        status,
        &None,
        &None,
        now,
    );
    ReconcileOutcome {
        status: next,
        entry,
        result: ReconcileInstanceResult {
            instance_id: instance_id.to_string(),
            gateway_url: gateway_url.to_string(),
            healthy: false,
            outcome: "unreachable".to_string(),
            message: failure.to_string(),
            observed_version: None,
            observed_sha256: None,
            rollback_applied: false,
        },
        plan_cleared: false,
    }
}

/// A cancelled reconciliation clears the rollout plan and touches nothing else but
/// the record of it.
pub open spec fn cancelled(
    instance_id: Seq<char>,
    gateway_url: Seq<char>,
    status: StatusView,
    now: Seq<char>,
) -> OutcomeView {
    OutcomeView {
        status: StatusView {
            last_reconciled_at: Some(now),
            last_reconciliation_outcome: Some("cancelled"@),
            last_reconciliation_error: None,
            updated_at: now,
            ..status
        },
        entry: reconcile_entry(
            OperationAction::CancelReconcile,
            OperationOutcome::Succeeded,
            "operator cancelled reconciliation"@,
            status,
            status.observed_config_version,
            status.observed_config_sha256,
            now,
        ),
        result: ResultView {
            instance_id,
            gateway_url,
            healthy: true,
            outcome: "cancelled"@,
            message: "reconciliation plan cleared"@,
            observed_version: status.observed_config_version,
            observed_sha256: status.observed_config_sha256,
            rollback_applied: false,
        },
        plan_cleared: true,
    }
}

/// Cancels the reconciliation of an instance and clears its rollout plan.
pub fn cancel_reconcile(
    instance_id: &str,
    gateway_url: &str,
    status: &GatewayInstanceStatus,
    now: &str,
) -> (r: ReconcileOutcome)
    ensures
        r@ == cancelled(instance_id@, gateway_url@, status@, now@),
{
    let mut next = status.copy();
    next.last_reconciled_at = Some(now.to_string());
    next.last_reconciliation_outcome = Some("cancelled".to_string());
    next.last_reconciliation_error = None;
    next.updated_at = now.to_string();
    let entry = build_reconcile_entry(
        OperationAction::CancelReconcile,
        OperationOutcome::Succeeded,
        "operator cancelled reconciliation",
        status,
        &status.observed_config_version,
        &status.observed_config_sha256,
        now,
    );
    ReconcileOutcome {
        status: next,
        entry,
        result: ReconcileInstanceResult {
            instance_id: instance_id.to_string(),
            gateway_url: gateway_url.to_string(),
            healthy: true,
            outcome: "cancelled".to_string(),
            message: "reconciliation plan cleared".to_string(),
            observed_version: text::copy_opt(&status.observed_config_version),
            observed_sha256: text::copy_opt(&status.observed_config_sha256),
            rollback_applied: false,
        },
        plan_cleared: true,
    }
}

// ---------------------------------------------------------------------------
// The course of a reconciliation
// ---------------------------------------------------------------------------

/// What a reconciliation does next.
#[derive(Debug)]
pub enum ReconcileStep {
    /// Ask the gateway for its configuration.
    FetchConfig,
    /// Send the configuration to the gateway.
    Apply(String),
    /// Keep the outcome and report it.
    Settle(ReconcileOutcome),
}

pub enum ReconcileStepView {
    FetchConfig,
    Apply(Seq<char>),
    Settle(OutcomeView),
}

impl View for ReconcileStep {
    type V = ReconcileStepView;

    open spec fn view(&self) -> ReconcileStepView {
        match self {
            ReconcileStep::FetchConfig => ReconcileStepView::FetchConfig,
            ReconcileStep::Apply(yaml) => ReconcileStepView::Apply(yaml@),
            ReconcileStep::Settle(outcome) => ReconcileStepView::Settle(outcome@),
        }
    }
}

/// The version and the digest that the gateway should report; what was observed
/// last stands in for what was never asked for.
pub open spec fn desired(status: StatusView) -> Option<(Seq<char>, Seq<char>)> {
    match (
        text::first_of(status.desired_config_version, status.observed_config_version),
        text::first_of(status.desired_config_sha256, status.observed_config_sha256),
    ) {
        (Some(version), Some(sha256)) => Some((version, sha256)),
        _ => None,
    }
}

pub open spec fn rollback_target(status: StatusView) -> Option<(Seq<char>, Seq<char>)> {
    match (status.rollback_target_version, status.rollback_target_sha256) {
        (Some(version), Some(sha256)) => Some((version, sha256)),
        _ => None,
    }
}

/// The parties to a reconciliation.
#[derive(Debug)]
pub struct ReconcileRequest {
    pub instance_id: String,
    pub gateway_url: String,
    pub apply_rollback: bool,
    /// Cancel the reconciliation, whatever else is asked for.
    pub cancel: bool,
}

pub struct RequestView {
    pub instance_id: Seq<char>,
    pub gateway_url: Seq<char>,
    pub apply_rollback: bool,
    pub cancel: bool,
}

impl View for ReconcileRequest {
    type V = RequestView;

    open spec fn view(&self) -> RequestView {
        RequestView {
            instance_id: self.instance_id@,
            gateway_url: self.gateway_url@,
            apply_rollback: self.apply_rollback,
            cancel: self.cancel,
        }
    }
}

pub open spec fn settled(
    request: RequestView,
    status: StatusView,
    finding: Finding,
    now: Seq<char>,
) -> ReconcileStepView {
    ReconcileStepView::Settle(
        found(request.instance_id, request.gateway_url, status, finding, now),
    )
}

pub open spec fn failed(
    request: RequestView,
    status: StatusView,
    failure: ErrorView,
    now: Seq<char>,
) -> ReconcileStepView {
    ReconcileStepView::Settle(
        unreachable(request.instance_id, request.gateway_url, status, failure.message, now),
    )
}

/// The gateway runs neither what is desired nor the rollback target. The answers
/// from `i` on are those to the rollback and to the question what came of it.
pub open spec fn rollback_step(
    request: RequestView,
    status: StatusView,
    live: ConfigView,
    answers: Seq<AnswerView>,
    i: int,
    now: Seq<char>,
) -> ReconcileStepView {
    match (request.apply_rollback, status.rollback_target_yaml, rollback_target(status)) {
        (true, Some(yaml), Some(target)) => if answers.len() <= i {
            ReconcileStepView::Apply(yaml)
        } else {
            match gateway_reload::reload_answer(answers[i]) {
                Err(e) => failed(request, status, e, now),
                Ok(_) => if answers.len() <= i + 1 {
                    ReconcileStepView::FetchConfig
                } else {
                    match gateway_reload::confirmed(answers[i + 1], target.1, target.0) {
                        Err(e) => failed(request, status, e, now),
                        Ok(verified) => settled(
                            request,
                            status,
                            taken_back(target.0, verified),
                            now,
                        ),
                    }
                },
            }
        },
        _ => settled(request, status, drifted(live), now),
    }
}

/// The gateway does not run what is desired. The answer at `i` is compared with the
/// rollback target.
pub open spec fn rollback_check_step(
    request: RequestView,
    status: StatusView,
    live: ConfigView,
    answers: Seq<AnswerView>,
    i: int,
    now: Seq<char>,
) -> ReconcileStepView {
    match rollback_target(status) {
        None => rollback_step(request, status, live, answers, i, now),
        Some(target) => if answers.len() <= i {
            ReconcileStepView::FetchConfig
        } else if gateway_reload::confirmed(answers[i], target.1, target.0) is Ok {
            settled(request, status, serving_rollback(target.0, live), now)
        } else {
            rollback_step(request, status, live, answers, i + 1, now)
        },
    }
}

/// The next step of a reconciliation, from what the gateway answered so far. It is
/// asked for its configuration anew for each comparison. A reconciliation that is
/// cancelled asks nothing.
pub open spec fn next_reconcile_step(
    request: RequestView,
    status: StatusView,
    answers: Seq<AnswerView>,
    now: Seq<char>,
) -> ReconcileStepView {
    if request.cancel {
        ReconcileStepView::Settle(
            cancelled(request.instance_id, request.gateway_url, status, now),
        )
    } else if answers.len() == 0 {
        ReconcileStepView::FetchConfig
    } else {
        match gateway_reload::config_answer(answers[0]) {
            Err(e) => failed(request, status, e, now),
            Ok(live) => match desired(status) {
                None => rollback_check_step(request, status, live, answers, 1, now),
                Some(target) => if answers.len() <= 1 {
                    ReconcileStepView::FetchConfig
                } else if gateway_reload::confirmed(answers[1], target.1, target.0) is Ok {
                    settled(request, status, serving_desired(target.0, live), now)
                } else {
                    rollback_check_step(request, status, live, answers, 2, now)
                },
            },
        }
    }
}

fn settle(
    request: &ReconcileRequest,
    status: &GatewayInstanceStatus,
    healthy: bool,
    outcome: &str,
    message: String,
    observed: ParsedGatewayConfig,
    rollback_applied: bool,
    now: &str,
) -> (r: ReconcileStep)
    ensures
        r@ == settled(
            request@,
            status@,
            (Finding {
                healthy,
                outcome: outcome@,
                message: message@,
                observed: observed@,
                rollback_applied,
            }),
            now@,
        ),
{
    ReconcileStep::Settle(
        settle_found(
            request.instance_id.as_str(),
            request.gateway_url.as_str(),
            status,
            healthy,
            outcome,
            message,
            observed,
            rollback_applied,
            now,
        ),
    )
}

fn fail(
    request: &ReconcileRequest,
    status: &GatewayInstanceStatus,
    failure: &CliError,
    now: &str,
) -> (r: ReconcileStep)
    ensures
        r@ == failed(request@, status@, failure@, now@),
{
    ReconcileStep::Settle(
        settle_unreachable(
            request.instance_id.as_str(),
            request.gateway_url.as_str(),
            status,
            failure,
            now,
        ),
    )
}

fn roll_back_step(
    request: &ReconcileRequest,
    status: &GatewayInstanceStatus,
    live: ParsedGatewayConfig,
    answers: &Vec<GatewayAnswer>,
    i: usize,
    now: &str,
) -> (r: ReconcileStep)
    requires
        i <= 3,
    ensures
        r@ == rollback_step(
            request@,
            status@,
            live@,
            gateway_reload::answers_of(answers@),
            i as int,
            now@,
        ),
{
    if request.apply_rollback {
        match (
            &status.rollback_target_yaml,
            &status.rollback_target_version,
            &status.rollback_target_sha256,
        ) {
            (Some(yaml), Some(version), Some(sha256)) => {
                if answers.len() <= i {
                    return ReconcileStep::Apply(yaml.clone());
                }
                match read_reload_answer(&answers[i]) {
                    Ok(_) => {},
                    Err(e) => return fail(request, status, &e, now),
                }
                if answers.len() <= i + 1 {
                    return ReconcileStep::FetchConfig;
                }
                let verified = match verify_gateway_config(
                    &answers[i + 1],
                    sha256.as_str(),
                    version.as_str(),
                ) {
                    Ok(verified) => verified,
                    Err(e) => return fail(request, status, &e, now),
                };
                let mut message = "rollback target ".to_string();
                message.append(version.as_str());
                message.append(" reapplied and verified");
                return settle(
                    request,
                    status,
                    true,
                    "rollback_applied",
                    message,
                    verified,
                    true,
                    now,
                );
            },
            _ => {},
        }
    }
    settle(
        request,
        status,
        false,
        "drift_detected",
        "live proxy configuration does not match desired or rollback target".to_string(),
        live,
        false,
        now,
    )
}

fn check_rollback_step(
    request: &ReconcileRequest,
    status: &GatewayInstanceStatus,
    live: ParsedGatewayConfig,
    answers: &Vec<GatewayAnswer>,
    i: usize,
    now: &str,
) -> (r: ReconcileStep)
    requires
        i <= 2,
    ensures
        r@ == rollback_check_step(
            request@,
            status@,
            live@,
            gateway_reload::answers_of(answers@),
            i as int,
            now@,
        ),
{
    match (&status.rollback_target_version, &status.rollback_target_sha256) {
        (Some(version), Some(sha256)) => {
            if answers.len() <= i {
                return ReconcileStep::FetchConfig;
            }
            let matches = match verify_gateway_config(
                &answers[i],
                sha256.as_str(),
                version.as_str(),
            ) {
                Ok(_) => true,
                Err(_) => false,
            };
            if matches {
                return settle(
                    request,
                    status,
                    true,
                    "rollback_verified",
                    text::concat(
                        "live proxy already matches rollback target ",
                        version.as_str(),
                    ),
                    live,
                    false,
                    now,
                );
            }
            roll_back_step(request, status, live, answers, i + 1, now)
        },
        _ => roll_back_step(request, status, live, answers, i, now),
    }
}

/// The next step of a reconciliation, from the answers that the gateway has given
/// so far.
pub fn reconcile_step(
    request: &ReconcileRequest,
    status: &GatewayInstanceStatus,
    answers: &Vec<GatewayAnswer>,
    now: &str,
) -> (r: ReconcileStep)
    ensures
        r@ == next_reconcile_step(
            request@,
            status@,
            gateway_reload::answers_of(answers@),
            now@,
        ),
{
    if request.cancel {
        return ReconcileStep::Settle(
            cancel_reconcile(
                request.instance_id.as_str(),
                request.gateway_url.as_str(),
                status,
                now,
            ),
        );
    }
    if answers.len() == 0 {
        return ReconcileStep::FetchConfig;
    }
    let live = match read_config_answer(&answers[0]) {
        Ok(live) => live,
        Err(e) => return fail(request, status, &e, now),
    };
    let version = if status.desired_config_version.is_some() {
        &status.desired_config_version
    } else {
        &status.observed_config_version
    };
    let sha256 = if status.desired_config_sha256.is_some() {
        &status.desired_config_sha256
    } else {
        &status.observed_config_sha256
    };
    match (version, sha256) {
        (Some(version), Some(sha256)) => {
            if answers.len() <= 1 {
                return ReconcileStep::FetchConfig;
            }
            let matches = match verify_gateway_config(
                &answers[1],
                sha256.as_str(),
                version.as_str(),
            ) {
                Ok(_) => true,
                Err(_) => false,
            };
            if matches {
                return settle(
                    request,
                    status,
                    true,
                    "healthy",
                    text::concat("live proxy is serving expected config ", version.as_str()),
                    live,
                    false,
                    now,
                );
            }
            check_rollback_step(request, status, live, answers, 2, now)
        },
        _ => check_rollback_step(request, status, live, answers, 1, now),
    }
}

// ---------------------------------------------------------------------------
// The report
// ---------------------------------------------------------------------------

pub open spec fn result_line(result: ResultView) -> Seq<char> {
    result.instance_id + " ["@ + result.outcome + "] "@ + (if result.healthy {
        "healthy"@
    } else {
        "attention"@
    }) + " - "@ + result.message
}

pub fn format_result(result: &ReconcileInstanceResult) -> (r: String)
    ensures
        r@ == result_line(result@),
{
    let mut line = result.instance_id.clone();
    line.append(" [");
    line.append(result.outcome.as_str());
    line.append("] ");
    line.append(
        if result.healthy {
            "healthy"
        } else {
            "attention"
        },
    );
    line.append(" - ");
    line.append(result.message.as_str());
    line
}

pub open spec fn unhealthy(results: Seq<ResultView>) -> nat
    decreases results.len(),
{
    if results.len() == 0 {
        0
    } else {
        unhealthy(results.drop_last()) + (if results.last().healthy {
            0nat
        } else {
            1nat
        })
    }
}

/// The error for instances that need attention; none if all are healthy.
pub fn reconcile_verdict(results: &Vec<ReconcileInstanceResult>) -> (r: Result<(), CliError>)
    ensures
        error::done(r) == (if unhealthy(results_of(results@)) == 0 {
            Ok(())
        } else {
            Err(
                error::network_error(
                    text::decimal(unhealthy(results_of(results@)))
                        + " instance(s) failed reconciliation"@,
                ),
            )
        }),
{
    let mut failed: usize = 0;
    let mut i: usize = 0;
    let ghost all = results_of(results@);
    while i < results.len()
        invariant
            i <= results.len(),
            failed <= i,
            all == results_of(results@),
            failed == unhealthy(all.take(i as int)),
        decreases results.len() - i,
    {
        if !results[i].healthy {
            failed = failed + 1;
        }
        assert(all.take(i + 1).drop_last() =~= all.take(i as int));
        i = i + 1;
    }
    assert(all.take(i as int) =~= all);
    if failed > 0 {
        let mut message = text::number_text(failed as u64);
        message.append(" instance(s) failed reconciliation");
        return Err(CliError::network(message));
    }
    Ok(())
}

// ---------------------------------------------------------------------------
// Laws
// ---------------------------------------------------------------------------

/// The status, the entry and the report of a reconciliation that is carried through
/// agree: a healthy instance runs and has no error, any other is failed and has one.
pub proof fn reconciliation_is_consistent(
    request: RequestView,
    status: StatusView,
    answers: Seq<AnswerView>,
    now: Seq<char>,
    outcome: OutcomeView,
)
    requires
        !request.cancel,
        next_reconcile_step(request, status, answers, now) == ReconcileStepView::Settle(outcome),
    ensures
        outcome.result.healthy <==> outcome.status.lifecycle == GatewayInstanceLifecycle::Running,
        outcome.result.healthy <==> outcome.status.last_reconciliation_error is None,
        outcome.result.healthy <==> outcome.entry.outcome != OperationOutcome::Failed,
        outcome.status.last_observed_healthy == Some(outcome.result.healthy),
        outcome.status.last_reconciliation_outcome == Some(outcome.result.outcome),
        outcome.entry.reason == Some(outcome.result.message),
        outcome.entry.active_version == outcome.result.observed_version,
        outcome.entry.active_sha256 == outcome.result.observed_sha256,
{
}

/// A rollback is applied only where it was allowed and a complete target is known.
pub proof fn rollback_needs_leave(
    request: RequestView,
    status: StatusView,
    answers: Seq<AnswerView>,
    now: Seq<char>,
)
    requires
        !request.apply_rollback || status.rollback_target_yaml is None || rollback_target(
            status,
        ) is None,
    ensures
        !(next_reconcile_step(request, status, answers, now) is Apply),
        next_reconcile_step(request, status, answers, now) matches ReconcileStepView::Settle(
            outcome,
        ) ==> !outcome.result.rollback_applied && outcome.entry.outcome
            != OperationOutcome::RolledBack,
{
}

/// A reconciliation leaves what is desired, the rollback target and the upgrade as
/// they were.
pub proof fn reconciliation_keeps_intent(
    request: RequestView,
    status: StatusView,
    answers: Seq<AnswerView>,
    now: Seq<char>,
    outcome: OutcomeView,
)
    requires
        next_reconcile_step(request, status, answers, now) == ReconcileStepView::Settle(outcome),
    ensures
        outcome.status.desired_config_version == status.desired_config_version,
        outcome.status.desired_config_sha256 == status.desired_config_sha256,
        outcome.status.rollback_target_version == status.rollback_target_version,
        outcome.status.rollback_target_sha256 == status.rollback_target_sha256,
        outcome.status.rollback_target_yaml == status.rollback_target_yaml,
        outcome.status.runtime_upgrade_plan == status.runtime_upgrade_plan,
        outcome.status.runtime_upgrade_status == status.runtime_upgrade_status,
{
}

/// A reconciliation always comes to an end: after five answers no further one is
/// wanted.
pub proof fn reconciliation_ends(
    request: RequestView,
    status: StatusView,
    answers: Seq<AnswerView>,
    now: Seq<char>,
)
    requires
        answers.len() >= 5,
    ensures
        next_reconcile_step(request, status, answers, now) is Settle,
{
}

/// A cancelled reconciliation settles at once, whatever the gateway would answer: no
/// request is made, the rollout plan is cleared, and of the status only the record
/// of the reconciliation changes.
pub proof fn cancelled_reconciliation_asks_nothing(
    request: RequestView,
    status: StatusView,
    answers: Seq<AnswerView>,
    now: Seq<char>,
)
    requires
        request.cancel,
    ensures
        next_reconcile_step(request, status, answers, now) matches ReconcileStepView::Settle(outcome)
            && outcome.plan_cleared && outcome.result.healthy && outcome.result.outcome
            == "cancelled"@ && !outcome.result.rollback_applied && outcome.entry.action
            == OperationAction::CancelReconcile && outcome.entry.outcome
            == OperationOutcome::Succeeded && outcome.status == (StatusView {
            last_reconciled_at: Some(now),
            last_reconciliation_outcome: Some("cancelled"@),
            last_reconciliation_error: None,
            updated_at: now,
            ..status
        }),
{
}

/// Only a cancelled reconciliation clears the rollout plan.
pub proof fn only_cancelling_clears_the_plan(
    request: RequestView,
    status: StatusView,
    answers: Seq<AnswerView>,
    now: Seq<char>,
    outcome: OutcomeView,
)
    requires
        next_reconcile_step(request, status, answers, now) == ReconcileStepView::Settle(outcome),
    ensures
        outcome.plan_cleared <==> request.cancel,
{
}

/// The version that the gateway is expected to serve: the desired one, or where none
/// was ever asked for the one observed last.
pub open spec fn expects(status: StatusView, version: Seq<char>, sha256: Seq<char>) -> bool {
    &&& status.desired_config_version == Some(version) || (status.desired_config_version is None
        && status.observed_config_version == Some(version))
    &&& status.desired_config_sha256 == Some(sha256) || (status.desired_config_sha256 is None
        && status.observed_config_sha256 == Some(sha256))
}

/// A reconciliation is healthy exactly where the gateway serves what is expected of
/// it, and is then verified. What was observed last does not count where something is
/// desired.
pub proof fn healthy_means_serving_what_is_expected(
    request: RequestView,
    status: StatusView,
    answers: Seq<AnswerView>,
    now: Seq<char>,
    version: Seq<char>,
    sha256: Seq<char>,
    outcome: OutcomeView,
)
    requires
        !request.cancel,
        expects(status, version, sha256),
        next_reconcile_step(request, status, answers, now) == ReconcileStepView::Settle(outcome),
    ensures
        outcome.result.outcome == "healthy"@ <==> answers.len() >= 2
            && gateway_reload::reports_a_config(answers[0]) && gateway_reload::serves(
            answers[1],
            version,
            sha256,
        ),
        outcome.status.verification_state == ConfigVerificationState::Verified
            <==> outcome.result.outcome == "healthy"@,
        outcome.result.outcome == "healthy"@ ==> outcome.result.healthy
            && !outcome.result.rollback_applied && outcome.status.lifecycle
            == GatewayInstanceLifecycle::Running && outcome.entry.outcome
            == OperationOutcome::Succeeded && outcome.result.message
            == "live proxy is serving expected config "@ + version,
{
    outcomes_differ();
}

proof fn outcomes_differ()
    ensures
        "healthy"@ != "rollback_verified"@,
        "healthy"@ != "rollback_applied"@,
        "healthy"@ != "drift_detected"@,
        "healthy"@ != "unreachable"@,
        "rollback_verified"@ != "rollback_applied"@,
        "rollback_verified"@ != "drift_detected"@,
        "rollback_verified"@ != "unreachable"@,
        "rollback_applied"@ != "drift_detected"@,
        "rollback_applied"@ != "unreachable"@,
        "drift_detected"@ != "unreachable"@,
{
    reveal_strlit("healthy");
    reveal_strlit("rollback_verified");
    reveal_strlit("rollback_applied");
    reveal_strlit("drift_detected");
    reveal_strlit("unreachable");
    assert("healthy"@[0] == 'h');
    assert("rollback_verified"@[0] == 'r' && "rollback_verified"@[9] == 'v');
    assert("rollback_applied"@[0] == 'r' && "rollback_applied"@[9] == 'a');
    assert("drift_detected"@[0] == 'd');
    assert("unreachable"@[0] == 'u');
}

/// The answer that is compared with the rollback target: the one after that which was
/// compared with what is expected, if anything is.
pub open spec fn rollback_answer(status: StatusView) -> int {
    if (status.desired_config_version is Some || status.observed_config_version is Some) && (
    status.desired_config_sha256 is Some || status.observed_config_sha256 is Some) {
        2
    } else {
        1
    }
}

/// A gateway that serves neither what is expected nor the rollback target has drifted,
/// unless a rollback is applied: the instance is failed and says so.
pub proof fn drift_is_never_healthy(
    request: RequestView,
    status: StatusView,
    answers: Seq<AnswerView>,
    now: Seq<char>,
    outcome: OutcomeView,
)
    requires
        !request.cancel,
        next_reconcile_step(request, status, answers, now) == ReconcileStepView::Settle(outcome),
        gateway_reload::reports_a_config(answers[0]),
        forall|version: Seq<char>, sha256: Seq<char>|
            expects(status, version, sha256) ==> !#[trigger] gateway_reload::serves(
                answers[1],
                version,
                sha256,
            ),
        status.rollback_target_version matches Some(version) ==> (
        status.rollback_target_sha256 matches Some(sha256) ==> !gateway_reload::serves(
            answers[rollback_answer(status)],
            version,
            sha256,
        )),
    ensures
        !request.apply_rollback || status.rollback_target_yaml is None
            || status.rollback_target_version is None || status.rollback_target_sha256 is None
            ==> outcome.result.outcome == "drift_detected"@ && !outcome.result.healthy
            && outcome.status.lifecycle == GatewayInstanceLifecycle::Failed
            && outcome.status.verification_state == ConfigVerificationState::Failed
            && outcome.entry.outcome == OperationOutcome::Failed
            && outcome.status.last_reconciliation_error is Some,
        outcome.result.healthy ==> outcome.result.outcome == "rollback_applied"@
            && request.apply_rollback,
{
    outcomes_differ();
    match desired(status) {
        Some(target) => {
            assert(expects(status, target.0, target.1));
            gateway_reload::confirmed_means_served(answers[1], target.1, target.0);
            assert(!gateway_reload::serves(answers[1], target.0, target.1));
        },
        None => {},
    }
    match rollback_target(status) {
        Some(target) => {
            gateway_reload::confirmed_means_served(
                answers[rollback_answer(status)],
                target.1,
                target.0,
            );
        },
        None => {},
    }
}

/// A gateway counts as already taken back exactly where it does not serve what is
/// expected and serves the whole rollback target.
pub proof fn rollback_verified_means_serving_the_target(
    request: RequestView,
    status: StatusView,
    answers: Seq<AnswerView>,
    now: Seq<char>,
    outcome: OutcomeView,
)
    requires
        !request.cancel,
        next_reconcile_step(request, status, answers, now) == ReconcileStepView::Settle(outcome),
    ensures
        outcome.result.outcome == "rollback_verified"@ ==> (
        status.rollback_target_version matches Some(version) && (
        status.rollback_target_sha256 matches Some(sha256) && rollback_answer(status)
            < answers.len() && gateway_reload::serves(
            answers[rollback_answer(status)],
            version,
            sha256,
        ) && outcome.result.healthy && !outcome.result.rollback_applied
            && outcome.status.verification_state == ConfigVerificationState::RolledBack)),
        outcome.result.outcome == "rollback_applied"@ ==> (
        status.rollback_target_version matches Some(version) && (
        status.rollback_target_sha256 matches Some(sha256) && request.apply_rollback
            && status.rollback_target_yaml is Some && rollback_answer(status) + 2 < answers.len()
            && !gateway_reload::serves(answers[rollback_answer(status)], version, sha256)
            && gateway_reload::serves(answers[rollback_answer(status) + 2], version, sha256)
            && outcome.result.rollback_applied && outcome.entry.outcome
            == OperationOutcome::RolledBack && outcome.status.verification_state
            == ConfigVerificationState::RolledBack)),
        outcome.result.rollback_applied <==> outcome.result.outcome == "rollback_applied"@,
{
    outcomes_differ();
    match desired(status) {
        Some(target) => {
            gateway_reload::confirmed_means_served(answers[1], target.1, target.0);
        },
        None => {},
    }
    match rollback_target(status) {
        Some(target) => {
            let i = rollback_answer(status);
            gateway_reload::confirmed_means_served(answers[i], target.1, target.0);
            gateway_reload::confirmed_means_served(answers[i + 2], target.1, target.0);
        },
        None => {},
    }
}

/// A rollback sends the recorded configuration, and only where leave was given.
pub proof fn rollback_sends_the_recorded_target(
    request: RequestView,
    status: StatusView,
    answers: Seq<AnswerView>,
    now: Seq<char>,
    yaml: Seq<char>,
)
    requires
        next_reconcile_step(request, status, answers, now) == ReconcileStepView::Apply(yaml),
    ensures
        status.rollback_target_yaml == Some(yaml),
        request.apply_rollback,
        !request.cancel,
{
}

/// A gateway that cannot be asked is unreachable: nothing is observed of it, and what
/// was observed before stays on record.
pub proof fn silent_gateway_is_unreachable(
    request: RequestView,
    status: StatusView,
    answers: Seq<AnswerView>,
    now: Seq<char>,
)
    requires
        !request.cancel,
        answers.len() > 0,
        !gateway_reload::reports_a_config(answers[0]),
    ensures
        next_reconcile_step(request, status, answers, now) matches ReconcileStepView::Settle(outcome)
            && outcome.result.outcome == "unreachable"@ && !outcome.result.healthy
            && outcome.result.observed_version is None && outcome.status.lifecycle
            == GatewayInstanceLifecycle::Failed && outcome.status.verification_state
            == ConfigVerificationState::Failed && outcome.status.observed_config_version
            == status.observed_config_version && outcome.status.observed_config_sha256
            == status.observed_config_sha256 && outcome.entry.outcome == OperationOutcome::Failed,
{
}

/// What a reconciliation observed is what the gateway reported first, unless a
/// rollback was applied.
pub proof fn observed_is_what_was_reported(
    request: RequestView,
    status: StatusView,
    answers: Seq<AnswerView>,
    now: Seq<char>,
    outcome: OutcomeView,
)
    requires
        !request.cancel,
        next_reconcile_step(request, status, answers, now) == ReconcileStepView::Settle(outcome),
        outcome.result.outcome != "unreachable"@,
        !outcome.result.rollback_applied,
    ensures
        gateway_reload::config_answer(answers[0]) matches Ok(live) && outcome.result.observed_version
            == live.version && outcome.result.observed_sha256 == live.sha256
            && outcome.status.observed_config_version == live.version
            && outcome.status.observed_config_sha256 == live.sha256,
        outcome.result.instance_id == request.instance_id,
        outcome.result.gateway_url == request.gateway_url,
        outcome.entry.action == OperationAction::Reconcile,
        outcome.entry.previous_version == status.observed_config_version,
        outcome.entry.target_version == status.desired_config_version,
        outcome.entry.recorded_at == now,
        outcome.status.last_reconciled_at == Some(now),
{
}

/// The instances to reconcile: all that are registered, or the one named.
pub proof fn targets_are_what_was_asked_for(
    name: Option<Seq<char>>,
    registered: Seq<Seq<char>>,
)
    ensures
        registered.len() > 0 ==> targets_of(true, name, registered) == Ok::<
            Seq<Seq<char>>,
            ErrorView,
        >(registered),
        registered.len() == 0 ==> targets_of(true, name, registered) is Err,
        name matches Some(n) ==> targets_of(false, name, registered) == Ok::<
            Seq<Seq<char>>,
            ErrorView,
        >(seq![n]),
        name is None ==> targets_of(false, name, registered) is Err,
{
}

/// Every result that is not healthy is counted, and no other.
pub proof fn unhealthy_counts_each(results: Seq<ResultView>, next: ResultView)
    ensures
        unhealthy(Seq::empty()) == 0,
        unhealthy(results.push(next)) == unhealthy(results) + if next.healthy {
            0int
        } else {
            1int
        },
{
    assert(results.push(next).drop_last() =~= results);
}

/// The count of failed results is zero exactly where all are healthy.
pub proof fn none_unhealthy_means_all_healthy(results: Seq<ResultView>)
    ensures
        unhealthy(results) == 0 <==> forall|i: int|
            0 <= i < results.len() ==> (#[trigger] results[i]).healthy,
    decreases results.len(),
{
    if results.len() > 0 {
        let front = results.drop_last();
        none_unhealthy_means_all_healthy(front);
        assert(front.push(results.last()) =~= results);
        unhealthy_counts_each(front, results.last());
        assert(forall|i: int| 0 <= i < front.len() ==> #[trigger] front[i] == results[i]);
        if forall|i: int| 0 <= i < front.len() ==> (#[trigger] front[i]).healthy {
            assert forall|i: int| 0 <= i < results.len() && results.last().healthy implies (
            #[trigger] results[i]).healthy by {
                if i < front.len() {
                    assert(front[i].healthy);
                }
            }
        } else {
            let i = choose|i: int| 0 <= i < front.len() && !(#[trigger] front[i]).healthy;
            assert(!results[i].healthy);
        }
    }
}

} // verus!
