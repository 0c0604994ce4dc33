//! Gateway instances as the supervisor keeps them: what they are, how they are
//! and what was done to them.
use vstd::prelude::*;

use crate::error::{self, CliError, ErrorView};
use crate::runtime_upgrade::{PlanView, RuntimeUpgradePlan, RuntimeUpgradeStatus, UpgradeStatusView};
use crate::text;

verus! {

#[derive(Clone, Copy, Debug, PartialEq, Eq, Structural)]
pub enum GatewayInstanceLifecycle {
    Defined,
    Starting,
    Running,
    Stopped,
    Failed,
}

#[derive(Clone, Copy, Debug, PartialEq, Eq, Structural)]
pub enum ConfigVerificationState {
    Unknown,
    Pending,
    Verified,
    RolledBack,
    Failed,
}

#[derive(Clone, Copy, Debug, PartialEq, Eq, Structural)]
pub enum OperationAction {
    Reload,
    Reconcile,
    CancelReconcile,
    Revert,
    Install,
    Start,
    Stop,
    Uninstall,
    UpgradePlan,
    UpgradeApply,
    UpgradeRollback,
}

#[derive(Clone, Copy, Debug, PartialEq, Eq, Structural)]
pub enum OperationOutcome {
    Succeeded,
    Failed,
    RolledBack,
}

pub open spec fn lifecycle_word(lifecycle: GatewayInstanceLifecycle) -> Seq<char> {
    match lifecycle {
        GatewayInstanceLifecycle::Defined => "defined"@,
        GatewayInstanceLifecycle::Starting => "starting"@,
        GatewayInstanceLifecycle::Running => "running"@,
        GatewayInstanceLifecycle::Stopped => "stopped"@,
        GatewayInstanceLifecycle::Failed => "failed"@,
    }
}

impl GatewayInstanceLifecycle {
    pub fn word(self) -> (r: &'static str)
        ensures
            r@ == lifecycle_word(self),
    {
        match self {
            GatewayInstanceLifecycle::Defined => "defined",
            GatewayInstanceLifecycle::Starting => "starting",
            GatewayInstanceLifecycle::Running => "running",
            GatewayInstanceLifecycle::Stopped => "stopped",
            GatewayInstanceLifecycle::Failed => "failed",
        }
    }
}

pub open spec fn outcome_word(outcome: OperationOutcome) -> Seq<char> {
    match outcome {
        OperationOutcome::Succeeded => "succeeded"@,
        OperationOutcome::Failed => "failed"@,
        OperationOutcome::RolledBack => "rolledback"@,
    }
}

impl OperationOutcome {
    pub fn word(self) -> (r: &'static str)
        ensures
            r@ == outcome_word(self),
    {
        match self {
            OperationOutcome::Succeeded => "succeeded",
            OperationOutcome::Failed => "failed",
            OperationOutcome::RolledBack => "rolledback",
        }
    }
}

/// The name of an action in one lower-case word.
pub open spec fn action_word(action: OperationAction) -> Seq<char> {
    match action {
        OperationAction::Reload => "reload"@,
        OperationAction::Reconcile => "reconcile"@,
        OperationAction::CancelReconcile => "cancelreconcile"@,
        OperationAction::Revert => "revert"@,
        OperationAction::Install => "install"@,
        OperationAction::Start => "start"@,
        OperationAction::Stop => "stop"@,
        OperationAction::Uninstall => "uninstall"@,
        OperationAction::UpgradePlan => "upgradeplan"@,
        OperationAction::UpgradeApply => "upgradeapply"@,
        OperationAction::UpgradeRollback => "upgraderollback"@,
    }
}

impl OperationAction {
    pub fn word(self) -> (r: &'static str)
        ensures
            r@ == action_word(self),
    {
        match self {
            OperationAction::Reload => "reload",
            OperationAction::Reconcile => "reconcile",
            OperationAction::CancelReconcile => "cancelreconcile",
            OperationAction::Revert => "revert",
            OperationAction::Install => "install",
            OperationAction::Start => "start",
            OperationAction::Stop => "stop",
            OperationAction::Uninstall => "uninstall",
            OperationAction::UpgradePlan => "upgradeplan",
            OperationAction::UpgradeApply => "upgradeapply",
            OperationAction::UpgradeRollback => "upgraderollback",
        }
    }
}

/// One operation on an instance.
#[derive(Debug)]
pub struct OperationHistoryEntry {
    pub action: OperationAction,
    pub outcome: OperationOutcome,
    pub reason: Option<String>,
    pub previous_version: Option<String>,
    pub previous_sha256: Option<String>,
    pub target_version: Option<String>,
    pub target_sha256: Option<String>,
    pub active_version: Option<String>,
    pub active_sha256: Option<String>,
    pub recorded_at: String,
}

pub struct EntryView {
    pub action: OperationAction,
    pub outcome: OperationOutcome,
    pub reason: Option<Seq<char>>,
    pub previous_version: Option<Seq<char>>,
    pub previous_sha256: Option<Seq<char>>,
    pub target_version: Option<Seq<char>>,
    pub target_sha256: Option<Seq<char>>,
    pub active_version: Option<Seq<char>>,
    pub active_sha256: Option<Seq<char>>,
    pub recorded_at: Seq<char>,
}

impl View for OperationHistoryEntry {
    type V = EntryView;

    open spec fn view(&self) -> EntryView {
        EntryView {
            action: self.action,
            outcome: self.outcome,
            reason: text::opt(self.reason),
            previous_version: text::opt(self.previous_version),
            previous_sha256: text::opt(self.previous_sha256),
            target_version: text::opt(self.target_version),
            target_sha256: text::opt(self.target_sha256),
            active_version: text::opt(self.active_version),
            active_sha256: text::opt(self.active_sha256),
            recorded_at: self.recorded_at@,
        }
    }
}

pub open spec fn history(v: Seq<OperationHistoryEntry>) -> Seq<EntryView> {
    Seq::new(v.len(), |i: int| v[i]@)
}

/// Where a secret is found.
#[derive(Debug, PartialEq, Eq)]
pub enum SecretReference {
    EnvVar { name: String },
    Keychain { service: String, account: String },
}

pub enum SecretView {
    EnvVar(Seq<char>),
    Keychain(Seq<char>, Seq<char>),
}

impl View for SecretReference {
    type V = SecretView;

    open spec fn view(&self) -> SecretView {
        match self {
            SecretReference::EnvVar { name } => SecretView::EnvVar(name@),
            SecretReference::Keychain { service, account } => SecretView::Keychain(
                service@,
                account@,
            ),
        }
    }
}

impl SecretReference {
    pub fn env_var(name: &str) -> (r: SecretReference)
        ensures
            r@ == SecretView::EnvVar(name@),
    {
        SecretReference::EnvVar { name: name.to_string() }
    }

    pub fn keychain(service: String, account: String) -> (r: SecretReference)
        ensures
            r@ == SecretView::Keychain(service@, account@),
    {
        SecretReference::Keychain { service, account }
    }
}

pub open spec fn opt_secret(s: Option<SecretReference>) -> Option<SecretView> {
    match s {
        Some(x) => Some(x@),
        None => None,
    }
}

/// What an instance is meant to be.
#[derive(Debug)]
pub struct GatewayInstanceSpec {
    pub instance_id: String,
    pub gateway_id: String,
    pub name: String,
    pub listen_addr: String,
    pub upstream_base_url: String,
    pub upstream_api_key: Option<SecretReference>,
    pub upstream_api_key_header: Option<String>,
    pub upstream_api_key_prefix: Option<String>,
    pub fail_mode: String,
    /// Paths of the policy configuration; none where there is no policy.
    pub policy_paths: Vec<String>,
    pub max_concurrency: usize,
    pub admin_token: Option<SecretReference>,
    pub admin_local_only: bool,
}

pub struct SpecView {
    pub instance_id: Seq<char>,
    pub gateway_id: Seq<char>,
    pub name: Seq<char>,
    pub listen_addr: Seq<char>,
    pub upstream_base_url: Seq<char>,
    pub upstream_api_key: Option<SecretView>,
    pub upstream_api_key_header: Option<Seq<char>>,
    pub upstream_api_key_prefix: Option<Seq<char>>,
    pub fail_mode: Seq<char>,
    pub policy_paths: Seq<Seq<char>>,
    pub max_concurrency: usize,
    pub admin_token: Option<SecretView>,
    pub admin_local_only: bool,
}

impl View for GatewayInstanceSpec {
    type V = SpecView;

    open spec fn view(&self) -> SpecView {
        SpecView {
            instance_id: self.instance_id@,
            gateway_id: self.gateway_id@,
            name: self.name@,
            listen_addr: self.listen_addr@,
            upstream_base_url: self.upstream_base_url@,
            upstream_api_key: opt_secret(self.upstream_api_key),
            upstream_api_key_header: text::opt(self.upstream_api_key_header),
            upstream_api_key_prefix: text::opt(self.upstream_api_key_prefix),
            fail_mode: self.fail_mode@,
            policy_paths: text::texts(self.policy_paths@),
            max_concurrency: self.max_concurrency,
            admin_token: opt_secret(self.admin_token),
            admin_local_only: self.admin_local_only,
        }
    }
}

/// How an instance is.
#[derive(Debug)]
pub struct GatewayInstanceStatus {
    pub lifecycle: GatewayInstanceLifecycle,
    pub observed_config_version: Option<String>,
    pub observed_config_sha256: Option<String>,
    pub desired_config_version: Option<String>,
    pub desired_config_sha256: Option<String>,
    pub desired_config_source: Option<String>,
    pub rollback_target_version: Option<String>,
    pub rollback_target_sha256: Option<String>,
    pub rollback_target_yaml: Option<String>,
    pub last_known_good_version: Option<String>,
    pub last_known_good_sha256: Option<String>,
    pub last_reload_reason: Option<String>,
    pub last_rollback_reason: Option<String>,
    pub verification_state: ConfigVerificationState,
    pub last_verified_at: Option<String>,
    pub last_healthcheck_at: Option<String>,
    pub last_observed_healthy: Option<bool>,
    pub last_seen_at: Option<String>,
    pub last_error: Option<String>,
    pub last_reconciled_at: Option<String>,
    pub last_reconciliation_outcome: Option<String>,
    pub last_reconciliation_error: Option<String>,
    pub runtime_upgrade_plan: Option<RuntimeUpgradePlan>,
    pub runtime_upgrade_status: Option<RuntimeUpgradeStatus>,
    pub updated_at: String,
}

pub struct StatusView {
    pub lifecycle: GatewayInstanceLifecycle,
    pub observed_config_version: Option<Seq<char>>,
    pub observed_config_sha256: Option<Seq<char>>,
    pub desired_config_version: Option<Seq<char>>,
    pub desired_config_sha256: Option<Seq<char>>,
    pub desired_config_source: Option<Seq<char>>,
    pub rollback_target_version: Option<Seq<char>>,
    pub rollback_target_sha256: Option<Seq<char>>,
    pub rollback_target_yaml: Option<Seq<char>>,
    pub last_known_good_version: Option<Seq<char>>,
    pub last_known_good_sha256: Option<Seq<char>>,
    pub last_reload_reason: Option<Seq<char>>,
    pub last_rollback_reason: Option<Seq<char>>,
    pub verification_state: ConfigVerificationState,
    pub last_verified_at: Option<Seq<char>>,
    pub last_healthcheck_at: Option<Seq<char>>,
    pub last_observed_healthy: Option<bool>,
    pub last_seen_at: Option<Seq<char>>,
    pub last_error: Option<Seq<char>>,
    pub last_reconciled_at: Option<Seq<char>>,
    pub last_reconciliation_outcome: Option<Seq<char>>,
    pub last_reconciliation_error: Option<Seq<char>>,
    pub runtime_upgrade_plan: Option<PlanView>,
    pub runtime_upgrade_status: Option<UpgradeStatusView>,
    pub updated_at: Seq<char>,
}

pub open spec fn opt_plan(p: Option<RuntimeUpgradePlan>) -> Option<PlanView> {
    match p {
        Some(x) => Some(x@),
        None => None,
    }
}

pub open spec fn opt_upgrade(p: Option<RuntimeUpgradeStatus>) -> Option<UpgradeStatusView> {
    match p {
        Some(x) => Some(x@),
        None => None,
    }
}

impl View for GatewayInstanceStatus {
    type V = StatusView;

    open spec fn view(&self) -> StatusView {
        StatusView {
            lifecycle: self.lifecycle,
            observed_config_version: text::opt(self.observed_config_version),
            observed_config_sha256: text::opt(self.observed_config_sha256),
            desired_config_version: text::opt(self.desired_config_version),
            desired_config_sha256: text::opt(self.desired_config_sha256),
            desired_config_source: text::opt(self.desired_config_source),
            rollback_target_version: text::opt(self.rollback_target_version),
            rollback_target_sha256: text::opt(self.rollback_target_sha256),
            rollback_target_yaml: text::opt(self.rollback_target_yaml),
            last_known_good_version: text::opt(self.last_known_good_version),
            last_known_good_sha256: text::opt(self.last_known_good_sha256),
            last_reload_reason: text::opt(self.last_reload_reason),
            last_rollback_reason: text::opt(self.last_rollback_reason),
            verification_state: self.verification_state,
            last_verified_at: text::opt(self.last_verified_at),
            last_healthcheck_at: text::opt(self.last_healthcheck_at),
            last_observed_healthy: self.last_observed_healthy,
            last_seen_at: text::opt(self.last_seen_at),
            last_error: text::opt(self.last_error),
            last_reconciled_at: text::opt(self.last_reconciled_at),
            last_reconciliation_outcome: text::opt(self.last_reconciliation_outcome),
            last_reconciliation_error: text::opt(self.last_reconciliation_error),
            runtime_upgrade_plan: opt_plan(self.runtime_upgrade_plan),
            runtime_upgrade_status: opt_upgrade(self.runtime_upgrade_status),
            updated_at: self.updated_at@,
        }
    }
}

/// An instance that was defined and never started.
pub open spec fn fresh_status(now: Seq<char>) -> StatusView {
    StatusView {
        lifecycle: GatewayInstanceLifecycle::Defined,
        observed_config_version: None,
        observed_config_sha256: None,
        desired_config_version: None,
        desired_config_sha256: None,
        desired_config_source: None,
        rollback_target_version: None,
        rollback_target_sha256: None,
        rollback_target_yaml: None,
        last_known_good_version: None,
        last_known_good_sha256: None,
        last_reload_reason: None,
        last_rollback_reason: None,
        verification_state: ConfigVerificationState::Unknown,
        last_verified_at: None,
        last_healthcheck_at: None,
        last_observed_healthy: None,
        last_seen_at: None,
        last_error: None,
        last_reconciled_at: None,
        last_reconciliation_outcome: None,
        last_reconciliation_error: None,
        runtime_upgrade_plan: None,
        runtime_upgrade_status: None,
        updated_at: now,
    }
}

impl GatewayInstanceStatus {
    pub fn fresh(now: &str) -> (r: GatewayInstanceStatus)
        ensures
            r@ == fresh_status(now@),
    {
        GatewayInstanceStatus {
            lifecycle: GatewayInstanceLifecycle::Defined,
            observed_config_version: None,
            observed_config_sha256: None,
            desired_config_version: None,
            desired_config_sha256: None,
            desired_config_source: None,
            rollback_target_version: None,
            rollback_target_sha256: None,
            rollback_target_yaml: None,
            last_known_good_version: None,
            last_known_good_sha256: None,
            last_reload_reason: None,
            last_rollback_reason: None,
            verification_state: ConfigVerificationState::Unknown,
            last_verified_at: None,
            last_healthcheck_at: None,
            last_observed_healthy: None,
            last_seen_at: None,
            last_error: None,
            last_reconciled_at: None,
            last_reconciliation_outcome: None,
            last_reconciliation_error: None,
            runtime_upgrade_plan: None,
            runtime_upgrade_status: None,
            updated_at: now.to_string(),
        }
    }

    /// A copy of the status.
    pub fn copy(&self) -> (r: GatewayInstanceStatus)
        ensures
            r@ == self@,
    {
        GatewayInstanceStatus {
            lifecycle: self.lifecycle,
            observed_config_version: text::copy_opt(&self.observed_config_version),
            observed_config_sha256: text::copy_opt(&self.observed_config_sha256),
            desired_config_version: text::copy_opt(&self.desired_config_version),
            desired_config_sha256: text::copy_opt(&self.desired_config_sha256),
            desired_config_source: text::copy_opt(&self.desired_config_source),
            rollback_target_version: text::copy_opt(&self.rollback_target_version),
            rollback_target_sha256: text::copy_opt(&self.rollback_target_sha256),
            rollback_target_yaml: text::copy_opt(&self.rollback_target_yaml),
            last_known_good_version: text::copy_opt(&self.last_known_good_version),
            last_known_good_sha256: text::copy_opt(&self.last_known_good_sha256),
            last_reload_reason: text::copy_opt(&self.last_reload_reason),
            last_rollback_reason: text::copy_opt(&self.last_rollback_reason),
            verification_state: self.verification_state,
            last_verified_at: text::copy_opt(&self.last_verified_at),
            last_healthcheck_at: text::copy_opt(&self.last_healthcheck_at),
            last_observed_healthy: self.last_observed_healthy,
            last_seen_at: text::copy_opt(&self.last_seen_at),
            last_error: text::copy_opt(&self.last_error),
            last_reconciled_at: text::copy_opt(&self.last_reconciled_at),
            last_reconciliation_outcome: text::copy_opt(&self.last_reconciliation_outcome),
            last_reconciliation_error: text::copy_opt(&self.last_reconciliation_error),
            runtime_upgrade_plan: match &self.runtime_upgrade_plan {
                Some(plan) => Some(plan.copy()),
                None => None,
            },
            runtime_upgrade_status: match &self.runtime_upgrade_status {
                Some(status) => Some(status.copy()),
                None => None,
            },
            updated_at: self.updated_at.clone(),
        }
    }
}

/// The version and the digest of a configuration that was loaded.
#[derive(Debug)]
pub struct LoadedConfig {
    pub config_version: String,
    pub config_sha256: String,
}

pub struct LoadedView {
    pub config_version: Seq<char>,
    pub config_sha256: Seq<char>,
}

impl View for LoadedConfig {
    type V = LoadedView;

    open spec fn view(&self) -> LoadedView {
        LoadedView { config_version: self.config_version@, config_sha256: self.config_sha256@ }
    }
}

/// An instance with its status and its history.
#[derive(Debug)]
pub struct InstanceRecord {
    pub spec: GatewayInstanceSpec,
    pub status: GatewayInstanceStatus,
    pub operations_history: Vec<OperationHistoryEntry>,
    pub rollout_plan: Option<String>,
}

/// What the supervisor says of its own state.
#[derive(Debug)]
pub struct SupervisorStateMetadata {
    pub state_dir: String,
    pub recovered_from_backup: bool,
    pub recovery_message: Option<String>,
    pub wal_recovered: bool,
    pub state_checksum: Option<String>,
}

/// The directory of the supervisor: the one asked for, else the default. Where there
/// is no default, asking for one does not help.
pub fn choose_state_dir(asked: Option<&str>, default_dir: Result<String, CliError>) -> (r: Result<
    String,
    CliError,
>)
    ensures
        error::viewed(r) == (match (default_dir, asked) {
            (Err(e), _) => Err(e@),
            (Ok(_), Some(dir)) => Ok(dir@),
            (Ok(dir), None) => Ok(dir@),
        }),
{
    let default_dir = default_dir?;
    match asked {
        Some(dir) => Ok(dir.to_string()),
        None => Ok(default_dir),
    }
}

/// The error for a name that no instance has.
pub open spec fn missing_instance(name: Seq<char>) -> ErrorView {
    error::user_error("instance "@ + name + " does not exist"@)
}

pub fn missing_instance_error(name: &str) -> (r: CliError)
    ensures
        r@ == missing_instance(name@),
{
    let mut message = "instance ".to_string();
    message.append(name);
    message.append(" does not exist");
    CliError::user(message)
}

} // verus!
