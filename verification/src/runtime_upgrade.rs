//! Runtime upgrades: the plan, its checkpoint and how far it has come.
use vstd::prelude::*;

use crate::gateway_service::ServicePlatform;
use crate::text;

verus! {

#[derive(Clone, Copy, Debug, PartialEq, Eq, Structural)]
pub enum RuntimeServiceManager {
    Manual,
    Launchd,
    LaunchDaemon,
    SystemdUser,
    SystemdSystem,
    WindowsService,
}

pub open spec fn manager_word(manager: RuntimeServiceManager) -> Seq<char> {
    match manager {
        RuntimeServiceManager::Manual => "manual"@,
        RuntimeServiceManager::Launchd => "launchd"@,
        RuntimeServiceManager::LaunchDaemon => "launch_daemon"@,
        RuntimeServiceManager::SystemdUser => "systemd_user"@,
        RuntimeServiceManager::SystemdSystem => "systemd_system"@,
        RuntimeServiceManager::WindowsService => "windows_service"@,
    }
}

/// The manager of the services of a platform.
pub open spec fn manager_of(platform: ServicePlatform) -> RuntimeServiceManager {
    match platform {
        ServicePlatform::Launchd => RuntimeServiceManager::Launchd,
        ServicePlatform::LaunchDaemon => RuntimeServiceManager::LaunchDaemon,
        ServicePlatform::SystemdUser => RuntimeServiceManager::SystemdUser,
        ServicePlatform::SystemdSystem => RuntimeServiceManager::SystemdSystem,
        ServicePlatform::WindowsService => RuntimeServiceManager::WindowsService,
    }
}

impl RuntimeServiceManager {
    pub fn as_str(self) -> (r: &'static str)
        ensures
            r@ == manager_word(self),
    {
        match self {
            RuntimeServiceManager::Manual => "manual",
            RuntimeServiceManager::Launchd => "launchd",
            RuntimeServiceManager::LaunchDaemon => "launch_daemon",
            RuntimeServiceManager::SystemdUser => "systemd_user",
            RuntimeServiceManager::SystemdSystem => "systemd_system",
            RuntimeServiceManager::WindowsService => "windows_service",
        }
    }

    pub fn of_platform(platform: ServicePlatform) -> (r: RuntimeServiceManager)
        ensures
            r == manager_of(platform),
    {
        match platform {
            ServicePlatform::Launchd => RuntimeServiceManager::Launchd,
            ServicePlatform::LaunchDaemon => RuntimeServiceManager::LaunchDaemon,
            ServicePlatform::SystemdUser => RuntimeServiceManager::SystemdUser,
            ServicePlatform::SystemdSystem => RuntimeServiceManager::SystemdSystem,
            ServicePlatform::WindowsService => RuntimeServiceManager::WindowsService,
        }
    }
}

#[derive(Clone, Copy, Debug, PartialEq, Eq, Structural)]
pub enum RuntimeUpgradePhase {
    Planned,
    Applying,
    Succeeded,
    Failed,
    RolledBack,
}

pub open spec fn phase_word(phase: RuntimeUpgradePhase) -> Seq<char> {
    match phase {
        RuntimeUpgradePhase::Planned => "planned"@,
        RuntimeUpgradePhase::Applying => "applying"@,
        RuntimeUpgradePhase::Succeeded => "succeeded"@,
        RuntimeUpgradePhase::Failed => "failed"@,
        RuntimeUpgradePhase::RolledBack => "rolled_back"@,
    }
}

impl RuntimeUpgradePhase {
    pub fn as_str(self) -> (r: &'static str)
        ensures
            r@ == phase_word(self),
    {
        match self {
            RuntimeUpgradePhase::Planned => "planned",
            RuntimeUpgradePhase::Applying => "applying",
            RuntimeUpgradePhase::Succeeded => "succeeded",
            RuntimeUpgradePhase::Failed => "failed",
            RuntimeUpgradePhase::RolledBack => "rolled_back",
        }
    }
}

/// A command that tells whether the new runtime works, and what it said last.
#[derive(Debug)]
pub struct RuntimeUpgradeHealthCheck {
    pub command: String,
    pub timeout_secs: u64,
    pub working_directory: Option<String>,
    pub last_exit_code: Option<i32>,
    pub last_stdout_preview: Option<String>,
    pub last_stderr_preview: Option<String>,
    pub passed: Option<bool>,
    pub checked_at: Option<String>,
}

pub struct HealthView {
    pub command: Seq<char>,
    pub timeout_secs: u64,
    pub working_directory: Option<Seq<char>>,
    pub last_exit_code: Option<i32>,
    pub last_stdout_preview: Option<Seq<char>>,
    pub last_stderr_preview: Option<Seq<char>>,
    pub passed: Option<bool>,
    pub checked_at: Option<Seq<char>>,
}

impl View for RuntimeUpgradeHealthCheck {
    type V = HealthView;

    open spec fn view(&self) -> HealthView {
        HealthView {
            command: self.command@,
            timeout_secs: self.timeout_secs,
            working_directory: text::opt(self.working_directory),
            last_exit_code: self.last_exit_code,
            last_stdout_preview: text::opt(self.last_stdout_preview),
            last_stderr_preview: text::opt(self.last_stderr_preview),
            passed: self.passed,
            checked_at: text::opt(self.checked_at),
        }
    }
}

pub open spec fn opt_health(h: Option<RuntimeUpgradeHealthCheck>) -> Option<HealthView> {
    match h {
        Some(x) => Some(x@),
        None => None,
    }
}

impl RuntimeUpgradeHealthCheck {
    pub fn copy(&self) -> (r: RuntimeUpgradeHealthCheck)
        ensures
            r@ == self@,
    {
        RuntimeUpgradeHealthCheck {
            command: self.command.clone(),
            timeout_secs: self.timeout_secs,
            working_directory: text::copy_opt(&self.working_directory),
            last_exit_code: self.last_exit_code,
            last_stdout_preview: text::copy_opt(&self.last_stdout_preview),
            last_stderr_preview: text::copy_opt(&self.last_stderr_preview),
            passed: self.passed,
            checked_at: text::copy_opt(&self.checked_at),
        }
    }
}

pub fn copy_health(h: &Option<RuntimeUpgradeHealthCheck>) -> (r: Option<RuntimeUpgradeHealthCheck>)
    ensures
        opt_health(r) == opt_health(*h),
{
    match h {
        Some(x) => Some(x.copy()),
        None => None,
    }
}

/// The runtime to go back to.
#[derive(Debug)]
pub struct RuntimeRollbackRecord {
    pub version: String,
    pub binary_path: String,
    pub config_sha256: Option<String>,
    pub recorded_at: String,
    pub reason: Option<String>,
}

pub struct RollbackView {
    pub version: Seq<char>,
    pub binary_path: Seq<char>,
    pub config_sha256: Option<Seq<char>>,
    pub recorded_at: Seq<char>,
    pub reason: Option<Seq<char>>,
}

impl View for RuntimeRollbackRecord {
    type V = RollbackView;

    open spec fn view(&self) -> RollbackView {
        RollbackView {
            version: self.version@,
            binary_path: self.binary_path@,
            config_sha256: text::opt(self.config_sha256),
            recorded_at: self.recorded_at@,
            reason: text::opt(self.reason),
        }
    }
}

impl RuntimeRollbackRecord {
    pub fn copy(&self) -> (r: RuntimeRollbackRecord)
        ensures
            r@ == self@,
    {
        RuntimeRollbackRecord {
            version: self.version.clone(),
            binary_path: self.binary_path.clone(),
            config_sha256: text::copy_opt(&self.config_sha256),
            recorded_at: self.recorded_at.clone(),
            reason: text::copy_opt(&self.reason),
        }
    }
}

pub open spec fn opt_rollback(h: Option<RuntimeRollbackRecord>) -> Option<RollbackView> {
    match h {
        Some(x) => Some(x@),
        None => None,
    }
}

/// What an upgrade is meant to do.
#[derive(Debug)]
pub struct RuntimeUpgradePlan {
    pub target_version: String,
    pub target_binary_path: String,
    pub service_manager: RuntimeServiceManager,
    pub config_sha256: Option<String>,
    pub health_check: Option<RuntimeUpgradeHealthCheck>,
    pub rollback: RuntimeRollbackRecord,
    pub created_at: String,
}

pub struct PlanView {
    pub target_version: Seq<char>,
    pub target_binary_path: Seq<char>,
    pub service_manager: RuntimeServiceManager,
    pub config_sha256: Option<Seq<char>>,
    pub health_check: Option<HealthView>,
    pub rollback: RollbackView,
    pub created_at: Seq<char>,
}

impl View for RuntimeUpgradePlan {
    type V = PlanView;

    open spec fn view(&self) -> PlanView {
        PlanView {
            target_version: self.target_version@,
            target_binary_path: self.target_binary_path@,
            service_manager: self.service_manager,
            config_sha256: text::opt(self.config_sha256),
            health_check: opt_health(self.health_check),
            rollback: self.rollback@,
            created_at: self.created_at@,
        }
    }
}

impl RuntimeUpgradePlan {
    pub fn copy(&self) -> (r: RuntimeUpgradePlan)
        ensures
            r@ == self@,
    {
        RuntimeUpgradePlan {
            target_version: self.target_version.clone(),
            target_binary_path: self.target_binary_path.clone(),
            service_manager: self.service_manager,
            config_sha256: text::copy_opt(&self.config_sha256),
            health_check: copy_health(&self.health_check),
            rollback: self.rollback.copy(),
            created_at: self.created_at.clone(),
        }
    }
}

/// How far an upgrade has come.
#[derive(Debug)]
pub struct RuntimeUpgradeStatus {
    pub phase: RuntimeUpgradePhase,
    pub active_version: Option<String>,
    pub active_binary_path: Option<String>,
    pub target_version: Option<String>,
    pub target_binary_path: Option<String>,
    pub service_manager: RuntimeServiceManager,
    pub config_sha256: Option<String>,
    pub last_restart_at: Option<String>,
    pub last_error: Option<String>,
    pub health_check: Option<RuntimeUpgradeHealthCheck>,
    pub rollback: Option<RuntimeRollbackRecord>,
    pub updated_at: Option<String>,
}

pub struct UpgradeStatusView {
    pub phase: RuntimeUpgradePhase,
    pub active_version: Option<Seq<char>>,
    pub active_binary_path: Option<Seq<char>>,
    pub target_version: Option<Seq<char>>,
    pub target_binary_path: Option<Seq<char>>,
    pub service_manager: RuntimeServiceManager,
    pub config_sha256: Option<Seq<char>>,
    pub last_restart_at: Option<Seq<char>>,
    pub last_error: Option<Seq<char>>,
    pub health_check: Option<HealthView>,
    pub rollback: Option<RollbackView>,
    pub updated_at: Option<Seq<char>>,
}

impl View for RuntimeUpgradeStatus {
    type V = UpgradeStatusView;

    open spec fn view(&self) -> UpgradeStatusView {
        UpgradeStatusView {
            phase: self.phase,
            active_version: text::opt(self.active_version),
            active_binary_path: text::opt(self.active_binary_path),
            target_version: text::opt(self.target_version),
            target_binary_path: text::opt(self.target_binary_path),
            service_manager: self.service_manager,
            config_sha256: text::opt(self.config_sha256),
            last_restart_at: text::opt(self.last_restart_at),
            last_error: text::opt(self.last_error),
            health_check: opt_health(self.health_check),
            rollback: opt_rollback(self.rollback),
            updated_at: text::opt(self.updated_at),
        }
    }
}

/// An upgrade that is planned and not yet applied.
pub open spec fn planned(
    plan: PlanView,
    active_version: Option<Seq<char>>,
    active_binary_path: Option<Seq<char>>,
) -> UpgradeStatusView {
    UpgradeStatusView {
        phase: RuntimeUpgradePhase::Planned,
        active_version,
        active_binary_path,
        target_version: Some(plan.target_version),
        target_binary_path: Some(plan.target_binary_path),
        service_manager: plan.service_manager,
        config_sha256: plan.config_sha256,
        last_restart_at: None,
        last_error: None,
        health_check: plan.health_check,
        rollback: Some(plan.rollback),
        updated_at: Some(plan.created_at),
    }
}

impl RuntimeUpgradeStatus {
    pub fn from_plan(
        plan: &RuntimeUpgradePlan,
        active_version: Option<String>,
        active_binary_path: Option<String>,
    ) -> (r: RuntimeUpgradeStatus)
        ensures
            r@ == planned(plan@, text::opt(active_version), text::opt(active_binary_path)),
    {
        RuntimeUpgradeStatus {
            phase: RuntimeUpgradePhase::Planned,
            active_version,
            active_binary_path,
            target_version: Some(plan.target_version.clone()),
            target_binary_path: Some(plan.target_binary_path.clone()),
            service_manager: plan.service_manager,
            config_sha256: text::copy_opt(&plan.config_sha256),
            last_restart_at: None,
            last_error: None,
            health_check: copy_health(&plan.health_check),
            rollback: Some(plan.rollback.copy()),
            updated_at: Some(plan.created_at.clone()),
        }
    }

    pub fn copy(&self) -> (r: RuntimeUpgradeStatus)
        ensures
            r@ == self@,
    {
        RuntimeUpgradeStatus {
            phase: self.phase,
            active_version: text::copy_opt(&self.active_version),
            active_binary_path: text::copy_opt(&self.active_binary_path),
            target_version: text::copy_opt(&self.target_version),
            target_binary_path: text::copy_opt(&self.target_binary_path),
            service_manager: self.service_manager,
            config_sha256: text::copy_opt(&self.config_sha256),
            last_restart_at: text::copy_opt(&self.last_restart_at),
            last_error: text::copy_opt(&self.last_error),
            health_check: copy_health(&self.health_check),
            rollback: match &self.rollback {
                Some(x) => Some(x.copy()),
                None => None,
            },
            updated_at: text::copy_opt(&self.updated_at),
        }
    }
}

} // verus!
