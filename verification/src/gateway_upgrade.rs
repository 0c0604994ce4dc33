//! Upgrading the runtime of a gateway, with a checkpoint to go back to.
use vstd::prelude::*;

use crate::env_map::{self, EnvMap, Pair};
use crate::error::{self, CliError, ErrorView};
use crate::gateway_install::{
    self, build_supervised_env, populate_service_runtime_env, set_value, start_command,
    ResolvedSecrets, SecretsView,
};
use crate::gateway_service::{GatewayServiceInstallSpec, InstallSpecView, ServicePlatform};
use crate::instances::{
    EntryView, GatewayInstanceStatus, InstanceRecord, OperationAction, OperationHistoryEntry,
    OperationOutcome, SpecView, StatusView,
};
use crate::runtime_upgrade::{
    self, HealthView, PlanView, RollbackView, RuntimeRollbackRecord, RuntimeServiceManager,
    RuntimeUpgradeHealthCheck, RuntimeUpgradePhase, RuntimeUpgradePlan, RuntimeUpgradeStatus,
    UpgradeStatusView,
};
use crate::text;

verus! {

// ---------------------------------------------------------------------------
// Arguments
// ---------------------------------------------------------------------------

#[derive(Debug)]
pub struct GatewayUpgradeArgs {
    pub command: GatewayUpgradeCommand,
}

#[derive(Debug)]
pub enum GatewayUpgradeCommand {
    Plan(GatewayUpgradePlanArgs),
    Apply(GatewayUpgradeApplyArgs),
    Status(GatewayUpgradeStatusArgs),
    Rollback(GatewayUpgradeRollbackArgs),
}

#[derive(Clone, Copy, Debug, PartialEq, Eq, Structural)]
pub enum ServiceManagerArg {
    Manual,
    Launchd,
    SystemdUser,
}

pub open spec fn manager_of_arg(value: ServiceManagerArg) -> RuntimeServiceManager {
    match value {
        ServiceManagerArg::Manual => RuntimeServiceManager::Manual,
        ServiceManagerArg::Launchd => RuntimeServiceManager::Launchd,
        ServiceManagerArg::SystemdUser => RuntimeServiceManager::SystemdUser,
    }
}

impl From<ServiceManagerArg> for RuntimeServiceManager {
    fn from(value: ServiceManagerArg) -> (r: RuntimeServiceManager) {
        match value {
            ServiceManagerArg::Manual => RuntimeServiceManager::Manual,
            ServiceManagerArg::Launchd => RuntimeServiceManager::Launchd,
            ServiceManagerArg::SystemdUser => RuntimeServiceManager::SystemdUser,
        }
    }
}

impl vstd::std_specs::convert::FromSpecImpl<ServiceManagerArg> for RuntimeServiceManager {
    open spec fn obeys_from_spec() -> bool {
        true
    }

    open spec fn from_spec(value: ServiceManagerArg) -> RuntimeServiceManager {
        manager_of_arg(value)
    }
}

#[derive(Debug)]
pub struct GatewayUpgradePlanArgs {
    pub name: String,
    pub target_version: String,
    pub binary_path: String,
    pub config_sha256: Option<String>,
    pub health_command: Option<String>,
    pub health_timeout_secs: u64,
    pub rollback_version: Option<String>,
    pub rollback_binary_path: Option<String>,
    pub service_manager: Option<ServiceManagerArg>,
    pub state_dir: Option<String>,
    pub assume_yes: bool,
    pub json: bool,
}

#[derive(Debug)]
pub struct GatewayUpgradeApplyArgs {
    pub name: String,
    pub target_version: Option<String>,
    pub binary_path: Option<String>,
    pub config_sha256: Option<String>,
    pub health_command: Option<String>,
    pub health_timeout_secs: u64,
    pub rollback_version: Option<String>,
    pub rollback_binary_path: Option<String>,
    pub service_manager: Option<ServiceManagerArg>,
    pub state_dir: Option<String>,
    pub assume_yes: bool,
    pub json: bool,
}

#[derive(Debug)]
pub struct GatewayUpgradeStatusArgs {
    pub name: String,
    pub state_dir: Option<String>,
    pub json: bool,
}

#[derive(Debug)]
pub struct GatewayUpgradeRollbackArgs {
    pub name: String,
    pub state_dir: Option<String>,
    pub assume_yes: bool,
    pub json: bool,
}

/// What an upgrade was asked to do.
pub struct RequestView {
    pub target_version: Seq<char>,
    pub binary_path: Seq<char>,
    pub config_sha256: Option<Seq<char>>,
    pub health_command: Option<Seq<char>>,
    pub health_timeout_secs: u64,
    pub rollback_version: Option<Seq<char>>,
    pub rollback_binary_path: Option<Seq<char>>,
    pub service_manager: Option<ServiceManagerArg>,
}

impl View for GatewayUpgradePlanArgs {
    type V = RequestView;

    open spec fn view(&self) -> RequestView {
        RequestView {
            target_version: self.target_version@,
            binary_path: self.binary_path@,
            config_sha256: text::opt(self.config_sha256),
            health_command: text::opt(self.health_command),
            health_timeout_secs: self.health_timeout_secs,
            rollback_version: text::opt(self.rollback_version),
            rollback_binary_path: text::opt(self.rollback_binary_path),
            service_manager: self.service_manager,
        }
    }
}

/// What an upgrade was asked to do, with anything left out.
pub struct PartialRequestView {
    pub target_version: Option<Seq<char>>,
    pub binary_path: Option<Seq<char>>,
    pub config_sha256: Option<Seq<char>>,
    pub health_command: Option<Seq<char>>,
    pub health_timeout_secs: u64,
    pub rollback_version: Option<Seq<char>>,
    pub rollback_binary_path: Option<Seq<char>>,
    pub service_manager: Option<ServiceManagerArg>,
}

impl View for GatewayUpgradeApplyArgs {
    type V = PartialRequestView;

    open spec fn view(&self) -> PartialRequestView {
        PartialRequestView {
            target_version: text::opt(self.target_version),
            binary_path: text::opt(self.binary_path),
            config_sha256: text::opt(self.config_sha256),
            health_command: text::opt(self.health_command),
            health_timeout_secs: self.health_timeout_secs,
            rollback_version: text::opt(self.rollback_version),
            rollback_binary_path: text::opt(self.rollback_binary_path),
            service_manager: self.service_manager,
        }
    }
}

/// What the machine says. A binary is a file, something else, or not readable for
/// the reason that is given.
#[derive(Debug)]
pub struct UpgradeHost {
    pub target_binary: Result<bool, String>,
    pub rollback_binary: Result<bool, String>,
    pub installed: Result<bool, CliError>,
    pub platform: Result<ServicePlatform, CliError>,
    pub current_exe: Result<String, String>,
    pub current_dir: Option<String>,
}

pub struct HostView {
    pub target_binary: Result<bool, Seq<char>>,
    pub rollback_binary: Result<bool, Seq<char>>,
    pub installed: Result<bool, ErrorView>,
    pub platform: Result<ServicePlatform, ErrorView>,
    pub current_exe: Result<Seq<char>, Seq<char>>,
    pub current_dir: Option<Seq<char>>,
}

pub open spec fn probe_view(r: Result<bool, String>) -> Result<bool, Seq<char>> {
    match r {
        Ok(b) => Ok(b),
        Err(e) => Err(e@),
    }
}

pub open spec fn text_view(r: Result<String, String>) -> Result<Seq<char>, Seq<char>> {
    match r {
        Ok(s) => Ok(s@),
        Err(e) => Err(e@),
    }
}

pub open spec fn plain_view<T>(r: Result<T, CliError>) -> Result<T, ErrorView> {
    match r {
        Ok(x) => Ok(x),
        Err(e) => Err(e@),
    }
}

impl View for UpgradeHost {
    type V = HostView;

    open spec fn view(&self) -> HostView {
        HostView {
            target_binary: probe_view(self.target_binary),
            rollback_binary: probe_view(self.rollback_binary),
            installed: plain_view(self.installed),
            platform: plain_view(self.platform),
            current_exe: text_view(self.current_exe),
            current_dir: text::opt(self.current_dir),
        }
    }
}

// ---------------------------------------------------------------------------
// The plan
// ---------------------------------------------------------------------------

pub open spec fn valid_binary(path: Seq<char>, probe: Result<bool, Seq<char>>) -> Result<
    Seq<char>,
    ErrorView,
> {
    match probe {
        Ok(true) => Ok(path),
        Ok(false) => Err(
            error::user_error("runtime binary path "@ + path + " must point to a file"@),
        ),
        Err(e) => Err(
            error::user_error("runtime binary path "@ + path + " is not readable: "@ + e),
        ),
    }
}

/// The path of a runtime binary, if it is a file.
pub fn validate_binary_path(path: &str, probe: &Result<bool, String>) -> (r: Result<
    String,
    CliError,
>)
    ensures
        error::viewed(r) == valid_binary(path@, probe_view(*probe)),
{
    match probe {
        Ok(is_file) => if *is_file {
            Ok(path.to_string())
        } else {
            let mut message = "runtime binary path ".to_string();
            message.append(path);
            message.append(" must point to a file");
            Err(CliError::user(message))
        },
        Err(e) => {
            let mut message = "runtime binary path ".to_string();
            message.append(path);
            message.append(" is not readable: ");
            message.append(e.as_str());
            Err(CliError::user(message))
        },
    }
}

/// The version that runs now, as far as it is known.
pub open spec fn active_version(status: StatusView) -> Option<Seq<char>> {
    match status.runtime_upgrade_status {
        Some(upgrade) => text::first_of(upgrade.active_version, status.observed_config_version),
        None => status.observed_config_version,
    }
}

pub fn current_active_version(status: &GatewayInstanceStatus) -> (r: Option<String>)
    ensures
        text::opt(r) == active_version(status@),
{
    match &status.runtime_upgrade_status {
        Some(upgrade) => text::first_text(
            &upgrade.active_version,
            &status.observed_config_version,
        ),
        None => text::copy_opt(&status.observed_config_version),
    }
}

/// The binary that runs now: the one of the last upgrade, else this program.
pub open spec fn active_binary(status: StatusView, current_exe: Result<Seq<char>, Seq<char>>) -> Result<
    Seq<char>,
    ErrorView,
> {
    match (status.runtime_upgrade_status, current_exe) {
        (Some(upgrade), _) if upgrade.active_binary_path is Some => Ok(
            upgrade.active_binary_path->0,
        ),
        (_, Ok(exe)) => Ok(exe),
        (_, Err(e)) => Err(error::internal_error("failed to resolve current executable: "@ + e)),
    }
}

pub fn current_active_binary_path(
    status: &GatewayInstanceStatus,
    current_exe: &Result<String, String>,
) -> (r: Result<String, CliError>)
    ensures
        error::viewed(r) == active_binary(status@, text_view(*current_exe)),
{
    match &status.runtime_upgrade_status {
        Some(upgrade) => match &upgrade.active_binary_path {
            Some(path) => return Ok(path.clone()),
            None => {},
        },
        None => {},
    }
    match current_exe {
        Ok(exe) => Ok(exe.clone()),
        Err(e) => Err(
            CliError::internal(text::concat("failed to resolve current executable: ", e.as_str())),
        ),
    }
}

/// Who manages the service: the one asked for, else that of the platform where the
/// service is installed, else nobody.
pub open spec fn manager_for(requested: Option<ServiceManagerArg>, host: HostView) -> Result<
    RuntimeServiceManager,
    ErrorView,
> {
    match (requested, host.installed, host.platform) {
        (Some(manager), _, _) => Ok(manager_of_arg(manager)),
        (None, Err(e), _) => Err(e),
        (None, Ok(false), _) => Ok(RuntimeServiceManager::Manual),
        (None, Ok(true), Ok(platform)) => Ok(runtime_upgrade::manager_of(platform)),
        (None, Ok(true), Err(e)) => Err(e),
    }
}

pub fn infer_service_manager(requested: Option<ServiceManagerArg>, host: &UpgradeHost) -> (r: Result<
    RuntimeServiceManager,
    CliError,
>)
    ensures
        plain_view(r) == manager_for(requested, host@),
{
    match requested {
        Some(requested) => return Ok(RuntimeServiceManager::from(requested)),
        None => {},
    }
    match &host.installed {
        Err(e) => return Err(e.copy()),
        Ok(installed) => if !*installed {
            return Ok(RuntimeServiceManager::Manual);
        },
    }
    match &host.platform {
        Ok(platform) => Ok(RuntimeServiceManager::of_platform(*platform)),
        Err(e) => Err(e.copy()),
    }
}

/// The health check of a plan. Every check has at least a second.
pub open spec fn planned_check(
    command: Option<Seq<char>>,
    timeout_secs: u64,
    current_dir: Option<Seq<char>>,
) -> Option<HealthView> {
    match command {
        None => None,
        Some(command) => Some(
            HealthView {
                command: text::trim(command),
                timeout_secs: if timeout_secs == 0 {
                    1
                } else {
                    timeout_secs
                },
                working_directory: current_dir,
                last_exit_code: None,
                last_stdout_preview: None,
                last_stderr_preview: None,
                passed: None,
                checked_at: None,
            },
        ),
    }
}

fn plan_check(command: &Option<String>, timeout_secs: u64, current_dir: &Option<String>) -> (r:
    Option<RuntimeUpgradeHealthCheck>)
    ensures
        runtime_upgrade::opt_health(r) == planned_check(
            text::opt(*command),
            timeout_secs,
            text::opt(*current_dir),
        ),
{
    match command {
        None => None,
        Some(command) => Some(
            RuntimeUpgradeHealthCheck {
                command: text::trim_text(command.as_str()),
                timeout_secs: if timeout_secs == 0 {
                    1
                } else {
                    timeout_secs
                },
                working_directory: text::copy_opt(current_dir),
                last_exit_code: None,
                last_stdout_preview: None,
                last_stderr_preview: None,
                passed: None,
                checked_at: None,
            },
        ),
    }
}

pub open spec fn rollback_binary_of(
    status: StatusView,
    requested: Option<Seq<char>>,
    host: HostView,
) -> Result<Seq<char>, ErrorView> {
    match requested {
        Some(path) => valid_binary(path, host.rollback_binary),
        None => active_binary(status, host.current_exe),
    }
}

/// The plan of an upgrade. What runs now is its checkpoint, unless another one was
/// asked for.
pub open spec fn plan_of(
    status: StatusView,
    request: RequestView,
    host: HostView,
    now: Seq<char>,
) -> Result<PlanView, ErrorView> {
    match (
        valid_binary(request.binary_path, host.target_binary),
        manager_for(request.service_manager, host),
        rollback_binary_of(status, request.rollback_binary_path, host),
        text::first_of(request.rollback_version, active_version(status)),
    ) {
        (Err(e), _, _, _) => Err(e),
        (Ok(_), Err(e), _, _) => Err(e),
        (Ok(_), Ok(_), Err(e), _) => Err(e),
        (Ok(_), Ok(_), Ok(_), None) => Err(
            error::user_error("unable to infer rollback version; pass --rollback-version"@),
        ),
        (Ok(target_binary_path), Ok(service_manager), Ok(binary_path), Some(version)) => Ok(
            PlanView {
                target_version: request.target_version,
                target_binary_path,
                service_manager,
                config_sha256: text::first_of(
                    request.config_sha256,
                    status.observed_config_sha256,
                ),
                health_check: planned_check(
                    request.health_command,
                    request.health_timeout_secs,
                    host.current_dir,
                ),
                rollback: RollbackView {
                    version,
                    binary_path,
                    config_sha256: status.observed_config_sha256,
                    recorded_at: now,
                    reason: Some("pre-upgrade rollback checkpoint"@),
                },
                created_at: now,
            },
        ),
    }
}

pub fn build_plan_from_args(
    record: &InstanceRecord,
    args: &GatewayUpgradePlanArgs,
    host: &UpgradeHost,
    now: &str,
) -> (r: Result<RuntimeUpgradePlan, CliError>)
    ensures
        error::viewed(r) == plan_of(record.status@, args@, host@, now@),
{
    let target_binary_path = validate_binary_path(args.binary_path.as_str(), &host.target_binary)?;
    let service_manager = infer_service_manager(args.service_manager, host)?;
    let rollback_binary_path = match &args.rollback_binary_path {
        Some(path) => validate_binary_path(path.as_str(), &host.rollback_binary)?,
        None => current_active_binary_path(&record.status, &host.current_exe)?,
    };
    let active = current_active_version(&record.status);
    let rollback_version = match text::first_text(&args.rollback_version, &active) {
        Some(version) => version,
        None => return Err(
            CliError::user(
                "unable to infer rollback version; pass --rollback-version".to_string(),
            ),
        ),
    };
    Ok(
        RuntimeUpgradePlan {
            target_version: args.target_version.clone(),
            target_binary_path,
            service_manager,
            config_sha256: text::first_text(
                &args.config_sha256,
                &record.status.observed_config_sha256,
            ),
            health_check: plan_check(
                &args.health_command,
                args.health_timeout_secs,
                &host.current_dir,
            ),
            rollback: RuntimeRollbackRecord {
                version: rollback_version,
                binary_path: rollback_binary_path,
                config_sha256: text::copy_opt(&record.status.observed_config_sha256),
                recorded_at: now.to_string(),
                reason: Some("pre-upgrade rollback checkpoint".to_string()),
            },
            created_at: now.to_string(),
        },
    )
}

/// True when a request asks for nothing, so that the recorded plan is meant.
pub open spec fn asks_for_nothing(request: PartialRequestView) -> bool {
    &&& request.target_version is None
    &&& request.binary_path is None
    &&& request.config_sha256 is None
    &&& request.health_command is None
    &&& request.rollback_version is None
    &&& request.rollback_binary_path is None
    &&& request.service_manager is None
}

/// The plan to apply: the recorded one, or one made from the request.
pub open spec fn plan_to_apply(
    status: StatusView,
    request: PartialRequestView,
    host: HostView,
    now: Seq<char>,
) -> Result<PlanView, ErrorView> {
    if asks_for_nothing(request) {
        match status.runtime_upgrade_plan {
            Some(plan) => Ok(plan),
            None => Err(
                error::user_error(
                    "no runtime upgrade plan found; run `verdictan gateway upgrade plan` first"@,
                ),
            ),
        }
    } else {
        match (request.target_version, request.binary_path) {
            (None, _) => Err(error::user_error("--target-version is required"@)),
            (Some(_), None) => Err(error::user_error("--binary-path is required"@)),
            (Some(target_version), Some(binary_path)) => plan_of(
                status,
                RequestView {
                    target_version,
                    binary_path,
                    config_sha256: request.config_sha256,
                    health_command: request.health_command,
                    health_timeout_secs: request.health_timeout_secs,
                    rollback_version: request.rollback_version,
                    rollback_binary_path: request.rollback_binary_path,
                    service_manager: request.service_manager,
                },
                host,
                now,
            ),
        }
    }
}

pub fn build_plan_from_optional_args(
    record: &InstanceRecord,
    args: &GatewayUpgradeApplyArgs,
    host: &UpgradeHost,
    now: &str,
) -> (r: Result<RuntimeUpgradePlan, CliError>)
    ensures
        error::viewed(r) == plan_to_apply(record.status@, args@, host@, now@),
{
    if args.target_version.is_none() && args.binary_path.is_none() && args.config_sha256.is_none()
        && args.health_command.is_none() && args.rollback_version.is_none()
        && args.rollback_binary_path.is_none() && args.service_manager.is_none() {
        return match &record.status.runtime_upgrade_plan {
            Some(plan) => Ok(plan.copy()),
            None => Err(
                CliError::user(
                    "no runtime upgrade plan found; run `verdictan gateway upgrade plan` first".to_string(),
                ),
            ),
        };
    }
    let target_version = match &args.target_version {
        Some(version) => version.clone(),
        None => return Err(CliError::user("--target-version is required".to_string())),
    };
    let binary_path = match &args.binary_path {
        Some(path) => path.clone(),
        None => return Err(CliError::user("--binary-path is required".to_string())),
    };
    let full = GatewayUpgradePlanArgs {
        name: args.name.clone(),
        target_version,
        binary_path,
        config_sha256: text::copy_opt(&args.config_sha256),
        health_command: text::copy_opt(&args.health_command),
        health_timeout_secs: args.health_timeout_secs,
        rollback_version: text::copy_opt(&args.rollback_version),
        rollback_binary_path: text::copy_opt(&args.rollback_binary_path),
        service_manager: args.service_manager,
        state_dir: None,
        assume_yes: args.assume_yes,
        json: args.json,
    };
    build_plan_from_args(record, &full, host, now)
}

// ---------------------------------------------------------------------------
// The course of an upgrade
// ---------------------------------------------------------------------------

/// The entry of a step of an upgrade.
pub open spec fn upgrade_entry(
    action: OperationAction,
    outcome: OperationOutcome,
    reason: Seq<char>,
    previous: StatusView,
    target_version: Seq<char>,
    upgrade: UpgradeStatusView,
    now: Seq<char>,
) -> EntryView {
    EntryView {
        action,
        outcome,
        reason: Some(reason),
        previous_version: active_version(previous),
        previous_sha256: previous.observed_config_sha256,
        target_version: Some(target_version),
        target_sha256: upgrade.config_sha256,
        active_version: upgrade.active_version,
        active_sha256: previous.observed_config_sha256,
        recorded_at: now,
    }
}

pub fn upgrade_history_entry(
    action: OperationAction,
    outcome: OperationOutcome,
    reason: &str,
    previous: &GatewayInstanceStatus,
    target_version: &str,
    upgrade: &RuntimeUpgradeStatus,
    now: &str,
) -> (r: OperationHistoryEntry)
    ensures
        r@ == upgrade_entry(
            action,
            outcome,
            reason@,
            previous@,
            target_version@,
            upgrade@,
            now@,
        ),
{
    OperationHistoryEntry {
        action,
        outcome,
        reason: Some(reason.to_string()),
        previous_version: current_active_version(previous),
        previous_sha256: text::copy_opt(&previous.observed_config_sha256),
        target_version: Some(target_version.to_string()),
        target_sha256: text::copy_opt(&upgrade.config_sha256),
        active_version: text::copy_opt(&upgrade.active_version),
        active_sha256: text::copy_opt(&previous.observed_config_sha256),
        recorded_at: now.to_string(),
    }
}

/// What is kept of a step of an upgrade.
#[derive(Debug)]
pub struct UpgradeRecord {
    pub status: GatewayInstanceStatus,
    pub entry: OperationHistoryEntry,
}

pub struct UpgradeRecordView {
    pub status: StatusView,
    pub entry: EntryView,
}

impl View for UpgradeRecord {
    type V = UpgradeRecordView;

    open spec fn view(&self) -> UpgradeRecordView {
        UpgradeRecordView { status: self.status@, entry: self.entry@ }
    }
}

pub open spec fn plan_recorded(
    status: StatusView,
    plan: PlanView,
    current_exe: Result<Seq<char>, Seq<char>>,
    now: Seq<char>,
) -> Result<UpgradeRecordView, ErrorView> {
    match active_binary(status, current_exe) {
        Err(e) => Err(e),
        Ok(binary) => {
            let upgrade = runtime_upgrade::planned(plan, active_version(status), Some(binary));
            Ok(
                UpgradeRecordView {
                    status: StatusView {
                        runtime_upgrade_plan: Some(plan),
                        runtime_upgrade_status: Some(upgrade),
                        updated_at: now,
                        ..status
                    },
                    entry: upgrade_entry(
                        OperationAction::UpgradePlan,
                        OperationOutcome::Succeeded,
                        "runtime upgrade plan recorded"@,
                        status,
                        plan.target_version,
                        upgrade,
                        now,
                    ),
                },
            )
        },
    }
}

/// Records a plan.
pub fn record_plan(
    status: &GatewayInstanceStatus,
    plan: &RuntimeUpgradePlan,
    current_exe: &Result<String, String>,
    now: &str,
) -> (r: Result<UpgradeRecord, CliError>)
    ensures
        error::viewed(r) == plan_recorded(status@, plan@, text_view(*current_exe), now@),
{
    let binary = current_active_binary_path(status, current_exe)?;
    let upgrade = RuntimeUpgradeStatus::from_plan(
        plan,
        current_active_version(status),
        Some(binary),
    );
    let entry = upgrade_history_entry(
        OperationAction::UpgradePlan,
        OperationOutcome::Succeeded,
        "runtime upgrade plan recorded",
        status,
        plan.target_version.as_str(),
        &upgrade,
        now,
    );
    let mut next = status.copy();
    next.runtime_upgrade_plan = Some(plan.copy());
    next.runtime_upgrade_status = Some(upgrade);
    next.updated_at = now.to_string();
    Ok(UpgradeRecord { status: next, entry })
}

pub open spec fn apply_begun(
    status: StatusView,
    plan: PlanView,
    current_exe: Result<Seq<char>, Seq<char>>,
    now: Seq<char>,
) -> Result<StatusView, ErrorView> {
    match active_binary(status, current_exe) {
        Err(e) => Err(e),
        Ok(binary) => Ok(
            StatusView {
                runtime_upgrade_plan: Some(plan),
                runtime_upgrade_status: Some(
                    UpgradeStatusView {
                        phase: RuntimeUpgradePhase::Applying,
                        updated_at: Some(now),
                        ..runtime_upgrade::planned(plan, active_version(status), Some(binary))
                    },
                ),
                last_error: None,
                updated_at: now,
                ..status
            },
        ),
    }
}

/// The status while an upgrade is applied.
pub fn begin_apply(
    status: &GatewayInstanceStatus,
    plan: &RuntimeUpgradePlan,
    current_exe: &Result<String, String>,
    now: &str,
) -> (r: Result<GatewayInstanceStatus, CliError>)
    ensures
        error::viewed(r) == apply_begun(status@, plan@, text_view(*current_exe), now@),
{
    let binary = current_active_binary_path(status, current_exe)?;
    let mut upgrade = RuntimeUpgradeStatus::from_plan(
        plan,
        current_active_version(status),
        Some(binary),
    );
    upgrade.phase = RuntimeUpgradePhase::Applying;
    upgrade.updated_at = Some(now.to_string());
    let mut next = status.copy();
    next.runtime_upgrade_plan = Some(plan.copy());
    next.runtime_upgrade_status = Some(upgrade);
    next.last_error = None;
    next.updated_at = now.to_string();
    Ok(next)
}

/// A service is installed anew for an upgrade if it is installed and the plan leaves
/// it to a service manager.
pub fn upgrade_reinstalls_service(plan: &RuntimeUpgradePlan, installed: bool) -> (r: bool)
    ensures
        r == (plan@.service_manager != RuntimeServiceManager::Manual && installed),
{
    plan.service_manager != RuntimeServiceManager::Manual && installed
}

pub const HEALTH_CHECK_FAILED: &'static str = "runtime upgrade health check failed";

/// True unless there was a check that did not pass.
pub open spec fn healthy(check: Option<HealthView>) -> bool {
    match check {
        Some(c) => c.passed == Some(true),
        None => true,
    }
}

/// What is known of the upgrade once the new runtime was started: whether it passed
/// or not, the plan and its checkpoint stay on record.
pub open spec fn applied(
    before: Option<UpgradeStatusView>,
    plan: PlanView,
    check: Option<HealthView>,
    now: Seq<char>,
) -> UpgradeStatusView {
    let base = match before {
        Some(upgrade) => upgrade,
        None => runtime_upgrade::planned(plan, None, None),
    };
    let restarted = UpgradeStatusView {
        target_version: Some(plan.target_version),
        target_binary_path: Some(plan.target_binary_path),
        config_sha256: plan.config_sha256,
        service_manager: plan.service_manager,
        health_check: check,
        rollback: Some(plan.rollback),
        last_restart_at: Some(now),
        updated_at: Some(now),
        ..base
    };
    if healthy(check) {
        UpgradeStatusView {
            phase: RuntimeUpgradePhase::Succeeded,
            active_version: Some(plan.target_version),
            active_binary_path: Some(plan.target_binary_path),
            last_error: None,
            ..restarted
        }
    } else {
        UpgradeStatusView {
            phase: RuntimeUpgradePhase::Failed,
            last_error: Some(HEALTH_CHECK_FAILED@),
            ..restarted
        }
    }
}

pub open spec fn apply_finished(
    status: StatusView,
    plan: PlanView,
    check: Option<HealthView>,
    now: Seq<char>,
) -> UpgradeRecordView {
    let upgrade = applied(status.runtime_upgrade_status, plan, check, now);
    UpgradeRecordView {
        status: StatusView {
            last_error: if healthy(check) {
                None
            } else {
                Some(HEALTH_CHECK_FAILED@)
            },
            runtime_upgrade_plan: Some(plan),
            runtime_upgrade_status: Some(upgrade),
            last_healthcheck_at: Some(now),
            last_observed_healthy: Some(healthy(check)),
            updated_at: now,
            ..status
        },
        entry: upgrade_entry(
            OperationAction::UpgradeApply,
            if healthy(check) {
                OperationOutcome::Succeeded
            } else {
                OperationOutcome::Failed
            },
            if healthy(check) {
                "runtime upgrade applied"@
            } else {
                HEALTH_CHECK_FAILED@
            },
            status,
            plan.target_version,
            upgrade,
            now,
        ),
    }
}

/// Records what came of an upgrade. The error is what the operator is told of a
/// health check that did not pass.
pub fn finish_apply(
    status: &GatewayInstanceStatus,
    plan: &RuntimeUpgradePlan,
    check: Option<RuntimeUpgradeHealthCheck>,
    now: &str,
) -> (r: (UpgradeRecord, Result<(), CliError>))
    ensures
        r.0@ == apply_finished(status@, plan@, runtime_upgrade::opt_health(check), now@),
        error::done(r.1) == (if healthy(runtime_upgrade::opt_health(check)) {
            Ok(())
        } else {
            Err(error::user_error(HEALTH_CHECK_FAILED@))
        }),
{
    let passed = match &check {
        Some(check) => match check.passed {
            Some(passed) => passed,
            None => false,
        },
        None => true,
    };
    let mut upgrade = match &status.runtime_upgrade_status {
        Some(upgrade) => upgrade.copy(),
        None => RuntimeUpgradeStatus::from_plan(plan, None, None),
    };
    upgrade.target_version = Some(plan.target_version.clone());
    upgrade.target_binary_path = Some(plan.target_binary_path.clone());
    upgrade.config_sha256 = text::copy_opt(&plan.config_sha256);
    upgrade.service_manager = plan.service_manager;
    upgrade.health_check = check;
    upgrade.rollback = Some(plan.rollback.copy());
    upgrade.last_restart_at = Some(now.to_string());
    upgrade.updated_at = Some(now.to_string());
    let mut next = status.copy();
    if passed {
        upgrade.phase = RuntimeUpgradePhase::Succeeded;
        upgrade.active_version = Some(plan.target_version.clone());
        upgrade.active_binary_path = Some(plan.target_binary_path.clone());
        upgrade.last_error = None;
        next.last_error = None;
    } else {
        upgrade.phase = RuntimeUpgradePhase::Failed;
        upgrade.last_error = Some(HEALTH_CHECK_FAILED.to_string());
        next.last_error = Some(HEALTH_CHECK_FAILED.to_string());
    }
    let entry = upgrade_history_entry(
        OperationAction::UpgradeApply,
        if passed {
            OperationOutcome::Succeeded
        } else {
            OperationOutcome::Failed
        },
        if passed {
            "runtime upgrade applied"
        } else {
            HEALTH_CHECK_FAILED
        },
        status,
        plan.target_version.as_str(),
        &upgrade,
        now,
    );
    next.runtime_upgrade_plan = Some(plan.copy());
    next.runtime_upgrade_status = Some(upgrade);
    next.last_healthcheck_at = Some(now.to_string());
    next.last_observed_healthy = Some(passed);
    next.updated_at = now.to_string();
    let report: Result<(), CliError> = if passed {
        Ok(())
    } else {
        Err(CliError::user(HEALTH_CHECK_FAILED.to_string()))
    };
    (UpgradeRecord { status: next, entry }, report)
}

/// The checkpoint to go back to.
pub open spec fn checkpoint(status: StatusView) -> Result<RollbackView, ErrorView> {
    match (status.runtime_upgrade_status, status.runtime_upgrade_plan) {
        (Some(upgrade), _) if upgrade.rollback is Some => Ok(upgrade.rollback->0),
        (_, Some(plan)) => Ok(plan.rollback),
        _ => Err(error::user_error("instance has no runtime rollback checkpoint"@)),
    }
}

pub fn rollback_record(status: &GatewayInstanceStatus) -> (r: Result<
    RuntimeRollbackRecord,
    CliError,
>)
    ensures
        error::viewed(r) == checkpoint(status@),
{
    match &status.runtime_upgrade_status {
        Some(upgrade) => match &upgrade.rollback {
            Some(rollback) => return Ok(rollback.copy()),
            None => {},
        },
        None => {},
    }
    match &status.runtime_upgrade_plan {
        Some(plan) => Ok(plan.rollback.copy()),
        None => Err(CliError::user("instance has no runtime rollback checkpoint".to_string())),
    }
}

/// What is known of the upgrade once the old runtime was started again.
pub open spec fn rolled_back(
    before: Option<UpgradeStatusView>,
    rollback: RollbackView,
    manager: RuntimeServiceManager,
    now: Seq<char>,
) -> UpgradeStatusView {
    UpgradeStatusView {
        phase: RuntimeUpgradePhase::RolledBack,
        active_version: Some(rollback.version),
        active_binary_path: Some(rollback.binary_path),
        target_version: None,
        target_binary_path: None,
        service_manager: match before {
            Some(upgrade) => upgrade.service_manager,
            None => manager,
        },
        config_sha256: match before {
            Some(upgrade) => upgrade.config_sha256,
            None => None,
        },
        last_restart_at: Some(now),
        last_error: None,
        health_check: match before {
            Some(upgrade) => upgrade.health_check,
            None => None,
        },
        rollback: Some(rollback),
        updated_at: Some(now),
    }
}

pub open spec fn rollback_finished(
    status: StatusView,
    rollback: RollbackView,
    manager: RuntimeServiceManager,
    now: Seq<char>,
) -> UpgradeRecordView {
    let upgrade = rolled_back(status.runtime_upgrade_status, rollback, manager, now);
    UpgradeRecordView {
        status: StatusView {
            runtime_upgrade_plan: None,
            runtime_upgrade_status: Some(upgrade),
            last_error: None,
            last_healthcheck_at: Some(now),
            last_observed_healthy: Some(true),
            updated_at: now,
            ..status
        },
        entry: upgrade_entry(
            OperationAction::UpgradeRollback,
            OperationOutcome::RolledBack,
            "runtime rollback applied"@,
            status,
            rollback.version,
            upgrade,
            now,
        ),
    }
}

/// Records a rollback. `manager` is the service manager of an instance that was never
/// upgraded.
pub fn finish_rollback(
    status: &GatewayInstanceStatus,
    rollback: &RuntimeRollbackRecord,
    manager: RuntimeServiceManager,
    now: &str,
) -> (r: UpgradeRecord)
    ensures
        r@ == rollback_finished(status@, rollback@, manager, now@),
{
    let mut upgrade = match &status.runtime_upgrade_status {
        Some(upgrade) => upgrade.copy(),
        None => RuntimeUpgradeStatus {
            phase: RuntimeUpgradePhase::RolledBack,
            active_version: None,
            active_binary_path: None,
            target_version: None,
            target_binary_path: None,
            service_manager: manager,
            config_sha256: None,
            last_restart_at: None,
            last_error: None,
            health_check: None,
            rollback: None,
            updated_at: None,
        },
    };
    upgrade.phase = RuntimeUpgradePhase::RolledBack;
    upgrade.active_version = Some(rollback.version.clone());
    upgrade.active_binary_path = Some(rollback.binary_path.clone());
    upgrade.target_version = None;
    upgrade.target_binary_path = None;
    upgrade.last_restart_at = Some(now.to_string());
    upgrade.last_error = None;
    upgrade.rollback = Some(rollback.copy());
    upgrade.updated_at = Some(now.to_string());
    let entry = upgrade_history_entry(
        OperationAction::UpgradeRollback,
        OperationOutcome::RolledBack,
        "runtime rollback applied",
        status,
        rollback.version.as_str(),
        &upgrade,
        now,
    );
    let mut next = status.copy();
    next.runtime_upgrade_plan = None;
    next.runtime_upgrade_status = Some(upgrade);
    next.last_error = None;
    next.last_healthcheck_at = Some(now.to_string());
    next.last_observed_healthy = Some(true);
    next.updated_at = now.to_string();
    UpgradeRecord { status: next, entry }
}

// ---------------------------------------------------------------------------
// The health check
// ---------------------------------------------------------------------------

/// The most bytes of an output that are kept.
pub const PREVIEW_BYTES: usize = 240;

/// True where a text can be cut for a preview: it is short, or a character starts
/// where it is cut.
pub open spec fn previewable(output: Seq<char>) -> bool {
    text::byte_len(output) > PREVIEW_BYTES ==> vstd::utf8::is_char_boundary(
        vstd::utf8::encode_utf8(output),
        PREVIEW_BYTES as int,
    )
}

/// The start of an output; nothing of an empty one.
pub open spec fn preview_of(output: Seq<char>) -> Option<Seq<char>> {
    if output.len() == 0 {
        None
    } else if text::byte_len(output) > PREVIEW_BYTES {
        Some(
            vstd::utf8::decode_utf8(
                vstd::utf8::encode_utf8(output).subrange(0, PREVIEW_BYTES as int),
            ) + "..."@,
        )
    } else {
        Some(output)
    }
}

/// The start of an output, trimmed.
pub fn preview_text(output: &str) -> (r: Option<String>)
    requires
        previewable(text::trim(output@)),
    ensures
        text::opt(r) == preview_of(text::trim(output@)),
{
    let trimmed = text::trim_text(output);
    if trimmed.as_str().is_empty() {
        return None;
    }
    if text::byte_len_text(trimmed.as_str()) > PREVIEW_BYTES {
        let (head, _) = trimmed.as_str().split_at(PREVIEW_BYTES);
        proof {
            vstd::utf8::encode_utf8_decode_utf8(head@);
        }
        return Some(text::concat(head, "..."));
    }
    Some(trimmed)
}

/// The start of an output, read as text and trimmed.
pub fn preview_bytes(bytes: &[u8]) -> (r: Option<String>)
    requires
        previewable(text::trim(text::lossy_utf8(bytes@))),
    ensures
        text::opt(r) == preview_of(text::trim(text::lossy_utf8(bytes@))),
{
    let output = text::from_utf8_lossy(bytes);
    preview_text(output.as_str())
}

/// The start of an output, or nothing at all where it cannot be cut.
pub fn try_preview_bytes(bytes: &[u8]) -> (r: Option<Option<String>>)
    ensures
        match r {
            Some(preview) => previewable(text::trim(text::lossy_utf8(bytes@))) && text::opt(preview)
                == preview_of(text::trim(text::lossy_utf8(bytes@))),
            None => !previewable(text::trim(text::lossy_utf8(bytes@))),
        },
{
    let output = text::from_utf8_lossy(bytes);
    let trimmed = text::trim_text(output.as_str());
    let whole = text::byte_len_text(trimmed.as_str()) <= PREVIEW_BYTES;
    if whole || trimmed.as_str().is_char_boundary(PREVIEW_BYTES) {
        Some(preview_bytes(bytes))
    } else {
        None
    }
}

/// How a health check ended.
#[derive(Debug)]
pub enum CheckRun {
    /// The command ended with a code, if it was not killed, with success or not, and
    /// with these starts of its outputs.
    Ended(Option<i32>, bool, Option<String>, Option<String>),
    /// The command could not be run.
    NotRun(String),
    TimedOut,
}

pub enum CheckRunView {
    Ended(Option<i32>, bool, Option<Seq<char>>, Option<Seq<char>>),
    NotRun(Seq<char>),
    TimedOut,
}

impl View for CheckRun {
    type V = CheckRunView;

    open spec fn view(&self) -> CheckRunView {
        match self {
            CheckRun::Ended(code, success, stdout, stderr) => CheckRunView::Ended(
                *code,
                *success,
                text::opt(*stdout),
                text::opt(*stderr),
            ),
            CheckRun::NotRun(e) => CheckRunView::NotRun(e@),
            CheckRun::TimedOut => CheckRunView::TimedOut,
        }
    }
}

/// How a check ended whose command printed these bytes; nothing where one of the
/// outputs cannot be cut.
pub fn ended_check(code: Option<i32>, success: bool, stdout: &[u8], stderr: &[u8]) -> (r: Option<
    CheckRun,
>)
    ensures
        match r {
            Some(run) => previewable(text::trim(text::lossy_utf8(stdout@))) && previewable(
                text::trim(text::lossy_utf8(stderr@)),
            ) && run@ == CheckRunView::Ended(
                code,
                success,
                preview_of(text::trim(text::lossy_utf8(stdout@))),
                preview_of(text::trim(text::lossy_utf8(stderr@))),
            ),
            None => !previewable(text::trim(text::lossy_utf8(stdout@))) || !previewable(
                text::trim(text::lossy_utf8(stderr@)),
            ),
        },
{
    match (try_preview_bytes(stdout), try_preview_bytes(stderr)) {
        (Some(out), Some(err)) => Some(CheckRun::Ended(code, success, out, err)),
        _ => None,
    }
}

/// The check with what its command said.
pub open spec fn checked(check: HealthView, run: CheckRunView, now: Seq<char>) -> Result<
    HealthView,
    ErrorView,
> {
    match run {
        CheckRunView::Ended(code, success, stdout, stderr) => Ok(
            HealthView {
                last_exit_code: code,
                last_stdout_preview: stdout,
                last_stderr_preview: stderr,
                passed: Some(success),
                checked_at: Some(now),
                ..check
            },
        ),
        CheckRunView::NotRun(e) => Err(
            error::internal_error("failed to run upgrade health check: "@ + e),
        ),
        CheckRunView::TimedOut => Ok(
            HealthView {
                last_exit_code: None,
                last_stdout_preview: None,
                last_stderr_preview: Some("health check timed out"@),
                passed: Some(false),
                checked_at: Some(now),
                ..check
            },
        ),
    }
}

/// Records how a health check ended.
pub fn run_health_check(check: &RuntimeUpgradeHealthCheck, run: CheckRun, now: &str) -> (r: Result<
    RuntimeUpgradeHealthCheck,
    CliError,
>)
    ensures
        error::viewed(r) == checked(check@, run@, now@),
{
    let mut next = check.copy();
    match run {
        CheckRun::Ended(code, success, stdout, stderr) => {
            next.last_exit_code = code;
            next.last_stdout_preview = stdout;
            next.last_stderr_preview = stderr;
            next.passed = Some(success);
        },
        CheckRun::NotRun(e) => return Err(
            CliError::internal(text::concat("failed to run upgrade health check: ", e.as_str())),
        ),
        CheckRun::TimedOut => {
            next.last_exit_code = None;
            next.last_stdout_preview = None;
            next.last_stderr_preview = Some("health check timed out".to_string());
            next.passed = Some(false);
        },
    }
    next.checked_at = Some(now.to_string());
    Ok(next)
}

/// How long a health check may take.
pub fn health_check_seconds(check: &RuntimeUpgradeHealthCheck) -> (r: u64)
    ensures
        r == (if check@.timeout_secs == 0 {
            1
        } else {
            check@.timeout_secs
        }),
{
    if check.timeout_secs == 0 {
        1
    } else {
        check.timeout_secs
    }
}

// ---------------------------------------------------------------------------
// The service of the new runtime
// ---------------------------------------------------------------------------

/// The environment of the service: what the instance says comes first, then what the
/// process has.
pub open spec fn service_env(
    spec: SpecView,
    secrets: SecretsView,
    process: Seq<Pair>,
    default_api_url: Seq<char>,
) -> Seq<Pair> {
    let env = gateway_install::with_runtime_env(
        gateway_install::with_value(
            gateway_install::with_value(
                gateway_install::supervised_env(spec, secrets),
                "VERDICTAN_UPSTREAM_API_KEY_HEADER"@,
                spec.upstream_api_key_header,
            ),
            "VERDICTAN_UPSTREAM_API_KEY_PREFIX"@,
            spec.upstream_api_key_prefix,
        ),
        process,
        default_api_url,
    );
    if env_map::lookup(process, "VERDICTAN_AGENT_ID"@) is Some {
        env
    } else {
        gateway_install::with_value(
            env,
            "VERDICTAN_AGENT_NAME"@,
            text::filled(env_map::lookup(process, "VERDICTAN_AGENT_NAME"@)),
        )
    }
}

pub open spec fn service_spec_of(
    spec: SpecView,
    secrets: SecretsView,
    state_dir: Seq<char>,
    binary_path: Seq<char>,
    process: Seq<Pair>,
    default_api_url: Seq<char>,
) -> InstallSpecView {
    InstallSpecView {
        name: spec.name,
        listen: spec.listen_addr,
        upstream: Some(spec.upstream_base_url),
        policy_configs: spec.policy_paths,
        fail_mode: spec.fail_mode,
        max_concurrency: Some(spec.max_concurrency),
        connected_mode: true,
        api_token: env_map::lookup(process, "VERDICTAN_API_TOKEN"@),
        agent_id: text::filled(env_map::lookup(process, "VERDICTAN_AGENT_ID"@)),
        env: service_env(spec, secrets, process, default_api_url),
        command_override: Some(gateway_install::start_command_of(spec.instance_id, state_dir)),
        binary_path_override: Some(binary_path),
    }
}

/// The service that starts the instance with another binary.
pub fn build_service_spec(
    record: &InstanceRecord,
    secrets: &ResolvedSecrets,
    state_dir: &str,
    binary_path: &str,
    process: &EnvMap,
    default_api_url: &str,
) -> (r: GatewayServiceInstallSpec)
    ensures
        r@ == service_spec_of(
            record.spec@,
            secrets@,
            state_dir@,
            binary_path@,
            process@,
            default_api_url@,
        ),
{
    let mut env = build_supervised_env(&record.spec, secrets);
    set_value(
        &mut env,
        "VERDICTAN_UPSTREAM_API_KEY_HEADER",
        text::borrow_opt(&record.spec.upstream_api_key_header),
    );
    set_value(
        &mut env,
        "VERDICTAN_UPSTREAM_API_KEY_PREFIX",
        text::borrow_opt(&record.spec.upstream_api_key_prefix),
    );
    populate_service_runtime_env(&mut env, process, default_api_url);
    if !process.contains_key("VERDICTAN_AGENT_ID") {
        let name = text::filled_text(process.get("VERDICTAN_AGENT_NAME"));
        set_value(&mut env, "VERDICTAN_AGENT_NAME", text::borrow_opt(&name));
    }
    GatewayServiceInstallSpec {
        name: record.spec.name.clone(),
        listen: record.spec.listen_addr.clone(),
        upstream: Some(record.spec.upstream_base_url.clone()),
        policy_configs: text::copy_texts(&record.spec.policy_paths),
        fail_mode: record.spec.fail_mode.clone(),
        max_concurrency: Some(record.spec.max_concurrency),
        connected_mode: true,
        api_token: text::own_opt(process.get("VERDICTAN_API_TOKEN")),
        agent_id: text::filled_text(process.get("VERDICTAN_AGENT_ID")),
        env,
        command_override: Some(start_command(record.spec.instance_id.as_str(), state_dir)),
        binary_path_override: Some(binary_path.to_string()),
    }
}

// ---------------------------------------------------------------------------
// The report
// ---------------------------------------------------------------------------

pub fn runtime_phase_label(phase: RuntimeUpgradePhase) -> (r: &'static str)
    ensures
        r@ == runtime_upgrade::phase_word(phase),
{
    phase.as_str()
}

pub open spec fn plan_lines(plan: Option<PlanView>) -> Seq<Seq<char>> {
    match plan {
        None => Seq::empty(),
        Some(plan) => seq![
            "plan: target="@ + plan.target_version + " binary="@ + plan.target_binary_path
                + " service_manager="@ + runtime_upgrade::manager_word(plan.service_manager),
        ],
    }
}

pub open spec fn status_lines(status: Option<UpgradeStatusView>) -> Seq<Seq<char>> {
    match status {
        None => Seq::empty(),
        Some(status) => seq!["phase: "@ + runtime_upgrade::phase_word(status.phase)]
            + text::labelled("active version: "@, status.active_version) + text::labelled(
            "active binary: "@,
            status.active_binary_path,
        ) + text::labelled("target version: "@, status.target_version) + text::labelled(
            "target binary: "@,
            status.target_binary_path,
        ) + text::labelled("last restart at: "@, status.last_restart_at) + text::labelled(
            "last error: "@,
            status.last_error,
        ),
    }
}

pub open spec fn report_of(
    label: Seq<char>,
    instance_id: Seq<char>,
    plan: Option<PlanView>,
    status: Option<UpgradeStatusView>,
) -> Seq<Seq<char>> {
    seq![label + ": "@ + instance_id] + plan_lines(plan) + status_lines(status)
}

fn push_status(lines: &mut Vec<String>, status: &RuntimeUpgradeStatus)
    ensures
        text::texts(final(lines)@) == text::texts(old(lines)@) + status_lines(Some(status@)),
{
    let ghost start = text::texts(lines@);
    text::push_line(lines, text::concat("phase: ", runtime_phase_label(status.phase)));
    text::push_labelled(lines, "active version: ", text::borrow_opt(&status.active_version));
    text::push_labelled(lines, "active binary: ", text::borrow_opt(&status.active_binary_path));
    text::push_labelled(lines, "target version: ", text::borrow_opt(&status.target_version));
    text::push_labelled(lines, "target binary: ", text::borrow_opt(&status.target_binary_path));
    text::push_labelled(lines, "last restart at: ", text::borrow_opt(&status.last_restart_at));
    text::push_labelled(lines, "last error: ", text::borrow_opt(&status.last_error));
    assert(text::texts(lines@) =~= start + status_lines(Some(status@)));
}

/// What the operator reads of an upgrade.
pub fn upgrade_report(
    label: &str,
    instance_id: &str,
    plan: &Option<RuntimeUpgradePlan>,
    status: &Option<RuntimeUpgradeStatus>,
) -> (r: Vec<String>)
    ensures
        text::texts(r@) == report_of(
            label@,
            instance_id@,
            crate::instances::opt_plan(*plan),
            crate::instances::opt_upgrade(*status),
        ),
{
    let mut title = label.to_string();
    title.append(": ");
    title.append(instance_id);
    let mut lines: Vec<String> = vec![title];
    let ghost head = text::texts(lines@);
    assert(head =~= seq![label@ + ": "@ + instance_id@]);
    match plan {
        Some(plan) => {
            let mut line = "plan: target=".to_string();
            line.append(plan.target_version.as_str());
            line.append(" binary=");
            line.append(plan.target_binary_path.as_str());
            line.append(" service_manager=");
            line.append(plan.service_manager.as_str());
            text::push_line(&mut lines, line);
        },
        None => {
            assert(head + plan_lines(None) =~= head);
        },
    }
    let ghost top = text::texts(lines@);
    match status {
        Some(status) => push_status(&mut lines, status),
        None => {
            assert(top + status_lines(None) =~= top);
        },
    }
    lines
}

// ---------------------------------------------------------------------------
// Laws
// ---------------------------------------------------------------------------

/// A plan that names no checkpoint of its own takes what runs now as its checkpoint.
pub proof fn plan_checkpoints_what_runs(
    status: StatusView,
    request: RequestView,
    host: HostView,
    now: Seq<char>,
    plan: PlanView,
)
    requires
        plan_of(status, request, host, now) == Ok::<PlanView, ErrorView>(plan),
        request.rollback_version is None,
        request.rollback_binary_path is None,
    ensures
        Some(plan.rollback.version) == active_version(status),
        active_binary(status, host.current_exe) == Ok::<Seq<char>, ErrorView>(
            plan.rollback.binary_path,
        ),
        plan.rollback.config_sha256 == status.observed_config_sha256,
{
}

/// An upgrade can always be taken back: whatever its health check said, the checkpoint
/// of the plan is on record, and going back to it makes it the active runtime and
/// clears the plan.
pub proof fn rollback_undoes_an_upgrade(
    status: StatusView,
    plan: PlanView,
    check: Option<HealthView>,
    manager: RuntimeServiceManager,
    applied_at: Seq<char>,
    now: Seq<char>,
)
    ensures
        ({
            let after = apply_finished(status, plan, check, applied_at).status;
            let back = rollback_finished(after, plan.rollback, manager, now).status;
            &&& checkpoint(after) == Ok::<RollbackView, ErrorView>(plan.rollback)
            &&& active_version(back) == Some(plan.rollback.version)
            &&& active_binary(back, Err(Seq::empty())) == Ok::<Seq<char>, ErrorView>(
                plan.rollback.binary_path,
            )
            &&& back.runtime_upgrade_plan is None
            &&& back.last_error is None
            &&& checkpoint(back) == Ok::<RollbackView, ErrorView>(plan.rollback)
            &&& back.observed_config_version == status.observed_config_version
            &&& back.rollback_target_yaml == status.rollback_target_yaml
        }),
{
}

/// An upgrade whose health check did not pass does not count as active: what was
/// active stays so, and the failure is on record in the status and in the history.
pub proof fn failed_upgrade_keeps_the_active_runtime(
    status: StatusView,
    plan: PlanView,
    check: Option<HealthView>,
    now: Seq<char>,
    upgrade: UpgradeStatusView,
)
    requires
        status.runtime_upgrade_status == Some(upgrade),
        !healthy(check),
    ensures
        ({
            let after = apply_finished(status, plan, check, now);
            &&& after.status.runtime_upgrade_status matches Some(u) && u.active_version
                == upgrade.active_version && u.active_binary_path == upgrade.active_binary_path
                && u.phase == RuntimeUpgradePhase::Failed && u.last_error is Some
            &&& after.status.last_error is Some
            &&& after.status.last_observed_healthy == Some(false)
            &&& after.entry.outcome == OperationOutcome::Failed
            &&& after.entry.active_version == upgrade.active_version
        }),
{
}

/// A health check that timed out or failed is never taken for one that passed.
pub proof fn only_success_is_healthy(check: HealthView, run: CheckRunView, now: Seq<char>)
    ensures
        checked(check, run, now) matches Ok(result) ==> (healthy(Some(result)) <==> (run matches
            CheckRunView::Ended(_, success, _, _) && success)),
{
}

/// An upgrade applied from arguments has the plan that planning it with the same
/// arguments makes.
pub proof fn applying_plans_as_planning_does(
    args: GatewayUpgradeApplyArgs,
    full: GatewayUpgradePlanArgs,
    status: StatusView,
    host: HostView,
    now: Seq<char>,
)
    requires
        args.target_version == Some(full.target_version),
        args.binary_path == Some(full.binary_path),
        args.config_sha256 == full.config_sha256,
        args.health_command == full.health_command,
        args.health_timeout_secs == full.health_timeout_secs,
        args.rollback_version == full.rollback_version,
        args.rollback_binary_path == full.rollback_binary_path,
        args.service_manager == full.service_manager,
    ensures
        plan_to_apply(status, args@, host, now) == plan_of(status, full@, host, now),
{
}

/// The plan holds what the arguments name: the target, a health check exactly where a
/// command was given, and the rollback, the digest and the service manager where these
/// were given.
pub proof fn plan_holds_what_was_asked(
    args: GatewayUpgradeApplyArgs,
    status: StatusView,
    host: HostView,
    now: Seq<char>,
    plan: PlanView,
)
    requires
        args.target_version is Some || args.binary_path is Some || args.config_sha256 is Some
            || args.health_command is Some || args.rollback_version is Some
            || args.rollback_binary_path is Some || args.service_manager is Some,
        plan_to_apply(status, args@, host, now) == Ok::<PlanView, ErrorView>(plan),
    ensures
        args.target_version matches Some(version) && plan.target_version == version@,
        args.binary_path matches Some(path) && plan.target_binary_path == path@,
        host.target_binary == Ok::<bool, Seq<char>>(true),
        plan.health_check is Some <==> args.health_command is Some,
        args.health_command matches Some(command) ==> (plan.health_check matches Some(check)
            && check.command == text::trim(command@) && check.timeout_secs >= 1 && (
        args.health_timeout_secs >= 1 ==> check.timeout_secs == args.health_timeout_secs)
            && check.working_directory == host.current_dir && check.passed is None
            && check.checked_at is None && check.last_exit_code is None),
        args.rollback_version matches Some(version) ==> plan.rollback.version == version@,
        args.rollback_binary_path matches Some(path) ==> plan.rollback.binary_path == path@
            && host.rollback_binary == Ok::<bool, Seq<char>>(true),
        args.config_sha256 matches Some(sha256) ==> plan.config_sha256 == Some(sha256@),
        args.config_sha256 is None ==> plan.config_sha256 == status.observed_config_sha256,
        args.service_manager == Some(ServiceManagerArg::Manual) ==> plan.service_manager
            == RuntimeServiceManager::Manual,
        args.service_manager == Some(ServiceManagerArg::Launchd) ==> plan.service_manager
            == RuntimeServiceManager::Launchd,
        args.service_manager == Some(ServiceManagerArg::SystemdUser) ==> plan.service_manager
            == RuntimeServiceManager::SystemdUser,
        plan.rollback.config_sha256 == status.observed_config_sha256,
        plan.rollback.recorded_at == now,
        plan.created_at == now,
{
}

/// The same of a plan that is only made.
pub proof fn made_plan_holds_what_was_asked(
    args: GatewayUpgradePlanArgs,
    status: StatusView,
    host: HostView,
    now: Seq<char>,
    plan: PlanView,
)
    requires
        plan_of(status, args@, host, now) == Ok::<PlanView, ErrorView>(plan),
    ensures
        plan.target_version == args.target_version@,
        plan.target_binary_path == args.binary_path@,
        host.target_binary == Ok::<bool, Seq<char>>(true),
        plan.health_check is Some <==> args.health_command is Some,
        args.health_command matches Some(command) ==> (plan.health_check matches Some(check)
            && check.command == text::trim(command@) && check.timeout_secs >= 1 && (
        args.health_timeout_secs >= 1 ==> check.timeout_secs == args.health_timeout_secs)
            && check.passed is None),
        args.rollback_version matches Some(version) ==> plan.rollback.version == version@,
        args.rollback_binary_path matches Some(path) ==> plan.rollback.binary_path == path@,
        args.config_sha256 matches Some(sha256) ==> plan.config_sha256 == Some(sha256@),
{
}

/// Where the binaries are files, the service manager is named and a rollback version
/// is known, a plan is made.
pub proof fn sound_request_is_planned(
    args: GatewayUpgradePlanArgs,
    status: StatusView,
    host: HostView,
    now: Seq<char>,
)
    requires
        host.target_binary == Ok::<bool, Seq<char>>(true),
        args.service_manager is Some || host.installed == Ok::<bool, ErrorView>(false),
        args.rollback_binary_path is Some ==> host.rollback_binary == Ok::<bool, Seq<char>>(true),
        args.rollback_binary_path is None ==> host.current_exe is Ok,
        args.rollback_version is Some || status.observed_config_version is Some,
    ensures
        plan_of(status, args@, host, now) is Ok,
        args.service_manager is None ==> plan_of(status, args@, host, now)->Ok_0.service_manager
            == RuntimeServiceManager::Manual,
{
}

/// Without any argument the recorded plan is applied as it stands. With any, the
/// recorded plan does not count, and both the version and the binary must be named.
pub proof fn recorded_plan_counts_only_alone(
    args: GatewayUpgradeApplyArgs,
    status: StatusView,
    host: HostView,
    now: Seq<char>,
)
    ensures
        args.target_version is None && args.binary_path is None && args.config_sha256 is None
            && args.health_command is None && args.rollback_version is None
            && args.rollback_binary_path is None && args.service_manager is None ==> (
        match status.runtime_upgrade_plan {
            Some(plan) => plan_to_apply(status, args@, host, now) == Ok::<PlanView, ErrorView>(
                plan,
            ),
            None => plan_to_apply(status, args@, host, now) is Err,
        }),
        args.health_command is Some && (args.target_version is None || args.binary_path is None)
            ==> plan_to_apply(status, args@, host, now) is Err,
        args.target_version is Some && args.binary_path is None ==> plan_to_apply(
            status,
            args@,
            host,
            now,
        ) is Err,
        args.binary_path is Some && args.target_version is None ==> plan_to_apply(
            status,
            args@,
            host,
            now,
        ) is Err,
{
}

/// Whoever manages the installed service manages the upgrade.
pub proof fn manager_is_that_of_the_platform(host: HostView, platform: ServicePlatform)
    requires
        host.installed == Ok::<bool, ErrorView>(true),
        host.platform == Ok::<ServicePlatform, ErrorView>(platform),
    ensures
        manager_for(None, host) == Ok::<RuntimeServiceManager, ErrorView>(
            match platform {
                ServicePlatform::Launchd => RuntimeServiceManager::Launchd,
                ServicePlatform::LaunchDaemon => RuntimeServiceManager::LaunchDaemon,
                ServicePlatform::SystemdUser => RuntimeServiceManager::SystemdUser,
                ServicePlatform::SystemdSystem => RuntimeServiceManager::SystemdSystem,
                ServicePlatform::WindowsService => RuntimeServiceManager::WindowsService,
            },
        ),
{
}

/// What runs is the version and the binary of the last upgrade, where these are on
/// record; else what was observed, and this program.
pub proof fn what_runs_is_what_was_upgraded_to(
    status: StatusView,
    current_exe: Result<Seq<char>, Seq<char>>,
)
    ensures
        status.runtime_upgrade_status matches Some(upgrade) ==> {
            &&& upgrade.active_version is Some ==> active_version(status) == upgrade.active_version
            &&& upgrade.active_version is None ==> active_version(status)
                == status.observed_config_version
            &&& upgrade.active_binary_path matches Some(path) ==> active_binary(
                status,
                current_exe,
            ) == Ok::<Seq<char>, ErrorView>(path)
            &&& upgrade.active_binary_path is None ==> (current_exe matches Ok(exe)
                ==> active_binary(status, current_exe) == Ok::<Seq<char>, ErrorView>(exe))
        },
        status.runtime_upgrade_status is None ==> active_version(status)
            == status.observed_config_version && (current_exe matches Ok(exe) ==> active_binary(
            status,
            current_exe,
        ) == Ok::<Seq<char>, ErrorView>(exe)),
{
}

/// An upgrade succeeds exactly where its check passed, or there was none: then the
/// target is what runs, and only then.
pub proof fn upgrade_succeeds_exactly_when_checked(
    status: StatusView,
    plan: PlanView,
    check: Option<HealthView>,
    now: Seq<char>,
)
    ensures
        ({
            let after = apply_finished(status, plan, check, now);
            let passed = check is None || (check matches Some(c) && c.passed == Some(true));
            &&& after.status.runtime_upgrade_status matches Some(upgrade) && {
                &&& upgrade.phase == RuntimeUpgradePhase::Succeeded <==> passed
                &&& upgrade.phase == RuntimeUpgradePhase::Failed <==> !passed
                &&& passed ==> upgrade.active_version == Some(plan.target_version)
                    && upgrade.active_binary_path == Some(plan.target_binary_path)
                    && upgrade.last_error is None
                &&& !passed ==> upgrade.last_error == Some("runtime upgrade health check failed"@)
                    && upgrade.active_version == (match status.runtime_upgrade_status {
                    Some(before) => before.active_version,
                    None => None,
                })
                &&& upgrade.target_version == Some(plan.target_version)
                &&& upgrade.target_binary_path == Some(plan.target_binary_path)
                &&& upgrade.rollback == Some(plan.rollback)
                &&& upgrade.health_check == check
                &&& upgrade.last_restart_at == Some(now)
            }
            &&& after.status.last_observed_healthy == Some(passed)
            &&& after.status.last_error is None <==> passed
            &&& after.entry.outcome == OperationOutcome::Succeeded <==> passed
            &&& after.entry.outcome == OperationOutcome::Failed <==> !passed
            &&& after.entry.action == OperationAction::UpgradeApply
            &&& after.entry.target_version == Some(plan.target_version)
            &&& after.status.runtime_upgrade_plan == Some(plan)
            &&& after.status.lifecycle == status.lifecycle
            &&& after.status.observed_config_version == status.observed_config_version
            &&& after.status.desired_config_version == status.desired_config_version
            &&& after.status.rollback_target_yaml == status.rollback_target_yaml
        }),
{
}

/// A check passes exactly where its command ended with success; one that timed out has
/// failed, and one that could not be run is an error. The command and its limit stay.
pub proof fn check_passes_exactly_on_success(check: HealthView, run: CheckRunView, now: Seq<char>)
    ensures
        match run {
            CheckRunView::Ended(code, success, stdout, stderr) => checked(
                check,
                run,
                now,
            ) matches Ok(result) && result.passed == Some(success) && result.last_exit_code == code
                && result.last_stdout_preview == stdout && result.last_stderr_preview == stderr
                && result.command == check.command && result.timeout_secs == check.timeout_secs
                && result.checked_at == Some(now),
            CheckRunView::TimedOut => checked(check, run, now) matches Ok(result) && result.passed
                == Some(false) && result.last_exit_code is None && result.command == check.command
                && result.checked_at == Some(now),
            CheckRunView::NotRun(_) => checked(check, run, now) is Err,
        },
{
}

/// A plan that is recorded, or begins to be applied, changes nothing that runs.
pub proof fn planning_changes_nothing_that_runs(
    status: StatusView,
    plan: PlanView,
    current_exe: Result<Seq<char>, Seq<char>>,
    now: Seq<char>,
)
    ensures
        plan_recorded(status, plan, current_exe, now) matches Ok(kept) ==> {
            &&& kept.status.runtime_upgrade_plan == Some(plan)
            &&& active_version(kept.status) == active_version(status)
            &&& active_binary(kept.status, current_exe) == active_binary(status, current_exe)
            &&& kept.status.runtime_upgrade_status matches Some(upgrade) && upgrade.phase
                == RuntimeUpgradePhase::Planned && upgrade.target_version == Some(
                plan.target_version,
            ) && upgrade.rollback == Some(plan.rollback) && upgrade.health_check
                == plan.health_check
            &&& kept.entry.action == OperationAction::UpgradePlan
            &&& kept.entry.outcome == OperationOutcome::Succeeded
            &&& kept.status.lifecycle == status.lifecycle
            &&& kept.status.last_error == status.last_error
        },
        apply_begun(status, plan, current_exe, now) matches Ok(begun) ==> {
            &&& begun.runtime_upgrade_plan == Some(plan)
            &&& active_version(begun) == active_version(status)
            &&& active_binary(begun, current_exe) == active_binary(status, current_exe)
            &&& begun.runtime_upgrade_status matches Some(upgrade) && upgrade.phase
                == RuntimeUpgradePhase::Applying && upgrade.rollback == Some(plan.rollback)
                && upgrade.health_check == plan.health_check
            &&& begun.last_error is None
            &&& begun.lifecycle == status.lifecycle
        },
        active_binary(status, current_exe) is Ok ==> plan_recorded(
            status,
            plan,
            current_exe,
            now,
        ) is Ok && apply_begun(status, plan, current_exe, now) is Ok,
{
}

/// A rollback goes to the checkpoint of the last upgrade, else to that of the plan.
pub proof fn rollback_goes_to_the_checkpoint(status: StatusView)
    ensures
        status.runtime_upgrade_status matches Some(upgrade) ==> (
        upgrade.rollback matches Some(rollback) ==> checkpoint(status) == Ok::<
            RollbackView,
            ErrorView,
        >(rollback)),
        status.runtime_upgrade_status is None ==> (status.runtime_upgrade_plan matches Some(plan)
            ==> checkpoint(status) == Ok::<RollbackView, ErrorView>(plan.rollback)),
        status.runtime_upgrade_status is None && status.runtime_upgrade_plan is None
            ==> checkpoint(status) is Err,
{
}

/// A rollback that is done runs the checkpoint, and says so in the history.
pub proof fn rolled_back_runs_the_checkpoint(
    status: StatusView,
    rollback: RollbackView,
    manager: RuntimeServiceManager,
    now: Seq<char>,
)
    ensures
        ({
            let after = rollback_finished(status, rollback, manager, now);
            &&& after.status.runtime_upgrade_status matches Some(upgrade) && upgrade.phase
                == RuntimeUpgradePhase::RolledBack && upgrade.active_version == Some(
                rollback.version,
            ) && upgrade.active_binary_path == Some(rollback.binary_path)
                && upgrade.target_version is None && upgrade.target_binary_path is None
                && upgrade.last_error is None && upgrade.last_restart_at == Some(now)
            &&& after.status.runtime_upgrade_plan is None
            &&& after.entry.action == OperationAction::UpgradeRollback
            &&& after.entry.outcome == OperationOutcome::RolledBack
            &&& after.entry.target_version == Some(rollback.version)
            &&& after.entry.active_version == Some(rollback.version)
            &&& after.status.lifecycle == status.lifecycle
            &&& after.status.observed_config_version == status.observed_config_version
            &&& after.status.desired_config_version == status.desired_config_version
        }),
{
}

/// The service of an upgraded instance runs the chosen binary under the instance's own
/// settings.
pub proof fn upgraded_service_runs_the_binary(
    spec: SpecView,
    secrets: SecretsView,
    state_dir: Seq<char>,
    binary_path: Seq<char>,
    process: Seq<Pair>,
    default_api_url: Seq<char>,
)
    ensures
        ({
            let made = service_spec_of(
                spec,
                secrets,
                state_dir,
                binary_path,
                process,
                default_api_url,
            );
            &&& made.binary_path_override == Some(binary_path)
            &&& made.name == spec.name
            &&& made.listen == spec.listen_addr
            &&& made.upstream == Some(spec.upstream_base_url)
            &&& made.policy_configs == spec.policy_paths
            &&& made.fail_mode == spec.fail_mode
            &&& made.max_concurrency == Some(spec.max_concurrency)
            &&& made.connected_mode
            &&& made.api_token == env_map::lookup(process, "VERDICTAN_API_TOKEN"@)
            &&& made.command_override is Some
        }),
{
}

/// The entry of an upgrade tells what ran before, what was aimed at and what runs now.
pub proof fn upgrade_entry_tells_the_change(
    status: StatusView,
    plan: PlanView,
    check: Option<HealthView>,
    now: Seq<char>,
)
    ensures
        ({
            let after = apply_finished(status, plan, check, now);
            &&& after.entry.previous_version == active_version(status)
            &&& after.entry.previous_sha256 == status.observed_config_sha256
            &&& after.entry.target_sha256 == plan.config_sha256
            &&& after.entry.active_version == active_version(after.status)
                || after.entry.active_version is None
            &&& after.entry.recorded_at == now
            &&& after.entry.reason is Some
        }),
{
}

/// A binary is used exactly where it is a file; otherwise the error names it.
pub proof fn binary_must_be_a_file(path: Seq<char>, probe: Result<bool, Seq<char>>)
    ensures
        valid_binary(path, probe) is Ok <==> probe == Ok::<bool, Seq<char>>(true),
        valid_binary(path, probe) matches Ok(p) ==> p == path,
        valid_binary(path, probe) matches Err(e) ==> e.kind == error::ErrorKind::User
            && text::starts_with(e.message, "runtime binary path "@ + path),
{
    if valid_binary(path, probe) is Err {
        let front = "runtime binary path "@ + path;
        let e = valid_binary(path, probe)->Err_0;
        assert(e.message.subrange(0, front.len() as int) =~= front);
    }
}

/// The service of an upgraded instance gets the header and the prefix of the instance
/// where nothing else is set there.
pub proof fn upgraded_service_gets_the_header(
    spec: SpecView,
    secrets: SecretsView,
    process: Seq<Pair>,
    default_api_url: Seq<char>,
)
    requires
        spec.upstream_api_key_header is Some,
    ensures
        env_map::lookup(
            service_env(spec, secrets, process, default_api_url),
            "VERDICTAN_UPSTREAM_API_KEY_HEADER"@,
        ) == spec.upstream_api_key_header,
{
    let header = "VERDICTAN_UPSTREAM_API_KEY_HEADER"@;
    let prefix = "VERDICTAN_UPSTREAM_API_KEY_PREFIX"@;
    let name = "VERDICTAN_AGENT_NAME"@;
    reveal_strlit("VERDICTAN_UPSTREAM_API_KEY_HEADER");
    reveal_strlit("VERDICTAN_UPSTREAM_API_KEY_PREFIX");
    reveal_strlit("VERDICTAN_AGENT_NAME");
    assert(header[27] == 'H' && prefix[27] == 'P' && name.len() == 20 && header.len() == 33);
    let base = gateway_install::supervised_env(spec, secrets);
    let first = gateway_install::with_value(base, header, spec.upstream_api_key_header);
    env_map::with_pair_lookup(base, header, spec.upstream_api_key_header->0, prefix);
    let second = gateway_install::with_value(first, prefix, spec.upstream_api_key_prefix);
    if spec.upstream_api_key_prefix is Some {
        env_map::with_pair_lookup(first, prefix, spec.upstream_api_key_prefix->0, header);
    }
    gateway_install::runtime_env_keeps_what_is_set(second, process, default_api_url, header);
    let third = gateway_install::with_runtime_env(second, process, default_api_url);
    let named = text::filled(env_map::lookup(process, name));
    if named is Some {
        env_map::with_pair_lookup(third, name, named->0, header);
    }
}

} // verus!
