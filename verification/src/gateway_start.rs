//! Starting an instance: through its service, or in the foreground.
use vstd::prelude::*;

use crate::error::CliError;
use crate::gateway_history::{self, operation_entry_at};
use crate::gateway_service::{self, ServicePlatform};
use crate::instances::{
    ConfigVerificationState, EntryView, GatewayInstanceLifecycle, GatewayInstanceStatus,
    InstanceRecord, LoadedConfig, LoadedView, OperationAction, OperationHistoryEntry,
    OperationOutcome, StatusView,
};
use crate::runtime_upgrade::{self, RuntimeServiceManager};
use crate::text;

verus! {

#[derive(Debug)]
pub struct GatewayStartArgs {
    pub name: String,
    pub state_dir: Option<String>,
}

/// The status while an instance starts.
pub open spec fn starting(status: StatusView, now: Seq<char>) -> StatusView {
    StatusView {
        lifecycle: GatewayInstanceLifecycle::Starting,
        last_error: None,
        verification_state: ConfigVerificationState::Pending,
        updated_at: now,
        ..status
    }
}

pub fn starting_status(status: &GatewayInstanceStatus, now: &str) -> (r: GatewayInstanceStatus)
    ensures
        r@ == starting(status@, now@),
{
    let mut next = status.copy();
    next.lifecycle = GatewayInstanceLifecycle::Starting;
    next.last_error = None;
    next.verification_state = ConfigVerificationState::Pending;
    next.updated_at = now.to_string();
    next
}

/// The status of an instance whose configuration could not be loaded.
pub open spec fn load_failed(status: StatusView, reason: Seq<char>, now: Seq<char>) -> StatusView {
    StatusView {
        lifecycle: GatewayInstanceLifecycle::Failed,
        last_error: Some(reason),
        updated_at: now,
        ..status
    }
}

/// The status of an instance that runs a configuration: it is at once the one
/// observed, the one desired and the last known to be good.
pub open spec fn running(status: StatusView, config: LoadedView, now: Seq<char>) -> StatusView {
    StatusView {
        lifecycle: GatewayInstanceLifecycle::Running,
        observed_config_version: Some(config.config_version),
        observed_config_sha256: Some(config.config_sha256),
        desired_config_version: Some(config.config_version),
        desired_config_sha256: Some(config.config_sha256),
        last_known_good_version: Some(config.config_version),
        last_known_good_sha256: Some(config.config_sha256),
        verification_state: ConfigVerificationState::Verified,
        last_verified_at: Some(now),
        last_healthcheck_at: Some(now),
        last_observed_healthy: Some(true),
        last_seen_at: Some(now),
        updated_at: now,
        ..status
    }
}

pub fn running_status(status: &GatewayInstanceStatus, config: &LoadedConfig, now: &str) -> (r:
    GatewayInstanceStatus)
    ensures
        r@ == running(status@, config@, now@),
{
    let mut next = status.copy();
    next.lifecycle = GatewayInstanceLifecycle::Running;
    next.observed_config_version = Some(config.config_version.clone());
    next.observed_config_sha256 = Some(config.config_sha256.clone());
    next.desired_config_version = text::copy_opt(&next.observed_config_version);
    next.desired_config_sha256 = text::copy_opt(&next.observed_config_sha256);
    next.last_known_good_version = text::copy_opt(&next.observed_config_version);
    next.last_known_good_sha256 = text::copy_opt(&next.observed_config_sha256);
    next.verification_state = ConfigVerificationState::Verified;
    next.last_verified_at = Some(now.to_string());
    next.last_healthcheck_at = Some(now.to_string());
    next.last_observed_healthy = Some(true);
    next.last_seen_at = Some(now.to_string());
    next.updated_at = now.to_string();
    next
}

/// True when the service manager itself started this process.
pub open spec fn service_mode(value: Option<Seq<char>>) -> bool {
    match value {
        Some(v) => v == "1"@ || text::lower(v) == text::lower("true"@),
        None => false,
    }
}

/// Reads VERDICTAN_SUPERVISOR_SERVICE_MODE.
pub fn invoked_by_service(value: Option<&str>) -> (r: bool)
    ensures
        r == service_mode(text::opt_ref(value)),
{
    match value {
        Some(value) => text::same(value, "1") || text::same(
            text::to_lower(value).as_str(),
            text::to_lower("true").as_str(),
        ),
        None => false,
    }
}

/// What to do once the configuration was loaded, or could not be.
#[derive(Debug)]
pub enum StartAction {
    /// Keep the status and report the error.
    Fail(GatewayInstanceStatus, CliError),
    /// Have the service manager start the instance.
    StartService,
    /// Keep the status and run the instance in this process.
    RunRuntime(GatewayInstanceStatus),
}

/// Decides how an instance is started. A service is started through its manager,
/// unless it is the manager that started this process.
pub fn after_load(
    record: &InstanceRecord,
    loaded: &Result<LoadedConfig, CliError>,
    by_service: bool,
    service_file_found: bool,
    now: &str,
) -> (r: StartAction)
    ensures
        match loaded {
            Err(e) => r matches StartAction::Fail(status, error) && error@ == e@ && status@
                == load_failed(record.status@, e@.message, now@),
            Ok(config) => if !by_service && service_file_found {
                r matches StartAction::StartService
            } else {
                r matches StartAction::RunRuntime(status) && status@ == running(
                    record.status@,
                    config@,
                    now@,
                )
            },
        },
{
    match loaded {
        Err(error) => {
            let mut status = record.status.copy();
            status.lifecycle = GatewayInstanceLifecycle::Failed;
            status.last_error = Some(error.to_string());
            status.updated_at = now.to_string();
            StartAction::Fail(status, error.copy())
        },
        Ok(config) => if !by_service && service_file_found {
            StartAction::StartService
        } else {
            StartAction::RunRuntime(running_status(&record.status, config, now))
        },
    }
}

/// What is kept of a start through the service manager.
#[derive(Debug)]
pub struct ServiceStart {
    pub status: Option<GatewayInstanceStatus>,
    pub entry: OperationHistoryEntry,
    pub report: Result<Vec<String>, CliError>,
}

pub open spec fn service_start_entry(
    status: StatusView,
    outcome: Result<ServicePlatform, Seq<char>>,
    now: Seq<char>,
) -> EntryView {
    match outcome {
        Ok(platform) => gateway_history::unchanged_entry(
            OperationAction::Start,
            OperationOutcome::Succeeded,
            Some("started via "@ + gateway_service::display_name_of(platform)),
            status,
            now,
        ),
        Err(reason) => gateway_history::unchanged_entry(
            OperationAction::Start,
            OperationOutcome::Failed,
            Some(reason),
            status,
            now,
        ),
    }
}

pub open spec fn service_start_lines(
    platform: ServicePlatform,
    name: Seq<char>,
    path: Seq<char>,
) -> Seq<Seq<char>> {
    seq![
        "started "@ + gateway_service::display_name_of(platform) + " service "@ + name,
        "service file: "@ + path,
    ]
}

/// What follows a start through the service manager, which gave the platform
/// and the path of the service file, or an error.
pub fn after_service_start(
    name: &str,
    record: &InstanceRecord,
    config: &LoadedConfig,
    outcome: &Result<(ServicePlatform, String), CliError>,
    now: &str,
) -> (r: ServiceStart)
    ensures
        match outcome {
            Ok(done) => {
                &&& r.status matches Some(status) && status@ == running(
                    record.status@,
                    config@,
                    now@,
                )
                &&& r.entry@ == service_start_entry(record.status@, Ok(done.0), now@)
                &&& r.report matches Ok(lines) && text::texts(lines@) == service_start_lines(
                    done.0,
                    name@,
                    done.1@,
                )
            },
            Err(e) => {
                &&& r.status is None
                &&& r.entry@ == service_start_entry(record.status@, Err(e@.message), now@)
                &&& r.report matches Err(error) && error@ == e@
            },
        },
{
    match outcome {
        Err(error) => ServiceStart {
            status: None,
            entry: operation_entry_at(
                OperationAction::Start,
                OperationOutcome::Failed,
                Some(error.to_string()),
                record,
                now,
            ),
            report: Err(error.copy()),
        },
        Ok(done) => {
            let platform = done.0;
            let mut started = "started ".to_string();
            started.append(platform.display_name());
            started.append(" service ");
            started.append(name);
            let lines: Vec<String> = vec![started, text::concat("service file: ", done.1.as_str())];
            assert(text::texts(lines@) =~= service_start_lines(done.0, name@, done.1@));
            ServiceStart {
                status: Some(running_status(&record.status, config, now)),
                entry: operation_entry_at(
                    OperationAction::Start,
                    OperationOutcome::Succeeded,
                    Some(text::concat("started via ", platform.display_name())),
                    record,
                    now,
                ),
                report: Ok(lines),
            }
        },
    }
}

/// The status after the runtime ended: stopped, or failed with its error.
pub open spec fn ended(status: StatusView, failure: Option<Seq<char>>, now: Seq<char>) -> StatusView {
    match failure {
        None => StatusView {
            lifecycle: GatewayInstanceLifecycle::Stopped,
            verification_state: ConfigVerificationState::Verified,
            last_seen_at: Some(now),
            updated_at: now,
            ..status
        },
        Some(reason) => StatusView {
            lifecycle: GatewayInstanceLifecycle::Failed,
            last_error: Some(reason),
            verification_state: ConfigVerificationState::Failed,
            last_healthcheck_at: Some(now),
            last_observed_healthy: Some(false),
            last_seen_at: Some(now),
            updated_at: now,
            ..status
        },
    }
}

pub fn after_runtime(
    status: &GatewayInstanceStatus,
    failure: Option<&CliError>,
    now: &str,
) -> (r: GatewayInstanceStatus)
    ensures
        r@ == ended(
            status@,
            match failure {
                Some(e) => Some(e@.message),
                None => None,
            },
            now@,
        ),
{
    let mut next = status.copy();
    match failure {
        None => {
            next.lifecycle = GatewayInstanceLifecycle::Stopped;
            next.verification_state = ConfigVerificationState::Verified;
        },
        Some(error) => {
            next.lifecycle = GatewayInstanceLifecycle::Failed;
            next.last_error = Some(error.to_string());
            next.verification_state = ConfigVerificationState::Failed;
            next.last_healthcheck_at = Some(now.to_string());
            next.last_observed_healthy = Some(false);
        },
    }
    next.last_seen_at = Some(now.to_string());
    next.updated_at = now.to_string();
    next
}

// ---------------------------------------------------------------------------
// What the runtime is told of its upgrade
// ---------------------------------------------------------------------------

/// A variable to set, or to remove where there is no value.
#[derive(Debug)]
pub struct EnvChange {
    pub name: String,
    pub value: Option<String>,
}

pub struct EnvChangeView {
    pub name: Seq<char>,
    pub value: Option<Seq<char>>,
}

impl View for EnvChange {
    type V = EnvChangeView;

    open spec fn view(&self) -> EnvChangeView {
        EnvChangeView { name: self.name@, value: text::opt(self.value) }
    }
}

pub open spec fn changes(v: Seq<EnvChange>) -> Seq<EnvChangeView> {
    Seq::new(v.len(), |i: int| v[i]@)
}

pub open spec fn optional_env(name: Seq<char>, value: Option<Seq<char>>) -> EnvChangeView {
    EnvChangeView { name, value: text::filled(value) }
}

/// Sets a variable to the trimmed value; removes it where nothing is left.
pub fn set_optional_env(name: &str, value: Option<&str>) -> (r: EnvChange)
    ensures
        r@ == optional_env(name@, text::opt_ref(value)),
{
    EnvChange { name: name.to_string(), value: text::filled_text(value) }
}

pub open spec fn inferred_manager(platform: Option<ServicePlatform>) -> RuntimeServiceManager {
    match platform {
        Some(p) => runtime_upgrade::manager_of(p),
        None => RuntimeServiceManager::Manual,
    }
}

/// The manager of this machine's platform; none is known on other platforms.
pub fn infer_runtime_service_manager(platform: Option<ServicePlatform>) -> (r:
    RuntimeServiceManager)
    ensures
        r == inferred_manager(platform),
{
    match platform {
        Some(platform) => RuntimeServiceManager::of_platform(platform),
        None => RuntimeServiceManager::Manual,
    }
}

pub open spec fn runtime_env(
    status: StatusView,
    current_exe: Option<Seq<char>>,
    platform: Option<ServicePlatform>,
) -> Seq<EnvChangeView> {
    match status.runtime_upgrade_status {
        Some(upgrade) => seq![
            optional_env(
                "VERDICTAN_RUNTIME_ACTIVE_VERSION"@,
                text::first_of(upgrade.active_version, status.observed_config_version),
            ),
            optional_env(
                "VERDICTAN_RUNTIME_ACTIVE_BINARY_PATH"@,
                text::first_of(text::filled(upgrade.active_binary_path), current_exe),
            ),
            optional_env("VERDICTAN_RUNTIME_TARGET_VERSION"@, upgrade.target_version),
            optional_env("VERDICTAN_RUNTIME_TARGET_BINARY_PATH"@, upgrade.target_binary_path),
            optional_env("VERDICTAN_RUNTIME_LAST_RESTART_AT"@, upgrade.last_restart_at),
            optional_env(
                "VERDICTAN_RUNTIME_UPGRADE_PHASE"@,
                Some(runtime_upgrade::phase_word(upgrade.phase)),
            ),
            EnvChangeView {
                name: "VERDICTAN_RUNTIME_SERVICE_MANAGER"@,
                value: Some(runtime_upgrade::manager_word(upgrade.service_manager)),
            },
        ],
        None => seq![
            optional_env("VERDICTAN_RUNTIME_ACTIVE_VERSION"@, status.observed_config_version),
            optional_env("VERDICTAN_RUNTIME_ACTIVE_BINARY_PATH"@, current_exe),
            optional_env("VERDICTAN_RUNTIME_TARGET_VERSION"@, None),
            optional_env("VERDICTAN_RUNTIME_TARGET_BINARY_PATH"@, None),
            optional_env("VERDICTAN_RUNTIME_LAST_RESTART_AT"@, None),
            optional_env("VERDICTAN_RUNTIME_UPGRADE_PHASE"@, None),
            EnvChangeView {
                name: "VERDICTAN_RUNTIME_SERVICE_MANAGER"@,
                value: Some(runtime_upgrade::manager_word(inferred_manager(platform))),
            },
        ],
    }
}

/// The changes to the environment that tell the runtime which upgrade it runs
/// under. `current_exe` is the path of this program, `platform` that of the
/// service manager of this machine.
pub fn apply_runtime_upgrade_env(
    status: &GatewayInstanceStatus,
    current_exe: Option<&str>,
    platform: Option<ServicePlatform>,
) -> (r: Vec<EnvChange>)
    ensures
        changes(r@) == runtime_env(status@, text::opt_ref(current_exe), platform),
{
    let out: Vec<EnvChange> = match &status.runtime_upgrade_status {
        Some(upgrade) => {
            let active_version: Option<String> = match &upgrade.active_version {
                Some(version) => Some(version.clone()),
                None => text::copy_opt(&status.observed_config_version),
            };
            let binary = text::filled_text(text::borrow_opt(&upgrade.active_binary_path));
            let active_binary_path: Option<String> = match binary {
                Some(path) => Some(path),
                None => text::own_opt(current_exe),
            };
            vec![
                set_optional_env(
                    "VERDICTAN_RUNTIME_ACTIVE_VERSION",
                    text::borrow_opt(&active_version),
                ),
                set_optional_env(
                    "VERDICTAN_RUNTIME_ACTIVE_BINARY_PATH",
                    text::borrow_opt(&active_binary_path),
                ),
                set_optional_env(
                    "VERDICTAN_RUNTIME_TARGET_VERSION",
                    text::borrow_opt(&upgrade.target_version),
                ),
                set_optional_env(
                    "VERDICTAN_RUNTIME_TARGET_BINARY_PATH",
                    text::borrow_opt(&upgrade.target_binary_path),
                ),
                set_optional_env(
                    "VERDICTAN_RUNTIME_LAST_RESTART_AT",
                    text::borrow_opt(&upgrade.last_restart_at),
                ),
                set_optional_env("VERDICTAN_RUNTIME_UPGRADE_PHASE", Some(upgrade.phase.as_str())),
                EnvChange {
                    name: "VERDICTAN_RUNTIME_SERVICE_MANAGER".to_string(),
                    value: Some(upgrade.service_manager.as_str().to_string()),
                },
            ]
        },
        None => vec![
            set_optional_env(
                "VERDICTAN_RUNTIME_ACTIVE_VERSION",
                text::borrow_opt(&status.observed_config_version),
            ),
            set_optional_env("VERDICTAN_RUNTIME_ACTIVE_BINARY_PATH", current_exe),
            set_optional_env("VERDICTAN_RUNTIME_TARGET_VERSION", None),
            set_optional_env("VERDICTAN_RUNTIME_TARGET_BINARY_PATH", None),
            set_optional_env("VERDICTAN_RUNTIME_LAST_RESTART_AT", None),
            set_optional_env("VERDICTAN_RUNTIME_UPGRADE_PHASE", None),
            EnvChange {
                name: "VERDICTAN_RUNTIME_SERVICE_MANAGER".to_string(),
                value: Some(infer_runtime_service_manager(platform).as_str().to_string()),
            },
        ],
    };
    assert(changes(out@) =~= runtime_env(status@, text::opt_ref(current_exe), platform));
    out
}

// ---------------------------------------------------------------------------
// Laws
// ---------------------------------------------------------------------------

/// An instance that was started and ended cleanly is stopped, with the started
/// configuration verified, observed, desired and last known good; its rollback
/// target and its upgrade are as they were.
pub proof fn clean_run_leaves_a_verified_stop(
    status: StatusView,
    config: LoadedView,
    began: Seq<char>,
    over: Seq<char>,
)
    ensures
        ({
            let end = ended(running(status, config, began), None, over);
            &&& end.lifecycle == GatewayInstanceLifecycle::Stopped
            &&& end.verification_state == ConfigVerificationState::Verified
            &&& end.observed_config_version == Some(config.config_version)
            &&& end.desired_config_version == end.observed_config_version
            &&& end.desired_config_sha256 == end.observed_config_sha256
            &&& end.last_known_good_sha256 == end.observed_config_sha256
            &&& end.rollback_target_version == status.rollback_target_version
            &&& end.rollback_target_yaml == status.rollback_target_yaml
            &&& end.runtime_upgrade_plan == status.runtime_upgrade_plan
            &&& end.runtime_upgrade_status == status.runtime_upgrade_status
        }),
{
}

} // verus!
