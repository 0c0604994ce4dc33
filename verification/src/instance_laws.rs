//! What holds of the record of an instance: how it is defined, installed, started and
//! checked, and what its history tells.
use vstd::prelude::*;

use crate::env_map::{self, Pair};
use crate::error::ErrorView;
use crate::gateway_check::{
    self, active, config_ready, report_of, required_missing, status_section, CheckedConfig,
};
use crate::gateway_config::{config_report_of, expected_response};
use crate::gateway_create::{gateway_name_of, instance_of, secret_of, CreateArgsView};
use crate::gateway_diff::{diff_of, lines_of};
use crate::gateway_history::{self, recent, wanted, HistoryActionFilter};
use crate::gateway_install::{
    agent_arg, copied, install_entry, instance_install_of, plain_env, plain_install_of,
    supervised_env, with_agent_name,
    with_api_url, with_runtime_env, with_secret, with_value, InstallArgsView, SecretsView,
};
use crate::gateway_reload::{reports_a_config, AnswerView};
use crate::gateway_service::ServicePlatform;
use crate::gateway_start::{
    ended, load_failed, running, runtime_env, service_mode, service_start_entry, starting,
};
use crate::gateway_status::{record_lines, shown_region};
use crate::gateway_stop::{stop_entry, stopped};
use crate::gateway_uninstall::uninstall_entry;
use crate::instances::{
    ConfigVerificationState, EntryView, GatewayInstanceLifecycle, LoadedView, OperationAction,
    OperationOutcome, SecretView, SpecView, StatusView, SupervisorStateMetadata,
};
use crate::json::{self, JsonView};
use crate::text;

verus! {

// ---------------------------------------------------------------------------
// Defining an instance
// ---------------------------------------------------------------------------

/// The name is the first that is not blank, trimmed: the one given, that of the
/// environment, that of the system, and a default where there is none.
pub proof fn first_name_counts(
    arg: Option<Seq<char>>,
    env_hostname: Option<Seq<char>>,
    sys_hostname: Option<Seq<char>>,
)
    ensures
        ({
            let name = gateway_name_of(arg, env_hostname, sys_hostname);
            let blank = |o: Option<Seq<char>>| o is None || text::is_blank(o->0);
            &&& !blank(arg) ==> name == text::trim(arg->0)
            &&& blank(arg) && !blank(env_hostname) ==> name == text::trim(env_hostname->0)
            &&& blank(arg) && blank(env_hostname) && !blank(sys_hostname) ==> name == text::trim(
                sys_hostname->0,
            )
            &&& blank(arg) && blank(env_hostname) && blank(sys_hostname) ==> name
                == "gateway-default"@
        }),
{
}

/// A secret is in the variable that is named, or in the keychain under a service and
/// an account; half a keychain reference, or both kinds, are refused.
pub proof fn secret_is_in_one_place(
    env_var: Option<Seq<char>>,
    service: Option<Seq<char>>,
    account: Option<Seq<char>>,
    label: Seq<char>,
)
    ensures
        ({
            let found = secret_of(env_var, service, account, label);
            &&& found is Err <==> (env_var is Some && (service is Some || account is Some)) || (
            service is Some) != (account is Some)
            &&& found matches Ok(Some(SecretView::EnvVar(name))) ==> env_var == Some(name)
            &&& found matches Ok(Some(SecretView::Keychain(s, a))) ==> service == Some(s)
                && account == Some(a)
            &&& found matches Ok(None) ==> env_var is None && service is None && account is None
        }),
{
}

/// A defined instance has what the arguments say, under one name for itself and, where
/// no other is given, for its gateway.
pub proof fn instance_is_what_was_asked(args: CreateArgsView, name: Seq<char>, made: SpecView)
    requires
        instance_of(args, name) == Ok::<SpecView, ErrorView>(made),
    ensures
        made.instance_id == name,
        made.name == name,
        made.gateway_id == (match args.gateway_id {
            Some(id) => id,
            None => name,
        }),
        made.listen_addr == args.listen,
        made.upstream_base_url == args.upstream,
        made.fail_mode == args.fail_mode,
        made.policy_paths == args.policy_config,
        made.max_concurrency == (match args.max_concurrency {
            Some(n) => n,
            None => 16,
        }),
        made.admin_local_only == args.admin_local_only,
        made.upstream_api_key_header == args.upstream_api_key_header,
        made.upstream_api_key_prefix == args.upstream_api_key_prefix,
        args.upstream_api_key_env matches Some(v) ==> made.upstream_api_key == Some(
            SecretView::EnvVar(v),
        ),
        args.admin_token_env matches Some(v) ==> made.admin_token == Some(SecretView::EnvVar(v)),
        args.upstream_api_key_keychain_service matches Some(s) ==> (
        made.upstream_api_key matches Some(SecretView::Keychain(service, _)) && service == s),
        args.admin_token_keychain_account matches Some(a) ==> (made.admin_token matches Some(
            SecretView::Keychain(_, account),
        ) && account == a),
{
}

// ---------------------------------------------------------------------------
// Installing an instance
// ---------------------------------------------------------------------------

/// A variable that is not set is taken from the process, unless it is blank there; one
/// that is set stays, and no other changes.
pub proof fn copied_fills_a_gap(
    env: Seq<Pair>,
    key: Seq<char>,
    process: Seq<Pair>,
    other: Seq<char>,
)
    requires
        other != key,
    ensures
        env_map::lookup(copied(env, key, process), key) == (match (
            env_map::lookup(env, key),
            env_map::lookup(process, key),
        ) {
            (Some(v), _) => Some(v),
            (None, Some(v)) => if text::is_blank(v) {
                None
            } else {
                Some(v)
            },
            (None, None) => None,
        }),
        env_map::lookup(copied(env, key, process), other) == env_map::lookup(env, other),
{
    if env_map::lookup(process, key) is Some {
        env_map::with_pair_lookup(env, key, env_map::lookup(process, key)->0, other);
    }
}

proof fn variables_differ()
    ensures
        "VERDICTAN_API_URL"@ != "VERDICTAN_API_TOKEN"@,
        "VERDICTAN_API_URL"@ != "VERDICTAN_OTLP_ENDPOINT"@,
        "VERDICTAN_API_TOKEN"@ != "VERDICTAN_OTLP_ENDPOINT"@,
        "VERDICTAN_API_TOKEN"@ != "VERDICTAN_API_TOKEN_SOURCE"@,
        "VERDICTAN_API_TOKEN"@ != "VERDICTAN_UPSTREAM_API_KEY"@,
        "VERDICTAN_API_TOKEN"@ != "VERDICTAN_UPSTREAM_API_KEY_SOURCE"@,
        "VERDICTAN_API_TOKEN"@ != "VERDICTAN_SUPERVISOR_SERVICE_MODE"@,
        "VERDICTAN_API_TOKEN_SOURCE"@ != "VERDICTAN_UPSTREAM_API_KEY"@,
        "VERDICTAN_API_TOKEN_SOURCE"@ != "VERDICTAN_UPSTREAM_API_KEY_SOURCE"@,
        "VERDICTAN_API_TOKEN_SOURCE"@ != "VERDICTAN_SUPERVISOR_SERVICE_MODE"@,
        "VERDICTAN_UPSTREAM_API_KEY"@ != "VERDICTAN_UPSTREAM_API_KEY_SOURCE"@,
        "VERDICTAN_UPSTREAM_API_KEY"@ != "VERDICTAN_SUPERVISOR_SERVICE_MODE"@,
        "VERDICTAN_UPSTREAM_API_KEY_SOURCE"@ != "VERDICTAN_SUPERVISOR_SERVICE_MODE"@,
{
    reveal_strlit("VERDICTAN_API_URL");
    reveal_strlit("VERDICTAN_API_TOKEN");
    reveal_strlit("VERDICTAN_OTLP_ENDPOINT");
    reveal_strlit("VERDICTAN_API_TOKEN_SOURCE");
    reveal_strlit("VERDICTAN_UPSTREAM_API_KEY");
    reveal_strlit("VERDICTAN_UPSTREAM_API_KEY_SOURCE");
    reveal_strlit("VERDICTAN_SUPERVISOR_SERVICE_MODE");
    assert("VERDICTAN_API_URL"@.len() == 17);
    assert("VERDICTAN_API_TOKEN"@.len() == 19);
    assert("VERDICTAN_OTLP_ENDPOINT"@.len() == 23);
    assert("VERDICTAN_API_TOKEN_SOURCE"@.len() == 26);
    assert("VERDICTAN_UPSTREAM_API_KEY"@.len() == 26);
    assert("VERDICTAN_UPSTREAM_API_KEY_SOURCE"@.len() == 33);
    assert("VERDICTAN_SUPERVISOR_SERVICE_MODE"@.len() == 33);
    assert("VERDICTAN_API_TOKEN_SOURCE"@[10] == 'A');
    assert("VERDICTAN_UPSTREAM_API_KEY"@[10] == 'U');
    assert("VERDICTAN_UPSTREAM_API_KEY_SOURCE"@[10] == 'U');
    assert("VERDICTAN_SUPERVISOR_SERVICE_MODE"@[10] == 'S');
}

/// A service knows the control plane by its own setting, else by that of the process,
/// else by the default; and its token and its collector by its own setting, else by
/// that of the process. Nothing else is added.
pub proof fn runtime_env_fills_the_gaps(
    env: Seq<Pair>,
    process: Seq<Pair>,
    default_api_url: Seq<char>,
    other: Seq<char>,
)
    requires
        other != "VERDICTAN_API_URL"@,
        other != "VERDICTAN_API_TOKEN"@,
        other != "VERDICTAN_OTLP_ENDPOINT"@,
    ensures
        ({
            let made = with_runtime_env(env, process, default_api_url);
            let own = |key: Seq<char>| match (
                env_map::lookup(env, key),
                env_map::lookup(process, key),
            ) {
                (Some(v), _) => Some(v),
                (None, Some(v)) => if text::is_blank(v) {
                    None
                } else {
                    Some(v)
                },
                (None, None) => None,
            };
            &&& env_map::lookup(made, "VERDICTAN_API_URL"@) == Some(
                match own("VERDICTAN_API_URL"@) {
                    Some(v) => v,
                    None => default_api_url,
                },
            )
            &&& env_map::lookup(made, "VERDICTAN_API_TOKEN"@) == own("VERDICTAN_API_TOKEN"@)
            &&& env_map::lookup(made, "VERDICTAN_OTLP_ENDPOINT"@) == own(
                "VERDICTAN_OTLP_ENDPOINT"@,
            )
            &&& env_map::lookup(made, other) == env_map::lookup(env, other)
        }),
{
    variables_differ();
    let url = "VERDICTAN_API_URL"@;
    let token = "VERDICTAN_API_TOKEN"@;
    let collector = "VERDICTAN_OTLP_ENDPOINT"@;
    let first = with_api_url(env, process, default_api_url);
    let second = copied(first, token, process);
    let value = text::or_else(
        crate::gateway_install::non_blank_value(env_map::lookup(process, url)),
        default_api_url,
    );
    env_map::with_pair_lookup(env, url, value, token);
    env_map::with_pair_lookup(env, url, value, collector);
    env_map::with_pair_lookup(env, url, value, other);
    copied_fills_a_gap(first, token, process, url);
    copied_fills_a_gap(first, token, process, collector);
    copied_fills_a_gap(first, token, process, other);
    copied_fills_a_gap(second, collector, process, url);
    copied_fills_a_gap(second, collector, process, token);
    copied_fills_a_gap(second, collector, process, other);
}

/// A supervised service is told so, gets the secrets that were resolved, and the names
/// of the variables that they came from.
pub proof fn supervised_service_gets_its_secrets(spec: SpecView, secrets: SecretsView)
    ensures
        ({
            let env = supervised_env(spec, secrets);
            &&& env_map::lookup(env, "VERDICTAN_SUPERVISOR_SERVICE_MODE"@) == Some("1"@)
            &&& env_map::lookup(env, "VERDICTAN_UPSTREAM_API_KEY"@) == (
            if spec.upstream_api_key is Some {
                secrets.upstream_api_key
            } else {
                None
            })
            &&& env_map::lookup(env, "VERDICTAN_API_TOKEN"@) == (if spec.admin_token is Some {
                secrets.admin_token
            } else {
                None
            })
            &&& env_map::lookup(env, "VERDICTAN_UPSTREAM_API_KEY_SOURCE"@) == (
            match spec.upstream_api_key {
                Some(SecretView::EnvVar(name)) => Some(name),
                _ => None,
            })
            &&& env_map::lookup(env, "VERDICTAN_API_TOKEN_SOURCE"@) == (match spec.admin_token {
                Some(SecretView::EnvVar(name)) => Some(name),
                _ => None,
            })
        }),
{
    variables_differ();
    let mode = "VERDICTAN_SUPERVISOR_SERVICE_MODE"@;
    let key = "VERDICTAN_UPSTREAM_API_KEY"@;
    let key_source = "VERDICTAN_UPSTREAM_API_KEY_SOURCE"@;
    let token = "VERDICTAN_API_TOKEN"@;
    let token_source = "VERDICTAN_API_TOKEN_SOURCE"@;
    let none = Seq::<Pair>::empty();
    assert(forall|k: Seq<char>| #[trigger] env_map::lookup(none, k) is None);
    let first = env_map::with_pair(none, mode, "1"@);
    env_map::with_pair_lookup(none, mode, "1"@, key);
    env_map::with_pair_lookup(none, mode, "1"@, key_source);
    env_map::with_pair_lookup(none, mode, "1"@, token);
    env_map::with_pair_lookup(none, mode, "1"@, token_source);
    secret_reads_back(first, key, key_source, spec.upstream_api_key, secrets.upstream_api_key, mode);
    secret_reads_back(first, key, key_source, spec.upstream_api_key, secrets.upstream_api_key, token);
    secret_reads_back(
        first,
        key,
        key_source,
        spec.upstream_api_key,
        secrets.upstream_api_key,
        token_source,
    );
    let second = with_secret(
        first,
        key,
        key_source,
        spec.upstream_api_key,
        secrets.upstream_api_key,
    );
    secret_reads_back(second, token, token_source, spec.admin_token, secrets.admin_token, mode);
    secret_reads_back(second, token, token_source, spec.admin_token, secrets.admin_token, key);
    secret_reads_back(
        second,
        token,
        token_source,
        spec.admin_token,
        secrets.admin_token,
        key_source,
    );
}

proof fn secret_reads_back(
    env: Seq<Pair>,
    key: Seq<char>,
    source: Seq<char>,
    reference: Option<SecretView>,
    resolved: Option<Seq<char>>,
    other: Seq<char>,
)
    requires
        key != source,
        other != key,
        other != source,
        env_map::lookup(env, key) is None,
        env_map::lookup(env, source) is None,
    ensures
        ({
            let made = with_secret(env, key, source, reference, resolved);
            &&& env_map::lookup(made, key) == (if reference is Some {
                resolved
            } else {
                None
            })
            &&& env_map::lookup(made, source) == (match reference {
                Some(SecretView::EnvVar(name)) => Some(name),
                _ => None,
            })
            &&& env_map::lookup(made, other) == env_map::lookup(env, other)
        }),
{
    if resolved is Some {
        env_map::with_pair_lookup(env, key, resolved->0, source);
        env_map::with_pair_lookup(env, key, resolved->0, other);
    }
    match reference {
        Some(SecretView::EnvVar(name)) => {
            let first = with_value(env, key, resolved);
            env_map::with_pair_lookup(first, source, name, key);
            env_map::with_pair_lookup(first, source, name, other);
        },
        _ => {},
    }
}

/// An argument counts before the environment, and a blank one counts as none.
pub proof fn agent_argument_counts_first(
    value: Option<Seq<char>>,
    process: Seq<Pair>,
    key: Seq<char>,
)
    ensures
        value matches Some(v) ==> agent_arg(value, process, key) == (if text::is_blank(v) {
            None
        } else {
            Some(text::trim(v))
        }),
        value is None ==> agent_arg(value, process, key) == (match env_map::lookup(process, key) {
            Some(v) => if text::is_blank(v) {
                None
            } else {
                Some(text::trim(v))
            },
            None => None,
        }),
{
}

/// The service of an instance starts that instance, under the instance's own settings.
pub proof fn instance_service_starts_the_instance(
    args: InstallArgsView,
    spec: SpecView,
    secrets: SecretsView,
    state_dir: Seq<char>,
    process: Seq<Pair>,
    default_api_url: Seq<char>,
)
    ensures
        ({
            let made = instance_install_of(
                args,
                spec,
                secrets,
                state_dir,
                process,
                default_api_url,
            );
            &&& made.command_override == Some(
                seq![
                    "gateway"@,
                    "start"@,
                    "--name"@,
                    spec.instance_id,
                    "--state-dir"@,
                    state_dir,
                ],
            )
            &&& made.name == args.name
            &&& made.listen == spec.listen_addr
            &&& made.upstream == Some(spec.upstream_base_url)
            &&& made.policy_configs == spec.policy_paths
            &&& made.fail_mode == spec.fail_mode
            &&& made.max_concurrency == Some(spec.max_concurrency)
            &&& made.connected_mode
            &&& made.binary_path_override is None
            &&& made.agent_id == agent_arg(args.agent_id, process, "VERDICTAN_AGENT_ID"@)
        }),
{
}

/// A service without an instance runs what the arguments say; what these leave out
/// comes from the environment or is the default.
pub proof fn plain_service_runs_the_arguments(
    args: InstallArgsView,
    connected_mode: bool,
    process: Seq<Pair>,
    default_api_url: Seq<char>,
)
    ensures
        ({
            let made = plain_install_of(args, connected_mode, process, default_api_url);
            let url = env_map::lookup(process, "VERDICTAN_UPSTREAM_URL"@);
            &&& made.command_override is None
            &&& made.name == args.name
            &&& made.listen == (match args.listen {
                Some(listen) => listen,
                None => "0.0.0.0:41002"@,
            })
            &&& args.upstream is Some ==> made.upstream == args.upstream
            &&& args.upstream is None && url is Some ==> made.upstream == url
            &&& args.upstream is None && url is None && connected_mode ==> made.upstream is None
            &&& args.upstream is None && url is None && !connected_mode ==> made.upstream
                == Some(crate::gateway_run::DEFAULT_HOSTED_UPSTREAM_URL@)
            &&& made.policy_configs == args.policy_config
            &&& made.fail_mode == args.fail_mode
            &&& made.max_concurrency == args.max_concurrency
            &&& made.connected_mode == connected_mode
            &&& made.agent_id == agent_arg(args.agent_id, process, "VERDICTAN_AGENT_ID"@)
        }),
{
}

// ---------------------------------------------------------------------------
// Starting and stopping
// ---------------------------------------------------------------------------

/// A start begins, fails or runs with the status to show for it; what it does not
/// concern stays.
pub proof fn start_is_told_by_the_status(
    status: StatusView,
    config: LoadedView,
    reason: Seq<char>,
    now: Seq<char>,
)
    ensures
        starting(status, now).lifecycle == GatewayInstanceLifecycle::Starting,
        starting(status, now).last_error is None,
        starting(status, now).verification_state == ConfigVerificationState::Pending,
        starting(status, now).observed_config_version == status.observed_config_version,
        load_failed(status, reason, now).lifecycle == GatewayInstanceLifecycle::Failed,
        load_failed(status, reason, now).last_error == Some(reason),
        load_failed(status, reason, now).observed_config_version == status.observed_config_version,
        load_failed(status, reason, now).last_known_good_version == status.last_known_good_version,
        running(status, config, now).lifecycle == GatewayInstanceLifecycle::Running,
        running(status, config, now).observed_config_version == Some(config.config_version),
        running(status, config, now).observed_config_sha256 == Some(config.config_sha256),
        running(status, config, now).desired_config_version == Some(config.config_version),
        running(status, config, now).desired_config_sha256 == Some(config.config_sha256),
        running(status, config, now).last_known_good_version == Some(config.config_version),
        running(status, config, now).last_known_good_sha256 == Some(config.config_sha256),
        running(status, config, now).verification_state == ConfigVerificationState::Verified,
        running(status, config, now).last_observed_healthy == Some(true),
        running(status, config, now).rollback_target_yaml == status.rollback_target_yaml,
        running(status, config, now).rollback_target_version == status.rollback_target_version,
        running(status, config, now).runtime_upgrade_status == status.runtime_upgrade_status,
        running(status, config, now).last_seen_at == Some(now),
{
}

/// A run that fails leaves the instance failed with the reason; the last good
/// configuration and the way back stay.
pub proof fn failed_run_is_told_by_the_status(
    status: StatusView,
    reason: Seq<char>,
    now: Seq<char>,
)
    ensures
        ({
            let end = ended(status, Some(reason), now);
            &&& end.lifecycle == GatewayInstanceLifecycle::Failed
            &&& end.last_error == Some(reason)
            &&& end.verification_state == ConfigVerificationState::Failed
            &&& end.last_observed_healthy == Some(false)
            &&& end.last_known_good_version == status.last_known_good_version
            &&& end.observed_config_version == status.observed_config_version
            &&& end.rollback_target_yaml == status.rollback_target_yaml
            &&& end.runtime_upgrade_status == status.runtime_upgrade_status
        }),
        ended(status, None, now).lifecycle == GatewayInstanceLifecycle::Stopped,
        ended(status, None, now).last_error == status.last_error,
        ended(status, None, now).last_observed_healthy == status.last_observed_healthy,
{
}

/// An instance is run by its service exactly where the variable says `1`, or `true` in
/// any case.
pub proof fn service_mode_is_one_or_true(value: Option<Seq<char>>)
    ensures
        service_mode(value) <==> (value matches Some(v) && (v == seq!['1'] || (v.len() == 4 && (
        v[0] == 't' || v[0] == 'T') && (v[1] == 'r' || v[1] == 'R') && (v[2] == 'u' || v[2]
            == 'U') && (v[3] == 'e' || v[3] == 'E')))),
{
    reveal_strlit("1");
    reveal_strlit("true");
    assert("1"@ =~= seq!['1']);
    let wanted = text::lower("true"@);
    assert(wanted =~= seq!['t', 'r', 'u', 'e']);
    if value is Some {
        let v = value->0;
        let low = text::lower(v);
        if low == wanted {
            assert(low[0] == 't' && low[1] == 'r' && low[2] == 'u' && low[3] == 'e');
            assert(text::lower_char(v[0]) == 't' && text::lower_char(v[1]) == 'r'
                && text::lower_char(v[2]) == 'u' && text::lower_char(v[3]) == 'e');
        }
        if v.len() == 4 && (v[0] == 't' || v[0] == 'T') && (v[1] == 'r' || v[1] == 'R') && (v[2]
            == 'u' || v[2] == 'U') && (v[3] == 'e' || v[3] == 'E') {
            assert(low =~= wanted);
        }
    }
}

/// A stop changes the lifecycle and nothing of the configuration.
pub proof fn stop_changes_the_lifecycle_alone(status: StatusView, now: Seq<char>)
    ensures
        stopped(status, now) == (StatusView {
            lifecycle: GatewayInstanceLifecycle::Stopped,
            last_seen_at: Some(now),
            updated_at: now,
            ..status
        }),
{
}

/// What a service manager did is entered under its own action, as a success or as a
/// failure with its reason, and leaves the configuration as it was.
pub proof fn service_work_is_entered(
    status: StatusView,
    platform: ServicePlatform,
    reason: Seq<char>,
    now: Seq<char>,
)
    ensures
        ({
            let kept = |e: EntryView|
                e.previous_version == status.observed_config_version && e.active_version
                    == status.observed_config_version && e.target_version
                    == status.observed_config_version && e.previous_sha256
                    == status.observed_config_sha256 && e.active_sha256
                    == status.observed_config_sha256 && e.recorded_at == now;
            let failed = |e: EntryView, action: OperationAction|
                e.action == action && e.outcome == OperationOutcome::Failed && e.reason == Some(
                    reason,
                ) && kept(e);
            let done = |e: EntryView, action: OperationAction|
                e.action == action && e.outcome == OperationOutcome::Succeeded && e.reason is Some
                    && kept(e);
            &&& done(install_entry(status, Ok(platform), now), OperationAction::Install)
            &&& failed(install_entry(status, Err(reason), now), OperationAction::Install)
            &&& done(service_start_entry(status, Ok(platform), now), OperationAction::Start)
            &&& failed(service_start_entry(status, Err(reason), now), OperationAction::Start)
            &&& done(stop_entry(status, None, now), OperationAction::Stop)
            &&& failed(stop_entry(status, Some(reason), now), OperationAction::Stop)
            &&& done(uninstall_entry(status, Ok(platform), now), OperationAction::Uninstall)
            &&& failed(uninstall_entry(status, Err(reason), now), OperationAction::Uninstall)
        }),
{
}

/// The runtime is told what runs, what is planned and who manages it; what is not
/// known is taken out of its environment.
pub proof fn runtime_is_told_of_the_upgrade(
    status: StatusView,
    current_exe: Option<Seq<char>>,
    platform: Option<ServicePlatform>,
)
    ensures
        ({
            let changes = runtime_env(status, current_exe, platform);
            &&& changes.len() == 7
            &&& changes[0].name == "VERDICTAN_RUNTIME_ACTIVE_VERSION"@
            &&& changes[1].name == "VERDICTAN_RUNTIME_ACTIVE_BINARY_PATH"@
            &&& changes[2].name == "VERDICTAN_RUNTIME_TARGET_VERSION"@
            &&& changes[3].name == "VERDICTAN_RUNTIME_TARGET_BINARY_PATH"@
            &&& changes[4].name == "VERDICTAN_RUNTIME_LAST_RESTART_AT"@
            &&& changes[5].name == "VERDICTAN_RUNTIME_UPGRADE_PHASE"@
            &&& changes[6].name == "VERDICTAN_RUNTIME_SERVICE_MANAGER"@
            &&& status.runtime_upgrade_status is None ==> {
                &&& changes[0].value == text::filled(status.observed_config_version)
                &&& changes[1].value == text::filled(current_exe)
                &&& changes[2].value is None && changes[3].value is None && changes[4].value is None
                    && changes[5].value is None
                &&& platform is None ==> changes[6].value == Some("manual"@)
            }
            &&& status.runtime_upgrade_status matches Some(upgrade) ==> {
                &&& upgrade.active_version matches Some(v) ==> (!text::is_blank(v)
                    ==> changes[0].value == Some(text::trim(v)))
                &&& upgrade.active_version is None ==> changes[0].value == text::filled(
                    status.observed_config_version,
                )
                &&& upgrade.active_binary_path matches Some(v) ==> (!text::is_blank(v)
                    ==> changes[1].value == text::filled(Some(text::trim(v))))
                &&& changes[2].value == text::filled(upgrade.target_version)
                &&& changes[3].value == text::filled(upgrade.target_binary_path)
                &&& changes[4].value == text::filled(upgrade.last_restart_at)
                &&& changes[5].value is Some || text::is_blank(
                    crate::runtime_upgrade::phase_word(upgrade.phase),
                )
            }
        }),
{
}

// ---------------------------------------------------------------------------
// History
// ---------------------------------------------------------------------------

/// A filter lets its own actions through: a cancelled reconciliation counts as one, and
/// the three steps of an upgrade count as upgrades.
pub proof fn filter_lets_its_actions_through(entry: EntryView, filter: HistoryActionFilter)
    ensures
        wanted(entry, None),
        wanted(entry, Some(filter)) <==> match filter {
            HistoryActionFilter::Reload => entry.action == OperationAction::Reload,
            HistoryActionFilter::Reconcile => entry.action == OperationAction::Reconcile
                || entry.action == OperationAction::CancelReconcile,
            HistoryActionFilter::Revert => entry.action == OperationAction::Revert,
            HistoryActionFilter::Install => entry.action == OperationAction::Install,
            HistoryActionFilter::Start => entry.action == OperationAction::Start,
            HistoryActionFilter::Stop => entry.action == OperationAction::Stop,
            HistoryActionFilter::Uninstall => entry.action == OperationAction::Uninstall,
            HistoryActionFilter::Upgrade => entry.action == OperationAction::UpgradePlan
                || entry.action == OperationAction::UpgradeApply || entry.action
                == OperationAction::UpgradeRollback,
        },
{
}

/// A new entry comes first in the recent history if it is wanted, before all that was
/// recent; one that is not wanted changes nothing.
pub proof fn new_entry_comes_first(
    history: Seq<EntryView>,
    entry: EntryView,
    limit: nat,
    filter: Option<HistoryActionFilter>,
)
    ensures
        !wanted(entry, filter) ==> recent(history.push(entry), limit, filter) == recent(
            history,
            limit,
            filter,
        ),
        wanted(entry, filter) ==> {
            let all = seq![entry] + recent(history, limit, filter);
            let most = if limit == 0 {
                1nat
            } else {
                limit
            };
            recent(history.push(entry), limit, filter) == (if all.len() <= most {
                all
            } else {
                all.take(most as int)
            })
        },
        recent(Seq::empty(), limit, filter) == Seq::<EntryView>::empty(),
{
    let keep = |e: EntryView| wanted(e, filter);
    let longer = history.push(entry);
    assert(longer.reverse() =~= seq![entry] + history.reverse());
    Seq::filter_distributes_over_add(seq![entry], history.reverse(), keep);
    reveal(Seq::filter);
    assert(seq![entry].drop_last() =~= Seq::<EntryView>::empty());
    assert(Seq::<EntryView>::empty().filter(keep) =~= Seq::empty());
    assert(seq![entry].last() == entry);
    assert(seq![entry].filter(keep) =~= (if keep(entry) {
        seq![entry]
    } else {
        Seq::empty()
    }));
    let before = gateway_history::latest_first(history, filter);
    let after = gateway_history::latest_first(longer, filter);
    assert(Seq::<EntryView>::empty().reverse() =~= Seq::empty());
    assert(gateway_history::latest_first(Seq::empty(), filter) =~= Seq::empty());
    if keep(entry) {
        assert(after =~= seq![entry] + before);
        let most = if limit == 0 {
            1nat
        } else {
            limit
        };
        let all = seq![entry] + recent(history, limit, filter);
        assert(recent(longer, limit, filter) =~= (if all.len() <= most {
            all
        } else {
            all.take(most as int)
        }));
    } else {
        assert(after =~= before);
    }
}

/// A diff tells what the operation found and what it left, and that there was a change
/// exactly where the version or the digest is another.
pub proof fn diff_tells_the_change(name: Seq<char>, entry: EntryView)
    ensures
        ({
            let diff = diff_of(name, entry);
            &&& diff.version_changed <==> !(entry.previous_version == entry.active_version
                && entry.previous_sha256 == entry.active_sha256)
            &&& diff.instance_id == name
            &&& diff.previous_version == entry.previous_version
            &&& diff.previous_sha256 == entry.previous_sha256
            &&& diff.active_version == entry.active_version
            &&& diff.active_sha256 == entry.active_sha256
            &&& diff.recorded_at == entry.recorded_at
            &&& lines_of(diff).len() == 7
            &&& diff.version_changed ==> lines_of(diff)[6] == "  \u{2192} Config version CHANGED"@
            &&& !diff.version_changed ==> lines_of(diff)[6]
                == "  \u{2192} Config version unchanged"@
            &&& entry.active_version matches Some(v) ==> (entry.active_sha256 matches Some(s)
                ==> lines_of(diff)[5] == "  Active:   version="@ + v + " sha256="@ + s)
            &&& entry.previous_version matches Some(v) ==> (entry.previous_sha256 matches Some(s)
                ==> lines_of(diff)[4] == "  Previous: version="@ + v + " sha256="@ + s)
        }),
{
}

// ---------------------------------------------------------------------------
// Reports
// ---------------------------------------------------------------------------

/// The configuration that a gateway runs is reported only where it is the expected
/// one: with the version and the digest that were asked for, where any were.
pub proof fn only_the_expected_configuration_is_reported(
    answer: AnswerView,
    expect_version: Option<Seq<char>>,
    expect_sha256: Option<Seq<char>>,
)
    ensures
        config_report_of(answer, expect_version, expect_sha256) is Ok ==> reports_a_config(answer)
            && (answer matches AnswerView::Reply(reply) && (reply.json matches Ok(value) && (
        json::field(value, "config"@) matches Some(config) && (expect_version matches Some(v)
            ==> text::or_else(json::field_text(config, "config_version"@), Seq::empty()) == v) && (
        expect_sha256 matches Some(s) ==> text::or_else(
            json::field_text(config, "config_sha256"@),
            Seq::empty(),
        ) == s)))),
{
}

/// A response is as expected exactly where it holds a configuration with what was
/// asked for.
pub proof fn expected_means_held(
    value: JsonView,
    expect_version: Option<Seq<char>>,
    expect_sha256: Option<Seq<char>>,
)
    ensures
        expected_response(value, expect_version, expect_sha256) is Ok <==> (json::field(
            value,
            "config"@,
        ) matches Some(config) && config is Object && (expect_version matches Some(v)
            ==> text::or_else(json::field_text(config, "config_version"@), Seq::empty()) == v) && (
        expect_sha256 matches Some(s) ==> text::or_else(
            json::field_text(config, "config_sha256"@),
            Seq::empty(),
        ) == s)),
{
}

/// A report of a configuration ends with `Ready` exactly where the gateway is ready.
pub proof fn report_ends_with_the_verdict(
    config_name: Seq<char>,
    config: CheckedConfig,
    verbose: bool,
)
    ensures
        report_of(config_name, config, verbose).len() > 0,
        report_of(config_name, config, verbose).last() == "\u{2713} Status: Ready"@
            <==> config_ready(config),
{
    let lines = report_of(config_name, config, verbose);
    reveal_strlit("\u{2713} Status: Ready");
    reveal_strlit("\u{2717} Status: Not Ready");
    reveal_strlit("  - No providers configured");
    reveal_strlit("  - No active providers with resolved credentials");
    reveal_strlit("  - Required provider '");
    assert("\u{2713} Status: Ready"@[0] == '\u{2713}');
    assert("  - No providers configured"@[0] == ' ');
    assert("  - No active providers with resolved credentials"@[0] == ' ');
    assert("  - Required provider '"@[0] == ' ');
    match config.provider_registry {
        Some(registry) => {
            let targets = gateway_check::targets_of(registry.targets@);
            let section = status_section(active(targets), required_missing(targets));
            assert(section.len() > 0);
            assert(lines.last() == section.last());
            if !config_ready(config) {
                assert(section.last()[0] == ' ');
            }
        },
        None => {
            assert(lines.last() == "  - No providers configured"@);
        },
    }
}

/// A record shows the instance, its lifecycle and every error that is on record.
pub proof fn record_shows_what_is_known(
    supervisor: SupervisorStateMetadata,
    spec: SpecView,
    status: StatusView,
    history: Seq<EntryView>,
    limit: nat,
    filter: Option<HistoryActionFilter>,
    region: Option<Seq<char>>,
)
    ensures
        ({
            let lines = record_lines(supervisor, spec, status, history, limit, filter, region);
            &&& lines.take(6) == seq![
                "instance: "@ + spec.instance_id,
                "gateway id: "@ + spec.gateway_id,
                "name: "@ + spec.name,
                "region: "@ + (match region {
                    Some(r) if !text::is_blank(r) => r,
                    _ => "(not set)"@,
                }),
                "listen: "@ + spec.listen_addr,
                "lifecycle: "@ + crate::instances::lifecycle_word(status.lifecycle),
            ]
            &&& status.last_error matches Some(e) ==> lines.contains("last error: "@ + e)
            &&& status.last_reconciliation_error matches Some(e) ==> lines.contains(
                "last reconciliation error: "@ + e,
            )
            &&& status.last_reconciliation_outcome matches Some(o) ==> lines.contains(
                "last reconciliation outcome: "@ + o,
            )
            &&& recent(history, limit, filter).len() == 0 ==> lines.last() == "- none"@
            &&& recent(history, limit, filter).len() > 0 ==> lines.last() == "- "@
                + crate::gateway_status::entry_line(recent(history, limit, filter).last())
        }),
{
    let lines = record_lines(supervisor, spec, status, history, limit, filter, region);
    let base = seq![
        "instance: "@ + spec.instance_id,
        "gateway id: "@ + spec.gateway_id,
        "name: "@ + spec.name,
        "region: "@ + shown_region(region),
        "listen: "@ + spec.listen_addr,
        "lifecycle: "@ + crate::instances::lifecycle_word(status.lifecycle),
    ];
    assert(lines.take(6) =~= base);
    let a = base + text::labelled(
        "observed config: "@,
        crate::gateway_status::observed_config(status),
    );
    let b = a + text::labelled("last error: "@, status.last_error);
    let c = b + text::labelled("last reconciled at: "@, status.last_reconciled_at);
    let d = c + text::labelled(
        "last reconciliation outcome: "@,
        status.last_reconciliation_outcome,
    );
    let e = d + text::labelled("last reconciliation error: "@, status.last_reconciliation_error);
    if status.last_error is Some {
        assert(lines[a.len() as int] == "last error: "@ + status.last_error->0);
    }
    if status.last_reconciliation_outcome is Some {
        assert(lines[c.len() as int] == "last reconciliation outcome: "@
            + status.last_reconciliation_outcome->0);
    }
    if status.last_reconciliation_error is Some {
        assert(lines[d.len() as int] == "last reconciliation error: "@
            + status.last_reconciliation_error->0);
    }
}

/// An agent is named to a service exactly where its identifier is not given.
pub proof fn agent_is_named_unless_identified(
    env: Seq<Pair>,
    args: InstallArgsView,
    process: Seq<Pair>,
    other: Seq<char>,
)
    requires
        other != "VERDICTAN_AGENT_NAME"@,
    ensures
        ({
            let made = with_agent_name(env, args, process);
            let id = agent_arg(args.agent_id, process, "VERDICTAN_AGENT_ID"@);
            let name = agent_arg(args.agent_name, process, "VERDICTAN_AGENT_NAME"@);
            &&& env_map::lookup(made, "VERDICTAN_AGENT_NAME"@) == (if id is None && name is Some {
                name
            } else {
                env_map::lookup(env, "VERDICTAN_AGENT_NAME"@)
            })
            &&& env_map::lookup(made, other) == env_map::lookup(env, other)
        }),
{
    let name = agent_arg(args.agent_name, process, "VERDICTAN_AGENT_NAME"@);
    if name is Some {
        env_map::with_pair_lookup(env, "VERDICTAN_AGENT_NAME"@, name->0, other);
    }
}

/// A service without an instance gets the key of the upstream, its header, its prefix
/// and the token from the process; the header and the prefix of the arguments count
/// first.
pub proof fn plain_service_gets_its_keys(args: InstallArgsView, process: Seq<Pair>)
    ensures
        ({
            let made = plain_env(args, process);
            &&& env_map::lookup(made, "VERDICTAN_UPSTREAM_API_KEY"@) == env_map::lookup(
                process,
                "VERDICTAN_UPSTREAM_API_KEY"@,
            )
            &&& env_map::lookup(made, "VERDICTAN_API_TOKEN"@) == env_map::lookup(
                process,
                "VERDICTAN_API_TOKEN"@,
            )
            &&& env_map::lookup(made, "VERDICTAN_UPSTREAM_API_KEY_HEADER"@) == (
            match args.upstream_api_key_header {
                Some(header) => Some(header),
                None => env_map::lookup(process, "VERDICTAN_UPSTREAM_API_KEY_HEADER"@),
            })
            &&& env_map::lookup(made, "VERDICTAN_UPSTREAM_API_KEY_PREFIX"@) == (
            match args.upstream_api_key_prefix {
                Some(prefix) => Some(prefix),
                None => env_map::lookup(process, "VERDICTAN_UPSTREAM_API_KEY_PREFIX"@),
            })
        }),
{
    let key = "VERDICTAN_UPSTREAM_API_KEY"@;
    let header = "VERDICTAN_UPSTREAM_API_KEY_HEADER"@;
    let prefix = "VERDICTAN_UPSTREAM_API_KEY_PREFIX"@;
    let token = "VERDICTAN_API_TOKEN"@;
    reveal_strlit("VERDICTAN_UPSTREAM_API_KEY");
    reveal_strlit("VERDICTAN_UPSTREAM_API_KEY_HEADER");
    reveal_strlit("VERDICTAN_UPSTREAM_API_KEY_PREFIX");
    reveal_strlit("VERDICTAN_API_TOKEN");
    assert(key.len() == 26 && header.len() == 33 && prefix.len() == 33 && token.len() == 19);
    assert(header[27] == 'H' && prefix[27] == 'P');
    let none = Seq::<Pair>::empty();
    assert(forall|k: Seq<char>| #[trigger] env_map::lookup(none, k) is None);
    let v1 = env_map::lookup(process, key);
    let v2 = text::first_of(args.upstream_api_key_header, env_map::lookup(process, header));
    let v3 = text::first_of(args.upstream_api_key_prefix, env_map::lookup(process, prefix));
    let v4 = env_map::lookup(process, token);
    let e1 = with_value(none, key, v1);
    let e2 = with_value(e1, header, v2);
    let e3 = with_value(e2, prefix, v3);
    set_reads_back(none, key, v1, header);
    set_reads_back(none, key, v1, prefix);
    set_reads_back(none, key, v1, token);
    set_reads_back(e1, header, v2, key);
    set_reads_back(e1, header, v2, prefix);
    set_reads_back(e1, header, v2, token);
    set_reads_back(e2, prefix, v3, key);
    set_reads_back(e2, prefix, v3, header);
    set_reads_back(e2, prefix, v3, token);
    set_reads_back(e3, token, v4, key);
    set_reads_back(e3, token, v4, header);
    set_reads_back(e3, token, v4, prefix);
}

proof fn set_reads_back(env: Seq<Pair>, key: Seq<char>, value: Option<Seq<char>>, other: Seq<char>)
    requires
        other != key,
    ensures
        env_map::lookup(with_value(env, key, value), key) == (match value {
            Some(v) => Some(v),
            None => env_map::lookup(env, key),
        }),
        env_map::lookup(with_value(env, key, value), other) == env_map::lookup(env, other),
{
    if value is Some {
        env_map::with_pair_lookup(env, key, value->0, other);
    }
}

} // verus!
