//! Installing a gateway as a service.
use vstd::prelude::*;

use crate::env_map::{self, EnvMap, Pair};
use crate::error::CliError;
use crate::gateway_history::{self, operation_entry_at};
use crate::gateway_run::{DEFAULT_HOSTED_UPSTREAM_URL, DEFAULT_LISTEN_ADDR};
use crate::gateway_service::{
    self, GatewayServiceInstallSpec, InstallSpecView, ServicePlatform,
};
use crate::instances::{
    self, EntryView, GatewayInstanceSpec, InstanceRecord, OperationAction, OperationHistoryEntry,
    OperationOutcome, SecretReference, SecretView, SpecView, StatusView,
};
use crate::text;

verus! {

// ---------------------------------------------------------------------------
// The environment of a service
// ---------------------------------------------------------------------------

/// Every gateway works under the control plane.
pub fn connected_mode_from_env() -> (r: bool)
    ensures
        r,
{
    true
}

/// A variable that is set where there is a value.
pub open spec fn with_value(env: Seq<Pair>, key: Seq<char>, value: Option<Seq<char>>) -> Seq<Pair> {
    match value {
        Some(v) => env_map::with_pair(env, key, v),
        None => env,
    }
}

pub fn set_value(env: &mut EnvMap, key: &str, value: Option<&str>)
    ensures
        final(env)@ == with_value(old(env)@, key@, text::opt_ref(value)),
{
    match value {
        Some(value) => env.insert(key.to_string(), value.to_string()),
        None => {},
    }
}

/// The value, unless it is blank.
pub open spec fn non_blank_value(value: Option<Seq<char>>) -> Option<Seq<char>> {
    match value {
        Some(v) => if text::is_blank(v) {
            None
        } else {
            Some(v)
        },
        None => None,
    }
}

/// A variable of the process that is handed on, unless the service has one of that
/// name or the value is blank.
pub open spec fn copied(env: Seq<Pair>, key: Seq<char>, process: Seq<Pair>) -> Seq<Pair> {
    if env_map::lookup(env, key) is Some {
        env
    } else {
        with_value(env, key, non_blank_value(env_map::lookup(process, key)))
    }
}

pub fn copy_nonempty_env(env: &mut EnvMap, key: &str, process: &EnvMap)
    ensures
        final(env)@ == copied(old(env)@, key@, process@),
{
    if env.contains_key(key) {
        return;
    }
    match process.get(key) {
        Some(value) => if !text::is_blank_text(value) {
            env.insert(key.to_string(), value.to_string());
        },
        None => {},
    }
}

pub open spec fn with_api_url(
    env: Seq<Pair>,
    process: Seq<Pair>,
    default_api_url: Seq<char>,
) -> Seq<Pair> {
    if env_map::lookup(env, "VERDICTAN_API_URL"@) is Some {
        env
    } else {
        env_map::with_pair(
            env,
            "VERDICTAN_API_URL"@,
            text::or_else(
                non_blank_value(env_map::lookup(process, "VERDICTAN_API_URL"@)),
                default_api_url,
            ),
        )
    }
}

/// The variables that every service needs to reach the control plane.
pub open spec fn with_runtime_env(
    env: Seq<Pair>,
    process: Seq<Pair>,
    default_api_url: Seq<char>,
) -> Seq<Pair> {
    copied(
        copied(
            with_api_url(env, process, default_api_url),
            "VERDICTAN_API_TOKEN"@,
            process,
        ),
        "VERDICTAN_OTLP_ENDPOINT"@,
        process,
    )
}

pub fn populate_service_runtime_env(env: &mut EnvMap, process: &EnvMap, default_api_url: &str)
    ensures
        final(env)@ == with_runtime_env(old(env)@, process@, default_api_url@),
{
    if !env.contains_key("VERDICTAN_API_URL") {
        let given: Option<&str> = match process.get("VERDICTAN_API_URL") {
            Some(value) => if text::is_blank_text(value) {
                None
            } else {
                Some(value)
            },
            None => None,
        };
        let url = match given {
            Some(url) => url,
            None => default_api_url,
        };
        env.insert("VERDICTAN_API_URL".to_string(), url.to_string());
    }
    copy_nonempty_env(env, "VERDICTAN_API_TOKEN", process);
    copy_nonempty_env(env, "VERDICTAN_OTLP_ENDPOINT", process);
}

pub open spec fn agent_arg(value: Option<Seq<char>>, process: Seq<Pair>, key: Seq<char>) -> Option<
    Seq<char>,
> {
    text::filled(text::first_of(value, env_map::lookup(process, key)))
}

fn resolve_agent_arg(value: Option<&str>, process: &EnvMap, key: &str) -> (r: Option<String>)
    ensures
        text::opt(r) == agent_arg(text::opt_ref(value), process@, key@),
{
    match value {
        Some(value) => text::filled_text(Some(value)),
        None => text::filled_text(process.get(key)),
    }
}

/// The agent of the argument, else that of VERDICTAN_AGENT_ID; none if the one
/// chosen is blank.
pub fn resolve_agent_id_arg(value: Option<&str>, process: &EnvMap) -> (r: Option<String>)
    ensures
        text::opt(r) == agent_arg(text::opt_ref(value), process@, "VERDICTAN_AGENT_ID"@),
{
    resolve_agent_arg(value, process, "VERDICTAN_AGENT_ID")
}

/// The name of the argument, else that of VERDICTAN_AGENT_NAME; none if the one
/// chosen is blank.
pub fn resolve_agent_name_arg(value: Option<&str>, process: &EnvMap) -> (r: Option<String>)
    ensures
        text::opt(r) == agent_arg(text::opt_ref(value), process@, "VERDICTAN_AGENT_NAME"@),
{
    resolve_agent_arg(value, process, "VERDICTAN_AGENT_NAME")
}

/// A secret for the service: its value, if it could be resolved, and the name of the
/// variable that it came from.
pub open spec fn with_secret(
    env: Seq<Pair>,
    key: Seq<char>,
    source_key: Seq<char>,
    reference: Option<SecretView>,
    resolved: Option<Seq<char>>,
) -> Seq<Pair> {
    match reference {
        None => env,
        Some(SecretView::EnvVar(name)) => env_map::with_pair(
            with_value(env, key, resolved),
            source_key,
            name,
        ),
        Some(SecretView::Keychain(_, _)) => with_value(env, key, resolved),
    }
}

pub fn set_secret(
    env: &mut EnvMap,
    key: &str,
    source_key: &str,
    reference: &Option<SecretReference>,
    resolved: Option<&str>,
)
    ensures
        final(env)@ == with_secret(
            old(env)@,
            key@,
            source_key@,
            instances::opt_secret(*reference),
            text::opt_ref(resolved),
        ),
{
    match reference {
        None => {},
        Some(reference) => {
            set_value(env, key, resolved);
            match reference {
                SecretReference::EnvVar { name } => env.insert(
                    source_key.to_string(),
                    name.clone(),
                ),
                SecretReference::Keychain { service: _, account: _ } => {},
            }
        },
    }
}

/// The secrets of an instance, as far as they could be resolved.
#[derive(Debug)]
pub struct ResolvedSecrets {
    pub upstream_api_key: Option<String>,
    pub admin_token: Option<String>,
}

pub struct SecretsView {
    pub upstream_api_key: Option<Seq<char>>,
    pub admin_token: Option<Seq<char>>,
}

impl View for ResolvedSecrets {
    type V = SecretsView;

    open spec fn view(&self) -> SecretsView {
        SecretsView {
            upstream_api_key: text::opt(self.upstream_api_key),
            admin_token: text::opt(self.admin_token),
        }
    }
}

/// The environment that marks a service of the supervisor, with the secrets of the
/// instance.
pub open spec fn supervised_env(spec: SpecView, secrets: SecretsView) -> Seq<Pair> {
    with_secret(
        with_secret(
            env_map::with_pair(Seq::empty(), "VERDICTAN_SUPERVISOR_SERVICE_MODE"@, "1"@),
            "VERDICTAN_UPSTREAM_API_KEY"@,
            "VERDICTAN_UPSTREAM_API_KEY_SOURCE"@,
            spec.upstream_api_key,
            secrets.upstream_api_key,
        ),
        "VERDICTAN_API_TOKEN"@,
        "VERDICTAN_API_TOKEN_SOURCE"@,
        spec.admin_token,
        secrets.admin_token,
    )
}

pub fn build_supervised_env(spec: &GatewayInstanceSpec, secrets: &ResolvedSecrets) -> (r: EnvMap)
    ensures
        r@ == supervised_env(spec@, secrets@),
{
    let mut env = EnvMap::new();
    env.insert("VERDICTAN_SUPERVISOR_SERVICE_MODE".to_string(), "1".to_string());
    set_secret(
        &mut env,
        "VERDICTAN_UPSTREAM_API_KEY",
        "VERDICTAN_UPSTREAM_API_KEY_SOURCE",
        &spec.upstream_api_key,
        text::borrow_opt(&secrets.upstream_api_key),
    );
    set_secret(
        &mut env,
        "VERDICTAN_API_TOKEN",
        "VERDICTAN_API_TOKEN_SOURCE",
        &spec.admin_token,
        text::borrow_opt(&secrets.admin_token),
    );
    env
}

/// The command with which a service starts an instance.
pub open spec fn start_command_of(instance_id: Seq<char>, state_dir: Seq<char>) -> Seq<Seq<char>> {
    seq!["gateway"@, "start"@, "--name"@, instance_id, "--state-dir"@, state_dir]
}

pub fn start_command(instance_id: &str, state_dir: &str) -> (r: Vec<String>)
    ensures
        text::texts(r@) == start_command_of(instance_id@, state_dir@),
{
    let command: Vec<String> = vec![
        "gateway".to_string(),
        "start".to_string(),
        "--name".to_string(),
        instance_id.to_string(),
        "--state-dir".to_string(),
        state_dir.to_string(),
    ];
    assert(text::texts(command@) =~= start_command_of(instance_id@, state_dir@));
    command
}

// ---------------------------------------------------------------------------
// The installation
// ---------------------------------------------------------------------------

#[derive(Debug)]
pub struct GatewayInstallArgs {
    pub name: String,
    pub listen: Option<String>,
    pub upstream: Option<String>,
    pub upstream_api_key_header: Option<String>,
    pub upstream_api_key_prefix: Option<String>,
    pub fail_mode: String,
    pub policy_config: Vec<String>,
    pub max_concurrency: Option<usize>,
    pub agent_id: Option<String>,
    pub agent_name: Option<String>,
    pub state_dir: Option<String>,
}

pub struct InstallArgsView {
    pub name: Seq<char>,
    pub listen: Option<Seq<char>>,
    pub upstream: Option<Seq<char>>,
    pub upstream_api_key_header: Option<Seq<char>>,
    pub upstream_api_key_prefix: Option<Seq<char>>,
    pub fail_mode: Seq<char>,
    pub policy_config: Seq<Seq<char>>,
    pub max_concurrency: Option<usize>,
    pub agent_id: Option<Seq<char>>,
    pub agent_name: Option<Seq<char>>,
    pub state_dir: Option<Seq<char>>,
}

impl View for GatewayInstallArgs {
    type V = InstallArgsView;

    open spec fn view(&self) -> InstallArgsView {
        InstallArgsView {
            name: self.name@,
            listen: text::opt(self.listen),
            upstream: text::opt(self.upstream),
            upstream_api_key_header: text::opt(self.upstream_api_key_header),
            upstream_api_key_prefix: text::opt(self.upstream_api_key_prefix),
            fail_mode: self.fail_mode@,
            policy_config: text::texts(self.policy_config@),
            max_concurrency: self.max_concurrency,
            agent_id: text::opt(self.agent_id),
            agent_name: text::opt(self.agent_name),
            state_dir: text::opt(self.state_dir),
        }
    }
}

/// The name of the agent stands for it where its identifier is not known.
pub open spec fn with_agent_name(
    env: Seq<Pair>,
    args: InstallArgsView,
    process: Seq<Pair>,
) -> Seq<Pair> {
    if agent_arg(args.agent_id, process, "VERDICTAN_AGENT_ID"@) is Some {
        env
    } else {
        with_value(
            env,
            "VERDICTAN_AGENT_NAME"@,
            agent_arg(args.agent_name, process, "VERDICTAN_AGENT_NAME"@),
        )
    }
}

fn set_agent_name(
    env: &mut EnvMap,
    agent_id: &Option<String>,
    agent_name: &Option<String>,
    process: &EnvMap,
)
    ensures
        final(env)@ == (if agent_id is Some {
            old(env)@
        } else {
            with_value(
                old(env)@,
                "VERDICTAN_AGENT_NAME"@,
                agent_arg(text::opt(*agent_name), process@, "VERDICTAN_AGENT_NAME"@),
            )
        }),
{
    if agent_id.is_none() {
        let name = resolve_agent_name_arg(text::borrow_opt(agent_name), process);
        set_value(env, "VERDICTAN_AGENT_NAME", text::borrow_opt(&name));
    }
}

/// The service of an instance that the supervisor knows.
pub open spec fn instance_install_of(
    args: InstallArgsView,
    spec: SpecView,
    secrets: SecretsView,
    state_dir: Seq<char>,
    process: Seq<Pair>,
    default_api_url: Seq<char>,
) -> InstallSpecView {
    InstallSpecView {
        name: args.name,
        listen: spec.listen_addr,
        upstream: Some(spec.upstream_base_url),
        policy_configs: spec.policy_paths,
        fail_mode: spec.fail_mode,
        max_concurrency: Some(spec.max_concurrency),
        connected_mode: true,
        api_token: None,
        agent_id: agent_arg(args.agent_id, process, "VERDICTAN_AGENT_ID"@),
        env: with_agent_name(
            with_runtime_env(supervised_env(spec, secrets), process, default_api_url),
            args,
            process,
        ),
        command_override: Some(start_command_of(spec.instance_id, state_dir)),
        binary_path_override: None,
    }
}

pub fn instance_install_spec(
    args: &GatewayInstallArgs,
    record: &InstanceRecord,
    secrets: &ResolvedSecrets,
    state_dir: &str,
    process: &EnvMap,
    default_api_url: &str,
) -> (r: GatewayServiceInstallSpec)
    ensures
        r@ == instance_install_of(
            args@,
            record.spec@,
            secrets@,
            state_dir@,
            process@,
            default_api_url@,
        ),
{
    let mut env = build_supervised_env(&record.spec, secrets);
    populate_service_runtime_env(&mut env, process, default_api_url);
    let agent_id = resolve_agent_id_arg(text::borrow_opt(&args.agent_id), process);
    set_agent_name(&mut env, &agent_id, &args.agent_name, process);
    GatewayServiceInstallSpec {
        name: args.name.clone(),
        listen: record.spec.listen_addr.clone(),
        upstream: Some(record.spec.upstream_base_url.clone()),
        policy_configs: text::copy_texts(&record.spec.policy_paths),
        fail_mode: record.spec.fail_mode.clone(),
        max_concurrency: Some(record.spec.max_concurrency),
        connected_mode: connected_mode_from_env(),
        api_token: None,
        agent_id,
        env,
        command_override: Some(start_command(record.spec.instance_id.as_str(), state_dir)),
        binary_path_override: None,
    }
}

/// The environment of a service that the supervisor does not know.
pub open spec fn plain_env(args: InstallArgsView, process: Seq<Pair>) -> Seq<Pair> {
    with_value(
        with_value(
            with_value(
                with_value(
                    Seq::empty(),
                    "VERDICTAN_UPSTREAM_API_KEY"@,
                    env_map::lookup(process, "VERDICTAN_UPSTREAM_API_KEY"@),
                ),
                "VERDICTAN_UPSTREAM_API_KEY_HEADER"@,
                text::first_of(
                    args.upstream_api_key_header,
                    env_map::lookup(process, "VERDICTAN_UPSTREAM_API_KEY_HEADER"@),
                ),
            ),
            "VERDICTAN_UPSTREAM_API_KEY_PREFIX"@,
            text::first_of(
                args.upstream_api_key_prefix,
                env_map::lookup(process, "VERDICTAN_UPSTREAM_API_KEY_PREFIX"@),
            ),
        ),
        "VERDICTAN_API_TOKEN"@,
        env_map::lookup(process, "VERDICTAN_API_TOKEN"@),
    )
}

/// The service of a gateway that the supervisor does not know.
pub open spec fn plain_install_of(
    args: InstallArgsView,
    connected_mode: bool,
    process: Seq<Pair>,
    default_api_url: Seq<char>,
) -> InstallSpecView {
    let asked = text::first_of(args.upstream, env_map::lookup(process, "VERDICTAN_UPSTREAM_URL"@));
    InstallSpecView {
        name: args.name,
        listen: text::or_else(args.listen, DEFAULT_LISTEN_ADDR@),
        upstream: if connected_mode {
            asked
        } else {
            text::first_of(asked, Some(DEFAULT_HOSTED_UPSTREAM_URL@))
        },
        policy_configs: args.policy_config,
        fail_mode: args.fail_mode,
        max_concurrency: args.max_concurrency,
        connected_mode,
        api_token: None,
        agent_id: agent_arg(args.agent_id, process, "VERDICTAN_AGENT_ID"@),
        env: with_agent_name(
            with_runtime_env(plain_env(args, process), process, default_api_url),
            args,
            process,
        ),
        command_override: None,
        binary_path_override: None,
    }
}

fn set_first(env: &mut EnvMap, key: &str, value: &Option<String>, process: &EnvMap)
    ensures
        final(env)@ == with_value(
            old(env)@,
            key@,
            text::first_of(text::opt(*value), env_map::lookup(process@, key@)),
        ),
{
    match value {
        Some(value) => set_value(env, key, Some(value.as_str())),
        None => set_value(env, key, process.get(key)),
    }
}

pub fn plain_install_spec(
    args: &GatewayInstallArgs,
    connected_mode: bool,
    process: &EnvMap,
    default_api_url: &str,
) -> (r: GatewayServiceInstallSpec)
    ensures
        r@ == plain_install_of(args@, connected_mode, process@, default_api_url@),
{
    let given = text::own_opt(process.get("VERDICTAN_UPSTREAM_URL"));
    let asked = text::first_text(&args.upstream, &given);
    let upstream: Option<String> = match asked {
        Some(url) => Some(url),
        None => if connected_mode {
            None
        } else {
            Some(DEFAULT_HOSTED_UPSTREAM_URL.to_string())
        },
    };
    let mut env = EnvMap::new();
    set_value(&mut env, "VERDICTAN_UPSTREAM_API_KEY", process.get("VERDICTAN_UPSTREAM_API_KEY"));
    set_first(
        &mut env,
        "VERDICTAN_UPSTREAM_API_KEY_HEADER",
        &args.upstream_api_key_header,
        process,
    );
    set_first(
        &mut env,
        "VERDICTAN_UPSTREAM_API_KEY_PREFIX",
        &args.upstream_api_key_prefix,
        process,
    );
    set_value(&mut env, "VERDICTAN_API_TOKEN", process.get("VERDICTAN_API_TOKEN"));
    populate_service_runtime_env(&mut env, process, default_api_url);
    let agent_id = resolve_agent_id_arg(text::borrow_opt(&args.agent_id), process);
    set_agent_name(&mut env, &agent_id, &args.agent_name, process);
    GatewayServiceInstallSpec {
        name: args.name.clone(),
        listen: text::unwrap_text(&args.listen, DEFAULT_LISTEN_ADDR),
        upstream,
        policy_configs: text::copy_texts(&args.policy_config),
        fail_mode: args.fail_mode.clone(),
        max_concurrency: args.max_concurrency,
        connected_mode,
        api_token: None,
        agent_id,
        env,
        command_override: None,
        binary_path_override: None,
    }
}

pub fn platform_name(platform: &ServicePlatform) -> (r: &'static str)
    ensures
        r@ == gateway_service::display_name_of(*platform),
{
    platform.display_name()
}

pub open spec fn install_entry(
    status: StatusView,
    outcome: Result<ServicePlatform, Seq<char>>,
    now: Seq<char>,
) -> EntryView {
    match outcome {
        Ok(platform) => gateway_history::unchanged_entry(
            OperationAction::Install,
            OperationOutcome::Succeeded,
            Some("installed via "@ + gateway_service::display_name_of(platform)),
            status,
            now,
        ),
        Err(reason) => gateway_history::unchanged_entry(
            OperationAction::Install,
            OperationOutcome::Failed,
            Some(reason),
            status,
            now,
        ),
    }
}

/// The entry that the history of an instance gets when its service is installed, or
/// could not be installed.
pub fn record_install(
    record: &InstanceRecord,
    outcome: &Result<ServicePlatform, CliError>,
    now: &str,
) -> (r: OperationHistoryEntry)
    ensures
        r@ == install_entry(
            record.status@,
            crate::gateway_uninstall::outcome_of(*outcome),
            now@,
        ),
{
    match outcome {
        Ok(platform) => operation_entry_at(
            OperationAction::Install,
            OperationOutcome::Succeeded,
            Some(text::concat("installed via ", platform_name(platform))),
            record,
            now,
        ),
        Err(error) => operation_entry_at(
            OperationAction::Install,
            OperationOutcome::Failed,
            Some(error.to_string()),
            record,
            now,
        ),
    }
}

/// The lines that report the installation.
pub fn installed_lines(platform: &ServicePlatform, name: &str, service_file: &str) -> (r: Vec<
    String,
>)
    ensures
        text::texts(r@) == seq![
            "installed "@ + gateway_service::display_name_of(*platform) + " service "@ + name@,
            "service file: "@ + service_file@,
        ],
{
    let mut installed = "installed ".to_string();
    installed.append(platform_name(platform));
    installed.append(" service ");
    installed.append(name);
    let lines: Vec<String> = vec![installed, text::concat("service file: ", service_file)];
    assert(text::texts(lines@) =~= seq![
        "installed "@ + gateway_service::display_name_of(*platform) + " service "@ + name@,
        "service file: "@ + service_file@,
    ]);
    lines
}

// ---------------------------------------------------------------------------
// Laws
// ---------------------------------------------------------------------------

proof fn copied_keeps(env: Seq<Pair>, key: Seq<char>, process: Seq<Pair>, other: Seq<char>)
    ensures
        env_map::lookup(env, other) is Some ==> env_map::lookup(copied(env, key, process), other)
            == env_map::lookup(env, other),
{
    match non_blank_value(env_map::lookup(process, key)) {
        Some(v) => env_map::with_pair_lookup(env, key, v, other),
        None => {},
    }
}

/// What a service was given is never replaced by what the process has.
pub proof fn runtime_env_keeps_what_is_set(
    env: Seq<Pair>,
    process: Seq<Pair>,
    default_api_url: Seq<char>,
    key: Seq<char>,
)
    requires
        env_map::lookup(env, key) is Some,
    ensures
        env_map::lookup(with_runtime_env(env, process, default_api_url), key) == env_map::lookup(
            env,
            key,
        ),
{
    let url = with_api_url(env, process, default_api_url);
    env_map::with_pair_lookup(
        env,
        "VERDICTAN_API_URL"@,
        text::or_else(
            non_blank_value(env_map::lookup(process, "VERDICTAN_API_URL"@)),
            default_api_url,
        ),
        key,
    );
    copied_keeps(url, "VERDICTAN_API_TOKEN"@, process, key);
    copied_keeps(
        copied(url, "VERDICTAN_API_TOKEN"@, process),
        "VERDICTAN_OTLP_ENDPOINT"@,
        process,
        key,
    );
}

/// Every service knows where the control plane is.
pub proof fn runtime_env_has_an_api_url(
    env: Seq<Pair>,
    process: Seq<Pair>,
    default_api_url: Seq<char>,
)
    ensures
        env_map::lookup(
            with_runtime_env(env, process, default_api_url),
            "VERDICTAN_API_URL"@,
        ) is Some,
{
    let url = with_api_url(env, process, default_api_url);
    env_map::with_pair_lookup(
        env,
        "VERDICTAN_API_URL"@,
        text::or_else(
            non_blank_value(env_map::lookup(process, "VERDICTAN_API_URL"@)),
            default_api_url,
        ),
        "VERDICTAN_API_URL"@,
    );
    copied_keeps(url, "VERDICTAN_API_TOKEN"@, process, "VERDICTAN_API_URL"@);
    copied_keeps(
        copied(url, "VERDICTAN_API_TOKEN"@, process),
        "VERDICTAN_OTLP_ENDPOINT"@,
        process,
        "VERDICTAN_API_URL"@,
    );
}

} // verus!
