//! Running a gateway in the foreground: its settings, its agent and its policy.
use vstd::prelude::*;

use crate::env_map::{self, EnvMap, Pair};
use crate::error::{self, CliError, ErrorView};
use crate::gateway_start::EnvChange;
use crate::json::{self, Json, JsonView};
use crate::text;

verus! {

/// Stands for an upstream that the control plane names per request.
pub const DYNAMIC_PROVIDER_UPSTREAM_SENTINEL: &'static str =
    "http://verdictan-dynamic-provider.invalid";

/// Upstream of a gateway that runs without the control plane.
pub const DEFAULT_HOSTED_UPSTREAM_URL: &'static str = "https://api.verdictan.com";

pub const DEFAULT_LISTEN_ADDR: &'static str = "0.0.0.0:41002";

/// Where a disconnected gateway looks for a policy that was not named.
pub const DEFAULT_POLICY_CONFIG: &'static str = "/etc/verdictan/policy-config.yaml";

pub const DEFAULT_MAX_CONCURRENCY: usize = 16;

// ---------------------------------------------------------------------------
// The environment
// ---------------------------------------------------------------------------

#[derive(Clone, Debug, PartialEq, Eq)]
pub struct GatewayRunEnvironment {
    pub api_base_url: Option<String>,
    pub api_token: Option<String>,
    pub upstream_url: Option<String>,
    pub upstream_api_key: Option<String>,
    pub upstream_api_key_header: Option<String>,
    pub upstream_api_key_prefix: Option<String>,
    pub max_concurrency: Option<usize>,
    pub runtime_registration_id: Option<String>,
    pub runtime_agent_id: Option<String>,
    pub runtime_agent_selector: Option<String>,
}

pub struct RunEnvView {
    pub api_base_url: Option<Seq<char>>,
    pub api_token: Option<Seq<char>>,
    pub upstream_url: Option<Seq<char>>,
    pub upstream_api_key: Option<Seq<char>>,
    pub upstream_api_key_header: Option<Seq<char>>,
    pub upstream_api_key_prefix: Option<Seq<char>>,
    pub max_concurrency: Option<usize>,
    pub runtime_registration_id: Option<Seq<char>>,
    pub runtime_agent_id: Option<Seq<char>>,
    pub runtime_agent_selector: Option<Seq<char>>,
}

impl View for GatewayRunEnvironment {
    type V = RunEnvView;

    open spec fn view(&self) -> RunEnvView {
        RunEnvView {
            api_base_url: text::opt(self.api_base_url),
            api_token: text::opt(self.api_token),
            upstream_url: text::opt(self.upstream_url),
            upstream_api_key: text::opt(self.upstream_api_key),
            upstream_api_key_header: text::opt(self.upstream_api_key_header),
            upstream_api_key_prefix: text::opt(self.upstream_api_key_prefix),
            max_concurrency: self.max_concurrency,
            runtime_registration_id: text::opt(self.runtime_registration_id),
            runtime_agent_id: text::opt(self.runtime_agent_id),
            runtime_agent_selector: text::opt(self.runtime_agent_selector),
        }
    }
}

pub open spec fn empty_run_env() -> RunEnvView {
    RunEnvView {
        api_base_url: None,
        api_token: None,
        upstream_url: None,
        upstream_api_key: None,
        upstream_api_key_header: None,
        upstream_api_key_prefix: None,
        max_concurrency: None,
        runtime_registration_id: None,
        runtime_agent_id: None,
        runtime_agent_selector: None,
    }
}

impl Default for GatewayRunEnvironment {
    fn default() -> (r: GatewayRunEnvironment)
        ensures
            r@ == empty_run_env(),
    {
        GatewayRunEnvironment {
            api_base_url: None,
            api_token: None,
            upstream_url: None,
            upstream_api_key: None,
            upstream_api_key_header: None,
            upstream_api_key_prefix: None,
            max_concurrency: None,
            runtime_registration_id: None,
            runtime_agent_id: None,
            runtime_agent_selector: None,
        }
    }
}

/// The text without the whitespace around it, if anything is left.
pub fn trimmed_non_empty(value: &str) -> (r: Option<String>)
    ensures
        text::opt(r) == text::non_blank(value@),
{
    text::non_blank_text(value)
}

pub open spec fn filled_env(process: Seq<Pair>, name: Seq<char>) -> Option<Seq<char>> {
    text::filled(env_map::lookup(process, name))
}

fn read_env(process: &EnvMap, name: &str) -> (r: Option<String>)
    ensures
        text::opt(r) == env_map::lookup(process@, name@),
{
    text::own_opt(process.get(name))
}

fn read_trimmed_non_empty_env(process: &EnvMap, name: &str) -> (r: Option<String>)
    ensures
        text::opt(r) == filled_env(process@, name@),
{
    text::filled_text(process.get(name))
}

/// The number that a text holds in full, if it fits.
pub open spec fn size_of(value: Option<Seq<char>>) -> Option<usize> {
    match value {
        Some(v) => match text::at_most(text::parse_number(v), usize::MAX as nat) {
            Some(n) => Some(n as usize),
            None => None,
        },
        None => None,
    }
}

pub open spec fn run_env_of(process: Seq<Pair>) -> RunEnvView {
    RunEnvView {
        api_base_url: filled_env(process, "VERDICTAN_API_URL"@),
        api_token: filled_env(process, "VERDICTAN_API_TOKEN"@),
        upstream_url: env_map::lookup(process, "VERDICTAN_UPSTREAM_URL"@),
        upstream_api_key: env_map::lookup(process, "VERDICTAN_UPSTREAM_API_KEY"@),
        upstream_api_key_header: env_map::lookup(process, "VERDICTAN_UPSTREAM_API_KEY_HEADER"@),
        upstream_api_key_prefix: env_map::lookup(process, "VERDICTAN_UPSTREAM_API_KEY_PREFIX"@),
        max_concurrency: size_of(env_map::lookup(process, "VERDICTAN_GATEWAY_MAX_CONCURRENCY"@)),
        runtime_registration_id: filled_env(process, "VERDICTAN_RUNTIME_REGISTRATION_ID"@),
        runtime_agent_id: filled_env(process, "VERDICTAN_AGENT_ID"@),
        runtime_agent_selector: filled_env(process, "VERDICTAN_AGENT_NAME"@),
    }
}

impl GatewayRunEnvironment {
    /// Reads the variables of the process.
    pub fn from_process(process: &EnvMap) -> (r: GatewayRunEnvironment)
        ensures
            r@ == run_env_of(process@),
    {
        let max_concurrency: Option<usize> = match process.get(
            "VERDICTAN_GATEWAY_MAX_CONCURRENCY",
        ) {
            Some(value) => match text::parse_number_text(value, usize::MAX as u64) {
                Some(n) => Some(n as usize),
                None => None,
            },
            None => None,
        };
        GatewayRunEnvironment {
            api_base_url: read_trimmed_non_empty_env(process, "VERDICTAN_API_URL"),
            api_token: read_trimmed_non_empty_env(process, "VERDICTAN_API_TOKEN"),
            upstream_url: read_env(process, "VERDICTAN_UPSTREAM_URL"),
            upstream_api_key: read_env(process, "VERDICTAN_UPSTREAM_API_KEY"),
            upstream_api_key_header: read_env(process, "VERDICTAN_UPSTREAM_API_KEY_HEADER"),
            upstream_api_key_prefix: read_env(process, "VERDICTAN_UPSTREAM_API_KEY_PREFIX"),
            max_concurrency,
            runtime_registration_id: read_trimmed_non_empty_env(
                process,
                "VERDICTAN_RUNTIME_REGISTRATION_ID",
            ),
            runtime_agent_id: read_trimmed_non_empty_env(process, "VERDICTAN_AGENT_ID"),
            runtime_agent_selector: read_trimmed_non_empty_env(process, "VERDICTAN_AGENT_NAME"),
        }
    }
}

/// What the runtime is to find in its environment beside what is there.
#[derive(Clone, Debug, PartialEq, Eq)]
pub struct GatewayRuntimeLaunchEnv {
    pub api_token: Option<String>,
    pub agent_id: Option<String>,
}

pub struct LaunchEnvView {
    pub api_token: Option<Seq<char>>,
    pub agent_id: Option<Seq<char>>,
}

impl View for GatewayRuntimeLaunchEnv {
    type V = LaunchEnvView;

    open spec fn view(&self) -> LaunchEnvView {
        LaunchEnvView { api_token: text::opt(self.api_token), agent_id: text::opt(self.agent_id) }
    }
}

impl Default for GatewayRuntimeLaunchEnv {
    fn default() -> (r: GatewayRuntimeLaunchEnv)
        ensures
            r@ == (LaunchEnvView { api_token: None, agent_id: None }),
    {
        GatewayRuntimeLaunchEnv { api_token: None, agent_id: None }
    }
}

/// A variable that is set, where there is a value.
pub open spec fn set_if(name: Seq<char>, value: Option<Seq<char>>) -> Seq<
    crate::gateway_start::EnvChangeView,
> {
    match value {
        Some(_) => seq![crate::gateway_start::EnvChangeView { name, value }],
        None => Seq::empty(),
    }
}

impl GatewayRuntimeLaunchEnv {
    /// The variables of the process to set. None is removed.
    pub fn apply_to_process_env(&self) -> (r: Vec<EnvChange>)
        ensures
            crate::gateway_start::changes(r@) == set_if(
                "VERDICTAN_API_TOKEN"@,
                self@.api_token,
            ) + set_if("VERDICTAN_AGENT_ID"@, self@.agent_id),
    {
        let mut out: Vec<EnvChange> = Vec::new();
        if self.api_token.is_some() {
            out.push(
                EnvChange {
                    name: "VERDICTAN_API_TOKEN".to_string(),
                    value: text::copy_opt(&self.api_token),
                },
            );
        }
        if self.agent_id.is_some() {
            out.push(
                EnvChange {
                    name: "VERDICTAN_AGENT_ID".to_string(),
                    value: text::copy_opt(&self.agent_id),
                },
            );
        }
        assert(crate::gateway_start::changes(out@) =~= set_if(
            "VERDICTAN_API_TOKEN"@,
            self@.api_token,
        ) + set_if("VERDICTAN_AGENT_ID"@, self@.agent_id));
        out
    }
}

// ---------------------------------------------------------------------------
// The settings of the runtime
// ---------------------------------------------------------------------------

#[derive(Debug)]
pub struct GatewayRunArgs {
    pub listen: String,
    pub upstream: Option<String>,
    pub upstream_api_key_header: Option<String>,
    pub upstream_api_key_prefix: Option<String>,
    pub fail_mode: String,
    pub policy_config: Vec<String>,
    pub agent: Option<String>,
    pub config_name: Option<String>,
    pub max_concurrency: Option<usize>,
    pub runtime_registration_id: Option<String>,
}

pub struct RunArgsView {
    pub listen: Seq<char>,
    pub upstream: Option<Seq<char>>,
    pub upstream_api_key_header: Option<Seq<char>>,
    pub upstream_api_key_prefix: Option<Seq<char>>,
    pub fail_mode: Seq<char>,
    pub policy_config: Seq<Seq<char>>,
    pub agent: Option<Seq<char>>,
    pub config_name: Option<Seq<char>>,
    pub max_concurrency: Option<usize>,
    pub runtime_registration_id: Option<Seq<char>>,
}

impl View for GatewayRunArgs {
    type V = RunArgsView;

    open spec fn view(&self) -> RunArgsView {
        RunArgsView {
            listen: self.listen@,
            upstream: text::opt(self.upstream),
            upstream_api_key_header: text::opt(self.upstream_api_key_header),
            upstream_api_key_prefix: text::opt(self.upstream_api_key_prefix),
            fail_mode: self.fail_mode@,
            policy_config: text::texts(self.policy_config@),
            agent: text::opt(self.agent),
            config_name: text::opt(self.config_name),
            max_concurrency: self.max_concurrency,
            runtime_registration_id: text::opt(self.runtime_registration_id),
        }
    }
}

/// Where a gateway sends its events.
#[derive(Debug)]
pub struct EventSinkConfig {
    pub base_url: String,
    pub api_token: String,
    pub gateway_service_token: Option<String>,
}

pub struct SinkView {
    pub base_url: Seq<char>,
    pub api_token: Seq<char>,
    pub gateway_service_token: Option<Seq<char>>,
}

impl View for EventSinkConfig {
    type V = SinkView;

    open spec fn view(&self) -> SinkView {
        SinkView {
            base_url: self.base_url@,
            api_token: self.api_token@,
            gateway_service_token: text::opt(self.gateway_service_token),
        }
    }
}

pub open spec fn opt_sink(sink: Option<EventSinkConfig>) -> Option<SinkView> {
    match sink {
        Some(s) => Some(s@),
        None => None,
    }
}

pub open spec fn opt_sink_ref(sink: Option<&EventSinkConfig>) -> Option<SinkView> {
    match sink {
        Some(s) => Some(s@),
        None => None,
    }
}

/// The header that authorizes a request to the upstream.
#[derive(Debug)]
pub struct UpstreamAuthConfig {
    pub header_name: String,
    pub header_value: String,
}

pub struct AuthView {
    pub header_name: Seq<char>,
    pub header_value: Seq<char>,
}

impl View for UpstreamAuthConfig {
    type V = AuthView;

    open spec fn view(&self) -> AuthView {
        AuthView { header_name: self.header_name@, header_value: self.header_value@ }
    }
}

pub open spec fn opt_auth(auth: Option<UpstreamAuthConfig>) -> Option<AuthView> {
    match auth {
        Some(a) => Some(a@),
        None => None,
    }
}

/// What a gateway does with a request that it cannot check.
#[derive(Clone, Copy, Debug, PartialEq, Eq, Structural)]
pub enum FailMode {
    Allow,
    Block,
}

pub open spec fn fail_mode_of(value: Seq<char>) -> Option<FailMode> {
    if value == "allow"@ {
        Some(FailMode::Allow)
    } else if value == "block"@ {
        Some(FailMode::Block)
    } else {
        None
    }
}

impl FailMode {
    pub fn parse(value: &str) -> (r: Option<FailMode>)
        ensures
            r == fail_mode_of(value@),
    {
        if text::same(value, "allow") {
            Some(FailMode::Allow)
        } else if text::same(value, "block") {
            Some(FailMode::Block)
        } else {
            None
        }
    }
}

pub open spec fn policy_paths_of(
    explicit_paths: Seq<Seq<char>>,
    connected_mode: bool,
    default_path: Seq<char>,
    default_found: bool,
) -> Seq<Seq<char>> {
    if explicit_paths.len() > 0 {
        explicit_paths
    } else if connected_mode || !default_found {
        Seq::empty()
    } else {
        seq![default_path]
    }
}

/// The policy files to load. A connected gateway waits for the control plane and
/// takes no file that was not named. `default_found` tells whether the default
/// file is there.
pub fn resolve_policy_config_paths(
    explicit_paths: &Vec<String>,
    connected_mode: bool,
    default_path: &str,
    default_found: bool,
) -> (r: Vec<String>)
    ensures
        text::texts(r@) == policy_paths_of(
            text::texts(explicit_paths@),
            connected_mode,
            default_path@,
            default_found,
        ),
{
    if explicit_paths.len() > 0 {
        return text::copy_texts(explicit_paths);
    }
    if connected_mode || !default_found {
        let none: Vec<String> = Vec::new();
        assert(text::texts(none@) =~= Seq::<Seq<char>>::empty());
        return none;
    }
    let one: Vec<String> = vec![default_path.to_string()];
    assert(text::texts(one@) =~= seq![default_path@]);
    one
}

/// The settings of a runtime. `config_paths` names the policy files to load.
#[derive(Debug)]
pub struct RuntimeInstanceConfig {
    pub listen: String,
    pub upstream: String,
    pub upstream_auth: Option<UpstreamAuthConfig>,
    pub fail_mode: FailMode,
    pub config_paths: Vec<String>,
    pub max_concurrency: usize,
    pub admin_local_only: bool,
    pub event_sink: Option<EventSinkConfig>,
    pub source_config_path: Option<String>,
    pub connected_mode: bool,
    pub runtime_registration_id: Option<String>,
}

pub struct RuntimeView {
    pub listen: Seq<char>,
    pub upstream: Seq<char>,
    pub upstream_auth: Option<AuthView>,
    pub fail_mode: FailMode,
    pub config_paths: Seq<Seq<char>>,
    pub max_concurrency: usize,
    pub admin_local_only: bool,
    pub event_sink: Option<SinkView>,
    pub source_config_path: Option<Seq<char>>,
    pub connected_mode: bool,
    pub runtime_registration_id: Option<Seq<char>>,
}

impl View for RuntimeInstanceConfig {
    type V = RuntimeView;

    open spec fn view(&self) -> RuntimeView {
        RuntimeView {
            listen: self.listen@,
            upstream: self.upstream@,
            upstream_auth: opt_auth(self.upstream_auth),
            fail_mode: self.fail_mode,
            config_paths: text::texts(self.config_paths@),
            max_concurrency: self.max_concurrency,
            admin_local_only: self.admin_local_only,
            event_sink: opt_sink(self.event_sink),
            source_config_path: text::opt(self.source_config_path),
            connected_mode: self.connected_mode,
            runtime_registration_id: text::opt(self.runtime_registration_id),
        }
    }
}

/// The header for the upstream, where there is a key.
pub open spec fn upstream_auth_of(args: RunArgsView, env: RunEnvView) -> Option<AuthView> {
    match env.upstream_api_key {
        None => None,
        Some(key) => Some(
            AuthView {
                header_name: text::or_else(
                    text::first_of(args.upstream_api_key_header, env.upstream_api_key_header),
                    "Authorization"@,
                ),
                header_value: text::or_else(
                    text::first_of(args.upstream_api_key_prefix, env.upstream_api_key_prefix),
                    "Bearer "@,
                ) + key,
            },
        ),
    }
}

fn build_upstream_auth(args: &GatewayRunArgs, env: &GatewayRunEnvironment) -> (r: Option<
    UpstreamAuthConfig,
>)
    ensures
        opt_auth(r) == upstream_auth_of(args@, env@),
{
    match &env.upstream_api_key {
        None => None,
        Some(key) => {
            let header = text::first_text(&args.upstream_api_key_header, &env.upstream_api_key_header);
            let prefix = text::first_text(&args.upstream_api_key_prefix, &env.upstream_api_key_prefix);
            let mut header_value = text::unwrap_text(&prefix, "Bearer ");
            header_value.append(key.as_str());
            Some(
                UpstreamAuthConfig {
                    header_name: text::unwrap_text(&header, "Authorization"),
                    header_value,
                },
            )
        },
    }
}

pub open spec fn concurrency_of(arg: Option<usize>, env: Option<usize>) -> usize {
    let n = match (arg, env) {
        (Some(n), _) => n,
        (None, Some(n)) => n,
        (None, None) => DEFAULT_MAX_CONCURRENCY,
    };
    if n == 0 {
        1
    } else {
        n
    }
}

fn resolve_concurrency(arg: Option<usize>, env: Option<usize>) -> (r: usize)
    ensures
        r == concurrency_of(arg, env),
{
    let n: usize = match arg {
        Some(n) => n,
        None => match env {
            Some(n) => n,
            None => DEFAULT_MAX_CONCURRENCY,
        },
    };
    if n == 0 {
        1
    } else {
        n
    }
}

pub const POLICY_NEEDS_AGENT: &'static str =
    "--policy-config requires --agent <name> to bind the configuration to an agent. Every local policy must be tied to an agent for enforcement to be effective.";

/// The settings that the arguments and the environment come to. `listen` is the
/// listen address, or the error that it gave.
pub open spec fn runtime_of(
    args: RunArgsView,
    event_sink: Option<SinkView>,
    env: RunEnvView,
    connected_mode: bool,
    listen: Result<Seq<char>, ErrorView>,
    default_found: bool,
) -> Result<RuntimeView, ErrorView> {
    match (listen, fail_mode_of(args.fail_mode)) {
        (Err(e), _) => Err(e),
        (Ok(_), None) => Err(
            error::user_error("invalid --fail-mode (expected allow|block)"@),
        ),
        (Ok(listen), Some(fail_mode)) => if args.policy_config.len() > 0 && args.agent is None {
            Err(error::user_error(POLICY_NEEDS_AGENT@))
        } else {
            let config_paths = policy_paths_of(
                args.policy_config,
                connected_mode,
                DEFAULT_POLICY_CONFIG@,
                default_found,
            );
            Ok(
                RuntimeView {
                    listen,
                    upstream: text::or_else(
                        text::first_of(args.upstream, env.upstream_url),
                        if connected_mode {
                            DYNAMIC_PROVIDER_UPSTREAM_SENTINEL@
                        } else {
                            DEFAULT_HOSTED_UPSTREAM_URL@
                        },
                    ),
                    upstream_auth: upstream_auth_of(args, env),
                    fail_mode,
                    config_paths,
                    max_concurrency: concurrency_of(args.max_concurrency, env.max_concurrency),
                    admin_local_only: true,
                    event_sink,
                    source_config_path: if config_paths.len() == 1 {
                        Some(config_paths[0])
                    } else {
                        None
                    },
                    connected_mode,
                    runtime_registration_id: text::filled(
                        text::first_of(args.runtime_registration_id, env.runtime_registration_id),
                    ),
                },
            )
        },
    }
}

pub fn build_runtime_config_with_env_connected_mode(
    args: &GatewayRunArgs,
    event_sink: Option<EventSinkConfig>,
    env: &GatewayRunEnvironment,
    connected_mode: bool,
    listen: Result<String, CliError>,
    default_found: bool,
) -> (r: Result<RuntimeInstanceConfig, CliError>)
    ensures
        error::viewed(r) == runtime_of(
            args@,
            opt_sink(event_sink),
            env@,
            connected_mode,
            error::viewed(listen),
            default_found,
        ),
{
    let listen = listen?;
    let fail_mode = match FailMode::parse(args.fail_mode.as_str()) {
        Some(fail_mode) => fail_mode,
        None => return Err(
            CliError::user("invalid --fail-mode (expected allow|block)".to_string()),
        ),
    };
    if args.policy_config.len() > 0 && args.agent.is_none() {
        return Err(CliError::user(POLICY_NEEDS_AGENT.to_string()));
    }
    let asked = text::first_text(&args.upstream, &env.upstream_url);
    let upstream = text::unwrap_text(
        &asked,
        if connected_mode {
            DYNAMIC_PROVIDER_UPSTREAM_SENTINEL
        } else {
            DEFAULT_HOSTED_UPSTREAM_URL
        },
    );
    let config_paths = resolve_policy_config_paths(
        &args.policy_config,
        connected_mode,
        DEFAULT_POLICY_CONFIG,
        default_found,
    );
    let source_config_path: Option<String> = if config_paths.len() == 1 {
        Some(config_paths[0].clone())
    } else {
        None
    };
    let registration = text::first_text(&args.runtime_registration_id, &env.runtime_registration_id);
    Ok(
        RuntimeInstanceConfig {
            listen,
            upstream,
            upstream_auth: build_upstream_auth(args, env),
            fail_mode,
            config_paths,
            max_concurrency: resolve_concurrency(args.max_concurrency, env.max_concurrency),
            admin_local_only: true,
            event_sink,
            source_config_path,
            connected_mode,
            runtime_registration_id: text::filled_text(text::borrow_opt(&registration)),
        },
    )
}

/// The settings of a gateway under the control plane.
pub fn build_runtime_config_with_env(
    args: &GatewayRunArgs,
    event_sink: Option<EventSinkConfig>,
    env: &GatewayRunEnvironment,
    listen: Result<String, CliError>,
    default_found: bool,
) -> (r: Result<RuntimeInstanceConfig, CliError>)
    ensures
        error::viewed(r) == runtime_of(
            args@,
            opt_sink(event_sink),
            env@,
            true,
            error::viewed(listen),
            default_found,
        ),
{
    build_runtime_config_with_env_connected_mode(
        args,
        event_sink,
        env,
        true,
        listen,
        default_found,
    )
}

/// The settings of a gateway under the control plane, with the variables of the
/// process.
pub fn build_runtime_config(
    args: &GatewayRunArgs,
    event_sink: Option<EventSinkConfig>,
    process: &EnvMap,
    listen: Result<String, CliError>,
    default_found: bool,
) -> (r: Result<RuntimeInstanceConfig, CliError>)
    ensures
        error::viewed(r) == runtime_of(
            args@,
            opt_sink(event_sink),
            run_env_of(process@),
            true,
            error::viewed(listen),
            default_found,
        ),
{
    let env = GatewayRunEnvironment::from_process(process);
    build_runtime_config_with_env(args, event_sink, &env, listen, default_found)
}

pub open spec fn launch_env_of(
    env: RunEnvView,
    event_sink: Option<SinkView>,
    resolved_agent_id: Option<Seq<char>>,
) -> LaunchEnvView {
    LaunchEnvView {
        api_token: if text::filled(env.api_token) is Some {
            None
        } else {
            match event_sink {
                Some(sink) => text::non_blank(sink.api_token),
                None => None,
            }
        },
        agent_id: if text::filled(env.runtime_agent_id) is Some {
            None
        } else {
            text::filled(resolved_agent_id)
        },
    }
}

/// What the runtime is to find in its environment and does not find yet.
pub fn resolve_runtime_launch_env(
    env: &GatewayRunEnvironment,
    event_sink: Option<&EventSinkConfig>,
    resolved_agent_id: Option<&str>,
) -> (r: GatewayRuntimeLaunchEnv)
    ensures
        r@ == launch_env_of(env@, opt_sink_ref(event_sink), text::opt_ref(resolved_agent_id)),
{
    let api_token: Option<String> = if text::filled_text(text::borrow_opt(&env.api_token)).is_some() {
        None
    } else {
        match event_sink {
            Some(sink) => trimmed_non_empty(sink.api_token.as_str()),
            None => None,
        }
    };
    let agent_id: Option<String> = if text::filled_text(
        text::borrow_opt(&env.runtime_agent_id),
    ).is_some() {
        None
    } else {
        text::filled_text(resolved_agent_id)
    };
    GatewayRuntimeLaunchEnv { api_token, agent_id }
}

pub fn resolve_api_base_url(env: &GatewayRunEnvironment) -> (r: String)
    ensures
        r@ == text::or_else(env@.api_base_url, DEFAULT_HOSTED_UPSTREAM_URL@),
{
    text::unwrap_text(&env.api_base_url, DEFAULT_HOSTED_UPSTREAM_URL)
}

pub open spec fn event_sink_of(env: RunEnvView, api_base_url: Seq<char>) -> Option<SinkView> {
    match text::filled(env.api_token) {
        Some(token) => Some(
            SinkView {
                base_url: api_base_url,
                api_token: token,
                gateway_service_token: Some(token),
            },
        ),
        None => None,
    }
}

/// Where the gateway sends its events; nowhere without a token.
pub fn resolve_event_sink_config(
    args: &GatewayRunArgs,
    env: &GatewayRunEnvironment,
    api_base_url: &str,
) -> (r: Option<EventSinkConfig>)
    ensures
        opt_sink(r) == event_sink_of(env@, api_base_url@),
{
    match text::filled_text(text::borrow_opt(&env.api_token)) {
        Some(api_token) => Some(
            EventSinkConfig {
                base_url: api_base_url.to_string(),
                api_token: api_token.clone(),
                gateway_service_token: Some(api_token),
            },
        ),
        None => None,
    }
}

pub open spec fn agent_selector_of(args: RunArgsView, env: RunEnvView) -> Option<Seq<char>> {
    text::first_of(text::filled(args.agent), text::filled(env.runtime_agent_selector))
}

pub fn configured_runtime_agent_selector(
    args: &GatewayRunArgs,
    env: &GatewayRunEnvironment,
) -> (r: Option<String>)
    ensures
        text::opt(r) == agent_selector_of(args@, env@),
{
    match text::filled_text(text::borrow_opt(&args.agent)) {
        Some(agent) => Some(agent),
        None => text::filled_text(text::borrow_opt(&env.runtime_agent_selector)),
    }
}

// ---------------------------------------------------------------------------
// The agent
// ---------------------------------------------------------------------------

/// A text of an agent, trimmed, if anything is left.
pub open spec fn agent_text_of(agent: JsonView, field: Seq<char>) -> Option<Seq<char>> {
    text::filled(json::field_text(agent, field))
}

pub fn agent_text(agent: &Json, field: &str) -> (r: Option<String>)
    ensures
        text::opt(r) == agent_text_of(json::json_view(*agent), field@),
{
    text::filled_text(agent.get_str(field))
}

/// The identifier of an agent, under either of its names.
pub open spec fn agent_id_of(agent: JsonView) -> Option<Seq<char>> {
    text::first_of(agent_text_of(agent, "id"@), agent_text_of(agent, "agent_id"@))
}

pub open spec fn has_id(agent: JsonView, selector: Seq<char>) -> bool {
    agent_text_of(agent, "id"@) == Some(selector) || agent_text_of(agent, "agent_id"@) == Some(
        selector,
    )
}

pub open spec fn has_name(agent: JsonView, selector: Seq<char>) -> bool {
    agent_text_of(agent, "name"@) == Some(selector) || agent_text_of(agent, "display_name"@)
        == Some(selector) || agent_text_of(agent, "resource_name"@) == Some(selector)
}

/// The first agent with an identifier.
pub open spec fn first_with_id(agents: Seq<JsonView>, selector: Seq<char>) -> Option<JsonView>
    decreases agents.len(),
{
    if agents.len() == 0 {
        None
    } else if has_id(agents[0], selector) {
        Some(agents[0])
    } else {
        first_with_id(agents.drop_first(), selector)
    }
}

/// The identifiers of the agents with a name, in the order of the agents.
pub open spec fn ids_with_name(agents: Seq<JsonView>, selector: Seq<char>) -> Seq<Seq<char>>
    decreases agents.len(),
{
    if agents.len() == 0 {
        Seq::empty()
    } else {
        let rest = ids_with_name(agents.drop_last(), selector);
        match agent_id_of(agents.last()) {
            Some(id) => if has_name(agents.last(), selector) {
                rest.push(id)
            } else {
                rest
            },
            None => rest,
        }
    }
}

pub open spec fn ambiguous(selector: Seq<char>) -> ErrorView {
    error::user_error(
        "agent name '"@ + selector
            + "' matched multiple agents; set VERDICTAN_AGENT_ID to the exact agent ID."@,
    )
}

/// True when all identifiers are one.
pub open spec fn all_one(ids: Seq<Seq<char>>) -> bool {
    forall|i: int| 0 <= i < ids.len() ==> #[trigger] ids[i] == ids[0]
}

/// The identifier that a selector stands for: that of the agent that has it as its
/// identifier, else the only one of the agents that have it as a name.
pub open spec fn selected(agents: Seq<JsonView>, selector: Seq<char>) -> Result<
    Option<Seq<char>>,
    ErrorView,
> {
    match text::non_blank(selector) {
        None => Ok(None),
        Some(wanted) => match first_with_id(agents, wanted) {
            Some(agent) => Ok(agent_id_of(agent)),
            None => {
                let ids = ids_with_name(agents, wanted);
                if ids.len() == 0 {
                    Ok(None)
                } else if all_one(ids) {
                    Ok(Some(ids[0]))
                } else {
                    Err(ambiguous(wanted))
                }
            },
        },
    }
}

pub open spec fn selection(r: Result<Option<String>, CliError>) -> Result<
    Option<Seq<char>>,
    ErrorView,
> {
    match r {
        Ok(o) => Ok(text::opt(o)),
        Err(e) => Err(e@),
    }
}

fn agent_id(agent: &Json) -> (r: Option<String>)
    ensures
        text::opt(r) == agent_id_of(json::json_view(*agent)),
{
    match agent_text(agent, "id") {
        Some(id) => Some(id),
        None => agent_text(agent, "agent_id"),
    }
}

fn field_is(agent: &Json, field: &str, selector: &str) -> (r: bool)
    ensures
        r == (agent_text_of(json::json_view(*agent), field@) == Some(selector@)),
{
    match agent_text(agent, field) {
        Some(value) => text::same(value.as_str(), selector),
        None => false,
    }
}

fn find_by_id<'a>(agents: &'a Vec<Json>, selector: &str) -> (r: Option<&'a Json>)
    ensures
        json::opt_json(r) == first_with_id(json::values(agents@), selector@),
{
    let mut i: usize = 0;
    let ghost all = json::values(agents@);
    assert(all.skip(0) =~= all);
    while i < agents.len()
        invariant
            i <= agents.len(),
            all == json::values(agents@),
            first_with_id(all, selector@) == first_with_id(all.skip(i as int), selector@),
        decreases agents.len() - i,
    {
        assert(all.skip(i as int)[0] == all[i as int]);
        if field_is(&agents[i], "id", selector) || field_is(&agents[i], "agent_id", selector) {
            return Some(&agents[i]);
        }
        assert(all.skip(i as int).drop_first() =~= all.skip(i as int + 1));
        i = i + 1;
    }
    None
}

fn find_by_name(agents: &Vec<Json>, selector: &str) -> (r: Vec<String>)
    ensures
        text::texts(r@) == ids_with_name(json::values(agents@), selector@),
{
    let mut ids: Vec<String> = Vec::new();
    let mut i: usize = 0;
    let ghost all = json::values(agents@);
    assert(text::texts(ids@) =~= ids_with_name(all.take(0), selector@));
    while i < agents.len()
        invariant
            i <= agents.len(),
            all == json::values(agents@),
            text::texts(ids@) == ids_with_name(all.take(i as int), selector@),
        decreases agents.len() - i,
    {
        assert(all.take(i + 1).drop_last() =~= all.take(i as int));
        assert(all.take(i + 1).last() == all[i as int]);
        let agent = &agents[i];
        if field_is(agent, "name", selector) || field_is(agent, "display_name", selector)
            || field_is(agent, "resource_name", selector) {
            match agent_id(agent) {
                Some(id) => text::push_line(&mut ids, id),
                None => {},
            }
        }
        i = i + 1;
    }
    assert(all.take(i as int) =~= all);
    ids
}

pub fn find_agent_id_by_selector(agents: &Vec<Json>, selector: &str) -> (r: Result<
    Option<String>,
    CliError,
>)
    ensures
        selection(r) == selected(json::values(agents@), selector@),
{
    let wanted = match trimmed_non_empty(selector) {
        Some(wanted) => wanted,
        None => return Ok(None),
    };
    match find_by_id(agents, wanted.as_str()) {
        Some(agent) => return Ok(agent_id(agent)),
        None => {},
    }
    let ids = find_by_name(agents, wanted.as_str());
    if ids.len() == 0 {
        return Ok(None);
    }
    let ghost all = text::texts(ids@);
    let mut i: usize = 1;
    while i < ids.len()
        invariant
            1 <= i <= ids.len(),
            all == text::texts(ids@),
            forall|j: int| 0 <= j < i ==> #[trigger] all[j] == all[0],
            all == ids_with_name(json::values(agents@), wanted@),
            text::non_blank(selector@) == Some(wanted@),
            first_with_id(json::values(agents@), wanted@) is None,
        decreases ids.len() - i,
    {
        if !text::same(ids[i].as_str(), ids[0].as_str()) {
            assert(all[i as int] != all[0]);
            let mut message = "agent name '".to_string();
            message.append(wanted.as_str());
            message.append(
                "' matched multiple agents; set VERDICTAN_AGENT_ID to the exact agent ID.",
            );
            return Err(CliError::user(message));
        }
        i = i + 1;
    }
    assert(all_one(all));
    Ok(Some(ids[0].clone()))
}

pub open spec fn listed(list: JsonView, collection: Seq<char>) -> Seq<JsonView> {
    match json::field_items(list, collection) {
        Some(items) => items,
        None => Seq::empty(),
    }
}

pub open spec fn existing_agent(list: JsonView, selector: Seq<char>) -> Result<
    Seq<char>,
    ErrorView,
> {
    match selected(listed(list, "agents"@), selector) {
        Err(e) => Err(e),
        Ok(Some(id)) => Ok(id),
        Ok(None) => Err(
            error::user_error(
                "agent '"@ + selector
                    + "' was not found on the control plane. Use an existing agent name or set VERDICTAN_AGENT_ID to the agent ID."@,
            ),
        ),
    }
}

/// The identifier of the agent that a selector stands for. `list` is what the
/// control plane lists.
pub fn resolve_existing_agent_id(list: &Json, selector: &str) -> (r: Result<String, CliError>)
    ensures
        error::viewed(r) == existing_agent(json::json_view(*list), selector@),
{
    let found = match list.get_array("agents") {
        Some(agents) => find_agent_id_by_selector(agents, selector)?,
        None => {
            let none: Vec<Json> = Vec::new();
            assert(json::values(none@) =~= Seq::<JsonView>::empty());
            find_agent_id_by_selector(&none, selector)?
        },
    };
    match found {
        Some(id) => Ok(id),
        None => {
            let mut message = "agent '".to_string();
            message.append(selector);
            message.append(
                "' was not found on the control plane. Use an existing agent name or set VERDICTAN_AGENT_ID to the agent ID.",
            );
            Err(CliError::user(message))
        },
    }
}

/// How the agent of a run is found.
#[derive(Debug)]
pub enum AgentBinding {
    /// Sync the policy of this agent, under this configuration name.
    Sync(String, String),
    /// Ask the control plane for the agent that this selector stands for.
    Lookup(String),
    /// There is nothing to ask.
    Unbound,
}

pub enum BindingView {
    Sync(Seq<char>, Seq<char>),
    Lookup(Seq<char>),
    Unbound,
}

impl View for AgentBinding {
    type V = BindingView;

    open spec fn view(&self) -> BindingView {
        match self {
            AgentBinding::Sync(agent, config) => BindingView::Sync(agent@, config@),
            AgentBinding::Lookup(selector) => BindingView::Lookup(selector@),
            AgentBinding::Unbound => BindingView::Unbound,
        }
    }
}

/// What has to be asked of the control plane before a run. Both questions need a
/// token. `file_stem` is the stem of the first policy file.
pub open spec fn binding_of(
    args: RunArgsView,
    env: RunEnvView,
    connected: bool,
    file_stem: Option<Seq<char>>,
) -> Result<BindingView, ErrorView> {
    match args.agent {
        Some(agent) if args.policy_config.len() > 0 => if connected {
            Ok(
                BindingView::Sync(
                    agent,
                    text::or_else(text::first_of(args.config_name, file_stem), "default"@),
                ),
            )
        } else {
            Err(
                error::user_error(
                    "--agent requires an API token to sync with the control plane. Set VERDICTAN_API_TOKEN."@,
                ),
            )
        },
        _ => match agent_selector_of(args, env) {
            Some(selector) if env.runtime_agent_id is None => if connected {
                Ok(BindingView::Lookup(selector))
            } else {
                Err(
                    error::user_error(
                        "--agent or VERDICTAN_AGENT_NAME requires an API token to resolve the agent. Set VERDICTAN_API_TOKEN."@,
                    ),
                )
            },
            _ => Ok(BindingView::Unbound),
        },
    }
}

pub fn bind_agent(
    args: &GatewayRunArgs,
    env: &GatewayRunEnvironment,
    event_sink: Option<&EventSinkConfig>,
    file_stem: Option<&str>,
) -> (r: Result<AgentBinding, CliError>)
    ensures
        error::viewed(r) == binding_of(
            args@,
            env@,
            event_sink is Some,
            text::opt_ref(file_stem),
        ),
{
    match &args.agent {
        Some(agent) => if args.policy_config.len() > 0 {
            if event_sink.is_none() {
                return Err(
                    CliError::user(
                        "--agent requires an API token to sync with the control plane. Set VERDICTAN_API_TOKEN.".to_string(),
                    ),
                );
            }
            let stem = text::own_opt(file_stem);
            let name = text::first_text(&args.config_name, &stem);
            return Ok(AgentBinding::Sync(agent.clone(), text::unwrap_text(&name, "default")));
        },
        None => {},
    }
    if env.runtime_agent_id.is_none() {
        match configured_runtime_agent_selector(args, env) {
            Some(selector) => {
                if event_sink.is_none() {
                    return Err(
                        CliError::user(
                            "--agent or VERDICTAN_AGENT_NAME requires an API token to resolve the agent. Set VERDICTAN_API_TOKEN.".to_string(),
                        ),
                    );
                }
                return Ok(AgentBinding::Lookup(selector));
            },
            None => {},
        }
    }
    Ok(AgentBinding::Unbound)
}

// ---------------------------------------------------------------------------
// Syncing a local policy with the control plane
// ---------------------------------------------------------------------------

/// The files one behind the other, as documents of one YAML stream.
pub open spec fn merged(contents: Seq<Seq<char>>) -> Seq<char>
    decreases contents.len(),
{
    if contents.len() == 0 {
        Seq::empty()
    } else {
        let before = merged(contents.drop_last());
        if before.len() == 0 {
            contents.last()
        } else {
            before + "\n---\n"@ + contents.last()
        }
    }
}

pub fn merge_policies(contents: &Vec<String>) -> (r: String)
    ensures
        r@ == merged(text::texts(contents@)),
{
    let mut out = String::new();
    let mut i: usize = 0;
    let ghost all = text::texts(contents@);
    assert(out@ =~= merged(all.take(0)));
    while i < contents.len()
        invariant
            i <= contents.len(),
            all == text::texts(contents@),
            out@ == merged(all.take(i as int)),
        decreases contents.len() - i,
    {
        assert(all.take(i + 1).drop_last() =~= all.take(i as int));
        assert(all.take(i + 1).last() == contents[i as int]@);
        let ghost before = out@;
        if !out.as_str().is_empty() {
            out.append("\n---\n");
        }
        out.append(contents[i].as_str());
        assert(before.len() == 0 ==> out@ =~= contents[i as int]@);
        i = i + 1;
    }
    assert(all.take(i as int) =~= all);
    out
}

/// The error for a policy file that could not be read.
pub fn unreadable_policy(path: &str, reason: &str) -> (r: CliError)
    ensures
        r@ == error::user_error("failed to read policy config "@ + path@ + ": "@ + reason@),
{
    let mut message = "failed to read policy config ".to_string();
    message.append(path);
    message.append(": ");
    message.append(reason);
    CliError::user(message)
}

/// The identifier of the first item with a name; an empty one if it has none.
pub open spec fn named_id(items: Seq<JsonView>, name: Seq<char>) -> Option<Seq<char>>
    decreases items.len(),
{
    if items.len() == 0 {
        None
    } else if text::or_else(json::field_text(items[0], "name"@), Seq::empty()) == name {
        Some(text::or_else(json::field_text(items[0], "id"@), Seq::empty()))
    } else {
        named_id(items.drop_first(), name)
    }
}

fn find_named(list: &Json, collection: &str, name: &str) -> (r: Option<String>)
    ensures
        text::opt(r) == named_id(listed(json::json_view(*list), collection@), name@),
{
    proof {
        reveal_strlit("");
        assert(""@ =~= Seq::<char>::empty());
    }
    let items = match list.get_array(collection) {
        Some(items) => items,
        None => return None,
    };
    let mut i: usize = 0;
    let ghost all = json::values(items@);
    assert(all.skip(0) =~= all);
    while i < items.len()
        invariant
            i <= items.len(),
            ""@ == Seq::<char>::empty(),
            all == json::values(items@),
            all == listed(json::json_view(*list), collection@),
            named_id(all, name@) == named_id(all.skip(i as int), name@),
        decreases items.len() - i,
    {
        assert(all.skip(i as int)[0] == all[i as int]);
        let given = match items[i].get_str("name") {
            Some(given) => given,
            None => "",
        };
        if text::same(given, name) {
            let id = match items[i].get_str("id") {
                Some(id) => id,
                None => "",
            };
            return Some(id.to_string());
        }
        assert(all.skip(i as int).drop_first() =~= all.skip(i as int + 1));
        i = i + 1;
    }
    None
}

pub open spec fn created_id_of(created: JsonView, missing: Seq<char>) -> Result<
    Seq<char>,
    ErrorView,
> {
    match json::field_text(created, "id"@) {
        Some(id) => Ok(id),
        None => Err(error::internal_error(missing)),
    }
}

fn created_id(created: &Json, missing: &str) -> (r: Result<String, CliError>)
    ensures
        error::viewed(r) == created_id_of(json::json_view(*created), missing@),
{
    match created.get_str("id") {
        Some(id) => Ok(id.to_string()),
        None => Err(CliError::internal(missing.to_string())),
    }
}

/// What a sync does next.
#[derive(Debug)]
pub enum SyncStep {
    Get(String),
    Post(String, Json),
    /// Read the policy files.
    ReadPolicies,
    /// The sync is over; this is the agent.
    Done(String),
    Fail(CliError),
}

pub enum SyncStepView {
    Get(Seq<char>),
    Post(Seq<char>, JsonView),
    ReadPolicies,
    Done(Seq<char>),
    Fail(ErrorView),
}

impl View for SyncStep {
    type V = SyncStepView;

    open spec fn view(&self) -> SyncStepView {
        match self {
            SyncStep::Get(path) => SyncStepView::Get(path@),
            SyncStep::Post(path, body) => SyncStepView::Post(path@, json::json_view(*body)),
            SyncStep::ReadPolicies => SyncStepView::ReadPolicies,
            SyncStep::Done(agent_id) => SyncStepView::Done(agent_id@),
            SyncStep::Fail(e) => SyncStepView::Fail(e@),
        }
    }
}

/// Where the control plane lists and creates agents.
pub const AGENTS_PATH: &'static str = "/v1/agents";

/// Where the control plane lists and creates configurations.
pub const CONFIGURATIONS_PATH: &'static str = "/v1/configurations";

/// The next step of finding the agent that a selector stands for: the agents are
/// listed, and one of them is picked.
pub open spec fn next_lookup_step(selector: Seq<char>, responses: Seq<JsonView>) -> SyncStepView {
    if responses.len() == 0 {
        SyncStepView::Get(AGENTS_PATH@)
    } else {
        match existing_agent(responses[0], selector) {
            Ok(id) => SyncStepView::Done(id),
            Err(e) => SyncStepView::Fail(e),
        }
    }
}

pub fn lookup_step(selector: &str, responses: &Vec<Json>) -> (r: SyncStep)
    ensures
        r@ == next_lookup_step(selector@, json::values(responses@)),
{
    if responses.len() == 0 {
        return SyncStep::Get(AGENTS_PATH.to_string());
    }
    assert(json::values(responses@)[0] == responses@[0]@);
    match resolve_existing_agent_id(&responses[0], selector) {
        Ok(id) => SyncStep::Done(id),
        Err(e) => SyncStep::Fail(e),
    }
}

pub open spec fn agent_payload_of(name: Seq<char>) -> JsonView {
    JsonView::Object(seq![("name"@, JsonView::Text(name))])
}

fn agent_payload(name: &str) -> (r: Json)
    ensures
        json::json_view(r) == agent_payload_of(name@),
{
    let payload = Json::object().with_text("name", name);
    assert(json::json_view(payload) =~= agent_payload_of(name@));
    payload
}

/// The request that creates a configuration and binds it to an agent.
pub open spec fn configuration_payload_of(name: Seq<char>, agent_id: Seq<char>) -> JsonView {
    JsonView::Object(
        json::with_member(
            json::with_member(Seq::empty(), "name"@, JsonView::Text(name)),
            "agent_id"@,
            JsonView::Text(agent_id),
        ),
    )
}

fn configuration_payload(name: &str, agent_id: &str) -> (r: Json)
    ensures
        json::json_view(r) == configuration_payload_of(name@, agent_id@),
{
    Json::object().with_text("name", name).with_text("agent_id", agent_id)
}

pub open spec fn version_payload_of(yaml: Seq<char>) -> JsonView {
    JsonView::Object(
        json::with_member(
            json::with_member(Seq::empty(), "yaml"@, JsonView::Text(yaml)),
            "deploy"@,
            JsonView::Bool(true),
        ),
    )
}

fn version_payload(yaml: &str) -> (r: Json)
    ensures
        json::json_view(r) == version_payload_of(yaml@),
{
    Json::object().with_text("yaml", yaml).with("deploy", Json::Bool(true))
}

pub open spec fn version_path_of(config_id: Seq<char>) -> Seq<char> {
    "/v1/configurations/"@ + config_id + "/versions"@
}

/// The configuration is known: its new version is saved and deployed.
pub open spec fn save_step(
    agent_id: Seq<char>,
    config_id: Seq<char>,
    yaml: Seq<char>,
    saved: bool,
) -> SyncStepView {
    if saved {
        SyncStepView::Done(agent_id)
    } else {
        SyncStepView::Post(version_path_of(config_id), version_payload_of(yaml))
    }
}

/// The agent is known. The responses from `i` on are the list of configurations, the
/// new one if there was none, and the saved version.
pub open spec fn configuration_step(
    agent_id: Seq<char>,
    config_name: Seq<char>,
    policies: Option<Result<Seq<Seq<char>>, ErrorView>>,
    responses: Seq<JsonView>,
    i: int,
) -> SyncStepView {
    match policies {
        None => SyncStepView::ReadPolicies,
        Some(Err(e)) => SyncStepView::Fail(e),
        Some(Ok(contents)) => if responses.len() <= i {
            SyncStepView::Get(CONFIGURATIONS_PATH@)
        } else {
            match named_id(listed(responses[i], "configurations"@), config_name) {
                Some(config_id) => save_step(
                    agent_id,
                    config_id,
                    merged(contents),
                    responses.len() > i + 1,
                ),
                None => if responses.len() <= i + 1 {
                    SyncStepView::Post(
                        CONFIGURATIONS_PATH@,
                        configuration_payload_of(config_name, agent_id),
                    )
                } else {
                    match created_id_of(
                        responses[i + 1],
                        "configuration creation response missing id"@,
                    ) {
                        Err(e) => SyncStepView::Fail(e),
                        Ok(config_id) => save_step(
                            agent_id,
                            config_id,
                            merged(contents),
                            responses.len() > i + 2,
                        ),
                    }
                },
            }
        },
    }
}

/// The next step of a sync, from what the control plane answered so far: the agent
/// is found by its name or created, the files are read, the configuration is found
/// by its name or created, and a new version of it is saved.
pub open spec fn next_sync_step(
    agent_name: Seq<char>,
    config_name: Seq<char>,
    policies: Option<Result<Seq<Seq<char>>, ErrorView>>,
    responses: Seq<JsonView>,
) -> SyncStepView {
    if responses.len() == 0 {
        SyncStepView::Get(AGENTS_PATH@)
    } else {
        match named_id(listed(responses[0], "agents"@), agent_name) {
            Some(agent_id) => configuration_step(agent_id, config_name, policies, responses, 1),
            None => if responses.len() == 1 {
                SyncStepView::Post(AGENTS_PATH@, agent_payload_of(agent_name))
            } else {
                match created_id_of(responses[1], "agent creation response missing id"@) {
                    Err(e) => SyncStepView::Fail(e),
                    Ok(agent_id) => configuration_step(
                        agent_id,
                        config_name,
                        policies,
                        responses,
                        2,
                    ),
                }
            },
        }
    }
}

pub open spec fn read_policies(policies: Option<&Result<Vec<String>, CliError>>) -> Option<
    Result<Seq<Seq<char>>, ErrorView>,
> {
    match policies {
        None => None,
        Some(Ok(contents)) => Some(Ok(text::texts(contents@))),
        Some(Err(e)) => Some(Err(e@)),
    }
}

fn save_version(agent_id: String, config_id: &str, contents: &Vec<String>, saved: bool) -> (r:
    SyncStep)
    ensures
        r@ == save_step(agent_id@, config_id@, merged(text::texts(contents@)), saved),
{
    if saved {
        return SyncStep::Done(agent_id);
    }
    let mut path = "/v1/configurations/".to_string();
    path.append(config_id);
    path.append("/versions");
    let yaml = merge_policies(contents);
    SyncStep::Post(path, version_payload(yaml.as_str()))
}

fn sync_configuration(
    agent_id: String,
    config_name: &str,
    policies: Option<&Result<Vec<String>, CliError>>,
    responses: &Vec<Json>,
    i: usize,
) -> (r: SyncStep)
    requires
        i <= 2,
    ensures
        r@ == configuration_step(
            agent_id@,
            config_name@,
            read_policies(policies),
            json::values(responses@),
            i as int,
        ),
{
    let contents = match policies {
        None => return SyncStep::ReadPolicies,
        Some(Err(e)) => return SyncStep::Fail(e.copy()),
        Some(Ok(contents)) => contents,
    };
    if responses.len() <= i {
        return SyncStep::Get(CONFIGURATIONS_PATH.to_string());
    }
    match find_named(&responses[i], "configurations", config_name) {
        Some(config_id) => save_version(
            agent_id,
            config_id.as_str(),
            contents,
            responses.len() > i + 1,
        ),
        None => {
            if responses.len() <= i + 1 {
                return SyncStep::Post(
                    CONFIGURATIONS_PATH.to_string(),
                    configuration_payload(config_name, agent_id.as_str()),
                );
            }
            match created_id(&responses[i + 1], "configuration creation response missing id") {
                Err(e) => SyncStep::Fail(e),
                Ok(config_id) => save_version(
                    agent_id,
                    config_id.as_str(),
                    contents,
                    responses.len() > i + 2,
                ),
            }
        },
    }
}

/// The next step of syncing a local policy with the control plane. `policies` holds
/// the contents of the files once they were read.
pub fn sync_step(
    agent_name: &str,
    config_name: &str,
    policies: Option<&Result<Vec<String>, CliError>>,
    responses: &Vec<Json>,
) -> (r: SyncStep)
    ensures
        r@ == next_sync_step(
            agent_name@,
            config_name@,
            read_policies(policies),
            json::values(responses@),
        ),
{
    if responses.len() == 0 {
        return SyncStep::Get(AGENTS_PATH.to_string());
    }
    match find_named(&responses[0], "agents", agent_name) {
        Some(agent_id) => sync_configuration(agent_id, config_name, policies, responses, 1),
        None => {
            if responses.len() == 1 {
                return SyncStep::Post(AGENTS_PATH.to_string(), agent_payload(agent_name));
            }
            match created_id(&responses[1], "agent creation response missing id") {
                Err(e) => SyncStep::Fail(e),
                Ok(agent_id) => sync_configuration(
                    agent_id,
                    config_name,
                    policies,
                    responses,
                    2,
                ),
            }
        },
    }
}

// ---------------------------------------------------------------------------
// Laws
// ---------------------------------------------------------------------------

/// What the environment already gives the runtime is never replaced, and nothing
/// empty is added to it.
pub proof fn launch_env_only_seeds_missing_values(
    env: RunEnvView,
    event_sink: Option<SinkView>,
    resolved_agent_id: Option<Seq<char>>,
)
    ensures
        text::filled(env.api_token) is Some ==> launch_env_of(
            env,
            event_sink,
            resolved_agent_id,
        ).api_token is None,
        text::filled(env.runtime_agent_id) is Some ==> launch_env_of(
            env,
            event_sink,
            resolved_agent_id,
        ).agent_id is None,
        launch_env_of(env, event_sink, resolved_agent_id).api_token matches Some(token)
            ==> token.len() > 0,
        launch_env_of(env, event_sink, resolved_agent_id).agent_id matches Some(id) ==> id.len()
            > 0,
{
}

/// Every gateway that may run serves at least one request at a time, and every local
/// policy that it was given has an agent. A connected gateway loads the named files
/// and no other.
pub proof fn runtime_settings_are_sound(
    args: RunArgsView,
    event_sink: Option<SinkView>,
    env: RunEnvView,
    connected_mode: bool,
    listen: Result<Seq<char>, ErrorView>,
    default_found: bool,
    config: RuntimeView,
)
    requires
        runtime_of(args, event_sink, env, connected_mode, listen, default_found) == Ok::<
            RuntimeView,
            ErrorView,
        >(config),
    ensures
        config.max_concurrency >= 1,
        args.policy_config.len() > 0 ==> args.agent is Some,
        connected_mode ==> config.config_paths == args.policy_config,
{
    assert(args.policy_config.len() == 0 ==> args.policy_config =~= Seq::empty());
}

proof fn first_with_id_is_found(agents: Seq<JsonView>, selector: Seq<char>, i: int)
    requires
        0 <= i < agents.len(),
        has_id(agents[i], selector),
    ensures
        first_with_id(agents, selector) matches Some(agent) && has_id(agent, selector),
    decreases agents.len(),
{
    if !has_id(agents[0], selector) {
        let rest = agents.drop_first();
        assert(rest[i - 1] == agents[i]);
        first_with_id_is_found(rest, selector, i - 1);
    }
}

/// A selector that is the identifier of an agent is never ambiguous, whatever the
/// names of the others are.
pub proof fn an_identifier_is_never_ambiguous(
    agents: Seq<JsonView>,
    selector: Seq<char>,
    wanted: Seq<char>,
    i: int,
)
    requires
        text::non_blank(selector) == Some(wanted),
        0 <= i < agents.len(),
        has_id(agents[i], wanted),
    ensures
        selected(agents, selector) matches Ok(Some(_)),
{
    first_with_id_is_found(agents, wanted, i);
}

proof fn named_ids_are_of_agents(agents: Seq<JsonView>, selector: Seq<char>)
    ensures
        forall|k: int|
            0 <= k < ids_with_name(agents, selector).len() ==> exists|m: int|
                0 <= m < agents.len() && has_name(#[trigger] agents[m], selector) && agent_id_of(
                    agents[m],
                ) == Some(#[trigger] ids_with_name(agents, selector)[k]),
    decreases agents.len(),
{
    if agents.len() > 0 {
        let front = agents.drop_last();
        named_ids_are_of_agents(front, selector);
        assert forall|k: int| 0 <= k < ids_with_name(agents, selector).len() implies exists|m: int|
            0 <= m < agents.len() && has_name(#[trigger] agents[m], selector) && agent_id_of(
                agents[m],
            ) == Some(#[trigger] ids_with_name(agents, selector)[k]) by {
            let rest = ids_with_name(front, selector);
            if k < rest.len() {
                assert(ids_with_name(agents, selector)[k] == rest[k]);
                let m = choose|m: int|
                    0 <= m < front.len() && has_name(#[trigger] front[m], selector) && agent_id_of(
                        front[m],
                    ) == Some(rest[k]);
                assert(agents[m] == front[m]);
            } else {
                assert(agents[agents.len() - 1] == agents.last());
            }
        }
    }
}

/// A selector is refused as ambiguous only if two agents with that name have
/// different identifiers.
pub proof fn ambiguity_has_two_agents(agents: Seq<JsonView>, selector: Seq<char>, wanted: Seq<char>)
    requires
        text::non_blank(selector) == Some(wanted),
        selected(agents, selector) is Err,
    ensures
        exists|i: int, j: int|
            0 <= i < agents.len() && 0 <= j < agents.len() && has_name(
                #[trigger] agents[i],
                wanted,
            ) && has_name(#[trigger] agents[j], wanted) && agent_id_of(agents[i]) != agent_id_of(
                agents[j],
            ),
{
    named_ids_are_of_agents(agents, wanted);
    let ids = ids_with_name(agents, wanted);
    let k = choose|k: int| 0 <= k < ids.len() && #[trigger] ids[k] != ids[0];
    let i = choose|m: int|
        0 <= m < agents.len() && has_name(#[trigger] agents[m], wanted) && agent_id_of(agents[m])
            == Some(ids[k]);
    let j = choose|m: int|
        0 <= m < agents.len() && has_name(#[trigger] agents[m], wanted) && agent_id_of(agents[m])
            == Some(ids[0]);
    assert(has_name(agents[i], wanted) && has_name(agents[j], wanted));
}

/// A sync always comes to an end: once the files were read, no more than five
/// answers are wanted.
pub proof fn sync_ends(
    agent_name: Seq<char>,
    config_name: Seq<char>,
    policies: Result<Seq<Seq<char>>, ErrorView>,
    responses: Seq<JsonView>,
)
    requires
        responses.len() >= 5,
    ensures
        next_sync_step(agent_name, config_name, Some(policies), responses) is Done
            || next_sync_step(agent_name, config_name, Some(policies), responses) is Fail,
{
}

/// A sync that is over has sent the policy: among its requests is one that saves the
/// merged files as a new version, to be deployed, of some configuration.
pub proof fn finished_sync_saved_the_policy(
    agent_name: Seq<char>,
    config_name: Seq<char>,
    contents: Seq<Seq<char>>,
    responses: Seq<JsonView>,
)
    requires
        next_sync_step(agent_name, config_name, Some(Ok(contents)), responses) is Done,
    ensures
        exists|k: int, config_id: Seq<char>|
            0 <= k < responses.len() && next_sync_step(
                agent_name,
                config_name,
                Some(Ok(contents)),
                #[trigger] responses.take(k),
            ) == SyncStepView::Post(
                #[trigger] version_path_of(config_id),
                version_payload_of(merged(contents)),
            ),
{
    let i: int = if named_id(listed(responses[0], "agents"@), agent_name) is Some {
        1
    } else {
        2
    };
    let known = named_id(listed(responses[i], "configurations"@), config_name);
    let k: int = if known is Some {
        i + 1
    } else {
        i + 2
    };
    let config_id = match known {
        Some(id) => id,
        None => created_id_of(
            responses[i + 1],
            "configuration creation response missing id"@,
        )->Ok_0,
    };
    let before = responses.take(k);
    assert(before[0] == responses[0]);
    assert(before[1] == responses[1]);
    assert(before[i] == responses[i]);
    assert(before[k - 1] == responses[k - 1]);
    assert(next_sync_step(agent_name, config_name, Some(Ok(contents)), before)
        == SyncStepView::Post(version_path_of(config_id), version_payload_of(merged(contents))));
}

/// A sync that finds both the agent and the configuration creates neither: all it
/// sends is the new version.
pub proof fn sync_reuses_what_is_there(
    agent_name: Seq<char>,
    config_name: Seq<char>,
    contents: Seq<Seq<char>>,
    responses: Seq<JsonView>,
    agent_id: Seq<char>,
    config_id: Seq<char>,
)
    requires
        responses.len() == 2,
        named_id(listed(responses[0], "agents"@), agent_name) == Some(agent_id),
        named_id(listed(responses[1], "configurations"@), config_name) == Some(config_id),
    ensures
        next_sync_step(agent_name, config_name, Some(Ok(contents)), responses)
            == SyncStepView::Post(version_path_of(config_id), version_payload_of(merged(contents))),
{
}

/// The policy files are all in what is saved, in order and parted by a document
/// mark: one more file follows what the others merge to, and files that hold
/// something merge to their join.
pub proof fn merged_policies_are_all_there(contents: Seq<Seq<char>>, next: Seq<char>)
    ensures
        merged(Seq::empty()) == Seq::<char>::empty(),
        merged(contents).len() > 0 ==> merged(contents.push(next)) == merged(contents)
            + "\n---\n"@ + next,
        merged(contents).len() == 0 ==> merged(contents.push(next)) == next,
{
    assert(contents.push(next).drop_last() =~= contents);
}

/// Files that hold something merge to their contents with a document mark between
/// each two.
pub proof fn merged_policies_are_joined(contents: Seq<Seq<char>>)
    requires
        forall|i: int| 0 <= i < contents.len() ==> (#[trigger] contents[i]).len() > 0,
    ensures
        merged(contents) == text::join(contents, "\n---\n"@),
        contents.len() > 0 ==> merged(contents).len() > 0,
    decreases contents.len(),
{
    if contents.len() > 0 {
        let front = contents.drop_last();
        merged_policies_are_joined(front);
        assert(contents.last().len() > 0);
        if contents.len() == 1 {
            assert(merged(front).len() == 0);
        }
    }
}

/// What every policy file holds stands in what is saved.
pub proof fn every_policy_is_merged(contents: Seq<Seq<char>>, i: int)
    requires
        0 <= i < contents.len(),
    ensures
        text::contains(merged(contents), contents[i]),
    decreases contents.len(),
{
    let front = contents.drop_last();
    let last = contents.last();
    let before = merged(front);
    let whole = merged(contents);
    if i == contents.len() - 1 {
        let at = whole.len() - last.len();
        assert(whole.subrange(at, at + last.len()) =~= last);
        assert(text::occurs_at(whole, last, at));
    } else {
        every_policy_is_merged(front, i);
        let at = choose|at: int| text::occurs_at(before, front[i], at);
        assert(text::occurs_at(before, front[i], at));
        if before.len() == 0 {
            assert(contents[i] =~= Seq::empty());
            assert(whole.subrange(0, 0) =~= contents[i]);
            assert(text::occurs_at(whole, contents[i], 0));
        } else {
            assert(whole.subrange(at, at + contents[i].len()) =~= before.subrange(
                at,
                at + contents[i].len(),
            ));
            assert(text::occurs_at(whole, contents[i], at));
        }
    }
}

} // verus!
