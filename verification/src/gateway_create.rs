//! Defining an instance.
use vstd::prelude::*;

use crate::error::{self, CliError, ErrorView};
use crate::gateway_run::DEFAULT_MAX_CONCURRENCY;
use crate::instances::{self, GatewayInstanceSpec, SecretReference, SecretView, SpecView};
use crate::text;

verus! {

#[derive(Debug)]
pub struct GatewayCreateArgs {
    pub name: Option<String>,
    pub gateway_id: Option<String>,
    pub listen: String,
    pub upstream: String,
    pub upstream_api_key_env: Option<String>,
    pub upstream_api_key_keychain_service: Option<String>,
    pub upstream_api_key_keychain_account: Option<String>,
    pub upstream_api_key_header: Option<String>,
    pub upstream_api_key_prefix: Option<String>,
    pub fail_mode: String,
    pub policy_config: Vec<String>,
    pub max_concurrency: Option<usize>,
    pub admin_token_env: Option<String>,
    pub admin_token_keychain_service: Option<String>,
    pub admin_token_keychain_account: Option<String>,
    pub admin_local_only: bool,
    pub state_dir: Option<String>,
    pub json: bool,
}

pub struct CreateArgsView {
    pub name: Option<Seq<char>>,
    pub gateway_id: Option<Seq<char>>,
    pub listen: Seq<char>,
    pub upstream: Seq<char>,
    pub upstream_api_key_env: Option<Seq<char>>,
    pub upstream_api_key_keychain_service: Option<Seq<char>>,
    pub upstream_api_key_keychain_account: Option<Seq<char>>,
    pub upstream_api_key_header: Option<Seq<char>>,
    pub upstream_api_key_prefix: Option<Seq<char>>,
    pub fail_mode: Seq<char>,
    pub policy_config: Seq<Seq<char>>,
    pub max_concurrency: Option<usize>,
    pub admin_token_env: Option<Seq<char>>,
    pub admin_token_keychain_service: Option<Seq<char>>,
    pub admin_token_keychain_account: Option<Seq<char>>,
    pub admin_local_only: bool,
}

impl View for GatewayCreateArgs {
    type V = CreateArgsView;

    open spec fn view(&self) -> CreateArgsView {
        CreateArgsView {
            name: text::opt(self.name),
            gateway_id: text::opt(self.gateway_id),
            listen: self.listen@,
            upstream: self.upstream@,
            upstream_api_key_env: text::opt(self.upstream_api_key_env),
            upstream_api_key_keychain_service: text::opt(self.upstream_api_key_keychain_service),
            upstream_api_key_keychain_account: text::opt(self.upstream_api_key_keychain_account),
            upstream_api_key_header: text::opt(self.upstream_api_key_header),
            upstream_api_key_prefix: text::opt(self.upstream_api_key_prefix),
            fail_mode: self.fail_mode@,
            policy_config: text::texts(self.policy_config@),
            max_concurrency: self.max_concurrency,
            admin_token_env: text::opt(self.admin_token_env),
            admin_token_keychain_service: text::opt(self.admin_token_keychain_service),
            admin_token_keychain_account: text::opt(self.admin_token_keychain_account),
            admin_local_only: self.admin_local_only,
        }
    }
}

/// The name of a gateway: the first of the three that is not blank.
pub open spec fn gateway_name_of(
    arg: Option<Seq<char>>,
    env_hostname: Option<Seq<char>>,
    sys_hostname: Option<Seq<char>>,
) -> Seq<char> {
    text::or_else(
        text::first_of(
            text::first_of(text::filled(arg), text::filled(env_hostname)),
            text::filled(sys_hostname),
        ),
        "gateway-default"@,
    )
}

pub fn resolve_gateway_name_with(
    arg: Option<String>,
    env_hostname: Option<String>,
    sys_hostname: Option<String>,
) -> (r: String)
    ensures
        r@ == gateway_name_of(text::opt(arg), text::opt(env_hostname), text::opt(sys_hostname)),
{
    match text::filled_text(text::borrow_opt(&arg)) {
        Some(name) => return name,
        None => {},
    }
    match text::filled_text(text::borrow_opt(&env_hostname)) {
        Some(hostname) => return hostname,
        None => {},
    }
    match text::filled_text(text::borrow_opt(&sys_hostname)) {
        Some(hostname) => return hostname,
        None => {},
    }
    "gateway-default".to_string()
}

/// Where a secret is found. A variable and a keychain exclude each other, and a
/// keychain needs both of its parts.
pub open spec fn secret_of(
    env_var: Option<Seq<char>>,
    keychain_service: Option<Seq<char>>,
    keychain_account: Option<Seq<char>>,
    label: Seq<char>,
) -> Result<Option<SecretView>, ErrorView> {
    match (env_var, keychain_service, keychain_account) {
        (None, None, None) => Ok(None),
        (Some(name), None, None) => Ok(Some(SecretView::EnvVar(name))),
        (Some(_), _, _) => Err(
            error::user_error(
                label
                    + " must use either an env var reference or a keychain reference, not both"@,
            ),
        ),
        (None, Some(service), Some(account)) => Ok(Some(SecretView::Keychain(service, account))),
        (None, _, _) => Err(
            error::user_error(
                label + " keychain references require both service and account"@,
            ),
        ),
    }
}

pub open spec fn secret_result(r: Result<Option<SecretReference>, CliError>) -> Result<
    Option<SecretView>,
    ErrorView,
> {
    match r {
        Ok(s) => Ok(instances::opt_secret(s)),
        Err(e) => Err(e@),
    }
}

pub fn secret_reference(
    env_var: Option<String>,
    keychain_service: Option<String>,
    keychain_account: Option<String>,
    label: &str,
) -> (r: Result<Option<SecretReference>, CliError>)
    ensures
        secret_result(r) == secret_of(
            text::opt(env_var),
            text::opt(keychain_service),
            text::opt(keychain_account),
            label@,
        ),
{
    match env_var {
        Some(name) => if keychain_service.is_some() || keychain_account.is_some() {
            Err(
                CliError::user(
                    text::concat(
                        label,
                        " must use either an env var reference or a keychain reference, not both",
                    ),
                ),
            )
        } else {
            Ok(Some(SecretReference::env_var(name.as_str())))
        },
        None => match (keychain_service, keychain_account) {
            (None, None) => Ok(None),
            (Some(service), Some(account)) => Ok(
                Some(SecretReference::keychain(service, account)),
            ),
            _ => Err(
                CliError::user(
                    text::concat(
                        label,
                        " keychain references require both service and account",
                    ),
                ),
            ),
        },
    }
}

/// The instance that the arguments describe, under a name.
pub open spec fn instance_of(args: CreateArgsView, name: Seq<char>) -> Result<SpecView, ErrorView> {
    match (
        secret_of(
            args.upstream_api_key_env,
            args.upstream_api_key_keychain_service,
            args.upstream_api_key_keychain_account,
            "upstream api key"@,
        ),
        secret_of(
            args.admin_token_env,
            args.admin_token_keychain_service,
            args.admin_token_keychain_account,
            "proxy api token"@,
        ),
    ) {
        (Err(e), _) => Err(e),
        (Ok(_), Err(e)) => Err(e),
        (Ok(upstream_api_key), Ok(admin_token)) => Ok(
            SpecView {
                instance_id: name,
                gateway_id: text::or_else(args.gateway_id, name),
                name,
                listen_addr: args.listen,
                upstream_base_url: args.upstream,
                upstream_api_key,
                upstream_api_key_header: args.upstream_api_key_header,
                upstream_api_key_prefix: args.upstream_api_key_prefix,
                fail_mode: args.fail_mode,
                policy_paths: args.policy_config,
                max_concurrency: match args.max_concurrency {
                    Some(n) => n,
                    None => DEFAULT_MAX_CONCURRENCY,
                },
                admin_token,
                admin_local_only: args.admin_local_only,
            },
        ),
    }
}

pub fn build_instance_spec(args: &GatewayCreateArgs, name: &str) -> (r: Result<
    GatewayInstanceSpec,
    CliError,
>)
    ensures
        error::viewed(r) == instance_of(args@, name@),
{
    let upstream_api_key = secret_reference(
        text::copy_opt(&args.upstream_api_key_env),
        text::copy_opt(&args.upstream_api_key_keychain_service),
        text::copy_opt(&args.upstream_api_key_keychain_account),
        "upstream api key",
    )?;
    let admin_token = secret_reference(
        text::copy_opt(&args.admin_token_env),
        text::copy_opt(&args.admin_token_keychain_service),
        text::copy_opt(&args.admin_token_keychain_account),
        "proxy api token",
    )?;
    Ok(
        GatewayInstanceSpec {
            instance_id: name.to_string(),
            gateway_id: text::unwrap_text(&args.gateway_id, name),
            name: name.to_string(),
            listen_addr: args.listen.clone(),
            upstream_base_url: args.upstream.clone(),
            upstream_api_key,
            upstream_api_key_header: text::copy_opt(&args.upstream_api_key_header),
            upstream_api_key_prefix: text::copy_opt(&args.upstream_api_key_prefix),
            fail_mode: args.fail_mode.clone(),
            policy_paths: text::copy_texts(&args.policy_config),
            max_concurrency: match args.max_concurrency {
                Some(n) => n,
                None => DEFAULT_MAX_CONCURRENCY,
            },
            admin_token,
            admin_local_only: args.admin_local_only,
        },
    )
}

/// What the operator reads of a new instance.
pub fn created_lines(spec: &GatewayInstanceSpec) -> (r: Vec<String>)
    ensures
        text::texts(r@) == seq![
            "created proxy instance "@ + spec@.instance_id,
            "gateway id: "@ + spec@.gateway_id,
            "listen: "@ + spec@.listen_addr,
            "upstream: "@ + spec@.upstream_base_url,
        ],
{
    let lines: Vec<String> = vec![
        text::concat("created proxy instance ", spec.instance_id.as_str()),
        text::concat("gateway id: ", spec.gateway_id.as_str()),
        text::concat("listen: ", spec.listen_addr.as_str()),
        text::concat("upstream: ", spec.upstream_base_url.as_str()),
    ];
    assert(text::texts(lines@) =~= seq![
        "created proxy instance "@ + spec@.instance_id,
        "gateway id: "@ + spec@.gateway_id,
        "listen: "@ + spec@.listen_addr,
        "upstream: "@ + spec@.upstream_base_url,
    ]);
    lines
}

/// A secret is found in at most one place, and an instance whose secrets are named in
/// two places is refused.
pub proof fn mixed_secret_sources_are_refused(
    env_var: Seq<char>,
    keychain_service: Option<Seq<char>>,
    keychain_account: Option<Seq<char>>,
    label: Seq<char>,
)
    requires
        keychain_service is Some || keychain_account is Some,
    ensures
        secret_of(Some(env_var), keychain_service, keychain_account, label) is Err,
{
}

} // verus!
