//! Reloading the configuration of a running gateway, with verification and
//! rollback.
use vstd::prelude::*;

use crate::error::{self, CliError, ErrorView};
use crate::instances::{
    ConfigVerificationState, EntryView, GatewayInstanceLifecycle, GatewayInstanceStatus,
    LoadedConfig, LoadedView, OperationAction, OperationHistoryEntry, OperationOutcome, StatusView,
};
use crate::json::{self, Json, JsonView};
use crate::text;

verus! {

#[derive(Debug)]
pub struct GatewayReloadArgs {
    pub name: String,
    pub gateway_url: String,
    pub config_path: Option<String>,
    pub state_dir: Option<String>,
    pub json: bool,
}

// ---------------------------------------------------------------------------
// What a gateway says of its configuration
// ---------------------------------------------------------------------------

/// The configuration that a gateway reports.
#[derive(Debug)]
pub struct ParsedGatewayConfig {
    pub version: Option<String>,
    pub sha256: Option<String>,
    pub content: Option<String>,
}

pub struct ConfigView {
    pub version: Option<Seq<char>>,
    pub sha256: Option<Seq<char>>,
    pub content: Option<Seq<char>>,
}

impl View for ParsedGatewayConfig {
    type V = ConfigView;

    open spec fn view(&self) -> ConfigView {
        ConfigView {
            version: text::opt(self.version),
            sha256: text::opt(self.sha256),
            content: text::opt(self.content),
        }
    }
}

pub open spec fn reported_config(value: JsonView) -> Result<ConfigView, ErrorView> {
    match json::field(value, "config"@) {
        Some(config) => if config is Object {
            Ok(
                ConfigView {
                    version: json::field_text(config, "config_version"@),
                    sha256: json::field_text(config, "config_sha256"@),
                    content: json::field_text(config, "config_content"@),
                },
            )
        } else {
            Err(error::internal_error("proxy reload response missing config object"@))
        },
        None => Err(error::internal_error("proxy reload response missing config object"@)),
    }
}

pub fn parse_reload_config(value: &Json) -> (r: Result<ParsedGatewayConfig, CliError>)
    ensures
        error::viewed(r) == reported_config(json::json_view(*value)),
{
    match value.get("config") {
        Some(config) => if config.is_object() {
            return Ok(
                ParsedGatewayConfig {
                    version: text::own_opt(config.get_str("config_version")),
                    sha256: text::own_opt(config.get_str("config_sha256")),
                    content: text::own_opt(config.get_str("config_content")),
                },
            );
        },
        None => {},
    }
    Err(CliError::internal("proxy reload response missing config object".to_string()))
}

/// What came back from a gateway. The body is given as text and as the JSON value
/// that it holds, or the reason why it holds none.
#[derive(Debug)]
pub struct GatewayReply {
    pub success: bool,
    pub status: String,
    pub body: String,
    pub json: Result<Json, String>,
}

#[derive(Debug)]
pub enum GatewayAnswer {
    /// There is no client to make requests with.
    Unequipped(String),
    /// The request could not be sent.
    Unreachable(String),
    /// The response could not be read.
    Unread(String),
    Reply(GatewayReply),
}

pub struct ReplyView {
    pub success: bool,
    pub status: Seq<char>,
    pub body: Seq<char>,
    pub json: Result<JsonView, Seq<char>>,
}

impl View for GatewayReply {
    type V = ReplyView;

    open spec fn view(&self) -> ReplyView {
        ReplyView {
            success: self.success,
            status: self.status@,
            body: self.body@,
            json: match self.json {
                Ok(v) => Ok(json::json_view(v)),
                Err(e) => Err(e@),
            },
        }
    }
}

pub enum AnswerView {
    Unequipped(Seq<char>),
    Unreachable(Seq<char>),
    Unread(Seq<char>),
    Reply(ReplyView),
}

impl View for GatewayAnswer {
    type V = AnswerView;

    open spec fn view(&self) -> AnswerView {
        match self {
            GatewayAnswer::Unequipped(e) => AnswerView::Unequipped(e@),
            GatewayAnswer::Unreachable(e) => AnswerView::Unreachable(e@),
            GatewayAnswer::Unread(e) => AnswerView::Unread(e@),
            GatewayAnswer::Reply(reply) => AnswerView::Reply(reply@),
        }
    }
}

pub open spec fn answers_of(v: Seq<GatewayAnswer>) -> Seq<AnswerView> {
    Seq::new(v.len(), |i: int| v[i]@)
}

// ---------------------------------------------------------------------------
// The requests
// ---------------------------------------------------------------------------

pub open spec fn endpoint(gateway_url: Seq<char>, path: Seq<char>) -> Seq<char> {
    text::drop_end(gateway_url, '/') + path
}

fn endpoint_of(gateway_url: &str, path: &str) -> (r: String)
    ensures
        r@ == endpoint(gateway_url@, path@),
{
    let mut url = text::drop_end_text(gateway_url, '/');
    url.append(path);
    url
}

pub fn reload_url(gateway_url: &str) -> (r: String)
    ensures
        r@ == endpoint(gateway_url@, "/verdictan/config/reload"@),
{
    endpoint_of(gateway_url, "/verdictan/config/reload")
}

pub fn config_url(gateway_url: &str) -> (r: String)
    ensures
        r@ == endpoint(gateway_url@, "/verdictan/config"@),
{
    endpoint_of(gateway_url, "/verdictan/config")
}

pub fn health_url(gateway_url: &str) -> (r: String)
    ensures
        r@ == endpoint(gateway_url@, "/healthz"@),
{
    endpoint_of(gateway_url, "/healthz")
}

pub open spec fn reload_payload_of(config_yaml: Seq<char>) -> JsonView {
    JsonView::Object(seq![("config_yaml"@, JsonView::Text(config_yaml))])
}

/// The body of a reload request.
pub fn reload_payload(config_yaml: &str) -> (r: Json)
    ensures
        json::json_view(r) == reload_payload_of(config_yaml@),
{
    let payload = Json::object().with_text("config_yaml", config_yaml);
    assert(json::json_view(payload) =~= reload_payload_of(config_yaml@));
    payload
}

pub open spec fn api_token_of(
    explicit_token: Option<Seq<char>>,
    stored_token: Option<Seq<char>>,
    env_token: Option<Seq<char>>,
) -> Option<Seq<char>> {
    let token = if explicit_token is Some {
        explicit_token
    } else if stored_token is Some {
        stored_token
    } else {
        env_token
    };
    match token {
        Some(t) => if text::is_blank(t) {
            None
        } else {
            Some(t)
        },
        None => None,
    }
}

/// The token of the request: the explicit one, else the stored one, else that of
/// VERDICTAN_API_TOKEN; none if the one chosen is blank.
pub fn resolve_gateway_api_token(
    explicit_token: Option<String>,
    stored_token: Option<String>,
    env_token: Option<String>,
) -> (r: Option<String>)
    ensures
        text::opt(r) == api_token_of(
            text::opt(explicit_token),
            text::opt(stored_token),
            text::opt(env_token),
        ),
{
    let token = match explicit_token {
        Some(token) => Some(token),
        None => match stored_token {
            Some(token) => Some(token),
            None => env_token,
        },
    };
    match token {
        Some(token) => if text::is_blank_text(token.as_str()) {
            None
        } else {
            Some(token)
        },
        None => None,
    }
}

/// The paths, one behind the other.
pub fn describe_config_paths(paths: &Vec<String>) -> (r: String)
    ensures
        r@ == text::join(text::texts(paths@), ", "@),
{
    text::join_texts(paths, ", ")
}

pub open spec fn config_paths_of(
    config_path: Option<Seq<char>>,
    stored: Seq<Seq<char>>,
) -> Result<Seq<Seq<char>>, ErrorView> {
    match config_path {
        Some(path) => Ok(seq![path]),
        None => if stored.len() == 0 {
            Err(
                error::user_error("instance has no policy config path; pass --config-path"@),
            )
        } else {
            Ok(stored)
        },
    }
}

pub open spec fn paths_result(r: Result<Vec<String>, CliError>) -> Result<
    Seq<Seq<char>>,
    ErrorView,
> {
    match r {
        Ok(v) => Ok(text::texts(v@)),
        Err(e) => Err(e@),
    }
}

/// The files to load: the one that was asked for, else those of the instance.
pub fn reload_config_paths(config_path: Option<&str>, stored: &Vec<String>) -> (r: Result<
    Vec<String>,
    CliError,
>)
    ensures
        paths_result(r) == config_paths_of(text::opt_ref(config_path), text::texts(stored@)),
{
    match config_path {
        Some(path) => {
            let paths: Vec<String> = vec![path.to_string()];
            assert(text::texts(paths@) =~= seq![path@]);
            Ok(paths)
        },
        None => if stored.len() == 0 {
            Err(
                CliError::user(
                    "instance has no policy config path; pass --config-path".to_string(),
                ),
            )
        } else {
            Ok(text::copy_texts(stored))
        },
    }
}

// ---------------------------------------------------------------------------
// The answers
// ---------------------------------------------------------------------------

/// An answer that was refused or could not be had.
pub open spec fn refused(answer: AnswerView, request: Seq<char>, response: Seq<char>, endpoint: Seq<char>) -> Option<
    ErrorView,
> {
    match answer {
        AnswerView::Unequipped(e) => Some(error::internal_error(e)),
        AnswerView::Unreachable(e) => Some(error::network_error(request + e)),
        AnswerView::Unread(e) => Some(error::network_error(response + e)),
        AnswerView::Reply(reply) => if reply.success {
            None
        } else {
            Some(
                error::network_error(endpoint + " returned "@ + reply.status + ": "@ + reply.body),
            )
        },
    }
}

pub fn accept<'a>(answer: &'a GatewayAnswer, request: &str, response: &str, endpoint: &str) -> (r: Result<
    &'a GatewayReply,
    CliError,
>)
    ensures
        match refused(answer@, request@, response@, endpoint@) {
            Some(e) => r matches Err(error) && error@ == e,
            None => r matches Ok(reply) && answer@ == AnswerView::Reply(reply@),
        },
{
    match answer {
        GatewayAnswer::Unequipped(e) => Err(CliError::internal(e.clone())),
        GatewayAnswer::Unreachable(e) => Err(CliError::network(text::concat(request, e.as_str()))),
        GatewayAnswer::Unread(e) => Err(CliError::network(text::concat(response, e.as_str()))),
        GatewayAnswer::Reply(reply) => if reply.success {
            Ok(reply)
        } else {
            let mut message = endpoint.to_string();
            message.append(" returned ");
            message.append(reply.status.as_str());
            message.append(": ");
            message.append(reply.body.as_str());
            Err(CliError::network(message))
        },
    }
}

pub open spec fn reload_answer(answer: AnswerView) -> Result<JsonView, ErrorView> {
    match refused(
        answer,
        "failed to reload proxy config: "@,
        "failed to read proxy response: "@,
        "proxy reload endpoint"@,
    ) {
        Some(e) => Err(e),
        None => match answer->Reply_0.json {
            Ok(v) => Ok(v),
            Err(e) => Err(
                error::internal_error("proxy reload response is not valid JSON: "@ + e),
            ),
        },
    }
}

/// What a gateway answered to a reload request.
pub fn read_reload_answer(answer: &GatewayAnswer) -> (r: Result<&Json, CliError>)
    ensures
        match reload_answer(answer@) {
            Ok(v) => r matches Ok(value) && json::json_view(*value) == v,
            Err(e) => r matches Err(error) && error@ == e,
        },
{
    let reply = accept(
        answer,
        "failed to reload proxy config: ",
        "failed to read proxy response: ",
        "proxy reload endpoint",
    )?;
    match &reply.json {
        Ok(value) => Ok(value),
        Err(e) => Err(
            CliError::internal(
                text::concat("proxy reload response is not valid JSON: ", e.as_str()),
            ),
        ),
    }
}

pub open spec fn config_answer(answer: AnswerView) -> Result<ConfigView, ErrorView> {
    match refused(
        answer,
        "failed to query proxy config: "@,
        "failed to read proxy response: "@,
        "proxy config endpoint"@,
    ) {
        Some(e) => Err(e),
        None => match answer->Reply_0.json {
            Ok(v) => reported_config(v),
            Err(e) => Err(
                error::internal_error("proxy config response is not valid JSON: "@ + e),
            ),
        },
    }
}

/// The configuration that a gateway answered with.
pub fn read_config_answer(answer: &GatewayAnswer) -> (r: Result<ParsedGatewayConfig, CliError>)
    ensures
        error::viewed(r) == config_answer(answer@),
{
    let reply = accept(
        answer,
        "failed to query proxy config: ",
        "failed to read proxy response: ",
        "proxy config endpoint",
    )?;
    match &reply.json {
        Ok(value) => parse_reload_config(value),
        Err(e) => Err(
            CliError::internal(
                text::concat("proxy config response is not valid JSON: ", e.as_str()),
            ),
        ),
    }
}

/// The configuration, if it is the expected one.
pub open spec fn expected_config(
    config: ConfigView,
    expected_sha256: Seq<char>,
    expected_version: Seq<char>,
) -> Result<ConfigView, ErrorView> {
    let sha256 = text::or_else(config.sha256, Seq::empty());
    let version = text::or_else(config.version, Seq::empty());
    if sha256 != expected_sha256 {
        Err(
            error::network_error(
                "expected active config digest "@ + expected_sha256
                    + " but proxy is reporting "@ + sha256,
            ),
        )
    } else if version != expected_version {
        Err(
            error::network_error(
                "expected active config version "@ + expected_version
                    + " but proxy is reporting "@ + version,
            ),
        )
    } else {
        Ok(config)
    }
}

pub open spec fn confirmed(
    answer: AnswerView,
    expected_sha256: Seq<char>,
    expected_version: Seq<char>,
) -> Result<ConfigView, ErrorView> {
    match config_answer(answer) {
        Ok(config) => expected_config(config, expected_sha256, expected_version),
        Err(e) => Err(e),
    }
}

/// The configuration that a gateway answered with, if it is the expected one.
pub fn verify_gateway_config(
    answer: &GatewayAnswer,
    expected_sha256: &str,
    expected_version: &str,
) -> (r: Result<ParsedGatewayConfig, CliError>)
    ensures
        error::viewed(r) == confirmed(answer@, expected_sha256@, expected_version@),
{
    let config = read_config_answer(answer)?;
    proof {
        reveal_strlit("");
        assert(""@ =~= Seq::<char>::empty());
    }
    let sha256 = text::unwrap_text(&config.sha256, "");
    if !text::same(sha256.as_str(), expected_sha256) {
        let mut message = "expected active config digest ".to_string();
        message.append(expected_sha256);
        message.append(" but proxy is reporting ");
        message.append(sha256.as_str());
        return Err(CliError::network(message));
    }
    let version = text::unwrap_text(&config.version, "");
    if !text::same(version.as_str(), expected_version) {
        let mut message = "expected active config version ".to_string();
        message.append(expected_version);
        message.append(" but proxy is reporting ");
        message.append(version.as_str());
        return Err(CliError::network(message));
    }
    Ok(config)
}

pub open spec fn health_answer(answer: AnswerView) -> Result<(), ErrorView> {
    match refused(
        answer,
        "failed to query gateway health: "@,
        "failed to read gateway health: "@,
        "gateway health endpoint"@,
    ) {
        Some(e) => Err(e),
        None => match answer->Reply_0.json {
            Ok(v) => {
                let actual = text::or_else(json::field_text(v, "status"@), Seq::empty());
                if actual == "ok"@ {
                    Ok(())
                } else {
                    Err(
                        error::network_error(
                            "expected gateway health status ok but proxy is reporting "@ + actual,
                        ),
                    )
                }
            },
            Err(e) => Err(
                error::network_error("gateway health response is not valid JSON: "@ + e),
            ),
        },
    }
}

/// Whether a gateway says that it is healthy.
pub fn verify_gateway_health(answer: &GatewayAnswer) -> (r: Result<(), CliError>)
    ensures
        error::done(r) == health_answer(answer@),
{
    let reply = accept(
        answer,
        "failed to query gateway health: ",
        "failed to read gateway health: ",
        "gateway health endpoint",
    )?;
    match &reply.json {
        Ok(value) => {
            proof {
                reveal_strlit("");
                assert(""@ =~= Seq::<char>::empty());
            }
            let actual = match value.get_str("status") {
                Some(status) => status,
                None => "",
            };
            if text::same(actual, "ok") {
                Ok(())
            } else {
                Err(
                    CliError::network(
                        text::concat(
                            "expected gateway health status ok but proxy is reporting ",
                            actual,
                        ),
                    ),
                )
            }
        },
        Err(e) => Err(
            CliError::network(
                text::concat("gateway health response is not valid JSON: ", e.as_str()),
            ),
        ),
    }
}

// ---------------------------------------------------------------------------
// The course of a reload
// ---------------------------------------------------------------------------

/// The configuration to activate.
#[derive(Debug)]
pub struct ReloadRequest {
    pub name: String,
    pub loaded: LoadedConfig,
    pub config_yaml: String,
    pub config_source: String,
}

pub struct RequestView {
    pub name: Seq<char>,
    pub loaded: LoadedView,
    pub config_yaml: Seq<char>,
    pub config_source: Seq<char>,
}

impl View for ReloadRequest {
    type V = RequestView;

    open spec fn view(&self) -> RequestView {
        RequestView {
            name: self.name@,
            loaded: self.loaded@,
            config_yaml: self.config_yaml@,
            config_source: self.config_source@,
        }
    }
}

/// What is kept of a reload, and what the operator is told.
#[derive(Debug)]
pub struct ReloadOutcome {
    pub status: GatewayInstanceStatus,
    pub entry: OperationHistoryEntry,
    pub report: Result<String, CliError>,
}

pub struct OutcomeView {
    pub status: StatusView,
    pub entry: EntryView,
    pub report: Result<Seq<char>, ErrorView>,
}

impl View for ReloadOutcome {
    type V = OutcomeView;

    open spec fn view(&self) -> OutcomeView {
        OutcomeView {
            status: self.status@,
            entry: self.entry@,
            report: error::viewed(self.report),
        }
    }
}

/// What a reload does next.
#[derive(Debug)]
pub enum ReloadStep {
    /// Ask the gateway for its configuration.
    FetchConfig,
    /// Keep the status, then send the configuration to the gateway.
    Apply(GatewayInstanceStatus, String),
    /// Ask the gateway for its health.
    CheckHealth,
    /// Send the configuration that the gateway had before.
    RollBack(String),
    /// Keep the outcome and report it.
    Settle(ReloadOutcome),
    /// Keep nothing and report the error.
    Refuse(CliError),
}

pub enum ReloadStepView {
    FetchConfig,
    Apply(StatusView, Seq<char>),
    CheckHealth,
    RollBack(Seq<char>),
    Settle(OutcomeView),
    Refuse(ErrorView),
}

impl View for ReloadStep {
    type V = ReloadStepView;

    open spec fn view(&self) -> ReloadStepView {
        match self {
            ReloadStep::FetchConfig => ReloadStepView::FetchConfig,
            ReloadStep::Apply(status, yaml) => ReloadStepView::Apply(status@, yaml@),
            ReloadStep::CheckHealth => ReloadStepView::CheckHealth,
            ReloadStep::RollBack(yaml) => ReloadStepView::RollBack(yaml@),
            ReloadStep::Settle(outcome) => ReloadStepView::Settle(outcome@),
            ReloadStep::Refuse(e) => ReloadStepView::Refuse(e@),
        }
    }
}

/// The status while a reload is under way. The configuration that the gateway had
/// before is the rollback target.
pub open spec fn begun(
    status: StatusView,
    request: RequestView,
    before: ConfigView,
    now: Seq<char>,
) -> StatusView {
    StatusView {
        lifecycle: GatewayInstanceLifecycle::Starting,
        desired_config_version: Some(request.loaded.config_version),
        desired_config_sha256: Some(request.loaded.config_sha256),
        desired_config_source: Some(request.config_source),
        rollback_target_version: before.version,
        rollback_target_sha256: before.sha256,
        rollback_target_yaml: before.content,
        last_reload_reason: Some("reload requested from "@ + request.config_source),
        last_rollback_reason: None,
        verification_state: ConfigVerificationState::Pending,
        last_verified_at: None,
        updated_at: now,
        ..status
    }
}

fn begin(
    status: &GatewayInstanceStatus,
    request: &ReloadRequest,
    before: &ParsedGatewayConfig,
    now: &str,
) -> (r: GatewayInstanceStatus)
    ensures
        r@ == begun(status@, request@, before@, now@),
{
    let mut next = status.copy();
    next.lifecycle = GatewayInstanceLifecycle::Starting;
    next.desired_config_version = Some(request.loaded.config_version.clone());
    next.desired_config_sha256 = Some(request.loaded.config_sha256.clone());
    next.desired_config_source = Some(request.config_source.clone());
    next.rollback_target_version = text::copy_opt(&before.version);
    next.rollback_target_sha256 = text::copy_opt(&before.sha256);
    next.rollback_target_yaml = text::copy_opt(&before.content);
    next.last_reload_reason = Some(
        text::concat("reload requested from ", request.config_source.as_str()),
    );
    next.last_rollback_reason = None;
    next.verification_state = ConfigVerificationState::Pending;
    next.last_verified_at = None;
    next.updated_at = now.to_string();
    next
}

/// The entry of a reload.
pub open spec fn reload_entry(
    outcome: OperationOutcome,
    reason: Option<Seq<char>>,
    request: RequestView,
    before: ConfigView,
    active: ConfigView,
    now: Seq<char>,
) -> EntryView {
    EntryView {
        action: OperationAction::Reload,
        outcome,
        reason,
        previous_version: before.version,
        previous_sha256: before.sha256,
        target_version: Some(request.loaded.config_version),
        target_sha256: Some(request.loaded.config_sha256),
        active_version: active.version,
        active_sha256: active.sha256,
        recorded_at: now,
    }
}

fn build_reload_entry(
    outcome: OperationOutcome,
    reason: Option<String>,
    request: &ReloadRequest,
    before: &ParsedGatewayConfig,
    active: &ParsedGatewayConfig,
    now: &str,
) -> (r: OperationHistoryEntry)
    ensures
        r@ == reload_entry(outcome, text::opt(reason), request@, before@, active@, now@),
{
    OperationHistoryEntry {
        action: OperationAction::Reload,
        outcome,
        reason,
        previous_version: text::copy_opt(&before.version),
        previous_sha256: text::copy_opt(&before.sha256),
        target_version: Some(request.loaded.config_version.clone()),
        target_sha256: Some(request.loaded.config_sha256.clone()),
        active_version: text::copy_opt(&active.version),
        active_sha256: text::copy_opt(&active.sha256),
        recorded_at: now.to_string(),
    }
}

pub open spec fn reloaded_message(name: Seq<char>, version: Option<Seq<char>>) -> Seq<char> {
    match version {
        Some(version) => "reloaded "@ + name + " to version "@ + version,
        None => "reloaded "@ + name,
    }
}

/// The new configuration is active, confirmed and healthy.
pub open spec fn activated(
    status: StatusView,
    request: RequestView,
    before: ConfigView,
    reloaded: ConfigView,
    verified: ConfigView,
    now: Seq<char>,
) -> OutcomeView {
    let version = text::first_of(verified.version, reloaded.version);
    let sha256 = text::first_of(verified.sha256, reloaded.sha256);
    OutcomeView {
        status: StatusView {
            lifecycle: GatewayInstanceLifecycle::Running,
            observed_config_version: version,
            observed_config_sha256: sha256,
            last_known_good_version: version,
            last_known_good_sha256: sha256,
            last_error: None,
            verification_state: ConfigVerificationState::Verified,
            last_verified_at: Some(now),
            last_healthcheck_at: Some(now),
            last_observed_healthy: Some(true),
            last_seen_at: Some(now),
            updated_at: now,
            ..begun(status, request, before, now)
        },
        entry: reload_entry(
            OperationOutcome::Succeeded,
            None,
            request,
            before,
            verified,
            now,
        ),
        report: Ok(reloaded_message(request.name, reloaded.version)),
    }
}

fn activate(
    status: &GatewayInstanceStatus,
    request: &ReloadRequest,
    before: &ParsedGatewayConfig,
    reloaded: &ParsedGatewayConfig,
    verified: &ParsedGatewayConfig,
    now: &str,
) -> (r: ReloadOutcome)
    ensures
        r@ == activated(status@, request@, before@, reloaded@, verified@, now@),
{
    let mut next = begin(status, request, before, now);
    next.lifecycle = GatewayInstanceLifecycle::Running;
    next.observed_config_version = text::first_text(&verified.version, &reloaded.version);
    next.observed_config_sha256 = text::first_text(&verified.sha256, &reloaded.sha256);
    next.last_known_good_version = text::copy_opt(&next.observed_config_version);
    next.last_known_good_sha256 = text::copy_opt(&next.observed_config_sha256);
    next.last_error = None;
    next.verification_state = ConfigVerificationState::Verified;
    next.last_verified_at = Some(now.to_string());
    next.last_healthcheck_at = Some(now.to_string());
    next.last_observed_healthy = Some(true);
    next.last_seen_at = Some(now.to_string());
    next.updated_at = now.to_string();
    let mut message = "reloaded ".to_string();
    message.append(request.name.as_str());
    match &reloaded.version {
        Some(version) => {
            message.append(" to version ");
            message.append(version.as_str());
        },
        None => {},
    }
    let outcome = ReloadOutcome {
        status: next,
        entry: build_reload_entry(
            OperationOutcome::Succeeded,
            None,
            request,
            before,
            verified,
            now,
        ),
        report: Ok(message),
    };
    outcome
}

/// The new configuration failed, and the gateway is back at the one before.
pub open spec fn rolled_back(
    status: StatusView,
    request: RequestView,
    before: ConfigView,
    failure: Seq<char>,
    now: Seq<char>,
) -> OutcomeView {
    OutcomeView {
        status: StatusView {
            lifecycle: GatewayInstanceLifecycle::Failed,
            observed_config_version: before.version,
            observed_config_sha256: before.sha256,
            last_known_good_version: before.version,
            last_known_good_sha256: before.sha256,
            last_rollback_reason: Some(failure),
            last_error: Some("activation failed and rollback was applied: "@ + failure),
            verification_state: ConfigVerificationState::RolledBack,
            last_verified_at: Some(now),
            last_healthcheck_at: Some(now),
            last_observed_healthy: Some(false),
            last_seen_at: Some(now),
            updated_at: now,
            ..begun(status, request, before, now)
        },
        entry: reload_entry(
            OperationOutcome::RolledBack,
            Some(failure),
            request,
            before,
            before,
            now,
        ),
        report: Err(
            error::network_error(
                "proxy activation failed verification and rollback was applied: "@ + failure,
            ),
        ),
    }
}

fn roll_back(
    status: &GatewayInstanceStatus,
    request: &ReloadRequest,
    before: &ParsedGatewayConfig,
    failure: &CliError,
    now: &str,
) -> (r: ReloadOutcome)
    ensures
        r@ == rolled_back(status@, request@, before@, failure@.message, now@),
{
    let mut next = begin(status, request, before, now);
    next.lifecycle = GatewayInstanceLifecycle::Failed;
    next.observed_config_version = text::copy_opt(&before.version);
    next.observed_config_sha256 = text::copy_opt(&before.sha256);
    next.last_known_good_version = text::copy_opt(&before.version);
    next.last_known_good_sha256 = text::copy_opt(&before.sha256);
    next.last_rollback_reason = Some(failure.to_string());
    next.last_error = Some(
        text::concat(
            "activation failed and rollback was applied: ",
            failure.to_string().as_str(),
        ),
    );
    next.verification_state = ConfigVerificationState::RolledBack;
    next.last_verified_at = Some(now.to_string());
    next.last_healthcheck_at = Some(now.to_string());
    next.last_observed_healthy = Some(false);
    next.last_seen_at = Some(now.to_string());
    next.updated_at = now.to_string();
    ReloadOutcome {
        status: next,
        entry: build_reload_entry(
            OperationOutcome::RolledBack,
            Some(failure.to_string()),
            request,
            before,
            before,
            now,
        ),
        report: Err(
            CliError::network(
                text::concat(
                    "proxy activation failed verification and rollback was applied: ",
                    failure.to_string().as_str(),
                ),
            ),
        ),
    }
}

/// The new configuration failed, and so did the way back.
pub open spec fn stuck(
    status: StatusView,
    request: RequestView,
    before: ConfigView,
    reloaded: ConfigView,
    failure: Seq<char>,
    rollback_failure: Seq<char>,
    now: Seq<char>,
) -> OutcomeView {
    OutcomeView {
        status: StatusView {
            lifecycle: GatewayInstanceLifecycle::Failed,
            last_error: Some(
                "activation verification failed: "@ + failure + "; rollback also failed: "@
                    + rollback_failure,
            ),
            verification_state: ConfigVerificationState::Failed,
            last_healthcheck_at: Some(now),
            last_observed_healthy: Some(false),
            last_seen_at: Some(now),
            updated_at: now,
            ..begun(status, request, before, now)
        },
        entry: reload_entry(
            OperationOutcome::Failed,
            Some(
                "activation verification failed: "@ + failure + "; rollback failed: "@
                    + rollback_failure,
            ),
            request,
            before,
            reloaded,
            now,
        ),
        report: Err(
            error::network_error(
                "proxy activation failed verification and rollback failed: "@ + failure + "; "@
                    + rollback_failure,
            ),
        ),
    }
}

fn joined(start: &str, a: &str, between: &str, b: &str) -> (r: String)
    ensures
        r@ == start@ + a@ + between@ + b@,
{
    let mut out = start.to_string();
    out.append(a);
    out.append(between);
    out.append(b);
    out
}

fn give_up(
    status: &GatewayInstanceStatus,
    request: &ReloadRequest,
    before: &ParsedGatewayConfig,
    reloaded: &ParsedGatewayConfig,
    failure: &CliError,
    rollback_failure: &CliError,
    now: &str,
) -> (r: ReloadOutcome)
    ensures
        r@ == stuck(
            status@,
            request@,
            before@,
            reloaded@,
            failure@.message,
            rollback_failure@.message,
            now@,
        ),
{
    let failed = failure.to_string();
    let also = rollback_failure.to_string();
    let mut next = begin(status, request, before, now);
    next.lifecycle = GatewayInstanceLifecycle::Failed;
    next.last_error = Some(
        joined(
            "activation verification failed: ",
            failed.as_str(),
            "; rollback also failed: ",
            also.as_str(),
        ),
    );
    next.verification_state = ConfigVerificationState::Failed;
    next.last_healthcheck_at = Some(now.to_string());
    next.last_observed_healthy = Some(false);
    next.last_seen_at = Some(now.to_string());
    next.updated_at = now.to_string();
    ReloadOutcome {
        status: next,
        entry: build_reload_entry(
            OperationOutcome::Failed,
            Some(
                joined(
                    "activation verification failed: ",
                    failed.as_str(),
                    "; rollback failed: ",
                    also.as_str(),
                ),
            ),
            request,
            before,
            reloaded,
            now,
        ),
        report: Err(
            CliError::network(
                joined(
                    "proxy activation failed verification and rollback failed: ",
                    failed.as_str(),
                    "; ",
                    also.as_str(),
                ),
            ),
        ),
    }
}

/// What follows a failed verification: the rollback, if there is anything to go
/// back to, and then its outcome.
pub open spec fn after_failure(
    status: StatusView,
    request: RequestView,
    before: ConfigView,
    reloaded: ConfigView,
    failure: ErrorView,
    rollback: Option<AnswerView>,
    now: Seq<char>,
) -> ReloadStepView {
    match (before.content, rollback) {
        (None, _) => ReloadStepView::Settle(
            stuck(
                status,
                request,
                before,
                reloaded,
                failure.message,
                "activation verification failed and no rollback target was available"@,
                now,
            ),
        ),
        (Some(yaml), None) => ReloadStepView::RollBack(yaml),
        (Some(_), Some(answer)) => match reload_answer(answer) {
            Ok(_) => ReloadStepView::Settle(
                rolled_back(status, request, before, failure.message, now),
            ),
            Err(e) => ReloadStepView::Settle(
                stuck(status, request, before, reloaded, failure.message, e.message, now),
            ),
        },
    }
}

fn handle_failure(
    status: &GatewayInstanceStatus,
    request: &ReloadRequest,
    before: &ParsedGatewayConfig,
    reloaded: &ParsedGatewayConfig,
    failure: &CliError,
    rollback: Option<&GatewayAnswer>,
    now: &str,
) -> (r: ReloadStep)
    ensures
        r@ == after_failure(
            status@,
            request@,
            before@,
            reloaded@,
            failure@,
            match rollback {
                Some(a) => Some(a@),
                None => None,
            },
            now@,
        ),
{
    let yaml = match &before.content {
        Some(yaml) => yaml,
        None => {
            let missing = CliError::internal(
                "activation verification failed and no rollback target was available".to_string(),
            );
            return ReloadStep::Settle(
                give_up(status, request, before, reloaded, failure, &missing, now),
            );
        },
    };
    match rollback {
        None => ReloadStep::RollBack(yaml.clone()),
        Some(answer) => match read_reload_answer(answer) {
            Ok(_) => ReloadStep::Settle(roll_back(status, request, before, failure, now)),
            Err(e) => ReloadStep::Settle(
                give_up(status, request, before, reloaded, failure, &e, now),
            ),
        },
    }
}

pub open spec fn answer_at(answers: Seq<AnswerView>, i: int) -> Option<AnswerView> {
    if i < answers.len() {
        Some(answers[i])
    } else {
        None
    }
}

pub open spec fn reloaded_config(answer: AnswerView) -> Result<ConfigView, ErrorView> {
    match reload_answer(answer) {
        Ok(value) => reported_config(value),
        Err(e) => Err(e),
    }
}

/// The next step of a reload, from what the gateway answered so far: its
/// configuration before, the reload, its configuration after, its health, and the
/// rollback if one was needed. A reload that the gateway refused is not rolled
/// back, for nothing was activated.
pub open spec fn next_reload_step(
    status: StatusView,
    request: RequestView,
    answers: Seq<AnswerView>,
    now: Seq<char>,
) -> ReloadStepView {
    if answers.len() == 0 {
        ReloadStepView::FetchConfig
    } else {
        match config_answer(answers[0]) {
            Err(e) => ReloadStepView::Refuse(e),
            Ok(before) => if answers.len() == 1 {
                ReloadStepView::Apply(begun(status, request, before, now), request.config_yaml)
            } else {
                match reloaded_config(answers[1]) {
                    Err(e) => ReloadStepView::Refuse(e),
                    Ok(reloaded) => if answers.len() == 2 {
                        ReloadStepView::FetchConfig
                    } else {
                        match confirmed(
                            answers[2],
                            request.loaded.config_sha256,
                            request.loaded.config_version,
                        ) {
                            Err(e) => after_failure(
                                status,
                                request,
                                before,
                                reloaded,
                                e,
                                answer_at(answers, 3),
                                now,
                            ),
                            Ok(verified) => if answers.len() == 3 {
                                ReloadStepView::CheckHealth
                            } else {
                                match health_answer(answers[3]) {
                                    Err(e) => after_failure(
                                        status,
                                        request,
                                        before,
                                        reloaded,
                                        e,
                                        answer_at(answers, 4),
                                        now,
                                    ),
                                    Ok(_) => ReloadStepView::Settle(
                                        activated(
                                            status,
                                            request,
                                            before,
                                            reloaded,
                                            verified,
                                            now,
                                        ),
                                    ),
                                }
                            },
                        }
                    },
                }
            },
        }
    }
}

fn answer_in(answers: &Vec<GatewayAnswer>, i: usize) -> (r: Option<&GatewayAnswer>)
    ensures
        (match r {
            Some(a) => Some(a@),
            None => None,
        }) == answer_at(answers_of(answers@), i as int),
{
    if i < answers.len() {
        Some(&answers[i])
    } else {
        None
    }
}

/// The next step of a reload, from the answers that the gateway has given so far.
pub fn reload_step(
    status: &GatewayInstanceStatus,
    request: &ReloadRequest,
    answers: &Vec<GatewayAnswer>,
    now: &str,
) -> (r: ReloadStep)
    ensures
        r@ == next_reload_step(status@, request@, answers_of(answers@), now@),
{
    if answers.len() == 0 {
        return ReloadStep::FetchConfig;
    }
    let before = match read_config_answer(&answers[0]) {
        Ok(before) => before,
        Err(e) => return ReloadStep::Refuse(e),
    };
    if answers.len() == 1 {
        return ReloadStep::Apply(
            begin(status, request, &before, now),
            request.config_yaml.clone(),
        );
    }
    let value = match read_reload_answer(&answers[1]) {
        Ok(value) => value,
        Err(e) => return ReloadStep::Refuse(e),
    };
    let reloaded = match parse_reload_config(value) {
        Ok(reloaded) => reloaded,
        Err(e) => return ReloadStep::Refuse(e),
    };
    if answers.len() == 2 {
        return ReloadStep::FetchConfig;
    }
    let verified = match verify_gateway_config(
        &answers[2],
        request.loaded.config_sha256.as_str(),
        request.loaded.config_version.as_str(),
    ) {
        Ok(verified) => verified,
        Err(e) => return handle_failure(
            status,
            request,
            &before,
            &reloaded,
            &e,
            answer_in(answers, 3),
            now,
        ),
    };
    if answers.len() == 3 {
        return ReloadStep::CheckHealth;
    }
    match verify_gateway_health(&answers[3]) {
        Ok(_) => ReloadStep::Settle(
            activate(status, request, &before, &reloaded, &verified, now),
        ),
        Err(e) => handle_failure(
            status,
            request,
            &before,
            &reloaded,
            &e,
            answer_in(answers, 4),
            now,
        ),
    }
}

// ---------------------------------------------------------------------------
// Laws
// ---------------------------------------------------------------------------

/// A reload that reports success has the loaded configuration observed, desired
/// and last known good, and the gateway said that it is healthy.
pub proof fn successful_reload_activates_what_was_loaded(
    status: StatusView,
    request: RequestView,
    answers: Seq<AnswerView>,
    now: Seq<char>,
    outcome: OutcomeView,
)
    requires
        next_reload_step(status, request, answers, now) == ReloadStepView::Settle(outcome),
        outcome.report is Ok,
        request.loaded.config_version.len() > 0,
        request.loaded.config_sha256.len() > 0,
    ensures
        outcome.status.lifecycle == GatewayInstanceLifecycle::Running,
        outcome.status.verification_state == ConfigVerificationState::Verified,
        outcome.status.observed_config_version == Some(request.loaded.config_version),
        outcome.status.observed_config_sha256 == Some(request.loaded.config_sha256),
        outcome.status.desired_config_version == outcome.status.observed_config_version,
        outcome.status.desired_config_sha256 == outcome.status.observed_config_sha256,
        outcome.status.last_known_good_version == outcome.status.observed_config_version,
        outcome.status.last_known_good_sha256 == outcome.status.observed_config_sha256,
        outcome.entry.active_sha256 == Some(request.loaded.config_sha256),
        answers.len() > 3 && health_answer(answers[3]) is Ok,
{
}

/// A reload that fails after the gateway took the configuration never reports
/// success, always enters the history, and leaves the instance failed. If the
/// rollback was taken, the configuration from before is the active one.
pub proof fn failed_reload_is_never_hidden(
    status: StatusView,
    request: RequestView,
    answers: Seq<AnswerView>,
    now: Seq<char>,
    outcome: OutcomeView,
)
    requires
        next_reload_step(status, request, answers, now) == ReloadStepView::Settle(outcome),
        outcome.entry.outcome != OperationOutcome::Succeeded,
    ensures
        outcome.report is Err,
        outcome.status.lifecycle == GatewayInstanceLifecycle::Failed,
        outcome.status.last_observed_healthy == Some(false),
        outcome.status.last_error is Some,
        outcome.entry.reason is Some,
        outcome.entry.outcome == OperationOutcome::RolledBack ==> {
            &&& outcome.status.verification_state == ConfigVerificationState::RolledBack
            &&& outcome.status.observed_config_version == outcome.entry.previous_version
            &&& outcome.status.observed_config_sha256 == outcome.entry.previous_sha256
            &&& outcome.entry.active_version == outcome.entry.previous_version
            &&& outcome.entry.active_sha256 == outcome.entry.previous_sha256
        },
{
}

/// Every reload that is settled keeps the way back: what the gateway ran before
/// is the rollback target.
pub proof fn reload_keeps_the_rollback_target(
    status: StatusView,
    request: RequestView,
    answers: Seq<AnswerView>,
    now: Seq<char>,
    outcome: OutcomeView,
)
    requires
        next_reload_step(status, request, answers, now) == ReloadStepView::Settle(outcome),
    ensures
        config_answer(answers[0]) matches Ok(before) && {
            &&& outcome.status.rollback_target_version == before.version
            &&& outcome.status.rollback_target_sha256 == before.sha256
            &&& outcome.status.rollback_target_yaml == before.content
            &&& outcome.entry.previous_version == before.version
        },
{
}

/// A reload always comes to an end: after five answers no further one is wanted.
pub proof fn reload_ends(
    status: StatusView,
    request: RequestView,
    answers: Seq<AnswerView>,
    now: Seq<char>,
)
    requires
        answers.len() >= 5,
    ensures
        next_reload_step(status, request, answers, now) is Settle || next_reload_step(
            status,
            request,
            answers,
            now,
        ) is Refuse,
{
}

/// True of a successful answer in JSON with an object under `config`, whose version
/// and digest are these; one that the object does not hold counts as empty.
pub open spec fn serves(answer: AnswerView, version: Seq<char>, sha256: Seq<char>) -> bool {
    answer matches AnswerView::Reply(reply) && reply.success && (reply.json matches Ok(value)
        && (json::field(value, "config"@) matches Some(config) && config is Object
        && text::or_else(json::field_text(config, "config_version"@), Seq::empty()) == version
        && text::or_else(json::field_text(config, "config_sha256"@), Seq::empty()) == sha256))
}

/// True of a successful answer in JSON with an object under `config`.
pub open spec fn reports_a_config(answer: AnswerView) -> bool {
    answer matches AnswerView::Reply(reply) && reply.success && (reply.json matches Ok(value)
        && (json::field(value, "config"@) matches Some(config) && config is Object))
}

/// True of a successful answer in JSON whose `status` is `ok`.
pub open spec fn says_ok(answer: AnswerView) -> bool {
    answer matches AnswerView::Reply(reply) && reply.success && (reply.json matches Ok(value)
        && json::field_text(value, "status"@) == Some("ok"@))
}

/// A configuration is confirmed exactly where the gateway serves that digest and that
/// version, and what is read of it is what the answer holds.
pub proof fn confirmed_means_served(
    answer: AnswerView,
    expected_sha256: Seq<char>,
    expected_version: Seq<char>,
)
    ensures
        confirmed(answer, expected_sha256, expected_version) is Ok <==> serves(
            answer,
            expected_version,
            expected_sha256,
        ),
        config_answer(answer) is Ok <==> reports_a_config(answer),
        confirmed(answer, expected_sha256, expected_version) matches Ok(config) ==> config_answer(
            answer,
        ) == Ok::<ConfigView, ErrorView>(config),
        config_answer(answer) matches Ok(config) ==> (answer matches AnswerView::Reply(reply)
            && (reply.json matches Ok(value) && (json::field(value, "config"@) matches Some(held)
            && config.version == json::field_text(held, "config_version"@) && config.sha256
            == json::field_text(held, "config_sha256"@) && config.content == json::field_text(
            held,
            "config_content"@,
        )))),
{
}

/// A gateway is healthy exactly where it says `ok`.
pub proof fn healthy_means_ok(answer: AnswerView)
    ensures
        health_answer(answer) is Ok <==> says_ok(answer),
{
    reveal_strlit("ok");
}

/// A reload was taken exactly where the answer succeeded, is JSON and holds a
/// configuration.
pub proof fn reload_taken_means_reported(answer: AnswerView)
    ensures
        reloaded_config(answer) is Ok <==> reports_a_config(answer),
        reload_answer(answer) is Ok <==> (answer matches AnswerView::Reply(reply) && reply.success
            && reply.json is Ok),
{
}

/// The configuration that was asked for is what the gateway is sent, and the status
/// kept beforehand says what is desired and how to go back.
pub proof fn reload_sends_what_was_asked(
    status: StatusView,
    request: RequestView,
    answers: Seq<AnswerView>,
    now: Seq<char>,
)
    requires
        answers.len() == 1,
        reports_a_config(answers[0]),
    ensures
        next_reload_step(status, request, answers, now) matches ReloadStepView::Apply(kept, yaml)
            && yaml == request.config_yaml && kept.lifecycle == GatewayInstanceLifecycle::Starting
            && kept.desired_config_version == Some(request.loaded.config_version)
            && kept.desired_config_sha256 == Some(request.loaded.config_sha256)
            && kept.desired_config_source == Some(request.config_source)
            && kept.verification_state == ConfigVerificationState::Pending
            && kept.observed_config_version == status.observed_config_version
            && kept.observed_config_sha256 == status.observed_config_sha256
            && kept.last_known_good_version == status.last_known_good_version
            && kept.runtime_upgrade_plan == status.runtime_upgrade_plan
            && kept.runtime_upgrade_status == status.runtime_upgrade_status,
{
}

/// A reload succeeds exactly where the gateway told what it ran, took the new
/// configuration, serves the version and the digest that were loaded, and says that
/// it is healthy.
pub proof fn reload_succeeds_exactly_when_served(
    status: StatusView,
    request: RequestView,
    answers: Seq<AnswerView>,
    now: Seq<char>,
)
    ensures
        (next_reload_step(status, request, answers, now) matches ReloadStepView::Settle(outcome)
            && outcome.report is Ok) <==> {
            &&& answers.len() >= 4
            &&& reports_a_config(answers[0])
            &&& reports_a_config(answers[1])
            &&& serves(answers[2], request.loaded.config_version, request.loaded.config_sha256)
            &&& says_ok(answers[3])
        },
        next_reload_step(status, request, answers, now) matches ReloadStepView::Settle(outcome)
            ==> (outcome.report is Ok <==> outcome.status.lifecycle
            == GatewayInstanceLifecycle::Running) && (outcome.report is Ok
            <==> outcome.entry.outcome == OperationOutcome::Succeeded) && (outcome.report is Ok
            <==> outcome.status.verification_state == ConfigVerificationState::Verified),
{
    reveal_strlit("ok");
}

/// A configuration that is not served, or not healthy, is taken back: what the gateway
/// told of before is sent to it again. A rollback that it takes restores what is on
/// record; otherwise, or where there is nothing to send, the reload is marked failed.
pub proof fn unverified_reload_is_taken_back(
    status: StatusView,
    request: RequestView,
    answers: Seq<AnswerView>,
    now: Seq<char>,
)
    requires
        answers.len() >= 3,
        reports_a_config(answers[0]),
        reports_a_config(answers[1]),
        !serves(answers[2], request.loaded.config_version, request.loaded.config_sha256),
    ensures
        ({
            let before = config_answer(answers[0])->Ok_0;
            let step = next_reload_step(status, request, answers, now);
            match before.content {
                Some(yaml) => if answers.len() == 3 {
                    step == ReloadStepView::RollBack(yaml)
                } else {
                    step matches ReloadStepView::Settle(outcome) && if (answers[3] matches
                        AnswerView::Reply(reply) && reply.success && reply.json is Ok) {
                        &&& outcome.entry.outcome == OperationOutcome::RolledBack
                        &&& outcome.status.observed_config_version == before.version
                        &&& outcome.status.observed_config_sha256 == before.sha256
                        &&& outcome.status.last_known_good_version == before.version
                    } else {
                        &&& outcome.entry.outcome == OperationOutcome::Failed
                        &&& outcome.status.verification_state == ConfigVerificationState::Failed
                        &&& outcome.status.observed_config_version
                            == status.observed_config_version
                        &&& outcome.status.last_known_good_version
                            == status.last_known_good_version
                    }
                },
                None => step matches ReloadStepView::Settle(outcome) && outcome.entry.outcome
                    == OperationOutcome::Failed,
            }
        }),
{
}

/// A healthy answer is needed as much as a served configuration: without it the reload
/// is taken back as well.
pub proof fn unhealthy_reload_is_taken_back(
    status: StatusView,
    request: RequestView,
    answers: Seq<AnswerView>,
    now: Seq<char>,
)
    requires
        answers.len() >= 4,
        reports_a_config(answers[0]),
        reports_a_config(answers[1]),
        serves(answers[2], request.loaded.config_version, request.loaded.config_sha256),
        !says_ok(answers[3]),
    ensures
        ({
            let before = config_answer(answers[0])->Ok_0;
            let step = next_reload_step(status, request, answers, now);
            match before.content {
                Some(yaml) => if answers.len() == 4 {
                    step == ReloadStepView::RollBack(yaml)
                } else {
                    step matches ReloadStepView::Settle(outcome) && outcome.report is Err
                        && outcome.entry.outcome == (if (answers[4] matches AnswerView::Reply(reply)
                        && reply.success && reply.json is Ok) {
                        OperationOutcome::RolledBack
                    } else {
                        OperationOutcome::Failed
                    })
                },
                None => step matches ReloadStepView::Settle(outcome) && outcome.entry.outcome
                    == OperationOutcome::Failed,
            }
        }),
{
    reveal_strlit("ok");
}

/// A reload touches the record of the configuration alone: the runtime upgrade and the
/// record of reconciliations stay.
pub proof fn reload_leaves_the_rest(
    status: StatusView,
    request: RequestView,
    answers: Seq<AnswerView>,
    now: Seq<char>,
    outcome: OutcomeView,
)
    requires
        next_reload_step(status, request, answers, now) == ReloadStepView::Settle(outcome),
    ensures
        outcome.status.runtime_upgrade_plan == status.runtime_upgrade_plan,
        outcome.status.runtime_upgrade_status == status.runtime_upgrade_status,
        outcome.status.last_reconciled_at == status.last_reconciled_at,
        outcome.status.last_reconciliation_outcome == status.last_reconciliation_outcome,
        outcome.status.last_reconciliation_error == status.last_reconciliation_error,
        outcome.status.desired_config_version == Some(request.loaded.config_version),
        outcome.status.desired_config_sha256 == Some(request.loaded.config_sha256),
        outcome.status.desired_config_source == Some(request.config_source),
        outcome.entry.action == OperationAction::Reload,
        outcome.entry.target_version == Some(request.loaded.config_version),
        outcome.entry.target_sha256 == Some(request.loaded.config_sha256),
        outcome.entry.recorded_at == now,
        outcome.status.updated_at == now,
{
}

/// The first token that is given counts, and a blank one counts as none.
pub proof fn token_given_first_counts(
    explicit_token: Option<Seq<char>>,
    stored_token: Option<Seq<char>>,
    env_token: Option<Seq<char>>,
)
    ensures
        ({
            let token = api_token_of(explicit_token, stored_token, env_token);
            &&& token matches Some(t) ==> !text::is_blank(t)
            &&& explicit_token matches Some(t) ==> token == (if text::is_blank(t) {
                None
            } else {
                Some(t)
            })
            &&& explicit_token is None ==> (stored_token matches Some(t) ==> token
                == (if text::is_blank(t) {
                None
            } else {
                Some(t)
            }))
            &&& explicit_token is None && stored_token is None ==> (env_token matches Some(t)
                ==> token == (if text::is_blank(t) {
                None
            } else {
                Some(t)
            }))
            &&& explicit_token is None && stored_token is None && env_token is None ==> token is None
        }),
{
}

/// A path that is given is the only one; otherwise the stored ones are, of which there
/// must be one.
pub proof fn given_config_path_is_the_only_one(
    config_path: Option<Seq<char>>,
    stored: Seq<Seq<char>>,
)
    ensures
        config_path matches Some(path) ==> config_paths_of(config_path, stored) == Ok::<
            Seq<Seq<char>>,
            ErrorView,
        >(seq![path]),
        config_path is None && stored.len() > 0 ==> config_paths_of(config_path, stored) == Ok::<
            Seq<Seq<char>>,
            ErrorView,
        >(stored),
        config_path is None && stored.len() == 0 ==> config_paths_of(config_path, stored) is Err,
{
}

/// What went wrong is told: in the status, in the history and in the report.
pub proof fn failed_reload_tells_why(
    status: StatusView,
    request: RequestView,
    answers: Seq<AnswerView>,
    now: Seq<char>,
    outcome: OutcomeView,
    e: ErrorView,
)
    requires
        next_reload_step(status, request, answers, now) == ReloadStepView::Settle(outcome),
        answers.len() >= 3,
        confirmed(answers[2], request.loaded.config_sha256, request.loaded.config_version) == Err::<
            ConfigView,
            ErrorView,
        >(e),
    ensures
        outcome.report matches Err(told) && text::contains(told.message, e.message) && told.kind
            == error::ErrorKind::Network,
        outcome.entry.reason matches Some(reason) && text::contains(reason, e.message),
        outcome.status.last_error matches Some(error) && text::contains(error, e.message),
{
    let told = outcome.report->Err_0.message;
    let reason = outcome.entry.reason->0;
    let error = outcome.status.last_error->0;
    let m = e.message;
    if outcome.entry.outcome == OperationOutcome::RolledBack {
        at_the_end("proxy activation failed verification and rollback was applied: "@, m, Seq::empty());
        at_the_end(Seq::empty(), m, Seq::empty());
        at_the_end("activation failed and rollback was applied: "@, m, Seq::empty());
        assert("proxy activation failed verification and rollback was applied: "@ + m + Seq::<
            char,
        >::empty() =~= told);
        assert(Seq::<char>::empty() + m + Seq::<char>::empty() =~= reason);
        assert("activation failed and rollback was applied: "@ + m + Seq::<char>::empty() =~= error);
    } else {
        let rest = told.skip(
            "proxy activation failed verification and rollback failed: "@.len() as int + m.len(),
        );
        at_the_end("proxy activation failed verification and rollback failed: "@, m, rest);
        assert("proxy activation failed verification and rollback failed: "@ + m + rest =~= told);
        let more = reason.skip("activation verification failed: "@.len() as int + m.len());
        at_the_end("activation verification failed: "@, m, more);
        assert("activation verification failed: "@ + m + more =~= reason);
        let last = error.skip("activation verification failed: "@.len() as int + m.len());
        at_the_end("activation verification failed: "@, m, last);
        assert("activation verification failed: "@ + m + last =~= error);
    }
}

proof fn at_the_end(before: Seq<char>, part: Seq<char>, after: Seq<char>)
    ensures
        text::contains(before + part + after, part),
{
    let whole = before + part + after;
    let at = before.len() as int;
    assert(whole.subrange(at, at + part.len()) =~= part);
    assert(text::occurs_at(whole, part, at));
}

} // verus!
