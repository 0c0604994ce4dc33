//! Looking at the configuration of a running gateway.
use vstd::prelude::*;

use crate::error::{self, CliError, ErrorView};
use crate::gateway_reload::{self, accept, AnswerView, GatewayAnswer};
use crate::json::{self, Json, JsonView};
use crate::text;

verus! {

#[derive(Debug)]
pub struct GatewayConfigArgs {
    pub gateway_url: String,
    pub expect_version: Option<String>,
    pub expect_sha256: Option<String>,
}

/// The error for a value that is not the expected one.
pub open spec fn mismatch(
    what: Seq<char>,
    actual: Option<Seq<char>>,
    expected: Option<Seq<char>>,
) -> Option<ErrorView> {
    let actual = text::or_else(actual, Seq::empty());
    match expected {
        Some(e) => if actual == e {
            None
        } else {
            Some(
                error::user_error(
                    "proxy is running config "@ + what + " "@ + actual + " instead of "@ + e,
                ),
            )
        },
        None => None,
    }
}

fn expect(what: &str, actual: Option<&str>, expected: Option<&str>) -> (r: Result<(), CliError>)
    ensures
        error::done(r) == (match mismatch(
            what@,
            text::opt_ref(actual),
            text::opt_ref(expected),
        ) {
            Some(e) => Err(e),
            None => Ok(()),
        }),
{
    proof {
        reveal_strlit("");
        assert(""@ =~= Seq::<char>::empty());
    }
    let actual = match actual {
        Some(actual) => actual,
        None => "",
    };
    match expected {
        Some(expected) => if text::same(actual, expected) {
            Ok(())
        } else {
            let mut message = "proxy is running config ".to_string();
            message.append(what);
            message.append(" ");
            message.append(actual);
            message.append(" instead of ");
            message.append(expected);
            Err(CliError::user(message))
        },
        None => Ok(()),
    }
}

/// Whether a response holds the expected configuration.
pub open spec fn expected_response(
    value: JsonView,
    expect_version: Option<Seq<char>>,
    expect_sha256: Option<Seq<char>>,
) -> Result<(), ErrorView> {
    match json::field(value, "config"@) {
        Some(config) if config is Object => match (
            mismatch("version"@, json::field_text(config, "config_version"@), expect_version),
            mismatch("digest"@, json::field_text(config, "config_sha256"@), expect_sha256),
        ) {
            (Some(e), _) => Err(e),
            (None, Some(e)) => Err(e),
            (None, None) => Ok(()),
        },
        _ => Err(error::internal_error("proxy config response is missing config object"@)),
    }
}

pub fn check_expected(
    value: &Json,
    expect_version: Option<&str>,
    expect_sha256: Option<&str>,
) -> (r: Result<(), CliError>)
    ensures
        error::done(r) == expected_response(
            json::json_view(*value),
            text::opt_ref(expect_version),
            text::opt_ref(expect_sha256),
        ),
{
    match value.get("config") {
        Some(config) => if config.is_object() {
            expect("version", config.get_str("config_version"), expect_version)?;
            return expect("digest", config.get_str("config_sha256"), expect_sha256);
        },
        None => {},
    }
    Err(CliError::internal("proxy config response is missing config object".to_string()))
}

/// The indented form of a body.
pub open spec fn rendered_of(body: Seq<char>) -> Result<Seq<char>, ErrorView> {
    let indented = match json::read_text(body) {
        Ok(text) => json::indented_json(text),
        Err(e) => Err(e),
    };
    match indented {
        Ok(rendered) => Ok(rendered),
        Err(e) => Err(error::internal_error("failed to render proxy config JSON: "@ + e)),
    }
}

/// What the operator reads of an answer: its body in an indented form, if it holds
/// the expected configuration.
pub open spec fn config_report_of(
    answer: AnswerView,
    expect_version: Option<Seq<char>>,
    expect_sha256: Option<Seq<char>>,
) -> Result<Seq<char>, ErrorView> {
    match gateway_reload::refused(
        answer,
        "failed to query proxy config: "@,
        "failed to read proxy response: "@,
        "proxy config endpoint"@,
    ) {
        Some(e) => Err(e),
        None => match answer->Reply_0.json {
            Err(e) => Err(
                error::internal_error("proxy config response is not valid JSON: "@ + e),
            ),
            Ok(value) => match expected_response(value, expect_version, expect_sha256) {
                Err(e) => Err(e),
                Ok(_) => rendered_of(answer->Reply_0.body),
            },
        },
    }
}

pub fn config_report(
    answer: &GatewayAnswer,
    expect_version: Option<&str>,
    expect_sha256: Option<&str>,
) -> (r: Result<String, CliError>)
    ensures
        error::viewed(r) == config_report_of(
            answer@,
            text::opt_ref(expect_version),
            text::opt_ref(expect_sha256),
        ),
{
    let reply = accept(
        answer,
        "failed to query proxy config: ",
        "failed to read proxy response: ",
        "proxy config endpoint",
    )?;
    let value = match &reply.json {
        Ok(value) => value,
        Err(e) => return Err(
            CliError::internal(
                text::concat("proxy config response is not valid JSON: ", e.as_str()),
            ),
        ),
    };
    check_expected(value, expect_version, expect_sha256)?;
    let indented = match json::read_value(reply.body.as_str()) {
        Ok(value) => json::indent_json(&value),
        Err(e) => Err(e),
    };
    match indented {
        Ok(rendered) => Ok(rendered),
        Err(e) => Err(
            CliError::internal(text::concat("failed to render proxy config JSON: ", e.as_str())),
        ),
    }
}

} // verus!
