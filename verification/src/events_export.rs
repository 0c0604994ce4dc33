//! `verdictan events export`: the request and the errors of the answer.
use vstd::prelude::*;

use crate::error::{self, CliError, ErrorKind, ErrorView};
use crate::percent;
use crate::text;

verus! {

#[derive(Debug)]
pub struct EventsExportArgs {
    pub since: String,
    pub format: String,
    pub config: Option<String>,
    pub api_url: Option<String>,
    pub profile: String,
    pub region: Option<String>,
}

/// The error for an answer that is no success.
pub open spec fn export_error_of(code: u16) -> ErrorView {
    let number = text::decimal(code as nat);
    if code == 401 || code == 403 {
        ErrorView {
            kind: ErrorKind::Auth,
            message: "authorization failed for events export (HTTP "@ + number + ")"@,
            http_status: Some(code),
        }
    } else if code == 400 || code == 409 || code == 422 {
        ErrorView {
            kind: ErrorKind::User,
            message: "validation error for events export (HTTP "@ + number + ")"@,
            http_status: Some(code),
        }
    } else if 500 <= code <= 599 {
        ErrorView {
            kind: ErrorKind::Network,
            message: "remote service error for events export (HTTP "@ + number + ")"@,
            http_status: Some(code),
        }
    } else {
        ErrorView {
            kind: ErrorKind::Network,
            message: "api request failed with status "@ + number,
            http_status: Some(code),
        }
    }
}

fn worded(before: &str, code: u16, after: &str) -> (r: String)
    ensures
        r@ == before@ + text::decimal(code as nat) + after@,
{
    let mut message = before.to_string();
    let number = text::number_text(code as u64);
    message.append(number.as_str());
    message.append(after);
    message
}

pub fn classify_export_error(code: u16) -> (r: CliError)
    ensures
        r@ == export_error_of(code),
{
    if code == 401 || code == 403 {
        CliError::auth(
            worded("authorization failed for events export (HTTP ", code, ")"),
        ).with_http_status(code)
    } else if code == 400 || code == 409 || code == 422 {
        CliError::user(
            worded("validation error for events export (HTTP ", code, ")"),
        ).with_http_status(code)
    } else if 500 <= code && code <= 599 {
        CliError::network(
            worded("remote service error for events export (HTTP ", code, ")"),
        ).with_http_status(code)
    } else {
        let mut message = "api request failed with status ".to_string();
        let number = text::number_text(code as u64);
        message.append(number.as_str());
        CliError::network(message).with_http_status(code)
    }
}

/// Whether an answer with that status holds the export; the error where it does not.
pub fn check_export_status(code: u16) -> (r: Result<(), CliError>)
    ensures
        error::done(r) == (if error::success_status(code) {
            Ok(())
        } else {
            Err(export_error_of(code))
        }),
{
    if 200 <= code && code < 300 {
        Ok(())
    } else {
        Err(classify_export_error(code))
    }
}

pub open spec fn export_path_of(since: Seq<char>, format: Seq<char>) -> Seq<char> {
    "/v1/events/export?since="@ + percent::percent_encoded(since) + "&format="@
        + percent::percent_encoded(format)
}

pub fn build_export_path(since: &str, format: &str) -> (r: String)
    ensures
        r@ == export_path_of(since@, format@),
{
    let since = percent::encode(since);
    let format = percent::encode(format);
    let mut path = "/v1/events/export?since=".to_string();
    path.append(since.as_str());
    path.append("&format=");
    path.append(format.as_str());
    path
}

} // verus!
