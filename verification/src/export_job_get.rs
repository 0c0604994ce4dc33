//! `verdictan export-jobs get`: one job in words.
use vstd::prelude::*;

use crate::error::{self, CliError, ErrorView};
use crate::events_tail::{self, text_member_or};
use crate::export_job_common::{self, find_job, job_failure_message};
use crate::json::{self, Json, JsonView};
use crate::text;

verus! {

pub open spec fn selected_job_of(response: JsonView, job_id: Seq<char>) -> Result<
    JsonView,
    ErrorView,
> {
    match export_job_common::find_job_of(response, job_id) {
        Err(e) => Err(e),
        Ok(Some(job)) => Ok(job),
        Ok(None) => Err(error::user_error("export job "@ + job_id + " not found"@)),
    }
}

/// The job that was asked for.
pub fn select_job<'a>(response: &'a Json, job_id: &str) -> (r: Result<&'a Json, CliError>)
    ensures
        export_job_common::json_outcome(r) == selected_job_of(response@, job_id@),
{
    match find_job(response, job_id)? {
        Some(job) => Ok(job),
        None => {
            let mut message = "export job ".to_string();
            message.append(job_id);
            message.append(" not found");
            Err(CliError::user(message))
        },
    }
}

/// The number of rows of a job, or a dash.
pub open spec fn rows_of(job: JsonView) -> Seq<char> {
    match json::field_integer(job, "event_count"@) {
        Some(n) => text::decimal_int(n),
        None => "-"@,
    }
}

/// The lines about a job.
pub open spec fn job_lines_of(job: JsonView) -> Seq<Seq<char>> {
    let base = seq![
        "id:      "@ + events_tail::member_or(job, "job_id"@, "-"@),
        "status:  "@ + events_tail::member_or(job, "status"@, "-"@),
        "format:  "@ + events_tail::member_or(job, "format"@, "-"@),
        "requested: "@ + events_tail::member_or(job, "requested_at"@, "-"@),
        "window:  "@ + events_tail::member_or(job, "start_date"@, "-"@) + " to "@
            + events_tail::member_or(job, "end_date"@, "-"@),
        "rows:    "@ + rows_of(job),
    ];
    match export_job_common::failure_of(job) {
        Some(message) => base.push("failure: "@ + message),
        None => base,
    }
}

fn line(label: &str, value: &str) -> (r: String)
    ensures
        r@ == label@ + value@,
{
    let mut out = label.to_string();
    out.append(value);
    out
}

pub fn job_lines(job: &Json) -> (r: Vec<String>)
    ensures
        text::texts(r@) == job_lines_of(job@),
{
    let mut window = line("window:  ", text_member_or(job, "start_date", "-"));
    window.append(" to ");
    window.append(text_member_or(job, "end_date", "-"));
    let rows = match job.get_i64("event_count") {
        Some(n) => text::integer_text(n),
        None => "-".to_string(),
    };
    let mut out = vec![
        line("id:      ", text_member_or(job, "job_id", "-")),
        line("status:  ", text_member_or(job, "status", "-")),
        line("format:  ", text_member_or(job, "format", "-")),
        line("requested: ", text_member_or(job, "requested_at", "-")),
        window,
        line("rows:    ", rows.as_str()),
    ];
    if let Some(message) = job_failure_message(job) {
        out.push(line("failure: ", message.as_str()));
    }
    assert(text::texts(out@) =~= job_lines_of(job@));
    out
}

} // verus!
