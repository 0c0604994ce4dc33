//! `verdictan export-jobs list`: one line for each job.
use vstd::prelude::*;

use crate::error::{CliError, ErrorView};
use crate::events_tail::{self, text_member_or};
use crate::export_job_common::{self, jobs};
use crate::json::{self, Json, JsonView};
use crate::text;

verus! {

pub open spec fn job_line_of(job: JsonView) -> Seq<char> {
    events_tail::member_or(job, "job_id"@, "-"@) + "  "@ + events_tail::member_or(
        job,
        "status"@,
        "-"@,
    ) + "  "@ + events_tail::member_or(job, "format"@, "-"@) + "  "@ + events_tail::member_or(
        job,
        "requested_at"@,
        "-"@,
    )
}

pub fn job_line(job: &Json) -> (r: String)
    ensures
        r@ == job_line_of(job@),
{
    let mut out = text_member_or(job, "job_id", "-").to_string();
    out.append("  ");
    out.append(text_member_or(job, "status", "-"));
    out.append("  ");
    out.append(text_member_or(job, "format", "-"));
    out.append("  ");
    out.append(text_member_or(job, "requested_at", "-"));
    out
}

/// The lines of the list; one that says so where there are no jobs.
pub open spec fn list_lines_of(response: JsonView) -> Result<Seq<Seq<char>>, ErrorView> {
    match export_job_common::jobs_of(response) {
        Err(e) => Err(e),
        Ok(jobs) => Ok(
            if jobs.len() == 0 {
                seq!["no export jobs"@]
            } else {
                Seq::new(jobs.len(), |i: int| job_line_of(jobs[i]))
            },
        ),
    }
}

pub fn list_lines(response: &Json) -> (r: Result<Vec<String>, CliError>)
    ensures
        match r {
            Ok(lines) => list_lines_of(response@) == Ok::<Seq<Seq<char>>, ErrorView>(
                text::texts(lines@),
            ),
            Err(e) => list_lines_of(response@) == Err::<Seq<Seq<char>>, ErrorView>(e@),
        },
{
    let items = jobs(response)?;
    let ghost all = json::values(items@);
    if items.len() == 0 {
        let lines = vec!["no export jobs".to_string()];
        assert(text::texts(lines@) =~= seq!["no export jobs"@]);
        return Ok(lines);
    }
    let mut lines: Vec<String> = Vec::new();
    let mut i: usize = 0;
    while i < items.len()
        invariant
            i <= items.len(),
            lines.len() == i,
            forall|k: int| 0 <= k < i ==> (#[trigger] lines@[k])@ == job_line_of(items@[k]@),
        decreases items.len() - i,
    {
        lines.push(job_line(&items[i]));
        i = i + 1;
    }
    assert(text::texts(lines@) =~= Seq::new(all.len(), |k: int| job_line_of(all[k])));
    Ok(lines)
}

} // verus!
