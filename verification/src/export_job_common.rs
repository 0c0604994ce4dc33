//! Export jobs as the API answers them.
use vstd::prelude::*;

use crate::error::{self, CliError, ErrorView};
use crate::json::{self, Json, JsonView};
use crate::text;

verus! {

/// Where jobs are created and listed.
pub const JOBS_PATH: &'static str = "/v1/exports/jobs";

/// A borrowed value, or the error, by their views.
pub open spec fn json_outcome(r: Result<&Json, CliError>) -> Result<JsonView, ErrorView> {
    match r {
        Ok(j) => Ok(j@),
        Err(e) => Err(e@),
    }
}

/// A borrowed text, or the error, by their views.
pub open spec fn text_outcome(r: Result<&str, CliError>) -> Result<Seq<char>, ErrorView> {
    match r {
        Ok(s) => Ok(s@),
        Err(e) => Err(e@),
    }
}

/// The value, or an internal error where there is none.
pub open spec fn or_internal<T>(v: Option<T>, message: Seq<char>) -> Result<T, ErrorView> {
    match v {
        Some(x) => Ok(x),
        None => Err(error::internal_error(message)),
    }
}

pub open spec fn created_job_of(response: JsonView) -> Result<JsonView, ErrorView> {
    match json::field(response, "job"@) {
        Some(job) => if job is Object {
            Ok(job)
        } else {
            Err(error::internal_error("api response missing export job"@))
        },
        None => Err(error::internal_error("api response missing export job"@)),
    }
}

pub fn created_job(response: &Json) -> (r: Result<&Json, CliError>)
    ensures
        json_outcome(r) == created_job_of(response@),
{
    if let Some(job) = response.get("job") {
        if job.is_object() {
            return Ok(job);
        }
    }
    Err(CliError::internal("api response missing export job".to_string()))
}

pub open spec fn jobs_of(response: JsonView) -> Result<Seq<JsonView>, ErrorView> {
    or_internal(json::field_items(response, "jobs"@), "api response missing export jobs"@)
}

pub fn jobs(response: &Json) -> (r: Result<&Vec<Json>, CliError>)
    ensures
        match r {
            Ok(v) => jobs_of(response@) == Ok::<Seq<JsonView>, ErrorView>(json::values(v@)),
            Err(e) => jobs_of(response@) == Err::<Seq<JsonView>, ErrorView>(e@),
        },
{
    match response.get_array("jobs") {
        Some(v) => Ok(v),
        None => Err(CliError::internal("api response missing export jobs".to_string())),
    }
}

/// The first job with that identifier.
pub open spec fn first_job(jobs: Seq<JsonView>, id: Seq<char>) -> Option<JsonView>
    decreases jobs.len(),
{
    if jobs.len() == 0 {
        None
    } else if json::field_text(jobs[0], "job_id"@) == Some(id) {
        Some(jobs[0])
    } else {
        first_job(jobs.drop_first(), id)
    }
}

pub open spec fn find_job_of(response: JsonView, id: Seq<char>) -> Result<
    Option<JsonView>,
    ErrorView,
> {
    match jobs_of(response) {
        Ok(list) => Ok(first_job(list, id)),
        Err(e) => Err(e),
    }
}

pub fn find_job<'a>(response: &'a Json, expected_job_id: &str) -> (r: Result<
    Option<&'a Json>,
    CliError,
>)
    ensures
        match r {
            Ok(job) => find_job_of(response@, expected_job_id@) == Ok::<
                Option<JsonView>,
                ErrorView,
            >(json::opt_json(job)),
            Err(e) => find_job_of(response@, expected_job_id@) == Err::<
                Option<JsonView>,
                ErrorView,
            >(e@),
        },
{
    let list = jobs(response)?;
    let ghost all = json::values(list@);
    let mut i: usize = 0;
    assert(all.skip(0) =~= all);
    while i < list.len()
        invariant
            i <= list.len(),
            all == json::values(list@),
            jobs_of(response@) == Ok::<Seq<JsonView>, ErrorView>(all),
            first_job(all, expected_job_id@) == first_job(all.skip(i as int), expected_job_id@),
        decreases list.len() - i,
    {
        assert(all.skip(i as int)[0] == list@[i as int]@);
        assert(all.skip(i as int).drop_first() =~= all.skip(i as int + 1));
        if let Some(id) = job_id(&list[i]) {
            if text::same(id, expected_job_id) {
                return Ok(Some(&list[i]));
            }
        }
        i = i + 1;
    }
    Ok(None)
}

/// A job that is found carries the identifier that was asked for.
pub proof fn found_job_has_the_id(jobs: Seq<JsonView>, id: Seq<char>)
    ensures
        first_job(jobs, id) is Some ==> json::field_text(first_job(jobs, id)->0, "job_id"@) == Some(
            id,
        ) && jobs.contains(first_job(jobs, id)->0),
        first_job(jobs, id) is None ==> forall|i: int|
            0 <= i < jobs.len() ==> json::field_text(#[trigger] jobs[i], "job_id"@) != Some(id),
    decreases jobs.len(),
{
    if jobs.len() > 0 {
        if json::field_text(jobs[0], "job_id"@) == Some(id) {
            assert(jobs.contains(jobs[0]));
        } else {
            let rest = jobs.drop_first();
            found_job_has_the_id(rest, id);
            if first_job(jobs, id) is Some {
                let i = choose|i: int| 0 <= i < rest.len() && rest[i] == first_job(rest, id)->0;
                assert(jobs[i + 1] == first_job(jobs, id)->0);
            } else {
                assert forall|i: int| 0 <= i < jobs.len() implies json::field_text(
                    #[trigger] jobs[i],
                    "job_id"@,
                ) != Some(id) by {
                    if i > 0 {
                        assert(rest[i - 1] == jobs[i]);
                    }
                }
            }
        }
    }
}

pub fn job_id(job: &Json) -> (r: Option<&str>)
    ensures
        text::opt_ref(r) == json::field_text(job@, "job_id"@),
{
    job.get_str("job_id")
}

pub fn job_status(job: &Json) -> (r: Option<&str>)
    ensures
        text::opt_ref(r) == json::field_text(job@, "status"@),
{
    job.get_str("status")
}

/// The trimmed failure message of a job, where there is one.
pub open spec fn failure_of(job: JsonView) -> Option<Seq<char>> {
    match json::field_text(job, "failure_message"@) {
        Some(s) => text::non_blank(s),
        None => None,
    }
}

pub fn job_failure_message(job: &Json) -> (r: Option<String>)
    ensures
        text::opt(r) == failure_of(job@),
{
    match job.get_str("failure_message") {
        Some(s) => text::non_blank_text(s),
        None => None,
    }
}

pub fn required_job_id(job: &Json) -> (r: Result<&str, CliError>)
    ensures
        text_outcome(r) == or_internal(
            json::field_text(job@, "job_id"@),
            "api response missing export job id"@,
        ),
{
    match job_id(job) {
        Some(id) => Ok(id),
        None => Err(CliError::internal("api response missing export job id".to_string())),
    }
}

pub fn required_job_status(job: &Json) -> (r: Result<&str, CliError>)
    ensures
        text_outcome(r) == or_internal(
            json::field_text(job@, "status"@),
            "api response missing export job status"@,
        ),
{
    match job_status(job) {
        Some(status) => Ok(status),
        None => Err(CliError::internal("api response missing export job status".to_string())),
    }
}

} // verus!
