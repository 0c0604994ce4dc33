//! `verdictan export-jobs create`: the window of the export, the request and the
//! wait for the job.
use vstd::prelude::*;

use crate::clock;
use crate::error::{self, CliError, ErrorView};
use crate::export_job_common::{self, find_job, job_failure_message, required_job_status};
use crate::json::{self, Json, JsonView};
use crate::text;

verus! {

/// Longest pause between two looks at a job, in nanoseconds.
pub const POLL_INTERVAL: u128 = 2_000_000_000;

/// What follows the number in a duration, as seconds.
pub open spec fn duration_of(s: Seq<char>) -> Result<int, ErrorView> {
    let invalid = error::user_error("invalid duration: "@ + s);
    let seconds = match text::before_last(s, 'h') {
        Some(number) => Some((number, 3600int)),
        None => match text::before_last(s, 'd') {
            Some(number) => Some((number, 86400int)),
            None => None,
        },
    };
    match seconds {
        None => Err(
            error::user_error(
                "invalid duration '"@ + s + "': use a suffix like '7d' or '24h'"@,
            ),
        ),
        Some((number, unit)) => match text::parse_integer(number) {
            None => Err(invalid),
            Some(n) => if n < i64::MIN || i64::MAX < n || clock::bounded_duration(n * unit) is None {
                Err(invalid)
            } else if n <= 0 {
                Err(error::user_error("--since duration must be greater than zero"@))
            } else {
                Ok(n * unit)
            },
        },
    }
}

/// A number of seconds, or the error, by their views.
pub open spec fn seconds_outcome(r: Result<i64, CliError>) -> Result<int, ErrorView> {
    match r {
        Ok(n) => Ok(n as int),
        Err(e) => Err(e@),
    }
}

fn invalid_duration(s: &str) -> (r: CliError)
    ensures
        r@ == error::user_error("invalid duration: "@ + s@),
{
    let mut message = "invalid duration: ".to_string();
    message.append(s);
    CliError::user(message)
}

/// Reads a relative duration, such as `7d` or `24h`, in seconds. Supports `h`
/// (hours) and `d` (days) suffixes.
pub fn parse_relative_duration(s: &str) -> (r: Result<i64, CliError>)
    ensures
        seconds_outcome(r) == duration_of(text::trim(s@)),
{
    let trimmed = text::trim_text(s);
    let s = trimmed.as_str();
    let duration = if let Some(number) = text::before_last_text(s, 'h') {
        match text::parse_integer_text(number.as_str()) {
            Some(n) => clock::hours(n),
            None => None,
        }
    } else if let Some(number) = text::before_last_text(s, 'd') {
        match text::parse_integer_text(number.as_str()) {
            Some(n) => clock::days(n),
            None => None,
        }
    } else {
        let mut message = "invalid duration '".to_string();
        message.append(s);
        message.append("': use a suffix like '7d' or '24h'");
        return Err(CliError::user(message));
    };
    match duration {
        None => Err(invalid_duration(s)),
        Some(seconds) => {
            if seconds <= 0 {
                Err(CliError::user("--since duration must be greater than zero".to_string()))
            } else {
                Ok(seconds)
            }
        },
    }
}

/// An explicit window, from its days as they were read.
pub open spec fn explicit_window(
    start: Seq<char>,
    end: Seq<char>,
    start_day: Option<i32>,
    end_day: Option<i32>,
) -> Result<(Seq<char>, Seq<char>), ErrorView> {
    match start_day {
        None => Err(error::user_error("invalid --start-date: expected YYYY-MM-DD"@)),
        Some(first) => match end_day {
            None => Err(error::user_error("invalid --end-date: expected YYYY-MM-DD"@)),
            Some(last) => if first > last {
                Err(error::user_error("--start-date must be on or before --end-date"@))
            } else {
                Ok((start, end))
            },
        },
    }
}

/// Two texts, or the error, by their views.
pub open spec fn window_outcome(r: Result<(String, String), CliError>) -> Result<
    (Seq<char>, Seq<char>),
    ErrorView,
> {
    match r {
        Ok((a, b)) => Ok((a@, b@)),
        Err(e) => Err(e@),
    }
}

/// Checks an explicit window, given the days that its texts name.
pub fn check_explicit_window(
    start: &str,
    end: &str,
    start_day: Option<i32>,
    end_day: Option<i32>,
) -> (r: Result<(String, String), CliError>)
    ensures
        window_outcome(r) == explicit_window(start@, end@, start_day, end_day),
{
    match start_day {
        None => Err(CliError::user("invalid --start-date: expected YYYY-MM-DD".to_string())),
        Some(first) => match end_day {
            None => Err(CliError::user("invalid --end-date: expected YYYY-MM-DD".to_string())),
            Some(last) => {
                if first > last {
                    Err(
                        CliError::user("--start-date must be on or before --end-date".to_string()),
                    )
                } else {
                    Ok((start.to_string(), end.to_string()))
                }
            },
        },
    }
}

/// The second at which a window of that length starts.
pub open spec fn window_start(now: int, duration: int) -> Result<int, ErrorView> {
    if clock::datable(now) && clock::datable(now - duration) {
        Ok(now - duration)
    } else {
        Err(error::user_error("--since duration is outside the supported date range"@))
    }
}

/// The window of an export: both days as given, or the days of the call time less
/// the duration and of the call time.
pub open spec fn export_dates(
    start_date: Option<Seq<char>>,
    end_date: Option<Seq<char>>,
    since: Option<Seq<char>>,
    now: i64,
) -> Result<(Seq<char>, Seq<char>), ErrorView> {
    match (start_date, end_date) {
        (Some(start), Some(end)) => explicit_window(
            start,
            end,
            clock::day_number(start, clock::DAY_FORMAT@),
            clock::day_number(end, clock::DAY_FORMAT@),
        ),
        (None, None) => match since {
            None => Err(
                error::user_error(
                    "provide --since (e.g. '7d') or both --start-date and --end-date"@,
                ),
            ),
            Some(since) => match duration_of(text::trim(since)) {
                Err(e) => Err(e),
                Ok(duration) => match window_start(now as int, duration) {
                    Err(e) => Err(e),
                    Ok(start) => Ok(
                        (
                            clock::day_text(start as i64, clock::DAY_FORMAT@),
                            clock::day_text(now, clock::DAY_FORMAT@),
                        ),
                    ),
                },
            },
        },
        _ => Err(error::user_error("--start-date and --end-date must be provided together"@)),
    }
}

/// Resolves the window of an export. `now` is the call time in seconds since 1970.
pub fn resolve_export_dates(
    start_date: Option<&str>,
    end_date: Option<&str>,
    since: Option<&str>,
    now: i64,
) -> (r: Result<(String, String), CliError>)
    ensures
        window_outcome(r) == export_dates(
            text::opt_ref(start_date),
            text::opt_ref(end_date),
            text::opt_ref(since),
            now,
        ),
{
    match (start_date, end_date) {
        (Some(start), Some(end)) => check_explicit_window(
            start,
            end,
            clock::read_day(start, clock::DAY_FORMAT),
            clock::read_day(end, clock::DAY_FORMAT),
        ),
        (None, None) => {
            let since = match since {
                Some(since) => since,
                None => {
                    return Err(
                        CliError::user(
                            "provide --since (e.g. '7d') or both --start-date and --end-date".to_string(),
                        ),
                    );
                },
            };
            let duration = parse_relative_duration(since)?;
            match clock::moved_back(now, duration) {
                Some(start) => Ok(
                    (
                        clock::write_day(start, clock::DAY_FORMAT),
                        clock::write_day(now, clock::DAY_FORMAT),
                    ),
                ),
                None => Err(
                    CliError::user(
                        "--since duration is outside the supported date range".to_string(),
                    ),
                ),
            }
        },
        _ => Err(
            CliError::user("--start-date and --end-date must be provided together".to_string()),
        ),
    }
}

/// An explicit window wins over a relative one: with both days given, the duration
/// and the call time do not matter.
pub proof fn explicit_dates_override_since(
    start: Seq<char>,
    end: Seq<char>,
    one: Option<Seq<char>>,
    other: Option<Seq<char>>,
    now: i64,
    later: i64,
)
    ensures
        export_dates(Some(start), Some(end), one, now) == export_dates(
            Some(start),
            Some(end),
            other,
            later,
        ),
{
}

/// The request that creates a job.
pub open spec fn create_payload_of(start: Seq<char>, end: Seq<char>, format: Seq<char>) -> JsonView {
    JsonView::Object(
        seq![
            ("start_date"@, JsonView::Text(start)),
            ("end_date"@, JsonView::Text(end)),
            ("format"@, JsonView::Text(format)),
        ],
    )
}

pub fn create_payload(start_date: &str, end_date: &str, format: &str) -> (r: Json)
    ensures
        r@ == create_payload_of(start_date@, end_date@, format@),
{
    let r = Json::Object(
        vec![
            ("start_date".to_string(), Json::Text(start_date.to_string())),
            ("end_date".to_string(), Json::Text(end_date.to_string())),
            ("format".to_string(), Json::Text(format.to_string())),
        ],
    );
    reveal_with_fuel(json::json_view, 3);
    assert(r@->Object_0 =~= create_payload_of(start_date@, end_date@, format@)->Object_0);
    r
}

pub open spec fn failed_error_of(job_id: Seq<char>, job: JsonView) -> ErrorView {
    match export_job_common::failure_of(job) {
        Some(message) => error::user_error("export job "@ + job_id + " failed: "@ + message),
        None => error::user_error("export job "@ + job_id + " failed"@),
    }
}

pub fn export_job_failed_error(job_id: &str, job: &Json) -> (r: CliError)
    ensures
        r@ == failed_error_of(job_id@, job@),
{
    let mut text = "export job ".to_string();
    text.append(job_id);
    if let Some(message) = job_failure_message(job) {
        text.append(" failed: ");
        text.append(message.as_str());
    } else {
        text.append(" failed");
    }
    CliError::user(text)
}

pub open spec fn expired_error_of(job_id: Seq<char>) -> ErrorView {
    error::user_error("export job "@ + job_id + " expired before it became downloadable"@)
}

pub fn export_job_expired_error(job_id: &str) -> (r: CliError)
    ensures
        r@ == expired_error_of(job_id@),
{
    let mut text = "export job ".to_string();
    text.append(job_id);
    text.append(" expired before it became downloadable");
    CliError::user(text)
}

/// What a look at a job says: it is done, it goes on, or it ended in an error.
pub open spec fn job_progress(job_id: Seq<char>, job: JsonView) -> Result<bool, ErrorView> {
    match export_job_common::or_internal(
        json::field_text(job, "status"@),
        "api response missing export job status"@,
    ) {
        Err(e) => Err(e),
        Ok(status) => if status == "completed"@ {
            Ok(true)
        } else if status == "failed"@ {
            Err(failed_error_of(job_id, job))
        } else if status == "expired"@ {
            Err(expired_error_of(job_id))
        } else if status == "queued"@ || status == "processing"@ {
            Ok(false)
        } else {
            Err(
                error::internal_error(
                    "api response contains unknown export job status '"@ + status + "'"@,
                ),
            )
        },
    }
}

/// The completed job in the answer; nothing where the job is still under way or
/// not listed.
pub open spec fn wait_step_of(response: JsonView, job_id: Seq<char>) -> Result<
    Option<JsonView>,
    ErrorView,
> {
    match export_job_common::find_job_of(response, job_id) {
        Err(e) => Err(e),
        Ok(None) => Ok(None),
        Ok(Some(job)) => match job_progress(job_id, job) {
            Err(e) => Err(e),
            Ok(done) => Ok(
                if done {
                    Some(job)
                } else {
                    None
                },
            ),
        },
    }
}

/// One look at the list of jobs while waiting.
pub fn wait_step<'a>(response: &'a Json, job_id: &str) -> (r: Result<Option<&'a Json>, CliError>)
    ensures
        match r {
            Ok(job) => wait_step_of(response@, job_id@) == Ok::<Option<JsonView>, ErrorView>(
                json::opt_json(job),
            ),
            Err(e) => wait_step_of(response@, job_id@) == Err::<Option<JsonView>, ErrorView>(e@),
        },
{
    let job = match find_job(response, job_id)? {
        Some(job) => job,
        None => {
            return Ok(None);
        },
    };
    let status = required_job_status(job)?;
    if text::same(status, "completed") {
        Ok(Some(job))
    } else if text::same(status, "failed") {
        Err(export_job_failed_error(job_id, job))
    } else if text::same(status, "expired") {
        Err(export_job_expired_error(job_id))
    } else if text::same(status, "queued") || text::same(status, "processing") {
        Ok(None)
    } else {
        let mut message = "api response contains unknown export job status '".to_string();
        message.append(status);
        message.append("'");
        Err(CliError::internal(message))
    }
}

/// How long to pause before the next look, in nanoseconds; nothing where the time
/// to wait is over.
pub fn next_pause(remaining: u128) -> (r: Option<u128>)
    ensures
        match r {
            Some(pause) => 0 < remaining && pause == (if remaining < POLL_INTERVAL {
                remaining
            } else {
                POLL_INTERVAL
            }),
            None => remaining == 0,
        },
{
    if remaining == 0 {
        None
    } else if remaining < POLL_INTERVAL {
        Some(remaining)
    } else {
        Some(POLL_INTERVAL)
    }
}

pub fn wait_timeout_error(job_id: &str, seconds: u64) -> (r: CliError)
    ensures
        r@ == error::user_error(
            "export job "@ + job_id@ + " did not complete within "@ + text::decimal(seconds as nat)
                + " seconds"@,
        ),
{
    let mut message = "export job ".to_string();
    message.append(job_id);
    message.append(" did not complete within ");
    let number = text::number_text(seconds);
    message.append(number.as_str());
    message.append(" seconds");
    CliError::user(message)
}

/// What the operator reads once the job is created.
pub fn created_message(job_id: &str) -> (r: String)
    ensures
        r@ == "created export job "@ + job_id@,
{
    let mut message = "created export job ".to_string();
    message.append(job_id);
    message
}

/// What the operator reads once the job is completed.
pub fn completed_message(job_id: &str) -> (r: String)
    ensures
        r@ == "job "@ + job_id@ + " completed"@,
{
    let mut message = "job ".to_string();
    message.append(job_id);
    message.append(" completed");
    message
}

} // verus!
