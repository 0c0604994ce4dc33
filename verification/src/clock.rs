//! Points in time and calendar days.
use chrono::Datelike;
use vstd::prelude::*;

use crate::text;

verus! {

/// The format of a calendar day: year, month and day.
pub const DAY_FORMAT: &'static str = "%Y-%m-%d";

/// First second that a date can stand for.
pub const FIRST_SECOND: i64 = -8_334_601_228_800;

/// Last second that a date can stand for.
pub const LAST_SECOND: i64 = 8_210_266_876_799;

/// Longest duration, in seconds.
pub const LONGEST: i64 = 9_223_372_036_854_775;

/// A point in time: seconds since 1970 in UTC, and nanoseconds of that second.
#[derive(Clone, Copy, Debug, PartialEq, Eq, Structural)]
pub struct Instant {
    pub seconds: i64,
    pub nanos: u32,
}

/// True where one point in time comes before another.
pub open spec fn earlier(a: Instant, b: Instant) -> bool {
    a.seconds < b.seconds || (a.seconds == b.seconds && a.nanos < b.nanos)
}

impl Instant {
    pub fn is_before(&self, other: &Instant) -> (r: bool)
        ensures
            r == earlier(*self, *other),
    {
        self.seconds < other.seconds || (self.seconds == other.seconds && self.nanos < other.nanos)
    }
}

/// What `chrono::DateTime::parse_from_rfc3339` makes of a text: the seconds since
/// 1970 and the nanoseconds in UTC, or the wording of the error.
pub uninterp spec fn rfc3339_instant(text: Seq<char>) -> Result<(i64, u32), Seq<char>>;

/// Wrapper of `chrono::DateTime::parse_from_rfc3339`. The result is a function of
/// the text; which texts are timestamps is left to the name.
#[verifier::external_body]
fn read_rfc3339(text: &str) -> (r: Result<(i64, u32), String>)
    ensures
        match r {
            Ok(parts) => rfc3339_instant(text@) == Ok::<(i64, u32), Seq<char>>(parts),
            Err(e) => rfc3339_instant(text@) == Err::<(i64, u32), Seq<char>>(e@),
        },
{
    match chrono::DateTime::parse_from_rfc3339(text) {
        Ok(t) => Ok((t.timestamp(), t.timestamp_subsec_nanos())),
        Err(e) => Err(e.to_string()),
    }
}

/// The point in time that a text names.
pub open spec fn instant_of(text: Seq<char>) -> Result<Instant, Seq<char>> {
    match rfc3339_instant(text) {
        Ok((seconds, nanos)) => Ok(Instant { seconds, nanos }),
        Err(e) => Err(e),
    }
}

/// Reads an RFC 3339 timestamp.
pub fn parse_rfc3339(s: &str) -> (r: Result<Instant, String>)
    ensures
        match r {
            Ok(t) => instant_of(s@) == Ok::<Instant, Seq<char>>(t),
            Err(e) => instant_of(s@) == Err::<Instant, Seq<char>>(e@),
        },
{
    match read_rfc3339(s) {
        Ok((seconds, nanos)) => Ok(Instant { seconds, nanos }),
        Err(e) => Err(e),
    }
}

/// What `chrono::NaiveDate::parse_from_str` makes of a text: the day, counted from
/// the first day of year 1.
pub uninterp spec fn day_number(text: Seq<char>, format: Seq<char>) -> Option<i32>;

/// Wrapper of `chrono::NaiveDate::parse_from_str`. The day is counted by
/// `num_days_from_ce`, so that a later day has a larger number; which texts are
/// days is left to the name.
#[verifier::external_body]
pub(crate) fn read_day(text: &str, format: &str) -> (r: Option<i32>)
    ensures
        r == day_number(text@, format@),
{
    chrono::NaiveDate::parse_from_str(text, format).ok().map(|day| day.num_days_from_ce())
}

/// A duration in seconds, where it is in bounds.
pub open spec fn bounded_duration(seconds: int) -> Option<int> {
    if -LONGEST <= seconds <= LONGEST {
        Some(seconds)
    } else {
        None
    }
}

/// Wrapper of `chrono::Duration::try_hours`: so many hours in seconds, or nothing
/// where that is over the longest duration in either direction.
#[verifier::external_body]
pub(crate) fn hours(n: i64) -> (r: Option<i64>)
    ensures
        crate::json::opt_int(r) == bounded_duration(n * 3600),
{
    chrono::Duration::try_hours(n).map(|d| d.num_seconds())
}

/// Wrapper of `chrono::Duration::try_days`: so many days in seconds, or nothing
/// where that is over the longest duration in either direction.
#[verifier::external_body]
pub(crate) fn days(n: i64) -> (r: Option<i64>)
    ensures
        crate::json::opt_int(r) == bounded_duration(n * 86400),
{
    chrono::Duration::try_days(n).map(|d| d.num_seconds())
}

/// True of the seconds that fall on a day which dates can express.
pub open spec fn datable(second: int) -> bool {
    FIRST_SECOND <= second <= LAST_SECOND
}

/// Wrapper of `chrono::DateTime::checked_sub_signed`: a point in time moved back by
/// a duration, or nothing where either falls outside the days that dates express.
#[verifier::external_body]
pub(crate) fn moved_back(now: i64, duration: i64) -> (r: Option<i64>)
    requires
        -LONGEST <= duration <= LONGEST,
    ensures
        crate::json::opt_int(r) == (if datable(now as int) && datable(now - duration) {
            Some(now - duration)
        } else {
            None
        }),
{
    let now = chrono::DateTime::from_timestamp(now, 0)?;
    let start = now.checked_sub_signed(chrono::Duration::try_seconds(duration)?)?;
    Some(start.timestamp())
}

/// The calendar day of a second in UTC, as `chrono::DateTime::format` writes it.
pub uninterp spec fn day_text(second: i64, format: Seq<char>) -> Seq<char>;

/// Wrapper of `chrono::DateTime::format` on a point in time in UTC; how a day is
/// written is left to the name.
#[verifier::external_body]
pub(crate) fn write_day(second: i64, format: &str) -> (r: String)
    requires
        datable(second as int),
        format@ == DAY_FORMAT@,
    ensures
        r@ == day_text(second, format@),
{
    chrono::DateTime::from_timestamp(second, 0).unwrap_or_default().format(format).to_string()
}

/// The instant that an optional text names, where it names one.
pub open spec fn activity(text: Option<Seq<char>>) -> Option<Instant> {
    match text {
        Some(s) => match instant_of(s) {
            Ok(t) => Some(t),
            Err(_) => None,
        },
        None => None,
    }
}

/// The instant that an optional text names.
pub fn read_activity(s: Option<&str>) -> (r: Option<Instant>)
    ensures
        r == activity(text::opt_ref(s)),
{
    match s {
        Some(s) => match parse_rfc3339(s) {
            Ok(t) => Some(t),
            Err(_) => None,
        },
        None => None,
    }
}

/// The time of the call as RFC 3339 text: `chrono::Utc::now` and
/// `DateTime::to_rfc3339`. Nothing is claimed of the result, which is another
/// one at every call.
#[verifier::external_body]
pub(crate) fn timestamp() -> (r: String) {
    chrono::Utc::now().to_rfc3339()
}

/// True unless the activity is known and lies outside the window.
pub open spec fn in_window(
    activity: Option<Instant>,
    since: Option<Instant>,
    until: Option<Instant>,
) -> bool {
    &&& !(since is Some && activity is Some && earlier(activity->0, since->0))
    &&& !(until is Some && activity is Some && earlier(until->0, activity->0))
}

/// Whether a session with that activity falls in the window. One whose activity is
/// unknown does.
pub fn within_window(
    activity: Option<Instant>,
    since: Option<Instant>,
    until: Option<Instant>,
) -> (r: bool)
    ensures
        r == in_window(activity, since, until),
{
    if let (Some(since), Some(act)) = (since, activity) {
        if act.is_before(&since) {
            return false;
        }
    }
    if let (Some(until), Some(act)) = (until, activity) {
        if until.is_before(&act) {
            return false;
        }
    }
    true
}

} // verus!
