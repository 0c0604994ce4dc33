//! `verdictan history get-session`: one session in words.
use vstd::prelude::*;

use crate::error::CliError;
use crate::events_tail::{self, text_member_or};
use crate::history_list_sessions::{self, integer_member_or};
use crate::json::{self, Json, JsonView};
use crate::percent;
use crate::text;

verus! {

/// The answer with the entries as a member; an answer that is no object as it is.
pub open spec fn attached(value: JsonView, entries: JsonView) -> JsonView {
    match value {
        JsonView::Object(members) => JsonView::Object(
            json::with_member(members, "entries"@, entries),
        ),
        other => other,
    }
}

pub fn attach_entries(value: Json, entries: Json) -> (r: Json)
    ensures
        r@ == attached(value@, entries@),
{
    value.with("entries", entries)
}

/// The session in the answer, or the answer itself.
pub open spec fn session_part(value: JsonView) -> JsonView {
    match json::field(value, "session"@) {
        Some(session) => session,
        None => value,
    }
}

pub open spec fn summary_text_of(value: JsonView) -> Seq<char> {
    let session = session_part(value);
    "session_id:       "@ + events_tail::member_or(session, "session_id"@, "-"@)
        + "\nscope:            "@ + events_tail::member_or(session, "scope"@, "-"@)
        + "\nstarted_at:       "@ + events_tail::member_or(session, "started_at"@, "-"@)
        + "\nentry_count:      "@ + text::decimal_int(
        history_list_sessions::integer_or(session, "entry_count"@, 0),
    ) + "\nallowed:          "@ + text::decimal_int(
        history_list_sessions::integer_or(session, "allowed_entry_count"@, 0),
    ) + "\nblocked:          "@ + text::decimal_int(
        history_list_sessions::integer_or(session, "blocked_entry_count"@, 0),
    )
}

pub fn session_summary_text(value: &Json) -> (r: String)
    ensures
        r@ == summary_text_of(value@),
{
    let session = match value.get("session") {
        Some(session) => session,
        None => value,
    };
    let entries = text::integer_text(integer_member_or(session, "entry_count", 0));
    let allowed = text::integer_text(integer_member_or(session, "allowed_entry_count", 0));
    let blocked = text::integer_text(integer_member_or(session, "blocked_entry_count", 0));
    let mut out = "session_id:       ".to_string();
    out.append(text_member_or(session, "session_id", "-"));
    out.append("\nscope:            ");
    out.append(text_member_or(session, "scope", "-"));
    out.append("\nstarted_at:       ");
    out.append(text_member_or(session, "started_at", "-"));
    out.append("\nentry_count:      ");
    out.append(entries.as_str());
    out.append("\nallowed:          ");
    out.append(allowed.as_str());
    out.append("\nblocked:          ");
    out.append(blocked.as_str());
    out
}

/// Where a session is read. The identifier is one segment of the path.
pub fn session_path(session_id: &str) -> (r: String)
    ensures
        r@ == "/v1/history/sessions/"@ + percent::percent_encoded(session_id@),
{
    text::concat("/v1/history/sessions/", percent::encode(session_id).as_str())
}

/// Where the entries of a session are read.
pub fn entries_path(session_id: &str) -> (r: String)
    ensures
        r@ == "/v1/history/sessions/"@ + percent::percent_encoded(session_id@) + "/entries"@,
{
    text::concat(session_path(session_id).as_str(), "/entries")
}

/// Entries that were attached read back, and the rest of the answer stays.
pub proof fn attached_entries_read_back(value: JsonView, entries: JsonView, other: Seq<char>)
    requires
        value is Object,
    ensures
        json::field(attached(value, entries), "entries"@) == Some(entries),
        other != "entries"@ ==> json::field(attached(value, entries), other) == json::field(
            value,
            other,
        ),
{
    json::with_member_reads_back(value->Object_0, "entries"@, entries, other);
}

/// Why the entries of a session are missing from the answer.
pub fn unfetched_warning(failure: &CliError) -> (r: String)
    ensures
        r@ == "warning: could not fetch entries: "@ + failure@.message,
{
    text::concat("warning: could not fetch entries: ", failure.to_string().as_str())
}

} // verus!
