//! `verdictan history list-sessions`: sessions in a window of activity.
use vstd::prelude::*;

use crate::clock::{self, Instant};
use crate::error::{self, CliError};
use crate::events_tail::{self, text_member_or};
use crate::json::{self, Json, JsonView};
use crate::query;
use crate::text;

verus! {

/// The list of sessions, narrowed by what is given.
pub fn build_sessions_path(
    scope: Option<&str>,
    team_id: Option<&str>,
    agent_id: Option<&str>,
    tag: Option<&str>,
) -> (r: String)
    ensures
        r@ == query::sessions_path_of(
            text::opt_ref(scope),
            text::opt_ref(team_id),
            text::opt_ref(agent_id),
            text::opt_ref(tag),
        ),
{
    query::sessions_path(scope, team_id, agent_id, tag)
}

/// When a session was last active, where its timestamp can be read.
pub open spec fn activity_of(session: JsonView) -> Option<Instant> {
    clock::activity(json::field_text(session, "last_activity_at"@))
}

pub fn session_activity(session: &Json) -> (r: Option<Instant>)
    ensures
        r == activity_of(session@),
{
    clock::read_activity(session.get_str("last_activity_at"))
}

/// The sessions of a window, in their order.
pub open spec fn sessions_in_window(
    sessions: Seq<JsonView>,
    since: Option<Instant>,
    until: Option<Instant>,
) -> Seq<JsonView>
    decreases sessions.len(),
{
    if sessions.len() == 0 {
        Seq::empty()
    } else {
        let front = sessions_in_window(sessions.drop_last(), since, until);
        if clock::in_window(activity_of(sessions.last()), since, until) {
            front.push(sessions.last())
        } else {
            front
        }
    }
}

/// At most so many elements from the front.
pub open spec fn at_most<T>(s: Seq<T>, limit: nat) -> Seq<T> {
    if s.len() <= limit {
        s
    } else {
        s.take(limit as int)
    }
}

/// The sessions whose activity lies in the window, at most `limit` of them.
/// Sessions without a readable timestamp count as inside.
pub fn filter_sessions_by_activity(
    sessions: Vec<Json>,
    since: Option<Instant>,
    until: Option<Instant>,
    limit: usize,
) -> (r: Vec<Json>)
    ensures
        json::values(r@) == at_most(
            sessions_in_window(json::values(sessions@), since, until),
            limit as nat,
        ),
{
    let ghost all = json::values(sessions@);
    let mut out: Vec<Json> = Vec::new();
    assert(json::values(out@) =~= Seq::<JsonView>::empty());
    for session in iter: sessions
        invariant
            all == json::values(iter.seq()),
            json::values(out@) == at_most(
                sessions_in_window(all.take(iter.index()), since, until),
                limit as nat,
            ),
    {
        let ghost before = out@;
        let ghost upto = all.take(iter.index() + 1);
        let ghost kept = sessions_in_window(all.take(iter.index()), since, until);
        assert(upto.drop_last() =~= all.take(iter.index()));
        assert(upto.last() == session@);
        if out.len() < limit && clock::within_window(session_activity(&session), since, until) {
            let ghost view = session@;
            out.push(session);
            assert(json::values(out@) =~= json::values(before).push(view));
            assert(json::values(out@) =~= at_most(kept.push(view), limit as nat));
        } else if out.len() >= limit {
            assert(at_most(kept.push(session@), limit as nat) =~= at_most(kept, limit as nat));
        }
    }
    assert(all.take(all.len() as int) =~= all);
    out
}

/// Every session that is listed lies in the window, and there are at most `limit`.
pub proof fn listed_sessions_lie_in_the_window(
    sessions: Seq<JsonView>,
    since: Option<Instant>,
    until: Option<Instant>,
    limit: nat,
)
    ensures
        at_most(sessions_in_window(sessions, since, until), limit).len() <= limit,
        forall|i: int|
            0 <= i < at_most(sessions_in_window(sessions, since, until), limit).len()
                ==> clock::in_window(
                activity_of(
                    #[trigger] at_most(sessions_in_window(sessions, since, until), limit)[i],
                ),
                since,
                until,
            ),
{
    sessions_in_window_all(sessions, since, until);
    let all = sessions_in_window(sessions, since, until);
    let cut = at_most(all, limit);
    assert forall|i: int| 0 <= i < cut.len() implies clock::in_window(
        activity_of(#[trigger] cut[i]),
        since,
        until,
    ) by {
        assert(cut[i] == all[i]);
    }
}

proof fn sessions_in_window_all(
    sessions: Seq<JsonView>,
    since: Option<Instant>,
    until: Option<Instant>,
)
    ensures
        forall|i: int|
            0 <= i < sessions_in_window(sessions, since, until).len() ==> clock::in_window(
                activity_of(#[trigger] sessions_in_window(sessions, since, until)[i]),
                since,
                until,
            ),
    decreases sessions.len(),
{
    if sessions.len() > 0 {
        sessions_in_window_all(sessions.drop_last(), since, until);
        let front = sessions_in_window(sessions.drop_last(), since, until);
        let all = sessions_in_window(sessions, since, until);
        assert forall|i: int| 0 <= i < all.len() implies clock::in_window(
            activity_of(#[trigger] all[i]),
            since,
            until,
        ) by {
            if i < front.len() {
                assert(all[i] == front[i]);
            }
        }
    }
}

pub open spec fn session_line_of(session: JsonView) -> Seq<char> {
    events_tail::member_or(session, "session_id"@, "-"@) + "\t"@ + events_tail::member_or(
        session,
        "scope"@,
        "-"@,
    ) + "\tentries="@ + text::decimal_int(
        integer_or(session, "entry_count"@, 0),
    ) + "\tlast_activity="@ + events_tail::member_or(session, "last_activity_at"@, "-"@)
}

/// The value of an integer member, or a fallback.
pub open spec fn integer_or(v: JsonView, key: Seq<char>, fallback: int) -> int {
    match json::field_integer(v, key) {
        Some(n) => n,
        None => fallback,
    }
}

pub fn integer_member_or(v: &Json, key: &str, fallback: i64) -> (r: i64)
    ensures
        r == integer_or(v@, key@, fallback as int),
{
    match v.get_i64(key) {
        Some(n) => n,
        None => fallback,
    }
}

/// One line for a session.
pub fn session_line(session: &Json) -> (r: String)
    ensures
        r@ == session_line_of(session@),
{
    let mut line = text_member_or(session, "session_id", "-").to_string();
    line.append("\t");
    line.append(text_member_or(session, "scope", "-"));
    line.append("\tentries=");
    let count = text::integer_text(integer_member_or(session, "entry_count", 0));
    line.append(count.as_str());
    line.append("\tlast_activity=");
    line.append(text_member_or(session, "last_activity_at", "-"));
    line
}

/// An optional bound of the window, from its text.
pub fn parse_bound(value: Option<&str>, option: &str) -> (r: Result<Option<Instant>, CliError>)
    ensures
        match value {
            None => r == Ok::<Option<Instant>, CliError>(None),
            Some(s) => match clock::instant_of(s@) {
                Ok(t) => r == Ok::<Option<Instant>, CliError>(Some(t)),
                Err(cause) => r matches Err(e) && e@ == error::user_error(
                    "invalid "@ + option@ + ": "@ + cause,
                ),
            },
        },
{
    match value {
        None => Ok(None),
        Some(s) => match clock::parse_rfc3339(s) {
            Ok(t) => Ok(Some(t)),
            Err(cause) => {
                let mut message = "invalid ".to_string();
                message.append(option);
                message.append(": ");
                message.append(cause.as_str());
                Err(CliError::user(message))
            },
        },
    }
}

/// The sessions of an answer; none where it lists none.
pub fn listed_sessions(response: Json) -> (r: Vec<Json>)
    ensures
        json::values(r@) == (match json::field_items(response@, "sessions"@) {
            Some(sessions) => sessions,
            None => Seq::empty(),
        }),
{
    match response.take_array("sessions") {
        Some(sessions) => sessions,
        None => {
            let none: Vec<Json> = Vec::new();
            assert(json::values(none@) =~= Seq::<JsonView>::empty());
            none
        },
    }
}

/// What the operator reads of some sessions.
pub open spec fn list_lines_of(sessions: Seq<JsonView>) -> Seq<Seq<char>> {
    if sessions.len() == 0 {
        seq!["no sessions"@]
    } else {
        Seq::new(sessions.len(), |i: int| session_line_of(sessions[i]))
    }
}

pub fn list_lines(sessions: &Vec<Json>) -> (r: Vec<String>)
    ensures
        text::texts(r@) == list_lines_of(json::values(sessions@)),
{
    let mut lines: Vec<String> = Vec::new();
    if sessions.len() == 0 {
        lines.push("no sessions".to_string());
        assert(text::texts(lines@) =~= seq!["no sessions"@]);
        return lines;
    }
    let ghost all = list_lines_of(json::values(sessions@));
    let mut i: usize = 0;
    assert(text::texts(lines@) =~= all.take(0));
    while i < sessions.len()
        invariant
            0 < sessions.len(),
            i <= sessions.len(),
            all == list_lines_of(json::values(sessions@)),
            text::texts(lines@) == all.take(i as int),
        decreases sessions.len() - i,
    {
        let ghost before = text::texts(lines@);
        lines.push(session_line(&sessions[i]));
        assert(text::texts(lines@) =~= before.push(all[i as int]));
        assert(text::texts(lines@) =~= all.take(i as int + 1));
        i = i + 1;
    }
    assert(all.take(i as int) =~= all);
    lines
}

/// Some sessions, as JSON.
pub fn list_value(sessions: Vec<Json>) -> (r: Json)
    ensures
        r@ == JsonView::Object(
            seq![("sessions"@, JsonView::Array(json::values(sessions@)))],
        ),
{
    let array = Json::Array(sessions);
    assert(array@->Array_0 =~= json::values(sessions@));
    let r = Json::Object(vec![("sessions".to_string(), array)]);
    assert(r@->Object_0 =~= seq![("sessions"@, array@)]);
    r
}

} // verus!
