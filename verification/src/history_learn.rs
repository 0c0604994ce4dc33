//! `verdictan history learn`: the session to learn from and the request.
use vstd::prelude::*;

use crate::error::{self, CliError, ErrorView};
use crate::events_tail::{self, text_member_or};
use crate::history_condense;
use crate::json::{self, Json, JsonView, Number, NumberView};
use crate::percent;
use crate::query;
use crate::text;

verus! {

/// The text by which sessions are ranked: when they were last active.
pub open spec fn activity_key(session: JsonView) -> Seq<char> {
    events_tail::member_or(session, "last_activity_at"@, ""@)
}

/// The position of the session with the latest activity, the last one of those
/// that share it.
pub open spec fn latest(sessions: Seq<JsonView>) -> int
    recommends
        sessions.len() > 0,
    decreases sessions.len(),
{
    if sessions.len() <= 1 {
        0
    } else {
        let best = latest(sessions.drop_last());
        if text::before(activity_key(sessions.last()), activity_key(sessions[best])) {
            best
        } else {
            sessions.len() - 1
        }
    }
}

pub open spec fn most_recent_of(sessions: Seq<JsonView>) -> Option<Seq<char>> {
    if sessions.len() == 0 {
        None
    } else {
        json::field_text(sessions[latest(sessions)], "session_id"@)
    }
}

/// The position that `latest` gives is one of the sessions, and no session is
/// active after it.
pub proof fn latest_is_latest(sessions: Seq<JsonView>)
    requires
        sessions.len() > 0,
    ensures
        0 <= latest(sessions) < sessions.len(),
        forall|i: int|
            0 <= i < sessions.len() ==> !text::before(
                activity_key(sessions[latest(sessions)]),
                activity_key(#[trigger] sessions[i]),
            ),
    decreases sessions.len(),
{
    let top = activity_key(sessions[latest(sessions)]);
    if sessions.len() == 1 {
        text::before_irreflexive(top);
    } else {
        let front = sessions.drop_last();
        latest_is_latest(front);
        let best = activity_key(front[latest(front)]);
        let last = activity_key(sessions.last());
        assert forall|i: int| 0 <= i < sessions.len() implies !text::before(
            top,
            activity_key(#[trigger] sessions[i]),
        ) by {
            let key = activity_key(sessions[i]);
            if i < front.len() {
                assert(front[i] == sessions[i]);
                assert(!text::before(best, key));
                if text::before(last, best) {
                } else if text::before(last, key) {
                    text::before_total(last, best);
                    if last != best {
                        text::before_transitive(best, last, key);
                    }
                }
            } else if text::before(last, best) {
                if text::before(best, last) {
                    text::before_transitive(last, best, last);
                    text::before_irreflexive(last);
                }
            } else {
                text::before_irreflexive(last);
            }
        }
    }
}

/// The identifier of the session that was active last.
pub fn pick_most_recent_session(sessions: &Vec<Json>) -> (r: Option<&str>)
    ensures
        text::opt_ref(r) == most_recent_of(json::values(sessions@)),
{
    if sessions.len() == 0 {
        return None;
    }
    let ghost all = json::values(sessions@);
    let mut best: usize = 0;
    let mut i: usize = 1;
    while i < sessions.len()
        invariant
            1 <= i <= sessions.len(),
            best < i,
            all == json::values(sessions@),
            best == latest(all.take(i as int)),
        decreases sessions.len() - i,
    {
        let ghost upto = all.take(i as int + 1);
        assert(upto.drop_last() =~= all.take(i as int));
        assert(upto.last() == sessions@[i as int]@);
        assert(upto[best as int] == sessions@[best as int]@);
        if !text::before_text(
            text_member_or(&sessions[i], "last_activity_at", ""),
            text_member_or(&sessions[best], "last_activity_at", ""),
        ) {
            best = i;
        }
        i = i + 1;
    }
    assert(all.take(i as int) =~= all);
    sessions[best].get_str("session_id")
}

/// The list of sessions, narrowed by what is given.
pub fn build_sessions_discovery_path(
    scope: Option<&str>,
    team_id: Option<&str>,
    agent_id: Option<&str>,
) -> (r: String)
    ensures
        r@ == query::sessions_path_of(
            text::opt_ref(scope),
            text::opt_ref(team_id),
            text::opt_ref(agent_id),
            None,
        ),
{
    query::sessions_path(scope, team_id, agent_id, None)
}

pub open spec fn resolved_session(response: JsonView) -> Result<Seq<char>, ErrorView> {
    match most_recent_of(history_condense::sessions_of(response)) {
        Some(id) => Ok(id),
        None => Err(error::user_error("no matching history sessions found"@)),
    }
}

/// The session to learn from, out of the list of sessions.
pub fn resolve_most_recent_session_id(response: &Json) -> (r: Result<String, CliError>)
    ensures
        error::viewed(r) == resolved_session(response@),
{
    let found = match response.get_array("sessions") {
        Some(sessions) => pick_most_recent_session(sessions),
        None => None,
    };
    match found {
        Some(id) => Ok(id.to_string()),
        None => Err(CliError::user("no matching history sessions found".to_string())),
    }
}

/// A path below a session, with the identifier as one segment.
pub open spec fn session_path_of(session_id: Seq<char>, rest: Seq<char>) -> Seq<char> {
    "/v1/history/sessions/"@ + percent::percent_encoded(session_id) + rest
}

fn session_path(session_id: &str, rest: &str) -> (r: String)
    ensures
        r@ == session_path_of(session_id@, rest@),
{
    let mut path = "/v1/history/sessions/".to_string();
    let encoded = percent::encode(session_id);
    path.append(encoded.as_str());
    path.append(rest);
    path
}

/// Where the entries of a session are read.
pub fn entries_path(session_id: &str) -> (r: String)
    ensures
        r@ == session_path_of(session_id@, "/entries"@),
{
    session_path(session_id, "/entries")
}

/// Where learning is requested.
pub fn learn_path(session_id: &str) -> (r: String)
    ensures
        r@ == session_path_of(session_id@, "/learn"@),
{
    session_path(session_id, "/learn")
}

pub open spec fn learn_payload_of(
    strategy: Seq<char>,
    previous_sessions_max: u32,
    target_max_tokens: u32,
) -> JsonView {
    JsonView::Object(
        seq![
            ("strategy"@, JsonView::Text(strategy)),
            (
                "previous_sessions_max"@,
                JsonView::Number(NumberView::Integer(previous_sessions_max as int)),
            ),
            (
                "target_max_tokens"@,
                JsonView::Number(NumberView::Integer(target_max_tokens as int)),
            ),
        ],
    )
}

/// The request for learning.
pub fn learn_payload(strategy: &str, previous_sessions_max: u32, target_max_tokens: u32) -> (r:
    Json)
    ensures
        r@ == learn_payload_of(strategy@, previous_sessions_max, target_max_tokens),
{
    let r = Json::Object(
        vec![
            ("strategy".to_string(), Json::Text(strategy.to_string())),
            (
                "previous_sessions_max".to_string(),
                Json::Number(Number::Integer(previous_sessions_max as i64)),
            ),
            (
                "target_max_tokens".to_string(),
                Json::Number(Number::Integer(target_max_tokens as i64)),
            ),
        ],
    );
    reveal_with_fuel(json::json_view, 3);
    assert(r@->Object_0 =~= learn_payload_of(
        strategy@,
        previous_sessions_max,
        target_max_tokens,
    )->Object_0);
    r
}

/// A text member of the condensation in the answer, or a fallback.
pub open spec fn condensation_member(
    response: JsonView,
    key: Seq<char>,
    fallback: Seq<char>,
) -> Seq<char> {
    match json::field(response, "condensation"@) {
        Some(c) => events_tail::member_or(c, key, fallback),
        None => fallback,
    }
}

fn condensation_text(response: &Json, key: &str, fallback: &str) -> (r: String)
    ensures
        r@ == condensation_member(response@, key@, fallback@),
{
    match response.get("condensation") {
        Some(c) => text_member_or(c, key, fallback).to_string(),
        None => fallback.to_string(),
    }
}

pub open spec fn learn_lines_of(session_id: Seq<char>, response: JsonView) -> Seq<Seq<char>> {
    seq![
        "history learn requested"@,
        "session: "@ + session_id,
        "condensation: "@ + condensation_member(response, "id"@, "-"@),
        "status: "@ + condensation_member(response, "status"@, "accepted"@),
    ]
}

/// What the operator reads once learning is requested.
pub fn learn_lines(session_id: &str, response: &Json) -> (r: Vec<String>)
    ensures
        text::texts(r@) == learn_lines_of(session_id@, response@),
{
    let mut session = "session: ".to_string();
    session.append(session_id);
    let mut condensation = "condensation: ".to_string();
    let id = condensation_text(response, "id", "-");
    condensation.append(id.as_str());
    let mut status = "status: ".to_string();
    let state = condensation_text(response, "status", "accepted");
    status.append(state.as_str());
    let lines = vec!["history learn requested".to_string(), session, condensation, status];
    assert(text::texts(lines@) =~= learn_lines_of(session_id@, response@));
    lines
}

pub open spec fn preview_value(
    session_id: Seq<char>,
    strategy: Seq<char>,
    previous_sessions_max: u32,
    target_max_tokens: u32,
    entries: Seq<JsonView>,
) -> JsonView {
    JsonView::Object(
        seq![
            ("dry_run"@, JsonView::Bool(true)),
            ("session_id"@, JsonView::Text(session_id)),
            ("strategy"@, JsonView::Text(strategy)),
            ("previous_sessions_max"@, json::whole(previous_sessions_max as int)),
            ("target_max_tokens"@, json::whole(target_max_tokens as int)),
            ("entries_fetched"@, json::whole(entries.len() as int)),
            ("entries"@, JsonView::Array(entries)),
        ],
    )
}

/// What a dry run tells, as JSON.
pub fn learn_preview(
    session_id: &str,
    strategy: &str,
    previous_sessions_max: u32,
    target_max_tokens: u32,
    entries: Vec<Json>,
) -> (r: Json)
    ensures
        r@ == preview_value(
            session_id@,
            strategy@,
            previous_sessions_max,
            target_max_tokens,
            json::values(entries@),
        ),
{
    let fetched = entries.len() as u64;
    let array = Json::Array(entries);
    assert(array@->Array_0 =~= json::values(entries@));
    let list = vec![
        ("dry_run".to_string(), Json::Bool(true)),
        ("session_id".to_string(), Json::Text(session_id.to_string())),
        ("strategy".to_string(), Json::Text(strategy.to_string())),
        ("previous_sessions_max".to_string(), Json::count(previous_sessions_max as u64)),
        ("target_max_tokens".to_string(), Json::count(target_max_tokens as u64)),
        ("entries_fetched".to_string(), Json::count(fetched)),
        ("entries".to_string(), array),
    ];
    let r = Json::Object(list);
    reveal_with_fuel(json::json_view, 3);
    assert(r@->Object_0 =~= preview_value(
        session_id@,
        strategy@,
        previous_sessions_max,
        target_max_tokens,
        json::values(entries@),
    )->Object_0);
    r
}

/// What a dry run tells, as text.
pub fn preview_lines(session_id: &str, strategy: &str, entries_fetched: usize) -> (r: Vec<String>)
    ensures
        text::texts(r@) == seq![
            "dry-run: history learn"@,
            "session: "@ + session_id@,
            "strategy: "@ + strategy@,
            "entries fetched: "@ + text::decimal(entries_fetched as nat),
        ],
{
    let lines = vec![
        "dry-run: history learn".to_string(),
        text::concat("session: ", session_id),
        text::concat("strategy: ", strategy),
        text::concat("entries fetched: ", text::number_text(entries_fetched as u64).as_str()),
    ];
    assert(text::texts(lines@) =~= seq![
        "dry-run: history learn"@,
        "session: "@ + session_id@,
        "strategy: "@ + strategy@,
        "entries fetched: "@ + text::decimal(entries_fetched as nat),
    ]);
    lines
}

} // verus!
