//! What holds of events, sessions, their export, and export jobs.
use vstd::prelude::*;

use crate::clock::{self, Instant};
use crate::error::ErrorView;
use crate::events_tail::{event_line, event_time, page_lines_of, query_of, short_time};
use crate::export_job_common::{failure_of, first_job};
use crate::export_job_create::{
    create_payload_of, duration_of, explicit_window, export_dates, job_progress, wait_step_of,
};
use crate::history_condense::{ids_in_window, tokens_of};
use crate::history_export::{
    self, accepted_page, content_of, entry_count_of, front_matter, markdown_entries, only_texts,
    page_path_of, plain_entries, role_of, session_of, take_entry, take_page, ProgressView,
};
use crate::history_learn::{activity_key, latest, learn_payload_of, most_recent_of};
use crate::history_list_sessions::{activity_of, at_most, sessions_in_window};
use crate::json::{self, JsonView};
use crate::percent;
use crate::query;
use crate::text;

verus! {

// ---------------------------------------------------------------------------
// Requests
// ---------------------------------------------------------------------------

/// A byte is written as itself where it is a letter, a digit or one of `-._~`; else as
/// a percent sign and two digits that stand for it.
pub proof fn percent_byte_stands_for_its_byte(b: u8)
    ensures
        ({
            let written = percent::percent_byte(b);
            let plain = (0x30 <= b <= 0x39) || (0x41 <= b <= 0x5a) || (0x61 <= b <= 0x7a) || b
                == 0x2d || b == 0x2e || b == 0x5f || b == 0x7e;
            let value = |c: char| if c <= '9' {
                c as int - 48
            } else {
                c as int - 55
            };
            &&& plain ==> written == seq![b as char]
            &&& !plain ==> written.len() == 3 && written[0] == '%' && 16 * value(written[1])
                + value(written[2]) == b as int && ('0' <= written[1] <= '9' || 'A' <= written[1]
                <= 'F') && ('0' <= written[2] <= '9' || 'A' <= written[2] <= 'F')
        }),
{
}

/// Bytes are written one after the other.
pub proof fn percent_bytes_in_order(bytes: Seq<u8>, b: u8)
    ensures
        percent::percent_bytes(Seq::empty()) == Seq::<char>::empty(),
        percent::percent_bytes(bytes.push(b)) == percent::percent_bytes(bytes)
            + percent::percent_byte(b),
{
    assert(bytes.push(b).drop_last() =~= bytes);
}

proof fn no_ampersand(key: Seq<char>, value: Seq<char>)
    requires
        !key.contains('&'),
    ensures
        !(key + "="@ + percent::percent_encoded(value)).contains('&'),
{
    percent::percent_encoded_is_one_segment(value);
    reveal_strlit("=");
    let part = key + "="@ + percent::percent_encoded(value);
    assert forall|i: int| 0 <= i < part.len() implies part[i] != '&' by {
        if i < key.len() {
            assert(key.contains(key[i]));
            assert(part[i] == key[i]);
        } else if i == key.len() {
            assert(part[i] == '=');
        } else {
            let j = i - key.len() - 1;
            assert(part[i] == percent::percent_encoded(value)[j]);
            assert(percent::percent_encoded(value).contains(percent::percent_encoded(value)[j]));
        }
    }
}

/// The parameter of a value, where there is one.
pub open spec fn parameter(name: Seq<char>, value: Option<Seq<char>>) -> Seq<Seq<char>> {
    match value {
        Some(v) => seq![name + "="@ + percent::percent_encoded(v)],
        None => Seq::empty(),
    }
}

proof fn parameter_has_no_ampersand(name: Seq<char>, value: Option<Seq<char>>)
    requires
        !name.contains('&'),
    ensures
        forall|i: int|
            0 <= i < parameter(name, value).len() ==> !(#[trigger] parameter(
                name,
                value,
            )[i]).contains('&'),
{
    if value is Some {
        no_ampersand(name, value->0);
    }
}

/// The request for a page of events has exactly the parameters that were given, with
/// the limit, each under its own name: splitting it at `&` gives them back.
pub proof fn event_query_holds_what_was_given(
    since: Option<Seq<char>>,
    cursor: Option<Seq<char>>,
    limit: u32,
    event_type: Option<Seq<char>>,
    gateway_id: Option<Seq<char>>,
    verdict: Option<Seq<char>>,
)
    ensures
        ({
            let made = query_of(since, cursor, limit, event_type, gateway_id, verdict);
            let front = "/v1/events?"@.len() as int;
            &&& made.len() >= front
            &&& made.take(front) == "/v1/events?"@
            &&& text::split(made.skip(front), '&') == parameter("since"@, since) + parameter(
                "cursor"@,
                cursor,
            ) + seq!["limit="@ + text::decimal(limit as nat)] + parameter("event_type"@, event_type)
                + parameter("gateway_id"@, gateway_id) + parameter("verdict"@, verdict)
        }),
{
    let made = query_of(since, cursor, limit, event_type, gateway_id, verdict);
    let number = "limit="@ + text::decimal(limit as nat);
    let parts = parameter("since"@, since) + parameter("cursor"@, cursor) + seq![number]
        + parameter("event_type"@, event_type) + parameter("gateway_id"@, gateway_id) + parameter(
        "verdict"@,
        verdict,
    );
    reveal_strlit("since");
    reveal_strlit("cursor");
    reveal_strlit("limit=");
    reveal_strlit("event_type");
    reveal_strlit("gateway_id");
    reveal_strlit("verdict");
    reveal_strlit("/v1/events");
    reveal_strlit("?");
    reveal_strlit("&");
    reveal_strlit("/v1/events?");
    parameter_has_no_ampersand("since"@, since);
    parameter_has_no_ampersand("cursor"@, cursor);
    parameter_has_no_ampersand("event_type"@, event_type);
    parameter_has_no_ampersand("gateway_id"@, gateway_id);
    parameter_has_no_ampersand("verdict"@, verdict);
    text::decimal_reads_back(limit as nat);
    assert(!number.contains('&')) by {
        assert forall|i: int| 0 <= i < number.len() implies number[i] != '&' by {
            if i >= 6 {
                assert(text::is_digit(text::decimal(limit as nat)[i - 6]));
            }
        }
    }
    let a = parameter("since"@, since);
    let b = parameter("cursor"@, cursor);
    let d = parameter("event_type"@, event_type);
    let e = parameter("gateway_id"@, gateway_id);
    let f = parameter("verdict"@, verdict);
    let ab = a + b;
    let abc = ab + seq![number];
    let abcd = abc + d;
    let abcde = abcd + e;
    assert(parts =~= abcde + f);
    none_in_either(a, b);
    none_in_either(ab, seq![number]);
    none_in_either(abc, d);
    none_in_either(abcd, e);
    none_in_either(abcde, f);
    assert("&"@ =~= seq!['&']);
    text::split_undoes_join(parts, '&');
    let front = "/v1/events?"@.len() as int;
    let tail = text::join(parts, "&"@);
    assert(made =~= "/v1/events?"@ + tail) by {
        assert(query::with_query("/v1/events"@, parts) == "/v1/events"@ + "?"@ + tail);
        assert("/v1/events"@ + "?"@ =~= "/v1/events?"@);
    }
    assert(made.take(front) =~= "/v1/events?"@);
    assert(made.skip(front) =~= tail);
}

proof fn none_in_either(a: Seq<Seq<char>>, b: Seq<Seq<char>>)
    requires
        forall|i: int| 0 <= i < a.len() ==> !(#[trigger] a[i]).contains('&'),
        forall|i: int| 0 <= i < b.len() ==> !(#[trigger] b[i]).contains('&'),
    ensures
        forall|i: int| 0 <= i < (a + b).len() ==> !(#[trigger] (a + b)[i]).contains('&'),
{
    assert forall|i: int| 0 <= i < (a + b).len() implies !(#[trigger] (a + b)[i]).contains('&') by {
        if i < a.len() {
            assert((a + b)[i] == a[i]);
        } else {
            assert((a + b)[i] == b[i - a.len()]);
        }
    }
}

/// The request for sessions has exactly the filters that were given.
pub proof fn session_query_holds_what_was_given(
    scope: Option<Seq<char>>,
    team_id: Option<Seq<char>>,
    agent_id: Option<Seq<char>>,
    tag: Option<Seq<char>>,
)
    ensures
        ({
            let made = query::sessions_path_of(scope, team_id, agent_id, tag);
            let parts = parameter("scope"@, scope) + parameter("team_id"@, team_id) + parameter(
                "agent_id"@,
                agent_id,
            ) + parameter("tag"@, tag);
            let front = "/v1/history/sessions?"@.len() as int;
            &&& parts.len() == 0 ==> made == "/v1/history/sessions"@
            &&& parts.len() > 0 ==> made.len() >= front && made.take(front)
                == "/v1/history/sessions?"@ && text::split(made.skip(front), '&') == parts
        }),
{
    let made = query::sessions_path_of(scope, team_id, agent_id, tag);
    let a = parameter("scope"@, scope);
    let b = parameter("team_id"@, team_id);
    let c = parameter("agent_id"@, agent_id);
    let d = parameter("tag"@, tag);
    let ab = a + b;
    let abc = ab + c;
    let parts = a + b + c + d;
    reveal_strlit("scope");
    reveal_strlit("team_id");
    reveal_strlit("agent_id");
    reveal_strlit("tag");
    reveal_strlit("&");
    reveal_strlit("?");
    reveal_strlit("/v1/history/sessions");
    reveal_strlit("/v1/history/sessions?");
    parameter_has_no_ampersand("scope"@, scope);
    parameter_has_no_ampersand("team_id"@, team_id);
    parameter_has_no_ampersand("agent_id"@, agent_id);
    parameter_has_no_ampersand("tag"@, tag);
    none_in_either(a, b);
    none_in_either(ab, c);
    none_in_either(abc, d);
    assert(parts =~= abc + d);
    if parts.len() > 0 {
        assert("&"@ =~= seq!['&']);
        text::split_undoes_join(parts, '&');
        let front = "/v1/history/sessions?"@.len() as int;
        let tail = text::join(parts, "&"@);
        assert("/v1/history/sessions"@ + "?"@ =~= "/v1/history/sessions?"@);
        assert(made =~= "/v1/history/sessions?"@ + tail);
        assert(made.take(front) =~= "/v1/history/sessions?"@);
        assert(made.skip(front) =~= tail);
    }
}

// ---------------------------------------------------------------------------
// Events
// ---------------------------------------------------------------------------

/// The time of an event is when it happened; when it was created counts only where the
/// event does not say.
pub proof fn event_time_comes_first(event: JsonView)
    ensures
        json::field(event, "event_time"@) matches Some(v) ==> event_time(event) == (match v {
            JsonView::Text(t) => t,
            _ => "-"@,
        }),
        json::field(event, "event_time"@) is None ==> event_time(event) == (match json::field(
            event,
            "created_at"@,
        ) {
            Some(JsonView::Text(t)) => t,
            _ => "-"@,
        }),
{
}

/// A line tells the time, the type, the verdict, the model and the policy, in this
/// order, with a placeholder for what the event does not hold.
pub proof fn event_line_tells_the_event(event: JsonView)
    ensures
        ({
            let told = |key: Seq<char>, none: Seq<char>| match json::field(event, key) {
                Some(JsonView::Text(t)) => t,
                _ => none,
            };
            event_line(event) == "  "@ + short_time(event_time(event)) + " "@ + text::padded(
                told("event_type"@, "unknown"@),
                10,
            ) + " "@ + text::padded(told("verdict"@, "-"@), 10) + " model="@ + told(
                "model"@,
                "-"@,
            ) + " policy="@ + told("policy_name"@, "-"@)
        }),
{
}

/// A page shows each of its events on a line, and says so where there are none.
pub proof fn page_shows_each_event(page: JsonView, events: Seq<JsonView>)
    requires
        json::field_items(page, "events"@) == Some(events),
    ensures
        events.len() == 0 ==> page_lines_of(page) == seq!["No events found."@],
        events.len() > 0 ==> page_lines_of(page).len() == events.len(),
        forall|i: int|
            0 <= i < events.len() ==> page_lines_of(page)[i] == event_line(#[trigger] events[i]),
{
}

// ---------------------------------------------------------------------------
// Sessions
// ---------------------------------------------------------------------------

/// A session lies in the window unless it is known to be active before its start or
/// after its end. Both ends belong to it.
pub proof fn window_holds_both_ends(
    activity: Option<Instant>,
    since: Option<Instant>,
    until: Option<Instant>,
)
    ensures
        activity is None ==> clock::in_window(activity, since, until),
        since is None && until is None ==> clock::in_window(activity, since, until),
        activity matches Some(a) ==> {
            &&& since matches Some(s) ==> (a.seconds < s.seconds ==> !clock::in_window(
                activity,
                since,
                until,
            ))
            &&& until matches Some(u) ==> (a.seconds > u.seconds ==> !clock::in_window(
                activity,
                since,
                until,
            ))
            &&& since matches Some(s) ==> (a.seconds == s.seconds && a.nanos < s.nanos
                ==> !clock::in_window(activity, since, until))
            &&& until matches Some(u) ==> (a.seconds == u.seconds && a.nanos > u.nanos
                ==> !clock::in_window(activity, since, until))
            &&& (since matches Some(s) ==> (a.seconds > s.seconds || (a.seconds == s.seconds
                && a.nanos >= s.nanos))) && (until matches Some(u) ==> (a.seconds < u.seconds || (
            a.seconds == u.seconds && a.nanos <= u.nanos))) ==> clock::in_window(
                activity,
                since,
                until,
            )
        },
{
}

/// A session is kept exactly where it lies in the window, in its place.
pub proof fn sessions_are_kept_in_order(
    sessions: Seq<JsonView>,
    session: JsonView,
    since: Option<Instant>,
    until: Option<Instant>,
)
    ensures
        sessions_in_window(Seq::empty(), since, until) == Seq::<JsonView>::empty(),
        clock::in_window(activity_of(session), since, until) ==> sessions_in_window(
            sessions.push(session),
            since,
            until,
        ) == sessions_in_window(sessions, since, until).push(session),
        !clock::in_window(activity_of(session), since, until) ==> sessions_in_window(
            sessions.push(session),
            since,
            until,
        ) == sessions_in_window(sessions, since, until),
        activity_of(session) == clock::activity(json::field_text(session, "last_activity_at"@)),
{
    assert(sessions.push(session).drop_last() =~= sessions);
}

/// The same of the identifiers of the sessions to condense; a session without one is
/// left out.
pub proof fn session_ids_are_kept_in_order(
    sessions: Seq<JsonView>,
    session: JsonView,
    since: Option<Instant>,
    until: Option<Instant>,
)
    ensures
        ids_in_window(sessions.push(session), since, until) == (match json::field_text(
            session,
            "session_id"@,
        ) {
            Some(id) => if clock::in_window(activity_of(session), since, until) {
                ids_in_window(sessions, since, until).push(id)
            } else {
                ids_in_window(sessions, since, until)
            },
            None => ids_in_window(sessions, since, until),
        }),
{
    assert(sessions.push(session).drop_last() =~= sessions);
}

/// A limit keeps the first ones, as many as it allows.
pub proof fn limit_keeps_the_first(s: Seq<JsonView>, limit: nat)
    ensures
        at_most(s, limit).len() <= limit,
        at_most(s, limit).len() == s.len() || at_most(s, limit).len() == limit,
        forall|i: int| 0 <= i < at_most(s, limit).len() ==> at_most(s, limit)[i] == s[i],
{
}

/// Of the sessions the one with the latest activity is picked, the last of them where
/// several are as late.
pub proof fn last_of_the_latest_is_picked(sessions: Seq<JsonView>)
    requires
        sessions.len() > 0,
    ensures
        0 <= latest(sessions) < sessions.len(),
        forall|i: int|
            latest(sessions) < i < sessions.len() ==> text::before(
                activity_key(#[trigger] sessions[i]),
                activity_key(sessions[latest(sessions)]),
            ),
        most_recent_of(sessions) == json::field_text(sessions[latest(sessions)], "session_id"@),
    decreases sessions.len(),
{
    if sessions.len() > 1 {
        let front = sessions.drop_last();
        last_of_the_latest_is_picked(front);
        let best = latest(front);
        assert(front[best] == sessions[best]);
        assert forall|i: int| latest(sessions) < i < sessions.len() implies text::before(
            activity_key(#[trigger] sessions[i]),
            activity_key(sessions[latest(sessions)]),
        ) by {
            if i < front.len() {
                assert(front[i] == sessions[i]);
            } else {
                assert(sessions[i] == sessions.last());
            }
        }
    }
}

/// The tokens are the least whole number that is at least 1.3 for each word, as far as
/// 32 bits go.
pub proof fn tokens_round_up(s: Seq<char>)
    ensures
        ({
            let words = text::words(s).len() as int;
            let tokens = tokens_of(s);
            &&& tokens < u32::MAX ==> 10 * tokens >= 13 * words && 10 * (tokens - 1) < 13 * words
            &&& 13 * words > 10 * u32::MAX ==> tokens == u32::MAX
            &&& 0 <= tokens <= u32::MAX
        }),
{
}

/// What learning is asked for is what the request holds.
pub proof fn learn_request_holds_what_was_asked(
    strategy: Seq<char>,
    previous_sessions_max: u32,
    target_max_tokens: u32,
)
    ensures
        ({
            let made = learn_payload_of(strategy, previous_sessions_max, target_max_tokens);
            &&& json::field_text(made, "strategy"@) == Some(strategy)
            &&& json::field_integer(made, "previous_sessions_max"@) == Some(
                previous_sessions_max as int,
            )
            &&& json::field_integer(made, "target_max_tokens"@) == Some(target_max_tokens as int)
        }),
{
    let made = learn_payload_of(strategy, previous_sessions_max, target_max_tokens);
    reveal_strlit("strategy");
    reveal_strlit("previous_sessions_max");
    reveal_strlit("target_max_tokens");
    assert("strategy"@.len() == 8 && "previous_sessions_max"@.len() == 21
        && "target_max_tokens"@.len() == 17);
    reveal_with_fuel(json::member, 4);
}

// ---------------------------------------------------------------------------
// Exporting a session
// ---------------------------------------------------------------------------

/// An export needs the session and the number of its entries, which is not negative.
pub proof fn export_needs_the_session(response: JsonView)
    ensures
        session_of(response) is Ok <==> (json::field(response, "session"@) matches Some(session)
            && session is Object),
        session_of(response) matches Ok(session) ==> json::field(response, "session"@) == Some(
            session,
        ),
        entry_count_of(response) is Ok <==> (json::field_integer(
            response,
            "entry_count"@,
        ) matches Some(n) && 0 <= n <= usize::MAX),
        entry_count_of(response) matches Ok(n) ==> json::field_integer(response, "entry_count"@)
            == Some(n as int),
{
}

/// Pages are asked for by the entries that are there already.
pub proof fn pages_are_asked_for_in_turn(session_id: Seq<char>, offset: nat)
    ensures
        page_path_of(session_id, offset) == "/v1/history/sessions/"@ + percent::percent_encoded(
            session_id,
        ) + "/entries?limit="@ + text::decimal(500) + "&offset="@ + text::decimal(offset),
{
}

/// An entry is taken exactly where it is an object with an identifier that was not
/// seen and an index above all before it; it is then the last one, and nothing that was
/// taken changes.
pub proof fn entry_is_taken_exactly_in_order(
    progress: ProgressView,
    entry: JsonView,
    offset: nat,
    position: nat,
)
    ensures
        ({
            let (next, outcome) = take_entry(progress, entry, offset, position);
            let id = json::field_text(entry, "entry_id"@);
            let index = json::field_integer(entry, "request_index"@);
            &&& outcome is Ok <==> entry is Object && id is Some && !text::is_blank(id->0)
                && index is Some && !progress.seen.contains(text::trim(id->0)) && (
            progress.last matches Some(last) ==> index->0 > last)
            &&& outcome is Ok ==> next.entries == progress.entries.push(entry) && next.last == index
                && next.seen == progress.seen.push(text::trim(id->0))
            &&& outcome is Err ==> next.entries == progress.entries && next.last == progress.last
        }),
{
}

/// A page is taken exactly where each of its entries is, in turn.
pub proof fn page_is_taken_entry_by_entry(
    progress: ProgressView,
    page: Seq<JsonView>,
    offset: nat,
    position: nat,
)
    ensures
        page.len() == 0 ==> take_page(progress, page, offset, position).1 is Ok && take_page(
            progress,
            page,
            offset,
            position,
        ).0 == progress,
        page.len() > 0 ==> ({
            let (next, outcome) = take_entry(progress, page[0], offset, position);
            take_page(progress, page, offset, position).1 is Ok <==> outcome is Ok && take_page(
                next,
                page.drop_first(),
                offset,
                position + 1,
            ).1 is Ok
        }),
        take_page(progress, page, offset, position).1 is Ok ==> take_page(
            progress,
            page,
            offset,
            position,
        ).0.entries == progress.entries + page,
    decreases page.len(),
{
    if page.len() > 0 {
        let (next, outcome) = take_entry(progress, page[0], offset, position);
        if outcome is Ok {
            page_is_taken_entry_by_entry(next, page.drop_first(), offset, position + 1);
            assert(progress.entries.push(page[0]) + page.drop_first() =~= progress.entries + page);
        }
    } else {
        assert(progress.entries + page =~= progress.entries);
    }
}

/// An export is complete exactly with a page that is not full, and only if all entries
/// that the session reports are there; a full page leads on to the next, and one that
/// is too long, or has no entries array, is refused.
pub proof fn export_ends_with_a_short_page(
    progress: ProgressView,
    offset: nat,
    response: JsonView,
    expected: nat,
)
    ensures
        ({
            let taken = accepted_page(progress, offset, response, expected);
            match json::field_items(response, "entries"@) {
                None => taken is Err,
                Some(page) => {
                    &&& page.len() > 500 ==> taken is Err
                    &&& take_page(progress, page, offset, 0).1 is Err ==> taken is Err
                    &&& page.len() < 500 && progress.entries.len() + page.len() < expected
                        ==> taken is Err
                    &&& page.len() < 500 && progress.entries.len() + page.len() >= expected
                        && take_page(progress, page, offset, 0).1 is Ok ==> taken is Ok
                    &&& taken matches Ok((next, from, complete)) ==> {
                        &&& complete <==> page.len() < 500
                        &&& next.entries == progress.entries + page
                        &&& complete ==> next.entries.len() >= expected
                        &&& !complete ==> from == offset + 500
                    }
                },
            }
        }),
{
    if json::field_items(response, "entries"@) is Some {
        let page = json::field_items(response, "entries"@)->0;
        page_is_taken_entry_by_entry(progress, page, offset, 0);
    }
}

/// The role of an entry is that of the last message of its request, else its kind.
pub proof fn role_is_that_of_the_last_message(
    entry: JsonView,
    request: JsonView,
    messages: Seq<JsonView>,
)
    requires
        json::field(entry, "request_payload"@) == Some(request),
        json::field_items(request, "messages"@) == Some(messages),
        messages.len() > 0,
    ensures
        json::field_text(messages.last(), "role"@) matches Some(role) ==> role_of(entry) == role,
        json::field_text(messages.last(), "role"@) is None ==> role_of(entry) == (
        match json::field_text(entry, "entry_kind"@) {
            Some(kind) => kind,
            None => "unknown"@,
        }),
{
}

/// An entry without messages has its kind for a role.
pub proof fn role_is_the_kind_without_messages(entry: JsonView)
    requires
        json::field(entry, "request_payload"@) is None,
    ensures
        role_of(entry) == (match json::field_text(entry, "entry_kind"@) {
            Some(kind) => kind,
            None => "unknown"@,
        }),
{
}

/// The content of an entry is that of the first choice of its response; else that of
/// the last message of its request; else its own.
pub proof fn content_is_that_of_the_response(entry: JsonView)
    ensures
        json::field(entry, "response_payload"@) matches Some(response) ==> (json::field_items(
            response,
            "choices"@,
        ) matches Some(choices) ==> (choices.len() > 0 ==> (json::field(
            choices[0],
            "message"@,
        ) matches Some(message) ==> (json::field_text(message, "content"@) matches Some(content)
            ==> content_of(entry) == content)))),
        json::field(entry, "response_payload"@) is None ==> (json::field(
            entry,
            "request_payload"@,
        ) matches Some(request) ==> (json::field_items(request, "messages"@) matches Some(messages)
            ==> (messages.len() > 0 ==> (json::field_text(
            messages.last(),
            "content"@,
        ) matches Some(content) ==> content_of(entry) == content)))),
        json::field(entry, "response_payload"@) is None && json::field(
            entry,
            "request_payload"@,
        ) is None ==> (json::field_text(entry, "content"@) matches Some(content) ==> content_of(
            entry,
        ) == content),
{
}

/// Every entry has its section, in order.
pub proof fn every_entry_has_its_section(entries: Seq<JsonView>, entry: JsonView)
    ensures
        markdown_entries(Seq::empty()) == Seq::<char>::empty(),
        plain_entries(Seq::empty()) == Seq::<char>::empty(),
        markdown_entries(entries.push(entry)) == markdown_entries(entries) + "## "@ + role_of(entry)
            + "\n\n"@ + content_of(entry) + "\n\n"@,
        plain_entries(entries.push(entry)) == plain_entries(entries) + "["@ + role_of(entry)
            + "]: "@ + content_of(entry) + "\n\n"@,
{
    assert(entries.push(entry).drop_last() =~= entries);
    assert(markdown_entries(entries.push(entry)) =~= markdown_entries(entries) + "## "@ + role_of(
        entry,
    ) + "\n\n"@ + content_of(entry) + "\n\n"@);
    assert(plain_entries(entries.push(entry)) =~= plain_entries(entries) + "["@ + role_of(entry)
        + "]: "@ + content_of(entry) + "\n\n"@);
}

/// The front matter stands between two marks and tells what is known of the session.
pub proof fn front_matter_tells_the_session(session: JsonView)
    ensures
        ({
            let told = front_matter(session);
            &&& text::starts_with(told, "---\n"@)
            &&& json::field_text(session, "session_id"@) matches Some(id) ==> text::contains(
                told,
                "session_id: "@ + id + "\n"@,
            )
            &&& json::field_text(session, "scope"@) matches Some(scope) ==> text::contains(
                told,
                "scope: "@ + scope + "\n"@,
            )
            &&& json::field_text(session, "started_at"@) matches Some(at) ==> text::contains(
                told,
                "started_at: "@ + at + "\n"@,
            )
            &&& json::field_integer(session, "entry_count"@) matches Some(n) ==> text::contains(
                told,
                "entry_count: "@ + text::decimal_int(n) + "\n"@,
            )
        }),
{
    let told = front_matter(session);
    let mark = "---\n"@;
    let id = history_export::front_line("session_id"@, json::field_text(session, "session_id"@));
    let scope = history_export::front_line("scope"@, json::field_text(session, "scope"@));
    let at = history_export::front_line("started_at"@, json::field_text(session, "started_at"@));
    let count = history_export::front_line(
        "entry_count"@,
        match json::field_integer(session, "entry_count"@) {
            Some(n) => Some(text::decimal_int(n)),
            None => None,
        },
    );
    let tail = history_export::tags_line(session) + "---\n\n"@;
    assert(told =~= mark + id + scope + at + count + tail);
    assert(told.subrange(0, mark.len() as int) =~= mark);
    reveal_strlit(": ");
    reveal_strlit("session_id");
    reveal_strlit("session_id: ");
    reveal_strlit("scope");
    reveal_strlit("scope: ");
    reveal_strlit("started_at");
    reveal_strlit("started_at: ");
    reveal_strlit("entry_count");
    reveal_strlit("entry_count: ");
    if json::field_text(session, "session_id"@) is Some {
        let v = json::field_text(session, "session_id"@)->0;
        assert(id =~= "session_id: "@ + v + "\n"@);
        stands_inside(mark, id, scope + at + count + tail);
        assert(told =~= mark + id + (scope + at + count + tail));
    }
    if json::field_text(session, "scope"@) is Some {
        let v = json::field_text(session, "scope"@)->0;
        assert(scope =~= "scope: "@ + v + "\n"@);
        stands_inside(mark + id, scope, at + count + tail);
        assert(told =~= (mark + id) + scope + (at + count + tail));
    }
    if json::field_text(session, "started_at"@) is Some {
        let v = json::field_text(session, "started_at"@)->0;
        assert(at =~= "started_at: "@ + v + "\n"@);
        stands_inside(mark + id + scope, at, count + tail);
        assert(told =~= (mark + id + scope) + at + (count + tail));
    }
    if json::field_integer(session, "entry_count"@) is Some {
        let v = text::decimal_int(json::field_integer(session, "entry_count"@)->0);
        assert(count =~= "entry_count: "@ + v + "\n"@);
        stands_inside(mark + id + scope + at, count, tail);
        assert(told =~= (mark + id + scope + at) + count + tail);
    }
}

proof fn stands_inside(before: Seq<char>, part: Seq<char>, after: Seq<char>)
    ensures
        text::contains(before + part + after, part),
{
    let whole = before + part + after;
    let at = before.len() as int;
    assert(whole.subrange(at, at + part.len()) =~= part);
    assert(text::occurs_at(whole, part, at));
}

/// Of the tags those that are texts are told, in order.
pub proof fn tags_that_are_texts_are_told(tags: Seq<JsonView>, tag: JsonView)
    ensures
        only_texts(Seq::empty()) == Seq::<Seq<char>>::empty(),
        only_texts(tags.push(tag)) == (match tag {
            JsonView::Text(t) => only_texts(tags).push(t),
            _ => only_texts(tags),
        }),
{
    assert(tags.push(tag).drop_last() =~= tags);
}

// ---------------------------------------------------------------------------
// Export jobs
// ---------------------------------------------------------------------------

proof fn numeral_reads_as_integer(n: nat)
    ensures
        text::parse_integer(text::decimal(n)) == Some(n as int),
{
    text::decimal_reads_back(n);
    let s = text::decimal(n);
    assert(text::is_digit(s[0]));
}

/// A duration is a number above zero of hours or of days, and as long as that.
pub proof fn duration_is_a_number_of_hours_or_days(n: nat)
    ensures
        0 < n && n * 3600 <= clock::LONGEST && n <= i64::MAX ==> duration_of(
            text::decimal(n).push('h'),
        ) == Ok::<int, ErrorView>((n * 3600) as int),
        0 < n && n * 86400 <= clock::LONGEST && n <= i64::MAX ==> duration_of(
            text::decimal(n).push('d'),
        ) == Ok::<int, ErrorView>((n * 86400) as int),
        duration_of(text::decimal(0).push('d')) is Err,
        duration_of(text::decimal(0).push('h')) is Err,
        duration_of(text::decimal(n)) is Err,
{
    numeral_reads_as_integer(n);
    numeral_reads_as_integer(0);
    text::decimal_reads_back(n);
    let s = text::decimal(n);
    assert(s.len() > 0) by {
        assert(text::digits_value(s) is Some);
    }
    assert(s.push('h').drop_last() =~= s);
    assert(s.push('d').drop_last() =~= s);
    assert(text::decimal(0).push('d').drop_last() =~= text::decimal(0));
    assert(text::decimal(0).push('h').drop_last() =~= text::decimal(0));
    assert(text::is_digit(s[s.len() - 1]));
}

/// Any duration that is accepted is above zero, and a whole number of hours.
pub proof fn duration_is_positive(s: Seq<char>)
    ensures
        duration_of(s) matches Ok(seconds) ==> seconds > 0 && seconds % 3600 == 0 && s.len() > 0 && (
        s.last() == 'h' || s.last() == 'd'),
{
    if duration_of(s) is Ok {
        let seconds = duration_of(s)->Ok_0;
        let number = s.drop_last();
        let n = text::parse_integer(number)->0;
        if s.last() == 'h' {
            assert(seconds == n * 3600);
        } else {
            assert(seconds == n * 86400);
            assert((n * 86400) % 3600 == 0) by (nonlinear_arith);
        }
    }
}

/// Two dates are a window exactly where both are days and the first is not after the
/// last.
pub proof fn window_is_two_days_in_order(
    start: Seq<char>,
    end: Seq<char>,
    start_day: Option<i32>,
    end_day: Option<i32>,
)
    ensures
        explicit_window(start, end, start_day, end_day) is Ok <==> (start_day matches Some(first)
            && (end_day matches Some(last) && first <= last)),
        explicit_window(start, end, start_day, end_day) matches Ok(window) ==> window == (
            start,
            end,
        ),
{
}

/// Dates come in pairs, and a pair counts before a duration; without either, or with
/// half a pair, there is no window. A duration reaches back from now.
pub proof fn dates_come_in_pairs(
    start_date: Option<Seq<char>>,
    end_date: Option<Seq<char>>,
    since: Option<Seq<char>>,
    now: i64,
)
    ensures
        start_date is Some != end_date is Some ==> export_dates(
            start_date,
            end_date,
            since,
            now,
        ) is Err,
        start_date is None && end_date is None && since is None ==> export_dates(
            start_date,
            end_date,
            since,
            now,
        ) is Err,
        start_date is Some && end_date is Some ==> (export_dates(
            start_date,
            end_date,
            since,
            now,
        ) matches Ok(window) ==> window == (start_date->0, end_date->0)),
        start_date is None && end_date is None ==> (since matches Some(s) ==> (duration_of(
            text::trim(s),
        ) matches Ok(duration) ==> (clock::datable(now as int) && clock::datable(now - duration)
            ==> export_dates(start_date, end_date, since, now) == Ok::<
            (Seq<char>, Seq<char>),
            ErrorView,
        >(
            (
                clock::day_text((now - duration) as i64, "%Y-%m-%d"@),
                clock::day_text(now, "%Y-%m-%d"@),
            ),
        )))),
        start_date is None && end_date is None ==> (since matches Some(s) ==> (duration_of(
            text::trim(s),
        ) is Err ==> export_dates(start_date, end_date, since, now) is Err)),
{
}

/// A job is asked for with its window and its format.
pub proof fn job_request_holds_its_window(start: Seq<char>, end: Seq<char>, format: Seq<char>)
    ensures
        json::field_text(create_payload_of(start, end, format), "start_date"@) == Some(start),
        json::field_text(create_payload_of(start, end, format), "end_date"@) == Some(end),
        json::field_text(create_payload_of(start, end, format), "format"@) == Some(format),
{
    reveal_strlit("start_date");
    reveal_strlit("end_date");
    reveal_strlit("format");
    assert("start_date"@.len() == 10 && "end_date"@.len() == 8 && "format"@.len() == 6);
    reveal_with_fuel(json::member, 4);
}

proof fn states_differ()
    ensures
        "completed"@ != "failed"@,
        "completed"@ != "expired"@,
        "completed"@ != "queued"@,
        "completed"@ != "processing"@,
        "failed"@ != "expired"@,
        "failed"@ != "queued"@,
        "failed"@ != "processing"@,
        "expired"@ != "queued"@,
        "expired"@ != "processing"@,
{
    reveal_strlit("completed");
    reveal_strlit("failed");
    reveal_strlit("expired");
    reveal_strlit("queued");
    reveal_strlit("processing");
    assert("completed"@[0] == 'c' && "failed"@[0] == 'f' && "expired"@[0] == 'e' && "queued"@[0]
        == 'q' && "processing"@[0] == 'p');
}

/// A job is done exactly where it is completed, is waited for exactly where it is
/// queued or in work, and is an error in any other state.
pub proof fn job_is_done_exactly_when_completed(job_id: Seq<char>, job: JsonView)
    ensures
        ({
            let state = json::field_text(job, "status"@);
            &&& job_progress(job_id, job) == Ok::<bool, ErrorView>(true) <==> state == Some(
                "completed"@,
            )
            &&& job_progress(job_id, job) == Ok::<bool, ErrorView>(false) <==> state == Some(
                "queued"@,
            ) || state == Some("processing"@)
            &&& job_progress(job_id, job) is Err <==> state != Some("completed"@) && state != Some(
                "queued"@,
            ) && state != Some("processing"@)
            &&& state == Some("failed"@) ==> (job_progress(job_id, job) matches Err(e)
                && text::starts_with(e.message, "export job "@ + job_id + " failed"@))
        }),
{
    states_differ();
    if json::field_text(job, "status"@) == Some("failed"@) {
        let e = job_progress(job_id, job)->Err_0;
        let front = "export job "@ + job_id + " failed"@;
        reveal_strlit(" failed");
        reveal_strlit(" failed: ");
        assert(e.message.subrange(0, front.len() as int) =~= front);
    }
}

/// Waiting ends with the job that was asked for, once it is completed; a job that is
/// not listed is waited for.
pub proof fn waiting_ends_with_the_job(
    response: JsonView,
    job_id: Seq<char>,
    jobs: Seq<JsonView>,
)
    requires
        json::field_items(response, "jobs"@) == Some(jobs),
    ensures
        first_job(jobs, job_id) is None ==> wait_step_of(response, job_id) == Ok::<
            Option<JsonView>,
            ErrorView,
        >(None),
        wait_step_of(response, job_id) matches Ok(Some(job)) ==> first_job(jobs, job_id) == Some(
            job,
        ) && json::field_text(job, "status"@) == Some("completed"@),
        first_job(jobs, job_id) matches Some(job) ==> (json::field_text(job, "status"@) == Some(
            "completed"@,
        ) ==> wait_step_of(response, job_id) == Ok::<Option<JsonView>, ErrorView>(Some(job))),
        first_job(jobs, job_id) matches Some(job) ==> (json::field_text(job, "status"@) == Some(
            "failed"@,
        ) || json::field_text(job, "status"@) == Some("expired"@) ==> wait_step_of(
            response,
            job_id,
        ) is Err),
{
    states_differ();
}

/// The job that is found is the first with that identifier.
pub proof fn first_job_with_the_id_counts(jobs: Seq<JsonView>, id: Seq<char>, i: int)
    requires
        0 <= i < jobs.len(),
        json::field_text(jobs[i], "job_id"@) == Some(id),
        forall|j: int|
            0 <= j < i ==> json::field_text(#[trigger] jobs[j], "job_id"@) != Some(id),
    ensures
        first_job(jobs, id) == Some(jobs[i]),
    decreases jobs.len(),
{
    if i > 0 {
        let rest = jobs.drop_first();
        assert(json::field_text(jobs[0], "job_id"@) != Some(id));
        assert(rest[i - 1] == jobs[i]);
        assert forall|j: int| 0 <= j < i - 1 implies json::field_text(#[trigger] rest[j], "job_id"@)
            != Some(id) by {
            assert(rest[j] == jobs[j + 1]);
        }
        first_job_with_the_id_counts(rest, id, i - 1);
    }
}

/// Of a failure the message is told, trimmed, unless it is blank.
pub proof fn failure_is_told_unless_blank(job: JsonView)
    ensures
        failure_of(job) == (match json::field_text(job, "failure_message"@) {
            Some(message) => if text::is_blank(message) {
                None
            } else {
                Some(text::trim(message))
            },
            None => None,
        }),
{
}

} // verus!
