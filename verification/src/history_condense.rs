//! `verdictan history condense`: a condensed text of session entries.
use vstd::prelude::*;

use crate::clock::{self, Instant};
use crate::error::{self, CliError, ErrorView};
use crate::events_tail::{self, text_member_or};
use crate::history_list_sessions::{self, session_activity};
use crate::json::{self, Json, JsonView};
use crate::query;
use crate::text;

verus! {

/// About 1.3 tokens for each word, rounded up.
pub open spec fn tokens_of(s: Seq<char>) -> int {
    let tokens = (13 * text::words(s).len() + 9) as int / 10;
    if tokens <= u32::MAX {
        tokens
    } else {
        u32::MAX as int
    }
}

pub fn estimate_tokens(text: &str) -> (r: u32)
    ensures
        r == tokens_of(text@),
{
    let words = text::words_text(text);
    assert(text::words(text@).len() == words.len());
    let tokens: u128 = (13 * (words.len() as u128) + 9) / 10;
    if tokens <= u32::MAX as u128 {
        tokens as u32
    } else {
        u32::MAX
    }
}

/// True of an entry that the text passes over.
pub open spec fn passed_over(entry: JsonView, allowed_only: bool, include_blocked: bool) -> bool {
    let verdict = events_tail::member_or(entry, "verdict"@, "unknown"@);
    ||| (allowed_only && verdict != "allowed"@)
    ||| (!include_blocked && verdict == "blocked"@)
    ||| text::is_blank(events_tail::member_or(entry, "content"@, ""@))
}

/// The line of an entry.
pub open spec fn entry_line(entry: JsonView) -> Seq<char> {
    events_tail::member_or(entry, "role"@, "unknown"@) + ": "@ + events_tail::member_or(
        entry,
        "content"@,
        ""@,
    ) + "\n"@
}

/// The text so far and the lines of the entries, up to the first that no longer
/// fits.
pub open spec fn condensed(
    entries: Seq<JsonView>,
    start: Seq<char>,
    allowed_only: bool,
    include_blocked: bool,
    max_bytes: nat,
) -> Seq<char>
    decreases entries.len(),
{
    if entries.len() == 0 {
        start
    } else if passed_over(entries[0], allowed_only, include_blocked) {
        condensed(entries.drop_first(), start, allowed_only, include_blocked, max_bytes)
    } else if text::byte_len(start) + text::byte_len(entry_line(entries[0])) > max_bytes {
        start
    } else {
        condensed(
            entries.drop_first(),
            start + entry_line(entries[0]),
            allowed_only,
            include_blocked,
            max_bytes,
        )
    }
}

/// The lines of the entries that count, within the budget of four bytes a token.
pub fn synthesize_condensed_text(
    entries: &Vec<Json>,
    allowed_only: bool,
    include_blocked: bool,
    target_max_tokens: u32,
) -> (r: String)
    ensures
        r@ == condensed(
            json::values(entries@),
            Seq::empty(),
            allowed_only,
            include_blocked,
            (4 * target_max_tokens) as nat,
        ),
{
    let max_bytes: u128 = (target_max_tokens as u128) * 4;
    let ghost all = json::values(entries@);
    let ghost goal = condensed(
        all,
        Seq::empty(),
        allowed_only,
        include_blocked,
        (4 * target_max_tokens) as nat,
    );
    let mut buf = String::new();
    let mut i: usize = 0;
    assert(all.skip(0) =~= all);
    while i < entries.len()
        invariant
            i <= entries.len(),
            all == json::values(entries@),
            max_bytes == 4 * target_max_tokens,
            goal == condensed(
                all.skip(i as int),
                buf@,
                allowed_only,
                include_blocked,
                (4 * target_max_tokens) as nat,
            ),
            goal == condensed(
                json::values(entries@),
                Seq::empty(),
                allowed_only,
                include_blocked,
                (4 * target_max_tokens) as nat,
            ),
        decreases entries.len() - i,
    {
        let entry = &entries[i];
        assert(all.skip(i as int)[0] == entry@);
        assert(all.skip(i as int).drop_first() =~= all.skip(i as int + 1));
        i = i + 1;
        let verdict = text_member_or(entry, "verdict", "unknown");
        if allowed_only && !text::same(verdict, "allowed") {
            continue ;
        }
        if !include_blocked && text::same(verdict, "blocked") {
            continue ;
        }
        let content = text_member_or(entry, "content", "");
        if text::is_blank_text(content) {
            continue ;
        }
        let mut line = text_member_or(entry, "role", "unknown").to_string();
        line.append(": ");
        line.append(content);
        line.append("\n");
        if text::byte_len_text(buf.as_str()) as u128 + text::byte_len_text(line.as_str()) as u128
            > max_bytes {
            return buf;
        }
        buf.append(line.as_str());
    }
    buf
}

/// The condensed text never exceeds its budget.
pub proof fn condensed_fits_the_budget(
    entries: Seq<JsonView>,
    start: Seq<char>,
    allowed_only: bool,
    include_blocked: bool,
    max_bytes: nat,
)
    requires
        text::byte_len(start) <= max_bytes,
    ensures
        text::byte_len(condensed(entries, start, allowed_only, include_blocked, max_bytes))
            <= max_bytes,
    decreases entries.len(),
{
    if entries.len() > 0 {
        let rest = entries.drop_first();
        let line = entry_line(entries[0]);
        if passed_over(entries[0], allowed_only, include_blocked) {
            condensed_fits_the_budget(rest, start, allowed_only, include_blocked, max_bytes);
        } else if text::byte_len(start) + text::byte_len(line) <= max_bytes {
            text::byte_len_concat(start, line);
            condensed_fits_the_budget(rest, start + line, allowed_only, include_blocked, max_bytes);
        }
    }
}

/// An entry that is passed over leaves no trace: the text is the same without it.
pub proof fn condensed_skips(
    entries: Seq<JsonView>,
    at: int,
    start: Seq<char>,
    allowed_only: bool,
    include_blocked: bool,
    max_bytes: nat,
)
    requires
        0 <= at < entries.len(),
        passed_over(entries[at], allowed_only, include_blocked),
    ensures
        condensed(entries, start, allowed_only, include_blocked, max_bytes) == condensed(
            entries.remove(at),
            start,
            allowed_only,
            include_blocked,
            max_bytes,
        ),
    decreases entries.len(),
{
    let without = entries.remove(at);
    if at == 0 {
        assert(without =~= entries.drop_first());
    } else {
        let rest = entries.drop_first();
        assert(without[0] == entries[0]);
        assert(without.drop_first() =~= rest.remove(at - 1));
        assert(rest[at - 1] == entries[at]);
        let line = entry_line(entries[0]);
        condensed_skips(rest, at - 1, start, allowed_only, include_blocked, max_bytes);
        condensed_skips(rest, at - 1, start + line, allowed_only, include_blocked, max_bytes);
    }
}

/// The list of sessions, narrowed by what is given.
pub fn build_sessions_path(
    scope: Option<&str>,
    team_id: Option<&str>,
    agent_id: Option<&str>,
) -> (r: String)
    ensures
        r@ == query::sessions_path_of(
            text::opt_ref(scope),
            text::opt_ref(team_id),
            text::opt_ref(agent_id),
            None,
        ),
{
    query::sessions_path(scope, team_id, agent_id, None)
}

/// The identifiers of the sessions of a window, in their order.
pub open spec fn ids_in_window(
    sessions: Seq<JsonView>,
    since: Option<Instant>,
    until: Option<Instant>,
) -> Seq<Seq<char>>
    decreases sessions.len(),
{
    if sessions.len() == 0 {
        Seq::empty()
    } else {
        let front = ids_in_window(sessions.drop_last(), since, until);
        let last = sessions.last();
        match json::field_text(last, "session_id"@) {
            Some(id) => if clock::in_window(history_list_sessions::activity_of(last), since, until) {
                front.push(id)
            } else {
                front
            },
            None => front,
        }
    }
}

/// The sessions of an answer; none where it lists none.
pub open spec fn sessions_of(value: JsonView) -> Seq<JsonView> {
    match json::field_items(value, "sessions"@) {
        Some(s) => s,
        None => Seq::empty(),
    }
}

/// The identifiers of the listed sessions whose activity lies in the window.
pub fn matching_session_ids_from_value(
    value: &Json,
    since: Option<Instant>,
    until: Option<Instant>,
) -> (r: Vec<String>)
    ensures
        text::texts(r@) == ids_in_window(sessions_of(value@), since, until),
{
    let mut out: Vec<String> = Vec::new();
    assert(text::texts(out@) =~= Seq::<Seq<char>>::empty());
    let sessions = match value.get_array("sessions") {
        Some(sessions) => sessions,
        None => {
            return out;
        },
    };
    let ghost all = json::values(sessions@);
    let mut i: usize = 0;
    while i < sessions.len()
        invariant
            i <= sessions.len(),
            all == json::values(sessions@),
            text::texts(out@) == ids_in_window(all.take(i as int), since, until),
        decreases sessions.len() - i,
    {
        let session = &sessions[i];
        let ghost upto = all.take(i as int + 1);
        assert(upto.drop_last() =~= all.take(i as int));
        assert(upto.last() == session@);
        i = i + 1;
        if clock::within_window(session_activity(session), since, until) {
            if let Some(id) = session.get_str("session_id") {
                let id = id.to_string();
                proof {
                    text::texts_push(out@, id);
                }
                out.push(id);
            }
        }
    }
    assert(all.take(i as int) =~= all);
    out
}

/// The sessions to condense are those of the window: every identifier is that of a
/// listed session which lies in it, and no such session with an identifier is missing.
pub proof fn condensed_sessions_lie_in_the_window(
    sessions: Seq<JsonView>,
    since: Option<Instant>,
    until: Option<Instant>,
)
    ensures
        forall|id: Seq<char>| #[trigger]
            ids_in_window(sessions, since, until).contains(id) <==> exists|m: int|
                0 <= m < sessions.len() && json::field_text(#[trigger] sessions[m], "session_id"@)
                    == Some(id) && clock::in_window(
                    history_list_sessions::activity_of(sessions[m]),
                    since,
                    until,
                ),
    decreases sessions.len(),
{
    if sessions.len() > 0 {
        let front = sessions.drop_last();
        let last = sessions.last();
        condensed_sessions_lie_in_the_window(front, since, until);
        let ids = ids_in_window(sessions, since, until);
        let rest = ids_in_window(front, since, until);
        assert forall|id: Seq<char>| #[trigger] ids.contains(id) implies exists|m: int|
            0 <= m < sessions.len() && json::field_text(#[trigger] sessions[m], "session_id"@)
                == Some(id) && clock::in_window(
                history_list_sessions::activity_of(sessions[m]),
                since,
                until,
            ) by {
            if rest.contains(id) {
                let m = choose|m: int|
                    0 <= m < front.len() && json::field_text(#[trigger] front[m], "session_id"@)
                        == Some(id) && clock::in_window(
                        history_list_sessions::activity_of(front[m]),
                        since,
                        until,
                    );
                assert(sessions[m] == front[m]);
            } else {
                let k = choose|k: int| 0 <= k < ids.len() && ids[k] == id;
                if k < rest.len() {
                    assert(rest[k] == id);
                }
                assert(sessions[sessions.len() - 1] == last);
            }
        }
        assert forall|id: Seq<char>|
            (exists|m: int|
                0 <= m < sessions.len() && json::field_text(#[trigger] sessions[m], "session_id"@)
                    == Some(id) && clock::in_window(
                    history_list_sessions::activity_of(sessions[m]),
                    since,
                    until,
                )) implies #[trigger] ids.contains(id) by {
            let m = choose|m: int|
                0 <= m < sessions.len() && json::field_text(#[trigger] sessions[m], "session_id"@)
                    == Some(id) && clock::in_window(
                    history_list_sessions::activity_of(sessions[m]),
                    since,
                    until,
                );
            if m < front.len() {
                assert(front[m] == sessions[m]);
                assert(rest.contains(id));
                let k = choose|k: int| 0 <= k < rest.len() && rest[k] == id;
                assert(ids[k] == id);
            } else {
                assert(ids[ids.len() - 1] == id);
            }
        }
    }
}

/// Which sessions to condense: the one named, else those found.
pub open spec fn chosen_sessions(found: Seq<Seq<char>>) -> Result<Seq<Seq<char>>, ErrorView> {
    if found.len() == 0 {
        Err(
            error::user_error(
                "no matching history sessions found; adjust --scope, --since, or --until filters"@,
            ),
        )
    } else {
        Ok(found)
    }
}

/// The sessions to condense, of which there must be one.
pub fn require_sessions(found: Vec<String>) -> (r: Result<Vec<String>, CliError>)
    ensures
        match r {
            Ok(v) => chosen_sessions(text::texts(found@)) == Ok::<Seq<Seq<char>>, ErrorView>(
                text::texts(v@),
            ),
            Err(e) => chosen_sessions(text::texts(found@)) == Err::<Seq<Seq<char>>, ErrorView>(e@),
        },
{
    if found.len() == 0 {
        return Err(
            CliError::user(
                "no matching history sessions found; adjust --scope, --since, or --until filters".to_string(),
            ),
        );
    }
    Ok(found)
}

/// The condensed text of all entries, or why there is none.
pub open spec fn summary_of(
    entries: Seq<JsonView>,
    allowed_only: bool,
    include_blocked: bool,
    target_max_tokens: u32,
) -> Result<Seq<char>, ErrorView> {
    if entries.len() == 0 {
        Err(error::user_error("no history entries available to condense"@))
    } else {
        let summary = condensed(
            entries,
            Seq::empty(),
            allowed_only,
            include_blocked,
            (4 * target_max_tokens) as nat,
        );
        if text::is_blank(summary) {
            Err(
                error::user_error(
                    "no eligible entries to synthesize (check --allowed-only and --include-blocked flags)"@,
                ),
            )
        } else {
            Ok(summary)
        }
    }
}

/// Condenses all fetched entries.
pub fn condense_entries(
    entries: &Vec<Json>,
    allowed_only: bool,
    include_blocked: bool,
    target_max_tokens: u32,
) -> (r: Result<String, CliError>)
    ensures
        error::viewed(r) == summary_of(
            json::values(entries@),
            allowed_only,
            include_blocked,
            target_max_tokens,
        ),
{
    if entries.len() == 0 {
        return Err(CliError::user("no history entries available to condense".to_string()));
    }
    let summary = synthesize_condensed_text(
        entries,
        allowed_only,
        include_blocked,
        target_max_tokens,
    );
    if text::is_blank_text(summary.as_str()) {
        return Err(
            CliError::user(
                "no eligible entries to synthesize (check --allowed-only and --include-blocked flags)".to_string(),
            ),
        );
    }
    Ok(summary)
}

/// The entries with those of an answer after them; an answer without a list of
/// entries adds none.
pub open spec fn gathered(entries: Seq<JsonView>, response: JsonView) -> Seq<JsonView> {
    match json::field_items(response, "entries"@) {
        Some(more) => entries + more,
        None => entries,
    }
}

/// Takes the entries of one session in.
pub fn gather_entries(entries: Vec<Json>, response: Json) -> (r: Vec<Json>)
    ensures
        json::values(r@) == gathered(json::values(entries@), response@),
{
    let mut out = entries;
    if let Some(more) = response.take_array("entries") {
        let ghost start = json::values(out@);
        let ghost all = json::values(more@);
        let mut more = more;
        out.append(&mut more);
        assert(json::values(out@) =~= start + all);
    }
    out
}

/// Where the entries of a session are read.
pub fn entries_path(session_id: &str) -> (r: String)
    ensures
        r@ == "/v1/history/sessions/"@ + session_id@ + "/entries"@,
{
    text::concat(text::concat("/v1/history/sessions/", session_id).as_str(), "/entries")
}

/// Why the entries of a session are missing from the text.
pub fn unfetched_warning(session_id: &str, failure: &CliError) -> (r: String)
    ensures
        r@ == "warning: could not fetch entries for session "@ + session_id@ + ": "@
            + failure@.message,
{
    let mut line = text::concat("warning: could not fetch entries for session ", session_id);
    line.append(": ");
    line.append(failure.to_string().as_str());
    line
}

/// What is known of a condensation: the request, and what it was made from.
#[derive(Debug)]
pub struct Condensation {
    pub strategy: String,
    pub session_ids: Vec<String>,
    pub entries_fetched: usize,
    pub token_estimate: u32,
    pub target_max_tokens: u32,
    pub allowed_only: bool,
    pub include_blocked: bool,
}

pub struct CondensationView {
    pub strategy: Seq<char>,
    pub session_ids: Seq<Seq<char>>,
    pub entries_fetched: nat,
    pub token_estimate: nat,
    pub target_max_tokens: nat,
    pub allowed_only: bool,
    pub include_blocked: bool,
}

impl View for Condensation {
    type V = CondensationView;

    open spec fn view(&self) -> CondensationView {
        CondensationView {
            strategy: self.strategy@,
            session_ids: text::texts(self.session_ids@),
            entries_fetched: self.entries_fetched as nat,
            token_estimate: self.token_estimate as nat,
            target_max_tokens: self.target_max_tokens as nat,
            allowed_only: self.allowed_only,
            include_blocked: self.include_blocked,
        }
    }
}

pub open spec fn dry_run_value(c: CondensationView) -> JsonView {
    JsonView::Object(
        seq![
            ("dry_run"@, JsonView::Bool(true)),
            ("strategy"@, JsonView::Text(c.strategy)),
            ("sessions"@, json::text_array(c.session_ids)),
            ("entries_fetched"@, json::whole(c.entries_fetched as int)),
            ("token_estimate"@, json::whole(c.token_estimate as int)),
            ("target_max_tokens"@, json::whole(c.target_max_tokens as int)),
        ],
    )
}

/// What a dry run tells, as JSON.
pub fn dry_run_info(c: &Condensation) -> (r: Json)
    ensures
        r@ == dry_run_value(c@),
{
    let list = vec![
        ("dry_run".to_string(), Json::Bool(true)),
        ("strategy".to_string(), Json::Text(c.strategy.clone())),
        ("sessions".to_string(), Json::texts(&c.session_ids)),
        ("entries_fetched".to_string(), Json::count(c.entries_fetched as u64)),
        ("token_estimate".to_string(), Json::count(c.token_estimate as u64)),
        ("target_max_tokens".to_string(), Json::count(c.target_max_tokens as u64)),
    ];
    let r = Json::Object(list);
    reveal_with_fuel(json::json_view, 3);
    assert(r@->Object_0 =~= dry_run_value(c@)->Object_0);
    r
}

/// What a dry run tells, as text.
pub fn dry_run_lines(c: &Condensation) -> (r: Vec<String>)
    ensures
        text::texts(r@) == seq![
            "dry-run: strategy="@ + c@.strategy,
            "  sessions:         "@ + text::decimal(c@.session_ids.len()),
            "  entries_fetched:  "@ + text::decimal(c@.entries_fetched),
            "  token_estimate:   "@ + text::decimal(c@.token_estimate),
        ],
{
    let lines = vec![
        text::concat("dry-run: strategy=", c.strategy.as_str()),
        text::concat(
            "  sessions:         ",
            text::number_text(c.session_ids.len() as u64).as_str(),
        ),
        text::concat(
            "  entries_fetched:  ",
            text::number_text(c.entries_fetched as u64).as_str(),
        ),
        text::concat(
            "  token_estimate:   ",
            text::number_text(c.token_estimate as u64).as_str(),
        ),
    ];
    assert(text::texts(lines@) =~= seq![
        "dry-run: strategy="@ + c@.strategy,
        "  sessions:         "@ + text::decimal(c@.session_ids.len()),
        "  entries_fetched:  "@ + text::decimal(c@.entries_fetched),
        "  token_estimate:   "@ + text::decimal(c@.token_estimate),
    ]);
    lines
}

pub open spec fn source_value(c: CondensationView) -> JsonView {
    JsonView::Object(
        seq![
            ("session_ids"@, json::text_array(c.session_ids)),
            ("entries_fetched"@, json::whole(c.entries_fetched as int)),
        ],
    )
}

pub open spec fn condensation_value(c: CondensationView) -> JsonView {
    JsonView::Object(
        seq![
            ("strategy"@, JsonView::Text(c.strategy)),
            ("target_max_tokens"@, json::whole(c.target_max_tokens as int)),
            ("token_estimate"@, json::whole(c.token_estimate as int)),
            ("allowed_only"@, JsonView::Bool(c.allowed_only)),
            ("include_blocked"@, JsonView::Bool(c.include_blocked)),
        ],
    )
}

pub open spec fn unit_value(summary: Seq<char>) -> JsonView {
    JsonView::Object(
        seq![
            ("unit_id"@, JsonView::Text("summary"@)),
            ("content"@, JsonView::Text(summary)),
            ("content_mime"@, JsonView::Text("text/plain"@)),
            ("labels"@, json::text_array(seq!["condensed_history"@, "history"@])),
        ],
    )
}

/// The artifact that holds a condensed text, as JSON.
pub open spec fn artifact_value(c: CondensationView, summary: Seq<char>) -> JsonView {
    JsonView::Object(
        seq![
            ("load_kind"@, JsonView::Text("condense_artifact"@)),
            ("strategy"@, JsonView::Text(c.strategy)),
            ("source"@, source_value(c)),
            ("condensation"@, condensation_value(c)),
            ("units"@, JsonView::Array(seq![unit_value(summary)])),
        ],
    )
}

fn source_json(c: &Condensation) -> (r: Json)
    ensures
        r@ == source_value(c@),
{
    let list = vec![
        ("session_ids".to_string(), Json::texts(&c.session_ids)),
        ("entries_fetched".to_string(), Json::count(c.entries_fetched as u64)),
    ];
    let r = Json::Object(list);
    assert(r@->Object_0 =~= source_value(c@)->Object_0);
    r
}

fn condensation_json(c: &Condensation) -> (r: Json)
    ensures
        r@ == condensation_value(c@),
{
    let list = vec![
        ("strategy".to_string(), Json::Text(c.strategy.clone())),
        ("target_max_tokens".to_string(), Json::count(c.target_max_tokens as u64)),
        ("token_estimate".to_string(), Json::count(c.token_estimate as u64)),
        ("allowed_only".to_string(), Json::Bool(c.allowed_only)),
        ("include_blocked".to_string(), Json::Bool(c.include_blocked)),
    ];
    let r = Json::Object(list);
    reveal_with_fuel(json::json_view, 3);
    assert(r@->Object_0 =~= condensation_value(c@)->Object_0);
    r
}

fn unit_json(summary: &str) -> (r: Json)
    ensures
        r@ == unit_value(summary@),
{
    let labels = vec!["condensed_history".to_string(), "history".to_string()];
    assert(text::texts(labels@) =~= seq!["condensed_history"@, "history"@]);
    let list = vec![
        ("unit_id".to_string(), Json::Text("summary".to_string())),
        ("content".to_string(), Json::Text(summary.to_string())),
        ("content_mime".to_string(), Json::Text("text/plain".to_string())),
        ("labels".to_string(), Json::texts(&labels)),
    ];
    let r = Json::Object(list);
    reveal_with_fuel(json::json_view, 3);
    assert(r@->Object_0 =~= unit_value(summary@)->Object_0);
    r
}

/// The artifact that holds a condensed text.
pub fn artifact(c: &Condensation, summary: &str) -> (r: Json)
    ensures
        r@ == artifact_value(c@, summary@),
{
    let units = Json::Array(vec![unit_json(summary)]);
    assert(units@->Array_0 =~= seq![unit_value(summary@)]);
    let list = vec![
        ("load_kind".to_string(), Json::Text("condense_artifact".to_string())),
        ("strategy".to_string(), Json::Text(c.strategy.clone())),
        ("source".to_string(), source_json(c)),
        ("condensation".to_string(), condensation_json(c)),
        ("units".to_string(), units),
    ];
    let r = Json::Object(list);
    reveal_with_fuel(json::json_view, 3);
    assert(r@->Object_0 =~= artifact_value(c@, summary@)->Object_0);
    r
}

/// What the operator reads once the artifact is written to a file.
pub fn artifact_lines(c: &Condensation, path: &str) -> (r: Vec<String>)
    ensures
        text::texts(r@) == seq![
            "artifact: "@ + path@,
            "strategy: "@ + c@.strategy,
            "sessions: "@ + text::decimal(c@.session_ids.len()),
            "tokens:   ~"@ + text::decimal(c@.token_estimate),
        ],
{
    let lines = vec![
        text::concat("artifact: ", path),
        text::concat("strategy: ", c.strategy.as_str()),
        text::concat("sessions: ", text::number_text(c.session_ids.len() as u64).as_str()),
        text::concat("tokens:   ~", text::number_text(c.token_estimate as u64).as_str()),
    ];
    assert(text::texts(lines@) =~= seq![
        "artifact: "@ + path@,
        "strategy: "@ + c@.strategy,
        "sessions: "@ + text::decimal(c@.session_ids.len()),
        "tokens:   ~"@ + text::decimal(c@.token_estimate),
    ]);
    lines
}

/// True of an entry that may stand in the text: its verdict fits, and it says
/// something.
pub open spec fn eligible(entry: JsonView, allowed_only: bool, include_blocked: bool) -> bool {
    &&& allowed_only ==> json::field_text(entry, "verdict"@) == Some("allowed"@)
    &&& !include_blocked ==> json::field_text(entry, "verdict"@) != Some("blocked"@)
    &&& json::field_text(entry, "content"@) matches Some(content) && exists|i: int|
        0 <= i < content.len() && !text::is_space(#[trigger] content[i])
}

/// An entry is passed over exactly where it is not eligible.
proof fn passed_over_means_not_eligible(
    entry: JsonView,
    allowed_only: bool,
    include_blocked: bool,
)
    ensures
        passed_over(entry, allowed_only, include_blocked) <==> !eligible(
            entry,
            allowed_only,
            include_blocked,
        ),
{
    reveal_strlit("allowed");
    reveal_strlit("blocked");
    reveal_strlit("unknown");
    reveal_strlit("");
    assert("unknown"@[0] == 'u' && "allowed"@[0] == 'a' && "blocked"@[0] == 'b');
    text::blank_means_all_space(events_tail::member_or(entry, "content"@, ""@));
}

/// The lines of some entries, one after the other.
pub open spec fn lines_of(entries: Seq<JsonView>) -> Seq<char>
    decreases entries.len(),
{
    if entries.len() == 0 {
        Seq::empty()
    } else {
        lines_of(entries.drop_last()) + text::or_else(
            json::field_text(entries.last(), "role"@),
            "unknown"@,
        ) + ": "@ + text::or_else(json::field_text(entries.last(), "content"@), Seq::empty())
            + "\n"@
    }
}

proof fn lines_of_first(first: JsonView, rest: Seq<JsonView>)
    ensures
        lines_of(seq![first] + rest) == entry_line(first) + lines_of(rest),
    decreases rest.len(),
{
    let all = seq![first] + rest;
    reveal_strlit("");
    assert(""@ =~= Seq::<char>::empty());
    if rest.len() == 0 {
        assert(all.drop_last() =~= Seq::empty());
        assert(all.last() == first);
        assert(lines_of(all.drop_last()) =~= Seq::empty());
        assert(lines_of(rest) =~= Seq::empty());
        assert(lines_of(all) =~= entry_line(first));
        assert(lines_of(all) =~= entry_line(first) + lines_of(rest));
    } else {
        assert(all.drop_last() =~= seq![first] + rest.drop_last());
        lines_of_first(first, rest.drop_last());
        assert(all.last() == rest.last());
        let front = lines_of(rest.drop_last());
        assert(lines_of(rest) =~= front + entry_line(rest.last()));
        assert(lines_of(all) =~= (entry_line(first) + front) + entry_line(rest.last()));
        assert(lines_of(all) =~= entry_line(first) + lines_of(rest));
    }
}

/// The condensed text is made of the lines of eligible entries alone, each in its
/// turn, as many as the budget holds: either all of them are there, or the next one
/// no longer fits.
pub proof fn condensed_is_what_fits_of_the_eligible(
    entries: Seq<JsonView>,
    start: Seq<char>,
    allowed_only: bool,
    include_blocked: bool,
    max_bytes: nat,
) -> (n: int)
    requires
        text::byte_len(start) <= max_bytes,
    ensures
        ({
            let kept = entries.filter(|e: JsonView| eligible(e, allowed_only, include_blocked));
            let made = condensed(entries, start, allowed_only, include_blocked, max_bytes);
            &&& 0 <= n <= kept.len()
            &&& made == start + lines_of(kept.take(n))
            &&& text::byte_len(made) <= max_bytes
            &&& n < kept.len() ==> text::byte_len(start + lines_of(kept.take(n + 1))) > max_bytes
        }),
    decreases entries.len(),
{
    let fits = |e: JsonView| eligible(e, allowed_only, include_blocked);
    let kept = entries.filter(fits);
    let made = condensed(entries, start, allowed_only, include_blocked, max_bytes);
    reveal(Seq::filter);
    if entries.len() == 0 {
        assert(kept.take(0) =~= Seq::empty());
        assert(made =~= start + lines_of(kept.take(0)));
        0
    } else {
        let first = entries[0];
        let rest = entries.drop_first();
        let later = rest.filter(fits);
        assert(entries =~= seq![first] + rest);
        filter_first(first, rest, fits);
        passed_over_means_not_eligible(first, allowed_only, include_blocked);
        if !fits(first) {
            condensed_is_what_fits_of_the_eligible(
                rest,
                start,
                allowed_only,
                include_blocked,
                max_bytes,
            )
        } else {
            let line = entry_line(first);
            text::byte_len_concat(start, line);
            assert(kept =~= seq![first] + later);
            assert(kept.take(0) =~= Seq::empty());
            assert(kept.take(1) =~= seq![first] + Seq::empty());
            lines_of_first(first, Seq::empty());
            if text::byte_len(start) + text::byte_len(line) > max_bytes {
                assert(made =~= start + lines_of(kept.take(0)));
                assert(start + lines_of(kept.take(1)) =~= start + line);
                0
            } else {
                let n = condensed_is_what_fits_of_the_eligible(
                    rest,
                    start + line,
                    allowed_only,
                    include_blocked,
                    max_bytes,
                );
                assert(kept.take(n + 1) =~= seq![first] + later.take(n));
                lines_of_first(first, later.take(n));
                assert(made =~= start + lines_of(kept.take(n + 1)));
                if n < later.len() {
                    assert(kept.take(n + 2) =~= seq![first] + later.take(n + 1));
                    lines_of_first(first, later.take(n + 1));
                    assert(start + lines_of(kept.take(n + 2)) =~= start + line + lines_of(
                        later.take(n + 1),
                    ));
                }
                n + 1
            }
        }
    }
}

proof fn filter_first(first: JsonView, rest: Seq<JsonView>, keep: spec_fn(JsonView) -> bool)
    ensures
        (seq![first] + rest).filter(keep) == (if keep(first) {
            seq![first] + rest.filter(keep)
        } else {
            rest.filter(keep)
        }),
    decreases rest.len(),
{
    let all = seq![first] + rest;
    reveal(Seq::filter);
    if rest.len() == 0 {
        assert(all.drop_last() =~= Seq::empty());
        assert(all.drop_last().filter(keep) =~= Seq::empty());
        assert(all.last() == first);
        assert(rest.filter(keep) =~= Seq::empty());
        if keep(first) {
            assert(all.filter(keep) =~= seq![first] + rest.filter(keep));
        }
    } else {
        assert(all.drop_last() =~= seq![first] + rest.drop_last());
        assert(all.last() == rest.last());
        filter_first(first, rest.drop_last(), keep);
        assert(all.filter(keep) =~= (if keep(first) {
            seq![first] + rest.filter(keep)
        } else {
            rest.filter(keep)
        }));
    }
}

/// With `allowed_only` the text is that of the allowed entries alone: any other
/// verdict, or none, leaves no trace, and whether blocked entries were asked for does
/// not matter.
pub proof fn only_allowed_entries_are_condensed(
    entries: Seq<JsonView>,
    start: Seq<char>,
    include_blocked: bool,
    max_bytes: nat,
)
    ensures
        condensed(entries, start, true, include_blocked, max_bytes) == condensed(
            entries.filter(|e: JsonView| json::field_text(e, "verdict"@) == Some("allowed"@)),
            start,
            false,
            true,
            max_bytes,
        ),
    decreases entries.len(),
{
    let allowed = |e: JsonView| json::field_text(e, "verdict"@) == Some("allowed"@);
    let kept = entries.filter(allowed);
    reveal(Seq::filter);
    if entries.len() > 0 {
        let first = entries[0];
        let rest = entries.drop_first();
        assert(entries =~= seq![first] + rest);
        filter_first(first, rest, allowed);
        passed_over_means_not_eligible(first, true, include_blocked);
        passed_over_means_not_eligible(first, false, true);
        reveal_strlit("allowed");
        reveal_strlit("blocked");
        assert("allowed"@[0] == 'a' && "blocked"@[0] == 'b');
        only_allowed_entries_are_condensed(rest, start, include_blocked, max_bytes);
        only_allowed_entries_are_condensed(
            rest,
            start + entry_line(first),
            include_blocked,
            max_bytes,
        );
        if allowed(first) {
            assert(kept[0] == first);
            assert(kept.drop_first() =~= rest.filter(allowed));
        }
    } else {
        assert(kept =~= Seq::empty());
    }
}

} // verus!
