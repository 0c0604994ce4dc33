//! `verdictan history export`: all entries of a session, page by page, and their
//! text forms.
use vstd::prelude::*;

use crate::error::{self, CliError, ErrorView};
use crate::events_tail;
use crate::json::{self, Json, JsonView};
use crate::percent;
use crate::text;

verus! {

/// Entries in one page.
pub const HISTORY_EXPORT_PAGE_SIZE: usize = 500;

#[derive(Clone, Copy, Debug, PartialEq, Eq, Structural)]
pub enum ExportFormat {
    Markdown,
    Json,
    Txt,
}

// ---------------------------------------------------------------------------
// Session
// ---------------------------------------------------------------------------

pub open spec fn session_of(response: JsonView) -> Result<JsonView, ErrorView> {
    match json::field(response, "session"@) {
        Some(session) => if session is Object {
            Ok(session)
        } else {
            Err(malformed_session())
        },
        None => Err(malformed_session()),
    }
}

pub open spec fn malformed_session() -> ErrorView {
    error::internal_error("history session response is malformed: expected a session object"@)
}

/// The session in the answer.
pub fn require_session(response: &Json) -> (r: Result<&Json, CliError>)
    ensures
        match r {
            Ok(session) => session_of(response@) == Ok::<JsonView, ErrorView>(session@),
            Err(e) => session_of(response@) == Err::<JsonView, ErrorView>(e@),
        },
{
    if let Some(session) = response.get("session") {
        if session.is_object() {
            return Ok(session);
        }
    }
    Err(
        CliError::internal(
            "history session response is malformed: expected a session object".to_string(),
        ),
    )
}

pub open spec fn entry_count_of(session: JsonView) -> Result<nat, ErrorView> {
    match json::field_integer(session, "entry_count"@) {
        Some(n) => if 0 <= n <= usize::MAX {
            Ok(n as nat)
        } else {
            Err(malformed_count())
        },
        None => Err(malformed_count()),
    }
}

pub open spec fn malformed_count() -> ErrorView {
    error::internal_error(
        "history session response is malformed: expected a non-negative entry_count"@,
    )
}

/// How many entries the session reports.
pub fn require_entry_count(session: &Json) -> (r: Result<usize, CliError>)
    ensures
        match r {
            Ok(n) => entry_count_of(session@) == Ok::<nat, ErrorView>(n as nat),
            Err(e) => entry_count_of(session@) == Err::<nat, ErrorView>(e@),
        },
{
    if let Some(n) = session.get_i64("entry_count") {
        if n >= 0 && n as u64 <= usize::MAX as u64 {
            return Ok(n as usize);
        }
    }
    Err(
        CliError::internal(
            "history session response is malformed: expected a non-negative entry_count".to_string(),
        ),
    )
}

pub open spec fn session_path_of(session_id: Seq<char>) -> Seq<char> {
    "/v1/history/sessions/"@ + percent::percent_encoded(session_id)
}

/// Where the session is read.
pub fn session_path(session_id: &str) -> (r: String)
    ensures
        r@ == session_path_of(session_id@),
{
    let mut path = "/v1/history/sessions/".to_string();
    let encoded = percent::encode(session_id);
    path.append(encoded.as_str());
    path
}

pub open spec fn page_path_of(session_id: Seq<char>, offset: nat) -> Seq<char> {
    session_path_of(session_id) + "/entries?limit="@ + text::decimal(
        HISTORY_EXPORT_PAGE_SIZE as nat,
    ) + "&offset="@ + text::decimal(offset)
}

/// Where a page of entries is read.
pub fn page_path(session_id: &str, offset: usize) -> (r: String)
    ensures
        r@ == page_path_of(session_id@, offset as nat),
{
    let mut path = session_path(session_id);
    path.append("/entries?limit=");
    let size = text::number_text(HISTORY_EXPORT_PAGE_SIZE as u64);
    path.append(size.as_str());
    path.append("&offset=");
    let from = text::number_text(offset as u64);
    path.append(from.as_str());
    path
}

// ---------------------------------------------------------------------------
// Pages
// ---------------------------------------------------------------------------

/// What has been read so far: the entries, their identifiers and the index of the
/// last one.
pub struct ProgressView {
    pub entries: Seq<JsonView>,
    pub seen: Seq<Seq<char>>,
    pub last: Option<int>,
}

/// Start of the messages about one entry.
pub open spec fn at_entry(offset: nat, position: nat) -> Seq<char> {
    "history entries response at offset "@ + text::decimal(offset) + " is malformed: entry "@
        + text::decimal(position)
}

pub open spec fn entry_id_of(entry: JsonView) -> Option<Seq<char>> {
    match json::field_text(entry, "entry_id"@) {
        Some(s) => text::non_blank(s),
        None => None,
    }
}

pub open spec fn request_index_of(entry: JsonView) -> Option<int> {
    json::field_integer(entry, "request_index"@)
}

/// Takes in one entry, or says why it is refused.
pub open spec fn take_entry(
    progress: ProgressView,
    entry: JsonView,
    offset: nat,
    position: nat,
) -> (ProgressView, Result<(), ErrorView>) {
    if !(entry is Object) {
        (progress, Err(error::internal_error(at_entry(offset, position) + " is not an object"@)))
    } else if entry_id_of(entry) is None {
        (progress, Err(error::internal_error(at_entry(offset, position) + " has no entry_id"@)))
    } else if request_index_of(entry) is None {
        (
            progress,
            Err(
                error::internal_error(
                    at_entry(offset, position) + " has no integer request_index"@,
                ),
            ),
        )
    } else {
        let id = entry_id_of(entry)->0;
        let index = request_index_of(entry)->0;
        if progress.seen.contains(id) {
            (
                progress,
                Err(
                    error::internal_error(
                        "history entries pagination repeated entry_id "@ + id
                            + "; refusing an incomplete export"@,
                    ),
                ),
            )
        } else {
            let marked = ProgressView { seen: progress.seen.push(id), ..progress };
            if progress.last is Some && index <= progress.last->0 {
                (
                    marked,
                    Err(
                        error::internal_error(
                            "history entries pagination is not in strictly increasing request_index order at entry_id "@
                                + id + "; refusing an incomplete export"@,
                        ),
                    ),
                )
            } else {
                (
                    ProgressView {
                        entries: progress.entries.push(entry),
                        last: Some(index),
                        ..marked
                    },
                    Ok(()),
                )
            }
        }
    }
}

/// Takes in the entries of a page, up to the first that is refused.
pub open spec fn take_page(
    progress: ProgressView,
    page: Seq<JsonView>,
    offset: nat,
    position: nat,
) -> (ProgressView, Result<(), ErrorView>)
    decreases page.len(),
{
    if page.len() == 0 {
        (progress, Ok(()))
    } else {
        let (next, outcome) = take_entry(progress, page[0], offset, position);
        match outcome {
            Err(e) => (next, Err(e)),
            Ok(_) => take_page(next, page.drop_first(), offset, position + 1),
        }
    }
}

fn entry_error(offset: usize, position: usize, what: &str) -> (r: CliError)
    ensures
        r@ == error::internal_error(at_entry(offset as nat, position as nat) + what@),
{
    let mut message = "history entries response at offset ".to_string();
    let from = text::number_text(offset as u64);
    message.append(from.as_str());
    message.append(" is malformed: entry ");
    let at = text::number_text(position as u64);
    message.append(at.as_str());
    message.append(what);
    CliError::internal(message)
}

fn is_listed(seen: &Vec<String>, id: &str) -> (r: bool)
    ensures
        r == text::texts(seen@).contains(id@),
{
    let mut i: usize = 0;
    while i < seen.len()
        invariant
            i <= seen.len(),
            forall|k: int| 0 <= k < i ==> (#[trigger] seen@[k])@ != id@,
        decreases seen.len() - i,
    {
        if text::same(seen[i].as_str(), id) {
            assert(text::texts(seen@)[i as int] == id@);
            return true;
        }
        i = i + 1;
    }
    assert forall|k: int| 0 <= k < text::texts(seen@).len() implies text::texts(seen@)[k] != id@ by {
        assert(seen@[k]@ != id@);
    }
    false
}

/// What the three parts of the progress hold.
pub open spec fn progress_view(
    entries: Seq<Json>,
    seen: Seq<String>,
    last: Option<i64>,
) -> ProgressView {
    ProgressView {
        entries: json::values(entries),
        seen: text::texts(seen),
        last: json::opt_int(last),
    }
}

/// Takes in a page. Identifiers must not repeat and indexes must rise, over all
/// pages; the first entry that breaks this refuses the export.
pub fn append_validated_page(
    entries: &mut Vec<Json>,
    seen_entry_ids: &mut Vec<String>,
    last_request_index: &mut Option<i64>,
    page: Vec<Json>,
    offset: usize,
) -> (r: Result<(), CliError>)
    ensures
        take_page(
            progress_view(old(entries)@, old(seen_entry_ids)@, *old(last_request_index)),
            json::values(page@),
            offset as nat,
            0,
        ) == (
            progress_view(final(entries)@, final(seen_entry_ids)@, *final(last_request_index)),
            error::done(r),
        ),
{
    let ghost start = progress_view(entries@, seen_entry_ids@, *last_request_index);
    let ghost all = json::values(page@);
    let ghost goal = take_page(start, all, offset as nat, 0);
    let mut position: usize = 0;
    let count = page.len();
    assert(all.skip(0) =~= all);
    for entry in iter: page
        invariant
            all == json::values(iter.seq()),
            all == json::values(page@),
            position == iter.index(),
            iter.seq().len() == count,
            start == progress_view(
                old(entries)@,
                old(seen_entry_ids)@,
                *old(last_request_index),
            ),
            goal == take_page(start, all, offset as nat, 0),
            goal == take_page(
                progress_view(entries@, seen_entry_ids@, *last_request_index),
                all.skip(position as int),
                offset as nat,
                position as nat,
            ),
    {
        let ghost view = entry@;
        let ghost now = progress_view(entries@, seen_entry_ids@, *last_request_index);
        assert(all.skip(position as int)[0] == view);
        assert(all.skip(position as int).drop_first() =~= all.skip(position as int + 1));
        if !entry.is_object() {
            return Err(entry_error(offset, position, " is not an object"));
        }
        let entry_id = match entry.get_str("entry_id") {
            Some(s) => text::non_blank_text(s),
            None => None,
        };
        let entry_id = match entry_id {
            Some(id) => id,
            None => {
                return Err(entry_error(offset, position, " has no entry_id"));
            },
        };
        let request_index = match entry.get_i64("request_index") {
            Some(n) => n,
            None => {
                return Err(entry_error(offset, position, " has no integer request_index"));
            },
        };
        if is_listed(seen_entry_ids, entry_id.as_str()) {
            let mut message = "history entries pagination repeated entry_id ".to_string();
            message.append(entry_id.as_str());
            message.append("; refusing an incomplete export");
            return Err(CliError::internal(message));
        }
        proof {
            text::texts_push(seen_entry_ids@, entry_id);
        }
        seen_entry_ids.push(entry_id.clone());
        assert(text::texts(seen_entry_ids@) =~= now.seen.push(entry_id@));
        if let Some(previous) = *last_request_index {
            if request_index <= previous {
                let mut message = "history entries pagination is not in strictly increasing request_index order at entry_id ".to_string();
                message.append(entry_id.as_str());
                message.append("; refusing an incomplete export");
                return Err(CliError::internal(message));
            }
        }
        *last_request_index = Some(request_index);
        let ghost before = entries@;
        entries.push(entry);
        assert(json::values(entries@) =~= json::values(before).push(view));
        position = position + 1;
    }
    assert(all.skip(position as int) =~= Seq::<JsonView>::empty());
    Ok(())
}

/// What a complete and orderly export is: every entry has its identifier, no two
/// the same, and the indexes rise.
pub open spec fn orderly(progress: ProgressView) -> bool {
    &&& progress.seen.len() == progress.entries.len()
    &&& progress.seen.no_duplicates()
    &&& forall|i: int|
        0 <= i < progress.entries.len() ==> entry_id_of(#[trigger] progress.entries[i]) == Some(
            progress.seen[i],
        ) && request_index_of(progress.entries[i]) is Some
    &&& forall|i: int, j: int|
        0 <= i < j < progress.entries.len() ==> request_index_of(#[trigger] progress.entries[i])->0
            < request_index_of(#[trigger] progress.entries[j])->0
    &&& if progress.entries.len() == 0 {
        progress.last is None
    } else {
        progress.last == request_index_of(progress.entries.last())
    }
}

/// Pages that are taken in keep the export orderly, and every entry of theirs is
/// in it, in order.
pub proof fn pages_stay_orderly(
    progress: ProgressView,
    page: Seq<JsonView>,
    offset: nat,
    position: nat,
)
    requires
        orderly(progress),
        take_page(progress, page, offset, position).1 is Ok,
    ensures
        orderly(take_page(progress, page, offset, position).0),
        take_page(progress, page, offset, position).0.entries == progress.entries + page,
    decreases page.len(),
{
    if page.len() == 0 {
        assert(progress.entries + page =~= progress.entries);
    } else {
        let (next, outcome) = take_entry(progress, page[0], offset, position);
        let id = entry_id_of(page[0])->0;
        let n = progress.entries.len() as int;
        assert(next.entries =~= progress.entries.push(page[0]));
        assert(next.seen =~= progress.seen.push(id));
        assert(orderly(next)) by {
            assert(next.seen.no_duplicates()) by {
                assert forall|i: int, j: int|
                    0 <= i < next.seen.len() && 0 <= j < next.seen.len() && i != j implies next.seen[i]
                    != next.seen[j] by {
                    if i < n && j < n {
                        assert(progress.seen[i] != progress.seen[j]);
                    } else if i < n {
                        assert(progress.seen.contains(progress.seen[i]));
                    } else {
                        assert(progress.seen.contains(progress.seen[j]));
                    }
                }
            }
            assert forall|i: int| 0 <= i < next.entries.len() implies entry_id_of(
                #[trigger] next.entries[i],
            ) == Some(next.seen[i]) && request_index_of(next.entries[i]) is Some by {
                if i < n {
                    assert(next.entries[i] == progress.entries[i]);
                }
            }
            assert forall|i: int, j: int| 0 <= i < j < next.entries.len() implies request_index_of(
                #[trigger] next.entries[i],
            )->0 < request_index_of(#[trigger] next.entries[j])->0 by {
                assert(next.entries[i] == progress.entries[i]);
                if j < n {
                    assert(next.entries[j] == progress.entries[j]);
                } else {
                    let last = progress.entries[n - 1];
                    assert(request_index_of(last)->0 < request_index_of(page[0])->0);
                    if i < n - 1 {
                        assert(request_index_of(progress.entries[i])->0 < request_index_of(
                            progress.entries[n - 1],
                        )->0);
                    }
                }
            }
        }
        pages_stay_orderly(next, page.drop_first(), offset, position + 1);
        assert(next.entries + page.drop_first() =~= progress.entries + page);
    }
}

/// All entries read so far, and where the next page starts.
#[derive(Debug)]
pub struct ExportProgress {
    pub entries: Vec<Json>,
    pub seen_entry_ids: Vec<String>,
    pub last_request_index: Option<i64>,
    pub offset: usize,
}

impl ExportProgress {
    /// Nothing read yet.
    pub fn new() -> (r: ExportProgress)
        ensures
            r.view_progress() == (ProgressView {
                entries: Seq::empty(),
                seen: Seq::empty(),
                last: None,
            }),
            orderly(r.view_progress()),
            r.offset == 0,
    {
        let r = ExportProgress {
            entries: Vec::new(),
            seen_entry_ids: Vec::new(),
            last_request_index: None,
            offset: 0,
        };
        assert(json::values(r.entries@) =~= Seq::<JsonView>::empty());
        assert(text::texts(r.seen_entry_ids@) =~= Seq::<Seq<char>>::empty());
        r
    }

    pub open spec fn view_progress(&self) -> ProgressView {
        progress_view(self.entries@, self.seen_entry_ids@, self.last_request_index)
    }
}

pub open spec fn page_missing(offset: nat) -> ErrorView {
    error::internal_error(
        "history entries response at offset "@ + text::decimal(offset)
            + " is malformed: expected an entries array"@,
    )
}

pub open spec fn page_too_long(offset: nat, count: nat) -> ErrorView {
    error::internal_error(
        "history entries response at offset "@ + text::decimal(offset) + " is malformed: returned "@
            + text::decimal(count) + " entries for a "@ + text::decimal(
            HISTORY_EXPORT_PAGE_SIZE as nat,
        ) + "-entry page"@,
    )
}

pub open spec fn ended_early(count: nat, expected: nat) -> ErrorView {
    error::internal_error(
        "history entries pagination ended after "@ + text::decimal(count)
            + " entries, but the session reports "@ + text::decimal(expected)
            + "; refusing an incomplete export"@,
    )
}

/// What one answer does to the export: the entries so far, where the next page
/// starts, and whether the export is complete.
pub open spec fn accepted_page(
    progress: ProgressView,
    offset: nat,
    response: JsonView,
    expected: nat,
) -> Result<(ProgressView, nat, bool), ErrorView> {
    match json::field_items(response, "entries"@) {
        None => Err(page_missing(offset)),
        Some(page) => if page.len() > HISTORY_EXPORT_PAGE_SIZE {
            Err(page_too_long(offset, page.len()))
        } else {
            let (next, outcome) = take_page(progress, page, offset, 0);
            match outcome {
                Err(e) => Err(e),
                Ok(_) => if page.len() < HISTORY_EXPORT_PAGE_SIZE {
                    if next.entries.len() < expected {
                        Err(ended_early(next.entries.len(), expected))
                    } else {
                        Ok((next, offset, true))
                    }
                } else if offset + page.len() > usize::MAX {
                    Err(
                        error::internal_error("history entries pagination offset overflowed"@),
                    )
                } else {
                    Ok((next, offset + page.len(), false))
                },
            }
        },
    }
}

/// Takes in one answer of the paging. The result tells whether the export is
/// complete; until then the next page starts at the offset of the progress.
pub fn accept_page(progress: ExportProgress, response: Json, expected_entry_count: usize) -> (r:
    Result<(ExportProgress, bool), CliError>)
    ensures
        match r {
            Ok((next, complete)) => accepted_page(
                progress.view_progress(),
                progress.offset as nat,
                response@,
                expected_entry_count as nat,
            ) == Ok::<(ProgressView, nat, bool), ErrorView>(
                (next.view_progress(), next.offset as nat, complete),
            ),
            Err(e) => accepted_page(
                progress.view_progress(),
                progress.offset as nat,
                response@,
                expected_entry_count as nat,
            ) == Err::<(ProgressView, nat, bool), ErrorView>(e@),
        },
{
    let offset = progress.offset;
    let page = match response.take_array("entries") {
        Some(page) => page,
        None => {
            let mut message = "history entries response at offset ".to_string();
            let from = text::number_text(offset as u64);
            message.append(from.as_str());
            message.append(" is malformed: expected an entries array");
            return Err(CliError::internal(message));
        },
    };
    let page_len = page.len();
    if page_len > HISTORY_EXPORT_PAGE_SIZE {
        let mut message = "history entries response at offset ".to_string();
        let from = text::number_text(offset as u64);
        message.append(from.as_str());
        message.append(" is malformed: returned ");
        let count = text::number_text(page_len as u64);
        message.append(count.as_str());
        message.append(" entries for a ");
        let size = text::number_text(HISTORY_EXPORT_PAGE_SIZE as u64);
        message.append(size.as_str());
        message.append("-entry page");
        return Err(CliError::internal(message));
    }
    let mut entries = progress.entries;
    let mut seen_entry_ids = progress.seen_entry_ids;
    let mut last_request_index = progress.last_request_index;
    append_validated_page(
        &mut entries,
        &mut seen_entry_ids,
        &mut last_request_index,
        page,
        offset,
    )?;
    if page_len < HISTORY_EXPORT_PAGE_SIZE {
        if entries.len() < expected_entry_count {
            let mut message = "history entries pagination ended after ".to_string();
            let count = text::number_text(entries.len() as u64);
            message.append(count.as_str());
            message.append(" entries, but the session reports ");
            let expected = text::number_text(expected_entry_count as u64);
            message.append(expected.as_str());
            message.append("; refusing an incomplete export");
            return Err(CliError::internal(message));
        }
        return Ok((ExportProgress { entries, seen_entry_ids, last_request_index, offset }, true));
    }
    match offset.checked_add(page_len) {
        Some(offset) => Ok(
            (ExportProgress { entries, seen_entry_ids, last_request_index, offset }, false),
        ),
        None => Err(
            CliError::internal("history entries pagination offset overflowed".to_string()),
        ),
    }
}

/// An export that completes is whole: it stays orderly, and it holds at least as
/// many entries as the session reports.
pub proof fn complete_export_is_whole(
    progress: ProgressView,
    offset: nat,
    response: JsonView,
    expected: nat,
)
    requires
        orderly(progress),
        accepted_page(progress, offset, response, expected) is Ok,
    ensures
        ({
            let (next, from, complete) = accepted_page(progress, offset, response, expected)->Ok_0;
            &&& orderly(next)
            &&& complete ==> next.entries.len() >= expected
            &&& !complete ==> from == offset + HISTORY_EXPORT_PAGE_SIZE
        }),
{
    let page = json::field_items(response, "entries"@)->0;
    pages_stay_orderly(progress, page, offset, 0);
}

// ---------------------------------------------------------------------------
// Text forms
// ---------------------------------------------------------------------------

/// The last of some values, where there is one.
pub open spec fn last_of(v: Option<Seq<JsonView>>) -> Option<JsonView> {
    match v {
        Some(s) => if s.len() > 0 {
            Some(s.last())
        } else {
            None
        },
        None => None,
    }
}

/// The first of some values, where there is one.
pub open spec fn first_of(v: Option<Seq<JsonView>>) -> Option<JsonView> {
    match v {
        Some(s) => if s.len() > 0 {
            Some(s[0])
        } else {
            None
        },
        None => None,
    }
}

/// A member of an optional value.
pub open spec fn below(v: Option<JsonView>, key: Seq<char>) -> Option<JsonView> {
    match v {
        Some(j) => json::field(j, key),
        None => None,
    }
}

/// The last message of the request.
pub open spec fn last_message(entry: JsonView) -> Option<JsonView> {
    last_of(json::items_of(below(json::field(entry, "request_payload"@), "messages"@)))
}

pub open spec fn role_of(entry: JsonView) -> Seq<char> {
    match json::text_of(below(last_message(entry), "role"@)) {
        Some(role) => role,
        None => events_tail::member_or(entry, "entry_kind"@, "unknown"@),
    }
}

fn last_request_message(entry: &Json) -> (r: Option<&Json>)
    ensures
        json::opt_json(r) == last_message(entry@),
{
    match entry.get("request_payload") {
        Some(payload) => match payload.get_array("messages") {
            Some(messages) => if messages.len() > 0 {
                Some(&messages[messages.len() - 1])
            } else {
                None
            },
            None => None,
        },
        None => None,
    }
}

/// The role of an entry: that of the last message of the request, else its kind.
pub fn extract_role(entry: &Json) -> (r: String)
    ensures
        r@ == role_of(entry@),
{
    if let Some(last) = last_request_message(entry) {
        if let Some(role) = last.get_str("role") {
            return role.to_string();
        }
    }
    events_tail::text_member_or(entry, "entry_kind", "unknown").to_string()
}

/// The content of the first choice of the response.
pub open spec fn response_content(entry: JsonView) -> Option<Seq<char>> {
    let choice = first_of(json::items_of(below(json::field(entry, "response_payload"@), "choices"@)));
    json::text_of(below(below(choice, "message"@), "content"@))
}

pub open spec fn content_of(entry: JsonView) -> Seq<char> {
    match response_content(entry) {
        Some(content) => content,
        None => match json::text_of(below(last_message(entry), "content"@)) {
            Some(content) => content,
            None => events_tail::member_or(entry, "content"@, ""@),
        },
    }
}

fn response_text(entry: &Json) -> (r: Option<&str>)
    ensures
        text::opt_ref(r) == response_content(entry@),
{
    let payload = match entry.get("response_payload") {
        Some(payload) => payload,
        None => {
            return None;
        },
    };
    let choices = match payload.get_array("choices") {
        Some(choices) => choices,
        None => {
            return None;
        },
    };
    if choices.len() == 0 {
        return None;
    }
    match choices[0].get("message") {
        Some(message) => message.get_str("content"),
        None => None,
    }
}

/// The content of an entry: that of the response, else of the last message of the
/// request, else its own.
pub fn extract_content(entry: &Json) -> (r: String)
    ensures
        r@ == content_of(entry@),
{
    if let Some(content) = response_text(entry) {
        return content.to_string();
    }
    if let Some(last) = last_request_message(entry) {
        if let Some(content) = last.get_str("content") {
            return content.to_string();
        }
    }
    events_tail::text_member_or(entry, "content", "").to_string()
}

/// A line of the front matter, where the value is there.
pub open spec fn front_line(key: Seq<char>, value: Option<Seq<char>>) -> Seq<char> {
    match value {
        Some(v) => key + ": "@ + v + "\n"@,
        None => Seq::empty(),
    }
}

/// The texts among some values.
pub open spec fn only_texts(v: Seq<JsonView>) -> Seq<Seq<char>>
    decreases v.len(),
{
    if v.len() == 0 {
        Seq::empty()
    } else {
        let front = only_texts(v.drop_last());
        match v.last() {
            JsonView::Text(s) => front.push(s),
            _ => front,
        }
    }
}

pub open spec fn tags_line(session: JsonView) -> Seq<char> {
    match json::field_items(session, "tags"@) {
        Some(tags) => if only_texts(tags).len() == 0 {
            Seq::empty()
        } else {
            "tags: ["@ + text::join(only_texts(tags), ", "@) + "]\n"@
        },
        None => Seq::empty(),
    }
}

pub open spec fn front_matter(session: JsonView) -> Seq<char> {
    "---\n"@ + front_line("session_id"@, json::field_text(session, "session_id"@)) + front_line(
        "scope"@,
        json::field_text(session, "scope"@),
    ) + front_line("started_at"@, json::field_text(session, "started_at"@)) + front_line(
        "entry_count"@,
        match json::field_integer(session, "entry_count"@) {
            Some(n) => Some(text::decimal_int(n)),
            None => None,
        },
    ) + tags_line(session) + "---\n\n"@
}

pub open spec fn markdown_entries(entries: Seq<JsonView>) -> Seq<char>
    decreases entries.len(),
{
    if entries.len() == 0 {
        Seq::empty()
    } else {
        markdown_entries(entries.drop_last()) + ("## "@ + role_of(entries.last()) + "\n\n"@
            + content_of(entries.last()) + "\n\n"@)
    }
}

fn push_front_line(out: &mut String, key: &str, value: Option<&str>)
    ensures
        final(out)@ == old(out)@ + front_line(key@, text::opt_ref(value)),
{
    let ghost before = out@;
    if let Some(v) = value {
        let mut line = key.to_string();
        line.append(": ");
        line.append(v);
        line.append("\n");
        out.append(line.as_str());
    } else {
        assert(before + Seq::<char>::empty() =~= before);
    }
}

fn collect_texts(v: &Vec<Json>) -> (r: Vec<String>)
    ensures
        text::texts(r@) == only_texts(json::values(v@)),
{
    let ghost all = json::values(v@);
    let mut out: Vec<String> = Vec::new();
    let mut i: usize = 0;
    assert(text::texts(out@) =~= Seq::<Seq<char>>::empty());
    while i < v.len()
        invariant
            i <= v.len(),
            all == json::values(v@),
            text::texts(out@) == only_texts(all.take(i as int)),
        decreases v.len() - i,
    {
        assert(all.take(i as int + 1).drop_last() =~= all.take(i as int));
        assert(all.take(i as int + 1).last() == v@[i as int]@);
        if let Some(s) = v[i].as_str() {
            let s = s.to_string();
            proof {
                text::texts_push(out@, s);
            }
            out.push(s);
        }
        i = i + 1;
    }
    assert(all.take(i as int) =~= all);
    out
}

/// Markdown with the session in the front matter and one section for each entry.
pub fn format_markdown(session: &Json, entries: &Vec<Json>) -> (r: String)
    ensures
        r@ == front_matter(session@) + markdown_entries(json::values(entries@)),
{
    let mut out = "---\n".to_string();
    push_front_line(&mut out, "session_id", session.get_str("session_id"));
    push_front_line(&mut out, "scope", session.get_str("scope"));
    push_front_line(&mut out, "started_at", session.get_str("started_at"));
    let count = match session.get_i64("entry_count") {
        Some(n) => Some(text::integer_text(n)),
        None => None,
    };
    push_front_line(&mut out, "entry_count", text::borrow_opt(&count));
    let ghost head = out@;
    if let Some(tags) = session.get_array("tags") {
        let names = collect_texts(tags);
        assert(only_texts(json::values(tags@)).len() == names.len());
        if names.len() > 0 {
            let mut line = "tags: [".to_string();
            let joined = text::join_texts(&names, ", ");
            line.append(joined.as_str());
            line.append("]\n");
            out.append(line.as_str());
        }
    }
    assert(out@ =~= head + tags_line(session@));
    out.append("---\n\n");

    let ghost front = out@;
    let ghost all = json::values(entries@);
    let mut i: usize = 0;
    assert(front + markdown_entries(all.take(0)) =~= front);
    while i < entries.len()
        invariant
            i <= entries.len(),
            all == json::values(entries@),
            front == front_matter(session@),
            out@ == front + markdown_entries(all.take(i as int)),
        decreases entries.len() - i,
    {
        assert(all.take(i as int + 1).drop_last() =~= all.take(i as int));
        assert(all.take(i as int + 1).last() == entries@[i as int]@);
        let mut section = "## ".to_string();
        let role = extract_role(&entries[i]);
        section.append(role.as_str());
        section.append("\n\n");
        let content = extract_content(&entries[i]);
        section.append(content.as_str());
        section.append("\n\n");
        let ghost before = out@;
        out.append(section.as_str());
        i = i + 1;
        assert(out@ =~= front + markdown_entries(all.take(i as int)));
    }
    assert(all.take(i as int) =~= all);
    out
}

pub open spec fn plain_entries(entries: Seq<JsonView>) -> Seq<char>
    decreases entries.len(),
{
    if entries.len() == 0 {
        Seq::empty()
    } else {
        plain_entries(entries.drop_last()) + ("["@ + role_of(entries.last()) + "]: "@ + content_of(
            entries.last(),
        ) + "\n\n"@)
    }
}

/// Plain text with one paragraph for each entry.
pub fn format_txt(entries: &Vec<Json>) -> (r: String)
    ensures
        r@ == plain_entries(json::values(entries@)),
{
    let ghost all = json::values(entries@);
    let mut out = String::new();
    let mut i: usize = 0;
    while i < entries.len()
        invariant
            i <= entries.len(),
            all == json::values(entries@),
            out@ == plain_entries(all.take(i as int)),
        decreases entries.len() - i,
    {
        assert(all.take(i as int + 1).drop_last() =~= all.take(i as int));
        assert(all.take(i as int + 1).last() == entries@[i as int]@);
        let mut section = "[".to_string();
        let role = extract_role(&entries[i]);
        section.append(role.as_str());
        section.append("]: ");
        let content = extract_content(&entries[i]);
        section.append(content.as_str());
        section.append("\n\n");
        out.append(section.as_str());
        i = i + 1;
    }
    assert(all.take(i as int) =~= all);
    out
}

/// What a session and its entries hold as one value, from what each of them holds.
pub open spec fn framed(session: Seq<char>, entries: Seq<Seq<char>>) -> Seq<char> {
    "{\"entries\":["@ + text::join(entries, ","@) + "],\"session\":"@ + session + "}"@
}

/// A session and its entries as one value.
pub fn session_document(session: &serde_json::Value, entries: &[serde_json::Value]) -> (r:
    serde_json::Value)
    ensures
        json::json_text(r) == framed(json::json_text(*session), json::json_texts(entries@)),
{
    let list = json::array_value(entries);
    proof {
        reveal_strlit("entries");
        reveal_strlit("session");
        reveal_strlit("{\"");
        reveal_strlit("\":");
        reveal_strlit(",\"");
        reveal_strlit("[");
        reveal_strlit("]");
        reveal_strlit("{\"entries\":[");
        reveal_strlit("],\"session\":");
    }
    let r = json::object_value(("entries", &list), ("session", session));
    assert(json::json_text(r) =~= framed(json::json_text(*session), json::json_texts(entries@)));
    r
}

pub open spec fn json_form(indented: Result<Seq<char>, Seq<char>>) -> Result<
    Seq<char>,
    ErrorView,
> {
    match indented {
        Ok(s) => Ok(s),
        Err(cause) => Err(error::internal_error("failed to serialize JSON: "@ + cause)),
    }
}

/// The outcome of indenting, with its error worded for the operator.
pub fn json_result(indented: Result<String, String>) -> (r: Result<String, CliError>)
    ensures
        error::viewed(r) == json_form(crate::gateway_service::either(indented)),
{
    match indented {
        Ok(s) => Ok(s),
        Err(cause) => {
            let mut message = "failed to serialize JSON: ".to_string();
            message.append(cause.as_str());
            Err(CliError::internal(message))
        },
    }
}

/// Indented JSON with the session and its entries.
pub fn format_json(session: &serde_json::Value, entries: &[serde_json::Value]) -> (r: Result<
    String,
    CliError,
>)
    ensures
        error::viewed(r) == json_form(
            json::indented_json(
                framed(json::json_text(*session), json::json_texts(entries@)),
            ),
        ),
{
    let document = session_document(session, entries);
    json_result(json::indent_json(&document))
}

} // verus!
