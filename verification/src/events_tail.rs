//! `verdictan events tail`: the pages it asks for and the lines it prints.
use vstd::prelude::*;

use crate::json::{self, Json, JsonView};
use crate::query;
use crate::text;

verus! {

pub open spec fn query_of(
    since: Option<Seq<char>>,
    cursor: Option<Seq<char>>,
    limit: u32,
    event_type: Option<Seq<char>>,
    gateway_id: Option<Seq<char>>,
    verdict: Option<Seq<char>>,
) -> Seq<char> {
    query::with_query(
        "/v1/events"@,
        query::given("since"@, since) + query::given("cursor"@, cursor) + seq![
            "limit="@ + text::decimal(limit as nat),
        ] + query::given("event_type"@, event_type) + query::given("gateway_id"@, gateway_id)
            + query::given("verdict"@, verdict),
    )
}

/// The request for one page of events.
pub fn build_query(
    since: Option<&str>,
    cursor: Option<&str>,
    limit: u32,
    event_type: Option<&str>,
    gateway_id: Option<&str>,
    verdict: Option<&str>,
) -> (r: String)
    ensures
        r@ == query_of(
            text::opt_ref(since),
            text::opt_ref(cursor),
            limit,
            text::opt_ref(event_type),
            text::opt_ref(gateway_id),
            text::opt_ref(verdict),
        ),
{
    let mut params: Vec<String> = Vec::new();
    assert(text::texts(params@) =~= Seq::<Seq<char>>::empty());
    query::push_given(&mut params, "since", since);
    assert(text::texts(params@) =~= query::given("since"@, text::opt_ref(since)));
    query::push_given(&mut params, "cursor", cursor);
    let ghost start = text::texts(params@);
    let mut part = "limit=".to_string();
    let number = text::number_text(limit as u64);
    part.append(number.as_str());
    proof {
        text::texts_push(params@, part);
    }
    params.push(part);
    assert(text::texts(params@) =~= start + seq!["limit="@ + text::decimal(limit as nat)]);
    query::push_given(&mut params, "event_type", event_type);
    query::push_given(&mut params, "gateway_id", gateway_id);
    query::push_given(&mut params, "verdict", verdict);
    query::add_query("/v1/events", &params)
}

/// Whether events are printed as JSON. Following them implies it.
pub fn prints_json(json: bool, follow: bool) -> (r: bool)
    ensures
        r == (json || follow),
{
    json || follow
}

/// What to ask for, without the place in the stream.
#[derive(Debug)]
pub struct TailFilter {
    pub limit: u32,
    pub event_type: Option<String>,
    pub gateway_id: Option<String>,
    pub verdict: Option<String>,
}

/// The place in the stream of events. The start time counts for the first page
/// only; after it the cursor leads on.
#[derive(Debug)]
pub struct TailState {
    pub since: Option<String>,
    pub cursor: Option<String>,
}

/// The request for the next page.
pub fn next_page(state: &TailState, filter: &TailFilter) -> (r: String)
    ensures
        r@ == query_of(
            text::opt(state.since),
            text::opt(state.cursor),
            filter.limit,
            text::opt(filter.event_type),
            text::opt(filter.gateway_id),
            text::opt(filter.verdict),
        ),
{
    build_query(
        text::borrow_opt(&state.since),
        text::borrow_opt(&state.cursor),
        filter.limit,
        text::borrow_opt(&filter.event_type),
        text::borrow_opt(&filter.gateway_id),
        text::borrow_opt(&filter.verdict),
    )
}

/// The place after a page: where its cursor points.
pub fn after_page(page: &Json) -> (r: TailState)
    ensures
        r.since is None,
        text::opt(r.cursor) == json::field_text(page@, "next_cursor"@),
{
    TailState { since: None, cursor: text::own_opt(page.get_str("next_cursor")) }
}

/// The time of an event, as it stands in the event.
pub open spec fn event_time(event: JsonView) -> Seq<char> {
    let stated = match json::field(event, "event_time"@) {
        Some(v) => Some(v),
        None => json::field(event, "created_at"@),
    };
    text::or_else(json::text_of(stated), "-"@)
}

/// The first 19 bytes of a longer time; a time of at most 19 bytes whole.
pub open spec fn short_time(time: Seq<char>) -> Seq<char> {
    if text::byte_len(time) > 19 {
        vstd::utf8::decode_utf8(vstd::utf8::encode_utf8(time).subrange(0, 19))
    } else {
        time
    }
}

/// True where the time can be cut: byte 19 starts a character.
pub open spec fn time_can_be_cut(time: Seq<char>) -> bool {
    text::byte_len(time) > 19 ==> vstd::utf8::is_char_boundary(vstd::utf8::encode_utf8(time), 19)
}

/// The value of a text member, or a fallback.
pub open spec fn member_or(v: JsonView, key: Seq<char>, fallback: Seq<char>) -> Seq<char> {
    text::or_else(json::field_text(v, key), fallback)
}

pub fn text_member_or<'a>(v: &'a Json, key: &str, fallback: &'a str) -> (r: &'a str)
    ensures
        r@ == member_or(v@, key@, fallback@),
{
    match v.get_str(key) {
        Some(s) => s,
        None => fallback,
    }
}

pub open spec fn event_line(event: JsonView) -> Seq<char> {
    "  "@ + short_time(event_time(event)) + " "@ + text::padded(
        member_or(event, "event_type"@, "unknown"@),
        10,
    ) + " "@ + text::padded(member_or(event, "verdict"@, "-"@), 10) + " model="@ + member_or(
        event,
        "model"@,
        "-"@,
    ) + " policy="@ + member_or(event, "policy_name"@, "-"@)
}

fn time_of(event: &Json) -> (r: &str)
    ensures
        r@ == event_time(event@),
{
    let stated = match event.get("event_time") {
        Some(v) => Some(v),
        None => event.get("created_at"),
    };
    match stated {
        Some(v) => match v.as_str() {
            Some(s) => s,
            None => "-",
        },
        None => "-",
    }
}

/// Whether the time of the event can be cut for a line.
pub fn has_printable_time(event: &Json) -> (r: bool)
    ensures
        r == time_can_be_cut(event_time(event@)),
{
    let time = time_of(event);
    text::byte_len_text(time) <= 19 || time.is_char_boundary(19)
}

/// One line for an event.
pub fn format_event_line(event: &Json) -> (r: String)
    requires
        time_can_be_cut(event_time(event@)),
    ensures
        r@ == event_line(event@),
{
    let time = time_of(event);
    let short = if text::byte_len_text(time) > 19 {
        let (head, _) = time.split_at(19);
        proof {
            vstd::utf8::encode_utf8_decode_utf8(head@);
        }
        head
    } else {
        time
    };
    let mut line = "  ".to_string();
    line.append(short);
    line.append(" ");
    let event_type = text::pad_text(text_member_or(event, "event_type", "unknown"), 10);
    line.append(event_type.as_str());
    line.append(" ");
    let verdict = text::pad_text(text_member_or(event, "verdict", "-"), 10);
    line.append(verdict.as_str());
    line.append(" model=");
    line.append(text_member_or(event, "model", "-"));
    line.append(" policy=");
    line.append(text_member_or(event, "policy_name", "-"));
    line
}

/// A time in ASCII can always be cut, and what is left is its first 19 characters.
pub proof fn ascii_time_is_cut_by_characters(time: Seq<char>)
    requires
        vstd::utf8::is_ascii_chars(time),
        time.len() > 19,
    ensures
        time_can_be_cut(time),
        short_time(time) == time.take(19),
{
    vstd::utf8::is_ascii_chars_encode_utf8(time);
    vstd::utf8::encode_utf8_valid_utf8(time);
    assert(time[19] as u8 == vstd::utf8::encode_utf8(time)[19]);
    vstd::utf8::is_char_boundary_iff_not_is_continuation_byte(
        vstd::utf8::encode_utf8(time),
        19,
    );
    let head = time.take(19);
    assert(vstd::utf8::is_ascii_chars(head)) by {
        assert forall|i: int| 0 <= i < head.len() implies '\0' <= #[trigger] head[i] <= '\u{7f}' by {
            assert(head[i] == time[i]);
        }
    }
    vstd::utf8::is_ascii_chars_encode_utf8(head);
    let bytes = vstd::utf8::encode_utf8(time);
    assert(vstd::utf8::encode_utf8(head) =~= bytes.subrange(0, 19)) by {
        assert forall|i: int| 0 <= i < 19 implies vstd::utf8::encode_utf8(head)[i] == bytes[i] by {
            assert(head[i] as u8 == vstd::utf8::encode_utf8(head)[i]);
            assert(time[i] as u8 == bytes[i]);
        }
    }
    vstd::utf8::encode_utf8_decode_utf8(head);
}

/// True where the time of every event can be cut for a line.
pub open spec fn all_printable(events: Seq<JsonView>) -> bool {
    forall|i: int| 0 <= i < events.len() ==> time_can_be_cut(event_time(#[trigger] events[i]))
}

/// One line for each event.
pub open spec fn event_lines_of(events: Seq<JsonView>) -> Seq<Seq<char>> {
    Seq::new(events.len(), |i: int| event_line(events[i]))
}

/// The events of a page; none where it lists none.
pub open spec fn events_of(page: JsonView) -> Seq<JsonView> {
    match json::field_items(page, "events"@) {
        Some(events) => events,
        None => Seq::empty(),
    }
}

/// The lines for the events of a page, in order; nothing where the time of one of
/// them cannot be cut.
pub fn event_lines(page: &Json) -> (r: Option<Vec<String>>)
    ensures
        match r {
            Some(lines) => all_printable(events_of(page@)) && text::texts(lines@)
                == event_lines_of(events_of(page@)),
            None => !all_printable(events_of(page@)),
        },
{
    let mut lines: Vec<String> = Vec::new();
    let events = match page.get_array("events") {
        Some(events) => events,
        None => {
            assert(text::texts(lines@) =~= event_lines_of(events_of(page@)));
            return Some(lines);
        },
    };
    let ghost all = json::values(events@);
    let mut i: usize = 0;
    assert(text::texts(lines@) =~= event_lines_of(all).take(0));
    while i < events.len()
        invariant
            i <= events.len(),
            all == json::values(events@),
            all == events_of(page@),
            forall|j: int| 0 <= j < i ==> time_can_be_cut(event_time(#[trigger] all[j])),
            text::texts(lines@) == event_lines_of(all).take(i as int),
        decreases events.len() - i,
    {
        let event = &events[i];
        assert(all[i as int] == event@);
        if !has_printable_time(event) {
            return None;
        }
        let line = format_event_line(event);
        let ghost before = text::texts(lines@);
        lines.push(line);
        assert(text::texts(lines@) =~= before.push(event_line(all[i as int])));
        assert(text::texts(lines@) =~= event_lines_of(all).take(i as int + 1));
        i = i + 1;
    }
    assert(event_lines_of(all).take(i as int) =~= event_lines_of(all));
    Some(lines)
}

/// What the operator reads of a single page.
pub open spec fn page_lines_of(page: JsonView) -> Seq<Seq<char>> {
    match json::field_items(page, "events"@) {
        Some(events) => if events.len() == 0 {
            seq!["No events found."@]
        } else {
            event_lines_of(events)
        },
        None => Seq::empty(),
    }
}

/// What the operator reads of a single page; nothing where the time of one of its
/// events cannot be cut.
pub fn page_lines(page: &Json) -> (r: Option<Vec<String>>)
    ensures
        match r {
            Some(lines) => all_printable(events_of(page@)) && text::texts(lines@)
                == page_lines_of(page@),
            None => !all_printable(events_of(page@)),
        },
{
    if let Some(events) = page.get_array("events") {
        if events.len() == 0 {
            let lines = vec!["No events found.".to_string()];
            assert(text::texts(lines@) =~= seq!["No events found."@]);
            return Some(lines);
        }
    }
    let lines = event_lines(page);
    assert(json::field_items(page@, "events"@) is None ==> event_lines_of(events_of(page@))
        =~= Seq::<Seq<char>>::empty());
    lines
}

} // verus!
