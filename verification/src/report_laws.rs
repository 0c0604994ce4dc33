//! What holds of requests, answers, errors and reports.
use vstd::prelude::*;

use crate::error::{self, ErrorKind, ErrorView};
use crate::escalation_resolve::{
    category_text, resolution_text, resolve_path_of, resolve_payload_of, EscalationResolution,
    EscalationResolutionCategory,
};
use crate::events_export::{export_error_of, export_path_of};
use crate::export_job_common::{created_job_of, find_job_of, first_job};
use crate::export_job_download::download_error_of;
use crate::export_job_get::{job_lines_of, selected_job_of};
use crate::export_job_list::{job_line_of, list_lines_of};
use crate::gateway_check::{active, inactive, registry_report, TargetView};
use crate::gateway_list::{local_rows, remote_rows, SummaryView};
use crate::gateway_reconcile::{gateway_url_of, result_line, ListenAddress, ListenHost, ResultView};
use crate::gateway_reload::{endpoint, refused, reload_payload_of, AnswerView};
use crate::gateway_upgrade::{preview_of, report_of, PREVIEW_BYTES};
use crate::history_condense::{
    artifact_value, condensed, dry_run_value, gathered, summary_of, CondensationView,
};
use crate::history_get_session::{attached, summary_text_of};
use crate::history_learn::{learn_lines_of, preview_value, resolved_session};
use crate::json::{self, JsonView};
use crate::percent;
use crate::runtime_upgrade::{PlanView, UpgradeStatusView};
use crate::text;

verus! {

// ---------------------------------------------------------------------------
// Errors and answers
// ---------------------------------------------------------------------------

/// Each kind of error has its own code.
pub proof fn codes_tell_kinds_apart(a: ErrorKind, b: ErrorKind)
    ensures
        error::code_of(a) == error::code_of(b) <==> a == b,
        error::code_of(ErrorKind::User) == "cli.user"@,
        error::code_of(ErrorKind::Auth) == "cli.auth"@,
        error::code_of(ErrorKind::Network) == "cli.network"@,
        error::code_of(ErrorKind::Internal) == "cli.internal"@,
{
    reveal_strlit("cli.user");
    reveal_strlit("cli.internal");
    reveal_strlit("cli.auth");
    reveal_strlit("cli.network");
    assert("cli.user"@[4] == 'u' && "cli.internal"@[4] == 'i' && "cli.auth"@[4] == 'a'
        && "cli.network"@[4] == 'n');
}

/// A status is a success exactly where its first digit is a two.
pub proof fn success_is_two_hundred(code: u16)
    ensures
        error::success_status(code) <==> code as int / 100 == 2,
{
}

/// The error of an export follows from the status, and keeps it.
pub proof fn export_error_follows_the_status(code: u16)
    ensures
        export_error_of(code).http_status == Some(code),
        export_error_of(code).kind == (if code == 401 || code == 403 {
            ErrorKind::Auth
        } else if code == 400 || code == 409 || code == 422 {
            ErrorKind::User
        } else {
            ErrorKind::Network
        }),
        text::contains(export_error_of(code).message, text::decimal(code as nat)),
        download_error_of(code).kind == ErrorKind::Network,
        text::contains(download_error_of(code).message, text::decimal(code as nat)),
{
    let number = text::decimal(code as nat);
    let message = export_error_of(code).message;
    let front = if code == 401 || code == 403 {
        "authorization failed for events export (HTTP "@
    } else if code == 400 || code == 409 || code == 422 {
        "validation error for events export (HTTP "@
    } else if 500 <= code <= 599 {
        "remote service error for events export (HTTP "@
    } else {
        "api request failed with status "@
    };
    let at = front.len() as int;
    assert(message.subrange(at, at + number.len()) =~= number);
    assert(text::occurs_at(message, number, at));
    let other = "download failed with status "@.len() as int;
    assert(download_error_of(code).message.subrange(other, other + number.len()) =~= number);
    assert(text::occurs_at(download_error_of(code).message, number, other));
}

/// A gateway refuses exactly where it cannot be asked, cannot be read, or does not
/// answer with success; each is told apart, and what the gateway said is told.
pub proof fn refusal_tells_why(
    answer: AnswerView,
    request: Seq<char>,
    response: Seq<char>,
    place: Seq<char>,
)
    ensures
        refused(answer, request, response, place) is None <==> (answer matches AnswerView::Reply(
            reply,
        ) && reply.success),
        match answer {
            AnswerView::Unequipped(e) => refused(answer, request, response, place) matches Some(
                told,
            ) && told.kind == ErrorKind::Internal && told.message == e,
            AnswerView::Unreachable(e) => refused(answer, request, response, place) matches Some(
                told,
            ) && told.kind == ErrorKind::Network && told.message == request + e,
            AnswerView::Unread(e) => refused(answer, request, response, place) matches Some(told)
                && told.kind == ErrorKind::Network && told.message == response + e,
            AnswerView::Reply(reply) => reply.success || (refused(
                answer,
                request,
                response,
                place,
            ) matches Some(told) && told.kind == ErrorKind::Network && told.message == place
                + " returned "@ + reply.status + ": "@ + reply.body),
        },
{
}

proof fn drop_end_bounds(s: Seq<char>, c: char) -> (n: int)
    ensures
        0 <= n <= s.len(),
        text::drop_end(s, c) == s.take(n),
        forall|i: int| n <= i < s.len() ==> s[i] == c,
        n > 0 ==> s[n - 1] != c,
    decreases s.len(),
{
    if s.len() > 0 && s.last() == c {
        let t = s.drop_last();
        let n = drop_end_bounds(t, c);
        assert(t.take(n) =~= s.take(n));
        assert forall|i: int| n <= i < s.len() implies s[i] == c by {
            if i < t.len() {
                assert(t[i] == s[i]);
            }
        }
        if n > 0 {
            assert(t[n - 1] == s[n - 1]);
        }
        n
    } else {
        assert(s.take(s.len() as int) =~= s);
        s.len() as int
    }
}

/// An endpoint is below the gateway's address, whatever slashes that ends with.
pub proof fn endpoint_is_below_the_gateway(url: Seq<char>, slashes: nat, path: Seq<char>)
    requires
        url.len() > 0,
        url.last() != '/',
    ensures
        endpoint(url + Seq::new(slashes, |i: int| '/'), path) == url + path,
{
    let tail = Seq::new(slashes, |i: int| '/');
    let whole = url + tail;
    let n = drop_end_bounds(whole, '/');
    if n < url.len() {
        assert(whole[url.len() - 1] == url.last());
    }
    if n > url.len() {
        assert(whole[n - 1] == tail[n - 1 - url.len()]);
    }
    assert(whole.take(n) =~= url);
}

/// A gateway is sent the configuration itself.
pub proof fn reload_request_holds_the_configuration(yaml: Seq<char>)
    ensures
        json::field_text(reload_payload_of(yaml), "config_yaml"@) == Some(yaml),
{
    reveal_with_fuel(json::member, 2);
}

/// A gateway that listens on every address is reached on the local one; any other
/// where it listens.
pub proof fn gateway_is_reached_where_it_listens(
    listen_addr: Seq<char>,
    address: ListenAddress,
)
    ensures
        address.host matches ListenHost::V4(a, b, c, d) ==> gateway_url_of(listen_addr, Ok(address))
            == Ok::<Seq<char>, ErrorView>(
            "http://"@ + (if a == 0 && b == 0 && c == 0 && d == 0 {
                text::decimal(127) + "."@ + text::decimal(0) + "."@ + text::decimal(0) + "."@
                    + text::decimal(1)
            } else {
                text::decimal(a as nat) + "."@ + text::decimal(b as nat) + "."@ + text::decimal(
                    c as nat,
                ) + "."@ + text::decimal(d as nat)
            }) + ":"@ + text::decimal(address.port as nat),
        ),
        address.host matches ListenHost::V6(host) ==> gateway_url_of(listen_addr, Ok(address))
            == Ok::<Seq<char>, ErrorView>(
            "http://"@ + (if host@ == "::"@ {
                "::1"@
            } else {
                host@
            }) + ":"@ + text::decimal(address.port as nat),
        ),
{
}

// ---------------------------------------------------------------------------
// Escalations and events
// ---------------------------------------------------------------------------

proof fn escalation_keys_differ()
    ensures
        "resolution"@ != "resolution_note"@,
        "resolution"@ != "resolution_category"@,
        "resolution_note"@ != "resolution_category"@,
{
    reveal_strlit("resolution");
    reveal_strlit("resolution_note");
    reveal_strlit("resolution_category");
    assert("resolution"@.len() == 10 && "resolution_note"@.len() == 15
        && "resolution_category"@.len() == 19);
}

/// An escalation is resolved with the resolution, and with the note and the category
/// exactly where these are given.
pub proof fn escalation_is_resolved_as_asked(
    resolution: EscalationResolution,
    note: Option<Seq<char>>,
    category: Option<EscalationResolutionCategory>,
)
    ensures
        ({
            let made = resolve_payload_of(resolution, note, category);
            &&& json::field_text(made, "resolution"@) == Some(resolution_text(resolution))
            &&& json::field_text(made, "resolution_note"@) == note
            &&& json::field_text(made, "resolution_category"@) == (match category {
                Some(c) => Some(category_text(c)),
                None => None,
            })
            &&& json::field(made, "resolution_note"@) is None <==> note is None
            &&& json::field(made, "resolution_category"@) is None <==> category is None
        }),
{
    escalation_keys_differ();
    reveal_with_fuel(json::member, 4);
}

/// The words of the resolutions and of the categories tell them apart.
pub proof fn resolutions_have_their_words(
    a: EscalationResolution,
    b: EscalationResolution,
)
    ensures
        resolution_text(a) == resolution_text(b) <==> a == b,
{
    reveal_strlit("allow");
    reveal_strlit("block");
    reveal_strlit("rewrite");
    reveal_strlit("redact");
    reveal_strlit("rejected");
    assert("allow"@[0] == 'a' && "block"@[0] == 'b');
    assert("rewrite"@.len() == 7 && "redact"@.len() == 6 && "rejected"@.len() == 8);
    assert("rewrite"@[0] == 'r' && "redact"@[0] == 'r' && "rejected"@[0] == 'r');
}

/// An export of events is asked for with its start and its format, encoded.
pub proof fn export_is_asked_for_as_given(since: Seq<char>, format: Seq<char>, id: Seq<char>)
    ensures
        export_path_of(since, format) == "/v1/events/export?since="@ + percent::percent_encoded(
            since,
        ) + "&format="@ + percent::percent_encoded(format),
        resolve_path_of(id) == "/v1/escalations/"@ + id + "/resolve"@,
{
}

// ---------------------------------------------------------------------------
// Sessions
// ---------------------------------------------------------------------------

/// The entries of a session are added at the end.
pub proof fn entries_are_gathered_in_order(
    entries: Seq<JsonView>,
    response: JsonView,
)
    ensures
        json::field_items(response, "entries"@) matches Some(more) ==> gathered(entries, response)
            == entries + more,
        json::field_items(response, "entries"@) is None ==> gathered(entries, response) == entries,
{
}

/// A summary is made exactly where something was said by an entry that counts and that
/// fits; it is the condensed text, within four bytes for each token.
pub proof fn summary_is_the_condensed_text(
    entries: Seq<JsonView>,
    allowed_only: bool,
    include_blocked: bool,
    target_max_tokens: u32,
)
    ensures
        ({
            let made = condensed(
                entries,
                Seq::empty(),
                allowed_only,
                include_blocked,
                (4 * target_max_tokens) as nat,
            );
            let summary = summary_of(entries, allowed_only, include_blocked, target_max_tokens);
            &&& summary is Ok <==> entries.len() > 0 && !text::is_blank(made)
            &&& summary matches Ok(s) ==> s == made && text::byte_len(s) <= 4 * target_max_tokens
            &&& summary matches Err(e) ==> e.kind == ErrorKind::User
        }),
{
    assert(text::byte_len(Seq::empty()) == 0) by {
        vstd::utf8::encode_utf8_decode_utf8(Seq::empty());
        assert(vstd::utf8::encode_utf8(Seq::<char>::empty()).len() == 0);
    }
    crate::history_condense::condensed_fits_the_budget(
        entries,
        Seq::empty(),
        allowed_only,
        include_blocked,
        (4 * target_max_tokens) as nat,
    );
}

proof fn artifact_keys_differ()
    ensures
        "load_kind"@ != "strategy"@,
        "load_kind"@ != "source"@,
        "load_kind"@ != "condensation"@,
        "load_kind"@ != "units"@,
        "strategy"@ != "source"@,
        "strategy"@ != "condensation"@,
        "strategy"@ != "units"@,
        "source"@ != "condensation"@,
        "source"@ != "units"@,
        "condensation"@ != "units"@,
{
    reveal_strlit("load_kind");
    reveal_strlit("strategy");
    reveal_strlit("source");
    reveal_strlit("condensation");
    reveal_strlit("units");
    assert("load_kind"@.len() == 9 && "strategy"@.len() == 8 && "source"@.len() == 6
        && "condensation"@.len() == 12 && "units"@.len() == 5);
}

/// An artifact holds the text, where it came from and how it was made.
pub proof fn artifact_holds_the_text(c: CondensationView, summary: Seq<char>)
    ensures
        ({
            let made = artifact_value(c, summary);
            &&& json::field_text(made, "load_kind"@) == Some("condense_artifact"@)
            &&& json::field_text(made, "strategy"@) == Some(c.strategy)
            &&& json::field_items(made, "units"@) matches Some(units) && units.len() == 1
                && json::field_text(units[0], "content"@) == Some(summary)
            &&& json::field(made, "source"@) matches Some(source) && json::field(
                source,
                "session_ids"@,
            ) == Some(
                JsonView::Array(
                    Seq::new(c.session_ids.len(), |i: int| JsonView::Text(c.session_ids[i])),
                ),
            ) && json::field(source, "entries_fetched"@) == Some(
                JsonView::Number(json::NumberView::Integer(c.entries_fetched as int)),
            )
            &&& json::field(made, "condensation"@) matches Some(how) && json::field(
                how,
                "token_estimate"@,
            ) == Some(JsonView::Number(json::NumberView::Integer(c.token_estimate as int)))
                && json::field(how, "target_max_tokens"@) == Some(
                JsonView::Number(json::NumberView::Integer(c.target_max_tokens as int)),
            ) && json::field(how, "allowed_only"@) == Some(JsonView::Bool(c.allowed_only))
                && json::field(how, "include_blocked"@) == Some(JsonView::Bool(c.include_blocked))
        }),
{
    artifact_keys_differ();
    reveal_strlit("session_ids");
    reveal_strlit("entries_fetched");
    reveal_strlit("token_estimate");
    reveal_strlit("target_max_tokens");
    reveal_strlit("allowed_only");
    reveal_strlit("include_blocked");
    reveal_strlit("strategy");
    reveal_strlit("unit_id");
    reveal_strlit("content");
    assert("session_ids"@.len() == 11 && "entries_fetched"@.len() == 15);
    assert("strategy"@.len() == 8 && "target_max_tokens"@.len() == 17 && "token_estimate"@.len()
        == 14 && "allowed_only"@.len() == 12 && "include_blocked"@.len() == 15);
    assert("unit_id"@[0] == 'u' && "content"@[0] == 'c');
    reveal_with_fuel(json::member, 6);
}

/// Entries are attached to an answer under their own name, and the rest of it stays.
pub proof fn attached_entries_are_there(value: JsonView, entries: JsonView, other: Seq<char>)
    requires
        value is Object,
        other != "entries"@,
    ensures
        json::field(attached(value, entries), "entries"@) == Some(entries),
        json::field(attached(value, entries), other) == json::field(value, other),
{
    json::with_member_reads_back(value->Object_0, "entries"@, entries, other);
}

/// The session that is told of is the one in the answer, else the answer itself.
pub proof fn told_session_is_the_one_inside(value: JsonView, session: JsonView)
    requires
        json::field(value, "session"@) == Some(session),
        json::field(session, "session"@) is None,
    ensures
        summary_text_of(value) == summary_text_of(session),
{
}

/// Learning starts from the session that is picked, if there is one.
pub proof fn learning_starts_from_the_picked_session(
    response: JsonView,
    sessions: Seq<JsonView>,
)
    requires
        json::field_items(response, "sessions"@) == Some(sessions),
    ensures
        resolved_session(response) is Ok <==> crate::history_learn::most_recent_of(
            sessions,
        ) is Some,
        resolved_session(response) matches Ok(id) ==> crate::history_learn::most_recent_of(sessions)
            == Some(id),
        sessions.len() == 0 ==> resolved_session(response) is Err,
{
}

/// What learning came to is told of the session and from the answer.
pub proof fn learning_is_told_from_the_answer(
    session_id: Seq<char>,
    response: JsonView,
    condensation: JsonView,
)
    requires
        json::field(response, "condensation"@) == Some(condensation),
    ensures
        learn_lines_of(session_id, response).len() == 4,
        learn_lines_of(session_id, response)[1] == "session: "@ + session_id,
        json::field_text(condensation, "id"@) matches Some(id) ==> learn_lines_of(
            session_id,
            response,
        )[2] == "condensation: "@ + id,
        json::field_text(condensation, "status"@) matches Some(status) ==> learn_lines_of(
            session_id,
            response,
        )[3] == "status: "@ + status,
        json::field_text(condensation, "status"@) is None ==> learn_lines_of(
            session_id,
            response,
        )[3] == "status: "@ + "accepted"@,
{
}

// ---------------------------------------------------------------------------
// Export jobs
// ---------------------------------------------------------------------------

/// A job that is asked for is the first with its identifier; where none is listed the
/// operator is told.
pub proof fn asked_job_is_found_or_told(
    response: JsonView,
    jobs: Seq<JsonView>,
    id: Seq<char>,
)
    requires
        json::field_items(response, "jobs"@) == Some(jobs),
    ensures
        find_job_of(response, id) == Ok::<Option<JsonView>, ErrorView>(first_job(jobs, id)),
        first_job(jobs, id) matches Some(job) ==> selected_job_of(response, id) == Ok::<
            JsonView,
            ErrorView,
        >(job),
        first_job(jobs, id) is None ==> (selected_job_of(response, id) matches Err(e) && e.kind
            == ErrorKind::User),
        jobs.len() == 0 ==> list_lines_of(response) == Ok::<Seq<Seq<char>>, ErrorView>(
            seq!["no export jobs"@],
        ),
        jobs.len() > 0 ==> (list_lines_of(response) matches Ok(lines) && lines.len() == jobs.len()
            && forall|i: int| 0 <= i < jobs.len() ==> lines[i] == job_line_of(#[trigger] jobs[i])),
{
}

/// A response without what was asked for is the service's fault, not the operator's.
pub proof fn missing_parts_are_internal(response: JsonView, id: Seq<char>)
    ensures
        json::field_items(response, "jobs"@) is None ==> (find_job_of(response, id) matches Err(e)
            && e.kind == ErrorKind::Internal),
        created_job_of(response) is Ok <==> (json::field(response, "job"@) matches Some(job)
            && job is Object),
        created_job_of(response) matches Ok(job) ==> json::field(response, "job"@) == Some(job),
        created_job_of(response) matches Err(e) ==> e.kind == ErrorKind::Internal,
{
}

/// What is told of a job is what the job holds.
pub proof fn job_is_told_as_it_is(job: JsonView)
    ensures
        ({
            let told = |key: Seq<char>| match json::field(job, key) {
                Some(JsonView::Text(t)) => t,
                _ => "-"@,
            };
            let lines = job_lines_of(job);
            &&& lines.len() >= 6
            &&& lines[0] == "id:      "@ + told("job_id"@)
            &&& lines[1] == "status:  "@ + told("status"@)
            &&& lines[2] == "format:  "@ + told("format"@)
            &&& lines[3] == "requested: "@ + told("requested_at"@)
            &&& lines[4] == "window:  "@ + told("start_date"@) + " to "@ + told("end_date"@)
            &&& lines.len() == 7 <==> (json::field_text(job, "failure_message"@) matches Some(m)
                && !text::is_blank(m))
            &&& job_line_of(job) == told("job_id"@) + "  "@ + told("status"@) + "  "@ + told(
                "format"@,
            ) + "  "@ + told("requested_at"@)
        }),
{
}

// ---------------------------------------------------------------------------
// Gateways
// ---------------------------------------------------------------------------

/// Every gateway has its row, in order; where there is none this is said.
pub proof fn every_gateway_has_its_row(
    all: Seq<SummaryView>,
    value: JsonView,
    items: Seq<JsonView>,
)
    requires
        json::field_items(value, "gateways"@) == Some(items),
    ensures
        all.len() == 0 ==> local_rows(all) == seq!["no gateway instances defined"@],
        all.len() > 0 ==> local_rows(all).len() == all.len(),
        forall|i: int|
            0 <= i < all.len() ==> local_rows(all)[i] == (#[trigger] all[i]).instance_id + "\t"@
                + crate::instances::lifecycle_word(all[i].lifecycle) + "\t"@ + all[i].listen_addr
                + "\t"@ + all[i].gateway_id,
        items.len() == 0 ==> remote_rows(value) == seq!["no remote gateways"@],
        items.len() > 0 ==> remote_rows(value).len() == items.len(),
{
}

/// A result says whether the instance is healthy or needs attention.
pub proof fn result_says_how_it_is(result: ResultView)
    ensures
        result_line(result) == result.instance_id + " ["@ + result.outcome + "] "@ + (
        if result.healthy {
            "healthy"@
        } else {
            "attention"@
        }) + " - "@ + result.message,
{
}

/// A preview is the whole output where it is short, and its beginning with a mark where
/// it is long; of nothing there is none.
pub proof fn preview_is_the_beginning(output: Seq<char>)
    ensures
        preview_of(output) is None <==> output.len() == 0,
        output.len() > 0 && text::byte_len(output) <= PREVIEW_BYTES ==> preview_of(output) == Some(
            output,
        ),
        text::byte_len(output) > PREVIEW_BYTES && output.len() > 0 ==> (preview_of(
            output,
        ) matches Some(shown) && shown.len() >= 3 && shown.skip(shown.len() - 3) == "..."@),
{
    if text::byte_len(output) > PREVIEW_BYTES && output.len() > 0 {
        let shown = preview_of(output)->0;
        reveal_strlit("...");
        assert(shown.skip(shown.len() - 3) =~= "..."@);
    }
}

/// A report of an upgrade names the instance, then the plan, then how it stands.
pub proof fn upgrade_report_tells_plan_and_status(
    label: Seq<char>,
    instance_id: Seq<char>,
    plan: PlanView,
    status: UpgradeStatusView,
)
    ensures
        ({
            let lines = report_of(label, instance_id, Some(plan), Some(status));
            &&& lines[0] == label + ": "@ + instance_id
            &&& lines[1] == "plan: target="@ + plan.target_version + " binary="@
                + plan.target_binary_path + " service_manager="@
                + crate::runtime_upgrade::manager_word(plan.service_manager)
            &&& lines[2] == "phase: "@ + crate::runtime_upgrade::phase_word(status.phase)
            &&& status.last_error matches Some(e) ==> lines.last() == "last error: "@ + e
            &&& status.active_version matches Some(v) ==> lines[3] == "active version: "@ + v
        }),
        report_of(label, instance_id, None, None) == seq![label + ": "@ + instance_id],
{
    assert(report_of(label, instance_id, None, None) =~= seq![label + ": "@ + instance_id]);
}

/// A report of a configuration counts its providers and names each of them.
pub proof fn report_counts_its_providers(
    targets: Seq<TargetView>,
    strategy: Seq<char>,
    kinds: Seq<Seq<char>>,
    i: int,
)
    requires
        0 <= i < active(targets).len(),
    ensures
        ({
            let lines = registry_report(targets, strategy, kinds, false);
            let on = active(targets);
            let off = inactive(targets);
            &&& lines[0] == "Active providers ("@ + text::decimal(on.len()) + "):"@
            &&& lines[1 + i] == "  \u{2713} "@ + on[i].id
            &&& off.len() > 0 ==> lines[on.len() as int + 2] == "Inactive providers ("@
                + text::decimal(off.len()) + "):"@
            &&& lines.contains("Routing strategy: "@ + strategy)
            &&& lines.contains("Policy chain: "@ + text::decimal(kinds.len()) + " rule(s)"@)
        }),
{
    let on = active(targets);
    let off = inactive(targets);
    let lines = registry_report(targets, strategy, kinds, false);
    short_lines(on);
    let first = crate::gateway_check::active_section(on, false);
    let second = crate::gateway_check::inactive_section(off);
    let third = crate::gateway_check::routing_section(strategy);
    assert(first.len() == on.len() + 2);
    assert(first[1 + i] == crate::gateway_check::all_active_lines(on, false)[i]);
    assert(lines[1 + i] == first[1 + i]);
    let at = first.len() + second.len();
    assert(lines[at as int] == third[0]);
    assert(lines[at as int + 2] == "Policy chain: "@ + text::decimal(kinds.len()) + " rule(s)"@);
}

proof fn short_lines(targets: Seq<TargetView>)
    ensures
        crate::gateway_check::all_active_lines(targets, false).len() == targets.len(),
        forall|i: int|
            0 <= i < targets.len() ==> crate::gateway_check::all_active_lines(targets, false)[i]
                == "  \u{2713} "@ + (#[trigger] targets[i]).id,
    decreases targets.len(),
{
    if targets.len() > 0 {
        let front = targets.drop_last();
        short_lines(front);
        assert forall|i: int| 0 <= i < targets.len() implies crate::gateway_check::all_active_lines(
            targets,
            false,
        )[i] == "  \u{2713} "@ + (#[trigger] targets[i]).id by {
            if i < front.len() {
                assert(front[i] == targets[i]);
            }
        }
    }
}

proof fn dry_run_keys_differ()
    ensures
        "dry_run"@.len() == 7,
        "strategy"@.len() == 8,
        "sessions"@.len() == 8,
        "strategy"@[1] == 't',
        "sessions"@[1] == 'e',
        "session_id"@.len() == 10,
        "entries_fetched"@.len() == 15,
        "token_estimate"@.len() == 14,
        "target_max_tokens"@.len() == 17,
        "previous_sessions_max"@.len() == 21,
        "entries"@.len() == 7,
        "entries"@[0] == 'e',
        "dry_run"@[0] == 'd',
{
    reveal_strlit("dry_run");
    reveal_strlit("strategy");
    reveal_strlit("sessions");
    reveal_strlit("session_id");
    reveal_strlit("entries_fetched");
    reveal_strlit("token_estimate");
    reveal_strlit("target_max_tokens");
    reveal_strlit("previous_sessions_max");
    reveal_strlit("entries");
}

/// A dry run says that it is one, and what it would have used.
pub proof fn dry_run_says_what_it_would_use(
    c: CondensationView,
    session_id: Seq<char>,
    strategy: Seq<char>,
    previous_sessions_max: u32,
    target_max_tokens: u32,
    entries: Seq<JsonView>,
)
    ensures
        ({
            let made = dry_run_value(c);
            &&& json::field(made, "dry_run"@) == Some(JsonView::Bool(true))
            &&& json::field_text(made, "strategy"@) == Some(c.strategy)
            &&& json::field(made, "sessions"@) == Some(
                JsonView::Array(
                    Seq::new(c.session_ids.len(), |i: int| JsonView::Text(c.session_ids[i])),
                ),
            )
            &&& json::field(made, "entries_fetched"@) == Some(
                JsonView::Number(json::NumberView::Integer(c.entries_fetched as int)),
            )
            &&& json::field(made, "token_estimate"@) == Some(
                JsonView::Number(json::NumberView::Integer(c.token_estimate as int)),
            )
        }),
        ({
            let made = preview_value(
                session_id,
                strategy,
                previous_sessions_max,
                target_max_tokens,
                entries,
            );
            &&& json::field(made, "dry_run"@) == Some(JsonView::Bool(true))
            &&& json::field_text(made, "session_id"@) == Some(session_id)
            &&& json::field_text(made, "strategy"@) == Some(strategy)
            &&& json::field_items(made, "entries"@) == Some(entries)
            &&& json::field(made, "entries_fetched"@) == Some(
                JsonView::Number(json::NumberView::Integer(entries.len() as int)),
            )
            &&& json::field(made, "previous_sessions_max"@) == Some(
                JsonView::Number(json::NumberView::Integer(previous_sessions_max as int)),
            )
            &&& json::field(made, "target_max_tokens"@) == Some(
                JsonView::Number(json::NumberView::Integer(target_max_tokens as int)),
            )
        }),
{
    dry_run_keys_differ();
    reveal_with_fuel(json::member, 8);
}

} // verus!
