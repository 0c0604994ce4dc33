//! What an operator reads of an instance.
use vstd::prelude::*;

use crate::error::{self, CliError, ErrorView};
use crate::gateway_history::{
    self, action_label, filter_history, history_filter_label, HistoryActionFilter,
};
use crate::gateway_service::ServiceStatus;
use crate::instances::{
    self, EntryView, InstanceRecord, OperationHistoryEntry, SpecView, StatusView,
    SupervisorStateMetadata,
};
use crate::text;

verus! {

#[derive(Debug)]
pub struct GatewayStatusArgs {
    pub name: String,
    pub state_dir: Option<String>,
    pub json: bool,
    pub history_limit: usize,
    pub history_action: Option<HistoryActionFilter>,
    pub history_json: bool,
}

/// The parts of the line of one operation.
pub open spec fn entry_parts(entry: EntryView) -> Seq<Seq<char>> {
    seq![
        entry.recorded_at,
        gateway_history::label_of(entry.action),
        instances::outcome_word(entry.outcome),
    ] + text::labelled("target="@, entry.target_version) + text::labelled(
        "active="@,
        entry.active_version,
    ) + text::labelled("reason="@, entry.reason)
}

pub open spec fn entry_line(entry: EntryView) -> Seq<char> {
    text::join(entry_parts(entry), " | "@)
}

pub fn format_history_entry(entry: &OperationHistoryEntry) -> (r: String)
    ensures
        r@ == entry_line(entry@),
{
    let mut parts: Vec<String> = vec![
        entry.recorded_at.clone(),
        action_label(entry.action).to_string(),
        entry.outcome.word().to_string(),
    ];
    assert(text::texts(parts@) =~= seq![
        entry@.recorded_at,
        gateway_history::label_of(entry@.action),
        instances::outcome_word(entry@.outcome),
    ]);
    text::push_labelled(&mut parts, "target=", text::borrow_opt(&entry.target_version));
    text::push_labelled(&mut parts, "active=", text::borrow_opt(&entry.active_version));
    text::push_labelled(&mut parts, "reason=", text::borrow_opt(&entry.reason));
    text::join_texts(&parts, " | ")
}

/// The lines of a history: one for each entry, or one that says that there is none.
pub open spec fn history_lines(entries: Seq<EntryView>) -> Seq<Seq<char>> {
    if entries.len() == 0 {
        seq!["- none"@]
    } else {
        Seq::new(entries.len(), |i: int| "- "@ + entry_line(entries[i]))
    }
}

/// The region that is shown; a blank one counts as not set.
pub open spec fn shown_region(region: Option<Seq<char>>) -> Seq<char> {
    match region {
        Some(r) => if text::is_blank(r) {
            "(not set)"@
        } else {
            r
        },
        None => "(not set)"@,
    }
}

/// The configuration that was seen last, with its digest.
pub open spec fn observed_config(status: StatusView) -> Option<Seq<char>> {
    match status.observed_config_version {
        Some(version) => Some(
            version + " ("@ + text::or_else(status.observed_config_sha256, "unknown"@) + ")"@,
        ),
        None => None,
    }
}

pub open spec fn history_title(filter: Option<HistoryActionFilter>) -> Seq<char> {
    match filter {
        Some(f) => "recent history (action="@ + gateway_history::filter_label_of(f) + "):"@,
        None => "recent history:"@,
    }
}

/// What the supervisor says of its own state.
pub open spec fn supervisor_lines(supervisor: SupervisorStateMetadata) -> Seq<Seq<char>> {
    seq!["state dir: "@ + supervisor.state_dir@] + (if supervisor.recovered_from_backup {
        seq!["recovered from backup: true"@]
    } else {
        Seq::empty()
    }) + text::labelled("recovery message: "@, text::opt(supervisor.recovery_message))
}

/// The report on an instance, line by line.
pub open spec fn record_lines(
    supervisor: SupervisorStateMetadata,
    spec: SpecView,
    status: StatusView,
    history: Seq<EntryView>,
    limit: nat,
    filter: Option<HistoryActionFilter>,
    region: Option<Seq<char>>,
) -> Seq<Seq<char>> {
    seq![
        "instance: "@ + spec.instance_id,
        "gateway id: "@ + spec.gateway_id,
        "name: "@ + spec.name,
        "region: "@ + shown_region(region),
        "listen: "@ + spec.listen_addr,
        "lifecycle: "@ + instances::lifecycle_word(status.lifecycle),
    ] + text::labelled("observed config: "@, observed_config(status)) + text::labelled(
        "last error: "@,
        status.last_error,
    ) + text::labelled("last reconciled at: "@, status.last_reconciled_at) + text::labelled(
        "last reconciliation outcome: "@,
        status.last_reconciliation_outcome,
    ) + text::labelled("last reconciliation error: "@, status.last_reconciliation_error)
        + supervisor_lines(supervisor) + seq![history_title(filter)] + history_lines(
        gateway_history::recent(history, limit, filter),
    )
}

/// Renders the report on an instance. `region` is the region of the environment.
pub fn render_supervisor_record(
    supervisor: &SupervisorStateMetadata,
    record: &InstanceRecord,
    history_limit: usize,
    history_action: Option<HistoryActionFilter>,
    region: Option<&str>,
) -> (r: String)
    ensures
        r@ == text::join(
            record_lines(
                *supervisor,
                record.spec@,
                record.status@,
                instances::history(record.operations_history@),
                history_limit as nat,
                history_action,
                text::opt_ref(region),
            ),
            "\n"@,
        ),
{
    let ghost status = record.status@;
    let effective_region: &str = match region {
        Some(region) => if text::is_blank_text(region) {
            "(not set)"
        } else {
            region
        },
        None => "(not set)",
    };
    let mut lines: Vec<String> = vec![
        text::concat("instance: ", record.spec.instance_id.as_str()),
        text::concat("gateway id: ", record.spec.gateway_id.as_str()),
        text::concat("name: ", record.spec.name.as_str()),
        text::concat("region: ", effective_region),
        text::concat("listen: ", record.spec.listen_addr.as_str()),
        text::concat("lifecycle: ", record.status.lifecycle.word()),
    ];
    assert(text::texts(lines@) =~= seq![
        "instance: "@ + record.spec@.instance_id,
        "gateway id: "@ + record.spec@.gateway_id,
        "name: "@ + record.spec@.name,
        "region: "@ + shown_region(text::opt_ref(region)),
        "listen: "@ + record.spec@.listen_addr,
        "lifecycle: "@ + instances::lifecycle_word(status.lifecycle),
    ]);
    let observed: Option<String> = match &record.status.observed_config_version {
        Some(version) => {
            let mut value = version.clone();
            value.append(" (");
            value.append(
                text::unwrap_text(&record.status.observed_config_sha256, "unknown").as_str(),
            );
            value.append(")");
            Some(value)
        },
        None => None,
    };
    text::push_labelled(&mut lines, "observed config: ", text::borrow_opt(&observed));
    text::push_labelled(
        &mut lines,
        "last error: ",
        text::borrow_opt(&record.status.last_error),
    );
    text::push_labelled(
        &mut lines,
        "last reconciled at: ",
        text::borrow_opt(&record.status.last_reconciled_at),
    );
    text::push_labelled(
        &mut lines,
        "last reconciliation outcome: ",
        text::borrow_opt(&record.status.last_reconciliation_outcome),
    );
    text::push_labelled(
        &mut lines,
        "last reconciliation error: ",
        text::borrow_opt(&record.status.last_reconciliation_error),
    );
    let ghost head = text::texts(lines@);
    text::push_line(&mut lines, text::concat("state dir: ", supervisor.state_dir.as_str()));
    if supervisor.recovered_from_backup {
        text::push_line(&mut lines, "recovered from backup: true".to_string());
    }
    text::push_labelled(
        &mut lines,
        "recovery message: ",
        text::borrow_opt(&supervisor.recovery_message),
    );
    assert(text::texts(lines@) =~= head + supervisor_lines(*supervisor));
    let title = match history_action {
        Some(filter) => {
            let mut title = "recent history (action=".to_string();
            title.append(history_filter_label(filter));
            title.append("):");
            title
        },
        None => "recent history:".to_string(),
    };
    text::push_line(&mut lines, title);
    let entries = filter_history(
        record.operations_history.as_slice(),
        history_limit,
        history_action,
    );
    let ghost top = text::texts(lines@);
    let ghost shown = gateway_history::entries_of(entries@);
    if entries.len() == 0 {
        text::push_line(&mut lines, "- none".to_string());
    } else {
        let mut i: usize = 0;
        assert(text::texts(lines@) =~= top + history_lines(shown).take(0));
        while i < entries.len()
            invariant
                i <= entries.len(),
                shown == gateway_history::entries_of(entries@),
                shown.len() > 0,
                text::texts(lines@) == top + history_lines(shown).take(i as int),
            decreases entries.len() - i,
        {
            let ghost before = text::texts(lines@);
            text::push_line(
                &mut lines,
                text::concat("- ", format_history_entry(entries[i]).as_str()),
            );
            assert(history_lines(shown).take(i + 1) =~= history_lines(shown).take(i as int).push(
                "- "@ + entry_line(shown[i as int]),
            ));
            assert(text::texts(lines@) =~= top + history_lines(shown).take(i + 1));
            i = i + 1;
        }
        assert(history_lines(shown).take(i as int) =~= history_lines(shown));
    }
    text::join_texts(&lines, "\n")
}

/// The form in which a record is shown, with the operations that it shows.
#[derive(Debug)]
pub enum RecordOutput<'a> {
    /// As JSON, the history alone.
    History(Vec<&'a OperationHistoryEntry>),
    /// As JSON, with the specification and the status.
    Record(Vec<&'a OperationHistoryEntry>),
    /// As text.
    Text(String),
}

/// Which form of a record is asked for, and what goes into it. The history alone
/// goes before the whole record, and JSON before text.
pub fn show_record<'a>(
    supervisor: &SupervisorStateMetadata,
    record: &'a InstanceRecord,
    args: &GatewayStatusArgs,
    region: Option<&str>,
) -> (r: RecordOutput<'a>)
    ensures
        match r {
            RecordOutput::History(entries) => args.history_json && gateway_history::entries_of(
                entries@,
            ) == gateway_history::recent(
                instances::history(record.operations_history@),
                args.history_limit as nat,
                args.history_action,
            ),
            RecordOutput::Record(entries) => !args.history_json && args.json
                && gateway_history::entries_of(entries@) == gateway_history::recent(
                instances::history(record.operations_history@),
                args.history_limit as nat,
                args.history_action,
            ),
            RecordOutput::Text(shown) => !args.history_json && !args.json && shown@ == text::join(
                record_lines(
                    *supervisor,
                    record.spec@,
                    record.status@,
                    instances::history(record.operations_history@),
                    args.history_limit as nat,
                    args.history_action,
                    text::opt_ref(region),
                ),
                "\n"@,
            ),
        },
{
    if args.history_json || args.json {
        let entries = filter_history(
            record.operations_history.as_slice(),
            args.history_limit,
            args.history_action,
        );
        if args.history_json {
            RecordOutput::History(entries)
        } else {
            RecordOutput::Record(entries)
        }
    } else {
        RecordOutput::Text(
            render_supervisor_record(
                supervisor,
                record,
                args.history_limit,
                args.history_action,
                region,
            ),
        )
    }
}

/// The error for a name that is neither an instance nor a service.
pub open spec fn not_found(name: Seq<char>) -> ErrorView {
    error::user_error(
        "gateway instance '"@ + name
            + "' not found in supervisor state and is not installed as a service"@,
    )
}

pub open spec fn service_lines(
    label: Seq<char>,
    state: Seq<char>,
    pid: Option<Seq<char>>,
    service_file: Seq<char>,
) -> Seq<Seq<char>> {
    seq!["label: "@ + label, "state: "@ + state] + text::labelled("pid: "@, pid) + seq![
        "service file: "@ + service_file,
    ]
}

pub open spec fn opt_pid(pid: Option<u32>) -> Option<Seq<char>> {
    match pid {
        Some(p) => Some(text::decimal(p as nat)),
        None => None,
    }
}

/// The report on a service that the supervisor does not know. `service_file_found`
/// tells whether its file is there.
pub fn service_report(name: &str, status: &ServiceStatus, service_file_found: bool) -> (r: Result<
    Vec<String>,
    CliError,
>)
    ensures
        match r {
            Ok(lines) => service_file_found && text::texts(lines@) == service_lines(
                status.label@,
                status.state@,
                opt_pid(status.pid),
                status.service_file@,
            ),
            Err(e) => !service_file_found && e@ == not_found(name@),
        },
{
    if !service_file_found {
        let mut message = "gateway instance '".to_string();
        message.append(name);
        message.append("' not found in supervisor state and is not installed as a service");
        return Err(CliError::user(message));
    }
    let mut lines: Vec<String> = vec![
        text::concat("label: ", status.label.as_str()),
        text::concat("state: ", status.state.as_str()),
    ];
    assert(text::texts(lines@) =~= seq!["label: "@ + status.label@, "state: "@ + status.state@]);
    let pid: Option<String> = match status.pid {
        Some(pid) => Some(text::number_text(pid as u64)),
        None => None,
    };
    text::push_labelled(&mut lines, "pid: ", text::borrow_opt(&pid));
    text::push_line(&mut lines, text::concat("service file: ", status.service_file.as_str()));
    Ok(lines)
}

} // verus!
