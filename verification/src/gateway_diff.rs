//! What the last operation on an instance changed.
use vstd::prelude::*;

use crate::error::{self, CliError, ErrorView};
use crate::instances::{self, EntryView, InstanceRecord, OperationHistoryEntry};
use crate::text;

verus! {

/// The last operation, with the configuration before and after it.
#[derive(Debug)]
pub struct DiffOutput {
    pub instance_id: String,
    pub latest_action: String,
    pub latest_outcome: String,
    pub previous_version: Option<String>,
    pub previous_sha256: Option<String>,
    pub active_version: Option<String>,
    pub active_sha256: Option<String>,
    pub recorded_at: String,
    pub version_changed: bool,
}

pub struct DiffView {
    pub instance_id: Seq<char>,
    pub latest_action: Seq<char>,
    pub latest_outcome: Seq<char>,
    pub previous_version: Option<Seq<char>>,
    pub previous_sha256: Option<Seq<char>>,
    pub active_version: Option<Seq<char>>,
    pub active_sha256: Option<Seq<char>>,
    pub recorded_at: Seq<char>,
    pub version_changed: bool,
}

impl View for DiffOutput {
    type V = DiffView;

    open spec fn view(&self) -> DiffView {
        DiffView {
            instance_id: self.instance_id@,
            latest_action: self.latest_action@,
            latest_outcome: self.latest_outcome@,
            previous_version: text::opt(self.previous_version),
            previous_sha256: text::opt(self.previous_sha256),
            active_version: text::opt(self.active_version),
            active_sha256: text::opt(self.active_sha256),
            recorded_at: self.recorded_at@,
            version_changed: self.version_changed,
        }
    }
}

/// True when an operation left another configuration than it found.
pub open spec fn changed(entry: EntryView) -> bool {
    entry.previous_version != entry.active_version || entry.previous_sha256 != entry.active_sha256
}

pub fn version_changed(entry: &OperationHistoryEntry) -> (r: bool)
    ensures
        r == changed(entry@),
{
    !text::same_opt(&entry.previous_version, &entry.active_version) || !text::same_opt(
        &entry.previous_sha256,
        &entry.active_sha256,
    )
}

pub open spec fn diff_of(name: Seq<char>, entry: EntryView) -> DiffView {
    DiffView {
        instance_id: name,
        latest_action: instances::action_word(entry.action),
        latest_outcome: instances::outcome_word(entry.outcome),
        previous_version: entry.previous_version,
        previous_sha256: entry.previous_sha256,
        active_version: entry.active_version,
        active_sha256: entry.active_sha256,
        recorded_at: entry.recorded_at,
        version_changed: changed(entry),
    }
}

pub open spec fn unknown_instance(name: Seq<char>) -> ErrorView {
    error::user_error("instance "@ + name + " not found"@)
}

/// The diff of the last operation; none where nothing was done yet, and an error
/// where there is no such instance.
pub fn latest_diff(name: &str, record: Option<&InstanceRecord>) -> (r: Result<
    Option<DiffOutput>,
    CliError,
>)
    ensures
        match record {
            None => r matches Err(e) && e@ == unknown_instance(name@),
            Some(record) => if record.operations_history@.len() == 0 {
                r matches Ok(None)
            } else {
                r matches Ok(Some(diff)) && diff@ == diff_of(
                    name@,
                    record.operations_history@.last()@,
                )
            },
        },
{
    let record = match record {
        Some(record) => record,
        None => {
            let mut message = "instance ".to_string();
            message.append(name);
            message.append(" not found");
            return Err(CliError::user(message));
        },
    };
    let count: usize = record.operations_history.len();
    if count == 0 {
        return Ok(None);
    }
    let latest = &record.operations_history[count - 1];
    Ok(
        Some(
            DiffOutput {
                instance_id: name.to_string(),
                latest_action: latest.action.word().to_string(),
                latest_outcome: latest.outcome.word().to_string(),
                previous_version: text::copy_opt(&latest.previous_version),
                previous_sha256: text::copy_opt(&latest.previous_sha256),
                active_version: text::copy_opt(&latest.active_version),
                active_sha256: text::copy_opt(&latest.active_sha256),
                recorded_at: latest.recorded_at.clone(),
                version_changed: version_changed(latest),
            },
        ),
    )
}

/// The text for an instance on which nothing was done yet.
pub fn no_history_message(name: &str) -> (r: String)
    ensures
        r@ == "No operations history for instance '"@ + name@ + "'."@,
{
    let mut message = "No operations history for instance '".to_string();
    message.append(name);
    message.append("'.");
    message
}

/// A version with its digest, behind a label.
pub open spec fn config_line(
    label: Seq<char>,
    version: Option<Seq<char>>,
    sha256: Option<Seq<char>>,
) -> Seq<char> {
    label + text::or_else(version, "<none>"@) + " sha256="@ + text::or_else(sha256, "<none>"@)
}

fn format_config_line(label: &str, version: &Option<String>, sha256: &Option<String>) -> (r: String)
    ensures
        r@ == config_line(label@, text::opt(*version), text::opt(*sha256)),
{
    let mut line = label.to_string();
    line.append(text::unwrap_text(version, "<none>").as_str());
    line.append(" sha256=");
    line.append(text::unwrap_text(sha256, "<none>").as_str());
    line
}

pub open spec fn lines_of(diff: DiffView) -> Seq<Seq<char>> {
    seq![
        "Instance: "@ + diff.instance_id,
        "Last operation: "@ + diff.latest_action + " ("@ + diff.latest_outcome + ")"@,
        "Recorded at: "@ + diff.recorded_at,
        Seq::empty(),
        config_line("  Previous: version="@, diff.previous_version, diff.previous_sha256),
        config_line("  Active:   version="@, diff.active_version, diff.active_sha256),
        if diff.version_changed {
            "  \u{2192} Config version CHANGED"@
        } else {
            "  \u{2192} Config version unchanged"@
        },
    ]
}

pub fn diff_lines(diff: &DiffOutput) -> (r: Vec<String>)
    ensures
        text::texts(r@) == lines_of(diff@),
{
    let mut operation = "Last operation: ".to_string();
    operation.append(diff.latest_action.as_str());
    operation.append(" (");
    operation.append(diff.latest_outcome.as_str());
    operation.append(")");
    let verdict = if diff.version_changed {
        "  \u{2192} Config version CHANGED"
    } else {
        "  \u{2192} Config version unchanged"
    };
    let lines: Vec<String> = vec![
        text::concat("Instance: ", diff.instance_id.as_str()),
        operation,
        text::concat("Recorded at: ", diff.recorded_at.as_str()),
        String::new(),
        format_config_line("  Previous: version=", &diff.previous_version, &diff.previous_sha256),
        format_config_line("  Active:   version=", &diff.active_version, &diff.active_sha256),
        verdict.to_string(),
    ];
    assert(text::texts(lines@) =~= lines_of(diff@));
    lines
}

} // verus!
