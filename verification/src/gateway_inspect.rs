//! Inspecting an instance that the supervisor holds.
use vstd::prelude::*;

use crate::error::CliError;
use crate::gateway_history::{self, HistoryActionFilter};
use crate::gateway_status::{self, show_record, GatewayStatusArgs, RecordOutput};
use crate::instances::{self, missing_instance_error, InstanceRecord, SupervisorStateMetadata};
use crate::text;

verus! {

#[derive(Debug)]
pub struct GatewayInspectArgs {
    pub name: String,
    pub state_dir: Option<String>,
    pub json: bool,
    pub history_limit: usize,
    pub history_action: Option<HistoryActionFilter>,
    pub history_json: bool,
}

/// What is shown of an instance, in the form that was asked for. An instance that
/// the supervisor does not hold is an error.
pub fn inspect<'a>(
    args: &GatewayInspectArgs,
    supervisor: &SupervisorStateMetadata,
    record: Option<&'a InstanceRecord>,
    region: Option<&str>,
) -> (r: Result<RecordOutput<'a>, CliError>)
    ensures
        match r {
            Ok(output) => record is Some && match output {
                RecordOutput::History(entries) => args.history_json
                    && gateway_history::entries_of(entries@) == gateway_history::recent(
                    instances::history(record->0.operations_history@),
                    args.history_limit as nat,
                    args.history_action,
                ),
                RecordOutput::Record(entries) => !args.history_json && args.json
                    && gateway_history::entries_of(entries@) == gateway_history::recent(
                    instances::history(record->0.operations_history@),
                    args.history_limit as nat,
                    args.history_action,
                ),
                RecordOutput::Text(shown) => !args.history_json && !args.json && shown@
                    == text::join(
                    gateway_status::record_lines(
                        *supervisor,
                        record->0.spec@,
                        record->0.status@,
                        instances::history(record->0.operations_history@),
                        args.history_limit as nat,
                        args.history_action,
                        text::opt_ref(region),
                    ),
                    "\n"@,
                ),
            },
            Err(e) => record is None && e@ == instances::missing_instance(args.name@),
        },
{
    match record {
        Some(record) => Ok(
            show_record(
                supervisor,
                record,
                &GatewayStatusArgs {
                    name: args.name.clone(),
                    state_dir: text::copy_opt(&args.state_dir),
                    json: args.json,
                    history_limit: args.history_limit,
                    history_action: args.history_action,
                    history_json: args.history_json,
                },
                region,
            ),
        ),
        None => Err(missing_instance_error(args.name.as_str())),
    }
}

} // verus!
