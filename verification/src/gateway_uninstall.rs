//! Removing the service of an instance.
use vstd::prelude::*;

use crate::error::CliError;
use crate::gateway_history::{self, operation_entry_at};
use crate::gateway_service::{self, ServicePlatform};
use crate::instances::{
    EntryView, InstanceRecord, OperationAction, OperationHistoryEntry, OperationOutcome, StatusView,
};
use crate::text;

verus! {

#[derive(Debug)]
pub struct GatewayUninstallArgs {
    pub name: String,
    pub state_dir: Option<String>,
}

pub fn platform_name(platform: &ServicePlatform) -> (r: &'static str)
    ensures
        r@ == gateway_service::display_name_of(*platform),
{
    platform.display_name()
}

pub open spec fn uninstall_entry(
    status: StatusView,
    outcome: Result<ServicePlatform, Seq<char>>,
    now: Seq<char>,
) -> EntryView {
    match outcome {
        Ok(platform) => gateway_history::unchanged_entry(
            OperationAction::Uninstall,
            OperationOutcome::Succeeded,
            Some("removed from "@ + gateway_service::display_name_of(platform)),
            status,
            now,
        ),
        Err(reason) => gateway_history::unchanged_entry(
            OperationAction::Uninstall,
            OperationOutcome::Failed,
            Some(reason),
            status,
            now,
        ),
    }
}

pub open spec fn outcome_of(outcome: Result<ServicePlatform, CliError>) -> Result<
    ServicePlatform,
    Seq<char>,
> {
    match outcome {
        Ok(platform) => Ok(platform),
        Err(e) => Err(e@.message),
    }
}

/// The entry that the history of an instance gets when its service is removed,
/// or could not be removed.
pub fn record_uninstall(
    record: &InstanceRecord,
    outcome: &Result<ServicePlatform, CliError>,
    now: &str,
) -> (r: OperationHistoryEntry)
    ensures
        r@ == uninstall_entry(record.status@, outcome_of(*outcome), now@),
{
    match outcome {
        Ok(platform) => operation_entry_at(
            OperationAction::Uninstall,
            OperationOutcome::Succeeded,
            Some(text::concat("removed from ", platform_name(platform))),
            record,
            now,
        ),
        Err(error) => operation_entry_at(
            OperationAction::Uninstall,
            OperationOutcome::Failed,
            Some(error.to_string()),
            record,
            now,
        ),
    }
}

/// The lines that report the removal.
pub fn removed_lines(platform: &ServicePlatform, name: &str, service_file: &str) -> (r: Vec<String>)
    ensures
        text::texts(r@) == seq![
            "removed "@ + gateway_service::display_name_of(*platform) + " service "@ + name@,
            "service file: "@ + service_file@,
        ],
{
    let mut removed = "removed ".to_string();
    removed.append(platform_name(platform));
    removed.append(" service ");
    removed.append(name);
    let lines: Vec<String> = vec![removed, text::concat("service file: ", service_file)];
    assert(text::texts(lines@) =~= seq![
        "removed "@ + gateway_service::display_name_of(*platform) + " service "@ + name@,
        "service file: "@ + service_file@,
    ]);
    lines
}

} // verus!
