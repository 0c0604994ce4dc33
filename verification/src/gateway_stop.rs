//! Stopping an instance.
use vstd::prelude::*;

use crate::error::CliError;
use crate::gateway_history::{self, operation_entry_at};
use crate::instances::{
    EntryView, GatewayInstanceLifecycle, GatewayInstanceStatus, InstanceRecord, OperationAction,
    OperationHistoryEntry, OperationOutcome, StatusView,
};
use crate::text;

verus! {

#[derive(Debug)]
pub struct GatewayStopArgs {
    pub name: String,
    pub state_dir: Option<String>,
}

/// The status of an instance whose service was stopped.
pub open spec fn stopped(status: StatusView, now: Seq<char>) -> StatusView {
    StatusView {
        lifecycle: GatewayInstanceLifecycle::Stopped,
        last_seen_at: Some(now),
        updated_at: now,
        ..status
    }
}

pub open spec fn stop_entry(
    status: StatusView,
    failure: Option<Seq<char>>,
    now: Seq<char>,
) -> EntryView {
    match failure {
        None => gateway_history::unchanged_entry(
            OperationAction::Stop,
            OperationOutcome::Succeeded,
            Some("service stop requested"@),
            status,
            now,
        ),
        Some(reason) => gateway_history::unchanged_entry(
            OperationAction::Stop,
            OperationOutcome::Failed,
            Some(reason),
            status,
            now,
        ),
    }
}

/// What is kept of a stop: the new status, if the service was stopped, and the
/// entry of the history. `failure` is the error of the service manager.
pub fn record_stop(record: &InstanceRecord, failure: Option<&CliError>, now: &str) -> (r: (
    Option<GatewayInstanceStatus>,
    OperationHistoryEntry,
))
    ensures
        match failure {
            None => r.0 matches Some(status) && status@ == stopped(record.status@, now@),
            Some(_) => r.0 is None,
        },
        r.1@ == stop_entry(
            record.status@,
            match failure {
                Some(e) => Some(e@.message),
                None => None,
            },
            now@,
        ),
{
    match failure {
        Some(error) => {
            let entry = operation_entry_at(
                OperationAction::Stop,
                OperationOutcome::Failed,
                Some(error.to_string()),
                record,
                now,
            );
            (None, entry)
        },
        None => {
            let mut status = record.status.copy();
            status.lifecycle = GatewayInstanceLifecycle::Stopped;
            status.last_seen_at = Some(now.to_string());
            status.updated_at = now.to_string();
            let entry = operation_entry_at(
                OperationAction::Stop,
                OperationOutcome::Succeeded,
                Some("service stop requested".to_string()),
                record,
                now,
            );
            (Some(status), entry)
        },
    }
}

pub fn stopped_message(name: &str) -> (r: String)
    ensures
        r@ == "stopped "@ + name@,
{
    text::concat("stopped ", name)
}

} // verus!
