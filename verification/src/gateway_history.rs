//! The history of the operations on an instance.
use vstd::prelude::*;

use crate::clock;
use crate::instances::{
    self, EntryView, InstanceRecord, OperationAction, OperationHistoryEntry, OperationOutcome,
    StatusView,
};
use crate::text;

verus! {

/// The kinds of operations that a history can be narrowed to.
#[derive(Clone, Copy, Debug, PartialEq, Eq, Structural)]
pub enum HistoryActionFilter {
    Reload,
    Reconcile,
    Revert,
    Install,
    Start,
    Stop,
    Uninstall,
    Upgrade,
}

/// The entry of an operation that leaves the configuration as the status has it.
pub open spec fn unchanged_entry(
    action: OperationAction,
    outcome: OperationOutcome,
    reason: Option<Seq<char>>,
    status: StatusView,
    now: Seq<char>,
) -> EntryView {
    EntryView {
        action,
        outcome,
        reason,
        previous_version: status.observed_config_version,
        previous_sha256: status.observed_config_sha256,
        target_version: status.observed_config_version,
        target_sha256: status.observed_config_sha256,
        active_version: status.observed_config_version,
        active_sha256: status.observed_config_sha256,
        recorded_at: now,
    }
}

/// The entry of an operation that leaves the configuration as it was, recorded
/// at `now`.
pub fn operation_entry_at(
    action: OperationAction,
    outcome: OperationOutcome,
    reason: Option<String>,
    record: &InstanceRecord,
    now: &str,
) -> (r: OperationHistoryEntry)
    ensures
        r@ == unchanged_entry(action, outcome, text::opt(reason), record.status@, now@),
{
    OperationHistoryEntry {
        action,
        outcome,
        reason,
        previous_version: text::copy_opt(&record.status.observed_config_version),
        previous_sha256: text::copy_opt(&record.status.observed_config_sha256),
        target_version: text::copy_opt(&record.status.observed_config_version),
        target_sha256: text::copy_opt(&record.status.observed_config_sha256),
        active_version: text::copy_opt(&record.status.observed_config_version),
        active_sha256: text::copy_opt(&record.status.observed_config_sha256),
        recorded_at: now.to_string(),
    }
}

/// The entry of an operation that leaves the configuration as it was, recorded
/// at the time of the call.
pub fn build_operation_entry(
    action: OperationAction,
    outcome: OperationOutcome,
    reason: Option<String>,
    record: &InstanceRecord,
) -> (r: OperationHistoryEntry)
    ensures
        r@ == unchanged_entry(
            action,
            outcome,
            text::opt(reason),
            record.status@,
            r@.recorded_at,
        ),
{
    let now = clock::timestamp();
    operation_entry_at(action, outcome, reason, record, now.as_str())
}

pub open spec fn label_of(action: OperationAction) -> Seq<char> {
    match action {
        OperationAction::Reload => "reload"@,
        OperationAction::Reconcile => "reconcile"@,
        OperationAction::CancelReconcile => "cancel_reconcile"@,
        OperationAction::Revert => "revert"@,
        OperationAction::Install => "install"@,
        OperationAction::Start => "start"@,
        OperationAction::Stop => "stop"@,
        OperationAction::Uninstall => "uninstall"@,
        OperationAction::UpgradePlan => "upgrade_plan"@,
        OperationAction::UpgradeApply => "upgrade_apply"@,
        OperationAction::UpgradeRollback => "upgrade_rollback"@,
    }
}

pub fn action_label(action: OperationAction) -> (r: &'static str)
    ensures
        r@ == label_of(action),
{
    match action {
        OperationAction::Reload => "reload",
        OperationAction::Reconcile => "reconcile",
        OperationAction::CancelReconcile => "cancel_reconcile",
        OperationAction::Revert => "revert",
        OperationAction::Install => "install",
        OperationAction::Start => "start",
        OperationAction::Stop => "stop",
        OperationAction::Uninstall => "uninstall",
        OperationAction::UpgradePlan => "upgrade_plan",
        OperationAction::UpgradeApply => "upgrade_apply",
        OperationAction::UpgradeRollback => "upgrade_rollback",
    }
}

pub open spec fn filter_label_of(filter: HistoryActionFilter) -> Seq<char> {
    match filter {
        HistoryActionFilter::Reload => "reload"@,
        HistoryActionFilter::Reconcile => "reconcile"@,
        HistoryActionFilter::Revert => "revert"@,
        HistoryActionFilter::Install => "install"@,
        HistoryActionFilter::Start => "start"@,
        HistoryActionFilter::Stop => "stop"@,
        HistoryActionFilter::Uninstall => "uninstall"@,
        HistoryActionFilter::Upgrade => "upgrade"@,
    }
}

pub fn history_filter_label(filter: HistoryActionFilter) -> (r: &'static str)
    ensures
        r@ == filter_label_of(filter),
{
    match filter {
        HistoryActionFilter::Reload => "reload",
        HistoryActionFilter::Reconcile => "reconcile",
        HistoryActionFilter::Revert => "revert",
        HistoryActionFilter::Install => "install",
        HistoryActionFilter::Start => "start",
        HistoryActionFilter::Stop => "stop",
        HistoryActionFilter::Uninstall => "uninstall",
        HistoryActionFilter::Upgrade => "upgrade",
    }
}

/// The one filter that lets an action through.
pub open spec fn filter_of(action: OperationAction) -> HistoryActionFilter {
    match action {
        OperationAction::Reload => HistoryActionFilter::Reload,
        OperationAction::Reconcile | OperationAction::CancelReconcile =>
            HistoryActionFilter::Reconcile,
        OperationAction::Revert => HistoryActionFilter::Revert,
        OperationAction::Install => HistoryActionFilter::Install,
        OperationAction::Start => HistoryActionFilter::Start,
        OperationAction::Stop => HistoryActionFilter::Stop,
        OperationAction::Uninstall => HistoryActionFilter::Uninstall,
        OperationAction::UpgradePlan | OperationAction::UpgradeApply
        | OperationAction::UpgradeRollback => HistoryActionFilter::Upgrade,
    }
}

/// True when a filter lets an action through.
pub fn matches_filter(action: OperationAction, filter: HistoryActionFilter) -> (r: bool)
    ensures
        r == (filter_of(action) == filter),
{
    match action {
        OperationAction::Reload => filter == HistoryActionFilter::Reload,
        OperationAction::Reconcile => filter == HistoryActionFilter::Reconcile,
        OperationAction::CancelReconcile => filter == HistoryActionFilter::Reconcile,
        OperationAction::Revert => filter == HistoryActionFilter::Revert,
        OperationAction::Install => filter == HistoryActionFilter::Install,
        OperationAction::Start => filter == HistoryActionFilter::Start,
        OperationAction::Stop => filter == HistoryActionFilter::Stop,
        OperationAction::Uninstall => filter == HistoryActionFilter::Uninstall,
        OperationAction::UpgradePlan => filter == HistoryActionFilter::Upgrade,
        OperationAction::UpgradeApply => filter == HistoryActionFilter::Upgrade,
        OperationAction::UpgradeRollback => filter == HistoryActionFilter::Upgrade,
    }
}

/// True of the entries that a filter lets through; without one, of all.
pub open spec fn wanted(entry: EntryView, filter: Option<HistoryActionFilter>) -> bool {
    match filter {
        Some(f) => filter_of(entry.action) == f,
        None => true,
    }
}

/// The wanted entries, the latest first.
pub open spec fn latest_first(
    history: Seq<EntryView>,
    filter: Option<HistoryActionFilter>,
) -> Seq<EntryView> {
    history.reverse().filter(|e: EntryView| wanted(e, filter))
}

/// A limit of zero asks for one entry.
pub open spec fn effective_limit(limit: nat) -> nat {
    if limit == 0 {
        1
    } else {
        limit
    }
}

/// The wanted entries, the latest first, and no more of them than the limit.
pub open spec fn recent(
    history: Seq<EntryView>,
    limit: nat,
    filter: Option<HistoryActionFilter>,
) -> Seq<EntryView> {
    let all = latest_first(history, filter);
    if all.len() <= effective_limit(limit) {
        all
    } else {
        all.take(effective_limit(limit) as int)
    }
}

/// The entries behind a list of references.
pub open spec fn entries_of(v: Seq<&OperationHistoryEntry>) -> Seq<EntryView> {
    Seq::new(v.len(), |i: int| v[i]@)
}

pub fn filter_history(
    operations_history: &[OperationHistoryEntry],
    history_limit: usize,
    action_filter: Option<HistoryActionFilter>,
) -> (r: Vec<&OperationHistoryEntry>)
    ensures
        entries_of(r@) == recent(
            instances::history(operations_history@),
            history_limit as nat,
            action_filter,
        ),
{
    let limit: usize = if history_limit == 0 {
        1
    } else {
        history_limit
    };
    let mut out: Vec<&OperationHistoryEntry> = Vec::new();
    let mut i: usize = operations_history.len();
    let ghost all = instances::history(operations_history@).reverse();
    let ghost keep = |e: EntryView| wanted(e, action_filter);
    proof {
        reveal(Seq::filter);
        assert(entries_of(out@) =~= all.take(0).filter(keep));
    }
    while i > 0 && out.len() < limit
        invariant
            i <= operations_history@.len(),
            all == instances::history(operations_history@).reverse(),
            keep == (|e: EntryView| wanted(e, action_filter)),
            entries_of(out@) == all.take(operations_history@.len() - i).filter(keep),
            out@.len() <= limit,
        decreases i,
    {
        i = i - 1;
        let entry = &operations_history[i];
        let keeps = match action_filter {
            Some(filter) => matches_filter(entry.action, filter),
            None => true,
        };
        let ghost n = operations_history@.len() - i;
        let ghost before = out@;
        if keeps {
            out.push(entry);
        }
        proof {
            reveal(Seq::filter);
            assert(all.take(n).drop_last() =~= all.take(n - 1));
            assert(all.take(n).last() == entry@);
            if keeps {
                assert(entries_of(out@) =~= entries_of(before).push(entry@));
            }
        }
    }
    proof {
        let n = operations_history@.len() - i;
        assert(all =~= all.take(n) + all.skip(n));
        Seq::filter_distributes_over_add(all.take(n), all.skip(n), keep);
        if i == 0 {
            assert(all.take(n) =~= all);
        } else {
            assert(all.filter(keep).take(limit as int) =~= all.take(n).filter(keep));
        }
    }
    out
}

/// What a history shows: entries of the history that the filter lets through,
/// at least one where there is one, and never more than the limit.
pub proof fn recent_is_wanted_history(
    history: Seq<EntryView>,
    limit: nat,
    filter: Option<HistoryActionFilter>,
)
    ensures
        recent(history, limit, filter).len() <= effective_limit(limit),
        forall|i: int|
            0 <= i < recent(history, limit, filter).len() ==> wanted(
                #[trigger] recent(history, limit, filter)[i],
                filter,
            ) && history.contains(recent(history, limit, filter)[i]),
        (exists|i: int| 0 <= i < history.len() && wanted(#[trigger] history[i], filter)) ==> recent(
            history,
            limit,
            filter,
        ).len() >= 1,
{
    let keep = |e: EntryView| wanted(e, filter);
    let all = latest_first(history, filter);
    let back = history.reverse();
    assert forall|i: int| 0 <= i < recent(history, limit, filter).len() implies wanted(
        #[trigger] recent(history, limit, filter)[i],
        filter,
    ) && history.contains(recent(history, limit, filter)[i]) by {
        back.lemma_filter_pred(keep, i);
        assert(all.contains(all[i]));
        back.lemma_filter_contains_rev(keep, all[i]);
        let j = choose|j: int| 0 <= j < back.len() && back[j] == all[i];
        assert(history[history.len() - 1 - j] == all[i]);
    }
    if exists|i: int| 0 <= i < history.len() && wanted(#[trigger] history[i], filter) {
        let i = choose|i: int| 0 <= i < history.len() && wanted(#[trigger] history[i], filter);
        assert(back[history.len() - 1 - i] == history[i]);
        back.lemma_filter_contains(keep, history.len() - 1 - i);
    }
}

/// The first entry shown is the latest of the wanted ones.
pub proof fn recent_starts_with_the_latest(
    history: Seq<EntryView>,
    limit: nat,
    filter: Option<HistoryActionFilter>,
)
    requires
        history.len() > 0,
        wanted(history.last(), filter),
    ensures
        recent(history, limit, filter).len() >= 1,
        recent(history, limit, filter)[0] == history.last(),
{
    let keep = |e: EntryView| wanted(e, filter);
    let back = history.reverse();
    assert(back =~= seq![history.last()] + back.skip(1));
    Seq::filter_distributes_over_add(seq![history.last()], back.skip(1), keep);
    reveal(Seq::filter);
    assert(seq![history.last()].drop_last() =~= Seq::<EntryView>::empty());
    assert(seq![history.last()].filter(keep) =~= seq![history.last()]);
}

/// Where the limit leaves room, nothing that the filter lets through is left out.
pub proof fn recent_is_complete_within_the_limit(
    history: Seq<EntryView>,
    limit: nat,
    filter: Option<HistoryActionFilter>,
    i: int,
)
    requires
        0 <= i < history.len(),
        wanted(history[i], filter),
        recent(history, limit, filter).len() < effective_limit(limit),
    ensures
        recent(history, limit, filter).contains(history[i]),
{
    let keep = |e: EntryView| wanted(e, filter);
    let back = history.reverse();
    assert(back[history.len() - 1 - i] == history[i]);
    back.lemma_filter_contains(keep, history.len() - 1 - i);
}

} // verus!
