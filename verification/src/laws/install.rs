//! What holds of every install.

use vstd::prelude::*;
use crate::model::{EntrypointView, EnvironmentView, FailureKind, FailureView, ReceiptView};
use crate::reconcile::{
    bound_to, calls_for_refinement, derived_settings, new_receipt, operation_outcome, pending,
    reuse_permitted, transition, well_formed, Action, EventView, Notice, OutcomeView,
    ReconcilerView, Stage,
};
use crate::request::{asks_latest, InstallRequestView};
use crate::settings::{asks_reinstall, asks_upgrade, merge_options, upgrade_directive};

verus! {

/// The state that an install is in after `events` have come in their order.
pub open spec fn run(state: ReconcilerView, events: Seq<EventView>) -> ReconcilerView
    decreases events.len(),
{
    if events.len() == 0 {
        state
    } else {
        transition(run(state, events.drop_last()), events.last()).0
    }
}

/// Whether an action resolves, builds or removes anything of an environment.
pub open spec fn works_on_environment(action: Action) -> bool {
    match action {
        Action::ResolveEnvironment => true,
        Action::RefineInterpreter => true,
        Action::RemoveEntrypoints => true,
        Action::UpdateEnvironment => true,
        Action::CreateEnvironment => true,
        Action::SyncEnvironment => true,
        Action::RemoveEnvironment => true,
        Action::InstallEntrypoints => true,
        _ => false,
    }
}

/// A forced request asks for the tool to be installed again, whatever its settings.
pub proof fn forced_request_asks_reinstall(request: InstallRequestView, name: Seq<char>)
    requires
        request.force,
    ensures
        asks_reinstall(derived_settings(request, name)),
{
    let settings = derived_settings(request, name);
    assert(settings.reinstall_package is Some);
    assert(settings.reinstall_package->0[0] == name);
}

/// A request for the latest version asks for the upgrade of the tool,
/// whatever its settings.
pub proof fn latest_request_asks_upgrade(request: InstallRequestView, name: Seq<char>)
    requires
        asks_latest(request.request),
    ensures
        asks_upgrade(derived_settings(request, name)),
{
    let upgraded = merge_options(upgrade_directive(name), request.options);
    assert(upgraded.upgrade_package is Some);
    assert(upgraded.upgrade_package->0[0] == name);
    let settings = derived_settings(request, name);
    assert(settings.upgrade_package == upgraded.upgrade_package);
    assert(settings.upgrade == upgraded.upgrade);
}

/// An install of what is installed already does no work. Where nothing
/// forces, upgrades or reinstalls, the receipt records the requirements,
/// constraints, overrides and build constraints of the request, and the
/// environment is bound to the interpreter: the install ends at once as
/// already installed, or it writes the receipt with the new settings and ends
/// then; and whatever events come, no state asks for work on an environment.
pub proof fn unchanged_install_does_no_work(
    state: ReconcilerView,
    found: EnvironmentView,
    events: Seq<EventView>,
)
    requires
        state.stage == Stage::DecideReuse,
        bound_to(Some(found), state),
        reuse_permitted(state),
    ensures
        ({
            let reused = transition(state, EventView::EnvironmentRead(Some(found))).0;
            let written = transition(reused, EventView::Completed).0;
            &&& reused.stage == Stage::Done || reused.stage == Stage::ReuseMetadataOnly
            &&& reused.stage == Stage::Done ==> reused.outcome == Some(
                OutcomeView::AlreadyInstalled,
            )
            &&& written.stage == Stage::Done && written.outcome == Some(
                OutcomeView::AlreadyInstalled,
            )
            &&& !works_on_environment(pending(run(reused, events).stage))
        }),
    decreases events.len(),
{
    let reused = transition(state, EventView::EnvironmentRead(Some(found))).0;
    if events.len() > 0 {
        unchanged_install_does_no_work(state, found, events.drop_last());
        let before = run(reused, events.drop_last());
        lemma_reuse_stays(state, found, events.drop_last());
        assert(before.stage == Stage::Done || before.stage == Stage::ReuseMetadataOnly);
    }
}

/// Once an install reuses what is installed, it only writes the receipt or is done.
proof fn lemma_reuse_stays(state: ReconcilerView, found: EnvironmentView, events: Seq<EventView>)
    requires
        state.stage == Stage::DecideReuse,
        bound_to(Some(found), state),
        reuse_permitted(state),
    ensures
        ({
            let reused = transition(state, EventView::EnvironmentRead(Some(found))).0;
            let last = run(reused, events);
            last.stage == Stage::Done || last.stage == Stage::ReuseMetadataOnly
        }),
    decreases events.len(),
{
    if events.len() > 0 {
        lemma_reuse_stays(state, found, events.drop_last());
    }
}

/// A forced install rebuilds: whatever the receipt records and whatever
/// environment is found, the install goes on to resolve the environment.
pub proof fn forced_install_rebuilds(state: ReconcilerView, found: Option<EnvironmentView>)
    requires
        state.stage == Stage::DecideReuse,
        state.request.force,
    ensures
        transition(state, EventView::EnvironmentRead(found)).0.stage == Stage::Resolve,
        pending(transition(state, EventView::EnvironmentRead(found)).0.stage)
            == Action::ResolveEnvironment,
{
}

/// An install that asks for an upgrade rebuilds, whatever the receipt records.
pub proof fn upgrading_install_rebuilds(state: ReconcilerView, found: Option<EnvironmentView>)
    requires
        state.stage == Stage::DecideReuse,
        asks_upgrade(state.settings),
    ensures
        transition(state, EventView::EnvironmentRead(found)).0.stage == Stage::Resolve,
{
}

/// What the tool store holds: the environments and the receipts of the
/// tools, each under the name of its tool.
pub struct StoreView {
    pub environments: Map<Seq<char>, EnvironmentView>,
    pub receipts: Map<Seq<char>, ReceiptView>,
}

/// The name of the tool that an install is about.
pub open spec fn tool_name(state: ReconcilerView) -> Seq<char> {
    state.requirement->0.name
}

/// The store after the work that `state` waits for was done with the outcome
/// `answer`: a created environment takes the place of the one held under the
/// name of the tool, whose receipt goes with it; a removed one is gone and
/// its receipt with it; a written receipt is held under the name of the
/// tool. Other work, and work that failed, leaves the store as it is.
pub open spec fn store_after(
    store: StoreView,
    state: ReconcilerView,
    answer: EventView,
) -> StoreView {
    match (pending(state.stage), answer) {
        (Action::CreateEnvironment, EventView::EnvironmentReady(environment)) => StoreView {
            environments: store.environments.insert(tool_name(state), environment),
            receipts: store.receipts.remove(tool_name(state)),
        },
        (Action::RemoveEnvironment, EventView::Completed) => StoreView {
            environments: store.environments.remove(tool_name(state)),
            receipts: store.receipts.remove(tool_name(state)),
        },
        (Action::WriteReceipt, EventView::Completed) => match state.receipt {
            Some(receipt) => StoreView {
                receipts: store.receipts.insert(tool_name(state), receipt),
                ..store
            },
            None => store,
        },
        _ => store,
    }
}

/// A sync that fails is rolled back before the failure is the outcome. The
/// state that follows the failed sync is not done: it asks for the removal of
/// the environment. Once that is answered the install is done with the
/// failure of the sync as its outcome, and holds no environment. In a store in
/// which the removal was done, no environment is held under the name of the
/// tool.
pub proof fn failed_sync_is_rolled_back(
    state: ReconcilerView,
    failure: FailureView,
    answer: EventView,
    store: StoreView,
)
    requires
        state.stage == Stage::Sync,
        answer is Completed || answer is Failed,
    ensures
        ({
            let rolled = transition(state, EventView::Failed(failure)).0;
            let last = transition(rolled, answer).0;
            &&& rolled.stage == Stage::Rollback
            &&& pending(rolled.stage) == Action::RemoveEnvironment
            &&& tool_name(rolled) == tool_name(state)
            &&& last.stage == Stage::Done
            &&& last.outcome == Some(operation_outcome(failure))
            &&& last.environment is None
            &&& !store_after(store, rolled, EventView::Completed).environments.contains_key(
                tool_name(state),
            )
            &&& !store_after(store, rolled, EventView::Completed).receipts.contains_key(
                tool_name(state),
            )
        }),
{
}

/// Once the new environment is created, and while it is filled, the store
/// holds no receipt of the tool.
pub proof fn new_environment_has_no_receipt(
    state: ReconcilerView,
    created: EnvironmentView,
    store: StoreView,
)
    requires
        state.stage == Stage::CreateNew,
    ensures
        transition(state, EventView::EnvironmentReady(created)).0.stage == Stage::Sync,
        !store_after(store, state, EventView::EnvironmentReady(created)).receipts.contains_key(
            tool_name(state),
        ),
        store_after(store, state, EventView::EnvironmentReady(created)).environments[tool_name(
            state,
        )] == created,
{
}

/// The entrypoints of an earlier install are removed only once the
/// environment was resolved: a state asks for their removal only as the
/// answer to a resolution that succeeded.
pub proof fn entrypoints_outlive_failed_resolution(state: ReconcilerView, event: EventView)
    requires
        transition(state, event).0.stage == Stage::RemoveEntrypoints,
    ensures
        state.stage == Stage::Resolve,
        event is EnvironmentResolved,
        state.prior_receipt is Some,
{
}

/// An environment is created or updated only once it was resolved.
pub proof fn environment_is_built_after_resolution(state: ReconcilerView, event: EventView)
    requires
        well_formed(state),
        state.stage != Stage::Done,
        ({
            let next = transition(state, event).0;
            next.stage == Stage::CreateNew || next.stage == Stage::UpdateExisting
        }),
    ensures
        transition(state, event).0.resolution is Some,
        state.stage == Stage::Resolve || state.stage == Stage::RemoveEntrypoints,
{
}

/// The interpreter is refined at most once: a state asks for a refinement
/// only where none was made before, and a refinement once made stays made.
pub proof fn interpreter_is_refined_once(state: ReconcilerView, event: EventView)
    ensures
        state.stage != Stage::RefineInterpreter && transition(state, event).0.stage
            == Stage::RefineInterpreter ==> !state.refined && transition(state, event).0.refined,
        state.refined ==> transition(state, event).0.refined,
        state.refined ==> state.stage == Stage::RefineInterpreter || transition(
            state,
            event,
        ).0.stage != Stage::RefineInterpreter,
{
}

/// After the refinement the failure that comes second is the outcome: that
/// of the refinement itself, which goes to the diagnostics, or that of the
/// second resolution. The failure of the first resolution is held nowhere.
pub proof fn second_failure_is_the_outcome(state: ReconcilerView, failure: FailureView)
    requires
        state.stage == Stage::RefineInterpreter || (state.stage == Stage::Resolve
            && state.refined),
    ensures
        transition(state, EventView::Failed(failure)).0.stage == Stage::Done,
        state.stage == Stage::RefineInterpreter ==> transition(
            state,
            EventView::Failed(failure),
        ).0.outcome == Some(OutcomeView::Diagnostic(failure)),
        state.stage == Stage::Resolve ==> transition(
            state,
            EventView::Failed(failure),
        ).0.outcome == Some(operation_outcome(failure)),
{
}

/// A failed resolution is answered by a refinement exactly where it calls for one.
pub proof fn refinement_follows_unmet_bound(state: ReconcilerView, failure: FailureView)
    requires
        state.stage == Stage::Resolve,
    ensures
        calls_for_refinement(state, failure) ==> transition(
            state,
            EventView::Failed(failure),
        ).0.stage == Stage::RefineInterpreter && transition(
            state,
            EventView::Failed(failure),
        ).0.unmet_python == failure.unmet_python,
        !calls_for_refinement(state, failure) ==> transition(
            state,
            EventView::Failed(failure),
        ).0.outcome == Some(operation_outcome(failure)),
{
}

/// An install ends as installed only once the receipt that it built was
/// written: the state before is the one that waits for the receipt to be
/// written, and the event is the completion of that.
pub proof fn installed_means_receipt_written(state: ReconcilerView, event: EventView)
    requires
        well_formed(state),
        state.stage != Stage::Done,
        transition(state, event).0.outcome == Some(OutcomeView::Installed),
    ensures
        state.stage == Stage::Persist,
        event is Completed,
        state.receipt is Some,
{
}

/// Whether an event can be the outcome of the work that a stage waits for.
pub open spec fn answers(event: EventView, stage: Stage) -> bool {
    event is Failed || match stage {
        Stage::ResolveInterpreter => event is InterpreterFound,
        Stage::ResolveTarget => event is TargetResolved,
        Stage::ResolveSupplementary => event is SupplementaryResolved,
        Stage::ReadReceipt => event is ReceiptRead,
        Stage::HealStore => event is Completed,
        Stage::DecideReuse => event is EnvironmentRead,
        Stage::ReuseMetadataOnly => event is Completed,
        Stage::Resolve => event is EnvironmentResolved,
        Stage::RefineInterpreter => event is InterpreterFound,
        Stage::RemoveEntrypoints => event is Completed,
        Stage::UpdateExisting => event is EnvironmentReady,
        Stage::CreateNew => event is EnvironmentReady,
        Stage::Sync => event is EnvironmentReady,
        Stage::Rollback => event is Completed,
        Stage::Finalize => event is EntrypointsInstalled,
        Stage::Persist => event is Completed,
        Stage::Done => true,
    }
}

/// An install whose events answer its actions never ends out of order.
pub proof fn answered_install_keeps_order(state: ReconcilerView, event: EventView)
    requires
        well_formed(state),
        state.outcome != Some(OutcomeView::OutOfOrder),
        answers(event, state.stage),
    ensures
        transition(state, event).0.outcome != Some(OutcomeView::OutOfOrder),
{
}

/// An install that asks for the latest version rebuilds, whatever the
/// receipt records.
pub proof fn latest_install_rebuilds(state: ReconcilerView, found: Option<EnvironmentView>)
    requires
        well_formed(state),
        state.stage == Stage::DecideReuse,
        asks_latest(state.request.request),
    ensures
        transition(state, EventView::EnvironmentRead(found)).0.stage == Stage::Resolve,
{
    latest_request_asks_upgrade(state.request, state.requirement->0.name);
}

/// Whether an event is the success of a resolution of the environment.
pub open spec fn resolves(event: EventView) -> bool {
    event is EnvironmentResolved
}

/// A resolution that fails leaves the earlier install as it is. Whatever
/// events come after the failure, as long as no resolution succeeds: no state
/// asks for the removal of the entrypoints, for work on the environment of
/// the tool in the store, or for a receipt to be written.
pub proof fn failed_resolution_leaves_the_install(
    state: ReconcilerView,
    failure: FailureView,
    events: Seq<EventView>,
)
    requires
        state.stage == Stage::Resolve,
        forall|i: int| 0 <= i < events.len() ==> !resolves(#[trigger] events[i]),
    ensures
        ({
            let last = run(transition(state, EventView::Failed(failure)).0, events);
            &&& last.stage == Stage::RefineInterpreter || last.stage == Stage::Resolve
                || last.stage == Stage::Done
            &&& pending(last.stage) != Action::RemoveEntrypoints
            &&& pending(last.stage) != Action::UpdateEnvironment
            &&& pending(last.stage) != Action::CreateEnvironment
            &&& pending(last.stage) != Action::SyncEnvironment
            &&& pending(last.stage) != Action::RemoveEnvironment
            &&& pending(last.stage) != Action::InstallEntrypoints
            &&& pending(last.stage) != Action::WriteReceipt
        }),
    decreases events.len(),
{
    if events.len() > 0 {
        let front = events.drop_last();
        assert forall|i: int| 0 <= i < front.len() implies !resolves(#[trigger] front[i]) by {
            assert(front[i] == events[i]);
        }
        failed_resolution_leaves_the_install(state, failure, front);
        assert(!resolves(events[events.len() - 1]));
    }
}

/// A receipt that cannot be read is healed. The install takes the tool as
/// not installed: it asks for the removal of the environment and holds no
/// earlier receipt. With the environment removed, which the user is told, or
/// not there in the first place, which the user is not told, the install
/// goes on to look up the environment; any other failure of the removal ends
/// the command. From there no reuse is permitted, and the receipt that the
/// install builds in the end is flagged.
pub proof fn unreadable_receipt_is_healed(
    state: ReconcilerView,
    unreadable: FailureView,
    failure: FailureView,
    found: Option<EnvironmentView>,
)
    requires
        well_formed(state),
        state.stage == Stage::ReadReceipt,
    ensures
        ({
            let healing = transition(state, EventView::Failed(unreadable)).0;
            let removed = transition(healing, EventView::Completed);
            let failed = transition(healing, EventView::Failed(failure));
            &&& pending(healing.stage) == Action::RemoveEnvironment
            &&& healing.stage == Stage::HealStore
            &&& healing.invalid_receipt
            &&& healing.prior_receipt is None
            &&& healing.outcome is None
            &&& pending(removed.0.stage) == Action::ReadEnvironment
            &&& removed.1 == Some(Notice::RemovedInvalidReceipt)
            &&& removed.0.invalid_receipt
            &&& failure.kind == FailureKind::NotFound ==> failed.0 == removed.0 && failed.1
                is None
            &&& failure.kind != FailureKind::NotFound ==> failed.0.stage == Stage::Done
                && failed.0.outcome == Some(OutcomeView::Failed(failure)) && failed.1 is None
            &&& !reuse_permitted(removed.0)
            &&& pending(transition(removed.0, EventView::EnvironmentRead(found)).0.stage)
                == Action::ResolveEnvironment
        }),
{
}

/// An unreadable receipt is remembered to the end: no step forgets it, and
/// the receipt that an install builds after it is flagged.
pub proof fn unreadable_receipt_flags_the_new_one(
    state: ReconcilerView,
    event: EventView,
    environment: EnvironmentView,
    entrypoints: Seq<EntrypointView>,
)
    requires
        state.invalid_receipt,
    ensures
        transition(state, event).0.invalid_receipt,
        new_receipt(state, environment, entrypoints).invalid,
{
}

} // verus!
