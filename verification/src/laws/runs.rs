//! What holds of whole runs of an install, from one state through the
//! events that answer its work to the receipt.

use vstd::prelude::*;
use crate::laws::install::latest_request_asks_upgrade;
use crate::model::{
    EntrypointView, EnvironmentView, FailureKind, FailureView, InterpreterView, PinView,
    ReceiptView,
};
use crate::reconcile::{
    bound_to, derived_settings, exit_of, initial, new_receipt, pending, reuse_permitted,
    transition, unconstrained_requirement, Action, EventView, Exit, OutcomeView, ReconcilerView,
    Stage, SupplementaryView,
};
use crate::request::{InstallRequestView, TargetView, ToolRequestView};
use crate::settings::{asks_upgrade, merge_options, upgrade_directive};

verus! {

/// The state once the entrypoints of the earlier install are removed, where
/// the state asks for that, and else the state itself.
pub open spec fn cleared(state: ReconcilerView) -> ReconcilerView {
    if state.stage == Stage::RemoveEntrypoints {
        transition(state, EventView::Completed).0
    } else {
        state
    }
}

/// Where reuse is not permitted, the environment is resolved. The
/// environment that was found is kept where it is bound to the interpreter,
/// and nothing else of the state changes.
pub proof fn refused_reuse_resolves(state: ReconcilerView, found: Option<EnvironmentView>)
    requires
        state.stage == Stage::DecideReuse,
        !reuse_permitted(state),
    ensures
        transition(state, EventView::EnvironmentRead(found)).0 == (ReconcilerView {
            stage: Stage::Resolve,
            environment: if bound_to(found, state) {
                found
            } else {
                None
            },
            ..state
        }),
{
}

/// A resolution that succeeds leads to the building of the environment. The
/// removal of the entrypoints of the earlier install is asked for first
/// exactly where there was an earlier receipt. Then the existing environment
/// is updated, or one is created where none exists; nothing else of the state
/// changes but that it holds the resolved set.
pub proof fn resolution_leads_to_building(state: ReconcilerView, resolution: Seq<PinView>)
    requires
        state.stage == Stage::Resolve,
    ensures
        ({
            let resolved = transition(state, EventView::EnvironmentResolved(resolution)).0;
            &&& resolved.stage == Stage::RemoveEntrypoints <==> state.prior_receipt is Some
            &&& cleared(resolved) == (ReconcilerView {
                stage: if state.environment is Some {
                    Stage::UpdateExisting
                } else {
                    Stage::CreateNew
                },
                resolution: Some(resolution),
                ..state
            })
        }),
{
}

/// An update of the existing environment runs to its receipt: the updated
/// environment gets its entrypoints, the receipt is built from the lists
/// and the settings of the request, the interpreter of the environment and
/// the entrypoints, and once it is written the install is done as installed.
pub proof fn update_runs_to_a_receipt(
    state: ReconcilerView,
    updated: EnvironmentView,
    entrypoints: Seq<EntrypointView>,
)
    requires
        state.stage == Stage::UpdateExisting,
    ensures
        ({
            let finalizing = transition(state, EventView::EnvironmentReady(updated)).0;
            let persisting = transition(
                finalizing,
                EventView::EntrypointsInstalled(entrypoints),
            ).0;
            let done = transition(persisting, EventView::Completed).0;
            &&& pending(finalizing.stage) == Action::InstallEntrypoints
            &&& finalizing.environment == Some(updated)
            &&& pending(persisting.stage) == Action::WriteReceipt
            &&& persisting.receipt == Some(new_receipt(state, updated, entrypoints))
            &&& done.stage == Stage::Done
            &&& done.outcome == Some(OutcomeView::Installed)
        }),
{
    let finalizing = transition(state, EventView::EnvironmentReady(updated)).0;
    assert(finalizing.stage == Stage::Finalize);
    let persisting = transition(finalizing, EventView::EntrypointsInstalled(entrypoints)).0;
    assert(persisting.receipt == Some(new_receipt(finalizing, updated, entrypoints)));
}

/// A new environment runs to its receipt: it is filled, gets its
/// entrypoints, the receipt is built with the interpreter of the environment
/// that the filling handed back, and once it is written the install is done
/// as installed.
pub proof fn new_environment_runs_to_a_receipt(
    state: ReconcilerView,
    created: EnvironmentView,
    filled: EnvironmentView,
    entrypoints: Seq<EntrypointView>,
)
    requires
        state.stage == Stage::CreateNew,
    ensures
        ({
            let syncing = transition(state, EventView::EnvironmentReady(created)).0;
            let finalizing = transition(syncing, EventView::EnvironmentReady(filled)).0;
            let persisting = transition(
                finalizing,
                EventView::EntrypointsInstalled(entrypoints),
            ).0;
            let done = transition(persisting, EventView::Completed).0;
            &&& pending(syncing.stage) == Action::SyncEnvironment
            &&& syncing.environment == Some(created)
            &&& syncing.fresh
            &&& pending(finalizing.stage) == Action::InstallEntrypoints
            &&& finalizing.environment == Some(filled)
            &&& pending(persisting.stage) == Action::WriteReceipt
            &&& persisting.receipt == Some(new_receipt(state, filled, entrypoints))
            &&& done.stage == Stage::Done
            &&& done.outcome == Some(OutcomeView::Installed)
        }),
{
    let syncing = transition(state, EventView::EnvironmentReady(created)).0;
    assert(syncing.stage == Stage::Sync);
    let finalizing = transition(syncing, EventView::EnvironmentReady(filled)).0;
    assert(finalizing.stage == Stage::Finalize);
    let persisting = transition(finalizing, EventView::EntrypointsInstalled(entrypoints)).0;
    assert(persisting.receipt == Some(new_receipt(finalizing, filled, entrypoints)));
}

/// A resolution that fails on a lower bound that the interpreter does not
/// meet is resolved again with the refined interpreter. Of the failure only
/// the bound is kept. The second resolution starts from the state of the
/// first, with the refined interpreter in place of the first one; where it
/// succeeds, an environment is created.
pub proof fn refinement_resolves_again(
    state: ReconcilerView,
    failure: FailureView,
    refined: InterpreterView,
    resolution: Seq<PinView>,
)
    requires
        state.stage == Stage::Resolve,
        state.outcome is None,
        !state.refined,
        state.environment is None,
        failure.kind == FailureKind::Operation,
        failure.unmet_python is Some,
    ensures
        ({
            let refining = transition(state, EventView::Failed(failure)).0;
            let again = transition(refining, EventView::InterpreterFound(refined)).0;
            let resolved = transition(again, EventView::EnvironmentResolved(resolution)).0;
            &&& pending(refining.stage) == Action::RefineInterpreter
            &&& refining.unmet_python == failure.unmet_python
            &&& refining.outcome is None
            &&& again == (ReconcilerView {
                stage: Stage::Resolve,
                interpreter: Some(refined),
                unmet_python: failure.unmet_python,
                refined: true,
                ..state
            })
            &&& resolved.stage == Stage::RemoveEntrypoints <==> state.prior_receipt is Some
            &&& cleared(resolved) == (ReconcilerView {
                stage: Stage::CreateNew,
                resolution: Some(resolution),
                ..again
            })
        }),
{
    let refining = transition(state, EventView::Failed(failure)).0;
    assert(refining.stage == Stage::RefineInterpreter);
    let again = transition(refining, EventView::InterpreterFound(refined)).0;
    assert(again.stage == Stage::Resolve);
}

/// An install of the latest version of a package reaches the decision on
/// reuse without any resolution of its target, and there reuse is refused
/// whatever the receipt records. With the interpreter found the requirement
/// on the tool is on the package at any version, and the settings ask for
/// the upgrade of the package.
pub proof fn latest_install_reaches_the_decision(
    request: InstallRequestView,
    name: Seq<char>,
    extras: Seq<Seq<char>>,
    interpreter: InterpreterView,
    supplementary: SupplementaryView,
    receipt: Option<ReceiptView>,
)
    requires
        request.request matches ToolRequestView::Package { target, .. } && target
            == (TargetView::Latest { name, extras }),
        !request.editable,
    ensures
        ({
            let named = transition(initial(request), EventView::InterpreterFound(interpreter)).0;
            let gathered = transition(
                named,
                EventView::SupplementaryResolved(supplementary),
            ).0;
            let read = transition(gathered, EventView::ReceiptRead(receipt)).0;
            &&& pending(initial(request).stage) == Action::FindInterpreter
            &&& pending(named.stage) == Action::ResolveSupplementary
            &&& named.requirement == Some(unconstrained_requirement(name, extras))
            &&& named.settings == derived_settings(request, name)
            &&& asks_upgrade(named.settings)
            &&& named.settings.upgrade_package is Some
            &&& named.settings.upgrade_package->0[0] == name
            &&& pending(gathered.stage) == Action::ReadReceipt
            &&& gathered.requirements == seq![unconstrained_requirement(name, extras)]
                + supplementary.requirements
            &&& gathered.constraints == supplementary.constraints
            &&& gathered.overrides == supplementary.overrides
            &&& gathered.build_constraints == supplementary.build_constraints
            &&& read.stage == Stage::DecideReuse
            &&& read.interpreter == Some(interpreter)
            &&& read.settings == named.settings
            &&& read.prior_receipt == receipt
            &&& !reuse_permitted(read)
        }),
{
    let named = transition(initial(request), EventView::InterpreterFound(interpreter)).0;
    assert(named.stage == Stage::ResolveSupplementary);
    assert(named.settings == derived_settings(request, name));
    latest_request_asks_upgrade(request, name);
    assert(named.settings.upgrade_package is Some && named.settings.upgrade_package->0[0]
        == name) by {
        let upgraded = merge_options(upgrade_directive(name), request.options);
        assert(upgraded.upgrade_package is Some);
        assert(upgraded.upgrade_package->0[0] == name);
        assert(named.settings.upgrade_package == upgraded.upgrade_package);
    }
    let gathered = transition(named, EventView::SupplementaryResolved(supplementary)).0;
    assert(gathered.stage == Stage::ReadReceipt);
    let read = transition(gathered, EventView::ReceiptRead(receipt)).0;
    assert(read.settings == named.settings);
}

/// A forced install of what is installed already runs to a forced receipt.
/// Whatever the receipt of the earlier install records, and so also where it
/// records the requirements, constraints, overrides, build constraints and
/// settings of the request: the environment is resolved, the entrypoints of
/// the earlier install are removed, the existing environment is updated to
/// the resolved set, its entrypoints are put in place, and the receipt that
/// is written holds the four lists of the request and the flag of a forced
/// install. The install ends as installed, which is a success.
pub proof fn forced_install_runs_to_a_forced_receipt(
    state: ReconcilerView,
    found: EnvironmentView,
    resolution: Seq<PinView>,
    updated: EnvironmentView,
    entrypoints: Seq<EntrypointView>,
)
    requires
        state.stage == Stage::DecideReuse,
        state.request.force,
        bound_to(Some(found), state),
    ensures
        ({
            let resolving = transition(state, EventView::EnvironmentRead(Some(found))).0;
            let resolved = transition(resolving, EventView::EnvironmentResolved(resolution)).0;
            let updating = cleared(resolved);
            let finalizing = transition(updating, EventView::EnvironmentReady(updated)).0;
            let persisting = transition(
                finalizing,
                EventView::EntrypointsInstalled(entrypoints),
            ).0;
            let done = transition(persisting, EventView::Completed).0;
            &&& pending(resolving.stage) == Action::ResolveEnvironment
            &&& resolved.stage == Stage::RemoveEntrypoints <==> state.prior_receipt is Some
            &&& pending(updating.stage) == Action::UpdateEnvironment
            &&& updating.environment == Some(found)
            &&& updating.resolution == Some(resolution)
            &&& pending(finalizing.stage) == Action::InstallEntrypoints
            &&& pending(persisting.stage) == Action::WriteReceipt
            &&& persisting.receipt == Some(
                ReceiptView {
                    requirements: state.requirements,
                    constraints: state.constraints,
                    overrides: state.overrides,
                    build_constraints: state.build_constraints,
                    options: state.request.options,
                    interpreter: updated.interpreter,
                    entrypoints,
                    invalid: true,
                },
            )
            &&& done.stage == Stage::Done
            &&& done.outcome == Some(OutcomeView::Installed)
            &&& forall|downgraded: bool|
                exit_of(OutcomeView::Installed, downgraded) == Exit::Success
        }),
{
    refused_reuse_resolves(state, Some(found));
    let resolving = transition(state, EventView::EnvironmentRead(Some(found))).0;
    resolution_leads_to_building(resolving, resolution);
    let resolved = transition(resolving, EventView::EnvironmentResolved(resolution)).0;
    update_runs_to_a_receipt(cleared(resolved), updated, entrypoints);
}

/// An install of the latest version of a package runs to an update of the
/// existing environment, whatever the receipt of the earlier install
/// records. With the interpreter found, the requirement on the tool is built
/// without any resolution of the target: it is on the package at any
/// version. The settings ask for the upgrade of the package. With the
/// receipt read and an environment found that is bound to the interpreter,
/// reuse is refused: the environment is resolved and then, once the
/// entrypoints of the earlier install are removed, updated.
pub proof fn latest_install_runs_to_an_update(
    request: InstallRequestView,
    name: Seq<char>,
    extras: Seq<Seq<char>>,
    interpreter: InterpreterView,
    supplementary: SupplementaryView,
    receipt: Option<ReceiptView>,
    found: EnvironmentView,
    resolution: Seq<PinView>,
)
    requires
        request.request matches ToolRequestView::Package { target, .. } && target
            == (TargetView::Latest { name, extras }),
        !request.editable,
        found.interpreter == interpreter,
    ensures
        ({
            let named = transition(initial(request), EventView::InterpreterFound(interpreter)).0;
            let gathered = transition(
                named,
                EventView::SupplementaryResolved(supplementary),
            ).0;
            let read = transition(gathered, EventView::ReceiptRead(receipt)).0;
            let resolving = transition(read, EventView::EnvironmentRead(Some(found))).0;
            let resolved = transition(resolving, EventView::EnvironmentResolved(resolution)).0;
            let updating = cleared(resolved);
            &&& pending(initial(request).stage) == Action::FindInterpreter
            &&& pending(named.stage) == Action::ResolveSupplementary
            &&& named.requirement == Some(unconstrained_requirement(name, extras))
            &&& asks_upgrade(named.settings)
            &&& named.settings.upgrade_package is Some
            &&& named.settings.upgrade_package->0[0] == name
            &&& pending(gathered.stage) == Action::ReadReceipt
            &&& gathered.requirements == seq![unconstrained_requirement(name, extras)]
                + supplementary.requirements
            &&& gathered.constraints == supplementary.constraints
            &&& gathered.overrides == supplementary.overrides
            &&& gathered.build_constraints == supplementary.build_constraints
            &&& pending(read.stage) == Action::ReadEnvironment
            &&& !reuse_permitted(read)
            &&& pending(resolving.stage) == Action::ResolveEnvironment
            &&& resolved.stage == Stage::RemoveEntrypoints <==> receipt is Some
            &&& pending(updating.stage) == Action::UpdateEnvironment
            &&& updating.environment == Some(found)
            &&& updating.resolution == Some(resolution)
            &&& updating.settings == named.settings
        }),
{
    latest_install_reaches_the_decision(request, name, extras, interpreter, supplementary, receipt);
    let named = transition(initial(request), EventView::InterpreterFound(interpreter)).0;
    let gathered = transition(named, EventView::SupplementaryResolved(supplementary)).0;
    let read = transition(gathered, EventView::ReceiptRead(receipt)).0;
    refused_reuse_resolves(read, Some(found));
    let resolving = transition(read, EventView::EnvironmentRead(Some(found))).0;
    resolution_leads_to_building(resolving, resolution);
}

/// An install whose first resolution fails on a lower bound that the
/// interpreter does not meet runs on with the refined interpreter. The
/// failure is answered by the one refinement and is kept nowhere but as the
/// bound. With the refined interpreter found, the environment is resolved a
/// second time, from the same requirements and under the same settings.
/// With that resolution the environment is created for the refined
/// interpreter, filled, and given its entrypoints; the receipt that is
/// written records the interpreter of the environment handed back, and so the
/// refined one where the environment is bound to it. The install ends as
/// installed, which is a success. The stages name the work in its order: one
/// refinement between two resolutions, and none after.
pub proof fn refined_install_runs_to_a_receipt(
    state: ReconcilerView,
    failure: FailureView,
    refined: InterpreterView,
    resolution: Seq<PinView>,
    created: EnvironmentView,
    filled: EnvironmentView,
    entrypoints: Seq<EntrypointView>,
)
    requires
        state.stage == Stage::Resolve,
        state.outcome is None,
        !state.refined,
        state.environment is None,
        failure.kind == FailureKind::Operation,
        failure.unmet_python is Some,
    ensures
        ({
            let refining = transition(state, EventView::Failed(failure)).0;
            let again = transition(refining, EventView::InterpreterFound(refined)).0;
            let resolved = transition(again, EventView::EnvironmentResolved(resolution)).0;
            let creating = cleared(resolved);
            let syncing = transition(creating, EventView::EnvironmentReady(created)).0;
            let finalizing = transition(syncing, EventView::EnvironmentReady(filled)).0;
            let persisting = transition(
                finalizing,
                EventView::EntrypointsInstalled(entrypoints),
            ).0;
            let done = transition(persisting, EventView::Completed).0;
            &&& pending(refining.stage) == Action::RefineInterpreter
            &&& refining.unmet_python == failure.unmet_python
            &&& refining.outcome is None
            &&& pending(again.stage) == Action::ResolveEnvironment
            &&& again.interpreter == Some(refined)
            &&& again.requirements == state.requirements
            &&& again.constraints == state.constraints
            &&& again.overrides == state.overrides
            &&& again.build_constraints == state.build_constraints
            &&& again.settings == state.settings
            &&& again.outcome is None
            &&& resolved.stage == Stage::RemoveEntrypoints <==> state.prior_receipt is Some
            &&& pending(creating.stage) == Action::CreateEnvironment
            &&& creating.interpreter == Some(refined)
            &&& creating.resolution == Some(resolution)
            &&& pending(syncing.stage) == Action::SyncEnvironment
            &&& syncing.environment == Some(created)
            &&& pending(finalizing.stage) == Action::InstallEntrypoints
            &&& finalizing.environment == Some(filled)
            &&& pending(persisting.stage) == Action::WriteReceipt
            &&& persisting.receipt == Some(new_receipt(state, filled, entrypoints))
            &&& persisting.receipt->0.interpreter == filled.interpreter
            &&& filled.interpreter == refined ==> persisting.receipt->0.interpreter == refined
            &&& done.stage == Stage::Done
            &&& done.outcome == Some(OutcomeView::Installed)
            &&& forall|downgraded: bool|
                exit_of(OutcomeView::Installed, downgraded) == Exit::Success
        }),
{
    refinement_resolves_again(state, failure, refined, resolution);
    let refining = transition(state, EventView::Failed(failure)).0;
    let again = transition(refining, EventView::InterpreterFound(refined)).0;
    let resolved = transition(again, EventView::EnvironmentResolved(resolution)).0;
    new_environment_runs_to_a_receipt(cleared(resolved), created, filled, entrypoints);
}

} // verus!
