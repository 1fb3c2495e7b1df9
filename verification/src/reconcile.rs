//! The reconciliation of a tool install.
//!
//! An install alternates outside work (finding an interpreter, resolving
//! requirements, reading and writing the tool store, building an environment)
//! with decisions. The decisions are made here: a [`Reconciler`] is the state
//! of one install, [`Reconciler::begin`] is its first state, and
//! [`Reconciler::step`] takes the outcome of the outside work that the state
//! waits for and gives the next state. Which outside work a state waits for
//! is its [`Action`].
//!
//! The caller holds the lock of the tool store from `begin` until a state
//! asks it to stop, performs each action and hands back what came of it.
//! Where the install has stopped, its [`Outcome`] says which failure, if any,
//! the diagnostics are to report, and [`Outcome::exit`] gives the exit of the
//! command from the outcome and the answer of the diagnostics.

use vstd::prelude::*;
use crate::combine::Combine;
use crate::model::{
    Entrypoint, EntrypointView, Environment, EnvironmentView, Failure, FailureKind, FailureView,
    Interpreter, InterpreterView, Pin, PinView, PythonVersion, Receipt, ReceiptView, Requirement,
    RequirementView, Specifier, SpecifierView,
};
use crate::plain::Plain;
use crate::request::{
    asks_latest, Executable, ExecutableView, InstallRequest, InstallRequestView, Target,
    TargetView, ToolRequest, ToolRequestView,
};
use crate::settings::{
    asks_reinstall, asks_upgrade, merge_options, reinstall_directive, upgrade_directive, Options,
    OptionsView,
};

verus! {

/// Where an install stands: the outside work whose outcome it waits for.
#[derive(Clone, Copy, Debug, PartialEq, Eq, Structural)]
pub enum Stage {
    /// An interpreter that satisfies the request is looked for.
    ResolveInterpreter,
    /// The target is resolved to a requirement on a named package.
    ResolveTarget,
    /// The auxiliary requirements are resolved.
    ResolveSupplementary,
    /// The receipt of an earlier install is read.
    ReadReceipt,
    /// The environment of a receipt that could not be read is removed.
    HealStore,
    /// The environment of an earlier install is looked up: with it the
    /// decision to reuse, update or create falls.
    DecideReuse,
    /// The receipt of the reused install is written with the new settings.
    ReuseMetadataOnly,
    /// The environment is resolved from the requirements.
    Resolve,
    /// An interpreter that meets the lower bound of a failed resolution is
    /// looked for.
    RefineInterpreter,
    /// The entrypoints of the earlier install are removed.
    RemoveEntrypoints,
    /// The existing environment is updated.
    UpdateExisting,
    /// A new environment is created.
    CreateNew,
    /// The new environment is filled.
    Sync,
    /// The new environment, whose filling failed, is removed.
    Rollback,
    /// The entrypoints of the install are put in place.
    Finalize,
    /// The receipt of the install is written.
    Persist,
    /// Nothing is left to do: the outcome is known.
    Done,
}

/// The outside work that a state waits for.
#[derive(Clone, Copy, Debug, PartialEq, Eq, Structural)]
pub enum Action {
    /// Find an interpreter for the request among those of the system, or acquire one.
    FindInterpreter,
    /// Resolve the target of the request to a requirement on a named package.
    ResolveTarget,
    /// Resolve the auxiliary requirements against the interpreter.
    ResolveSupplementary,
    /// Read the receipt of the tool.
    ReadReceipt,
    /// Remove the environment of the tool, and its receipt with it.
    RemoveEnvironment,
    /// Look up the environment of the tool.
    ReadEnvironment,
    /// Write the receipt held by the state.
    WriteReceipt,
    /// Resolve the environment from the requirements, for the interpreter.
    ResolveEnvironment,
    /// Find or acquire an interpreter that meets the lower bound held by the state.
    RefineInterpreter,
    /// Remove the entrypoints that the earlier receipt records.
    RemoveEntrypoints,
    /// Update the existing environment to exactly the resolved set.
    UpdateEnvironment,
    /// Create the environment of the tool, bound to the interpreter.
    CreateEnvironment,
    /// Fill the new environment with exactly the resolved set.
    SyncEnvironment,
    /// Put the entrypoints of the tool in place.
    InstallEntrypoints,
    /// Stop: the state holds the outcome.
    Stop,
}

/// Something that the user is told in passing.
#[derive(Clone, Copy, Debug, PartialEq, Eq, Structural)]
pub enum Notice {
    /// The environment of a receipt that could not be read was removed.
    RemovedInvalidReceipt,
    /// The existing environment is bound to another interpreter and is left aside.
    IgnoredEnvironment,
    /// The tool is installed as requested already.
    AlreadyInstalled,
}

/// A request that cannot be met as it stands.
#[derive(Clone, Copy, Debug, PartialEq, Eq, Structural)]
pub enum UserError {
    /// The interpreter itself was asked for, which is installed by other means.
    InterpreterTarget,
    /// An editable install was asked for of a package at a version.
    EditableUnsupported,
    /// The executable asked for is no package name.
    ExecutableConflict,
    /// The package resolved is not the one that the executable names.
    NameMismatch,
}

/// How an install ended.
#[derive(Clone, Debug, PartialEq, Eq)]
pub enum Outcome {
    /// The environment was created or updated, and the receipt written.
    Installed,
    /// The installed environment was reused as it is.
    AlreadyInstalled,
    /// The request was rejected.
    Rejected(UserError),
    /// A resolution or a sync failed as an operation, or the refinement of
    /// the interpreter failed: the failure is handed to the diagnostics.
    Diagnostic(Failure),
    /// Other outside work failed: the failure ends the command.
    Failed(Failure),
    /// An event came that does not answer the work the state waited for.
    OutOfOrder,
}

/// What an [`Outcome`] stands for.
pub enum OutcomeView {
    Installed,
    AlreadyInstalled,
    Rejected(UserError),
    Diagnostic(FailureView),
    Failed(FailureView),
    OutOfOrder,
}

impl DeepView for Outcome {
    type V = OutcomeView;

    open spec fn deep_view(&self) -> OutcomeView {
        match self {
            Outcome::Installed => OutcomeView::Installed,
            Outcome::AlreadyInstalled => OutcomeView::AlreadyInstalled,
            Outcome::Rejected(error) => OutcomeView::Rejected(*error),
            Outcome::Diagnostic(failure) => OutcomeView::Diagnostic(failure.deep_view()),
            Outcome::Failed(failure) => OutcomeView::Failed(failure.deep_view()),
            Outcome::OutOfOrder => OutcomeView::OutOfOrder,
        }
    }
}

/// How the command of an install ends.
#[derive(Clone, Copy, Debug, PartialEq, Eq, Structural)]
pub enum Exit {
    /// The tool is installed as requested.
    Success,
    /// The install failed, which the diagnostics have told the user, and the
    /// failure is let pass.
    Failure,
    /// The install ends with an error.
    Error,
}

/// The failure that an outcome hands to the diagnostics, where it hands one.
pub open spec fn diagnostic_of(outcome: OutcomeView) -> Option<FailureView> {
    match outcome {
        OutcomeView::Diagnostic(failure) => Some(failure),
        _ => None,
    }
}

/// The exit of an install that ended with `outcome`. An install that was made
/// or reused is a success. A failure that was handed to the diagnostics is
/// let pass where they answer so (`downgraded`), and is an error where they do
/// not. Every other outcome is an error, whatever the diagnostics answer.
pub open spec fn exit_of(outcome: OutcomeView, downgraded: bool) -> Exit {
    match outcome {
        OutcomeView::Installed => Exit::Success,
        OutcomeView::AlreadyInstalled => Exit::Success,
        OutcomeView::Diagnostic(_) => if downgraded {
            Exit::Failure
        } else {
            Exit::Error
        },
        _ => Exit::Error,
    }
}

/// The outcome of a resolution, an update or a sync that failed: a failure
/// of the operation goes to the diagnostics, any other ends the command.
pub open spec fn operation_outcome(failure: FailureView) -> OutcomeView {
    if failure.kind == FailureKind::Operation {
        OutcomeView::Diagnostic(failure)
    } else {
        OutcomeView::Failed(failure)
    }
}

impl Outcome {
    /// The failure that the outcome hands to the diagnostics, where it hands one.
    pub fn diagnostic(&self) -> (failure: Option<&Failure>)
        ensures
            failure.deep_view() == diagnostic_of(self.deep_view()),
    {
        match self {
            Outcome::Diagnostic(failure) => Some(failure),
            _ => None,
        }
    }

    /// The exit of an install that ended with this outcome, where
    /// `downgraded` is the answer of the diagnostics.
    pub fn exit(&self, downgraded: bool) -> (exit: Exit)
        ensures
            exit == exit_of(self.deep_view(), downgraded),
    {
        match self {
            Outcome::Installed => Exit::Success,
            Outcome::AlreadyInstalled => Exit::Success,
            Outcome::Diagnostic(_) => if downgraded {
                Exit::Failure
            } else {
                Exit::Error
            },
            _ => Exit::Error,
        }
    }

    /// The outcome of a resolution, an update or a sync that failed.
    fn of_operation(failure: Failure) -> (outcome: Outcome)
        ensures
            outcome.deep_view() == operation_outcome(failure.deep_view()),
    {
        if failure.kind == FailureKind::Operation {
            Outcome::Diagnostic(failure)
        } else {
            Outcome::Failed(failure)
        }
    }
}

/// The auxiliary requirements of an install, resolved.
#[derive(Clone, Debug, PartialEq, Eq)]
pub struct Supplementary {
    pub requirements: Vec<Requirement>,
    pub constraints: Vec<Requirement>,
    pub overrides: Vec<Requirement>,
    pub build_constraints: Vec<Requirement>,
}

/// What a [`Supplementary`] stands for.
pub struct SupplementaryView {
    pub requirements: Seq<RequirementView>,
    pub constraints: Seq<RequirementView>,
    pub overrides: Seq<RequirementView>,
    pub build_constraints: Seq<RequirementView>,
}

impl DeepView for Supplementary {
    type V = SupplementaryView;

    open spec fn deep_view(&self) -> SupplementaryView {
        SupplementaryView {
            requirements: self.requirements.deep_view(),
            constraints: self.constraints.deep_view(),
            overrides: self.overrides.deep_view(),
            build_constraints: self.build_constraints.deep_view(),
        }
    }
}

/// What came of the outside work that a state waited for.
#[derive(Debug)]
pub enum Event {
    /// An interpreter was found or acquired.
    InterpreterFound(Interpreter),
    /// The target was resolved to a requirement.
    TargetResolved(Requirement),
    /// The auxiliary requirements were resolved.
    SupplementaryResolved(Supplementary),
    /// The receipt was read, or there is none.
    ReceiptRead(Option<Receipt>),
    /// The environment was looked up, and is there or not.
    EnvironmentRead(Option<Environment>),
    /// The environment was resolved, to the set given.
    EnvironmentResolved(Vec<Pin>),
    /// The environment was created, updated or filled.
    EnvironmentReady(Environment),
    /// The entrypoints were put in place.
    EntrypointsInstalled(Vec<Entrypoint>),
    /// The work was done and gives nothing back.
    Completed,
    /// The work failed.
    Failed(Failure),
}

/// What an [`Event`] stands for.
pub enum EventView {
    InterpreterFound(InterpreterView),
    TargetResolved(RequirementView),
    SupplementaryResolved(SupplementaryView),
    ReceiptRead(Option<ReceiptView>),
    EnvironmentRead(Option<EnvironmentView>),
    EnvironmentResolved(Seq<PinView>),
    EnvironmentReady(EnvironmentView),
    EntrypointsInstalled(Seq<EntrypointView>),
    Completed,
    Failed(FailureView),
}

impl DeepView for Event {
    type V = EventView;

    open spec fn deep_view(&self) -> EventView {
        match self {
            Event::InterpreterFound(interpreter) => EventView::InterpreterFound(
                interpreter.deep_view(),
            ),
            Event::TargetResolved(requirement) => EventView::TargetResolved(
                requirement.deep_view(),
            ),
            Event::SupplementaryResolved(resolved) => EventView::SupplementaryResolved(
                resolved.deep_view(),
            ),
            Event::ReceiptRead(receipt) => EventView::ReceiptRead(receipt.deep_view()),
            Event::EnvironmentRead(environment) => EventView::EnvironmentRead(
                environment.deep_view(),
            ),
            Event::EnvironmentResolved(resolution) => EventView::EnvironmentResolved(
                resolution.deep_view(),
            ),
            Event::EnvironmentReady(environment) => EventView::EnvironmentReady(
                environment.deep_view(),
            ),
            Event::EntrypointsInstalled(entrypoints) => EventView::EntrypointsInstalled(
                entrypoints.deep_view(),
            ),
            Event::Completed => EventView::Completed,
            Event::Failed(failure) => EventView::Failed(failure.deep_view()),
        }
    }
}

/// The state of one install.
#[derive(Debug)]
pub struct Reconciler {
    pub stage: Stage,
    pub request: InstallRequest,
    /// The interpreter that the install goes on with.
    pub interpreter: Option<Interpreter>,
    /// The requirement on the tool itself.
    pub requirement: Option<Requirement>,
    /// The effective settings, with the directives that the request implies.
    pub settings: Options,
    /// The requirement on the tool, and after it the supplementary ones.
    pub requirements: Vec<Requirement>,
    pub constraints: Vec<Requirement>,
    pub overrides: Vec<Requirement>,
    pub build_constraints: Vec<Requirement>,
    /// The receipt of the earlier install, where one could be read.
    pub prior_receipt: Option<Receipt>,
    /// A receipt of an earlier install was there and could not be read.
    pub invalid_receipt: bool,
    /// The environment of the tool: the existing one that is bound to the
    /// interpreter, or the one that this install created.
    pub environment: Option<Environment>,
    /// This install created the environment.
    pub fresh: bool,
    /// The lower bound on the interpreter that a failed resolution gave.
    pub unmet_python: Option<PythonVersion>,
    /// The one refinement of the interpreter was made.
    pub refined: bool,
    /// The resolved set.
    pub resolution: Option<Vec<Pin>>,
    /// The receipt to write.
    pub receipt: Option<Receipt>,
    /// How the install ends, once that is known.
    pub outcome: Option<Outcome>,
}

/// What a [`Reconciler`] stands for.
pub struct ReconcilerView {
    pub stage: Stage,
    pub request: InstallRequestView,
    pub interpreter: Option<InterpreterView>,
    pub requirement: Option<RequirementView>,
    pub settings: OptionsView,
    pub requirements: Seq<RequirementView>,
    pub constraints: Seq<RequirementView>,
    pub overrides: Seq<RequirementView>,
    pub build_constraints: Seq<RequirementView>,
    pub prior_receipt: Option<ReceiptView>,
    pub invalid_receipt: bool,
    pub environment: Option<EnvironmentView>,
    pub fresh: bool,
    pub unmet_python: Option<PythonVersion>,
    pub refined: bool,
    pub resolution: Option<Seq<PinView>>,
    pub receipt: Option<ReceiptView>,
    pub outcome: Option<OutcomeView>,
}

impl DeepView for Reconciler {
    type V = ReconcilerView;

    open spec fn deep_view(&self) -> ReconcilerView {
        ReconcilerView {
            stage: self.stage,
            request: self.request.deep_view(),
            interpreter: self.interpreter.deep_view(),
            requirement: self.requirement.deep_view(),
            settings: self.settings.deep_view(),
            requirements: self.requirements.deep_view(),
            constraints: self.constraints.deep_view(),
            overrides: self.overrides.deep_view(),
            build_constraints: self.build_constraints.deep_view(),
            prior_receipt: self.prior_receipt.deep_view(),
            invalid_receipt: self.invalid_receipt,
            environment: self.environment.deep_view(),
            fresh: self.fresh,
            unmet_python: self.unmet_python,
            refined: self.refined,
            resolution: self.resolution.deep_view(),
            receipt: self.receipt.deep_view(),
            outcome: self.outcome.deep_view(),
        }
    }
}

/// What a step gives: the next state, the outside work that it waits for, and
/// what the user is told in passing.
#[derive(Debug)]
pub struct Step {
    pub state: Reconciler,
    pub action: Action,
    pub notice: Option<Notice>,
}

/// The outside work that a stage waits for.
pub open spec fn pending(stage: Stage) -> Action {
    match stage {
        Stage::ResolveInterpreter => Action::FindInterpreter,
        Stage::ResolveTarget => Action::ResolveTarget,
        Stage::ResolveSupplementary => Action::ResolveSupplementary,
        Stage::ReadReceipt => Action::ReadReceipt,
        Stage::HealStore => Action::RemoveEnvironment,
        Stage::DecideReuse => Action::ReadEnvironment,
        Stage::ReuseMetadataOnly => Action::WriteReceipt,
        Stage::Resolve => Action::ResolveEnvironment,
        Stage::RefineInterpreter => Action::RefineInterpreter,
        Stage::RemoveEntrypoints => Action::RemoveEntrypoints,
        Stage::UpdateExisting => Action::UpdateEnvironment,
        Stage::CreateNew => Action::CreateEnvironment,
        Stage::Sync => Action::SyncEnvironment,
        Stage::Rollback => Action::RemoveEnvironment,
        Stage::Finalize => Action::InstallEntrypoints,
        Stage::Persist => Action::WriteReceipt,
        Stage::Done => Action::Stop,
    }
}

/// The first state of the install that `request` asks for.
pub open spec fn initial(request: InstallRequestView) -> ReconcilerView {
    ReconcilerView {
        stage: Stage::ResolveInterpreter,
        request,
        interpreter: None,
        requirement: None,
        settings: request.options,
        requirements: Seq::empty(),
        constraints: Seq::empty(),
        overrides: Seq::empty(),
        build_constraints: Seq::empty(),
        prior_receipt: None,
        invalid_receipt: false,
        environment: None,
        fresh: false,
        unmet_python: None,
        refined: false,
        resolution: None,
        receipt: None,
        outcome: None,
    }
}

/// The state at another stage.
pub open spec fn at(state: ReconcilerView, stage: Stage) -> ReconcilerView {
    ReconcilerView { stage, ..state }
}

/// The state in which the install has ended with `outcome`.
pub open spec fn ended(state: ReconcilerView, outcome: OutcomeView) -> ReconcilerView {
    ReconcilerView { stage: Stage::Done, outcome: Some(outcome), ..state }
}

/// The end of an install on an event that its state has no use for: the
/// failure, where the event is one, and else an event out of order.
pub open spec fn unanswered(state: ReconcilerView, event: EventView) -> ReconcilerView {
    match event {
        EventView::Failed(failure) => ended(state, OutcomeView::Failed(failure)),
        _ => ended(state, OutcomeView::OutOfOrder),
    }
}

/// The requirement on exactly one version of a package.
pub open spec fn exact_requirement(
    name: Seq<char>,
    extras: Seq<Seq<char>>,
    version: Seq<char>,
) -> RequirementView {
    RequirementView { name, extras, specifier: SpecifierView::Exact(version), editable: false }
}

/// The requirement on a package at any version.
pub open spec fn unconstrained_requirement(
    name: Seq<char>,
    extras: Seq<Seq<char>>,
) -> RequirementView {
    RequirementView { name, extras, specifier: SpecifierView::Any, editable: false }
}

/// The settings of an install of the package `name`: those of the request,
/// under the directives that the request implies. A request for the latest
/// version implies the upgrade of the package, a forced one that the package
/// is installed again; each directive takes precedence over the settings.
pub open spec fn derived_settings(request: InstallRequestView, name: Seq<char>) -> OptionsView {
    let upgraded = if asks_latest(request.request) {
        merge_options(upgrade_directive(name), request.options)
    } else {
        request.options
    };
    if request.force {
        merge_options(reinstall_directive(name), upgraded)
    } else {
        upgraded
    }
}

/// The state that goes on with `requirement` as the requirement on the tool.
pub open spec fn with_requirement(
    state: ReconcilerView,
    requirement: RequirementView,
) -> ReconcilerView {
    ReconcilerView {
        stage: Stage::ResolveSupplementary,
        requirement: Some(requirement),
        settings: derived_settings(state.request, requirement.name),
        ..state
    }
}

/// The target of the request, classified: a package at a version or at its
/// latest version gives its requirement at once, and admits no editable
/// install; a name or a place is resolved by outside work, unless the
/// executable asked for is no package name; the interpreter is no tool.
pub open spec fn classify(state: ReconcilerView) -> ReconcilerView {
    match state.request.request {
        ToolRequestView::Python => ended(
            state,
            OutcomeView::Rejected(UserError::InterpreterTarget),
        ),
        ToolRequestView::Package { executable, target } => match target {
            TargetView::Unspecified(_) => if executable matches Some(
                ExecutableView::Malformed(_),
            ) {
                ended(state, OutcomeView::Rejected(UserError::ExecutableConflict))
            } else {
                at(state, Stage::ResolveTarget)
            },
            TargetView::Version { name, extras, version } => if state.request.editable {
                ended(state, OutcomeView::Rejected(UserError::EditableUnsupported))
            } else {
                with_requirement(state, exact_requirement(name, extras, version))
            },
            TargetView::Latest { name, extras } => if state.request.editable {
                ended(state, OutcomeView::Rejected(UserError::EditableUnsupported))
            } else {
                with_requirement(state, unconstrained_requirement(name, extras))
            },
        },
    }
}

/// Whether the executable that a request names is another package than `name`.
pub open spec fn names_another(request: ToolRequestView, name: Seq<char>) -> bool {
    request matches ToolRequestView::Package {
        executable: Some(ExecutableView::Named(executable)),
        ..
    } && executable != name
}

/// Whether the installed tool may be reused as it is: nothing forces, upgrades
/// or reinstalls, and the receipt of the earlier install records exactly the
/// requirements, constraints, overrides and build constraints of this one.
pub open spec fn reuse_permitted(state: ReconcilerView) -> bool {
    &&& !state.request.force
    &&& !asks_upgrade(state.settings)
    &&& !asks_reinstall(state.settings)
    &&& state.prior_receipt matches Some(receipt)
    &&& receipt.requirements == state.requirements
    &&& receipt.constraints == state.constraints
    &&& receipt.overrides == state.overrides
    &&& receipt.build_constraints == state.build_constraints
}

/// Whether an environment is bound to the interpreter of the state.
pub open spec fn bound_to(environment: Option<EnvironmentView>, state: ReconcilerView) -> bool {
    environment matches Some(found) && state.interpreter == Some(found.interpreter)
}

/// The state that goes on to build the environment: it updates the one that
/// exists, or creates one.
pub open spec fn build(state: ReconcilerView) -> ReconcilerView {
    if state.environment is Some {
        at(state, Stage::UpdateExisting)
    } else {
        at(state, Stage::CreateNew)
    }
}

/// The receipt of an install that has put `entrypoints` in place for the
/// environment `environment`.
pub open spec fn new_receipt(
    state: ReconcilerView,
    environment: EnvironmentView,
    entrypoints: Seq<EntrypointView>,
) -> ReceiptView {
    ReceiptView {
        requirements: state.requirements,
        constraints: state.constraints,
        overrides: state.overrides,
        build_constraints: state.build_constraints,
        options: state.request.options,
        interpreter: environment.interpreter,
        entrypoints,
        invalid: state.request.force || state.invalid_receipt,
    }
}

/// With an interpreter found, the target of the request is classified.
/// Without one the install fails.
pub open spec fn on_resolve_interpreter(state: ReconcilerView, event: EventView) -> ReconcilerView {
    match event {
        EventView::InterpreterFound(interpreter) => classify(
            ReconcilerView { interpreter: Some(interpreter), ..state },
        ),
        _ => unanswered(state, event),
    }
}

/// The requirement that the target was resolved to is the requirement on
/// the tool, unless the request names the executable of another package.
pub open spec fn on_resolve_target(state: ReconcilerView, event: EventView) -> ReconcilerView {
    match event {
        EventView::TargetResolved(requirement) => if names_another(
            state.request.request,
            requirement.name,
        ) {
            ended(
                ReconcilerView { requirement: Some(requirement), ..state },
                OutcomeView::Rejected(UserError::NameMismatch),
            )
        } else {
            with_requirement(state, requirement)
        },
        _ => unanswered(state, event),
    }
}

/// The requirements of the install are the requirement on the tool and,
/// after it, the supplementary ones. Next the receipt is read.
pub open spec fn on_resolve_supplementary(
    state: ReconcilerView,
    event: EventView,
) -> ReconcilerView {
    match (event, state.requirement) {
        (EventView::SupplementaryResolved(resolved), Some(requirement)) => ReconcilerView {
            stage: Stage::ReadReceipt,
            requirements: seq![requirement] + resolved.requirements,
            constraints: resolved.constraints,
            overrides: resolved.overrides,
            build_constraints: resolved.build_constraints,
            ..state
        },
        (EventView::Failed(failure), _) => ended(state, OutcomeView::Failed(failure)),
        _ => ended(state, OutcomeView::OutOfOrder),
    }
}

/// A receipt that was read, or that there is none, leads on to the decision
/// on reuse. A receipt that cannot be read is taken as no install at all:
/// its environment is removed first.
pub open spec fn on_read_receipt(state: ReconcilerView, event: EventView) -> ReconcilerView {
    match event {
        EventView::ReceiptRead(receipt) => ReconcilerView {
            stage: Stage::DecideReuse,
            prior_receipt: receipt,
            ..state
        },
        EventView::Failed(_) => ReconcilerView {
            stage: Stage::HealStore,
            invalid_receipt: true,
            ..state
        },
        _ => ended(state, OutcomeView::OutOfOrder),
    }
}

/// Once the environment of the unreadable receipt is removed, which the
/// user is told, or was not there in the first place, the install goes on as
/// a first install. Any other failure of the removal ends it.
pub open spec fn on_heal_store(state: ReconcilerView, event: EventView) -> (
    ReconcilerView,
    Option<Notice>,
) {
    match event {
        EventView::Completed => (
            at(state, Stage::DecideReuse),
            Some(Notice::RemovedInvalidReceipt),
        ),
        EventView::Failed(failure) => if failure.kind == FailureKind::NotFound {
            (at(state, Stage::DecideReuse), None)
        } else {
            (ended(state, OutcomeView::Failed(failure)), None)
        },
        _ => (ended(state, OutcomeView::OutOfOrder), None),
    }
}

/// The decision on reuse. An environment that is bound to another
/// interpreter is left aside, which the user is told. Where reuse is
/// permitted and the environment is there, nothing is built: the install is
/// done, after the receipt was written again if its settings are not those of
/// the request. Else the environment is resolved, to be updated where it is
/// there and created where it is not.
pub open spec fn on_decide_reuse(state: ReconcilerView, event: EventView) -> (
    ReconcilerView,
    Option<Notice>,
) {
    match event {
        EventView::EnvironmentRead(found) => {
            let located = ReconcilerView {
                environment: if bound_to(found, state) {
                    found
                } else {
                    None
                },
                ..state
            };
            if bound_to(found, state) && reuse_permitted(state) {
                let receipt = state.prior_receipt->0;
                if receipt.options == state.request.options {
                    (
                        ended(located, OutcomeView::AlreadyInstalled),
                        Some(Notice::AlreadyInstalled),
                    )
                } else {
                    (
                        ReconcilerView {
                            stage: Stage::ReuseMetadataOnly,
                            receipt: Some(
                                ReceiptView { options: state.request.options, ..receipt },
                            ),
                            ..located
                        },
                        None,
                    )
                }
            } else {
                (
                    at(located, Stage::Resolve),
                    if found is Some && !bound_to(found, state) {
                        Some(Notice::IgnoredEnvironment)
                    } else {
                        None
                    },
                )
            }
        },
        _ => (unanswered(state, event), None),
    }
}

/// With the receipt written the reused install is done.
pub open spec fn on_reuse_metadata_only(state: ReconcilerView, event: EventView) -> (
    ReconcilerView,
    Option<Notice>,
) {
    match event {
        EventView::Completed => (
            ended(state, OutcomeView::AlreadyInstalled),
            Some(Notice::AlreadyInstalled),
        ),
        _ => (unanswered(state, event), None),
    }
}

/// Whether a failed resolution is answered by a refinement of the
/// interpreter: it is an operation that failed on a lower bound that the
/// interpreter does not meet, and no refinement was made yet.
pub open spec fn calls_for_refinement(state: ReconcilerView, failure: FailureView) -> bool {
    failure.kind == FailureKind::Operation && failure.unmet_python is Some && !state.refined
}

/// A resolution that succeeded is followed by the removal of the
/// entrypoints of the earlier install, where there was one, and then by the
/// building of the environment. A resolution that failed for an interpreter
/// that is too old is followed by the one refinement; any other failure, and
/// any failure after the refinement, is the outcome: a failure of the
/// operation goes to the diagnostics, any other ends the command.
pub open spec fn on_resolve(state: ReconcilerView, event: EventView) -> ReconcilerView {
    match event {
        EventView::EnvironmentResolved(resolution) => {
            let planned = ReconcilerView { resolution: Some(resolution), ..state };
            if state.prior_receipt is Some {
                at(planned, Stage::RemoveEntrypoints)
            } else {
                build(planned)
            }
        },
        EventView::Failed(failure) => if calls_for_refinement(state, failure) {
            ReconcilerView {
                stage: Stage::RefineInterpreter,
                unmet_python: failure.unmet_python,
                refined: true,
                ..state
            }
        } else {
            ended(state, operation_outcome(failure))
        },
        _ => ended(state, OutcomeView::OutOfOrder),
    }
}

/// The refined interpreter takes the place of the first one, and the
/// environment is resolved once more. An existing environment that is not
/// bound to the refined interpreter is left aside. A refinement that fails
/// is the outcome, and goes to the diagnostics.
pub open spec fn on_refine_interpreter(state: ReconcilerView, event: EventView) -> ReconcilerView {
    match event {
        EventView::InterpreterFound(interpreter) => {
            let refined = ReconcilerView { interpreter: Some(interpreter), ..state };
            ReconcilerView {
                stage: Stage::Resolve,
                environment: if bound_to(state.environment, refined) {
                    state.environment
                } else {
                    None
                },
                ..refined
            }
        },
        EventView::Failed(failure) => ended(state, OutcomeView::Diagnostic(failure)),
        _ => ended(state, OutcomeView::OutOfOrder),
    }
}

/// With the entrypoints of the earlier install removed, as far as they
/// could be, the environment is built.
pub open spec fn on_remove_entrypoints(state: ReconcilerView, event: EventView) -> ReconcilerView {
    match event {
        EventView::Completed => build(state),
        EventView::Failed(_) => build(state),
        _ => ended(state, OutcomeView::OutOfOrder),
    }
}

/// The updated environment gets its entrypoints. An update that fails is
/// the outcome, for the diagnostics where the operation failed: the
/// environment was not created by this install and stays.
pub open spec fn on_update_existing(state: ReconcilerView, event: EventView) -> ReconcilerView {
    match event {
        EventView::EnvironmentReady(environment) => ReconcilerView {
            stage: Stage::Finalize,
            environment: Some(environment),
            ..state
        },
        EventView::Failed(failure) => ended(state, operation_outcome(failure)),
        _ => ended(state, OutcomeView::OutOfOrder),
    }
}

/// The new environment is filled next.
pub open spec fn on_create_new(state: ReconcilerView, event: EventView) -> ReconcilerView {
    match event {
        EventView::EnvironmentReady(environment) => ReconcilerView {
            stage: Stage::Sync,
            environment: Some(environment),
            fresh: true,
            ..state
        },
        _ => unanswered(state, event),
    }
}

/// The filled environment gets its entrypoints. Where filling fails, the
/// environment that this install created is removed before the failure
/// becomes the outcome.
pub open spec fn on_sync(state: ReconcilerView, event: EventView) -> ReconcilerView {
    match event {
        EventView::EnvironmentReady(environment) => ReconcilerView {
            stage: Stage::Finalize,
            environment: Some(environment),
            ..state
        },
        EventView::Failed(failure) => ReconcilerView {
            stage: Stage::Rollback,
            outcome: Some(operation_outcome(failure)),
            ..state
        },
        _ => ended(state, OutcomeView::OutOfOrder),
    }
}

/// With the new environment removed, or its removal tried, the failure of
/// the sync is the outcome.
pub open spec fn on_rollback(state: ReconcilerView, event: EventView) -> ReconcilerView {
    match (event, state.outcome) {
        (EventView::Completed, Some(_)) => ReconcilerView {
            stage: Stage::Done,
            environment: None,
            fresh: false,
            ..state
        },
        (EventView::Failed(_), Some(_)) => ReconcilerView {
            stage: Stage::Done,
            environment: None,
            fresh: false,
            ..state
        },
        _ => ended(state, OutcomeView::OutOfOrder),
    }
}

/// With the entrypoints in place the receipt of the install is built, to
/// be written next.
pub open spec fn on_finalize(state: ReconcilerView, event: EventView) -> ReconcilerView {
    match (event, state.environment) {
        (EventView::EntrypointsInstalled(entrypoints), Some(environment)) => ReconcilerView {
            stage: Stage::Persist,
            receipt: Some(new_receipt(state, environment, entrypoints)),
            ..state
        },
        (EventView::Failed(failure), _) => ended(state, OutcomeView::Failed(failure)),
        _ => ended(state, OutcomeView::OutOfOrder),
    }
}

/// With the receipt written the install is done.
pub open spec fn on_persist(state: ReconcilerView, event: EventView) -> ReconcilerView {
    match event {
        EventView::Completed => ended(state, OutcomeView::Installed),
        _ => unanswered(state, event),
    }
}

/// The state that follows `state` on `event`, and what the user is told in passing.
pub open spec fn transition(state: ReconcilerView, event: EventView) -> (
    ReconcilerView,
    Option<Notice>,
) {
    match state.stage {
        Stage::ResolveInterpreter => (on_resolve_interpreter(state, event), None),
        Stage::ResolveTarget => (on_resolve_target(state, event), None),
        Stage::ResolveSupplementary => (on_resolve_supplementary(state, event), None),
        Stage::ReadReceipt => (on_read_receipt(state, event), None),
        Stage::HealStore => on_heal_store(state, event),
        Stage::DecideReuse => on_decide_reuse(state, event),
        Stage::ReuseMetadataOnly => on_reuse_metadata_only(state, event),
        Stage::Resolve => (on_resolve(state, event), None),
        Stage::RefineInterpreter => (on_refine_interpreter(state, event), None),
        Stage::RemoveEntrypoints => (on_remove_entrypoints(state, event), None),
        Stage::UpdateExisting => (on_update_existing(state, event), None),
        Stage::CreateNew => (on_create_new(state, event), None),
        Stage::Sync => (on_sync(state, event), None),
        Stage::Rollback => (on_rollback(state, event), None),
        Stage::Finalize => (on_finalize(state, event), None),
        Stage::Persist => (on_persist(state, event), None),
        Stage::Done => (state, None),
    }
}

/// Whether a state can be reached from the first state of an install: what
/// holds of the parts of such a state at each stage.
pub open spec fn well_formed(state: ReconcilerView) -> bool {
    let stage = state.stage;
    let started = stage != Stage::ResolveInterpreter && stage != Stage::Done;
    let named = started && stage != Stage::ResolveTarget;
    let gathered = named && stage != Stage::ResolveSupplementary;
    let planned = stage == Stage::RemoveEntrypoints || stage == Stage::UpdateExisting || stage
        == Stage::CreateNew || stage == Stage::Sync || stage == Stage::Rollback || stage
        == Stage::Finalize || stage == Stage::Persist;
    let housed = stage == Stage::UpdateExisting || stage == Stage::Sync || stage
        == Stage::Rollback || stage == Stage::Finalize || stage == Stage::Persist;
    &&& started ==> state.interpreter is Some
    &&& named ==> state.requirement is Some && state.settings == derived_settings(
        state.request,
        state.requirement->0.name,
    )
    &&& gathered ==> state.requirements.len() > 0 && state.requirements[0]
        == state.requirement->0
    &&& planned ==> state.resolution is Some
    &&& housed ==> state.environment is Some
    &&& stage == Stage::CreateNew ==> state.environment is None
    &&& stage == Stage::Sync || stage == Stage::Rollback ==> state.fresh
    &&& stage == Stage::RefineInterpreter ==> state.refined && state.unmet_python is Some
    &&& stage == Stage::ReuseMetadataOnly ==> state.receipt is Some && state.prior_receipt
        is Some
    &&& stage == Stage::RemoveEntrypoints ==> state.prior_receipt is Some
    &&& stage == Stage::Persist ==> state.receipt is Some
    &&& (!gathered && stage != Stage::Done) || stage == Stage::ReadReceipt
        ==> state.prior_receipt is None && !state.invalid_receipt
    &&& state.invalid_receipt ==> state.prior_receipt is None
    &&& stage == Stage::Rollback ==> state.outcome is Some && (state.outcome->0 is Failed
        || state.outcome->0 is Diagnostic)
    &&& stage == Stage::Done ==> state.outcome is Some
    &&& stage != Stage::Rollback && stage != Stage::Done ==> state.outcome is None
}

/// The first state of an install is well formed.
pub proof fn first_state_is_well_formed(request: InstallRequestView)
    ensures
        well_formed(initial(request)),
{
}

/// Every step keeps a state well formed.
pub proof fn step_keeps_well_formed(state: ReconcilerView, event: EventView)
    requires
        well_formed(state),
    ensures
        well_formed(transition(state, event).0),
{
    let next = transition(state, event).0;
    if state.stage == Stage::ResolveSupplementary {
        if event is SupplementaryResolved {
            assert(next.requirements.len() > 0);
            assert(next.requirements[0] == state.requirement->0);
        }
    }
}

/// The settings of an install of the package `name`: those of the request,
/// under the directives that the request implies.
pub fn derive_directives(request: &InstallRequest, name: &String) -> (settings: Options)
    ensures
        settings.deep_view() == derived_settings(request.deep_view(), name@),
{
    let base = request.options.duplicate();
    let upgraded = if request.request.is_latest() {
        Options::upgrade_package(name.duplicate()).combine(base)
    } else {
        base
    };
    if request.force {
        Options::reinstall_package(name.duplicate()).combine(upgraded)
    } else {
        upgraded
    }
}

impl Stage {
    /// The outside work that the stage waits for.
    pub fn action(self) -> (action: Action)
        ensures
            action == pending(self),
    {
        match self {
            Stage::ResolveInterpreter => Action::FindInterpreter,
            Stage::ResolveTarget => Action::ResolveTarget,
            Stage::ResolveSupplementary => Action::ResolveSupplementary,
            Stage::ReadReceipt => Action::ReadReceipt,
            Stage::HealStore => Action::RemoveEnvironment,
            Stage::DecideReuse => Action::ReadEnvironment,
            Stage::ReuseMetadataOnly => Action::WriteReceipt,
            Stage::Resolve => Action::ResolveEnvironment,
            Stage::RefineInterpreter => Action::RefineInterpreter,
            Stage::RemoveEntrypoints => Action::RemoveEntrypoints,
            Stage::UpdateExisting => Action::UpdateEnvironment,
            Stage::CreateNew => Action::CreateEnvironment,
            Stage::Sync => Action::SyncEnvironment,
            Stage::Rollback => Action::RemoveEnvironment,
            Stage::Finalize => Action::InstallEntrypoints,
            Stage::Persist => Action::WriteReceipt,
            Stage::Done => Action::Stop,
        }
    }
}

impl Reconciler {
    /// The first state of the install that `request` asks for. It waits for
    /// an interpreter.
    pub fn begin(request: InstallRequest) -> (state: Reconciler)
        ensures
            state.deep_view() == initial(request.deep_view()),
            well_formed(state.deep_view()),
    {
        let settings = request.options.duplicate();
        let state = Reconciler {
            stage: Stage::ResolveInterpreter,
            request,
            interpreter: None,
            requirement: None,
            settings,
            requirements: Vec::new(),
            constraints: Vec::new(),
            overrides: Vec::new(),
            build_constraints: Vec::new(),
            prior_receipt: None,
            invalid_receipt: false,
            environment: None,
            fresh: false,
            unmet_python: None,
            refined: false,
            resolution: None,
            receipt: None,
            outcome: None,
        };
        proof {
            assert(state.requirements.deep_view() =~= Seq::empty());
            assert(state.constraints.deep_view() =~= Seq::empty());
            assert(state.overrides.deep_view() =~= Seq::empty());
            assert(state.build_constraints.deep_view() =~= Seq::empty());
        }
        state
    }

    /// The state that follows on `event`, the outcome of the outside work
    /// that `self` waited for.
    pub fn step(self, event: Event) -> (next: Step)
        ensures
            (next.state.deep_view(), next.notice) == transition(
                self.deep_view(),
                event.deep_view(),
            ),
            next.action == pending(next.state.stage),
            well_formed(self.deep_view()) ==> well_formed(next.state.deep_view()),
    {
        proof {
            if well_formed(self.deep_view()) {
                step_keeps_well_formed(self.deep_view(), event.deep_view());
            }
        }
        let (state, notice) = match self.stage {
            Stage::ResolveInterpreter => (self.resolve_interpreter(event), None),
            Stage::ResolveTarget => (self.resolve_target(event), None),
            Stage::ResolveSupplementary => (self.resolve_supplementary(event), None),
            Stage::ReadReceipt => (self.read_receipt(event), None),
            Stage::HealStore => self.heal_store(event),
            Stage::DecideReuse => self.decide_reuse(event),
            Stage::ReuseMetadataOnly => self.reuse_metadata_only(event),
            Stage::Resolve => (self.resolve(event), None),
            Stage::RefineInterpreter => (self.refine_interpreter(event), None),
            Stage::RemoveEntrypoints => (self.remove_entrypoints(event), None),
            Stage::UpdateExisting => (self.update_existing(event), None),
            Stage::CreateNew => (self.create_new(event), None),
            Stage::Sync => (self.sync(event), None),
            Stage::Rollback => (self.rollback(event), None),
            Stage::Finalize => (self.finalize(event), None),
            Stage::Persist => (self.persist(event), None),
            Stage::Done => (self, None),
        };
        let action = state.stage.action();
        Step { state, action, notice }
    }

    /// The state at another stage.
    fn at(self, stage: Stage) -> (next: Reconciler)
        ensures
            next.deep_view() == at(self.deep_view(), stage),
    {
        Reconciler { stage, ..self }
    }

    /// The state in which the install has ended with `outcome`.
    fn ended(self, outcome: Outcome) -> (next: Reconciler)
        ensures
            next.deep_view() == ended(self.deep_view(), outcome.deep_view()),
    {
        Reconciler { stage: Stage::Done, outcome: Some(outcome), ..self }
    }

    /// The end of the install on an event that the state has no use for.
    fn unanswered(self, event: Event) -> (next: Reconciler)
        ensures
            next.deep_view() == unanswered(self.deep_view(), event.deep_view()),
    {
        match event {
            Event::Failed(failure) => self.ended(Outcome::Failed(failure)),
            _ => self.ended(Outcome::OutOfOrder),
        }
    }

    /// Go on with `requirement` as the requirement on the tool, under the
    /// settings that the request implies for it.
    fn with_requirement(self, requirement: Requirement) -> (next: Reconciler)
        ensures
            next.deep_view() == with_requirement(self.deep_view(), requirement.deep_view()),
    {
        let settings = derive_directives(&self.request, &requirement.name);
        Reconciler {
            stage: Stage::ResolveSupplementary,
            requirement: Some(requirement),
            settings,
            ..self
        }
    }

    /// Classify the target of the request.
    fn classify(self) -> (next: Reconciler)
        ensures
            next.deep_view() == classify(self.deep_view()),
    {
        match &self.request.request {
            ToolRequest::Python => self.ended(Outcome::Rejected(UserError::InterpreterTarget)),
            ToolRequest::Package { executable, target } => match target {
                Target::Unspecified(_) => {
                    let malformed = match executable {
                        Some(Executable::Malformed(_)) => true,
                        _ => false,
                    };
                    if malformed {
                        self.ended(Outcome::Rejected(UserError::ExecutableConflict))
                    } else {
                        self.at(Stage::ResolveTarget)
                    }
                },
                Target::Version { name, extras, version } => {
                    if self.request.editable {
                        self.ended(Outcome::Rejected(UserError::EditableUnsupported))
                    } else {
                        let requirement = Requirement {
                            name: name.duplicate(),
                            extras: extras.duplicate(),
                            specifier: Specifier::Exact(version.duplicate()),
                            editable: false,
                        };
                        self.with_requirement(requirement)
                    }
                },
                Target::Latest { name, extras } => {
                    if self.request.editable {
                        self.ended(Outcome::Rejected(UserError::EditableUnsupported))
                    } else {
                        let requirement = Requirement {
                            name: name.duplicate(),
                            extras: extras.duplicate(),
                            specifier: Specifier::Any,
                            editable: false,
                        };
                        self.with_requirement(requirement)
                    }
                },
            },
        }
    }

    /// The step of a state that waits for an interpreter.
    fn resolve_interpreter(self, event: Event) -> (next: Reconciler)
        ensures
            next.deep_view() == on_resolve_interpreter(self.deep_view(), event.deep_view()),
    {
        match event {
            Event::InterpreterFound(interpreter) => {
                let found = Reconciler { interpreter: Some(interpreter), ..self };
                found.classify()
            },
            _ => self.unanswered(event),
        }
    }

    /// Whether the executable that the request names is another package than `name`.
    fn names_another(&self, name: &String) -> (another: bool)
        ensures
            another == names_another(self.request.request.deep_view(), name@),
    {
        match &self.request.request {
            ToolRequest::Package { executable: Some(Executable::Named(executable)), .. } => {
                !executable.same(name)
            },
            _ => false,
        }
    }

    /// The step of a state that waits for the target to be resolved.
    fn resolve_target(self, event: Event) -> (next: Reconciler)
        ensures
            next.deep_view() == on_resolve_target(self.deep_view(), event.deep_view()),
    {
        match event {
            Event::TargetResolved(requirement) => {
                if self.names_another(&requirement.name) {
                    let named = Reconciler { requirement: Some(requirement), ..self };
                    named.ended(Outcome::Rejected(UserError::NameMismatch))
                } else {
                    self.with_requirement(requirement)
                }
            },
            _ => self.unanswered(event),
        }
    }

    /// The step of a state that waits for the auxiliary requirements.
    fn resolve_supplementary(self, event: Event) -> (next: Reconciler)
        ensures
            next.deep_view() == on_resolve_supplementary(self.deep_view(), event.deep_view()),
    {
        match event {
            Event::SupplementaryResolved(resolved) => {
                let first = match &self.requirement {
                    Some(requirement) => Some(requirement.duplicate()),
                    None => None,
                };
                match first {
                    Some(requirement) => {
                        let mut requirements: Vec<Requirement> = Vec::new();
                        let mut supplementary = resolved.requirements;
                        requirements.push(requirement);
                        requirements.append(&mut supplementary);
                        assert(requirements.deep_view() =~= seq![requirement.deep_view()]
                            + resolved.requirements.deep_view());
                        Reconciler {
                            stage: Stage::ReadReceipt,
                            requirements,
                            constraints: resolved.constraints,
                            overrides: resolved.overrides,
                            build_constraints: resolved.build_constraints,
                            ..self
                        }
                    },
                    None => self.ended(Outcome::OutOfOrder),
                }
            },
            Event::Failed(failure) => self.ended(Outcome::Failed(failure)),
            _ => self.ended(Outcome::OutOfOrder),
        }
    }

    /// The step of a state that waits for the receipt.
    fn read_receipt(self, event: Event) -> (next: Reconciler)
        ensures
            next.deep_view() == on_read_receipt(self.deep_view(), event.deep_view()),
    {
        match event {
            Event::ReceiptRead(receipt) => Reconciler {
                stage: Stage::DecideReuse,
                prior_receipt: receipt,
                ..self
            },
            Event::Failed(_) => Reconciler {
                stage: Stage::HealStore,
                invalid_receipt: true,
                ..self
            },
            _ => self.ended(Outcome::OutOfOrder),
        }
    }

    /// The step of a state that waits for the environment of an unreadable
    /// receipt to be removed.
    fn heal_store(self, event: Event) -> (next: (Reconciler, Option<Notice>))
        ensures
            (next.0.deep_view(), next.1) == on_heal_store(self.deep_view(), event.deep_view()),
    {
        match event {
            Event::Completed => (
                self.at(Stage::DecideReuse),
                Some(Notice::RemovedInvalidReceipt),
            ),
            Event::Failed(failure) => {
                if failure.kind == FailureKind::NotFound {
                    (self.at(Stage::DecideReuse), None)
                } else {
                    (self.ended(Outcome::Failed(failure)), None)
                }
            },
            _ => (self.ended(Outcome::OutOfOrder), None),
        }
    }

    /// Whether `environment` is bound to the interpreter of the state.
    fn bound_to(&self, environment: &Option<Environment>) -> (bound: bool)
        ensures
            bound == bound_to(environment.deep_view(), self.deep_view()),
    {
        match (environment, &self.interpreter) {
            (Some(found), Some(interpreter)) => found.interpreter.same(interpreter),
            _ => false,
        }
    }

    /// Whether the installed tool may be reused as it is.
    pub fn reuse_permitted(&self) -> (permitted: bool)
        ensures
            permitted == reuse_permitted(self.deep_view()),
    {
        if self.request.force || self.settings.upgrade_requested()
            || self.settings.reinstall_requested() {
            return false;
        }
        match &self.prior_receipt {
            Some(receipt) => receipt.requirements.same(&self.requirements)
                && receipt.constraints.same(&self.constraints) && receipt.overrides.same(
                &self.overrides,
            ) && receipt.build_constraints.same(&self.build_constraints),
            None => false,
        }
    }

    /// The receipt of the reused install, where its settings are not those
    /// of the request: the earlier receipt, with the settings of the request.
    fn refreshed_receipt(&self) -> (receipt: Option<Receipt>)
        ensures
            receipt.deep_view() == match self.deep_view().prior_receipt {
                Some(prior) => if prior.options == self.deep_view().request.options {
                    None
                } else {
                    Some(ReceiptView { options: self.deep_view().request.options, ..prior })
                },
                None => None,
            },
    {
        match &self.prior_receipt {
            Some(prior) => {
                if prior.options.same(&self.request.options) {
                    None
                } else {
                    Some(
                        Receipt {
                            requirements: prior.requirements.duplicate(),
                            constraints: prior.constraints.duplicate(),
                            overrides: prior.overrides.duplicate(),
                            build_constraints: prior.build_constraints.duplicate(),
                            options: self.request.options.duplicate(),
                            interpreter: prior.interpreter.duplicate(),
                            entrypoints: prior.entrypoints.duplicate(),
                            invalid: prior.invalid,
                        },
                    )
                }
            },
            None => None,
        }
    }

    /// The step of a state that waits for the environment to be looked up:
    /// the decision to reuse, update or create.
    fn decide_reuse(self, event: Event) -> (next: (Reconciler, Option<Notice>))
        ensures
            (next.0.deep_view(), next.1) == on_decide_reuse(self.deep_view(), event.deep_view()),
    {
        match event {
            Event::EnvironmentRead(found) => {
                let bound = self.bound_to(&found);
                let ignored = found.is_some() && !bound;
                let reuse = bound && self.reuse_permitted();
                let refreshed = self.refreshed_receipt();
                let located = Reconciler {
                    environment: if bound {
                        found
                    } else {
                        None
                    },
                    ..self
                };
                if reuse {
                    match refreshed {
                        Some(receipt) => (
                            Reconciler {
                                stage: Stage::ReuseMetadataOnly,
                                receipt: Some(receipt),
                                ..located
                            },
                            None,
                        ),
                        None => (
                            located.ended(Outcome::AlreadyInstalled),
                            Some(Notice::AlreadyInstalled),
                        ),
                    }
                } else {
                    (
                        located.at(Stage::Resolve),
                        if ignored {
                            Some(Notice::IgnoredEnvironment)
                        } else {
                            None
                        },
                    )
                }
            },
            _ => (self.unanswered(event), None),
        }
    }

    /// The step of a state that waits for the receipt of a reused install to
    /// be written.
    fn reuse_metadata_only(self, event: Event) -> (next: (Reconciler, Option<Notice>))
        ensures
            (next.0.deep_view(), next.1) == on_reuse_metadata_only(
                self.deep_view(),
                event.deep_view(),
            ),
    {
        match event {
            Event::Completed => (
                self.ended(Outcome::AlreadyInstalled),
                Some(Notice::AlreadyInstalled),
            ),
            _ => (self.unanswered(event), None),
        }
    }

    /// Go on to build the environment: update the one that exists, or create one.
    fn build(self) -> (next: Reconciler)
        ensures
            next.deep_view() == build(self.deep_view()),
    {
        if self.environment.is_some() {
            self.at(Stage::UpdateExisting)
        } else {
            self.at(Stage::CreateNew)
        }
    }

    /// The step of a state that waits for the environment to be resolved.
    fn resolve(self, event: Event) -> (next: Reconciler)
        ensures
            next.deep_view() == on_resolve(self.deep_view(), event.deep_view()),
    {
        match event {
            Event::EnvironmentResolved(resolution) => {
                let planned = Reconciler { resolution: Some(resolution), ..self };
                if planned.prior_receipt.is_some() {
                    planned.at(Stage::RemoveEntrypoints)
                } else {
                    planned.build()
                }
            },
            Event::Failed(failure) => {
                if failure.kind == FailureKind::Operation && failure.unmet_python.is_some()
                    && !self.refined {
                    Reconciler {
                        stage: Stage::RefineInterpreter,
                        unmet_python: failure.unmet_python,
                        refined: true,
                        ..self
                    }
                } else {
                    self.ended(Outcome::of_operation(failure))
                }
            },
            _ => self.ended(Outcome::OutOfOrder),
        }
    }

    /// The step of a state that waits for the refined interpreter.
    fn refine_interpreter(self, event: Event) -> (next: Reconciler)
        ensures
            next.deep_view() == on_refine_interpreter(self.deep_view(), event.deep_view()),
    {
        match event {
            Event::InterpreterFound(interpreter) => {
                let keep = match &self.environment {
                    Some(found) => found.interpreter.same(&interpreter),
                    None => false,
                };
                if keep {
                    Reconciler { stage: Stage::Resolve, interpreter: Some(interpreter), ..self }
                } else {
                    Reconciler {
                        stage: Stage::Resolve,
                        interpreter: Some(interpreter),
                        environment: None,
                        ..self
                    }
                }
            },
            Event::Failed(failure) => self.ended(Outcome::Diagnostic(failure)),
            _ => self.ended(Outcome::OutOfOrder),
        }
    }

    /// The step of a state that waits for the entrypoints of the earlier
    /// install to be removed.
    fn remove_entrypoints(self, event: Event) -> (next: Reconciler)
        ensures
            next.deep_view() == on_remove_entrypoints(self.deep_view(), event.deep_view()),
    {
        match event {
            Event::Completed => self.build(),
            Event::Failed(_) => self.build(),
            _ => self.ended(Outcome::OutOfOrder),
        }
    }

    /// The step of a state that waits for the existing environment to be updated.
    fn update_existing(self, event: Event) -> (next: Reconciler)
        ensures
            next.deep_view() == on_update_existing(self.deep_view(), event.deep_view()),
    {
        match event {
            Event::EnvironmentReady(environment) => Reconciler {
                stage: Stage::Finalize,
                environment: Some(environment),
                ..self
            },
            Event::Failed(failure) => self.ended(Outcome::of_operation(failure)),
            _ => self.ended(Outcome::OutOfOrder),
        }
    }

    /// The step of a state that waits for the new environment to be created.
    fn create_new(self, event: Event) -> (next: Reconciler)
        ensures
            next.deep_view() == on_create_new(self.deep_view(), event.deep_view()),
    {
        match event {
            Event::EnvironmentReady(environment) => Reconciler {
                stage: Stage::Sync,
                environment: Some(environment),
                fresh: true,
                ..self
            },
            _ => self.unanswered(event),
        }
    }

    /// The step of a state that waits for the new environment to be filled.
    fn sync(self, event: Event) -> (next: Reconciler)
        ensures
            next.deep_view() == on_sync(self.deep_view(), event.deep_view()),
    {
        match event {
            Event::EnvironmentReady(environment) => Reconciler {
                stage: Stage::Finalize,
                environment: Some(environment),
                ..self
            },
            Event::Failed(failure) => Reconciler {
                stage: Stage::Rollback,
                outcome: Some(Outcome::of_operation(failure)),
                ..self
            },
            _ => self.ended(Outcome::OutOfOrder),
        }
    }

    /// The step of a state that waits for the new environment to be removed
    /// again.
    fn rollback(self, event: Event) -> (next: Reconciler)
        ensures
            next.deep_view() == on_rollback(self.deep_view(), event.deep_view()),
    {
        let removed = match event {
            Event::Completed => true,
            Event::Failed(_) => true,
            _ => false,
        };
        if removed && self.outcome.is_some() {
            Reconciler { stage: Stage::Done, environment: None, fresh: false, ..self }
        } else {
            self.ended(Outcome::OutOfOrder)
        }
    }

    /// The step of a state that waits for the entrypoints to be put in place.
    fn finalize(self, event: Event) -> (next: Reconciler)
        ensures
            next.deep_view() == on_finalize(self.deep_view(), event.deep_view()),
    {
        match event {
            Event::EntrypointsInstalled(entrypoints) => {
                let bound = match &self.environment {
                    Some(environment) => Some(environment.interpreter.duplicate()),
                    None => None,
                };
                match bound {
                    Some(interpreter) => {
                        let receipt = Receipt {
                            requirements: self.requirements.duplicate(),
                            constraints: self.constraints.duplicate(),
                            overrides: self.overrides.duplicate(),
                            build_constraints: self.build_constraints.duplicate(),
                            options: self.request.options.duplicate(),
                            interpreter,
                            entrypoints,
                            invalid: self.request.force || self.invalid_receipt,
                        };
                        Reconciler { stage: Stage::Persist, receipt: Some(receipt), ..self }
                    },
                    None => self.ended(Outcome::OutOfOrder),
                }
            },
            Event::Failed(failure) => self.ended(Outcome::Failed(failure)),
            _ => self.ended(Outcome::OutOfOrder),
        }
    }

    /// The step of a state that waits for the receipt to be written.
    fn persist(self, event: Event) -> (next: Reconciler)
        ensures
            next.deep_view() == on_persist(self.deep_view(), event.deep_view()),
    {
        match event {
            Event::Completed => self.ended(Outcome::Installed),
            _ => self.unanswered(event),
        }
    }
}

} // verus!
