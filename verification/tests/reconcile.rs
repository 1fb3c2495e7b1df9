use tool_reconciler::model::{
    Entrypoint, Environment, Failure, FailureKind, Interpreter, Pin, PythonVersion, Receipt,
    Requirement, Specifier,
};
use tool_reconciler::plain::Plain;
use tool_reconciler::reconcile::{
    derive_directives, Action, Event, Exit, Notice, Outcome, Reconciler, Stage, Step,
    Supplementary, UserError,
};
use tool_reconciler::request::{
    Executable, InstallRequest, PythonDownloads, PythonPreference, Sources, Target, ToolRequest,
};
use tool_reconciler::settings::{Options, ResolutionMode};

fn text(value: &str) -> String {
    value.to_string()
}

fn interpreter(minor: u64) -> Interpreter {
    Interpreter {
        executable: format!("/usr/bin/python3.{minor}"),
        version: PythonVersion { major: 3, minor },
    }
}

fn environment(name: &str, minor: u64) -> Environment {
    Environment { name: text(name), interpreter: interpreter(minor) }
}

fn named(name: &str) -> Requirement {
    Requirement { name: text(name), extras: Vec::new(), specifier: Specifier::Any, editable: false }
}

fn pinned(name: &str, version: &str) -> Requirement {
    Requirement {
        name: text(name),
        extras: Vec::new(),
        specifier: Specifier::Exact(text(version)),
        editable: false,
    }
}

fn pin(name: &str, version: &str) -> Pin {
    Pin { name: text(name), version: text(version) }
}

fn entrypoint(name: &str) -> Entrypoint {
    Entrypoint { name: text(name), path: format!("/home/user/.local/bin/{name}") }
}

fn no_sources() -> Sources {
    Sources {
        with: Vec::new(),
        constraints: Vec::new(),
        overrides: Vec::new(),
        build_constraints: Vec::new(),
    }
}

fn request(target: Target) -> InstallRequest {
    InstallRequest {
        request: ToolRequest::Package { executable: None, target },
        editable: false,
        sources: no_sources(),
        python: None,
        python_preference: PythonPreference::Managed,
        python_downloads: PythonDownloads::Automatic,
        force: false,
        options: Options::empty(),
    }
}

fn unspecified(name: &str) -> Target {
    Target::Unspecified(text(name))
}

fn version(name: &str, version: &str) -> Target {
    Target::Version { name: text(name), extras: Vec::new(), version: text(version) }
}

fn latest(name: &str) -> Target {
    Target::Latest { name: text(name), extras: Vec::new() }
}

fn nothing_more() -> Supplementary {
    Supplementary {
        requirements: Vec::new(),
        constraints: Vec::new(),
        overrides: Vec::new(),
        build_constraints: Vec::new(),
    }
}

fn receipt(requirements: Vec<Requirement>, minor: u64) -> Receipt {
    Receipt {
        requirements,
        constraints: Vec::new(),
        overrides: Vec::new(),
        build_constraints: Vec::new(),
        options: Options::empty(),
        interpreter: interpreter(minor),
        entrypoints: vec![entrypoint("tool")],
        invalid: false,
    }
}

fn failure(kind: FailureKind, message: &str) -> Failure {
    Failure { kind, unmet_python: None, message: text(message) }
}

fn unmet(minor: u64) -> Failure {
    Failure {
        kind: FailureKind::Operation,
        unmet_python: Some(PythonVersion { major: 3, minor }),
        message: text("the requirements ask for a newer interpreter"),
    }
}

/// Feed the events in their order; each must find the install at the stage given.
fn run(state: Reconciler, events: Vec<(Stage, Event)>) -> Step {
    let action = state.stage.action();
    let mut step = Step { state, action, notice: None };
    for (stage, event) in events {
        assert_eq!(step.state.stage, stage);
        assert_eq!(step.action, stage.action());
        step = step.state.step(event);
    }
    step
}

/// The install of `request` up to the decision on reuse, over what the store holds.
fn up_to_the_decision(
    request: InstallRequest,
    resolved: Option<Requirement>,
    held: Option<Receipt>,
) -> Reconciler {
    let mut events = vec![(Stage::ResolveInterpreter, Event::InterpreterFound(interpreter(12)))];
    if let Some(requirement) = resolved {
        events.push((Stage::ResolveTarget, Event::TargetResolved(requirement)));
    }
    events.push((Stage::ResolveSupplementary, Event::SupplementaryResolved(nothing_more())));
    events.push((Stage::ReadReceipt, Event::ReceiptRead(held)));
    let step = run(Reconciler::begin(request), events);
    assert_eq!(step.state.stage, Stage::DecideReuse);
    assert_eq!(step.action, Action::ReadEnvironment);
    step.state
}

#[test]
fn an_install_begins_by_looking_for_an_interpreter() {
    let state = Reconciler::begin(request(unspecified("tool")));
    assert_eq!(state.stage, Stage::ResolveInterpreter);
    assert_eq!(state.stage.action(), Action::FindInterpreter);
    assert!(state.interpreter.is_none());
    assert!(state.requirement.is_none());
    assert!(state.outcome.is_none());
    assert!(!state.refined);
    assert!(!state.fresh);
}

#[test]
fn every_stage_waits_for_its_action() {
    assert_eq!(Stage::ResolveInterpreter.action(), Action::FindInterpreter);
    assert_eq!(Stage::ResolveTarget.action(), Action::ResolveTarget);
    assert_eq!(Stage::ResolveSupplementary.action(), Action::ResolveSupplementary);
    assert_eq!(Stage::ReadReceipt.action(), Action::ReadReceipt);
    assert_eq!(Stage::HealStore.action(), Action::RemoveEnvironment);
    assert_eq!(Stage::DecideReuse.action(), Action::ReadEnvironment);
    assert_eq!(Stage::ReuseMetadataOnly.action(), Action::WriteReceipt);
    assert_eq!(Stage::Resolve.action(), Action::ResolveEnvironment);
    assert_eq!(Stage::RefineInterpreter.action(), Action::RefineInterpreter);
    assert_eq!(Stage::RemoveEntrypoints.action(), Action::RemoveEntrypoints);
    assert_eq!(Stage::UpdateExisting.action(), Action::UpdateEnvironment);
    assert_eq!(Stage::CreateNew.action(), Action::CreateEnvironment);
    assert_eq!(Stage::Sync.action(), Action::SyncEnvironment);
    assert_eq!(Stage::Rollback.action(), Action::RemoveEnvironment);
    assert_eq!(Stage::Finalize.action(), Action::InstallEntrypoints);
    assert_eq!(Stage::Persist.action(), Action::WriteReceipt);
    assert_eq!(Stage::Done.action(), Action::Stop);
}

#[test]
fn no_interpreter_is_fatal() {
    let missing = failure(FailureKind::NotFound, "no interpreter found");
    let step = Reconciler::begin(request(unspecified("tool"))).step(Event::Failed(missing.clone()));
    assert_eq!(step.action, Action::Stop);
    assert_eq!(step.state.outcome, Some(Outcome::Failed(missing)));
}

#[test]
fn the_interpreter_itself_is_no_tool() {
    let mut asked = request(unspecified("python"));
    asked.request = ToolRequest::Python;
    let step = Reconciler::begin(asked).step(Event::InterpreterFound(interpreter(12)));
    assert_eq!(step.action, Action::Stop);
    assert_eq!(step.state.outcome, Some(Outcome::Rejected(UserError::InterpreterTarget)));
}

#[test]
fn a_version_admits_no_editable_install() {
    let mut asked = request(version("tool", "1.0"));
    asked.editable = true;
    let step = Reconciler::begin(asked).step(Event::InterpreterFound(interpreter(12)));
    assert_eq!(step.action, Action::Stop);
    assert_eq!(step.state.outcome, Some(Outcome::Rejected(UserError::EditableUnsupported)));
}

#[test]
fn the_latest_version_admits_no_editable_install() {
    let mut asked = request(latest("tool"));
    asked.editable = true;
    let step = Reconciler::begin(asked).step(Event::InterpreterFound(interpreter(12)));
    assert_eq!(step.state.outcome, Some(Outcome::Rejected(UserError::EditableUnsupported)));
}

#[test]
fn a_place_admits_an_editable_install() {
    let mut asked = request(unspecified("./tool"));
    asked.editable = true;
    let step = Reconciler::begin(asked).step(Event::InterpreterFound(interpreter(12)));
    assert_eq!(step.action, Action::ResolveTarget);
    assert!(step.state.outcome.is_none());
}

#[test]
fn a_version_gives_an_exact_requirement_without_resolution() {
    let step = Reconciler::begin(request(version("tool", "1.0")))
        .step(Event::InterpreterFound(interpreter(12)));
    assert_eq!(step.action, Action::ResolveSupplementary);
    assert_eq!(step.state.requirement, Some(pinned("tool", "1.0")));
    assert_eq!(step.state.interpreter, Some(interpreter(12)));
    assert!(!step.state.settings.upgrade_requested());
}

#[test]
fn the_latest_version_gives_an_unconstrained_requirement_and_an_upgrade() {
    let mut asked = request(Target::Latest { name: text("tool"), extras: vec![text("cli")] });
    asked.options.upgrade_package = Some(vec![text("other")]);
    let step = Reconciler::begin(asked).step(Event::InterpreterFound(interpreter(12)));
    assert_eq!(step.action, Action::ResolveSupplementary);
    assert_eq!(
        step.state.requirement,
        Some(Requirement {
            name: text("tool"),
            extras: vec![text("cli")],
            specifier: Specifier::Any,
            editable: false,
        })
    );
    assert_eq!(step.state.settings.upgrade_package, Some(vec![text("tool"), text("other")]));
    assert!(step.state.settings.upgrade_requested());
    assert_eq!(step.state.request.options.upgrade_package, Some(vec![text("other")]));
}

#[test]
fn a_forced_install_asks_for_the_tool_to_be_installed_again() {
    let mut asked = request(unspecified("tool"));
    asked.force = true;
    asked.options.resolution = Some(ResolutionMode::Lowest);
    let settings = derive_directives(&asked, &text("tool"));
    assert_eq!(settings.reinstall_package, Some(vec![text("tool")]));
    assert_eq!(settings.upgrade_package, None);
    assert_eq!(settings.resolution, Some(ResolutionMode::Lowest));
    assert!(settings.reinstall_requested());
    assert!(!settings.upgrade_requested());
}

#[test]
fn a_plain_install_derives_no_directive() {
    let asked = request(unspecified("tool"));
    let settings = derive_directives(&asked, &text("tool"));
    assert!(settings.same(&Options::empty()));
}

#[test]
fn a_forced_install_of_the_latest_version_derives_both_directives() {
    let mut asked = request(latest("tool"));
    asked.force = true;
    let settings = derive_directives(&asked, &text("tool"));
    assert_eq!(settings.upgrade_package, Some(vec![text("tool")]));
    assert_eq!(settings.reinstall_package, Some(vec![text("tool")]));
}

#[test]
fn an_executable_that_is_no_package_name_is_rejected() {
    let mut asked = request(unspecified("tool"));
    asked.request = ToolRequest::Package {
        executable: Some(Executable::Malformed(text("not a name!"))),
        target: unspecified("tool"),
    };
    let step = Reconciler::begin(asked).step(Event::InterpreterFound(interpreter(12)));
    assert_eq!(step.action, Action::Stop);
    assert_eq!(step.state.outcome, Some(Outcome::Rejected(UserError::ExecutableConflict)));
}

#[test]
fn an_executable_of_another_package_is_rejected() {
    let mut asked = request(unspecified("other"));
    asked.request = ToolRequest::Package {
        executable: Some(Executable::Named(text("tool"))),
        target: unspecified("other"),
    };
    let step = run(
        Reconciler::begin(asked),
        vec![
            (Stage::ResolveInterpreter, Event::InterpreterFound(interpreter(12))),
            (Stage::ResolveTarget, Event::TargetResolved(named("other"))),
        ],
    );
    assert_eq!(step.action, Action::Stop);
    assert_eq!(step.state.outcome, Some(Outcome::Rejected(UserError::NameMismatch)));
    assert_eq!(step.state.requirement, Some(named("other")));
}

#[test]
fn an_executable_of_the_package_resolved_is_accepted() {
    let mut asked = request(unspecified("tool"));
    asked.request = ToolRequest::Package {
        executable: Some(Executable::Named(text("tool"))),
        target: unspecified("tool"),
    };
    let step = run(
        Reconciler::begin(asked),
        vec![
            (Stage::ResolveInterpreter, Event::InterpreterFound(interpreter(12))),
            (Stage::ResolveTarget, Event::TargetResolved(named("tool"))),
        ],
    );
    assert_eq!(step.action, Action::ResolveSupplementary);
    assert_eq!(step.state.requirement, Some(named("tool")));
}

#[test]
fn a_target_that_cannot_be_resolved_is_fatal() {
    let broken = failure(FailureKind::Fatal, "no such package");
    let step = run(
        Reconciler::begin(request(unspecified("tool"))),
        vec![
            (Stage::ResolveInterpreter, Event::InterpreterFound(interpreter(12))),
            (Stage::ResolveTarget, Event::Failed(broken.clone())),
        ],
    );
    assert_eq!(step.state.outcome, Some(Outcome::Failed(broken)));
}

#[test]
fn the_requirement_on_the_tool_comes_before_the_supplementary_ones() {
    let step = run(
        Reconciler::begin(request(version("tool", "1.0"))),
        vec![
            (Stage::ResolveInterpreter, Event::InterpreterFound(interpreter(12))),
            (
                Stage::ResolveSupplementary,
                Event::SupplementaryResolved(Supplementary {
                    requirements: vec![named("plugin"), named("theme")],
                    constraints: vec![pinned("dep", "2.0")],
                    overrides: vec![named("over")],
                    build_constraints: vec![named("build")],
                }),
            ),
        ],
    );
    assert_eq!(step.action, Action::ReadReceipt);
    assert_eq!(
        step.state.requirements,
        vec![pinned("tool", "1.0"), named("plugin"), named("theme")]
    );
    assert_eq!(step.state.constraints, vec![pinned("dep", "2.0")]);
    assert_eq!(step.state.overrides, vec![named("over")]);
    assert_eq!(step.state.build_constraints, vec![named("build")]);
}

#[test]
fn an_unchanged_install_is_reused_without_work() {
    let held = receipt(vec![pinned("tool", "1.0")], 12);
    let state = up_to_the_decision(request(version("tool", "1.0")), None, Some(held));
    assert!(state.reuse_permitted());
    let step = state.step(Event::EnvironmentRead(Some(environment("tool", 12))));
    assert_eq!(step.action, Action::Stop);
    assert_eq!(step.notice, Some(Notice::AlreadyInstalled));
    assert_eq!(step.state.stage, Stage::Done);
    assert_eq!(step.state.outcome, Some(Outcome::AlreadyInstalled));
    assert!(step.state.receipt.is_none());
    assert!(step.state.resolution.is_none());
}

#[test]
fn an_install_that_is_done_stays_done() {
    let held = receipt(vec![pinned("tool", "1.0")], 12);
    let state = up_to_the_decision(request(version("tool", "1.0")), None, Some(held));
    let done = state.step(Event::EnvironmentRead(Some(environment("tool", 12)))).state;
    let step = done.step(Event::EnvironmentResolved(vec![pin("tool", "1.0")]));
    assert_eq!(step.action, Action::Stop);
    assert_eq!(step.notice, None);
    assert_eq!(step.state.outcome, Some(Outcome::AlreadyInstalled));
}

#[test]
fn a_reused_install_with_other_settings_only_writes_its_receipt() {
    let mut asked = request(version("tool", "1.0"));
    asked.options.index_url = Some(text("https://mirror.example/simple"));
    let held = receipt(vec![pinned("tool", "1.0")], 12);
    let state = up_to_the_decision(asked, None, Some(held));
    let step = state.step(Event::EnvironmentRead(Some(environment("tool", 12))));
    assert_eq!(step.action, Action::WriteReceipt);
    assert_eq!(step.notice, None);
    assert_eq!(step.state.stage, Stage::ReuseMetadataOnly);
    let written = step.state.receipt.as_ref().unwrap();
    assert_eq!(written.options.index_url, Some(text("https://mirror.example/simple")));
    assert_eq!(written.requirements, vec![pinned("tool", "1.0")]);
    assert_eq!(written.interpreter, interpreter(12));
    assert_eq!(written.entrypoints, vec![entrypoint("tool")]);
    assert!(!written.invalid);
    let step = step.state.step(Event::Completed);
    assert_eq!(step.action, Action::Stop);
    assert_eq!(step.notice, Some(Notice::AlreadyInstalled));
    assert_eq!(step.state.outcome, Some(Outcome::AlreadyInstalled));
}

#[test]
fn a_receipt_that_cannot_be_written_fails_the_reuse() {
    let mut asked = request(version("tool", "1.0"));
    asked.options.upgrade = Some(false);
    let state = up_to_the_decision(asked, None, Some(receipt(vec![pinned("tool", "1.0")], 12)));
    let step = state.step(Event::EnvironmentRead(Some(environment("tool", 12))));
    assert_eq!(step.action, Action::WriteReceipt);
    let full = failure(FailureKind::Fatal, "disk full");
    let step = step.state.step(Event::Failed(full.clone()));
    assert_eq!(step.action, Action::Stop);
    assert_eq!(step.state.outcome, Some(Outcome::Failed(full)));
}

#[test]
fn a_forced_install_rebuilds_what_matches_the_receipt() {
    let mut asked = request(version("tool", "1.0"));
    asked.force = true;
    let state = up_to_the_decision(asked, None, Some(receipt(vec![pinned("tool", "1.0")], 12)));
    assert!(!state.reuse_permitted());
    let step = state.step(Event::EnvironmentRead(Some(environment("tool", 12))));
    assert_eq!(step.action, Action::ResolveEnvironment);
    assert_eq!(step.notice, None);
    assert_eq!(step.state.environment, Some(environment("tool", 12)));
    let step = run(
        step.state,
        vec![
            (Stage::Resolve, Event::EnvironmentResolved(vec![pin("tool", "1.0")])),
            (Stage::RemoveEntrypoints, Event::Completed),
            (Stage::UpdateExisting, Event::EnvironmentReady(environment("tool", 12))),
            (Stage::Finalize, Event::EntrypointsInstalled(vec![entrypoint("tool")])),
        ],
    );
    assert_eq!(step.action, Action::WriteReceipt);
    assert!(step.state.receipt.as_ref().unwrap().invalid);
    let step = step.state.step(Event::Completed);
    assert_eq!(step.state.outcome, Some(Outcome::Installed));
}

#[test]
fn a_requested_reinstall_rebuilds() {
    let mut asked = request(version("tool", "1.0"));
    asked.options.reinstall = Some(true);
    let mut held = receipt(vec![pinned("tool", "1.0")], 12);
    held.options.reinstall = Some(true);
    let state = up_to_the_decision(asked, None, Some(held));
    let step = state.step(Event::EnvironmentRead(Some(environment("tool", 12))));
    assert_eq!(step.action, Action::ResolveEnvironment);
}

#[test]
fn a_requested_upgrade_rebuilds() {
    let mut asked = request(version("tool", "1.0"));
    asked.options.upgrade = Some(true);
    let state = up_to_the_decision(asked, None, Some(receipt(vec![pinned("tool", "1.0")], 12)));
    let step = state.step(Event::EnvironmentRead(Some(environment("tool", 12))));
    assert_eq!(step.action, Action::ResolveEnvironment);
}

#[test]
fn other_requirements_than_those_of_the_receipt_rebuild() {
    let held = receipt(vec![pinned("tool", "1.0"), named("plugin")], 12);
    let state = up_to_the_decision(request(version("tool", "1.0")), None, Some(held));
    assert!(!state.reuse_permitted());
    let step = state.step(Event::EnvironmentRead(Some(environment("tool", 12))));
    assert_eq!(step.action, Action::ResolveEnvironment);

    let mut held = receipt(vec![pinned("tool", "1.0")], 12);
    held.constraints = vec![pinned("dep", "2.0")];
    let state = up_to_the_decision(request(version("tool", "1.0")), None, Some(held));
    assert!(!state.reuse_permitted());

    let mut held = receipt(vec![pinned("tool", "1.0")], 12);
    held.overrides = vec![named("over")];
    let state = up_to_the_decision(request(version("tool", "1.0")), None, Some(held));
    assert!(!state.reuse_permitted());

    let mut held = receipt(vec![pinned("tool", "1.0")], 12);
    held.build_constraints = vec![named("build")];
    let state = up_to_the_decision(request(version("tool", "1.0")), None, Some(held));
    assert!(!state.reuse_permitted());
}

#[test]
fn the_same_requirements_in_another_order_rebuild() {
    let step = run(
        Reconciler::begin(request(version("tool", "1.0"))),
        vec![
            (Stage::ResolveInterpreter, Event::InterpreterFound(interpreter(12))),
            (
                Stage::ResolveSupplementary,
                Event::SupplementaryResolved(Supplementary {
                    requirements: vec![named("a"), named("b")],
                    ..nothing_more()
                }),
            ),
            (
                Stage::ReadReceipt,
                Event::ReceiptRead(Some(receipt(
                    vec![pinned("tool", "1.0"), named("b"), named("a")],
                    12,
                ))),
            ),
        ],
    );
    assert!(!step.state.reuse_permitted());
    let step = step.state.step(Event::EnvironmentRead(Some(environment("tool", 12))));
    assert_eq!(step.action, Action::ResolveEnvironment);
}

#[test]
fn an_environment_of_another_interpreter_is_left_aside() {
    let held = receipt(vec![pinned("tool", "1.0")], 10);
    let state = up_to_the_decision(request(version("tool", "1.0")), None, Some(held));
    let step = state.step(Event::EnvironmentRead(Some(environment("tool", 10))));
    assert_eq!(step.action, Action::ResolveEnvironment);
    assert_eq!(step.notice, Some(Notice::IgnoredEnvironment));
    assert_eq!(step.state.environment, None);
    let step = run(
        step.state,
        vec![
            (Stage::Resolve, Event::EnvironmentResolved(vec![pin("tool", "1.0")])),
            (Stage::RemoveEntrypoints, Event::Completed),
        ],
    );
    assert_eq!(step.action, Action::CreateEnvironment);
}

#[test]
fn a_first_install_creates_its_environment() {
    let state = up_to_the_decision(request(unspecified("tool")), Some(named("tool")), None);
    let step = state.step(Event::EnvironmentRead(None));
    assert_eq!(step.action, Action::ResolveEnvironment);
    assert_eq!(step.notice, None);
    let step = run(
        step.state,
        vec![
            (
                Stage::Resolve,
                Event::EnvironmentResolved(vec![pin("tool", "2.0"), pin("dep", "1.1")]),
            ),
            (Stage::CreateNew, Event::EnvironmentReady(environment("tool", 12))),
        ],
    );
    assert_eq!(step.action, Action::SyncEnvironment);
    assert!(step.state.fresh);
    assert_eq!(step.state.resolution, Some(vec![pin("tool", "2.0"), pin("dep", "1.1")]));
    let step = run(
        step.state,
        vec![
            (Stage::Sync, Event::EnvironmentReady(environment("tool", 12))),
            (Stage::Finalize, Event::EntrypointsInstalled(vec![entrypoint("tool")])),
        ],
    );
    assert_eq!(step.action, Action::WriteReceipt);
    let written = step.state.receipt.as_ref().unwrap();
    assert_eq!(written.requirements, vec![named("tool")]);
    assert_eq!(written.interpreter, interpreter(12));
    assert_eq!(written.entrypoints, vec![entrypoint("tool")]);
    assert!(written.options.same(&Options::empty()));
    assert!(!written.invalid);
    let step = step.state.step(Event::Completed);
    assert_eq!(step.action, Action::Stop);
    assert_eq!(step.state.outcome, Some(Outcome::Installed));
}

#[test]
fn a_failed_sync_of_a_new_environment_is_rolled_back() {
    let state = up_to_the_decision(request(unspecified("tool")), Some(named("tool")), None);
    let step = run(
        state,
        vec![
            (Stage::DecideReuse, Event::EnvironmentRead(None)),
            (Stage::Resolve, Event::EnvironmentResolved(vec![pin("tool", "2.0")])),
            (Stage::CreateNew, Event::EnvironmentReady(environment("tool", 12))),
        ],
    );
    let broken = failure(FailureKind::Operation, "build failed");
    let step = step.state.step(Event::Failed(broken.clone()));
    assert_eq!(step.action, Action::RemoveEnvironment);
    assert_eq!(step.state.stage, Stage::Rollback);
    assert_eq!(step.state.requirement, Some(named("tool")));
    let step = step.state.step(Event::Completed);
    assert_eq!(step.action, Action::Stop);
    assert_eq!(step.state.outcome, Some(Outcome::Diagnostic(broken)));
    assert_eq!(step.state.environment, None);
    assert!(step.state.receipt.is_none());
}

#[test]
fn a_rollback_that_fails_still_ends_with_the_failure_of_the_sync() {
    let state = up_to_the_decision(request(unspecified("tool")), Some(named("tool")), None);
    let broken = failure(FailureKind::Fatal, "interrupted");
    let step = run(
        state,
        vec![
            (Stage::DecideReuse, Event::EnvironmentRead(None)),
            (Stage::Resolve, Event::EnvironmentResolved(vec![pin("tool", "2.0")])),
            (Stage::CreateNew, Event::EnvironmentReady(environment("tool", 12))),
            (Stage::Sync, Event::Failed(broken.clone())),
            (Stage::Rollback, Event::Failed(failure(FailureKind::NotFound, "already gone"))),
        ],
    );
    assert_eq!(step.action, Action::Stop);
    assert_eq!(step.state.outcome, Some(Outcome::Failed(broken)));
}

#[test]
fn a_failed_update_is_not_rolled_back() {
    let mut asked = request(version("tool", "1.0"));
    asked.force = true;
    let state = up_to_the_decision(asked, None, Some(receipt(vec![pinned("tool", "1.0")], 12)));
    let broken = failure(FailureKind::Operation, "build failed");
    let step = run(
        state,
        vec![
            (Stage::DecideReuse, Event::EnvironmentRead(Some(environment("tool", 12)))),
            (Stage::Resolve, Event::EnvironmentResolved(vec![pin("tool", "1.0")])),
            (Stage::RemoveEntrypoints, Event::Completed),
            (Stage::UpdateExisting, Event::Failed(broken.clone())),
        ],
    );
    assert_eq!(step.action, Action::Stop);
    assert_eq!(step.state.outcome, Some(Outcome::Diagnostic(broken)));
    assert!(!step.state.fresh);
}

#[test]
fn entrypoints_stay_when_the_resolution_fails() {
    let mut asked = request(version("tool", "1.0"));
    asked.force = true;
    let state = up_to_the_decision(asked, None, Some(receipt(vec![pinned("tool", "1.0")], 12)));
    let broken = failure(FailureKind::Operation, "no version found");
    let step = run(
        state,
        vec![
            (Stage::DecideReuse, Event::EnvironmentRead(Some(environment("tool", 12)))),
            (Stage::Resolve, Event::Failed(broken.clone())),
        ],
    );
    assert_eq!(step.action, Action::Stop);
    assert_eq!(step.state.outcome, Some(Outcome::Diagnostic(broken)));
}

#[test]
fn entrypoints_that_cannot_be_removed_do_not_stop_the_install() {
    let mut asked = request(version("tool", "1.0"));
    asked.force = true;
    let state = up_to_the_decision(asked, None, Some(receipt(vec![pinned("tool", "1.0")], 12)));
    let step = run(
        state,
        vec![
            (Stage::DecideReuse, Event::EnvironmentRead(Some(environment("tool", 12)))),
            (Stage::Resolve, Event::EnvironmentResolved(vec![pin("tool", "1.0")])),
            (Stage::RemoveEntrypoints, Event::Failed(failure(FailureKind::NotFound, "gone"))),
        ],
    );
    assert_eq!(step.action, Action::UpdateEnvironment);
    assert!(step.state.outcome.is_none());
}

#[test]
fn a_receipt_that_cannot_be_read_is_healed() {
    let step = run(
        Reconciler::begin(request(version("tool", "1.0"))),
        vec![
            (Stage::ResolveInterpreter, Event::InterpreterFound(interpreter(12))),
            (Stage::ResolveSupplementary, Event::SupplementaryResolved(nothing_more())),
            (Stage::ReadReceipt, Event::Failed(failure(FailureKind::Fatal, "not a receipt"))),
        ],
    );
    assert_eq!(step.action, Action::RemoveEnvironment);
    assert_eq!(step.state.stage, Stage::HealStore);
    assert!(step.state.invalid_receipt);
    assert!(step.state.prior_receipt.is_none());
    let step = step.state.step(Event::Completed);
    assert_eq!(step.action, Action::ReadEnvironment);
    assert_eq!(step.notice, Some(Notice::RemovedInvalidReceipt));
    let step = run(
        step.state,
        vec![
            (Stage::DecideReuse, Event::EnvironmentRead(None)),
            (Stage::Resolve, Event::EnvironmentResolved(vec![pin("tool", "1.0")])),
            (Stage::CreateNew, Event::EnvironmentReady(environment("tool", 12))),
            (Stage::Sync, Event::EnvironmentReady(environment("tool", 12))),
            (Stage::Finalize, Event::EntrypointsInstalled(vec![entrypoint("tool")])),
        ],
    );
    assert_eq!(step.action, Action::WriteReceipt);
    assert!(step.state.receipt.as_ref().unwrap().invalid);
}

#[test]
fn healing_takes_an_environment_that_is_gone_already() {
    let step = run(
        Reconciler::begin(request(version("tool", "1.0"))),
        vec![
            (Stage::ResolveInterpreter, Event::InterpreterFound(interpreter(12))),
            (Stage::ResolveSupplementary, Event::SupplementaryResolved(nothing_more())),
            (Stage::ReadReceipt, Event::Failed(failure(FailureKind::Fatal, "not a receipt"))),
            (Stage::HealStore, Event::Failed(failure(FailureKind::NotFound, "no such directory"))),
        ],
    );
    assert_eq!(step.action, Action::ReadEnvironment);
    assert_eq!(step.notice, None);
    assert!(step.state.invalid_receipt);
}

#[test]
fn healing_that_fails_otherwise_is_fatal() {
    let denied = failure(FailureKind::Fatal, "permission denied");
    let step = run(
        Reconciler::begin(request(version("tool", "1.0"))),
        vec![
            (Stage::ResolveInterpreter, Event::InterpreterFound(interpreter(12))),
            (Stage::ResolveSupplementary, Event::SupplementaryResolved(nothing_more())),
            (Stage::ReadReceipt, Event::Failed(failure(FailureKind::Fatal, "not a receipt"))),
            (Stage::HealStore, Event::Failed(denied.clone())),
        ],
    );
    assert_eq!(step.action, Action::Stop);
    assert_eq!(step.state.outcome, Some(Outcome::Failed(denied)));
}

#[test]
fn the_latest_version_over_a_pinned_receipt_rebuilds() {
    let held = receipt(vec![pinned("tool", "v1")], 12);
    let state = up_to_the_decision(request(latest("tool")), None, Some(held));
    assert!(!state.reuse_permitted());
    let step = state.step(Event::EnvironmentRead(Some(environment("tool", 12))));
    assert_eq!(step.action, Action::ResolveEnvironment);
    let step = run(
        step.state,
        vec![
            (Stage::Resolve, Event::EnvironmentResolved(vec![pin("tool", "v2")])),
            (Stage::RemoveEntrypoints, Event::Completed),
        ],
    );
    assert_eq!(step.action, Action::UpdateEnvironment);
    assert_eq!(step.state.resolution, Some(vec![pin("tool", "v2")]));
    let step = run(
        step.state,
        vec![
            (Stage::UpdateExisting, Event::EnvironmentReady(environment("tool", 12))),
            (Stage::Finalize, Event::EntrypointsInstalled(vec![entrypoint("tool")])),
        ],
    );
    assert_eq!(step.action, Action::WriteReceipt);
    let written = step.state.receipt.as_ref().unwrap();
    assert_eq!(written.requirements, vec![named("tool")]);
    assert_ne!(written.requirements, vec![pinned("tool", "v1")]);
    assert!(written.constraints.is_empty());
    assert_eq!(step.state.resolution, Some(vec![pin("tool", "v2")]));
    let step = step.state.step(Event::Completed);
    assert_eq!(step.state.outcome, Some(Outcome::Installed));
}

#[test]
fn the_latest_version_over_its_own_receipt_rebuilds_again() {
    let held = receipt(vec![named("tool")], 12);
    let state = up_to_the_decision(request(latest("tool")), None, Some(held));
    let step = state.step(Event::EnvironmentRead(Some(environment("tool", 12))));
    assert_eq!(step.action, Action::ResolveEnvironment);
}

#[test]
fn an_unmet_lower_bound_is_answered_by_one_refinement() {
    let mut state = up_to_the_decision(request(unspecified("tool")), Some(named("tool")), None);
    state.interpreter = Some(interpreter(8));
    let step = run(
        state,
        vec![
            (Stage::DecideReuse, Event::EnvironmentRead(None)),
            (Stage::Resolve, Event::Failed(unmet(10))),
        ],
    );
    assert_eq!(step.action, Action::RefineInterpreter);
    assert_eq!(step.state.unmet_python, Some(PythonVersion { major: 3, minor: 10 }));
    assert!(step.state.refined);
    assert!(step.state.outcome.is_none());
    let step = step.state.step(Event::InterpreterFound(interpreter(11)));
    assert_eq!(step.action, Action::ResolveEnvironment);
    assert_eq!(step.state.interpreter, Some(interpreter(11)));
    let step = run(
        step.state,
        vec![
            (Stage::Resolve, Event::EnvironmentResolved(vec![pin("tool", "2.0")])),
            (Stage::CreateNew, Event::EnvironmentReady(environment("tool", 11))),
            (Stage::Sync, Event::EnvironmentReady(environment("tool", 11))),
            (Stage::Finalize, Event::EntrypointsInstalled(vec![entrypoint("tool")])),
        ],
    );
    assert_eq!(step.action, Action::WriteReceipt);
    assert_eq!(step.state.receipt.as_ref().unwrap().interpreter, interpreter(11));
    let step = step.state.step(Event::Completed);
    assert_eq!(step.state.outcome, Some(Outcome::Installed));
}

#[test]
fn a_second_failed_resolution_is_the_outcome() {
    let state = up_to_the_decision(request(unspecified("tool")), Some(named("tool")), None);
    let second = Failure { message: text("still no version"), ..unmet(13) };
    let step = run(
        state,
        vec![
            (Stage::DecideReuse, Event::EnvironmentRead(None)),
            (Stage::Resolve, Event::Failed(unmet(10))),
            (Stage::RefineInterpreter, Event::InterpreterFound(interpreter(11))),
            (Stage::Resolve, Event::Failed(second.clone())),
        ],
    );
    assert_eq!(step.action, Action::Stop);
    assert_eq!(step.state.outcome, Some(Outcome::Diagnostic(second)));
}

#[test]
fn a_failed_refinement_is_the_outcome() {
    let state = up_to_the_decision(request(unspecified("tool")), Some(named("tool")), None);
    let denied = failure(FailureKind::NotFound, "no interpreter at 3.10 or later");
    let step = run(
        state,
        vec![
            (Stage::DecideReuse, Event::EnvironmentRead(None)),
            (Stage::Resolve, Event::Failed(unmet(10))),
            (Stage::RefineInterpreter, Event::Failed(denied.clone())),
        ],
    );
    assert_eq!(step.action, Action::Stop);
    assert_eq!(step.state.outcome, Some(Outcome::Diagnostic(denied)));
}

#[test]
fn a_failed_resolution_without_a_bound_is_the_outcome() {
    let state = up_to_the_decision(request(unspecified("tool")), Some(named("tool")), None);
    let broken = failure(FailureKind::Operation, "no version found");
    let step = run(
        state,
        vec![
            (Stage::DecideReuse, Event::EnvironmentRead(None)),
            (Stage::Resolve, Event::Failed(broken.clone())),
        ],
    );
    assert_eq!(step.action, Action::Stop);
    assert_eq!(step.state.outcome, Some(Outcome::Diagnostic(broken)));
    assert!(!step.state.refined);
}

#[test]
fn a_fatal_failure_with_a_bound_is_not_refined() {
    let state = up_to_the_decision(request(unspecified("tool")), Some(named("tool")), None);
    let broken = Failure { kind: FailureKind::Fatal, ..unmet(10) };
    let step = run(
        state,
        vec![
            (Stage::DecideReuse, Event::EnvironmentRead(None)),
            (Stage::Resolve, Event::Failed(broken.clone())),
        ],
    );
    assert_eq!(step.state.outcome, Some(Outcome::Failed(broken)));
}

#[test]
fn a_refinement_leaves_the_environment_of_the_older_interpreter_aside() {
    let mut asked = request(version("tool", "1.0"));
    asked.force = true;
    let state = up_to_the_decision(asked, None, Some(receipt(vec![pinned("tool", "1.0")], 12)));
    let step = run(
        state,
        vec![
            (Stage::DecideReuse, Event::EnvironmentRead(Some(environment("tool", 12)))),
            (Stage::Resolve, Event::Failed(unmet(13))),
            (Stage::RefineInterpreter, Event::InterpreterFound(interpreter(13))),
        ],
    );
    assert_eq!(step.action, Action::ResolveEnvironment);
    assert_eq!(step.state.environment, None);
    let step = run(
        step.state,
        vec![
            (Stage::Resolve, Event::EnvironmentResolved(vec![pin("tool", "1.0")])),
            (Stage::RemoveEntrypoints, Event::Completed),
        ],
    );
    assert_eq!(step.action, Action::CreateEnvironment);
}

#[test]
fn an_event_out_of_order_ends_the_install() {
    let step = Reconciler::begin(request(unspecified("tool"))).step(Event::Completed);
    assert_eq!(step.action, Action::Stop);
    assert_eq!(step.state.outcome, Some(Outcome::OutOfOrder));

    let state = up_to_the_decision(request(unspecified("tool")), Some(named("tool")), None);
    let step = state.step(Event::ReceiptRead(None));
    assert_eq!(step.state.outcome, Some(Outcome::OutOfOrder));
}

#[test]
fn a_store_that_cannot_be_read_is_fatal() {
    let state = up_to_the_decision(request(unspecified("tool")), Some(named("tool")), None);
    let broken = failure(FailureKind::Fatal, "cannot read the tool directory");
    let step = state.step(Event::Failed(broken.clone()));
    assert_eq!(step.action, Action::Stop);
    assert_eq!(step.state.outcome, Some(Outcome::Failed(broken)));
}

#[test]
fn entrypoints_that_cannot_be_installed_fail_the_install() {
    let state = up_to_the_decision(request(unspecified("tool")), Some(named("tool")), None);
    let broken = failure(FailureKind::Fatal, "no executables");
    let step = run(
        state,
        vec![
            (Stage::DecideReuse, Event::EnvironmentRead(None)),
            (Stage::Resolve, Event::EnvironmentResolved(vec![pin("tool", "2.0")])),
            (Stage::CreateNew, Event::EnvironmentReady(environment("tool", 12))),
            (Stage::Sync, Event::EnvironmentReady(environment("tool", 12))),
            (Stage::Finalize, Event::Failed(broken.clone())),
        ],
    );
    assert_eq!(step.action, Action::Stop);
    assert_eq!(step.state.outcome, Some(Outcome::Failed(broken)));
}

#[test]
fn an_environment_that_cannot_be_created_is_fatal() {
    let state = up_to_the_decision(request(unspecified("tool")), Some(named("tool")), None);
    let broken = failure(FailureKind::Fatal, "cannot create the directory");
    let step = run(
        state,
        vec![
            (Stage::DecideReuse, Event::EnvironmentRead(None)),
            (Stage::Resolve, Event::EnvironmentResolved(vec![pin("tool", "2.0")])),
            (Stage::CreateNew, Event::Failed(broken.clone())),
        ],
    );
    assert_eq!(step.action, Action::Stop);
    assert_eq!(step.state.outcome, Some(Outcome::Failed(broken)));
    assert!(!step.state.fresh);
}

#[test]
fn a_request_knows_whether_it_asks_for_the_latest_version() {
    assert!(request(latest("tool")).request.is_latest());
    assert!(!request(version("tool", "1.0")).request.is_latest());
    assert!(!request(unspecified("tool")).request.is_latest());
    assert!(!ToolRequest::Python.is_latest());
}

#[test]
fn model_values_are_the_same_by_what_they_hold() {
    assert!(interpreter(12).same(&interpreter(12)));
    assert!(!interpreter(12).same(&interpreter(11)));
    assert!(environment("tool", 12).same(&environment("tool", 12).duplicate()));
    assert!(!environment("tool", 12).same(&environment("other", 12)));
    assert!(pinned("tool", "1.0").same(&pinned("tool", "1.0")));
    assert!(!pinned("tool", "1.0").same(&pinned("tool", "1.1")));
    assert!(!pinned("tool", "1.0").same(&named("tool")));
    assert!(!Specifier::Constraint(text(">=1")).same(&Specifier::Location(text(">=1"))));
    assert!(Specifier::Location(text("./tool")).same(&Specifier::Location(text("./tool"))));
    assert!(pin("tool", "1").same(&pin("tool", "1")));
    assert!(!pin("tool", "1").same(&pin("tool", "2")));
    assert!(entrypoint("tool").same(&entrypoint("tool").duplicate()));
    assert!(unmet(10).same(&unmet(10).duplicate()));
    assert!(!unmet(10).same(&unmet(11)));
    let held = receipt(vec![pinned("tool", "1.0")], 12);
    assert!(held.same(&held.duplicate()));
    let mut other = held.duplicate();
    other.invalid = true;
    assert!(!held.same(&other));
    assert!(PythonVersion { major: 3, minor: 9 }.same(&PythonVersion { major: 3, minor: 9 }));
}

#[test]
fn a_failed_operation_of_the_store_is_no_diagnostic() {
    let state = up_to_the_decision(request(unspecified("tool")), Some(named("tool")), None);
    let broken = failure(FailureKind::Operation, "cannot read the tool directory");
    let step = state.step(Event::Failed(broken.clone()));
    assert_eq!(step.state.outcome, Some(Outcome::Failed(broken)));

    let state = up_to_the_decision(request(unspecified("tool")), Some(named("tool")), None);
    let broken = failure(FailureKind::Operation, "cannot create the directory");
    let step = run(
        state,
        vec![
            (Stage::DecideReuse, Event::EnvironmentRead(None)),
            (Stage::Resolve, Event::EnvironmentResolved(vec![pin("tool", "2.0")])),
            (Stage::CreateNew, Event::Failed(broken.clone())),
        ],
    );
    assert_eq!(step.state.outcome, Some(Outcome::Failed(broken)));

    let broken = failure(FailureKind::Operation, "no such package");
    let step = run(
        Reconciler::begin(request(unspecified("tool"))),
        vec![
            (Stage::ResolveInterpreter, Event::InterpreterFound(interpreter(12))),
            (Stage::ResolveTarget, Event::Failed(broken.clone())),
        ],
    );
    assert_eq!(step.state.outcome, Some(Outcome::Failed(broken)));
}

#[test]
fn a_sync_that_fails_otherwise_than_as_an_operation_ends_the_command() {
    let state = up_to_the_decision(request(unspecified("tool")), Some(named("tool")), None);
    let broken = failure(FailureKind::Fatal, "interrupted");
    let step = run(
        state,
        vec![
            (Stage::DecideReuse, Event::EnvironmentRead(None)),
            (Stage::Resolve, Event::EnvironmentResolved(vec![pin("tool", "2.0")])),
            (Stage::CreateNew, Event::EnvironmentReady(environment("tool", 12))),
            (Stage::Sync, Event::Failed(broken.clone())),
            (Stage::Rollback, Event::Completed),
        ],
    );
    assert_eq!(step.state.outcome, Some(Outcome::Failed(broken.clone())));
    assert_eq!(Outcome::Failed(broken).exit(true), Exit::Error);
}

#[test]
fn only_a_diagnostic_is_handed_to_the_diagnostics() {
    let broken = failure(FailureKind::Operation, "no version found");
    assert_eq!(Outcome::Diagnostic(broken.clone()).diagnostic(), Some(&broken));
    assert_eq!(Outcome::Failed(broken.clone()).diagnostic(), None);
    assert_eq!(Outcome::Installed.diagnostic(), None);
    assert_eq!(Outcome::AlreadyInstalled.diagnostic(), None);
    assert_eq!(Outcome::Rejected(UserError::NameMismatch).diagnostic(), None);
    assert_eq!(Outcome::OutOfOrder.diagnostic(), None);
}

#[test]
fn the_exit_follows_the_outcome_and_the_answer_of_the_diagnostics() {
    let broken = failure(FailureKind::Operation, "no version found");
    assert_eq!(Outcome::Installed.exit(false), Exit::Success);
    assert_eq!(Outcome::Installed.exit(true), Exit::Success);
    assert_eq!(Outcome::AlreadyInstalled.exit(false), Exit::Success);
    assert_eq!(Outcome::Diagnostic(broken.clone()).exit(true), Exit::Failure);
    assert_eq!(Outcome::Diagnostic(broken.clone()).exit(false), Exit::Error);
    assert_eq!(Outcome::Failed(broken.clone()).exit(true), Exit::Error);
    assert_eq!(Outcome::Failed(broken).exit(false), Exit::Error);
    assert_eq!(Outcome::Rejected(UserError::EditableUnsupported).exit(true), Exit::Error);
    assert_eq!(Outcome::OutOfOrder.exit(true), Exit::Error);
}
