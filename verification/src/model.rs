//! The values that an install works on: interpreters, environments,
//! requirements, receipts and failures.

use vstd::prelude::*;
use crate::plain::Plain;
use crate::settings::{Options, OptionsView};

verus! {

/// The version of an interpreter.
#[derive(Clone, Copy, Debug, PartialEq, Eq, Structural)]
pub struct PythonVersion {
    pub major: u64,
    pub minor: u64,
}

impl DeepView for PythonVersion {
    type V = PythonVersion;

    open spec fn deep_view(&self) -> PythonVersion {
        *self
    }
}

impl Plain for PythonVersion {
    fn same(&self, other: &PythonVersion) -> (same: bool) {
        *self == *other
    }

    fn duplicate(&self) -> (copy: PythonVersion) {
        *self
    }
}

/// An interpreter, known by the place of its executable.
#[derive(Clone, Debug, PartialEq, Eq)]
pub struct Interpreter {
    pub executable: String,
    pub version: PythonVersion,
}

/// What an [`Interpreter`] stands for.
pub struct InterpreterView {
    pub executable: Seq<char>,
    pub version: PythonVersion,
}

impl DeepView for Interpreter {
    type V = InterpreterView;

    open spec fn deep_view(&self) -> InterpreterView {
        InterpreterView { executable: self.executable@, version: self.version }
    }
}

impl Plain for Interpreter {
    fn same(&self, other: &Interpreter) -> (same: bool) {
        self.executable.same(&other.executable) && self.version.same(&other.version)
    }

    fn duplicate(&self) -> (copy: Interpreter) {
        Interpreter { executable: self.executable.duplicate(), version: self.version }
    }
}

/// The environment of an installed tool: bound to exactly one interpreter.
#[derive(Clone, Debug, PartialEq, Eq)]
pub struct Environment {
    pub name: String,
    pub interpreter: Interpreter,
}

/// What an [`Environment`] stands for.
pub struct EnvironmentView {
    pub name: Seq<char>,
    pub interpreter: InterpreterView,
}

impl DeepView for Environment {
    type V = EnvironmentView;

    open spec fn deep_view(&self) -> EnvironmentView {
        EnvironmentView { name: self.name@, interpreter: self.interpreter.deep_view() }
    }
}

impl Plain for Environment {
    fn same(&self, other: &Environment) -> (same: bool) {
        self.name.same(&other.name) && self.interpreter.same(&other.interpreter)
    }

    fn duplicate(&self) -> (copy: Environment) {
        Environment { name: self.name.duplicate(), interpreter: self.interpreter.duplicate() }
    }
}

/// The versions of a package that a requirement admits.
#[derive(Clone, Debug, PartialEq, Eq)]
pub enum Specifier {
    /// Every version.
    Any,
    /// Exactly the version given.
    Exact(String),
    /// The versions that a written constraint admits.
    Constraint(String),
    /// What is found at a path or an address.
    Location(String),
}

/// What a [`Specifier`] stands for.
pub enum SpecifierView {
    Any,
    Exact(Seq<char>),
    Constraint(Seq<char>),
    Location(Seq<char>),
}

impl DeepView for Specifier {
    type V = SpecifierView;

    open spec fn deep_view(&self) -> SpecifierView {
        match self {
            Specifier::Any => SpecifierView::Any,
            Specifier::Exact(version) => SpecifierView::Exact(version@),
            Specifier::Constraint(text) => SpecifierView::Constraint(text@),
            Specifier::Location(place) => SpecifierView::Location(place@),
        }
    }
}

impl Plain for Specifier {
    fn same(&self, other: &Specifier) -> (same: bool) {
        match (self, other) {
            (Specifier::Any, Specifier::Any) => true,
            (Specifier::Exact(a), Specifier::Exact(b)) => a.same(b),
            (Specifier::Constraint(a), Specifier::Constraint(b)) => a.same(b),
            (Specifier::Location(a), Specifier::Location(b)) => a.same(b),
            _ => false,
        }
    }

    fn duplicate(&self) -> (copy: Specifier) {
        match self {
            Specifier::Any => Specifier::Any,
            Specifier::Exact(version) => Specifier::Exact(version.duplicate()),
            Specifier::Constraint(text) => Specifier::Constraint(text.duplicate()),
            Specifier::Location(place) => Specifier::Location(place.duplicate()),
        }
    }
}

/// A requirement on one package.
#[derive(Clone, Debug, PartialEq, Eq)]
pub struct Requirement {
    pub name: String,
    pub extras: Vec<String>,
    pub specifier: Specifier,
    pub editable: bool,
}

/// What a [`Requirement`] stands for.
pub struct RequirementView {
    pub name: Seq<char>,
    pub extras: Seq<Seq<char>>,
    pub specifier: SpecifierView,
    pub editable: bool,
}

impl DeepView for Requirement {
    type V = RequirementView;

    open spec fn deep_view(&self) -> RequirementView {
        RequirementView {
            name: self.name@,
            extras: self.extras.deep_view(),
            specifier: self.specifier.deep_view(),
            editable: self.editable,
        }
    }
}

impl Plain for Requirement {
    fn same(&self, other: &Requirement) -> (same: bool) {
        self.name.same(&other.name) && self.extras.same(&other.extras) && self.specifier.same(
            &other.specifier,
        ) && self.editable == other.editable
    }

    fn duplicate(&self) -> (copy: Requirement) {
        Requirement {
            name: self.name.duplicate(),
            extras: self.extras.duplicate(),
            specifier: self.specifier.duplicate(),
            editable: self.editable,
        }
    }
}

/// One package of a resolved set, at the version selected for it.
#[derive(Clone, Debug, PartialEq, Eq)]
pub struct Pin {
    pub name: String,
    pub version: String,
}

/// What a [`Pin`] stands for.
pub struct PinView {
    pub name: Seq<char>,
    pub version: Seq<char>,
}

impl DeepView for Pin {
    type V = PinView;

    open spec fn deep_view(&self) -> PinView {
        PinView { name: self.name@, version: self.version@ }
    }
}

impl Plain for Pin {
    fn same(&self, other: &Pin) -> (same: bool) {
        self.name.same(&other.name) && self.version.same(&other.version)
    }

    fn duplicate(&self) -> (copy: Pin) {
        Pin { name: self.name.duplicate(), version: self.version.duplicate() }
    }
}

/// A launcher that an install has put in place for an executable of a tool.
#[derive(Clone, Debug, PartialEq, Eq)]
pub struct Entrypoint {
    pub name: String,
    pub path: String,
}

/// What an [`Entrypoint`] stands for.
pub struct EntrypointView {
    pub name: Seq<char>,
    pub path: Seq<char>,
}

impl DeepView for Entrypoint {
    type V = EntrypointView;

    open spec fn deep_view(&self) -> EntrypointView {
        EntrypointView { name: self.name@, path: self.path@ }
    }
}

impl Plain for Entrypoint {
    fn same(&self, other: &Entrypoint) -> (same: bool) {
        self.name.same(&other.name) && self.path.same(&other.path)
    }

    fn duplicate(&self) -> (copy: Entrypoint) {
        Entrypoint { name: self.name.duplicate(), path: self.path.duplicate() }
    }
}

/// The record of the last successful install of a tool.
#[derive(Debug)]
pub struct Receipt {
    pub requirements: Vec<Requirement>,
    pub constraints: Vec<Requirement>,
    pub overrides: Vec<Requirement>,
    pub build_constraints: Vec<Requirement>,
    pub options: Options,
    pub interpreter: Interpreter,
    pub entrypoints: Vec<Entrypoint>,
    /// The install was forced, or replaced a receipt that could not be read.
    pub invalid: bool,
}

/// What a [`Receipt`] stands for.
pub struct ReceiptView {
    pub requirements: Seq<RequirementView>,
    pub constraints: Seq<RequirementView>,
    pub overrides: Seq<RequirementView>,
    pub build_constraints: Seq<RequirementView>,
    pub options: OptionsView,
    pub interpreter: InterpreterView,
    pub entrypoints: Seq<EntrypointView>,
    pub invalid: bool,
}

impl DeepView for Receipt {
    type V = ReceiptView;

    open spec fn deep_view(&self) -> ReceiptView {
        ReceiptView {
            requirements: self.requirements.deep_view(),
            constraints: self.constraints.deep_view(),
            overrides: self.overrides.deep_view(),
            build_constraints: self.build_constraints.deep_view(),
            options: self.options.deep_view(),
            interpreter: self.interpreter.deep_view(),
            entrypoints: self.entrypoints.deep_view(),
            invalid: self.invalid,
        }
    }
}

impl Plain for Receipt {
    fn same(&self, other: &Receipt) -> (same: bool) {
        self.requirements.same(&other.requirements) && self.constraints.same(&other.constraints)
            && self.overrides.same(&other.overrides) && self.build_constraints.same(
            &other.build_constraints,
        ) && self.options.same(&other.options) && self.interpreter.same(&other.interpreter)
            && self.entrypoints.same(&other.entrypoints) && self.invalid == other.invalid
    }

    fn duplicate(&self) -> (copy: Receipt) {
        Receipt {
            requirements: self.requirements.duplicate(),
            constraints: self.constraints.duplicate(),
            overrides: self.overrides.duplicate(),
            build_constraints: self.build_constraints.duplicate(),
            options: self.options.duplicate(),
            interpreter: self.interpreter.duplicate(),
            entrypoints: self.entrypoints.duplicate(),
            invalid: self.invalid,
        }
    }
}

/// How a failure of outside work is to be taken.
#[derive(Clone, Copy, Debug, PartialEq, Eq, Structural)]
pub enum FailureKind {
    /// What was asked for is not there.
    NotFound,
    /// A resolution or a sync failed: reported as a diagnostic.
    Operation,
    /// Anything else: the install cannot go on.
    Fatal,
}

/// A failure of outside work.
#[derive(Clone, Debug, PartialEq, Eq)]
pub struct Failure {
    pub kind: FailureKind,
    /// The lowest interpreter version that the requirements ask for, where a
    /// resolution failed because the interpreter is older.
    pub unmet_python: Option<PythonVersion>,
    pub message: String,
}

/// What a [`Failure`] stands for.
pub struct FailureView {
    pub kind: FailureKind,
    pub unmet_python: Option<PythonVersion>,
    pub message: Seq<char>,
}

impl DeepView for Failure {
    type V = FailureView;

    open spec fn deep_view(&self) -> FailureView {
        FailureView { kind: self.kind, unmet_python: self.unmet_python, message: self.message@ }
    }
}

impl Plain for Failure {
    fn same(&self, other: &Failure) -> (same: bool) {
        self.kind == other.kind && self.unmet_python.same(&other.unmet_python)
            && self.message.same(&other.message)
    }

    fn duplicate(&self) -> (copy: Failure) {
        Failure {
            kind: self.kind,
            unmet_python: self.unmet_python,
            message: self.message.duplicate(),
        }
    }
}

} // verus!
