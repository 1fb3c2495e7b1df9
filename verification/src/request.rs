//! What is asked of an install.

use vstd::prelude::*;
use crate::settings::{Options, OptionsView};

verus! {

/// The name of the executable that an install was asked for, where the package
/// that provides it was named apart.
#[derive(Clone, Debug, PartialEq, Eq)]
pub enum Executable {
    /// A package name, in its normal form.
    Named(String),
    /// Text that is no package name.
    Malformed(String),
}

/// What an [`Executable`] stands for.
pub enum ExecutableView {
    Named(Seq<char>),
    Malformed(Seq<char>),
}

impl DeepView for Executable {
    type V = ExecutableView;

    open spec fn deep_view(&self) -> ExecutableView {
        match self {
            Executable::Named(name) => ExecutableView::Named(name@),
            Executable::Malformed(text) => ExecutableView::Malformed(text@),
        }
    }
}

/// The package to install.
#[derive(Clone, Debug, PartialEq, Eq)]
pub enum Target {
    /// A name or a place, still to be resolved to a package.
    Unspecified(String),
    /// A package at an exact version.
    Version { name: String, extras: Vec<String>, version: String },
    /// A package at the latest of its versions.
    Latest { name: String, extras: Vec<String> },
}

/// What a [`Target`] stands for.
pub enum TargetView {
    Unspecified(Seq<char>),
    Version { name: Seq<char>, extras: Seq<Seq<char>>, version: Seq<char> },
    Latest { name: Seq<char>, extras: Seq<Seq<char>> },
}

impl DeepView for Target {
    type V = TargetView;

    open spec fn deep_view(&self) -> TargetView {
        match self {
            Target::Unspecified(text) => TargetView::Unspecified(text@),
            Target::Version { name, extras, version } => TargetView::Version {
                name: name@,
                extras: extras.deep_view(),
                version: version@,
            },
            Target::Latest { name, extras } => TargetView::Latest {
                name: name@,
                extras: extras.deep_view(),
            },
        }
    }
}

/// A request for a tool.
#[derive(Clone, Debug, PartialEq, Eq)]
pub enum ToolRequest {
    /// A package, with the executable asked for where it was named apart.
    Package { executable: Option<Executable>, target: Target },
    /// The interpreter itself, which is no tool.
    Python,
}

/// What a [`ToolRequest`] stands for.
pub enum ToolRequestView {
    Package { executable: Option<ExecutableView>, target: TargetView },
    Python,
}

impl DeepView for ToolRequest {
    type V = ToolRequestView;

    open spec fn deep_view(&self) -> ToolRequestView {
        match self {
            ToolRequest::Package { executable, target } => ToolRequestView::Package {
                executable: executable.deep_view(),
                target: target.deep_view(),
            },
            ToolRequest::Python => ToolRequestView::Python,
        }
    }
}

/// Whether a request asks for the latest version of a package.
pub open spec fn asks_latest(request: ToolRequestView) -> bool {
    request matches ToolRequestView::Package { target: TargetView::Latest { .. }, .. }
}

impl ToolRequest {
    /// Whether the request asks for the latest version of a package.
    pub fn is_latest(&self) -> (latest: bool)
        ensures
            latest == asks_latest(self.deep_view()),
    {
        match self {
            ToolRequest::Package { target: Target::Latest { .. }, .. } => true,
            _ => false,
        }
    }
}

/// Which interpreters are looked for: those that the tool manages, or those
/// of the system.
#[derive(Clone, Copy, Debug, PartialEq, Eq, Structural)]
pub enum PythonPreference {
    OnlyManaged,
    Managed,
    System,
    OnlySystem,
}

/// Whether an interpreter that is not found may be acquired.
#[derive(Clone, Copy, Debug, PartialEq, Eq, Structural)]
pub enum PythonDownloads {
    Automatic,
    Manual,
    Never,
}

/// Where the auxiliary requirements of an install are read from.
#[derive(Clone, Debug, PartialEq, Eq)]
pub struct Sources {
    pub with: Vec<String>,
    pub constraints: Vec<String>,
    pub overrides: Vec<String>,
    pub build_constraints: Vec<String>,
}

/// What a [`Sources`] stands for.
pub struct SourcesView {
    pub with: Seq<Seq<char>>,
    pub constraints: Seq<Seq<char>>,
    pub overrides: Seq<Seq<char>>,
    pub build_constraints: Seq<Seq<char>>,
}

impl DeepView for Sources {
    type V = SourcesView;

    open spec fn deep_view(&self) -> SourcesView {
        SourcesView {
            with: self.with.deep_view(),
            constraints: self.constraints.deep_view(),
            overrides: self.overrides.deep_view(),
            build_constraints: self.build_constraints.deep_view(),
        }
    }
}

/// A request to install a tool.
#[derive(Debug)]
pub struct InstallRequest {
    pub request: ToolRequest,
    /// The package is to be installed so that changes to its source take effect.
    pub editable: bool,
    pub sources: Sources,
    /// The interpreter asked for.
    pub python: Option<String>,
    pub python_preference: PythonPreference,
    pub python_downloads: PythonDownloads,
    /// Install again whatever is installed.
    pub force: bool,
    /// The effective settings.
    pub options: Options,
}

/// What an [`InstallRequest`] stands for.
pub struct InstallRequestView {
    pub request: ToolRequestView,
    pub editable: bool,
    pub sources: SourcesView,
    pub python: Option<Seq<char>>,
    pub python_preference: PythonPreference,
    pub python_downloads: PythonDownloads,
    pub force: bool,
    pub options: OptionsView,
}

impl DeepView for InstallRequest {
    type V = InstallRequestView;

    open spec fn deep_view(&self) -> InstallRequestView {
        InstallRequestView {
            request: self.request.deep_view(),
            editable: self.editable,
            sources: self.sources.deep_view(),
            python: self.python.deep_view(),
            python_preference: self.python_preference,
            python_downloads: self.python_downloads,
            force: self.force,
            options: self.options.deep_view(),
        }
    }
}

} // verus!
