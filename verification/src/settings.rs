//! Configuration layers and the values of their fields.
//!
//! A layer is a sparse record: each of its fields is present or absent. Layers
//! of different precedence are merged field by field, each field by the
//! strategy of its kind.

use vstd::prelude::*;
use crate::combine::{items, or, Combine};
use crate::names::{
    deep_values, lemma_deep_concatenate, lemma_deep_keep_existing, merge_values,
    merge_values_is_associative, value_models, NameMap,
};
use crate::plain::{lemma_deep_view_of_joined, Plain};
use crate::strategy::{
    concatenate, concatenate_is_associative, first_wins, keep_existing_keys,
    keep_existing_keys_is_associative, keep_existing_keys_present,
    keep_existing_keys_present_is_associative, map_concatenate, map_concatenate_is_associative,
    map_concatenate_present, map_concatenate_present_is_associative,
};

verus! {

/// Which of the versions that satisfy a requirement is selected.
#[derive(Clone, Copy, Debug, PartialEq, Eq, Structural)]
pub enum ResolutionMode {
    Highest,
    Lowest,
    LowestDirect,
}

impl DeepView for ResolutionMode {
    type V = ResolutionMode;

    open spec fn deep_view(&self) -> ResolutionMode {
        *self
    }
}

impl Plain for ResolutionMode {
    fn same(&self, other: &ResolutionMode) -> (same: bool) {
        *self == *other
    }

    fn duplicate(&self) -> (copy: ResolutionMode) {
        *self
    }
}

/// A point in time, in seconds since the epoch: what was published after it is left out.
#[derive(Clone, Copy, Debug, PartialEq, Eq, Structural)]
pub struct ExcludeNewerTimestamp {
    pub seconds: i64,
}

impl DeepView for ExcludeNewerTimestamp {
    type V = ExcludeNewerTimestamp;

    open spec fn deep_view(&self) -> ExcludeNewerTimestamp {
        *self
    }
}

impl Plain for ExcludeNewerTimestamp {
    fn same(&self, other: &ExcludeNewerTimestamp) -> (same: bool) {
        *self == *other
    }

    fn duplicate(&self) -> (copy: ExcludeNewerTimestamp) {
        *self
    }
}

/// The exclusion timestamps of single packages: a precedence mapping.
#[derive(Debug)]
pub struct ExcludeNewerPackage {
    pub packages: NameMap<ExcludeNewerTimestamp>,
}

impl DeepView for ExcludeNewerPackage {
    type V = Map<Seq<char>, ExcludeNewerTimestamp>;

    open spec fn deep_view(&self) -> Map<Seq<char>, ExcludeNewerTimestamp> {
        self.packages.deep_view()
    }
}

impl Plain for ExcludeNewerPackage {
    fn same(&self, other: &ExcludeNewerPackage) -> (same: bool) {
        self.packages.same(&other.packages)
    }

    fn duplicate(&self) -> (copy: ExcludeNewerPackage) {
        ExcludeNewerPackage { packages: self.packages.duplicate() }
    }
}

impl ExcludeNewerPackage {
    /// Merge with the timestamps of a layer of lower precedence: a package of
    /// `self` keeps its timestamp.
    pub fn merge(self, other: ExcludeNewerPackage) -> (merged: ExcludeNewerPackage)
        ensures
            merged.deep_view() == keep_existing_keys(self.deep_view(), other.deep_view()),
    {
        let merged = ExcludeNewerPackage { packages: self.packages.keep_existing(other.packages) };
        proof {
            lemma_deep_keep_existing(merged.packages@, self.packages@, other.packages@);
        }
        merged
    }
}

/// The exclusion timestamps of a layer: one for all packages, and those of single packages.
#[derive(Debug)]
pub struct ExcludeNewer {
    pub global: Option<ExcludeNewerTimestamp>,
    pub package: ExcludeNewerPackage,
}

/// What an [`ExcludeNewer`] stands for.
pub struct ExcludeNewerView {
    pub global: Option<ExcludeNewerTimestamp>,
    pub package: Map<Seq<char>, ExcludeNewerTimestamp>,
}

impl DeepView for ExcludeNewer {
    type V = ExcludeNewerView;

    open spec fn deep_view(&self) -> ExcludeNewerView {
        ExcludeNewerView { global: self.global, package: self.package.deep_view() }
    }
}

impl Plain for ExcludeNewer {
    fn same(&self, other: &ExcludeNewer) -> (same: bool) {
        self.global.same(&other.global) && self.package.same(&other.package)
    }

    fn duplicate(&self) -> (copy: ExcludeNewer) {
        ExcludeNewer { global: self.global, package: self.package.duplicate() }
    }
}

/// The merge of two [`ExcludeNewer`]: the timestamp for all packages by first
/// wins, those of single packages by keeping the existing keys.
pub open spec fn merge_exclude_newer(
    higher: ExcludeNewerView,
    lower: ExcludeNewerView,
) -> ExcludeNewerView {
    ExcludeNewerView {
        global: first_wins(higher.global, lower.global),
        package: keep_existing_keys(higher.package, lower.package),
    }
}

impl Combine for Option<ExcludeNewerTimestamp> {
    type Model = Option<ExcludeNewerTimestamp>;

    open spec fn model(&self) -> Option<ExcludeNewerTimestamp> {
        *self
    }

    open spec fn merged(
        higher: Option<ExcludeNewerTimestamp>,
        lower: Option<ExcludeNewerTimestamp>,
    ) -> Option<ExcludeNewerTimestamp> {
        first_wins(higher, lower)
    }

    fn combine(self, other: Option<ExcludeNewerTimestamp>) -> (merged: Option<
        ExcludeNewerTimestamp,
    >) {
        or(self, other)
    }

    proof fn merged_is_associative(
        a: Option<ExcludeNewerTimestamp>,
        b: Option<ExcludeNewerTimestamp>,
        c: Option<ExcludeNewerTimestamp>,
    ) {
    }
}

impl Combine for Option<ExcludeNewerPackage> {
    type Model = Option<Map<Seq<char>, ExcludeNewerTimestamp>>;

    open spec fn model(&self) -> Option<Map<Seq<char>, ExcludeNewerTimestamp>> {
        self.deep_view()
    }

    open spec fn merged(
        higher: Option<Map<Seq<char>, ExcludeNewerTimestamp>>,
        lower: Option<Map<Seq<char>, ExcludeNewerTimestamp>>,
    ) -> Option<Map<Seq<char>, ExcludeNewerTimestamp>> {
        keep_existing_keys_present(higher, lower)
    }

    /// Combine two [`ExcludeNewerPackage`] instances by merging them, with the values in `self`
    /// taking precedence.
    fn combine(self, other: Option<ExcludeNewerPackage>) -> (merged: Option<ExcludeNewerPackage>) {
        match (self, other) {
            (Some(a), Some(b)) => Some(a.merge(b)),
            (Some(a), None) => Some(a),
            (None, b) => b,
        }
    }

    proof fn merged_is_associative(
        a: Option<Map<Seq<char>, ExcludeNewerTimestamp>>,
        b: Option<Map<Seq<char>, ExcludeNewerTimestamp>>,
        c: Option<Map<Seq<char>, ExcludeNewerTimestamp>>,
    ) {
        keep_existing_keys_present_is_associative(a, b, c);
    }
}

impl Combine for ExcludeNewer {
    type Model = ExcludeNewerView;

    open spec fn model(&self) -> ExcludeNewerView {
        self.deep_view()
    }

    open spec fn merged(higher: ExcludeNewerView, lower: ExcludeNewerView) -> ExcludeNewerView {
        merge_exclude_newer(higher, lower)
    }

    fn combine(self, other: ExcludeNewer) -> (merged: ExcludeNewer) {
        ExcludeNewer {
            global: self.global.combine(other.global),
            package: self.package.merge(other.package),
        }
    }

    proof fn merged_is_associative(a: ExcludeNewerView, b: ExcludeNewerView, c: ExcludeNewerView) {
        keep_existing_keys_is_associative(a.package, b.package, c.package);
    }
}

/// The merge of two [`ExcludeNewer`] that may be absent: both merged, each
/// part by its rule, where both are present, else the one that is present.
pub open spec fn merge_present_exclude_newer(
    higher: Option<ExcludeNewerView>,
    lower: Option<ExcludeNewerView>,
) -> Option<ExcludeNewerView> {
    match (higher, lower) {
        (Some(a), Some(b)) => Some(merge_exclude_newer(a, b)),
        (Some(a), None) => Some(a),
        (None, b) => b,
    }
}

impl Combine for Option<ExcludeNewer> {
    type Model = Option<ExcludeNewerView>;

    open spec fn model(&self) -> Option<ExcludeNewerView> {
        self.deep_view()
    }

    open spec fn merged(
        higher: Option<ExcludeNewerView>,
        lower: Option<ExcludeNewerView>,
    ) -> Option<ExcludeNewerView> {
        merge_present_exclude_newer(higher, lower)
    }

    /// Combine two [`ExcludeNewer`] that may be absent. Where both are
    /// present, the timestamp for all packages is that of `self` where it
    /// has one, and a package of `self` keeps its timestamp.
    fn combine(self, other: Option<ExcludeNewer>) -> (merged: Option<ExcludeNewer>) {
        match (self, other) {
            (Some(a), Some(b)) => Some(a.combine(b)),
            (Some(a), None) => Some(a),
            (None, b) => b,
        }
    }

    proof fn merged_is_associative(
        a: Option<ExcludeNewerView>,
        b: Option<ExcludeNewerView>,
        c: Option<ExcludeNewerView>,
    ) {
        if a is Some && b is Some && c is Some {
            keep_existing_keys_is_associative(a->0.package, b->0.package, c->0.package);
        }
    }
}

/// The build dependencies that single packages get in addition to those they
/// declare: a precedence mapping from a package to its list.
#[derive(Debug)]
pub struct ExtraBuildDependencies {
    pub packages: NameMap<Vec<String>>,
}

impl DeepView for ExtraBuildDependencies {
    type V = Map<Seq<char>, Seq<Seq<char>>>;

    open spec fn deep_view(&self) -> Map<Seq<char>, Seq<Seq<char>>> {
        self.packages.deep_view()
    }
}

impl Plain for ExtraBuildDependencies {
    fn same(&self, other: &ExtraBuildDependencies) -> (same: bool) {
        self.packages.same(&other.packages)
    }

    fn duplicate(&self) -> (copy: ExtraBuildDependencies) {
        ExtraBuildDependencies { packages: self.packages.duplicate() }
    }
}

impl Combine for ExtraBuildDependencies {
    type Model = Map<Seq<char>, Seq<Seq<char>>>;

    open spec fn model(&self) -> Map<Seq<char>, Seq<Seq<char>>> {
        self.deep_view()
    }

    open spec fn merged(
        higher: Map<Seq<char>, Seq<Seq<char>>>,
        lower: Map<Seq<char>, Seq<Seq<char>>>,
    ) -> Map<Seq<char>, Seq<Seq<char>>> {
        keep_existing_keys(higher, lower)
    }

    fn combine(self, other: ExtraBuildDependencies) -> (merged: ExtraBuildDependencies) {
        let merged = ExtraBuildDependencies {
            packages: self.packages.keep_existing(other.packages),
        };
        proof {
            lemma_deep_keep_existing(merged.packages@, self.packages@, other.packages@);
        }
        merged
    }

    proof fn merged_is_associative(
        a: Map<Seq<char>, Seq<Seq<char>>>,
        b: Map<Seq<char>, Seq<Seq<char>>>,
        c: Map<Seq<char>, Seq<Seq<char>>>,
    ) {
        keep_existing_keys_is_associative(a, b, c);
    }
}

impl Combine for Option<ExtraBuildDependencies> {
    type Model = Option<Map<Seq<char>, Seq<Seq<char>>>>;

    open spec fn model(&self) -> Option<Map<Seq<char>, Seq<Seq<char>>>> {
        self.deep_view()
    }

    open spec fn merged(
        higher: Option<Map<Seq<char>, Seq<Seq<char>>>>,
        lower: Option<Map<Seq<char>, Seq<Seq<char>>>>,
    ) -> Option<Map<Seq<char>, Seq<Seq<char>>>> {
        keep_existing_keys_present(higher, lower)
    }

    fn combine(self, other: Option<ExtraBuildDependencies>) -> (merged: Option<
        ExtraBuildDependencies,
    >) {
        match (self, other) {
            (Some(a), Some(b)) => Some(a.combine(b)),
            (Some(a), None) => Some(a),
            (None, b) => b,
        }
    }

    proof fn merged_is_associative(
        a: Option<Map<Seq<char>, Seq<Seq<char>>>>,
        b: Option<Map<Seq<char>, Seq<Seq<char>>>>,
        c: Option<Map<Seq<char>, Seq<Seq<char>>>>,
    ) {
        keep_existing_keys_present_is_associative(a, b, c);
    }
}

/// The settings handed to a build backend: a list-valued mapping from the name
/// of a setting to its values.
#[derive(Debug)]
pub struct ConfigSettings {
    pub settings: NameMap<Vec<String>>,
}

impl DeepView for ConfigSettings {
    type V = Map<Seq<char>, Seq<Seq<char>>>;

    open spec fn deep_view(&self) -> Map<Seq<char>, Seq<Seq<char>>> {
        self.settings.deep_view()
    }
}

impl Plain for ConfigSettings {
    fn same(&self, other: &ConfigSettings) -> (same: bool) {
        self.settings.same(&other.settings)
    }

    fn duplicate(&self) -> (copy: ConfigSettings) {
        ConfigSettings { settings: self.settings.duplicate() }
    }
}

impl ConfigSettings {
    /// Merge with the settings of a layer of lower precedence: under each name
    /// the values of `self` come before those of `other`.
    pub fn merge(self, other: ConfigSettings) -> (merged: ConfigSettings)
        ensures
            merged.deep_view() == map_concatenate(self.deep_view(), other.deep_view()),
    {
        let merged = ConfigSettings { settings: self.settings.concatenate(other.settings) };
        proof {
            lemma_deep_concatenate(merged.settings@, self.settings@, other.settings@);
        }
        merged
    }
}

impl Combine for ConfigSettings {
    type Model = Map<Seq<char>, Seq<Seq<char>>>;

    open spec fn model(&self) -> Map<Seq<char>, Seq<Seq<char>>> {
        self.deep_view()
    }

    open spec fn merged(
        higher: Map<Seq<char>, Seq<Seq<char>>>,
        lower: Map<Seq<char>, Seq<Seq<char>>>,
    ) -> Map<Seq<char>, Seq<Seq<char>>> {
        map_concatenate(higher, lower)
    }

    fn combine(self, other: ConfigSettings) -> (merged: ConfigSettings) {
        self.merge(other)
    }

    proof fn merged_is_associative(
        a: Map<Seq<char>, Seq<Seq<char>>>,
        b: Map<Seq<char>, Seq<Seq<char>>>,
        c: Map<Seq<char>, Seq<Seq<char>>>,
    ) {
        map_concatenate_is_associative(a, b, c);
    }
}

impl Combine for Option<ConfigSettings> {
    type Model = Option<Map<Seq<char>, Seq<Seq<char>>>>;

    open spec fn model(&self) -> Option<Map<Seq<char>, Seq<Seq<char>>>> {
        self.deep_view()
    }

    open spec fn merged(
        higher: Option<Map<Seq<char>, Seq<Seq<char>>>>,
        lower: Option<Map<Seq<char>, Seq<Seq<char>>>>,
    ) -> Option<Map<Seq<char>, Seq<Seq<char>>>> {
        map_concatenate_present(higher, lower)
    }

    /// Combine two maps by merging the map in `self` with the map in `other`, if they're both
    /// `Some`.
    fn combine(self, other: Option<ConfigSettings>) -> (merged: Option<ConfigSettings>) {
        match (self, other) {
            (Some(a), Some(b)) => Some(a.merge(b)),
            (Some(a), None) => Some(a),
            (None, b) => b,
        }
    }

    proof fn merged_is_associative(
        a: Option<Map<Seq<char>, Seq<Seq<char>>>>,
        b: Option<Map<Seq<char>, Seq<Seq<char>>>>,
        c: Option<Map<Seq<char>, Seq<Seq<char>>>>,
    ) {
        map_concatenate_present_is_associative(a, b, c);
    }
}

/// The settings handed to the build backends of single packages: a mapping
/// from a package to its settings.
#[derive(Debug)]
pub struct PackageConfigSettings {
    pub packages: NameMap<ConfigSettings>,
}

impl DeepView for PackageConfigSettings {
    type V = Map<Seq<char>, Map<Seq<char>, Seq<Seq<char>>>>;

    open spec fn deep_view(&self) -> Map<Seq<char>, Map<Seq<char>, Seq<Seq<char>>>> {
        self.packages.deep_view()
    }
}

impl Plain for PackageConfigSettings {
    fn same(&self, other: &PackageConfigSettings) -> (same: bool) {
        self.packages.same(&other.packages)
    }

    fn duplicate(&self) -> (copy: PackageConfigSettings) {
        PackageConfigSettings { packages: self.packages.duplicate() }
    }
}

/// The merge of the settings of single packages: under a package that both
/// layers hold, the settings of the two merged.
pub open spec fn merge_package_settings(
    higher: Map<Seq<char>, Map<Seq<char>, Seq<Seq<char>>>>,
    lower: Map<Seq<char>, Map<Seq<char>, Seq<Seq<char>>>>,
) -> Map<Seq<char>, Map<Seq<char>, Seq<Seq<char>>>> {
    merge_values::<ConfigSettings>(higher, lower)
}

/// The same, where the settings may be absent.
pub open spec fn merge_present_package_settings(
    higher: Option<Map<Seq<char>, Map<Seq<char>, Seq<Seq<char>>>>>,
    lower: Option<Map<Seq<char>, Map<Seq<char>, Seq<Seq<char>>>>>,
) -> Option<Map<Seq<char>, Map<Seq<char>, Seq<Seq<char>>>>> {
    match (higher, lower) {
        (Some(a), Some(b)) => Some(merge_package_settings(a, b)),
        (Some(a), None) => Some(a),
        (None, b) => b,
    }
}

impl PackageConfigSettings {
    /// Merge with the settings of a layer of lower precedence: the settings
    /// of a package that both hold are merged, those of `self` first.
    pub fn merge(self, other: PackageConfigSettings) -> (merged: PackageConfigSettings)
        ensures
            merged.deep_view() == merge_package_settings(self.deep_view(), other.deep_view()),
    {
        let merged = PackageConfigSettings {
            packages: self.packages.combine_values(other.packages),
        };
        proof {
            assert(deep_values(merged.packages@) =~= value_models(merged.packages@));
            assert(deep_values(self.packages@) =~= value_models(self.packages@));
            assert(deep_values(other.packages@) =~= value_models(other.packages@));
        }
        merged
    }
}

impl Combine for Option<PackageConfigSettings> {
    type Model = Option<Map<Seq<char>, Map<Seq<char>, Seq<Seq<char>>>>>;

    open spec fn model(&self) -> Option<Map<Seq<char>, Map<Seq<char>, Seq<Seq<char>>>>> {
        self.deep_view()
    }

    open spec fn merged(
        higher: Option<Map<Seq<char>, Map<Seq<char>, Seq<Seq<char>>>>>,
        lower: Option<Map<Seq<char>, Map<Seq<char>, Seq<Seq<char>>>>>,
    ) -> Option<Map<Seq<char>, Map<Seq<char>, Seq<Seq<char>>>>> {
        merge_present_package_settings(higher, lower)
    }

    /// Combine two maps by merging the map in `self` with the map in `other`, if they're both
    /// `Some`.
    fn combine(self, other: Option<PackageConfigSettings>) -> (merged: Option<
        PackageConfigSettings,
    >) {
        match (self, other) {
            (Some(a), Some(b)) => Some(a.merge(b)),
            (Some(a), None) => Some(a),
            (None, b) => b,
        }
    }

    proof fn merged_is_associative(
        a: Option<Map<Seq<char>, Map<Seq<char>, Seq<Seq<char>>>>>,
        b: Option<Map<Seq<char>, Map<Seq<char>, Seq<Seq<char>>>>>,
        c: Option<Map<Seq<char>, Map<Seq<char>, Seq<Seq<char>>>>>,
    ) {
        if a is Some && b is Some && c is Some {
            merge_values_is_associative::<ConfigSettings>(a->0, b->0, c->0);
        }
    }
}

/// One configuration layer.
#[derive(Debug)]
pub struct Options {
    pub index_url: Option<String>,
    pub resolution: Option<ResolutionMode>,
    pub upgrade: Option<bool>,
    pub reinstall: Option<bool>,
    pub extra_index_url: Option<Vec<String>>,
    pub upgrade_package: Option<Vec<String>>,
    pub reinstall_package: Option<Vec<String>>,
    pub config_settings: Option<ConfigSettings>,
    pub exclude_newer: ExcludeNewer,
    pub extra_build_dependencies: Option<ExtraBuildDependencies>,
}

/// What an [`Options`] stands for.
pub struct OptionsView {
    pub index_url: Option<Seq<char>>,
    pub resolution: Option<ResolutionMode>,
    pub upgrade: Option<bool>,
    pub reinstall: Option<bool>,
    pub extra_index_url: Option<Seq<Seq<char>>>,
    pub upgrade_package: Option<Seq<Seq<char>>>,
    pub reinstall_package: Option<Seq<Seq<char>>>,
    pub config_settings: Option<Map<Seq<char>, Seq<Seq<char>>>>,
    pub exclude_newer: ExcludeNewerView,
    pub extra_build_dependencies: Option<Map<Seq<char>, Seq<Seq<char>>>>,
}

impl DeepView for Options {
    type V = OptionsView;

    open spec fn deep_view(&self) -> OptionsView {
        OptionsView {
            index_url: self.index_url.deep_view(),
            resolution: self.resolution,
            upgrade: self.upgrade,
            reinstall: self.reinstall,
            extra_index_url: self.extra_index_url.deep_view(),
            upgrade_package: self.upgrade_package.deep_view(),
            reinstall_package: self.reinstall_package.deep_view(),
            config_settings: self.config_settings.deep_view(),
            exclude_newer: self.exclude_newer.deep_view(),
            extra_build_dependencies: self.extra_build_dependencies.deep_view(),
        }
    }
}

impl Plain for Options {
    fn same(&self, other: &Options) -> (same: bool) {
        self.index_url.same(&other.index_url) && self.resolution.same(&other.resolution)
            && self.upgrade.same(&other.upgrade) && self.reinstall.same(&other.reinstall)
            && self.extra_index_url.same(&other.extra_index_url) && self.upgrade_package.same(
            &other.upgrade_package,
        ) && self.reinstall_package.same(&other.reinstall_package) && self.config_settings.same(
            &other.config_settings,
        ) && self.exclude_newer.same(&other.exclude_newer) && self.extra_build_dependencies.same(
            &other.extra_build_dependencies,
        )
    }

    fn duplicate(&self) -> (copy: Options) {
        Options {
            index_url: self.index_url.duplicate(),
            resolution: self.resolution,
            upgrade: self.upgrade,
            reinstall: self.reinstall,
            extra_index_url: self.extra_index_url.duplicate(),
            upgrade_package: self.upgrade_package.duplicate(),
            reinstall_package: self.reinstall_package.duplicate(),
            config_settings: self.config_settings.duplicate(),
            exclude_newer: self.exclude_newer.duplicate(),
            extra_build_dependencies: self.extra_build_dependencies.duplicate(),
        }
    }
}

/// The layer in which every field is absent.
pub open spec fn no_options() -> OptionsView {
    OptionsView {
        index_url: None,
        resolution: None,
        upgrade: None,
        reinstall: None,
        extra_index_url: None,
        upgrade_package: None,
        reinstall_package: None,
        config_settings: None,
        exclude_newer: ExcludeNewerView { global: None, package: Map::empty() },
        extra_build_dependencies: None,
    }
}

/// The layer that asks for the upgrade of one package, and for nothing else.
pub open spec fn upgrade_directive(name: Seq<char>) -> OptionsView {
    OptionsView { upgrade_package: Some(seq![name]), ..no_options() }
}

/// The layer that asks for one package to be installed again, and for nothing else.
pub open spec fn reinstall_directive(name: Seq<char>) -> OptionsView {
    OptionsView { reinstall_package: Some(seq![name]), ..no_options() }
}

/// Whether a layer asks for an upgrade: of all packages, or of some by name.
pub open spec fn asks_upgrade(options: OptionsView) -> bool {
    options.upgrade == Some(true) || (options.upgrade_package matches Some(packages)
        && packages.len() > 0)
}

/// Whether a layer asks for packages to be installed again: all, or some by name.
pub open spec fn asks_reinstall(options: OptionsView) -> bool {
    options.reinstall == Some(true) || (options.reinstall_package matches Some(packages)
        && packages.len() > 0)
}

impl Options {
    /// The layer in which every field is absent.
    pub fn empty() -> (options: Options)
        ensures
            options.deep_view() == no_options(),
    {
        let options = Options {
            index_url: None,
            resolution: None,
            upgrade: None,
            reinstall: None,
            extra_index_url: None,
            upgrade_package: None,
            reinstall_package: None,
            config_settings: None,
            exclude_newer: ExcludeNewer {
                global: None,
                package: ExcludeNewerPackage { packages: NameMap::new() },
            },
            extra_build_dependencies: None,
        };
        assert(options.exclude_newer.package.deep_view() =~= Map::empty());
        options
    }

    /// The layer that asks for the upgrade of the package `name`.
    pub fn upgrade_package(name: String) -> (options: Options)
        ensures
            options.deep_view() == upgrade_directive(name@),
    {
        let mut packages: Vec<String> = Vec::new();
        packages.push(name);
        assert(packages.deep_view() =~= seq![name@]);
        let mut options = Options::empty();
        options.upgrade_package = Some(packages);
        options
    }

    /// The layer that asks for the package `name` to be installed again.
    pub fn reinstall_package(name: String) -> (options: Options)
        ensures
            options.deep_view() == reinstall_directive(name@),
    {
        let mut packages: Vec<String> = Vec::new();
        packages.push(name);
        assert(packages.deep_view() =~= seq![name@]);
        let mut options = Options::empty();
        options.reinstall_package = Some(packages);
        options
    }

    /// Whether the layer asks for an upgrade.
    pub fn upgrade_requested(&self) -> (asked: bool)
        ensures
            asked == asks_upgrade(self.deep_view()),
    {
        let all = match self.upgrade {
            Some(all) => all,
            None => false,
        };
        let some = match &self.upgrade_package {
            Some(packages) => packages.len() > 0,
            None => false,
        };
        all || some
    }

    /// Whether the layer asks for packages to be installed again.
    pub fn reinstall_requested(&self) -> (asked: bool)
        ensures
            asked == asks_reinstall(self.deep_view()),
    {
        let all = match self.reinstall {
            Some(all) => all,
            None => false,
        };
        let some = match &self.reinstall_package {
            Some(packages) => packages.len() > 0,
            None => false,
        };
        all || some
    }
}

/// The merge of two layers: each field by the strategy of its kind.
pub open spec fn merge_options(higher: OptionsView, lower: OptionsView) -> OptionsView {
    OptionsView {
        index_url: first_wins(higher.index_url, lower.index_url),
        resolution: first_wins(higher.resolution, lower.resolution),
        upgrade: first_wins(higher.upgrade, lower.upgrade),
        reinstall: first_wins(higher.reinstall, lower.reinstall),
        extra_index_url: concatenate(higher.extra_index_url, lower.extra_index_url),
        upgrade_package: concatenate(higher.upgrade_package, lower.upgrade_package),
        reinstall_package: concatenate(higher.reinstall_package, lower.reinstall_package),
        config_settings: map_concatenate_present(higher.config_settings, lower.config_settings),
        exclude_newer: merge_exclude_newer(higher.exclude_newer, lower.exclude_newer),
        extra_build_dependencies: keep_existing_keys_present(
            higher.extra_build_dependencies,
            lower.extra_build_dependencies,
        ),
    }
}

/// The merge of layers is associative.
pub proof fn merge_options_is_associative(a: OptionsView, b: OptionsView, c: OptionsView)
    ensures
        merge_options(merge_options(a, b), c) == merge_options(a, merge_options(b, c)),
{
    concatenate_is_associative(a.extra_index_url, b.extra_index_url, c.extra_index_url);
    concatenate_is_associative(a.upgrade_package, b.upgrade_package, c.upgrade_package);
    concatenate_is_associative(a.reinstall_package, b.reinstall_package, c.reinstall_package);
    map_concatenate_present_is_associative(a.config_settings, b.config_settings, c.config_settings);
    keep_existing_keys_is_associative(
        a.exclude_newer.package,
        b.exclude_newer.package,
        c.exclude_newer.package,
    );
    keep_existing_keys_present_is_associative(
        a.extra_build_dependencies,
        b.extra_build_dependencies,
        c.extra_build_dependencies,
    );
}

/// The merge of two layers that may be absent: both merged where both are
/// present, else the one that is present.
pub open spec fn merge_present_options(
    higher: Option<OptionsView>,
    lower: Option<OptionsView>,
) -> Option<OptionsView> {
    match (higher, lower) {
        (Some(a), Some(b)) => Some(merge_options(a, b)),
        (Some(a), None) => Some(a),
        (None, b) => b,
    }
}

/// The concatenation of two lists that may be absent commutes with taking deep views.
pub proof fn lemma_deep_concatenate_lists<T: DeepView>(
    merged: Option<Vec<T>>,
    higher: Option<Vec<T>>,
    lower: Option<Vec<T>>,
)
    requires
        items(merged) == concatenate(items(higher), items(lower)),
    ensures
        merged.deep_view() == concatenate(higher.deep_view(), lower.deep_view()),
{
    match (merged, higher, lower) {
        (Some(m), Some(a), Some(b)) => {
            lemma_deep_view_of_joined(m, a, b);
        },
        (Some(m), Some(a), None) => {
            assert(m.deep_view() =~= a.deep_view());
        },
        (Some(m), None, Some(b)) => {
            assert(m.deep_view() =~= b.deep_view());
        },
        _ => {},
    }
}

impl Combine for Options {
    type Model = OptionsView;

    open spec fn model(&self) -> OptionsView {
        self.deep_view()
    }

    open spec fn merged(higher: OptionsView, lower: OptionsView) -> OptionsView {
        merge_options(higher, lower)
    }

    fn combine(self, other: Options) -> (merged: Options) {
        let ghost higher = self;
        let ghost lower = other;
        let merged = Options {
            index_url: self.index_url.combine(other.index_url),
            resolution: self.resolution.combine(other.resolution),
            upgrade: self.upgrade.combine(other.upgrade),
            reinstall: self.reinstall.combine(other.reinstall),
            extra_index_url: self.extra_index_url.combine(other.extra_index_url),
            upgrade_package: self.upgrade_package.combine(other.upgrade_package),
            reinstall_package: self.reinstall_package.combine(other.reinstall_package),
            config_settings: self.config_settings.combine(other.config_settings),
            exclude_newer: self.exclude_newer.combine(other.exclude_newer),
            extra_build_dependencies: self.extra_build_dependencies.combine(
                other.extra_build_dependencies,
            ),
        };
        proof {
            lemma_deep_concatenate_lists(
                merged.extra_index_url,
                higher.extra_index_url,
                lower.extra_index_url,
            );
            lemma_deep_concatenate_lists(
                merged.upgrade_package,
                higher.upgrade_package,
                lower.upgrade_package,
            );
            lemma_deep_concatenate_lists(
                merged.reinstall_package,
                higher.reinstall_package,
                lower.reinstall_package,
            );
        }
        merged
    }

    proof fn merged_is_associative(a: OptionsView, b: OptionsView, c: OptionsView) {
        merge_options_is_associative(a, b, c);
    }
}

impl Combine for Option<Options> {
    type Model = Option<OptionsView>;

    open spec fn model(&self) -> Option<OptionsView> {
        self.deep_view()
    }

    open spec fn merged(higher: Option<OptionsView>, lower: Option<OptionsView>) -> Option<
        OptionsView,
    > {
        merge_present_options(higher, lower)
    }

    /// Combine the options used in two [`Options`]s. Retains the root of `self`.
    fn combine(self, other: Option<Options>) -> (merged: Option<Options>) {
        match (self, other) {
            (Some(a), Some(b)) => Some(a.combine(b)),
            (Some(a), None) => Some(a),
            (None, b) => b,
        }
    }

    proof fn merged_is_associative(
        a: Option<OptionsView>,
        b: Option<OptionsView>,
        c: Option<OptionsView>,
    ) {
        if a is Some && b is Some && c is Some {
            merge_options_is_associative(a->0, b->0, c->0);
        }
    }
}

/// A configuration layer as it was read from a file.
#[derive(Debug)]
pub struct FilesystemOptions(pub Options);

impl FilesystemOptions {
    /// The layer that was read.
    pub fn into_options(self) -> (options: Options)
        ensures
            options == self.0,
    {
        self.0
    }
}

impl DeepView for FilesystemOptions {
    type V = OptionsView;

    open spec fn deep_view(&self) -> OptionsView {
        self.0.deep_view()
    }
}

impl Combine for Option<FilesystemOptions> {
    type Model = Option<OptionsView>;

    open spec fn model(&self) -> Option<OptionsView> {
        self.deep_view()
    }

    open spec fn merged(higher: Option<OptionsView>, lower: Option<OptionsView>) -> Option<
        OptionsView,
    > {
        merge_present_options(higher, lower)
    }

    /// Combine the options used in two [`FilesystemOptions`]s. Retains the root of `self`.
    fn combine(self, other: Option<FilesystemOptions>) -> (merged: Option<FilesystemOptions>) {
        match (self, other) {
            (Some(a), Some(b)) => Some(
                FilesystemOptions(a.into_options().combine(b.into_options())),
            ),
            (Some(a), None) => Some(a),
            (None, b) => b,
        }
    }

    proof fn merged_is_associative(
        a: Option<OptionsView>,
        b: Option<OptionsView>,
        c: Option<OptionsView>,
    ) {
        if a is Some && b is Some && c is Some {
            merge_options_is_associative(a->0, b->0, c->0);
        }
    }
}

/// A configuration layer for the commands that install into an environment
/// package by package.
#[derive(Debug)]
pub struct PipOptions {
    pub index_url: Option<String>,
    pub upgrade: Option<bool>,
    pub extra_index_url: Option<Vec<String>>,
    pub exclude_newer_package: Option<ExcludeNewerPackage>,
}

/// What a [`PipOptions`] stands for.
pub struct PipOptionsView {
    pub index_url: Option<Seq<char>>,
    pub upgrade: Option<bool>,
    pub extra_index_url: Option<Seq<Seq<char>>>,
    pub exclude_newer_package: Option<Map<Seq<char>, ExcludeNewerTimestamp>>,
}

impl DeepView for PipOptions {
    type V = PipOptionsView;

    open spec fn deep_view(&self) -> PipOptionsView {
        PipOptionsView {
            index_url: self.index_url.deep_view(),
            upgrade: self.upgrade,
            extra_index_url: self.extra_index_url.deep_view(),
            exclude_newer_package: self.exclude_newer_package.deep_view(),
        }
    }
}

/// The merge of two such layers: each field by the strategy of its kind.
pub open spec fn merge_pip_options(
    higher: PipOptionsView,
    lower: PipOptionsView,
) -> PipOptionsView {
    PipOptionsView {
        index_url: first_wins(higher.index_url, lower.index_url),
        upgrade: first_wins(higher.upgrade, lower.upgrade),
        extra_index_url: concatenate(higher.extra_index_url, lower.extra_index_url),
        exclude_newer_package: keep_existing_keys_present(
            higher.exclude_newer_package,
            lower.exclude_newer_package,
        ),
    }
}

/// The merge of such layers is associative.
pub proof fn merge_pip_options_is_associative(
    a: PipOptionsView,
    b: PipOptionsView,
    c: PipOptionsView,
)
    ensures
        merge_pip_options(merge_pip_options(a, b), c) == merge_pip_options(
            a,
            merge_pip_options(b, c),
        ),
{
    concatenate_is_associative(a.extra_index_url, b.extra_index_url, c.extra_index_url);
    keep_existing_keys_present_is_associative(
        a.exclude_newer_package,
        b.exclude_newer_package,
        c.exclude_newer_package,
    );
}

impl Combine for PipOptions {
    type Model = PipOptionsView;

    open spec fn model(&self) -> PipOptionsView {
        self.deep_view()
    }

    open spec fn merged(higher: PipOptionsView, lower: PipOptionsView) -> PipOptionsView {
        merge_pip_options(higher, lower)
    }

    fn combine(self, other: PipOptions) -> (merged: PipOptions) {
        let ghost higher = self;
        let ghost lower = other;
        let merged = PipOptions {
            index_url: self.index_url.combine(other.index_url),
            upgrade: self.upgrade.combine(other.upgrade),
            extra_index_url: self.extra_index_url.combine(other.extra_index_url),
            exclude_newer_package: self.exclude_newer_package.combine(
                other.exclude_newer_package,
            ),
        };
        proof {
            lemma_deep_concatenate_lists(
                merged.extra_index_url,
                higher.extra_index_url,
                lower.extra_index_url,
            );
        }
        merged
    }

    proof fn merged_is_associative(a: PipOptionsView, b: PipOptionsView, c: PipOptionsView) {
        merge_pip_options_is_associative(a, b, c);
    }
}

impl Combine for Option<PipOptions> {
    type Model = Option<PipOptionsView>;

    open spec fn model(&self) -> Option<PipOptionsView> {
        self.deep_view()
    }

    open spec fn merged(higher: Option<PipOptionsView>, lower: Option<PipOptionsView>) -> Option<
        PipOptionsView,
    > {
        match (higher, lower) {
            (Some(a), Some(b)) => Some(merge_pip_options(a, b)),
            (Some(a), None) => Some(a),
            (None, b) => b,
        }
    }

    fn combine(self, other: Option<PipOptions>) -> (merged: Option<PipOptions>) {
        match (self, other) {
            (Some(a), Some(b)) => Some(a.combine(b)),
            (Some(a), None) => Some(a),
            (None, b) => b,
        }
    }

    proof fn merged_is_associative(
        a: Option<PipOptionsView>,
        b: Option<PipOptionsView>,
        c: Option<PipOptionsView>,
    ) {
        if a is Some && b is Some && c is Some {
            merge_pip_options_is_associative(a->0, b->0, c->0);
        }
    }
}

} // verus!
