//! The merge of two configuration values of different precedence.
//!
//! [`Combine`] is implemented for the values of the fields of a layer, each
//! by the strategy of its kind, and for the layers themselves. [`fold`]
//! merges a whole sequence of layers.

use vstd::prelude::*;
use crate::model::PythonVersion;
use crate::names::{lists, NameMap};
use crate::request::{PythonDownloads, PythonPreference};
use crate::settings::ResolutionMode;
use crate::strategy::{
    concatenate, concatenate_is_associative, first_wins, map_concatenate_present,
    map_concatenate_present_is_associative,
};

verus! {

/// A configuration value that can be merged with one of lower precedence.
pub trait Combine: Sized {
    /// The mathematical value that the merge is stated over.
    type Model;

    /// The mathematical value of `self`.
    spec fn model(&self) -> Self::Model;

    /// The merge of two values, `higher` taking precedence over `lower`.
    spec fn merged(higher: Self::Model, lower: Self::Model) -> Self::Model;

    /// Combine two values, preferring the values in `self`.
    ///
    /// Numbers, strings and booleans take the value of `self` where it is
    /// present. Lists are joined, with the items of `self` placed before
    /// those of `other`.
    fn combine(self, other: Self) -> (merged: Self)
        ensures
            merged.model() == Self::merged(self.model(), other.model()),
    ;

    /// The merge is associative: three layers fold to the same, whichever
    /// two of them are merged first.
    proof fn merged_is_associative(a: Self::Model, b: Self::Model, c: Self::Model)
        ensures
            Self::merged(Self::merged(a, b), c) == Self::merged(a, Self::merged(b, c)),
    ;
}

/// The models of a sequence of values.
pub open spec fn models<T: Combine>(layers: Seq<T>) -> Seq<T::Model> {
    layers.map_values(|layer: T| layer.model())
}

/// The fold of a sequence of layers, highest precedence first, from the left:
/// `first` merged with the first of `rest`, the result with the second, and so on.
pub open spec fn folded<T: Combine>(first: T::Model, rest: Seq<T::Model>) -> T::Model
    decreases rest.len(),
{
    if rest.len() == 0 {
        first
    } else {
        T::merged(folded::<T>(first, rest.drop_last()), rest.last())
    }
}

/// Fold a sequence of layers, highest precedence first, into one.
pub fn fold<T: Combine>(first: T, rest: Vec<T>) -> (merged: T)
    ensures
        merged.model() == folded::<T>(first.model(), models(rest@)),
{
    let ghost layers = rest@;
    let mut merged = first;
    assert(models(layers.take(0)) =~= Seq::<T::Model>::empty());
    for layer in it: rest
        invariant
            it.seq() == layers,
            merged.model() == folded::<T>(first.model(), models(layers.take(it.index() as int))),
    {
        let ghost n = it.index() as int;
        assert(models(layers.take(n + 1)).drop_last() =~= models(layers.take(n)));
        assert(models(layers.take(n + 1)).last() == layer.model());
        merged = merged.combine(layer);
    }
    assert(layers.take(layers.len() as int) =~= layers);
    merged
}

/// The higher value where it is present, else the lower one.
pub fn or<T>(higher: Option<T>, lower: Option<T>) -> (chosen: Option<T>)
    ensures
        chosen == first_wins(higher, lower),
{
    match higher {
        Some(_) => higher,
        None => lower,
    }
}

impl Combine for Option<bool> {
    type Model = Option<bool>;

    open spec fn model(&self) -> Option<bool> {
        *self
    }

    open spec fn merged(higher: Option<bool>, lower: Option<bool>) -> Option<bool> {
        first_wins(higher, lower)
    }

    fn combine(self, other: Option<bool>) -> (merged: Option<bool>) {
        or(self, other)
    }

    proof fn merged_is_associative(a: Option<bool>, b: Option<bool>, c: Option<bool>) {
    }
}

impl Combine for Option<usize> {
    type Model = Option<usize>;

    open spec fn model(&self) -> Option<usize> {
        *self
    }

    open spec fn merged(higher: Option<usize>, lower: Option<usize>) -> Option<usize> {
        first_wins(higher, lower)
    }

    fn combine(self, other: Option<usize>) -> (merged: Option<usize>) {
        or(self, other)
    }

    proof fn merged_is_associative(a: Option<usize>, b: Option<usize>, c: Option<usize>) {
    }
}

impl Combine for Option<String> {
    type Model = Option<String>;

    open spec fn model(&self) -> Option<String> {
        *self
    }

    open spec fn merged(higher: Option<String>, lower: Option<String>) -> Option<String> {
        first_wins(higher, lower)
    }

    fn combine(self, other: Option<String>) -> (merged: Option<String>) {
        or(self, other)
    }

    proof fn merged_is_associative(a: Option<String>, b: Option<String>, c: Option<String>) {
    }
}

impl Combine for Option<ResolutionMode> {
    type Model = Option<ResolutionMode>;

    open spec fn model(&self) -> Option<ResolutionMode> {
        *self
    }

    open spec fn merged(higher: Option<ResolutionMode>, lower: Option<ResolutionMode>) -> Option<
        ResolutionMode,
    > {
        first_wins(higher, lower)
    }

    fn combine(self, other: Option<ResolutionMode>) -> (merged: Option<ResolutionMode>) {
        or(self, other)
    }

    proof fn merged_is_associative(
        a: Option<ResolutionMode>,
        b: Option<ResolutionMode>,
        c: Option<ResolutionMode>,
    ) {
    }
}

impl Combine for Option<PythonPreference> {
    type Model = Option<PythonPreference>;

    open spec fn model(&self) -> Option<PythonPreference> {
        *self
    }

    open spec fn merged(
        higher: Option<PythonPreference>,
        lower: Option<PythonPreference>,
    ) -> Option<PythonPreference> {
        first_wins(higher, lower)
    }

    fn combine(self, other: Option<PythonPreference>) -> (merged: Option<PythonPreference>) {
        or(self, other)
    }

    proof fn merged_is_associative(
        a: Option<PythonPreference>,
        b: Option<PythonPreference>,
        c: Option<PythonPreference>,
    ) {
    }
}

impl Combine for Option<PythonDownloads> {
    type Model = Option<PythonDownloads>;

    open spec fn model(&self) -> Option<PythonDownloads> {
        *self
    }

    open spec fn merged(higher: Option<PythonDownloads>, lower: Option<PythonDownloads>) -> Option<
        PythonDownloads,
    > {
        first_wins(higher, lower)
    }

    fn combine(self, other: Option<PythonDownloads>) -> (merged: Option<PythonDownloads>) {
        or(self, other)
    }

    proof fn merged_is_associative(
        a: Option<PythonDownloads>,
        b: Option<PythonDownloads>,
        c: Option<PythonDownloads>,
    ) {
    }
}

impl Combine for Option<PythonVersion> {
    type Model = Option<PythonVersion>;

    open spec fn model(&self) -> Option<PythonVersion> {
        *self
    }

    open spec fn merged(higher: Option<PythonVersion>, lower: Option<PythonVersion>) -> Option<
        PythonVersion,
    > {
        first_wins(higher, lower)
    }

    fn combine(self, other: Option<PythonVersion>) -> (merged: Option<PythonVersion>) {
        or(self, other)
    }

    proof fn merged_is_associative(
        a: Option<PythonVersion>,
        b: Option<PythonVersion>,
        c: Option<PythonVersion>,
    ) {
    }
}

/// `std::path::PathBuf`, carried through as a whole: nothing is stated of
/// what a value holds.
#[verifier::external_type_specification]
#[verifier::external_body]
pub struct ExPathBuf(std::path::PathBuf);

impl Combine for Option<std::path::PathBuf> {
    type Model = Option<std::path::PathBuf>;

    open spec fn model(&self) -> Option<std::path::PathBuf> {
        *self
    }

    open spec fn merged(
        higher: Option<std::path::PathBuf>,
        lower: Option<std::path::PathBuf>,
    ) -> Option<std::path::PathBuf> {
        first_wins(higher, lower)
    }

    fn combine(self, other: Option<std::path::PathBuf>) -> (merged: Option<std::path::PathBuf>) {
        or(self, other)
    }

    proof fn merged_is_associative(
        a: Option<std::path::PathBuf>,
        b: Option<std::path::PathBuf>,
        c: Option<std::path::PathBuf>,
    ) {
    }
}

/// `url::Url`, carried through as a whole: nothing is stated of what a value
/// holds.
#[verifier::external_type_specification]
#[verifier::external_body]
pub struct ExUrl(url::Url);

impl Combine for Option<url::Url> {
    type Model = Option<url::Url>;

    open spec fn model(&self) -> Option<url::Url> {
        *self
    }

    open spec fn merged(higher: Option<url::Url>, lower: Option<url::Url>) -> Option<url::Url> {
        first_wins(higher, lower)
    }

    fn combine(self, other: Option<url::Url>) -> (merged: Option<url::Url>) {
        or(self, other)
    }

    proof fn merged_is_associative(a: Option<url::Url>, b: Option<url::Url>, c: Option<url::Url>) {
    }
}

/// `serde::de::IgnoredAny`, the value of a field that is read and left
/// aside, carried through as a whole.
#[verifier::external_type_specification]
#[verifier::external_body]
pub struct ExIgnoredAny(serde::de::IgnoredAny);

impl Combine for serde::de::IgnoredAny {
    type Model = serde::de::IgnoredAny;

    open spec fn model(&self) -> serde::de::IgnoredAny {
        *self
    }

    open spec fn merged(
        higher: serde::de::IgnoredAny,
        lower: serde::de::IgnoredAny,
    ) -> serde::de::IgnoredAny {
        higher
    }

    fn combine(self, _other: serde::de::IgnoredAny) -> (merged: serde::de::IgnoredAny) {
        self
    }

    proof fn merged_is_associative(
        a: serde::de::IgnoredAny,
        b: serde::de::IgnoredAny,
        c: serde::de::IgnoredAny,
    ) {
    }
}

impl Combine for Option<serde::de::IgnoredAny> {
    type Model = Option<serde::de::IgnoredAny>;

    open spec fn model(&self) -> Option<serde::de::IgnoredAny> {
        *self
    }

    open spec fn merged(
        higher: Option<serde::de::IgnoredAny>,
        lower: Option<serde::de::IgnoredAny>,
    ) -> Option<serde::de::IgnoredAny> {
        higher
    }

    fn combine(self, _other: Option<serde::de::IgnoredAny>) -> (merged: Option<
        serde::de::IgnoredAny,
    >) {
        self
    }

    proof fn merged_is_associative(
        a: Option<serde::de::IgnoredAny>,
        b: Option<serde::de::IgnoredAny>,
        c: Option<serde::de::IgnoredAny>,
    ) {
    }
}

/// The items of a list that may be absent.
pub open spec fn items<T>(list: Option<Vec<T>>) -> Option<Seq<T>> {
    match list {
        Some(items) => Some(items@),
        None => None,
    }
}

impl<T> Combine for Option<Vec<T>> {
    type Model = Option<Seq<T>>;

    open spec fn model(&self) -> Option<Seq<T>> {
        items(*self)
    }

    open spec fn merged(higher: Option<Seq<T>>, lower: Option<Seq<T>>) -> Option<Seq<T>> {
        concatenate(higher, lower)
    }

    /// Combine two vectors by extending the vector in `self` with the vector in `other`, if they're
    /// both `Some`.
    fn combine(self, other: Option<Vec<T>>) -> (merged: Option<Vec<T>>) {
        match (self, other) {
            (Some(mut a), Some(mut b)) => {
                a.append(&mut b);
                Some(a)
            },
            (Some(a), None) => Some(a),
            (None, b) => b,
        }
    }

    proof fn merged_is_associative(a: Option<Seq<T>>, b: Option<Seq<T>>, c: Option<Seq<T>>) {
        concatenate_is_associative(a, b, c);
    }
}

/// The lists of a list-valued mapping that may be absent.
pub open spec fn keyed_items<T>(map: Option<NameMap<Vec<T>>>) -> Option<Map<Seq<char>, Seq<T>>> {
    match map {
        Some(held) => Some(lists(held@)),
        None => None,
    }
}

impl<T> Combine for Option<NameMap<Vec<T>>> {
    type Model = Option<Map<Seq<char>, Seq<T>>>;

    open spec fn model(&self) -> Option<Map<Seq<char>, Seq<T>>> {
        keyed_items(*self)
    }

    open spec fn merged(
        higher: Option<Map<Seq<char>, Seq<T>>>,
        lower: Option<Map<Seq<char>, Seq<T>>>,
    ) -> Option<Map<Seq<char>, Seq<T>>> {
        map_concatenate_present(higher, lower)
    }

    /// Combine two maps of vecs by combining their vecs.
    fn combine(self, other: Option<NameMap<Vec<T>>>) -> (merged: Option<NameMap<Vec<T>>>) {
        match (self, other) {
            (Some(a), Some(b)) => Some(a.concatenate(b)),
            (Some(a), None) => Some(a),
            (None, b) => b,
        }
    }

    proof fn merged_is_associative(
        a: Option<Map<Seq<char>, Seq<T>>>,
        b: Option<Map<Seq<char>, Seq<T>>>,
        c: Option<Map<Seq<char>, Seq<T>>>,
    ) {
        map_concatenate_present_is_associative(a, b, c);
    }
}

} // verus!
