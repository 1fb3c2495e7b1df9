//! Plain values: values that are compared and copied by what they stand for.
//!
//! What a value stands for is its deep view: the characters of a string, the
//! items of a list in their order, the names of a mapping with the values held
//! under them.

use vstd::prelude::*;

verus! {

/// A value that can be compared with another, and copied, by its deep view.
pub trait Plain: Sized + DeepView {
    /// Whether `self` and `other` stand for the same value.
    fn same(&self, other: &Self) -> (same: bool)
        ensures
            same == (self.deep_view() == other.deep_view()),
    ;

    /// A second value that stands for what `self` stands for.
    fn duplicate(&self) -> (copy: Self)
        ensures
            copy.deep_view() == self.deep_view(),
    ;
}

impl Plain for bool {
    fn same(&self, other: &bool) -> (same: bool) {
        *self == *other
    }

    fn duplicate(&self) -> (copy: bool) {
        *self
    }
}

impl Plain for String {
    fn same(&self, other: &String) -> (same: bool) {
        *self == *other
    }

    fn duplicate(&self) -> (copy: String) {
        self.clone()
    }
}

impl<T: Plain> Plain for Option<T> {
    fn same(&self, other: &Option<T>) -> (same: bool) {
        match (self, other) {
            (Some(a), Some(b)) => a.same(b),
            (None, None) => true,
            _ => false,
        }
    }

    fn duplicate(&self) -> (copy: Option<T>) {
        match self {
            Some(value) => Some(value.duplicate()),
            None => None,
        }
    }
}

impl<T: Plain> Plain for Vec<T> {
    fn same(&self, other: &Vec<T>) -> (same: bool) {
        if self.len() != other.len() {
            assert(self.deep_view().len() != other.deep_view().len());
            return false;
        }
        let mut i: usize = 0;
        while i < self.len()
            invariant
                i <= self@.len(),
                self@.len() == other@.len(),
                forall|j: int| 0 <= j < i ==> self@[j].deep_view() == other@[j].deep_view(),
            decreases self@.len() - i,
        {
            if !self[i].same(&other[i]) {
                assert(self.deep_view()[i as int] != other.deep_view()[i as int]);
                return false;
            }
            i += 1;
        }
        assert(self.deep_view() =~= other.deep_view());
        true
    }

    fn duplicate(&self) -> (copy: Vec<T>) {
        let mut copy: Vec<T> = Vec::new();
        let mut i: usize = 0;
        while i < self.len()
            invariant
                i <= self@.len(),
                copy@.len() == i,
                forall|j: int| 0 <= j < i ==> copy@[j].deep_view() == self@[j].deep_view(),
            decreases self@.len() - i,
        {
            copy.push(self[i].duplicate());
            i += 1;
        }
        assert(copy.deep_view() =~= self.deep_view());
        copy
    }
}

/// The deep view of the list that holds the items of `higher` before those of `lower`.
pub proof fn lemma_deep_view_of_joined<T: DeepView>(joined: Vec<T>, higher: Vec<T>, lower: Vec<T>)
    requires
        joined@ == higher@ + lower@,
    ensures
        joined.deep_view() == higher.deep_view() + lower.deep_view(),
{
    assert(joined.deep_view() =~= higher.deep_view() + lower.deep_view());
}

} // verus!
