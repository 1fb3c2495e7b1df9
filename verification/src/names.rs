//! Mappings keyed by a name.
//!
//! A [`NameMap`] holds its entries in the order in which they were added and
//! never holds a name twice. What it stands for is a `Map` from the characters
//! of a name to the value held under it.

use vstd::prelude::*;
use crate::combine::Combine;
use crate::plain::Plain;
use crate::strategy::{keep_existing_keys, list_at, map_concatenate};

verus! {

/// The lists of a list-valued mapping, each by its items.
pub open spec fn lists<T>(map: Map<Seq<char>, Vec<T>>) -> Map<Seq<char>, Seq<T>> {
    map.map_values(|list: Vec<T>| list@)
}

/// A mapping with each of its values by its deep view.
pub open spec fn deep_values<V: DeepView>(map: Map<Seq<char>, V>) -> Map<Seq<char>, V::V> {
    map.map_values(|value: V| value.deep_view())
}

/// A mapping with each of its values by its model.
pub open spec fn value_models<V: Combine>(map: Map<Seq<char>, V>) -> Map<Seq<char>, V::Model> {
    map.map_values(|value: V| value.model())
}

/// Merge-values: the union of the names; under a name that both mappings
/// hold, the merge of the two values, and else the value that is held.
pub open spec fn merge_values<V: Combine>(
    higher: Map<Seq<char>, V::Model>,
    lower: Map<Seq<char>, V::Model>,
) -> Map<Seq<char>, V::Model> {
    Map::new(
        |name: Seq<char>| higher.contains_key(name) || lower.contains_key(name),
        |name: Seq<char>|
            if higher.contains_key(name) && lower.contains_key(name) {
                V::merged(higher[name], lower[name])
            } else if higher.contains_key(name) {
                higher[name]
            } else {
                lower[name]
            },
    )
}

/// A mapping from names to values.
#[derive(Debug)]
pub struct NameMap<V> {
    entries: Vec<(String, V)>,
}

impl<V> View for NameMap<V> {
    type V = Map<Seq<char>, V>;

    closed spec fn view(&self) -> Map<Seq<char>, V> {
        entries_map(self.entries@)
    }
}

/// The mapping that a list of entries stands for.
spec fn entries_map<V>(entries: Seq<(String, V)>) -> Map<Seq<char>, V>
    decreases entries.len(),
{
    if entries.len() == 0 {
        Map::empty()
    } else {
        entries_map(entries.drop_last()).insert(entries.last().0@, entries.last().1)
    }
}

/// No name occurs in two entries.
spec fn distinct_names<V>(entries: Seq<(String, V)>) -> bool {
    forall|i: int, j: int| 0 <= i < j < entries.len() ==> entries[i].0@ != entries[j].0@
}

/// Some entry is held under `name`.
spec fn has_name<V>(entries: Seq<(String, V)>, name: Seq<char>) -> bool {
    exists|i: int| 0 <= i < entries.len() && (#[trigger] entries[i]).0@ == name
}

/// The place of an entry held under `name`, where there is one.
spec fn name_index<V>(entries: Seq<(String, V)>, name: Seq<char>) -> int {
    choose|i: int| 0 <= i < entries.len() && (#[trigger] entries[i]).0@ == name
}

/// An entry added at the end is held under its name.
proof fn lemma_entries_map_push<V>(entries: Seq<(String, V)>, entry: (String, V))
    ensures
        entries_map(entries.push(entry)) == entries_map(entries).insert(entry.0@, entry.1),
{
    assert(entries.push(entry).drop_last() =~= entries);
}

/// The names of the mapping are the names of the entries.
proof fn lemma_entries_map_names<V>(entries: Seq<(String, V)>)
    ensures
        forall|name: Seq<char>| #[trigger]
            entries_map(entries).contains_key(name) <==> has_name(entries, name),
    decreases entries.len(),
{
    if entries.len() > 0 {
        let front = entries.drop_last();
        let last = entries.last();
        lemma_entries_map_names(front);
        assert forall|name: Seq<char>| #[trigger]
            entries_map(entries).contains_key(name) <==> has_name(entries, name) by {
            assert(entries_map(front).contains_key(name) <==> has_name(front, name));
            if has_name(entries, name) {
                let i = name_index(entries, name);
                if i < entries.len() - 1 {
                    assert(front[i] == entries[i]);
                    assert(has_name(front, name));
                }
            }
            if has_name(front, name) {
                let i = name_index(front, name);
                assert(entries[i] == front[i]);
                assert(has_name(entries, name));
            }
            if name == last.0@ {
                assert(entries[entries.len() - 1].0@ == name);
                assert(has_name(entries, name));
            }
        }
    } else {
        assert forall|name: Seq<char>| #[trigger]
            entries_map(entries).contains_key(name) <==> has_name(entries, name) by {
        }
    }
}

/// Where no name occurs twice, each entry is held under its name.
proof fn lemma_entries_map_value<V>(entries: Seq<(String, V)>, at: int)
    requires
        distinct_names(entries),
        0 <= at < entries.len(),
    ensures
        entries_map(entries).contains_key(entries[at].0@),
        entries_map(entries)[entries[at].0@] == entries[at].1,
    decreases entries.len(),
{
    if at < entries.len() - 1 {
        let front = entries.drop_last();
        assert(front[at] == entries[at]);
        assert(distinct_names(front)) by {
            assert forall|i: int, j: int| 0 <= i < j < front.len() implies front[i].0@
                != front[j].0@ by {
                assert(front[i] == entries[i] && front[j] == entries[j]);
            }
        }
        lemma_entries_map_value(front, at);
    }
}

/// Where no name occurs twice, a value replaced in an entry is replaced in the mapping.
proof fn lemma_entries_map_update<V>(entries: Seq<(String, V)>, at: int, value: V)
    requires
        distinct_names(entries),
        0 <= at < entries.len(),
    ensures
        distinct_names(entries.update(at, (entries[at].0, value))),
        entries_map(entries.update(at, (entries[at].0, value))) == entries_map(entries).insert(
            entries[at].0@,
            value,
        ),
    decreases entries.len(),
{
    let updated = entries.update(at, (entries[at].0, value));
    assert(distinct_names(updated)) by {
        assert forall|i: int, j: int| 0 <= i < j < updated.len() implies updated[i].0@
            != updated[j].0@ by {
            assert(updated[i].0@ == entries[i].0@ && updated[j].0@ == entries[j].0@);
        }
    }
    let front = entries.drop_last();
    if at == entries.len() - 1 {
        assert(updated.drop_last() =~= front);
        assert(entries_map(updated) =~= entries_map(entries).insert(entries[at].0@, value));
    } else {
        assert(front[at] == entries[at]);
        assert(distinct_names(front)) by {
            assert forall|i: int, j: int| 0 <= i < j < front.len() implies front[i].0@
                != front[j].0@ by {
                assert(front[i] == entries[i] && front[j] == entries[j]);
            }
        }
        lemma_entries_map_update(front, at, value);
        assert(updated.drop_last() =~= front.update(at, (front[at].0, value)));
        assert(updated.last() == entries.last());
        assert(entries.last().0@ != entries[at].0@);
        assert(entries_map(updated) =~= entries_map(entries).insert(entries[at].0@, value));
    }
}

/// The entries before the one at `n` do not hold its name, and with it they
/// stand for the mapping that holds it as well.
proof fn lemma_distinct_prefix<V>(entries: Seq<(String, V)>, n: int)
    requires
        distinct_names(entries),
        0 <= n < entries.len(),
    ensures
        distinct_names(entries.take(n)),
        !entries_map(entries.take(n)).contains_key(entries[n].0@),
        entries_map(entries.take(n + 1)) == entries_map(entries.take(n)).insert(
            entries[n].0@,
            entries[n].1,
        ),
{
    let prefix = entries.take(n);
    assert forall|i: int, j: int| 0 <= i < j < prefix.len() implies prefix[i].0@
        != prefix[j].0@ by {
        assert(prefix[i] == entries[i] && prefix[j] == entries[j]);
    }
    lemma_entries_map_names(prefix);
    if has_name(prefix, entries[n].0@) {
        let i = name_index(prefix, entries[n].0@);
        assert(prefix[i] == entries[i]);
    }
    assert(entries.take(n + 1) =~= prefix.push(entries[n]));
    lemma_entries_map_push(prefix, entries[n]);
}

/// An entry under a new name keeps the names distinct.
proof fn lemma_distinct_push<V>(entries: Seq<(String, V)>, entry: (String, V))
    requires
        distinct_names(entries),
        !has_name(entries, entry.0@),
    ensures
        distinct_names(entries.push(entry)),
{
    let pushed = entries.push(entry);
    assert forall|i: int, j: int| 0 <= i < j < pushed.len() implies pushed[i].0@
        != pushed[j].0@ by {
        if j == entries.len() {
            assert(pushed[i] == entries[i]);
        }
    }
}

/// Two lists of entries with the same names and, under each name, values that
/// stand for the same: they stand for the same mapping.
proof fn lemma_same_entries<V: DeepView>(copy: Seq<(String, V)>, entries: Seq<(String, V)>)
    requires
        copy.len() == entries.len(),
        forall|j: int|
            0 <= j < entries.len() ==> (#[trigger] copy[j]).0@ == entries[j].0@
                && copy[j].1.deep_view() == entries[j].1.deep_view(),
    ensures
        deep_values(entries_map(copy)) == deep_values(entries_map(entries)),
        distinct_names(entries) ==> distinct_names(copy),
    decreases entries.len(),
{
    if entries.len() > 0 {
        let copy_front = copy.drop_last();
        let front = entries.drop_last();
        assert forall|j: int| 0 <= j < front.len() implies (#[trigger] copy_front[j]).0@
            == front[j].0@ && copy_front[j].1.deep_view() == front[j].1.deep_view() by {
            assert(copy_front[j] == copy[j] && front[j] == entries[j]);
        }
        lemma_same_entries(copy_front, front);
        assert(copy[copy.len() - 1].0@ == entries[entries.len() - 1].0@);
        assert(deep_values(entries_map(copy)) =~= deep_values(entries_map(copy_front)).insert(
            copy.last().0@,
            copy.last().1.deep_view(),
        ));
        assert(deep_values(entries_map(entries)) =~= deep_values(entries_map(front)).insert(
            entries.last().0@,
            entries.last().1.deep_view(),
        ));
    } else {
        assert(deep_values(entries_map(copy)) =~= deep_values(entries_map(entries)));
    }
    if distinct_names(entries) {
        assert forall|i: int, j: int| 0 <= i < j < copy.len() implies copy[i].0@
            != copy[j].0@ by {
            assert(copy[i].0@ == entries[i].0@ && copy[j].0@ == entries[j].0@);
        }
    }
}

/// The place of the entry of `entries` held under `name`.
fn find_name<V>(entries: &Vec<(String, V)>, name: &String) -> (at: Option<usize>)
    ensures
        match at {
            Some(i) => i < entries@.len() && entries@[i as int].0@ == name@,
            None => !has_name(entries@, name@),
        },
{
    let mut i: usize = 0;
    while i < entries.len()
        invariant
            i <= entries@.len(),
            forall|j: int| 0 <= j < i ==> (#[trigger] entries@[j]).0@ != name@,
        decreases entries@.len() - i,
    {
        if entries[i].0 == *name {
            return Some(i);
        }
        i += 1;
    }
    None
}

impl<V> NameMap<V> {
    #[verifier::type_invariant]
    spec fn names_are_distinct(self) -> bool {
        distinct_names(self.entries@)
    }

    /// The empty mapping.
    pub fn new() -> (map: Self)
        ensures
            map@ == Map::<Seq<char>, V>::empty(),
    {
        NameMap { entries: Vec::new() }
    }

    /// Whether the mapping holds no name at all.
    pub fn is_empty(&self) -> (empty: bool)
        ensures
            empty <==> self@ == Map::<Seq<char>, V>::empty(),
    {
        proof {
            lemma_entries_map_names(self.entries@);
            if self.entries@.len() > 0 {
                assert(has_name(self.entries@, self.entries@[0].0@));
                assert(self@.contains_key(self.entries@[0].0@));
            } else {
                assert(self@ =~= Map::<Seq<char>, V>::empty());
            }
        }
        self.entries.len() == 0
    }

    /// The place of the entry held under `name`.
    fn position(&self, name: &String) -> (at: Option<usize>)
        ensures
            match at {
                Some(i) => i < self.entries@.len() && self.entries@[i as int].0@ == name@,
                None => !self@.contains_key(name@),
            },
    {
        proof {
            lemma_entries_map_names(self.entries@);
        }
        find_name(&self.entries, name)
    }

    /// Whether a value is held under `name`.
    pub fn contains_key(&self, name: &String) -> (held: bool)
        ensures
            held == self@.contains_key(name@),
    {
        match self.position(name) {
            Some(i) => {
                proof {
                    lemma_entries_map_names(self.entries@);
                    assert(has_name(self.entries@, self.entries@[i as int].0@));
                }
                true
            },
            None => false,
        }
    }

    /// The value held under `name`.
    pub fn get(&self, name: &String) -> (value: Option<&V>)
        ensures
            match value {
                Some(held) => self@.contains_key(name@) && *held == self@[name@],
                None => !self@.contains_key(name@),
            },
    {
        match self.position(name) {
            Some(i) => {
                proof {
                    use_type_invariant(self);
                    lemma_entries_map_value(self.entries@, i as int);
                }
                Some(&self.entries[i].1)
            },
            None => None,
        }
    }

    /// The mapping that holds `value` under `name`, in place of what was held
    /// under it before, and is otherwise as `self`.
    pub fn with(self, name: String, value: V) -> (map: Self)
        ensures
            map@ == self@.insert(name@, value),
    {
        proof {
            use_type_invariant(&self);
        }
        let found = self.position(&name);
        let ghost before = self.entries@;
        let mut entries = self.entries;
        match found {
            Some(i) => {
                proof {
                    lemma_entries_map_update(before, i as int, value);
                }
                entries[i].1 = value;
                assert(entries@ =~= before.update(i as int, (before[i as int].0, value)));
            },
            None => {
                proof {
                    lemma_entries_map_names(before);
                    lemma_entries_map_push(before, (name, value));
                    lemma_distinct_push(before, (name, value));
                }
                entries.push((name, value));
            },
        }
        NameMap { entries }
    }

    /// Merge with a mapping of lower precedence by keeping the existing keys:
    /// every name of `self` keeps its value, and the names that `self` lacks
    /// are filled in from `other`.
    pub fn keep_existing(self, other: NameMap<V>) -> (merged: NameMap<V>)
        ensures
            merged@ == keep_existing_keys(self@, other@),
    {
        proof {
            use_type_invariant(&self);
            use_type_invariant(&other);
        }
        let ghost higher = entries_map(self.entries@);
        let ghost lower = other.entries@;
        let mut entries = self.entries;
        assert(lower.take(0) =~= Seq::<(String, V)>::empty());
        assert(entries_map(entries@) =~= keep_existing_keys(higher, entries_map(lower.take(0))));
        for entry in it: other.entries
            invariant
                it.seq() == lower,
                distinct_names(lower),
                distinct_names(entries@),
                entries_map(entries@) == keep_existing_keys(
                    higher,
                    entries_map(lower.take(it.index() as int)),
                ),
        {
            let ghost n = it.index() as int;
            let ghost before = entries@;
            proof {
                lemma_distinct_prefix(lower, n);
                lemma_entries_map_names(before);
            }
            assert(entry == lower[n]);
            let found = find_name(&entries, &entry.0);
            if found.is_none() {
                proof {
                    lemma_entries_map_push(before, entry);
                    lemma_distinct_push(before, entry);
                    assert(!entries_map(before).contains_key(entry.0@));
                    assert(!higher.contains_key(entry.0@));
                }
                entries.push(entry);
            } else {
                proof {
                    let i = found->0 as int;
                    assert(has_name(before, before[i].0@));
                    assert(entries_map(before).contains_key(entry.0@));
                    assert(higher.contains_key(entry.0@));
                }
            }
            assert(entries_map(entries@) =~= keep_existing_keys(
                higher,
                entries_map(lower.take(n + 1)),
            ));
        }
        assert(lower.take(lower.len() as int) =~= lower);
        NameMap { entries }
    }
}

impl<T> NameMap<Vec<T>> {
    /// Merge with a list-valued mapping of lower precedence: under each name
    /// the list of `self` comes before the list of `other`.
    pub fn concatenate(self, other: NameMap<Vec<T>>) -> (merged: NameMap<Vec<T>>)
        ensures
            lists(merged@) == map_concatenate(lists(self@), lists(other@)),
    {
        proof {
            use_type_invariant(&self);
            use_type_invariant(&other);
        }
        let ghost higher = lists(entries_map(self.entries@));
        let ghost lower = other.entries@;
        let mut entries = self.entries;
        assert(lower.take(0) =~= Seq::<(String, Vec<T>)>::empty());
        assert(lists(entries_map(entries@)) =~= map_concatenate(
            higher,
            lists(entries_map(lower.take(0))),
        ));
        for entry in it: other.entries
            invariant
                it.seq() == lower,
                distinct_names(lower),
                distinct_names(entries@),
                lists(entries_map(entries@)) == map_concatenate(
                    higher,
                    lists(entries_map(lower.take(it.index() as int))),
                ),
        {
            let ghost n = it.index() as int;
            let ghost before = entries@;
            proof {
                lemma_distinct_prefix(lower, n);
                lemma_entries_map_names(before);
            }
            assert(entry == lower[n]);
            let (name, mut list) = entry;
            let ghost added = list@;
            match find_name(&entries, &name) {
                Some(i) => {
                    proof {
                        assert(has_name(before, before[i as int].0@));
                        lemma_entries_map_value(before, i as int);
                    }
                    entries[i].1.append(&mut list);
                    proof {
                        let longer = entries@[i as int].1;
                        lemma_entries_map_update(before, i as int, longer);
                        assert(entries@ =~= before.update(i as int, (before[i as int].0, longer)));
                        assert(!lists(entries_map(lower.take(n))).contains_key(name@));
                        assert(lists(entries_map(before)).contains_key(name@));
                        assert(lists(entries_map(before))[name@] == before[i as int].1@);
                        assert(longer@ =~= list_at(higher, name@) + added);
                    }
                },
                None => {
                    proof {
                        lemma_entries_map_push(before, (name, list));
                        lemma_distinct_push(before, (name, list));
                        assert(!lists(entries_map(before)).contains_key(name@));
                        assert(!higher.contains_key(name@));
                        assert(added =~= list_at(higher, name@) + added);
                    }
                    entries.push((name, list));
                },
            }
            proof {
                let now = lists(entries_map(entries@));
                let goal = map_concatenate(higher, lists(entries_map(lower.take(n + 1))));
                assert forall|key: Seq<char>| now.contains_key(key) == goal.contains_key(key) by {
                    assert(lists(entries_map(before)).contains_key(key) == (higher.contains_key(key)
                        || lists(entries_map(lower.take(n))).contains_key(key)));
                }
                assert forall|key: Seq<char>| #[trigger] now.contains_key(key) implies now[key]
                    == goal[key] by {
                    if key != name@ {
                        assert(lists(entries_map(before)).contains_key(key));
                        assert(now[key] == lists(entries_map(before))[key]);
                    }
                }
                assert(now =~= goal);
            }
        }
        assert(lower.take(lower.len() as int) =~= lower);
        NameMap { entries }
    }
}

impl<V: Combine> NameMap<V> {
    /// Merge with a mapping of lower precedence by merging the values: under
    /// a name that both hold, the value of `self` is combined with that of
    /// `other`.
    pub fn combine_values(self, other: NameMap<V>) -> (merged: NameMap<V>)
        ensures
            value_models(merged@) == merge_values::<V>(
                value_models(self@),
                value_models(other@),
            ),
    {
        proof {
            use_type_invariant(&self);
            use_type_invariant(&other);
        }
        let ghost higher = value_models(entries_map(self.entries@));
        let ghost lower = other.entries@;
        let mut entries = self.entries;
        assert(lower.take(0) =~= Seq::<(String, V)>::empty());
        assert(value_models(entries_map(entries@)) =~= merge_values::<V>(
            higher,
            value_models(entries_map(lower.take(0))),
        ));
        for entry in it: other.entries
            invariant
                it.seq() == lower,
                distinct_names(lower),
                distinct_names(entries@),
                value_models(entries_map(entries@)) == merge_values::<V>(
                    higher,
                    value_models(entries_map(lower.take(it.index() as int))),
                ),
        {
            let ghost n = it.index() as int;
            let ghost before = entries@;
            proof {
                lemma_distinct_prefix(lower, n);
                lemma_entries_map_names(before);
            }
            assert(entry == lower[n]);
            let (name, value) = entry;
            match find_name(&entries, &name) {
                Some(i) => {
                    proof {
                        assert(has_name(before, before[i as int].0@));
                        lemma_entries_map_value(before, i as int);
                    }
                    let (held_name, held) = entries.remove(i);
                    let joined = held.combine(value);
                    proof {
                        lemma_entries_map_update(before, i as int, joined);
                        assert(!value_models(entries_map(lower.take(n))).contains_key(name@));
                        assert(value_models(entries_map(before)).contains_key(name@));
                        assert(value_models(entries_map(before))[name@] == held.model());
                        assert(higher.contains_key(name@));
                        assert(held.model() == higher[name@]);
                    }
                    entries.insert(i, (held_name, joined));
                    assert(entries@ =~= before.update(i as int, (before[i as int].0, joined)));
                },
                None => {
                    proof {
                        lemma_entries_map_push(before, (name, value));
                        lemma_distinct_push(before, (name, value));
                        assert(!value_models(entries_map(before)).contains_key(name@));
                        assert(!higher.contains_key(name@));
                    }
                    entries.push((name, value));
                },
            }
            proof {
                let now = value_models(entries_map(entries@));
                let goal = merge_values::<V>(
                    higher,
                    value_models(entries_map(lower.take(n + 1))),
                );
                assert forall|key: Seq<char>| now.contains_key(key) == goal.contains_key(key) by {
                    assert(value_models(entries_map(before)).contains_key(key) == (
                    higher.contains_key(key) || value_models(
                        entries_map(lower.take(n)),
                    ).contains_key(key)));
                }
                assert forall|key: Seq<char>| #[trigger] now.contains_key(key) implies now[key]
                    == goal[key] by {
                    if key != name@ {
                        assert(value_models(entries_map(before)).contains_key(key));
                        assert(now[key] == value_models(entries_map(before))[key]);
                    }
                }
                assert(now =~= goal);
            }
        }
        assert(lower.take(lower.len() as int) =~= lower);
        NameMap { entries }
    }
}

impl<V: DeepView> DeepView for NameMap<V> {
    type V = Map<Seq<char>, V::V>;

    open spec fn deep_view(&self) -> Map<Seq<char>, V::V> {
        deep_values(self@)
    }
}

impl<V: Plain> Plain for NameMap<V> {
    fn same(&self, other: &NameMap<V>) -> (same: bool) {
        proof {
            use_type_invariant(self);
            use_type_invariant(other);
            lemma_entries_map_names(self.entries@);
            lemma_entries_map_names(other.entries@);
        }
        let mut i: usize = 0;
        while i < self.entries.len()
            invariant
                i <= self.entries@.len(),
                distinct_names(self.entries@),
                forall|j: int|
                    0 <= j < i ==> other@.contains_key((#[trigger] self.entries@[j]).0@)
                        && other@[self.entries@[j].0@].deep_view()
                        == self.entries@[j].1.deep_view(),
            decreases self.entries@.len() - i,
        {
            proof {
                lemma_entries_map_value(self.entries@, i as int);
            }
            match other.get(&self.entries[i].0) {
                Some(held) => {
                    if !self.entries[i].1.same(held) {
                        assert(self.deep_view()[self.entries@[i as int].0@]
                            != other.deep_view()[self.entries@[i as int].0@]);
                        return false;
                    }
                },
                None => {
                    assert(self.deep_view().contains_key(self.entries@[i as int].0@));
                    assert(!other.deep_view().contains_key(self.entries@[i as int].0@));
                    return false;
                },
            }
            i += 1;
        }
        let mut k: usize = 0;
        while k < other.entries.len()
            invariant
                k <= other.entries@.len(),
                forall|j: int|
                    0 <= j < k ==> self@.contains_key((#[trigger] other.entries@[j]).0@),
            decreases other.entries@.len() - k,
        {
            if !self.contains_key(&other.entries[k].0) {
                proof {
                    lemma_entries_map_names(other.entries@);
                    assert(has_name(other.entries@, other.entries@[k as int].0@));
                    assert(other.deep_view().contains_key(other.entries@[k as int].0@));
                    assert(!self.deep_view().contains_key(other.entries@[k as int].0@));
                }
                return false;
            }
            k += 1;
        }
        proof {
            assert forall|name: Seq<char>|
                self.deep_view().contains_key(name) == other.deep_view().contains_key(name) by {
                if self@.contains_key(name) {
                    let j = name_index(self.entries@, name);
                    assert(other@.contains_key(self.entries@[j].0@));
                }
                if other@.contains_key(name) {
                    let j = name_index(other.entries@, name);
                    assert(self@.contains_key(other.entries@[j].0@));
                }
            }
            assert forall|name: Seq<char>| #[trigger]
                self.deep_view().contains_key(name) implies self.deep_view()[name]
                == other.deep_view()[name] by {
                let j = name_index(self.entries@, name);
                lemma_entries_map_value(self.entries@, j);
                assert(other@.contains_key(self.entries@[j].0@));
            }
            assert(self.deep_view() =~= other.deep_view());
        }
        true
    }

    fn duplicate(&self) -> (copy: NameMap<V>) {
        proof {
            use_type_invariant(self);
        }
        let mut entries: Vec<(String, V)> = Vec::new();
        let mut i: usize = 0;
        while i < self.entries.len()
            invariant
                i <= self.entries@.len(),
                entries@.len() == i,
                forall|j: int|
                    0 <= j < i ==> (#[trigger] entries@[j]).0@ == self.entries@[j].0@
                        && entries@[j].1.deep_view() == self.entries@[j].1.deep_view(),
            decreases self.entries@.len() - i,
        {
            let name = self.entries[i].0.clone();
            let value = self.entries[i].1.duplicate();
            entries.push((name, value));
            i += 1;
        }
        proof {
            lemma_same_entries(entries@, self.entries@);
        }
        NameMap { entries }
    }
}

/// Keeping the existing keys commutes with taking deep views.
pub proof fn lemma_deep_keep_existing<V: DeepView>(
    merged: Map<Seq<char>, V>,
    higher: Map<Seq<char>, V>,
    lower: Map<Seq<char>, V>,
)
    requires
        merged == keep_existing_keys(higher, lower),
    ensures
        deep_values(merged) == keep_existing_keys(deep_values(higher), deep_values(lower)),
{
    assert(deep_values(merged) =~= keep_existing_keys(deep_values(higher), deep_values(lower)));
}

/// Concatenating the lists under each name commutes with taking deep views.
pub proof fn lemma_deep_concatenate<T: DeepView>(
    merged: Map<Seq<char>, Vec<T>>,
    higher: Map<Seq<char>, Vec<T>>,
    lower: Map<Seq<char>, Vec<T>>,
)
    requires
        lists(merged) == map_concatenate(lists(higher), lists(lower)),
    ensures
        deep_values(merged) == map_concatenate(deep_values(higher), deep_values(lower)),
{
    let goal = map_concatenate(deep_values(higher), deep_values(lower));
    assert forall|name: Seq<char>| deep_values(merged).contains_key(name) == goal.contains_key(
        name,
    ) by {
        assert(lists(merged).contains_key(name) == (lists(higher).contains_key(name) || lists(
            lower,
        ).contains_key(name)));
    }
    assert forall|name: Seq<char>| #[trigger]
        deep_values(merged).contains_key(name) implies deep_values(merged)[name]
        == goal[name] by {
        assert(lists(merged).contains_key(name));
        assert(lists(merged)[name] == merged[name]@);
        assert(map_concatenate(lists(higher), lists(lower))[name] == list_at(lists(higher), name)
            + list_at(lists(lower), name));
        assert(merged[name]@ == list_at(lists(higher), name) + list_at(lists(lower), name));
        assert(deep_values(merged)[name] =~= list_at(deep_values(higher), name) + list_at(
            deep_values(lower),
            name,
        ));
    }
    assert(deep_values(merged) =~= goal);
}

/// Merge-values is associative.
pub proof fn merge_values_is_associative<V: Combine>(
    a: Map<Seq<char>, V::Model>,
    b: Map<Seq<char>, V::Model>,
    c: Map<Seq<char>, V::Model>,
)
    ensures
        merge_values::<V>(merge_values::<V>(a, b), c) == merge_values::<V>(
            a,
            merge_values::<V>(b, c),
        ),
{
    let left = merge_values::<V>(merge_values::<V>(a, b), c);
    let right = merge_values::<V>(a, merge_values::<V>(b, c));
    assert forall|name: Seq<char>| #[trigger] left.contains_key(name) implies left[name]
        == right[name] by {
        if a.contains_key(name) && b.contains_key(name) && c.contains_key(name) {
            V::merged_is_associative(a[name], b[name], c[name]);
        }
    }
    assert(left =~= right);
}

} // verus!
