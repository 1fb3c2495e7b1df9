//! The merge strategies, as mathematical functions.
//!
//! Every field of a configuration layer is merged by one of four strategies.
//! In each of them the first operand is the one of higher precedence.

use vstd::prelude::*;

verus! {

/// First wins: the higher value where it is present, else the lower one.
pub open spec fn first_wins<T>(higher: Option<T>, lower: Option<T>) -> Option<T> {
    if higher is Some {
        higher
    } else {
        lower
    }
}

/// Concatenate: the items of the higher list before those of the lower one;
/// where only one list is present, that list.
pub open spec fn concatenate<T>(higher: Option<Seq<T>>, lower: Option<Seq<T>>) -> Option<Seq<T>> {
    match (higher, lower) {
        (Some(a), Some(b)) => Some(a + b),
        (Some(a), None) => Some(a),
        (None, b) => b,
    }
}

/// The list that a list-valued mapping holds under `key`: empty where the key is absent.
pub open spec fn list_at<K, T>(lists: Map<K, Seq<T>>, key: K) -> Seq<T> {
    if lists.contains_key(key) {
        lists[key]
    } else {
        Seq::empty()
    }
}

/// Map-concatenate: the union of the keys, and under each key the higher list
/// before the lower one.
pub open spec fn map_concatenate<K, T>(higher: Map<K, Seq<T>>, lower: Map<K, Seq<T>>) -> Map<
    K,
    Seq<T>,
> {
    Map::new(
        |key: K| higher.contains_key(key) || lower.contains_key(key),
        |key: K| list_at(higher, key) + list_at(lower, key),
    )
}

/// Keep existing keys: the union of the keys; a key of the higher mapping keeps
/// its value, and only the keys that it lacks are filled in from the lower one.
pub open spec fn keep_existing_keys<K, V>(higher: Map<K, V>, lower: Map<K, V>) -> Map<K, V> {
    Map::new(
        |key: K| higher.contains_key(key) || lower.contains_key(key),
        |key: K|
            if higher.contains_key(key) {
                higher[key]
            } else {
                lower[key]
            },
    )
}

/// Map-concatenate for a field that may be absent: both mappings merged where
/// both are present, else the one that is present.
pub open spec fn map_concatenate_present<K, T>(
    higher: Option<Map<K, Seq<T>>>,
    lower: Option<Map<K, Seq<T>>>,
) -> Option<Map<K, Seq<T>>> {
    match (higher, lower) {
        (Some(a), Some(b)) => Some(map_concatenate(a, b)),
        (Some(a), None) => Some(a),
        (None, b) => b,
    }
}

/// Keep existing keys for a field that may be absent: both mappings merged
/// where both are present, else the one that is present.
pub open spec fn keep_existing_keys_present<K, V>(
    higher: Option<Map<K, V>>,
    lower: Option<Map<K, V>>,
) -> Option<Map<K, V>> {
    match (higher, lower) {
        (Some(a), Some(b)) => Some(keep_existing_keys(a, b)),
        (Some(a), None) => Some(a),
        (None, b) => b,
    }
}

/// First wins is associative: three layers fold to the same, whichever two
/// are merged first.
pub proof fn first_wins_is_associative<T>(a: Option<T>, b: Option<T>, c: Option<T>)
    ensures
        first_wins(first_wins(a, b), c) == first_wins(a, first_wins(b, c)),
{
}

/// Concatenate is associative.
pub proof fn concatenate_is_associative<T>(
    a: Option<Seq<T>>,
    b: Option<Seq<T>>,
    c: Option<Seq<T>>,
)
    ensures
        concatenate(concatenate(a, b), c) == concatenate(a, concatenate(b, c)),
{
    if a is Some && b is Some && c is Some {
        assert((a->0 + b->0) + c->0 =~= a->0 + (b->0 + c->0));
    }
}

/// Map-concatenate is associative.
pub proof fn map_concatenate_is_associative<K, T>(
    a: Map<K, Seq<T>>,
    b: Map<K, Seq<T>>,
    c: Map<K, Seq<T>>,
)
    ensures
        map_concatenate(map_concatenate(a, b), c) == map_concatenate(a, map_concatenate(b, c)),
{
    let left = map_concatenate(map_concatenate(a, b), c);
    let right = map_concatenate(a, map_concatenate(b, c));
    assert forall|key: K| #[trigger] left.contains_key(key) implies left[key] =~= right[key] by {
        assert(list_at(map_concatenate(a, b), key) =~= list_at(a, key) + list_at(b, key));
        assert(list_at(map_concatenate(b, c), key) =~= list_at(b, key) + list_at(c, key));
    }
    assert(left =~= right);
}

/// Keep existing keys is associative.
pub proof fn keep_existing_keys_is_associative<K, V>(a: Map<K, V>, b: Map<K, V>, c: Map<K, V>)
    ensures
        keep_existing_keys(keep_existing_keys(a, b), c) == keep_existing_keys(
            a,
            keep_existing_keys(b, c),
        ),
{
    assert(keep_existing_keys(keep_existing_keys(a, b), c) =~= keep_existing_keys(
        a,
        keep_existing_keys(b, c),
    ));
}

/// Map-concatenate, where the mappings may be absent, is associative.
pub proof fn map_concatenate_present_is_associative<K, T>(
    a: Option<Map<K, Seq<T>>>,
    b: Option<Map<K, Seq<T>>>,
    c: Option<Map<K, Seq<T>>>,
)
    ensures
        map_concatenate_present(map_concatenate_present(a, b), c) == map_concatenate_present(
            a,
            map_concatenate_present(b, c),
        ),
{
    if a is Some && b is Some && c is Some {
        map_concatenate_is_associative(a->0, b->0, c->0);
    }
}

/// Keep existing keys, where the mappings may be absent, is associative.
pub proof fn keep_existing_keys_present_is_associative<K, V>(
    a: Option<Map<K, V>>,
    b: Option<Map<K, V>>,
    c: Option<Map<K, V>>,
)
    ensures
        keep_existing_keys_present(keep_existing_keys_present(a, b), c)
            == keep_existing_keys_present(a, keep_existing_keys_present(b, c)),
{
    if a is Some && b is Some && c is Some {
        keep_existing_keys_is_associative(a->0, b->0, c->0);
    }
}

} // verus!
