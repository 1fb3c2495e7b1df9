//! What holds of every merge of configuration layers.

use vstd::prelude::*;
use crate::combine::{folded, Combine};
use crate::settings::{
    merge_exclude_newer, merge_options, merge_present_exclude_newer, ExcludeNewerView, Options,
    OptionsView,
};
use crate::strategy::{concatenate, first_wins, keep_existing_keys, list_at, map_concatenate};

verus! {

/// A scalar field that the higher layer holds keeps the value of the higher
/// layer, whatever the lower layer holds.
pub proof fn scalar_of_higher_layer_wins<T>(higher: Option<T>, lower: Option<T>)
    requires
        higher is Some,
    ensures
        first_wins(higher, lower) == higher,
{
}

/// A scalar field that the higher layer lacks takes the value of the lower layer.
pub proof fn absent_scalar_is_filled_in<T>(higher: Option<T>, lower: Option<T>)
    requires
        higher is None,
    ensures
        first_wins(higher, lower) == lower,
{
}

/// In the merge of two layers each scalar field that the higher layer holds
/// has the value of the higher layer.
pub proof fn layer_keeps_scalars_of_higher(higher: OptionsView, lower: OptionsView)
    ensures
        higher.index_url is Some ==> merge_options(higher, lower).index_url == higher.index_url,
        higher.resolution is Some ==> merge_options(higher, lower).resolution
            == higher.resolution,
        higher.upgrade is Some ==> merge_options(higher, lower).upgrade == higher.upgrade,
        higher.reinstall is Some ==> merge_options(higher, lower).reinstall == higher.reinstall,
        higher.exclude_newer.global is Some ==> merge_options(higher, lower).exclude_newer.global
            == higher.exclude_newer.global,
{
}

/// A fold may begin anywhere: the layers `first`, `second` and `rest` fold to
/// the merge of `first` with the fold of `second` and `rest`.
pub proof fn fold_groups_freely<T: Combine>(
    first: T::Model,
    second: T::Model,
    rest: Seq<T::Model>,
)
    ensures
        folded::<T>(T::merged(first, second), rest) == T::merged(
            first,
            folded::<T>(second, rest),
        ),
    decreases rest.len(),
{
    if rest.len() > 0 {
        fold_groups_freely::<T>(first, second, rest.drop_last());
        T::merged_is_associative(first, folded::<T>(second, rest.drop_last()), rest.last());
    }
}

/// The items of a list field: none where the field is absent.
pub open spec fn items_of<T>(field: Option<Seq<T>>) -> Seq<T> {
    match field {
        Some(items) => items,
        None => Seq::empty(),
    }
}

/// The lists of a sequence of layers, joined in the order of the layers:
/// absent where every layer lacks the field.
pub open spec fn concatenation<T>(layers: Seq<Option<Seq<T>>>) -> Option<Seq<T>> {
    if forall|i: int| 0 <= i < layers.len() ==> layers[i] is None {
        None
    } else {
        Some(layers.map_values(|field: Option<Seq<T>>| items_of(field)).flatten())
    }
}

/// The fold of a list field over the layers `first`, `rest[0]`, `rest[1]`, ...
/// is the concatenation of the lists of the layers that hold the field, in
/// the order of the layers.
pub proof fn folded_lists_are_concatenated<T>(first: Option<Seq<T>>, rest: Seq<Option<Seq<T>>>)
    ensures
        folded::<Option<Vec<T>>>(first, rest) == concatenation(seq![first] + rest),
    decreases rest.len(),
{
    let layers = seq![first] + rest;
    let items = layers.map_values(|field: Option<Seq<T>>| items_of(field));
    if rest.len() == 0 {
        assert(layers =~= seq![first]);
        assert(layers[0] == first);
        assert(items =~= seq![items_of(first)]);
        assert(items.len() == 1);
        broadcast use Seq::lemma_flatten_singleton;
        assert(items.flatten() == items[0]);
    } else {
        let front = rest.drop_last();
        let last = rest.last();
        folded_lists_are_concatenated(first, front);
        let front_layers = seq![first] + front;
        let front_items = front_layers.map_values(|field: Option<Seq<T>>| items_of(field));
        assert(layers =~= front_layers.push(last));
        assert(items =~= front_items.push(items_of(last)));
        front_items.lemma_flatten_push(items_of(last));
        assert(items.flatten() =~= front_items.flatten() + items_of(last));
        if forall|i: int| 0 <= i < front_layers.len() ==> front_layers[i] is None {
            assert forall|i: int| 0 <= i < front_items.len() implies (
            #[trigger] front_items[i]).len() == 0 by {
                assert(front_layers[i] is None);
            }
            lemma_flatten_of_empty_lists(front_items);
            if last is None {
                assert forall|i: int| 0 <= i < layers.len() implies layers[i] is None by {
                    if i < front_layers.len() {
                        assert(layers[i] == front_layers[i]);
                    }
                }
            } else {
                assert(layers[layers.len() - 1] is Some);
                assert(items.flatten() =~= last->0);
            }
        } else {
            let i = choose|i: int| 0 <= i < front_layers.len() && !(front_layers[i] is None);
            assert(layers[i] == front_layers[i]);
            if last is None {
                assert(items.flatten() =~= front_items.flatten());
            }
        }
    }
}

/// The first of the values of a sequence of layers that is present: absent
/// where every layer lacks the field.
pub open spec fn first_present<T>(layers: Seq<Option<T>>) -> Option<T>
    decreases layers.len(),
{
    if layers.len() == 0 {
        None
    } else if layers.first() is Some {
        layers.first()
    } else {
        first_present(layers.drop_first())
    }
}

/// The fold of a scalar field over the layers `first`, `rest[0]`, `rest[1]`,
/// ... is the value of the first layer that holds the field: the value of
/// highest precedence is kept, whatever the layers below it hold.
pub proof fn folded_scalar_is_first_present<T, C: Combine<Model = Option<T>>>(
    first: Option<T>,
    rest: Seq<Option<T>>,
)
    requires
        forall|higher: Option<T>, lower: Option<T>| #[trigger]
            C::merged(higher, lower) == first_wins(higher, lower),
    ensures
        folded::<C>(first, rest) == first_present(seq![first] + rest),
    decreases rest.len(),
{
    let layers = seq![first] + rest;
    assert(layers.first() == first);
    assert(layers.drop_first() =~= rest);
    if rest.len() == 0 {
        assert(first_present(rest) == None::<T>);
    } else {
        let front = rest.drop_last();
        folded_scalar_is_first_present::<T, C>(first, front);
        assert((seq![first] + front).first() == first);
        assert((seq![first] + front).drop_first() =~= front);
        lemma_first_present_push(front, rest.last());
        assert(front.push(rest.last()) =~= rest);
        assert(C::merged(folded::<C>(first, front), rest.last()) == first_wins(
            folded::<C>(first, front),
            rest.last(),
        ));
    }
}

/// A layer added below all others is asked only where all others lack the field.
proof fn lemma_first_present_push<T>(layers: Seq<Option<T>>, last: Option<T>)
    ensures
        first_present(layers.push(last)) == first_wins(first_present(layers), last),
    decreases layers.len(),
{
    let pushed = layers.push(last);
    if layers.len() == 0 {
        assert(pushed.first() == last);
        assert(pushed.drop_first() =~= layers);
    } else {
        assert(pushed.first() == layers.first());
        assert(pushed.drop_first() =~= layers.drop_first().push(last));
        lemma_first_present_push(layers.drop_first(), last);
    }
}

/// The values of one field in a sequence of layers.
pub open spec fn field_of<F>(layers: Seq<OptionsView>, field: spec_fn(OptionsView) -> F) -> Seq<F> {
    layers.map_values(field)
}

/// The list fields of the fold of the layers `first`, `rest[0]`, `rest[1]`,
/// ... hold the lists of the layers, joined in the order of the layers.
pub proof fn folded_layers_concatenate_their_lists(first: OptionsView, rest: Seq<OptionsView>)
    ensures
        folded::<Options>(first, rest).extra_index_url == concatenation(
            field_of(seq![first] + rest, |layer: OptionsView| layer.extra_index_url),
        ),
        folded::<Options>(first, rest).upgrade_package == concatenation(
            field_of(seq![first] + rest, |layer: OptionsView| layer.upgrade_package),
        ),
        folded::<Options>(first, rest).reinstall_package == concatenation(
            field_of(seq![first] + rest, |layer: OptionsView| layer.reinstall_package),
        ),
{
    lemma_folded_list_field(first, rest, |layer: OptionsView| layer.extra_index_url);
    lemma_folded_list_field(first, rest, |layer: OptionsView| layer.upgrade_package);
    lemma_folded_list_field(first, rest, |layer: OptionsView| layer.reinstall_package);
}

/// A field that the merge of two layers concatenates is, in the fold of a
/// sequence of layers, the concatenation of the lists of the layers.
proof fn lemma_folded_list_field(
    first: OptionsView,
    rest: Seq<OptionsView>,
    field: spec_fn(OptionsView) -> Option<Seq<Seq<char>>>,
)
    requires
        forall|higher: OptionsView, lower: OptionsView| #[trigger]
            field(merge_options(higher, lower)) == concatenate(field(higher), field(lower)),
    ensures
        field(folded::<Options>(first, rest)) == concatenation(
            field_of(seq![first] + rest, field),
        ),
    decreases rest.len(),
{
    let lists = field_of(rest, field);
    assert(field_of(seq![first] + rest, field) =~= seq![field(first)] + lists);
    folded_lists_are_concatenated::<Seq<char>>(field(first), lists);
    lemma_folded_field_is_folded(first, rest, field);
}

/// The field of a fold is the fold of the field.
proof fn lemma_folded_field_is_folded(
    first: OptionsView,
    rest: Seq<OptionsView>,
    field: spec_fn(OptionsView) -> Option<Seq<Seq<char>>>,
)
    requires
        forall|higher: OptionsView, lower: OptionsView| #[trigger]
            field(merge_options(higher, lower)) == concatenate(field(higher), field(lower)),
    ensures
        field(folded::<Options>(first, rest)) == folded::<Option<Vec<Seq<char>>>>(
            field(first),
            field_of(rest, field),
        ),
    decreases rest.len(),
{
    if rest.len() > 0 {
        lemma_folded_field_is_folded(first, rest.drop_last(), field);
        assert(field_of(rest, field).drop_last() =~= field_of(rest.drop_last(), field));
        assert(field_of(rest, field).last() == field(rest.last()));
        assert(field(merge_options(folded::<Options>(first, rest.drop_last()), rest.last()))
            == concatenate(
            field(folded::<Options>(first, rest.drop_last())),
            field(rest.last()),
        ));
    }
}

/// Lists that are all empty join to the empty list.
proof fn lemma_flatten_of_empty_lists<T>(lists: Seq<Seq<T>>)
    requires
        forall|i: int| 0 <= i < lists.len() ==> (#[trigger] lists[i]).len() == 0,
    ensures
        lists.flatten() =~= Seq::<T>::empty(),
    decreases lists.len(),
{
    if lists.len() > 0 {
        let rest = lists.drop_first();
        assert forall|i: int| 0 <= i < rest.len() implies (#[trigger] rest[i]).len() == 0 by {
            assert(rest[i] == lists[i + 1]);
        }
        lemma_flatten_of_empty_lists(rest);
        assert(lists.first() == lists[0]);
    }
}

/// The merge of two precedence mappings holds every name of the higher one
/// with its value unchanged, every name of the lower one that the higher one
/// lacks with the value of the lower one, and no other name.
pub proof fn precedence_mapping_keeps_and_fills<K, V>(higher: Map<K, V>, lower: Map<K, V>)
    ensures
        forall|key: K| #[trigger]
            higher.contains_key(key) ==> keep_existing_keys(higher, lower).contains_key(key)
                && keep_existing_keys(higher, lower)[key] == higher[key],
        forall|key: K|
            !higher.contains_key(key) && #[trigger] lower.contains_key(key) ==> keep_existing_keys(
                higher,
                lower,
            ).contains_key(key) && keep_existing_keys(higher, lower)[key] == lower[key],
        forall|key: K| #[trigger]
            keep_existing_keys(higher, lower).contains_key(key) ==> higher.contains_key(key)
                || lower.contains_key(key),
{
}

/// Two exclusion structures that are both present merge by their parts, and
/// neither is taken whole: the timestamp for all packages is that of the
/// higher one where it has one and else that of the lower one; every package
/// of the higher one keeps its timestamp; every package that only the lower
/// one holds is filled in with the timestamp of the lower one; and no other
/// package is held.
pub proof fn exclusion_structures_merge_by_their_parts(
    higher: ExcludeNewerView,
    lower: ExcludeNewerView,
)
    ensures
        merge_present_exclude_newer(Some(higher), Some(lower)) == Some(
            merge_exclude_newer(higher, lower),
        ),
        merge_exclude_newer(higher, lower).global == first_wins(higher.global, lower.global),
        forall|name: Seq<char>| #[trigger]
            higher.package.contains_key(name) ==> merge_exclude_newer(
                higher,
                lower,
            ).package.contains_key(name) && merge_exclude_newer(higher, lower).package[name]
                == higher.package[name],
        forall|name: Seq<char>|
            !higher.package.contains_key(name) && #[trigger] lower.package.contains_key(name)
                ==> merge_exclude_newer(higher, lower).package.contains_key(name)
                && merge_exclude_newer(higher, lower).package[name] == lower.package[name],
        forall|name: Seq<char>| #[trigger]
            merge_exclude_newer(higher, lower).package.contains_key(name)
                ==> higher.package.contains_key(name) || lower.package.contains_key(name),
{
}

/// An exclusion structure that only one layer holds is that structure.
pub proof fn lone_exclusion_structure_is_kept(held: ExcludeNewerView)
    ensures
        merge_present_exclude_newer(Some(held), None) == Some(held),
        merge_present_exclude_newer(None, Some(held)) == Some(held),
        merge_present_exclude_newer(None, None) == None::<ExcludeNewerView>,
{
}

/// What each of a sequence of precedence mappings holds under one name.
pub open spec fn held_under<K, V>(layers: Seq<Map<K, V>>, key: K) -> Seq<Option<V>> {
    layers.map_values(
        |layer: Map<K, V>|
            if layer.contains_key(key) {
                Some(layer[key])
            } else {
                None
            },
    )
}

/// The fold of a precedence mapping over the layers `first`, `rest[0]`,
/// `rest[1]`, ... holds under each name the value of the first layer that
/// holds the name, and holds no name that no layer holds: a name set by a
/// higher layer is never overwritten by a lower one.
pub proof fn folded_precedence_mapping_takes_first_holder<K, V, C: Combine<Model = Map<K, V>>>(
    first: Map<K, V>,
    rest: Seq<Map<K, V>>,
    key: K,
)
    requires
        forall|higher: Map<K, V>, lower: Map<K, V>| #[trigger]
            C::merged(higher, lower) == keep_existing_keys(higher, lower),
    ensures
        folded::<C>(first, rest).contains_key(key) <==> first_present(
            held_under(seq![first] + rest, key),
        ) is Some,
        folded::<C>(first, rest).contains_key(key) ==> Some(folded::<C>(first, rest)[key])
            == first_present(held_under(seq![first] + rest, key)),
    decreases rest.len(),
{
    let layers = seq![first] + rest;
    let held = held_under(layers, key);
    if rest.len() == 0 {
        assert(held.first() == held[0]);
        assert(held.drop_first() =~= Seq::<Option<V>>::empty());
        assert(first_present(held.drop_first()) == None::<V>);
    } else {
        let front = rest.drop_last();
        let last = rest.last();
        folded_precedence_mapping_takes_first_holder::<K, V, C>(first, front, key);
        let front_held = held_under(seq![first] + front, key);
        assert(held =~= front_held.push(held_under(seq![last], key)[0]));
        lemma_first_present_push(front_held, held_under(seq![last], key)[0]);
        assert(C::merged(folded::<C>(first, front), last) == keep_existing_keys(
            folded::<C>(first, front),
            last,
        ));
    }
}

/// The lists that each of a sequence of list-valued mappings holds under one name.
pub open spec fn lists_under<K, T>(layers: Seq<Map<K, Seq<T>>>, key: K) -> Seq<Seq<T>> {
    layers.map_values(|layer: Map<K, Seq<T>>| list_at(layer, key))
}

/// Whether one of a sequence of mappings holds a name.
pub open spec fn held_by_some<K, V>(layers: Seq<Map<K, V>>, key: K) -> bool {
    exists|i: int| 0 <= i < layers.len() && (#[trigger] layers[i]).contains_key(key)
}

/// The fold of a list-valued mapping over the layers `first`, `rest[0]`,
/// `rest[1]`, ... holds the names that the layers hold, and under each name
/// the lists of the layers, joined in the order of the layers.
pub proof fn folded_list_valued_mapping_joins_lists<K, T, C: Combine<Model = Map<K, Seq<T>>>>(
    first: Map<K, Seq<T>>,
    rest: Seq<Map<K, Seq<T>>>,
    key: K,
)
    requires
        forall|higher: Map<K, Seq<T>>, lower: Map<K, Seq<T>>| #[trigger]
            C::merged(higher, lower) == map_concatenate(higher, lower),
    ensures
        folded::<C>(first, rest).contains_key(key) <==> held_by_some(seq![first] + rest, key),
        list_at(folded::<C>(first, rest), key) == lists_under(seq![first] + rest, key).flatten(),
    decreases rest.len(),
{
    let layers = seq![first] + rest;
    let lists = lists_under(layers, key);
    if rest.len() == 0 {
        assert(layers =~= seq![first]);
        assert(lists =~= seq![list_at(first, key)]);
        broadcast use Seq::lemma_flatten_singleton;
        assert(lists.flatten() == lists[0]);
        assert(layers[0] == first);
    } else {
        let front = rest.drop_last();
        let last = rest.last();
        folded_list_valued_mapping_joins_lists::<K, T, C>(first, front, key);
        let front_layers = seq![first] + front;
        let front_lists = lists_under(front_layers, key);
        assert(layers =~= front_layers.push(last));
        assert(lists =~= front_lists.push(list_at(last, key)));
        front_lists.lemma_flatten_push(list_at(last, key));
        assert(C::merged(folded::<C>(first, front), last) == map_concatenate(
            folded::<C>(first, front),
            last,
        ));
        if held_by_some(front_layers, key) {
            let i = choose|i: int|
                0 <= i < front_layers.len() && (#[trigger] front_layers[i]).contains_key(key);
            assert(layers[i] == front_layers[i]);
        }
        if last.contains_key(key) {
            assert(layers[layers.len() - 1].contains_key(key));
        }
        if held_by_some(layers, key) {
            let i = choose|i: int|
                0 <= i < layers.len() && (#[trigger] layers[i]).contains_key(key);
            if i < front_layers.len() {
                assert(front_layers[i] == layers[i]);
            }
        }
    }
}

/// The merge of two list-valued mappings holds the names of both, and under
/// each name the list of the higher one before the list of the lower one.
pub proof fn list_valued_mapping_joins_lists<K, T>(
    higher: Map<K, Seq<T>>,
    lower: Map<K, Seq<T>>,
    key: K,
)
    ensures
        map_concatenate(higher, lower).contains_key(key) <==> higher.contains_key(key)
            || lower.contains_key(key),
        map_concatenate(higher, lower).contains_key(key) ==> map_concatenate(higher, lower)[key]
            == list_at(higher, key) + list_at(lower, key),
{
}

} // verus!
