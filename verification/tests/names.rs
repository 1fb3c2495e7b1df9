use tool_reconciler::names::NameMap;
use tool_reconciler::plain::Plain;

fn text(value: &str) -> String {
    value.to_string()
}

#[test]
fn new_map_is_empty() {
    let map: NameMap<u8> = NameMap::new();
    assert!(map.is_empty());
    assert!(!map.contains_key(&text("a")));
    assert_eq!(map.get(&text("a")), None);
}

#[test]
fn with_holds_a_value_under_a_name() {
    let map = NameMap::new().with(text("a"), true).with(text("b"), false);
    assert!(!map.is_empty());
    assert!(map.contains_key(&text("a")));
    assert_eq!(map.get(&text("a")), Some(&true));
    assert_eq!(map.get(&text("b")), Some(&false));
    assert_eq!(map.get(&text("c")), None);
}

#[test]
fn with_replaces_what_was_held_under_the_name() {
    let map = NameMap::new().with(text("a"), text("1")).with(text("a"), text("2"));
    assert_eq!(map.get(&text("a")), Some(&text("2")));
    assert!(map.same(&NameMap::new().with(text("a"), text("2"))));
}

#[test]
fn maps_are_the_same_whatever_the_order_of_their_entries() {
    let one = NameMap::new().with(text("a"), text("1")).with(text("b"), text("2"));
    let other = NameMap::new().with(text("b"), text("2")).with(text("a"), text("1"));
    assert!(one.same(&other));
    assert!(other.same(&one));
}

#[test]
fn maps_differ_by_a_value_or_by_a_name() {
    let one = NameMap::new().with(text("a"), text("1"));
    assert!(!one.same(&NameMap::new().with(text("a"), text("2"))));
    assert!(!one.same(&NameMap::new().with(text("b"), text("1"))));
    assert!(!one.same(&NameMap::new()));
    assert!(!NameMap::new().same(&one));
    assert!(!one.same(&NameMap::new().with(text("a"), text("1")).with(text("b"), text("1"))));
}

#[test]
fn duplicate_is_the_same_map() {
    let one = NameMap::new().with(text("a"), vec![text("1")]).with(text("b"), vec![]);
    let copy = one.duplicate();
    assert!(copy.same(&one));
    assert_eq!(copy.get(&text("a")), Some(&vec![text("1")]));
}

#[test]
fn keep_existing_keeps_the_values_of_the_receiver() {
    let higher = NameMap::new().with(text("a"), 1).with(text("b"), 2);
    let lower = NameMap::new().with(text("b"), 20).with(text("c"), 30);
    let merged = higher.keep_existing(lower);
    assert_eq!(merged.get(&text("a")), Some(&1));
    assert_eq!(merged.get(&text("b")), Some(&2));
    assert_eq!(merged.get(&text("c")), Some(&30));
}

#[test]
fn keep_existing_with_an_empty_map_changes_nothing() {
    let map = || NameMap::new().with(text("a"), true);
    assert!(map().keep_existing(NameMap::new()).same(&map()));
    assert!(NameMap::new().keep_existing(map()).same(&map()));
}

#[test]
fn concatenate_joins_the_lists_under_each_name() {
    let higher = NameMap::new().with(text("a"), vec![1]).with(text("b"), vec![2]);
    let lower = NameMap::new().with(text("b"), vec![3]).with(text("c"), vec![]);
    let merged = higher.concatenate(lower);
    assert_eq!(merged.get(&text("a")), Some(&vec![1]));
    assert_eq!(merged.get(&text("b")), Some(&vec![2, 3]));
    assert_eq!(merged.get(&text("c")), Some(&vec![]));
}

#[test]
fn combine_values_merges_what_both_maps_hold() {
    let higher = NameMap::new().with(text("a"), Some(vec![1])).with(text("b"), None);
    let lower = NameMap::new()
        .with(text("a"), Some(vec![2]))
        .with(text("b"), Some(vec![3]))
        .with(text("c"), Some(vec![4]));
    let merged = higher.combine_values(lower);
    assert_eq!(merged.get(&text("a")), Some(&Some(vec![1, 2])));
    assert_eq!(merged.get(&text("b")), Some(&Some(vec![3])));
    assert_eq!(merged.get(&text("c")), Some(&Some(vec![4])));
    assert_eq!(merged.get(&text("d")), None);
}

#[test]
fn plain_values_are_the_same_by_what_they_hold() {
    assert!(text("a").same(&text("a")));
    assert!(!text("a").same(&text("b")));
    assert!(Some(text("a")).same(&Some(text("a"))));
    assert!(!Some(text("a")).same(&None));
    assert!(vec![text("a"), text("b")].same(&vec![text("a"), text("b")]));
    assert!(!vec![text("a"), text("b")].same(&vec![text("b"), text("a")]));
    assert!(!vec![text("a")].same(&vec![text("a"), text("a")]));
    assert_eq!(vec![text("a"), text("b")].duplicate(), vec![text("a"), text("b")]);
    assert_eq!(Some(true).duplicate(), Some(true));
}
