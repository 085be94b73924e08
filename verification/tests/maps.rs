use std::collections::{BTreeMap, BTreeSet, HashMap, HashSet};
use std::mem::size_of;
use std::rc::Rc;

use get_size2::size::GetSize;

#[test]
fn hash_map_counts_entries_and_spare_room() {
    let mut map: HashMap<String, String> = HashMap::with_capacity(16);
    map.insert("key".into(), "value".into());
    map.insert("other".into(), "entry".into());
    let entries = 2 * (size_of::<String>() + size_of::<String>()) + 3 + 5 + 5 + 5;
    let spare = (map.capacity() - map.len()) * (size_of::<String>() + size_of::<String>());
    assert!(map.capacity() >= 16);
    assert_eq!(map.get_heap_size(), entries + spare);
    assert_eq!(map.get_size(), size_of::<HashMap<String, String>>() + entries + spare);
}

#[test]
fn hash_map_of_scalars_is_charged_by_capacity() {
    let mut map: HashMap<u64, u32> = HashMap::with_capacity(100);
    let capacity = map.capacity();
    assert_eq!(map.get_heap_size(), capacity * 12);
    map.insert(1, 2);
    map.insert(3, 4);
    assert_eq!(map.capacity(), capacity);
    assert_eq!(map.get_heap_size(), capacity * 12);
    map.remove(&1);
    assert_eq!(map.get_heap_size(), capacity * 12);
}

#[test]
fn empty_maps_and_sets_own_nothing() {
    assert_eq!(HashMap::<String, String>::new().get_heap_size(), 0);
    assert_eq!(HashSet::<String>::new().get_heap_size(), 0);
    assert_eq!(BTreeMap::<String, String>::new().get_heap_size(), 0);
    assert_eq!(BTreeSet::<String>::new().get_heap_size(), 0);
}

#[test]
fn hash_set_counts_items_and_spare_room() {
    let mut set: HashSet<String> = HashSet::with_capacity(8);
    set.insert("Hello".into());
    let spare = (set.capacity() - 1) * size_of::<String>();
    assert_eq!(set.get_heap_size(), size_of::<String>() + 5 + spare);

    let mut numbers: HashSet<u16> = HashSet::with_capacity(32);
    numbers.insert(1);
    numbers.insert(2);
    assert_eq!(numbers.get_heap_size(), numbers.capacity() * 2);
}

#[test]
fn btree_map_counts_its_entries_only() {
    let mut map: BTreeMap<u64, String> = BTreeMap::new();
    map.insert(1, "one".into());
    map.insert(2, "three".into());
    map.insert(3, String::new());
    assert_eq!(map.get_heap_size(), 3 * (8 + size_of::<String>()) + 3 + 5);
}

#[test]
fn btree_set_counts_its_items_only() {
    let mut set: BTreeSet<String> = BTreeSet::new();
    set.insert("b".into());
    set.insert("a".into());
    set.insert("cc".into());
    assert_eq!(set.get_heap_size(), 3 * size_of::<String>() + 4);
    let numbers: BTreeSet<u32> = (0..10).collect();
    assert_eq!(numbers.get_heap_size(), 40);
}

#[test]
fn shared_values_of_a_map_are_counted_once() {
    let text = Rc::new(String::from("Hello"));
    let mut map: BTreeMap<u8, Rc<String>> = BTreeMap::new();
    map.insert(1, Rc::clone(&text));
    map.insert(2, Rc::clone(&text));
    map.insert(3, text);
    assert_eq!(
        map.get_heap_size(),
        3 * (1 + size_of::<Rc<String>>()) + size_of::<String>() + 5
    );
}
