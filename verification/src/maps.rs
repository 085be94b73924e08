//! Hash maps and hash sets of the standard library.

use crate::size::GetSize;
use crate::tracker::{GetSizeTracker, TrackerState};
use crate::walk::{
    buffered_entries_heap_size_is, buffered_entries_heap_size_with_tracker, buffered_heap_size_is,
    buffered_heap_size_with_tracker, limited,
};
use std::collections::{HashMap, HashSet};
use std::hash::BuildHasher;
use vstd::prelude::*;
use vstd::std_specs::hash::{
    axiom_spec_hash_keys_iter, axiom_spec_hash_map_iter, axiom_spec_hash_map_len,
    axiom_spec_hash_set_len, builds_valid_hashers, obeys_key_model, spec_hash_map_len,
    spec_hash_set_len,
};
use vstd::std_specs::iter::IteratorSpec;

verus! {

/// Whether `entries` lists the entries of `map`, each once, in some order.
pub open spec fn entries_of<K, V>(entries: Seq<(K, V)>, map: Map<K, V>) -> bool {
    &&& entries.no_duplicates()
    &&& entries.to_set() == map.kv_pairs()
}

/// Whether `items` lists the items of `set`, each once, in some order.
pub open spec fn items_of<V>(items: Seq<V>, set: Set<V>) -> bool {
    &&& items.no_duplicates()
    &&& items.to_set() == set
}

/// Whether measuring a hash map may report `bytes` and take the tracker from
/// `before` to `after`: for some capacity, the total sizes of the keys and values
/// that walking over the map meets and, for every entry that there is room for
/// and that is unused, the size of a key and of a value in place. Where the keys
/// hash as a map needs it, the entries that the walk meets are those of the map,
/// each once.
pub open spec fn hash_map_heap_size_is<K: GetSize, V: GetSize, S>(
    map: &HashMap<K, V, S>,
    before: TrackerState,
    bytes: usize,
    after: TrackerState,
) -> bool {
    exists|capacity: usize, entries: Seq<(K, V)>|
        {
            &&& obeys_key_model::<K>() && builds_valid_hashers::<S>() ==> entries_of(entries, map@)
            &&& #[trigger] buffered_entries_heap_size_is(
                capacity,
                spec_hash_map_len(map),
                entries,
                before,
                bytes,
                after,
            )
        }
}

/// How many entries `map` can hold without allocating again, as
/// `HashMap::capacity` gives it. Nothing is claimed of the number.
#[verifier::external_body]
fn hash_map_capacity<K, V, S>(map: &HashMap<K, V, S>) -> (capacity: usize) {
    map.capacity()
}

impl<K: GetSize, V: GetSize, S: BuildHasher> GetSize for HashMap<K, V, S> {
    open spec fn heap_size_is(&self, before: TrackerState, bytes: usize, after: TrackerState) -> bool {
        hash_map_heap_size_is(self, before, bytes, after)
    }

    fn get_heap_size_with_tracker<T: GetSizeTracker>(&self, tracker: T) -> (measured: (usize, T)) {
        let iter = self.iter();
        let capacity = hash_map_capacity(self);
        let measured = buffered_entries_heap_size_with_tracker(capacity, iter, self.len(), tracker);
        proof {
            let read = choose|read: Seq<(K, V)>|
                {
                    &&& read == limited(iter.remaining(), self.len()).unref()
                    &&& #[trigger] buffered_entries_heap_size_is(
                        capacity,
                        self.len(),
                        read,
                        tracker.state(),
                        measured.0,
                        measured.1.state(),
                    )
                };
            if obeys_key_model::<K>() && builds_valid_hashers::<S>() {
                axiom_spec_hash_map_iter(self);
                axiom_spec_hash_map_len(self);
                assert(entries_of(read, self@));
            }
        }
        measured
    }
}

/// Whether measuring a hash set may report `bytes` and take the tracker from
/// `before` to `after`: for some capacity, the total sizes of the items that
/// walking over the set meets and, for every item that there is room for and
/// that is unused, the size of an item in place. Where the items hash as a set
/// needs it, the items that the walk meets are those of the set, each once.
pub open spec fn hash_set_heap_size_is<V: GetSize, S>(
    set: &HashSet<V, S>,
    before: TrackerState,
    bytes: usize,
    after: TrackerState,
) -> bool {
    exists|capacity: usize, items: Seq<V>|
        {
            &&& obeys_key_model::<V>() && builds_valid_hashers::<S>() ==> items_of(items, set@)
            &&& #[trigger] buffered_heap_size_is(
                capacity,
                spec_hash_set_len(set),
                items,
                before,
                bytes,
                after,
            )
        }
}

/// How many items `set` can hold without allocating again, as
/// `HashSet::capacity` gives it. Nothing is claimed of the number.
#[verifier::external_body]
fn hash_set_capacity<V, S>(set: &HashSet<V, S>) -> (capacity: usize) {
    set.capacity()
}

impl<V: GetSize, S: BuildHasher> GetSize for HashSet<V, S> {
    open spec fn heap_size_is(&self, before: TrackerState, bytes: usize, after: TrackerState) -> bool {
        hash_set_heap_size_is(self, before, bytes, after)
    }

    fn get_heap_size_with_tracker<T: GetSizeTracker>(&self, tracker: T) -> (measured: (usize, T)) {
        let iter = self.iter();
        let capacity = hash_set_capacity(self);
        let measured = buffered_heap_size_with_tracker(capacity, iter, self.len(), tracker);
        proof {
            let read = choose|read: Seq<V>|
                {
                    &&& read == limited(iter.remaining(), self.len()).unref()
                    &&& #[trigger] buffered_heap_size_is(
                        capacity,
                        self.len(),
                        read,
                        tracker.state(),
                        measured.0,
                        measured.1.state(),
                    )
                };
            if obeys_key_model::<V>() && builds_valid_hashers::<S>() {
                axiom_spec_hash_keys_iter(self);
                axiom_spec_hash_set_len(self);
                assert(items_of(read, self@));
            }
        }
        measured
    }
}

} // verus!
