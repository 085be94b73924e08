//! Ordered maps and sets of the standard library. They allocate node by node,
//! so there is no spare capacity to account for.

use crate::maps::{entries_of, items_of};
use crate::size::GetSize;
use crate::tracker::{GetSizeTracker, TrackerState};
use crate::walk::{
    limited, listed_entries_heap_size_is, listed_entries_heap_size_with_tracker,
    listed_heap_size_is, listed_heap_size_with_tracker,
};
use std::collections::{BTreeMap, BTreeSet};
use vstd::prelude::*;
use vstd::std_specs::btree::{
    axiom_spec_btree_keys_iter, axiom_spec_btree_map_iter, axiom_spec_btree_map_len,
    axiom_spec_btree_set_len, key_obeys_cmp_spec,
};
use vstd::std_specs::iter::IteratorSpec;

verus! {

/// Whether measuring an ordered map may report `bytes` and take the tracker
/// from `before` to `after`: the total sizes of the keys and values that walking
/// over the map meets. Where the keys are ordered as a map needs it, the entries
/// that the walk meets are those of the map, each once.
pub open spec fn btree_map_heap_size_is<K: GetSize, V: GetSize>(
    map: &BTreeMap<K, V>,
    before: TrackerState,
    bytes: usize,
    after: TrackerState,
) -> bool {
    exists|entries: Seq<(K, V)>|
        {
            &&& key_obeys_cmp_spec::<K>() ==> entries_of(entries, map@)
            &&& #[trigger] listed_entries_heap_size_is(entries, before, bytes, after)
        }
}

impl<K: GetSize, V: GetSize> GetSize for BTreeMap<K, V> {
    open spec fn heap_size_is(&self, before: TrackerState, bytes: usize, after: TrackerState) -> bool {
        btree_map_heap_size_is(self, before, bytes, after)
    }

    fn get_heap_size_with_tracker<T: GetSizeTracker>(&self, tracker: T) -> (measured: (usize, T)) {
        let iter = self.iter();
        let measured = listed_entries_heap_size_with_tracker(iter, self.len(), tracker);
        proof {
            let read = choose|read: Seq<(K, V)>|
                {
                    &&& read == limited(iter.remaining(), self.len()).unref()
                    &&& #[trigger] listed_entries_heap_size_is(
                        read,
                        tracker.state(),
                        measured.0,
                        measured.1.state(),
                    )
                };
            if key_obeys_cmp_spec::<K>() {
                axiom_spec_btree_map_iter(self);
                axiom_spec_btree_map_len(self);
                assert(entries_of(read, self@));
            }
        }
        measured
    }
}

/// Whether measuring an ordered set may report `bytes` and take the tracker
/// from `before` to `after`: the total sizes of the items that walking over the
/// set meets. Where the items are ordered as a set needs it, the items that the
/// walk meets are those of the set, each once.
pub open spec fn btree_set_heap_size_is<V: GetSize>(
    set: &BTreeSet<V>,
    before: TrackerState,
    bytes: usize,
    after: TrackerState,
) -> bool {
    exists|items: Seq<V>|
        {
            &&& key_obeys_cmp_spec::<V>() ==> items_of(items, set@)
            &&& #[trigger] listed_heap_size_is(items, before, bytes, after)
        }
}

impl<V: GetSize> GetSize for BTreeSet<V> {
    open spec fn heap_size_is(&self, before: TrackerState, bytes: usize, after: TrackerState) -> bool {
        btree_set_heap_size_is(self, before, bytes, after)
    }

    fn get_heap_size_with_tracker<T: GetSizeTracker>(&self, tracker: T) -> (measured: (usize, T)) {
        let iter = self.iter();
        let measured = listed_heap_size_with_tracker(iter, self.len(), tracker);
        proof {
            let read = choose|read: Seq<V>|
                {
                    &&& read == limited(iter.remaining(), self.len()).unref()
                    &&& #[trigger] listed_heap_size_is(
                        read,
                        tracker.state(),
                        measured.0,
                        measured.1.state(),
                    )
                };
            if key_obeys_cmp_spec::<V>() {
                axiom_spec_btree_keys_iter(self);
                axiom_spec_btree_set_len(self);
                assert(items_of(read, self@));
            }
        }
        measured
    }
}

} // verus!
