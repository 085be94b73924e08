//! Hash tables that report how much they have allocated, as those of the
//! `hashbrown` crate do.
//!
//! The allocation of such a table covers its slots, used or not. What the items
//! own beyond their place in a slot comes on top.

use crate::arith::{lemma_saturate_add, saturate};
use crate::size::GetSize;
use crate::tracker::{GetSizeTracker, TrackerState};
use crate::walk::{entries_total_is, items_total_is, limited, measure_entries, measure_items};
use vstd::prelude::*;
use vstd::std_specs::iter::IteratorSpec;

verus! {

/// Whether measuring a table that has allocated `allocation_size` bytes and
/// holds `items` may report `bytes` and take the tracker from `before` to
/// `after`: the allocation, and what each item owns on the heap.
pub open spec fn allocated_table_heap_size_is<V: GetSize>(
    allocation_size: usize,
    items: Seq<V>,
    before: TrackerState,
    bytes: usize,
    after: TrackerState,
) -> bool {
    exists|total: int| #[trigger]
        items_total_is(items, false, before, total, after) && bytes == saturate(
            allocation_size + total,
        )
}

/// Whether measuring a map that has allocated `allocation_size` bytes and holds
/// `entries` may report `bytes` and take the tracker from `before` to `after`:
/// the allocation, and what each key and each value owns on the heap.
pub open spec fn allocated_map_heap_size_is<K: GetSize, V: GetSize>(
    allocation_size: usize,
    entries: Seq<(K, V)>,
    before: TrackerState,
    bytes: usize,
    after: TrackerState,
) -> bool {
    exists|total: int| #[trigger]
        entries_total_is(entries, false, before, total, after) && bytes == saturate(
            allocation_size + total,
        )
}

/// Measures a table or set that has allocated `allocation_size` bytes for its
/// slots. `items` walks over the table and `len` is the number of items that it
/// holds. No more than `len` items are read, and of a walk that keeps the laws
/// of iterators, the first `len` are.
pub fn allocated_table_heap_size_with_tracker<
    'a,
    V: GetSize + 'a,
    I: Iterator<Item = &'a V>,
    T: GetSizeTracker,
>(allocation_size: usize, items: I, len: usize, tracker: T) -> (measured: (usize, T))
    ensures
        exists|read: Seq<V>|
            {
                &&& items.obeys_prophetic_iter_laws() ==> read == limited(
                    items.remaining(),
                    len,
                ).unref()
                &&& #[trigger] allocated_table_heap_size_is(
                    allocation_size,
                    read,
                    tracker.state(),
                    measured.0,
                    measured.1.state(),
                )
            },
        measured.1.state().extends(tracker.state()),
{
    let (total, tracker_after, Ghost(read), Ghost(sum)) = measure_items(
        items,
        len,
        false,
        tracker,
    );
    proof {
        lemma_saturate_add(allocation_size as int, sum);
    }
    let measured = (allocation_size.saturating_add(total), tracker_after);
    assert(allocated_table_heap_size_is(
        allocation_size,
        read,
        tracker.state(),
        measured.0,
        measured.1.state(),
    ));
    measured
}

/// Measures a map that has allocated `allocation_size` bytes for its slots.
/// `entries` walks over the map and `len` is the number of entries that it
/// holds. No more than `len` entries are read, and of a walk that keeps the laws
/// of iterators, the first `len` are.
pub fn allocated_map_heap_size_with_tracker<
    'a,
    K: GetSize + 'a,
    V: GetSize + 'a,
    I: Iterator<Item = (&'a K, &'a V)>,
    T: GetSizeTracker,
>(allocation_size: usize, entries: I, len: usize, tracker: T) -> (measured: (usize, T))
    ensures
        exists|read: Seq<(K, V)>|
            {
                &&& entries.obeys_prophetic_iter_laws() ==> read == limited(
                    entries.remaining(),
                    len,
                ).unref()
                &&& #[trigger] allocated_map_heap_size_is(
                    allocation_size,
                    read,
                    tracker.state(),
                    measured.0,
                    measured.1.state(),
                )
            },
        measured.1.state().extends(tracker.state()),
{
    let (total, tracker_after, Ghost(read), Ghost(sum)) = measure_entries(
        entries,
        len,
        false,
        tracker,
    );
    proof {
        lemma_saturate_add(allocation_size as int, sum);
    }
    let measured = (allocation_size.saturating_add(total), tracker_after);
    assert(allocated_map_heap_size_is(
        allocation_size,
        read,
        tracker.state(),
        measured.0,
        measured.1.state(),
    ));
    measured
}

} // verus!
