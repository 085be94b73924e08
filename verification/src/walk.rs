//! Measuring the items of a collection one after another.
//!
//! The tracker goes from item to item, so a heap block that several items
//! share is counted for the first of them only. A walk reads no more items
//! than it is told that the collection holds, so it ends whatever the
//! collection hands out.

use crate::arith::{
    lemma_saturate_add, lemma_spare_bytes_nonnegative, lemma_sum_nonnegative, lemma_sum_push,
    saturate, spare_bytes, spare_capacity_bytes, sum,
};
use crate::size::{heap_measured, size_measured, GetSize};
use crate::tracker::{lemma_extends_transitive, GetSizeTracker, TrackerState};
use vstd::layout::size_of;
use vstd::prelude::*;
use vstd::std_specs::iter::IteratorSpec;

verus! {

/// Whether measuring `value` may report `bytes` and take the tracker from
/// `before` to `after`. An item that lies on the heap is measured `whole`, with
/// the size of its type in place; of an item that lies in place, only what it
/// owns on the heap is measured.
pub open spec fn measured<V: GetSize>(
    value: &V,
    whole: bool,
    before: TrackerState,
    bytes: usize,
    after: TrackerState,
) -> bool {
    if whole {
        size_measured(value, before, bytes, after)
    } else {
        heap_measured(value, before, bytes, after)
    }
}

/// Whether measuring `items` one after another may report `sizes`, item by item,
/// while the tracker passes through `states`: `states[i]` goes into the
/// measurement of item `i` and `states[i + 1]` comes out of it.
pub open spec fn items_measured<V: GetSize>(
    items: Seq<V>,
    whole: bool,
    states: Seq<TrackerState>,
    sizes: Seq<usize>,
) -> bool {
    &&& sizes.len() == items.len()
    &&& states.len() == items.len() + 1
    &&& forall|i: int|
        0 <= i < items.len() ==> measured(
            &#[trigger] items[i],
            whole,
            states[i],
            sizes[i],
            states[i + 1],
        )
}

/// Whether measuring `items` one after another, starting with a tracker in
/// state `before`, may report sizes that add up to `total` and leave the tracker
/// in state `after`.
pub open spec fn items_total_is<V: GetSize>(
    items: Seq<V>,
    whole: bool,
    before: TrackerState,
    total: int,
    after: TrackerState,
) -> bool {
    exists|states: Seq<TrackerState>, sizes: Seq<usize>| #[trigger]
        items_measured(items, whole, states, sizes) && states[0] == before && states.last()
            == after && total == sum(sizes)
}

/// Whether measuring the keys and values of `entries` one after another, each
/// key before its value, may report `key_sizes` and `value_sizes`, entry by
/// entry, while the tracker passes through `states`: `states[2 * i]` goes into
/// the measurement of key `i`, `states[2 * i + 1]` into that of value `i`, and
/// `states[2 * i + 2]` comes out of it.
pub open spec fn entries_measured<K: GetSize, V: GetSize>(
    entries: Seq<(K, V)>,
    whole: bool,
    states: Seq<TrackerState>,
    key_sizes: Seq<usize>,
    value_sizes: Seq<usize>,
) -> bool {
    &&& key_sizes.len() == entries.len()
    &&& value_sizes.len() == entries.len()
    &&& states.len() == 2 * entries.len() + 1
    &&& forall|i: int|
        0 <= i < entries.len() ==> {
            &&& measured(
                &(#[trigger] entries[i]).0,
                whole,
                states[2 * i],
                key_sizes[i],
                states[2 * i + 1],
            )
            &&& measured(
                &entries[i].1,
                whole,
                states[2 * i + 1],
                value_sizes[i],
                states[2 * i + 2],
            )
        }
}

/// Whether measuring the keys and values of `entries` one after another,
/// starting with a tracker in state `before`, may report sizes that add up to
/// `total` and leave the tracker in state `after`.
pub open spec fn entries_total_is<K: GetSize, V: GetSize>(
    entries: Seq<(K, V)>,
    whole: bool,
    before: TrackerState,
    total: int,
    after: TrackerState,
) -> bool {
    exists|states: Seq<TrackerState>, key_sizes: Seq<usize>, value_sizes: Seq<usize>| #[trigger]
        entries_measured(entries, whole, states, key_sizes, value_sizes) && states[0] == before
            && states.last() == after && total == sum(key_sizes) + sum(value_sizes)
}

/// The items that a walk over `yielded` reads when it is told that the
/// collection holds `len` items: all of them, or the first `len` where there are
/// more.
pub open spec fn limited<A>(yielded: Seq<A>, len: usize) -> Seq<A> {
    if yielded.len() <= len {
        yielded
    } else {
        yielded.take(len as int)
    }
}

/// Measures one value, whole or by what it owns on the heap.
fn measure<V: GetSize, T: GetSizeTracker>(value: &V, whole: bool, tracker: T) -> (result: (
    usize,
    T,
))
    ensures
        measured(value, whole, tracker.state(), result.0, result.1.state()),
        result.1.state().extends(tracker.state()),
{
    if whole {
        let result = value.get_size_with_tracker(tracker);
        assert(size_measured(value, tracker.state(), result.0, result.1.state())) by {
            let heap = choose|heap: usize| #[trigger]
                value.heap_size_is(tracker.state(), heap, result.1.state()) && result.0
                    == saturate(size_of::<V>() + heap);
            assert(heap_measured(value, tracker.state(), heap, result.1.state()));
        }
        result
    } else {
        value.get_heap_size_with_tracker(tracker)
    }
}

/// Measures the items that `iter` yields one after another and stops after
/// `len` of them. The ghost results tell which items were read and what their
/// sizes add up to.
pub(crate) fn measure_items<'a, V: GetSize + 'a, I: Iterator<Item = &'a V>, T: GetSizeTracker>(
    iter: I,
    len: usize,
    whole: bool,
    tracker: T,
) -> (walked: (usize, T, Ghost<Seq<V>>, Ghost<int>))
    ensures
        items_total_is(walked.2@, whole, tracker.state(), walked.3@, walked.1.state()),
        iter.obeys_prophetic_iter_laws() ==> walked.2@ == limited(iter.remaining(), len).unref(),
        0 <= walked.3@,
        walked.0 == saturate(walked.3@),
        walked.1.state().extends(tracker.state()),
{
    let ghost start = tracker.state();
    let ghost lawful = iter.obeys_prophetic_iter_laws();
    let ghost yielded = iter.remaining();
    let mut iter = iter;
    let mut tracker = tracker;
    let mut total: usize = 0;
    let ghost mut items = Seq::<V>::empty();
    let ghost mut sizes = Seq::<usize>::empty();
    let ghost mut states = seq![start];
    let mut visited: usize = 0;
    while visited < len
        invariant_except_break
            lawful ==> iter.remaining() == yielded.skip(visited as int),
        invariant
            iter.obeys_prophetic_iter_laws() == lawful,
            visited <= len,
            lawful ==> visited <= yielded.len() && items == yielded.take(visited as int).unref(),
            items.len() == visited,
            sizes.len() == visited,
            states.len() == visited + 1,
            states[0] == start,
            states.last() == tracker.state(),
            tracker.state().extends(start),
            forall|i: int|
                0 <= i < visited ==> measured(
                    &#[trigger] items[i],
                    whole,
                    states[i],
                    sizes[i],
                    states[i + 1],
                ),
            total == saturate(sum(sizes)),
        ensures
            lawful ==> visited == yielded.len() || visited == len,
        decreases len - visited,
    {
        match iter.next() {
            Some(item) => {
                let ghost entering = tracker.state();
                let (size, tracker_after) = measure(item, whole, tracker);
                tracker = tracker_after;
                proof {
                    lemma_sum_nonnegative(sizes);
                    lemma_sum_push(sizes, size);
                    lemma_saturate_add(sum(sizes), size as int);
                    lemma_extends_transitive(start, entering, tracker.state());
                    if lawful {
                        assert(yielded.skip(visited as int).drop_first() == yielded.skip(
                            visited + 1,
                        ));
                        assert(yielded.take(visited + 1).unref() == yielded.take(
                            visited as int,
                        ).unref().push(*item));
                    }
                    items = items.push(*item);
                    sizes = sizes.push(size);
                    states = states.push(tracker.state());
                }
                total = total.saturating_add(size);
                visited = visited + 1;
            },
            None => {
                break ;
            },
        }
    }
    proof {
        lemma_sum_nonnegative(sizes);
        assert(items_measured(items, whole, states, sizes));
        assert(lawful && visited == yielded.len() ==> yielded.take(visited as int) == yielded);
    }
    (total, tracker, Ghost(items), Ghost(sum(sizes)))
}

/// Measures the keys and values that `iter` yields one after another, each key
/// before its value, and stops after `len` entries. The ghost results tell which
/// entries were read and what the sizes add up to.
pub(crate) fn measure_entries<
    'a,
    K: GetSize + 'a,
    V: GetSize + 'a,
    I: Iterator<Item = (&'a K, &'a V)>,
    T: GetSizeTracker,
>(iter: I, len: usize, whole: bool, tracker: T) -> (walked: (
    usize,
    T,
    Ghost<Seq<(K, V)>>,
    Ghost<int>,
))
    ensures
        entries_total_is(walked.2@, whole, tracker.state(), walked.3@, walked.1.state()),
        iter.obeys_prophetic_iter_laws() ==> walked.2@ == limited(iter.remaining(), len).unref(),
        0 <= walked.3@,
        walked.0 == saturate(walked.3@),
        walked.1.state().extends(tracker.state()),
{
    let ghost start = tracker.state();
    let ghost lawful = iter.obeys_prophetic_iter_laws();
    let ghost yielded = iter.remaining();
    let mut iter = iter;
    let mut tracker = tracker;
    let mut total: usize = 0;
    let ghost mut entries = Seq::<(K, V)>::empty();
    let ghost mut key_sizes = Seq::<usize>::empty();
    let ghost mut value_sizes = Seq::<usize>::empty();
    let ghost mut states = seq![start];
    let mut visited: usize = 0;
    while visited < len
        invariant_except_break
            lawful ==> iter.remaining() == yielded.skip(visited as int),
        invariant
            iter.obeys_prophetic_iter_laws() == lawful,
            visited <= len,
            lawful ==> visited <= yielded.len() && entries == yielded.take(visited as int).unref(),
            entries.len() == visited,
            key_sizes.len() == visited,
            value_sizes.len() == visited,
            states.len() == 2 * visited + 1,
            states[0] == start,
            states.last() == tracker.state(),
            tracker.state().extends(start),
            forall|i: int|
                0 <= i < visited ==> {
                    &&& measured(
                        &(#[trigger] entries[i]).0,
                        whole,
                        states[2 * i],
                        key_sizes[i],
                        states[2 * i + 1],
                    )
                    &&& measured(
                        &entries[i].1,
                        whole,
                        states[2 * i + 1],
                        value_sizes[i],
                        states[2 * i + 2],
                    )
                },
            total == saturate(sum(key_sizes) + sum(value_sizes)),
        ensures
            lawful ==> visited == yielded.len() || visited == len,
        decreases len - visited,
    {
        match iter.next() {
            Some(entry) => {
                let ghost entering = tracker.state();
                let (k, v) = entry;
                let (key_size, tracker_between) = measure(k, whole, tracker);
                let ghost between = tracker_between.state();
                let (value_size, tracker_after) = measure(v, whole, tracker_between);
                tracker = tracker_after;
                proof {
                    lemma_sum_nonnegative(key_sizes);
                    lemma_sum_nonnegative(value_sizes);
                    lemma_sum_push(key_sizes, key_size);
                    lemma_sum_push(value_sizes, value_size);
                    lemma_saturate_add(sum(key_sizes) + sum(value_sizes), key_size as int);
                    lemma_saturate_add(
                        sum(key_sizes) + sum(value_sizes) + key_size,
                        value_size as int,
                    );
                    lemma_extends_transitive(start, entering, between);
                    lemma_extends_transitive(start, between, tracker.state());
                    if lawful {
                        assert(yielded.skip(visited as int).drop_first() == yielded.skip(
                            visited + 1,
                        ));
                        assert(yielded.take(visited + 1).unref() == yielded.take(
                            visited as int,
                        ).unref().push((*k, *v)));
                    }
                    entries = entries.push((*k, *v));
                    key_sizes = key_sizes.push(key_size);
                    value_sizes = value_sizes.push(value_size);
                    states = states.push(between).push(tracker.state());
                }
                total = total.saturating_add(key_size);
                total = total.saturating_add(value_size);
                visited = visited + 1;
            },
            None => {
                break ;
            },
        }
    }
    proof {
        lemma_sum_nonnegative(key_sizes);
        lemma_sum_nonnegative(value_sizes);
        assert(entries_measured(entries, whole, states, key_sizes, value_sizes));
        assert(lawful && visited == yielded.len() ==> yielded.take(visited as int) == yielded);
    }
    (total, tracker, Ghost(entries), Ghost(sum(key_sizes) + sum(value_sizes)))
}

/// Whether measuring `items` that lie in place, as in an array, may report
/// `bytes` and take the tracker from `before` to `after`: what the items own on
/// the heap, added up.
pub open spec fn inline_heap_size_is<V: GetSize>(
    items: Seq<V>,
    before: TrackerState,
    bytes: usize,
    after: TrackerState,
) -> bool {
    exists|total: int| #[trigger]
        items_total_is(items, false, before, total, after) && bytes == saturate(total)
}

/// Whether measuring `items` that lie on the heap, each by itself or all in a
/// block that fits them exactly, may report `bytes` and take the tracker from
/// `before` to `after`: the total sizes of the items, added up.
pub open spec fn listed_heap_size_is<V: GetSize>(
    items: Seq<V>,
    before: TrackerState,
    bytes: usize,
    after: TrackerState,
) -> bool {
    exists|total: int| #[trigger]
        items_total_is(items, true, before, total, after) && bytes == saturate(total)
}

/// Whether measuring a collection that keeps `items` in a buffer with room for
/// `capacity` items, of which the collection says that it holds `len`, may
/// report `bytes` and take the tracker from `before` to `after`: the total sizes
/// of the items and, for every slot that is allocated and unused, the size of
/// one item in place.
pub open spec fn buffered_heap_size_is<V: GetSize>(
    capacity: usize,
    len: usize,
    items: Seq<V>,
    before: TrackerState,
    bytes: usize,
    after: TrackerState,
) -> bool {
    exists|total: int| #[trigger]
        items_total_is(items, true, before, total, after) && bytes == saturate(
            total + spare_bytes(capacity, len, size_of::<V>() as usize),
        )
}

/// Measures items that lie in place, as those of an array do. `items` walks over
/// them and `len` is their number. No more than `len` items are read, and of a
/// walk that keeps the laws of iterators, the first `len` are.
pub fn inline_heap_size_with_tracker<
    'a,
    V: GetSize + 'a,
    I: Iterator<Item = &'a V>,
    T: GetSizeTracker,
>(items: I, len: usize, tracker: T) -> (measured: (usize, T))
    ensures
        exists|read: Seq<V>|
            {
                &&& items.obeys_prophetic_iter_laws() ==> read == limited(
                    items.remaining(),
                    len,
                ).unref()
                &&& #[trigger] inline_heap_size_is(
                    read,
                    tracker.state(),
                    measured.0,
                    measured.1.state(),
                )
            },
        measured.1.state().extends(tracker.state()),
{
    let (total, tracker_after, Ghost(read), Ghost(sum)) = measure_items(
        items,
        len,
        false,
        tracker,
    );
    let measured = (total, tracker_after);
    assert(inline_heap_size_is(read, tracker.state(), measured.0, measured.1.state()));
    measured
}

/// Measures a collection that puts each item on the heap by itself, as a linked
/// list does, or all items in a block that fits them exactly, as a boxed slice
/// does. `items` walks over the collection and `len` is the number of items
/// that it holds. No more than `len` items are read, and of a walk that keeps the
/// laws of iterators, the first `len` are.
pub fn listed_heap_size_with_tracker<
    'a,
    V: GetSize + 'a,
    I: Iterator<Item = &'a V>,
    T: GetSizeTracker,
>(items: I, len: usize, tracker: T) -> (measured: (usize, T))
    ensures
        exists|read: Seq<V>|
            {
                &&& items.obeys_prophetic_iter_laws() ==> read == limited(
                    items.remaining(),
                    len,
                ).unref()
                &&& #[trigger] listed_heap_size_is(
                    read,
                    tracker.state(),
                    measured.0,
                    measured.1.state(),
                )
            },
        measured.1.state().extends(tracker.state()),
{
    let (total, tracker_after, Ghost(read), Ghost(sum)) = measure_items(items, len, true, tracker);
    let measured = (total, tracker_after);
    assert(listed_heap_size_is(read, tracker.state(), measured.0, measured.1.state()));
    measured
}

/// Measures a collection that keeps its items in a buffer with room for
/// `capacity` of them, as a binary heap does. `items` walks over the collection
/// and `len` is the number of items that it holds. No more than `len` items are
/// read, and of a walk that keeps the laws of iterators, the first `len` are.
pub fn buffered_heap_size_with_tracker<
    'a,
    V: GetSize + 'a,
    I: Iterator<Item = &'a V>,
    T: GetSizeTracker,
>(capacity: usize, items: I, len: usize, tracker: T) -> (measured: (usize, T))
    ensures
        exists|read: Seq<V>|
            {
                &&& items.obeys_prophetic_iter_laws() ==> read == limited(
                    items.remaining(),
                    len,
                ).unref()
                &&& #[trigger] buffered_heap_size_is(
                    capacity,
                    len,
                    read,
                    tracker.state(),
                    measured.0,
                    measured.1.state(),
                )
            },
        measured.1.state().extends(tracker.state()),
{
    let (total, tracker_after, Ghost(read), Ghost(sum)) = measure_items(items, len, true, tracker);
    let spare = spare_capacity_bytes(capacity, len, V::get_stack_size());
    proof {
        lemma_spare_bytes_nonnegative(capacity, len, size_of::<V>() as usize);
        lemma_saturate_add(sum, spare_bytes(capacity, len, size_of::<V>() as usize));
    }
    let measured = (total.saturating_add(spare), tracker_after);
    assert(buffered_heap_size_is(
        capacity,
        len,
        read,
        tracker.state(),
        measured.0,
        measured.1.state(),
    ));
    measured
}

/// Whether measuring a map that puts each of `entries` on the heap by itself
/// may report `bytes` and take the tracker from `before` to `after`: the total
/// sizes of the keys and values, added up.
pub open spec fn listed_entries_heap_size_is<K: GetSize, V: GetSize>(
    entries: Seq<(K, V)>,
    before: TrackerState,
    bytes: usize,
    after: TrackerState,
) -> bool {
    exists|total: int| #[trigger]
        entries_total_is(entries, true, before, total, after) && bytes == saturate(total)
}

/// Whether measuring a map that keeps `entries` in a table with room for
/// `capacity` entries, of which the map says that it holds `len`, may report
/// `bytes` and take the tracker from `before` to `after`: the total sizes of the
/// keys and values and, for every entry that there is room for and that is
/// unused, the size of a key and of a value in place.
pub open spec fn buffered_entries_heap_size_is<K: GetSize, V: GetSize>(
    capacity: usize,
    len: usize,
    entries: Seq<(K, V)>,
    before: TrackerState,
    bytes: usize,
    after: TrackerState,
) -> bool {
    exists|total: int| #[trigger]
        entries_total_is(entries, true, before, total, after) && bytes == saturate(
            total + spare_bytes(capacity, len, size_of::<K>() as usize) + spare_bytes(
                capacity,
                len,
                size_of::<V>() as usize,
            ),
        )
}

/// Measures a map that puts each entry on the heap by itself, as an ordered map
/// does. `entries` walks over the map and `len` is the number of entries that it
/// holds. No more than `len` entries are read, and of a walk that keeps the laws
/// of iterators, the first `len` are.
pub fn listed_entries_heap_size_with_tracker<
    'a,
    K: GetSize + 'a,
    V: GetSize + 'a,
    I: Iterator<Item = (&'a K, &'a V)>,
    T: GetSizeTracker,
>(entries: I, len: usize, tracker: T) -> (measured: (usize, T))
    ensures
        exists|read: Seq<(K, V)>|
            {
                &&& entries.obeys_prophetic_iter_laws() ==> read == limited(
                    entries.remaining(),
                    len,
                ).unref()
                &&& #[trigger] listed_entries_heap_size_is(
                    read,
                    tracker.state(),
                    measured.0,
                    measured.1.state(),
                )
            },
        measured.1.state().extends(tracker.state()),
{
    let (total, tracker_after, Ghost(read), Ghost(sum)) = measure_entries(
        entries,
        len,
        true,
        tracker,
    );
    let measured = (total, tracker_after);
    assert(listed_entries_heap_size_is(read, tracker.state(), measured.0, measured.1.state()));
    measured
}

/// Measures a map that keeps its entries in a table with room for `capacity` of
/// them, as a hash map does. `entries` walks over the map and `len` is the
/// number of entries that it holds. No more than `len` entries are read, and of
/// a walk that keeps the laws of iterators, the first `len` are.
pub fn buffered_entries_heap_size_with_tracker<
    'a,
    K: GetSize + 'a,
    V: GetSize + 'a,
    I: Iterator<Item = (&'a K, &'a V)>,
    T: GetSizeTracker,
>(capacity: usize, entries: I, len: usize, tracker: T) -> (measured: (usize, T))
    ensures
        exists|read: Seq<(K, V)>|
            {
                &&& entries.obeys_prophetic_iter_laws() ==> read == limited(
                    entries.remaining(),
                    len,
                ).unref()
                &&& #[trigger] buffered_entries_heap_size_is(
                    capacity,
                    len,
                    read,
                    tracker.state(),
                    measured.0,
                    measured.1.state(),
                )
            },
        measured.1.state().extends(tracker.state()),
{
    let (live, tracker_after, Ghost(read), Ghost(sum)) = measure_entries(
        entries,
        len,
        true,
        tracker,
    );
    let key_spare = spare_capacity_bytes(capacity, len, K::get_stack_size());
    let value_spare = spare_capacity_bytes(capacity, len, V::get_stack_size());
    proof {
        let key_slots = spare_bytes(capacity, len, size_of::<K>() as usize);
        let value_slots = spare_bytes(capacity, len, size_of::<V>() as usize);
        lemma_spare_bytes_nonnegative(capacity, len, size_of::<K>() as usize);
        lemma_spare_bytes_nonnegative(capacity, len, size_of::<V>() as usize);
        lemma_saturate_add(sum, key_slots);
        lemma_saturate_add(sum + key_slots, value_slots);
    }
    let total = live.saturating_add(key_spare).saturating_add(value_spare);
    let measured = (total, tracker_after);
    assert(buffered_entries_heap_size_is(
        capacity,
        len,
        read,
        tracker.state(),
        measured.0,
        measured.1.state(),
    ));
    measured
}

} // verus!
