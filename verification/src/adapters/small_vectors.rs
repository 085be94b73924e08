//! Vectors that keep a few items in place and move to the heap when they grow,
//! as those of the `smallvec` crate do.

use crate::size::GetSize;
use crate::tracker::{GetSizeTracker, TrackerState};
use crate::walk::{
    inline_heap_size_is, inline_heap_size_with_tracker, limited, listed_heap_size_is,
    listed_heap_size_with_tracker,
};
use vstd::prelude::*;
use vstd::std_specs::iter::IteratorSpec;
use vstd::std_specs::slice::axiom_spec_slice_iter;

verus! {

/// Whether measuring a vector that holds `items` and has room for `inline_size`
/// items in place may report `bytes` and take the tracker from `before` to
/// `after`. While the items fit in place, the vector owns what they own. Once
/// they do not, they lie on the heap, and the vector owns them whole.
pub open spec fn small_vec_heap_size_is<V: GetSize>(
    inline_size: usize,
    items: Seq<V>,
    before: TrackerState,
    bytes: usize,
    after: TrackerState,
) -> bool {
    if items.len() <= inline_size {
        inline_heap_size_is(items, before, bytes, after)
    } else {
        listed_heap_size_is(items, before, bytes, after)
    }
}

/// Measures a vector that holds `items` and has room for `inline_size` items in
/// place.
pub fn small_vec_heap_size_with_tracker<V: GetSize, T: GetSizeTracker>(
    inline_size: usize,
    items: &[V],
    tracker: T,
) -> (measured: (usize, T))
    ensures
        small_vec_heap_size_is(inline_size, items@, tracker.state(), measured.0, measured.1.state()),
        measured.1.state().extends(tracker.state()),
{
    let iter = items.iter();
    proof {
        axiom_spec_slice_iter(items);
        assert(limited(iter.remaining(), items.len()).unref() == items@);
    }
    if items.len() <= inline_size {
        inline_heap_size_with_tracker(iter, items.len(), tracker)
    } else {
        listed_heap_size_with_tracker(iter, items.len(), tracker)
    }
}

} // verus!
