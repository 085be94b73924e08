//! The size-accounting interface.

use crate::arith::saturate;
use crate::tracker::{GetSizeTracker, StandardTracker, TrackerState};
use vstd::layout::size_of;
use vstd::prelude::*;

verus! {

/// Reports how many bytes a value occupies.
///
/// A measurement threads a tracker through every value that it visits, so that
/// a heap block with several owners is counted once. What a measurement reports
/// is not always a function of the value as the contracts see it: how much a
/// buffer has allocated and where a shared block lies are decided elsewhere. So
/// the specification of a type is a relation, [`GetSize::heap_size_is`], which
/// says what a measurement may report, and every method promises a result that
/// the relation admits.
pub trait GetSize: Sized {
    /// Whether measuring what `self` owns on the heap, with a tracker that is in
    /// state `before`, may report `bytes` and leave the tracker in state
    /// `after`. Unless a type says otherwise, a value owns nothing on the heap
    /// and the tracker is not consulted.
    open spec fn heap_size_is(&self, before: TrackerState, bytes: usize, after: TrackerState) -> bool {
        bytes == 0 && after == before
    }

    /// The number of bytes that one value of this type occupies in place.
    fn get_stack_size() -> (bytes: usize)
        ensures
            bytes == size_of::<Self>(),
    {
        core::mem::size_of::<Self>()
    }

    /// The number of bytes that `self` owns on the heap, measured with a tracker
    /// of its own that has seen nothing before and is dropped afterwards.
    fn get_heap_size(&self) -> (bytes: usize)
        ensures
            exists|after: TrackerState| #[trigger]
                self.heap_size_is(TrackerState::fresh(), bytes, after) && after.extends(
                    TrackerState::fresh(),
                ),
    {
        let tracker = StandardTracker::default();
        let measured = self.get_heap_size_with_tracker(tracker);
        assert(self.heap_size_is(TrackerState::fresh(), measured.0, measured.1.state()));
        measured.0
    }

    /// The number of bytes that `self` owns on the heap and that `tracker` has
    /// not seen counted before, with the tracker as the measurement leaves it.
    fn get_heap_size_with_tracker<T: GetSizeTracker>(&self, tracker: T) -> (measured: (usize, T))
        ensures
            self.heap_size_is(tracker.state(), measured.0, measured.1.state()),
            measured.1.state().extends(tracker.state()),
    ;

    /// The total size of `self`: its stack size and its heap size together.
    fn get_size(&self) -> (bytes: usize)
        ensures
            exists|heap: usize, after: TrackerState| #[trigger]
                self.heap_size_is(TrackerState::fresh(), heap, after) && after.extends(
                    TrackerState::fresh(),
                ) && bytes == saturate(size_of::<Self>() + heap),
    {
        let stack_size = Self::get_stack_size();
        let heap_size = self.get_heap_size();
        stack_size.saturating_add(heap_size)
    }

    /// The total size of `self` as a measurement with `tracker` counts it.
    fn get_size_with_tracker<T: GetSizeTracker>(&self, tracker: T) -> (measured: (usize, T))
        ensures
            exists|heap: usize| #[trigger]
                self.heap_size_is(tracker.state(), heap, measured.1.state()) && measured.0
                    == saturate(size_of::<Self>() + heap),
            measured.1.state().extends(tracker.state()),
    {
        let stack_size = Self::get_stack_size();
        let (heap_size, tracker_after) = self.get_heap_size_with_tracker(tracker);
        let total = stack_size.saturating_add(heap_size);
        let measured = (total, tracker_after);
        assert(self.heap_size_is(tracker.state(), heap_size, measured.1.state()));
        measured
    }
}

/// Whether measuring what `value` owns on the heap, with a tracker in state
/// `before`, may report `bytes` and leave the tracker in state `after`, which
/// has forgotten nothing. This is what [`GetSize::get_heap_size_with_tracker`]
/// promises of its result.
pub open spec fn heap_measured<V: GetSize>(
    value: &V,
    before: TrackerState,
    bytes: usize,
    after: TrackerState,
) -> bool {
    value.heap_size_is(before, bytes, after) && after.extends(before)
}

/// Whether measuring the total size of `value`, with a tracker in state
/// `before`, may report `bytes` and leave the tracker in state `after`: the size
/// of the type in place and a heap size of the value, added up. This is what
/// [`GetSize::get_size_with_tracker`] promises of its result.
pub open spec fn size_measured<V: GetSize>(
    value: &V,
    before: TrackerState,
    bytes: usize,
    after: TrackerState,
) -> bool {
    exists|heap: usize| #[trigger]
        heap_measured(value, before, heap, after) && bytes == saturate(size_of::<V>() + heap)
}

} // verus!
