//! Ranges. The bounds of a range lie in place, so a range owns what its bounds
//! own and nothing more. The lower bound is measured before the upper one.

use crate::arith::saturate;
use crate::size::{heap_measured, GetSize};
use crate::tracker::{lemma_extends_transitive, GetSizeTracker, TrackerState};
use std::ops::{Range, RangeFrom, RangeFull, RangeInclusive, RangeTo, RangeToInclusive};
use vstd::prelude::*;

verus! {

/// Whether measuring two bounds one after the other may report `bytes` and take
/// the tracker from `before` to `after`: what the bounds own on the heap, added
/// up.
pub open spec fn bounds_heap_size_is<I: GetSize>(
    start: &I,
    end: &I,
    before: TrackerState,
    bytes: usize,
    after: TrackerState,
) -> bool {
    exists|start_size: usize, between: TrackerState, end_size: usize|
        #![trigger heap_measured(start, before, start_size, between), heap_measured(end, between, end_size, after)]
        {
            &&& heap_measured(start, before, start_size, between)
            &&& heap_measured(end, between, end_size, after)
            &&& bytes == saturate(start_size + end_size)
        }
}

/// Measures two bounds one after the other.
fn bounds_heap_size_with_tracker<I: GetSize, T: GetSizeTracker>(
    start: &I,
    end: &I,
    tracker: T,
) -> (measured: (usize, T))
    ensures
        bounds_heap_size_is(start, end, tracker.state(), measured.0, measured.1.state()),
        measured.1.state().extends(tracker.state()),
{
    let (start_size, tracker_between) = start.get_heap_size_with_tracker(tracker);
    let (end_size, tracker_after) = end.get_heap_size_with_tracker(tracker_between);
    proof {
        lemma_extends_transitive(tracker.state(), tracker_between.state(), tracker_after.state());
    }
    let measured = (start_size.saturating_add(end_size), tracker_after);
    assert(heap_measured(start, tracker.state(), start_size, tracker_between.state()));
    assert(heap_measured(end, tracker_between.state(), end_size, measured.1.state()));
    measured
}

impl<I: GetSize> GetSize for Range<I> {
    open spec fn heap_size_is(&self, before: TrackerState, bytes: usize, after: TrackerState) -> bool {
        bounds_heap_size_is(&self.start, &self.end, before, bytes, after)
    }

    fn get_heap_size_with_tracker<T: GetSizeTracker>(&self, tracker: T) -> (measured: (usize, T)) {
        bounds_heap_size_with_tracker(&self.start, &self.end, tracker)
    }
}

/// The lower bound of `range`, as `RangeInclusive::start` gives it: the bound
/// that the range was made with, unless the range has been walked to its end.
#[verifier::external_body]
fn range_inclusive_start<I>(range: &RangeInclusive<I>) -> (start: &I)
    ensures
        !range@.exhausted ==> *start == range@.start,
{
    range.start()
}

/// The upper bound of `range`, as `RangeInclusive::end` gives it: the bound that
/// the range was made with, unless the range has been walked to its end.
#[verifier::external_body]
fn range_inclusive_end<I>(range: &RangeInclusive<I>) -> (end: &I)
    ensures
        !range@.exhausted ==> *end == range@.end,
{
    range.end()
}

impl<I: GetSize> GetSize for RangeInclusive<I> {
    /// What the bounds own counts. Of a range that has been walked to its end,
    /// the bounds are what is left of them.
    open spec fn heap_size_is(&self, before: TrackerState, bytes: usize, after: TrackerState) -> bool {
        exists|start: I, end: I|
            {
                &&& !self@.exhausted ==> start == self@.start && end == self@.end
                &&& #[trigger] bounds_heap_size_is(&start, &end, before, bytes, after)
            }
    }

    fn get_heap_size_with_tracker<T: GetSizeTracker>(&self, tracker: T) -> (measured: (usize, T)) {
        let start = range_inclusive_start(self);
        let end = range_inclusive_end(self);
        let measured = bounds_heap_size_with_tracker(start, end, tracker);
        assert(bounds_heap_size_is(start, end, tracker.state(), measured.0, measured.1.state()));
        measured
    }
}

/// `std::ops::RangeFrom`, a range with a lower bound only. Its one field,
/// `start`, is public and is read as it is.
#[verifier::external_type_specification]
#[verifier::reject_recursive_types(Idx)]
pub struct ExRangeFrom<Idx>(std::ops::RangeFrom<Idx>);

impl<I: GetSize> GetSize for RangeFrom<I> {
    open spec fn heap_size_is(&self, before: TrackerState, bytes: usize, after: TrackerState) -> bool {
        heap_measured(&self.start, before, bytes, after)
    }

    fn get_heap_size_with_tracker<T: GetSizeTracker>(&self, tracker: T) -> (measured: (usize, T)) {
        self.start.get_heap_size_with_tracker(tracker)
    }
}

/// `std::ops::RangeTo`, a range with an upper bound only. Its one field, `end`,
/// is public and is read as it is.
#[verifier::external_type_specification]
#[verifier::reject_recursive_types(Idx)]
pub struct ExRangeTo<Idx>(std::ops::RangeTo<Idx>);

impl<I: GetSize> GetSize for RangeTo<I> {
    open spec fn heap_size_is(&self, before: TrackerState, bytes: usize, after: TrackerState) -> bool {
        heap_measured(&self.end, before, bytes, after)
    }

    fn get_heap_size_with_tracker<T: GetSizeTracker>(&self, tracker: T) -> (measured: (usize, T)) {
        self.end.get_heap_size_with_tracker(tracker)
    }
}

/// `std::ops::RangeToInclusive`, a range with an upper bound only, which it
/// includes. Its one field, `end`, is public and is read as it is.
#[verifier::external_type_specification]
#[verifier::reject_recursive_types(Idx)]
pub struct ExRangeToInclusive<Idx>(std::ops::RangeToInclusive<Idx>);

impl<I: GetSize> GetSize for RangeToInclusive<I> {
    open spec fn heap_size_is(&self, before: TrackerState, bytes: usize, after: TrackerState) -> bool {
        heap_measured(&self.end, before, bytes, after)
    }

    fn get_heap_size_with_tracker<T: GetSizeTracker>(&self, tracker: T) -> (measured: (usize, T)) {
        self.end.get_heap_size_with_tracker(tracker)
    }
}

/// `std::ops::RangeFull`, the range without bounds.
#[verifier::external_type_specification]
#[verifier::external_body]
pub struct ExRangeFull(std::ops::RangeFull);

impl GetSize for RangeFull {
    fn get_heap_size(&self) -> (bytes: usize)
        ensures
            bytes == 0,
    {
        assert(self.heap_size_is(TrackerState::fresh(), 0, TrackerState::fresh()));
        0
    }

    fn get_heap_size_with_tracker<T: GetSizeTracker>(&self, tracker: T) -> (measured: (usize, T))
        ensures
            measured.0 == 0,
            measured.1 == tracker,
    {
        (0, tracker)
    }
}

} // verus!
