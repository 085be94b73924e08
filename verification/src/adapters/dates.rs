//! Dates, times and offsets of the `chrono` and `chrono-tz` crates. None of
//! them owns anything on the heap.

use crate::size::GetSize;
use crate::tracker::{GetSizeTracker, TrackerState};
use chrono::{FixedOffset, NaiveDate, NaiveDateTime, NaiveTime, TimeDelta, Utc};
use chrono_tz::TzOffset;
use vstd::prelude::*;

verus! {

/// `chrono::NaiveDate`, a calendar date without a time zone.
#[verifier::external_type_specification]
#[verifier::external_body]
pub struct ExNaiveDate(chrono::NaiveDate);

/// `chrono::NaiveTime`, a time of day without a time zone.
#[verifier::external_type_specification]
#[verifier::external_body]
pub struct ExNaiveTime(chrono::NaiveTime);

/// `chrono::NaiveDateTime`, a date and time without a time zone.
#[verifier::external_type_specification]
#[verifier::external_body]
pub struct ExNaiveDateTime(chrono::NaiveDateTime);

/// `chrono::Utc`, the time zone of coordinated universal time.
#[verifier::external_type_specification]
#[verifier::external_body]
pub struct ExUtc(chrono::Utc);

/// `chrono::FixedOffset`, a time zone at a fixed distance from UTC.
#[verifier::external_type_specification]
#[verifier::external_body]
pub struct ExFixedOffset(chrono::FixedOffset);

/// `chrono::TimeDelta`, a span of time.
#[verifier::external_type_specification]
#[verifier::external_body]
pub struct ExTimeDelta(chrono::TimeDelta);

/// `chrono_tz::TzOffset`, the offset of a named time zone at some moment.
#[verifier::external_type_specification]
#[verifier::external_body]
pub struct ExTzOffset(chrono_tz::TzOffset);

impl GetSize for NaiveDate {
    fn get_heap_size(&self) -> (bytes: usize)
        ensures
            bytes == 0,
    {
        assert(self.heap_size_is(TrackerState::fresh(), 0, TrackerState::fresh()));
        0
    }

    fn get_heap_size_with_tracker<T: GetSizeTracker>(&self, tracker: T) -> (measured: (usize, T))
        ensures
            measured.0 == 0,
            measured.1 == tracker,
    {
        (0, tracker)
    }
}

impl GetSize for NaiveTime {
    fn get_heap_size(&self) -> (bytes: usize)
        ensures
            bytes == 0,
    {
        assert(self.heap_size_is(TrackerState::fresh(), 0, TrackerState::fresh()));
        0
    }

    fn get_heap_size_with_tracker<T: GetSizeTracker>(&self, tracker: T) -> (measured: (usize, T))
        ensures
            measured.0 == 0,
            measured.1 == tracker,
    {
        (0, tracker)
    }
}

impl GetSize for NaiveDateTime {
    fn get_heap_size(&self) -> (bytes: usize)
        ensures
            bytes == 0,
    {
        assert(self.heap_size_is(TrackerState::fresh(), 0, TrackerState::fresh()));
        0
    }

    fn get_heap_size_with_tracker<T: GetSizeTracker>(&self, tracker: T) -> (measured: (usize, T))
        ensures
            measured.0 == 0,
            measured.1 == tracker,
    {
        (0, tracker)
    }
}

impl GetSize for Utc {
    fn get_heap_size(&self) -> (bytes: usize)
        ensures
            bytes == 0,
    {
        assert(self.heap_size_is(TrackerState::fresh(), 0, TrackerState::fresh()));
        0
    }

    fn get_heap_size_with_tracker<T: GetSizeTracker>(&self, tracker: T) -> (measured: (usize, T))
        ensures
            measured.0 == 0,
            measured.1 == tracker,
    {
        (0, tracker)
    }
}

impl GetSize for FixedOffset {
    fn get_heap_size(&self) -> (bytes: usize)
        ensures
            bytes == 0,
    {
        assert(self.heap_size_is(TrackerState::fresh(), 0, TrackerState::fresh()));
        0
    }

    fn get_heap_size_with_tracker<T: GetSizeTracker>(&self, tracker: T) -> (measured: (usize, T))
        ensures
            measured.0 == 0,
            measured.1 == tracker,
    {
        (0, tracker)
    }
}

impl GetSize for TimeDelta {
    fn get_heap_size(&self) -> (bytes: usize)
        ensures
            bytes == 0,
    {
        assert(self.heap_size_is(TrackerState::fresh(), 0, TrackerState::fresh()));
        0
    }

    fn get_heap_size_with_tracker<T: GetSizeTracker>(&self, tracker: T) -> (measured: (usize, T))
        ensures
            measured.0 == 0,
            measured.1 == tracker,
    {
        (0, tracker)
    }
}

impl GetSize for TzOffset {
    fn get_heap_size(&self) -> (bytes: usize)
        ensures
            bytes == 0,
    {
        assert(self.heap_size_is(TrackerState::fresh(), 0, TrackerState::fresh()));
        0
    }

    fn get_heap_size_with_tracker<T: GetSizeTracker>(&self, tracker: T) -> (measured: (usize, T))
        ensures
            measured.0 == 0,
            measured.1 == tracker,
    {
        (0, tracker)
    }
}

} // verus!
