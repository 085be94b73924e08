//! Values that own nothing on the heap: numbers, markers and points in time.
//!
//! Each of them is measured the same way. The heap size is zero, the tracker is
//! not consulted, and the total size is the size of the type in place.

use crate::size::GetSize;
use crate::tracker::{GetSizeTracker, TrackerState};
use std::convert::Infallible;
use std::marker::{PhantomData, PhantomPinned};
use std::sync::atomic::{
    AtomicBool, AtomicI16, AtomicI32, AtomicI64, AtomicI8, AtomicIsize, AtomicU16, AtomicU32,
    AtomicU64, AtomicU8, AtomicUsize,
};
use std::time::{Duration, Instant, SystemTime};
use vstd::prelude::*;

verus! {

/// `std::marker::PhantomPinned`, a marker without content.
#[verifier::external_type_specification]
#[verifier::external_body]
pub struct ExPhantomPinned(std::marker::PhantomPinned);

/// `std::time::Instant`, a reading of the monotonic clock.
#[verifier::external_type_specification]
#[verifier::external_body]
pub struct ExInstant(std::time::Instant);

/// `std::time::SystemTime`, a reading of the system clock.
#[verifier::external_type_specification]
#[verifier::external_body]
pub struct ExSystemTime(std::time::SystemTime);

impl GetSize for () {
    fn get_heap_size(&self) -> (bytes: usize)
        ensures
            bytes == 0,
    {
        assert(self.heap_size_is(TrackerState::fresh(), 0, TrackerState::fresh()));
        0
    }

    fn get_heap_size_with_tracker<T: GetSizeTracker>(&self, tracker: T) -> (measured: (usize, T))
        ensures
            measured.0 == 0,
            measured.1 == tracker,
    {
        (0, tracker)
    }
}

impl GetSize for bool {
    fn get_heap_size(&self) -> (bytes: usize)
        ensures
            bytes == 0,
    {
        assert(self.heap_size_is(TrackerState::fresh(), 0, TrackerState::fresh()));
        0
    }

    fn get_heap_size_with_tracker<T: GetSizeTracker>(&self, tracker: T) -> (measured: (usize, T))
        ensures
            measured.0 == 0,
            measured.1 == tracker,
    {
        (0, tracker)
    }
}

impl GetSize for u8 {
    fn get_heap_size(&self) -> (bytes: usize)
        ensures
            bytes == 0,
    {
        assert(self.heap_size_is(TrackerState::fresh(), 0, TrackerState::fresh()));
        0
    }

    fn get_heap_size_with_tracker<T: GetSizeTracker>(&self, tracker: T) -> (measured: (usize, T))
        ensures
            measured.0 == 0,
            measured.1 == tracker,
    {
        (0, tracker)
    }
}

impl GetSize for u16 {
    fn get_heap_size(&self) -> (bytes: usize)
        ensures
            bytes == 0,
    {
        assert(self.heap_size_is(TrackerState::fresh(), 0, TrackerState::fresh()));
        0
    }

    fn get_heap_size_with_tracker<T: GetSizeTracker>(&self, tracker: T) -> (measured: (usize, T))
        ensures
            measured.0 == 0,
            measured.1 == tracker,
    {
        (0, tracker)
    }
}

impl GetSize for u32 {
    fn get_heap_size(&self) -> (bytes: usize)
        ensures
            bytes == 0,
    {
        assert(self.heap_size_is(TrackerState::fresh(), 0, TrackerState::fresh()));
        0
    }

    fn get_heap_size_with_tracker<T: GetSizeTracker>(&self, tracker: T) -> (measured: (usize, T))
        ensures
            measured.0 == 0,
            measured.1 == tracker,
    {
        (0, tracker)
    }
}

impl GetSize for u64 {
    fn get_heap_size(&self) -> (bytes: usize)
        ensures
            bytes == 0,
    {
        assert(self.heap_size_is(TrackerState::fresh(), 0, TrackerState::fresh()));
        0
    }

    fn get_heap_size_with_tracker<T: GetSizeTracker>(&self, tracker: T) -> (measured: (usize, T))
        ensures
            measured.0 == 0,
            measured.1 == tracker,
    {
        (0, tracker)
    }
}

impl GetSize for u128 {
    fn get_heap_size(&self) -> (bytes: usize)
        ensures
            bytes == 0,
    {
        assert(self.heap_size_is(TrackerState::fresh(), 0, TrackerState::fresh()));
        0
    }

    fn get_heap_size_with_tracker<T: GetSizeTracker>(&self, tracker: T) -> (measured: (usize, T))
        ensures
            measured.0 == 0,
            measured.1 == tracker,
    {
        (0, tracker)
    }
}

impl GetSize for usize {
    fn get_heap_size(&self) -> (bytes: usize)
        ensures
            bytes == 0,
    {
        assert(self.heap_size_is(TrackerState::fresh(), 0, TrackerState::fresh()));
        0
    }

    fn get_heap_size_with_tracker<T: GetSizeTracker>(&self, tracker: T) -> (measured: (usize, T))
        ensures
            measured.0 == 0,
            measured.1 == tracker,
    {
        (0, tracker)
    }
}

impl GetSize for i8 {
    fn get_heap_size(&self) -> (bytes: usize)
        ensures
            bytes == 0,
    {
        assert(self.heap_size_is(TrackerState::fresh(), 0, TrackerState::fresh()));
        0
    }

    fn get_heap_size_with_tracker<T: GetSizeTracker>(&self, tracker: T) -> (measured: (usize, T))
        ensures
            measured.0 == 0,
            measured.1 == tracker,
    {
        (0, tracker)
    }
}

impl GetSize for i16 {
    fn get_heap_size(&self) -> (bytes: usize)
        ensures
            bytes == 0,
    {
        assert(self.heap_size_is(TrackerState::fresh(), 0, TrackerState::fresh()));
        0
    }

    fn get_heap_size_with_tracker<T: GetSizeTracker>(&self, tracker: T) -> (measured: (usize, T))
        ensures
            measured.0 == 0,
            measured.1 == tracker,
    {
        (0, tracker)
    }
}

impl GetSize for i32 {
    fn get_heap_size(&self) -> (bytes: usize)
        ensures
            bytes == 0,
    {
        assert(self.heap_size_is(TrackerState::fresh(), 0, TrackerState::fresh()));
        0
    }

    fn get_heap_size_with_tracker<T: GetSizeTracker>(&self, tracker: T) -> (measured: (usize, T))
        ensures
            measured.0 == 0,
            measured.1 == tracker,
    {
        (0, tracker)
    }
}

impl GetSize for i64 {
    fn get_heap_size(&self) -> (bytes: usize)
        ensures
            bytes == 0,
    {
        assert(self.heap_size_is(TrackerState::fresh(), 0, TrackerState::fresh()));
        0
    }

    fn get_heap_size_with_tracker<T: GetSizeTracker>(&self, tracker: T) -> (measured: (usize, T))
        ensures
            measured.0 == 0,
            measured.1 == tracker,
    {
        (0, tracker)
    }
}

impl GetSize for i128 {
    fn get_heap_size(&self) -> (bytes: usize)
        ensures
            bytes == 0,
    {
        assert(self.heap_size_is(TrackerState::fresh(), 0, TrackerState::fresh()));
        0
    }

    fn get_heap_size_with_tracker<T: GetSizeTracker>(&self, tracker: T) -> (measured: (usize, T))
        ensures
            measured.0 == 0,
            measured.1 == tracker,
    {
        (0, tracker)
    }
}

impl GetSize for isize {
    fn get_heap_size(&self) -> (bytes: usize)
        ensures
            bytes == 0,
    {
        assert(self.heap_size_is(TrackerState::fresh(), 0, TrackerState::fresh()));
        0
    }

    fn get_heap_size_with_tracker<T: GetSizeTracker>(&self, tracker: T) -> (measured: (usize, T))
        ensures
            measured.0 == 0,
            measured.1 == tracker,
    {
        (0, tracker)
    }
}

impl GetSize for char {
    fn get_heap_size(&self) -> (bytes: usize)
        ensures
            bytes == 0,
    {
        assert(self.heap_size_is(TrackerState::fresh(), 0, TrackerState::fresh()));
        0
    }

    fn get_heap_size_with_tracker<T: GetSizeTracker>(&self, tracker: T) -> (measured: (usize, T))
        ensures
            measured.0 == 0,
            measured.1 == tracker,
    {
        (0, tracker)
    }
}

impl GetSize for AtomicBool {
    fn get_heap_size(&self) -> (bytes: usize)
        ensures
            bytes == 0,
    {
        assert(self.heap_size_is(TrackerState::fresh(), 0, TrackerState::fresh()));
        0
    }

    fn get_heap_size_with_tracker<T: GetSizeTracker>(&self, tracker: T) -> (measured: (usize, T))
        ensures
            measured.0 == 0,
            measured.1 == tracker,
    {
        (0, tracker)
    }
}

impl GetSize for AtomicI8 {
    fn get_heap_size(&self) -> (bytes: usize)
        ensures
            bytes == 0,
    {
        assert(self.heap_size_is(TrackerState::fresh(), 0, TrackerState::fresh()));
        0
    }

    fn get_heap_size_with_tracker<T: GetSizeTracker>(&self, tracker: T) -> (measured: (usize, T))
        ensures
            measured.0 == 0,
            measured.1 == tracker,
    {
        (0, tracker)
    }
}

impl GetSize for AtomicI16 {
    fn get_heap_size(&self) -> (bytes: usize)
        ensures
            bytes == 0,
    {
        assert(self.heap_size_is(TrackerState::fresh(), 0, TrackerState::fresh()));
        0
    }

    fn get_heap_size_with_tracker<T: GetSizeTracker>(&self, tracker: T) -> (measured: (usize, T))
        ensures
            measured.0 == 0,
            measured.1 == tracker,
    {
        (0, tracker)
    }
}

impl GetSize for AtomicI32 {
    fn get_heap_size(&self) -> (bytes: usize)
        ensures
            bytes == 0,
    {
        assert(self.heap_size_is(TrackerState::fresh(), 0, TrackerState::fresh()));
        0
    }

    fn get_heap_size_with_tracker<T: GetSizeTracker>(&self, tracker: T) -> (measured: (usize, T))
        ensures
            measured.0 == 0,
            measured.1 == tracker,
    {
        (0, tracker)
    }
}

impl GetSize for AtomicI64 {
    fn get_heap_size(&self) -> (bytes: usize)
        ensures
            bytes == 0,
    {
        assert(self.heap_size_is(TrackerState::fresh(), 0, TrackerState::fresh()));
        0
    }

    fn get_heap_size_with_tracker<T: GetSizeTracker>(&self, tracker: T) -> (measured: (usize, T))
        ensures
            measured.0 == 0,
            measured.1 == tracker,
    {
        (0, tracker)
    }
}

impl GetSize for AtomicIsize {
    fn get_heap_size(&self) -> (bytes: usize)
        ensures
            bytes == 0,
    {
        assert(self.heap_size_is(TrackerState::fresh(), 0, TrackerState::fresh()));
        0
    }

    fn get_heap_size_with_tracker<T: GetSizeTracker>(&self, tracker: T) -> (measured: (usize, T))
        ensures
            measured.0 == 0,
            measured.1 == tracker,
    {
        (0, tracker)
    }
}

impl GetSize for AtomicU8 {
    fn get_heap_size(&self) -> (bytes: usize)
        ensures
            bytes == 0,
    {
        assert(self.heap_size_is(TrackerState::fresh(), 0, TrackerState::fresh()));
        0
    }

    fn get_heap_size_with_tracker<T: GetSizeTracker>(&self, tracker: T) -> (measured: (usize, T))
        ensures
            measured.0 == 0,
            measured.1 == tracker,
    {
        (0, tracker)
    }
}

impl GetSize for AtomicU16 {
    fn get_heap_size(&self) -> (bytes: usize)
        ensures
            bytes == 0,
    {
        assert(self.heap_size_is(TrackerState::fresh(), 0, TrackerState::fresh()));
        0
    }

    fn get_heap_size_with_tracker<T: GetSizeTracker>(&self, tracker: T) -> (measured: (usize, T))
        ensures
            measured.0 == 0,
            measured.1 == tracker,
    {
        (0, tracker)
    }
}

impl GetSize for AtomicU32 {
    fn get_heap_size(&self) -> (bytes: usize)
        ensures
            bytes == 0,
    {
        assert(self.heap_size_is(TrackerState::fresh(), 0, TrackerState::fresh()));
        0
    }

    fn get_heap_size_with_tracker<T: GetSizeTracker>(&self, tracker: T) -> (measured: (usize, T))
        ensures
            measured.0 == 0,
            measured.1 == tracker,
    {
        (0, tracker)
    }
}

impl GetSize for AtomicU64 {
    fn get_heap_size(&self) -> (bytes: usize)
        ensures
            bytes == 0,
    {
        assert(self.heap_size_is(TrackerState::fresh(), 0, TrackerState::fresh()));
        0
    }

    fn get_heap_size_with_tracker<T: GetSizeTracker>(&self, tracker: T) -> (measured: (usize, T))
        ensures
            measured.0 == 0,
            measured.1 == tracker,
    {
        (0, tracker)
    }
}

impl GetSize for AtomicUsize {
    fn get_heap_size(&self) -> (bytes: usize)
        ensures
            bytes == 0,
    {
        assert(self.heap_size_is(TrackerState::fresh(), 0, TrackerState::fresh()));
        0
    }

    fn get_heap_size_with_tracker<T: GetSizeTracker>(&self, tracker: T) -> (measured: (usize, T))
        ensures
            measured.0 == 0,
            measured.1 == tracker,
    {
        (0, tracker)
    }
}

impl GetSize for Infallible {
    fn get_heap_size(&self) -> (bytes: usize)
        ensures
            bytes == 0,
    {
        assert(self.heap_size_is(TrackerState::fresh(), 0, TrackerState::fresh()));
        0
    }

    fn get_heap_size_with_tracker<T: GetSizeTracker>(&self, tracker: T) -> (measured: (usize, T))
        ensures
            measured.0 == 0,
            measured.1 == tracker,
    {
        (0, tracker)
    }
}

impl GetSize for PhantomPinned {
    fn get_heap_size(&self) -> (bytes: usize)
        ensures
            bytes == 0,
    {
        assert(self.heap_size_is(TrackerState::fresh(), 0, TrackerState::fresh()));
        0
    }

    fn get_heap_size_with_tracker<T: GetSizeTracker>(&self, tracker: T) -> (measured: (usize, T))
        ensures
            measured.0 == 0,
            measured.1 == tracker,
    {
        (0, tracker)
    }
}

impl GetSize for Duration {
    fn get_heap_size(&self) -> (bytes: usize)
        ensures
            bytes == 0,
    {
        assert(self.heap_size_is(TrackerState::fresh(), 0, TrackerState::fresh()));
        0
    }

    fn get_heap_size_with_tracker<T: GetSizeTracker>(&self, tracker: T) -> (measured: (usize, T))
        ensures
            measured.0 == 0,
            measured.1 == tracker,
    {
        (0, tracker)
    }
}

impl GetSize for Instant {
    fn get_heap_size(&self) -> (bytes: usize)
        ensures
            bytes == 0,
    {
        assert(self.heap_size_is(TrackerState::fresh(), 0, TrackerState::fresh()));
        0
    }

    fn get_heap_size_with_tracker<T: GetSizeTracker>(&self, tracker: T) -> (measured: (usize, T))
        ensures
            measured.0 == 0,
            measured.1 == tracker,
    {
        (0, tracker)
    }
}

impl GetSize for SystemTime {
    fn get_heap_size(&self) -> (bytes: usize)
        ensures
            bytes == 0,
    {
        assert(self.heap_size_is(TrackerState::fresh(), 0, TrackerState::fresh()));
        0
    }

    fn get_heap_size_with_tracker<T: GetSizeTracker>(&self, tracker: T) -> (measured: (usize, T))
        ensures
            measured.0 == 0,
            measured.1 == tracker,
    {
        (0, tracker)
    }
}

impl<V> GetSize for PhantomData<V> {
    fn get_heap_size(&self) -> (bytes: usize)
        ensures
            bytes == 0,
    {
        assert(self.heap_size_is(TrackerState::fresh(), 0, TrackerState::fresh()));
        0
    }

    fn get_heap_size_with_tracker<T: GetSizeTracker>(&self, tracker: T) -> (measured: (usize, T))
        ensures
            measured.0 == 0,
            measured.1 == tracker,
    {
        (0, tracker)
    }
}

} // verus!
