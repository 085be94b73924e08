//! Containers of the standard library.

use crate::arith::saturate;
use crate::size::{heap_measured, size_measured, GetSize};
use crate::tracker::{GetSizeTracker, TrackerState};
use crate::walk::{
    buffered_heap_size_is, buffered_heap_size_with_tracker, inline_heap_size_is,
    inline_heap_size_with_tracker, limited, listed_heap_size_is, listed_heap_size_with_tracker,
};
use std::borrow::Cow;
use std::collections::VecDeque;
use vstd::layout::size_of;
use vstd::prelude::*;
use vstd::std_specs::iter::IteratorSpec;
use vstd::std_specs::slice::axiom_spec_slice_iter;
use vstd::std_specs::vecdeque::axiom_spec_iter;
use vstd::utf8::encode_utf8;

verus! {

/// Whether measuring a buffer that holds `items` may report `bytes` and take the
/// tracker from `before` to `after`: for some capacity that has room for the
/// items, the total sizes of the items and, for every slot that is allocated and
/// unused, the size of one item in place.
pub open spec fn buffer_heap_size_is<V: GetSize>(
    items: Seq<V>,
    before: TrackerState,
    bytes: usize,
    after: TrackerState,
) -> bool {
    exists|capacity: usize|
        capacity >= items.len() && #[trigger] buffered_heap_size_is(
            capacity,
            items.len() as usize,
            items,
            before,
            bytes,
            after,
        )
}

/// How many items `vec` can hold without allocating again, as `Vec::capacity`
/// gives it. The items that the vector holds have their place in what is
/// allocated, so the number is never less than the length.
#[verifier::external_body]
fn vec_capacity<V>(vec: &Vec<V>) -> (capacity: usize)
    ensures
        capacity >= vec@.len(),
{
    vec.capacity()
}

impl<V: GetSize> GetSize for Vec<V> {
    open spec fn heap_size_is(&self, before: TrackerState, bytes: usize, after: TrackerState) -> bool {
        buffer_heap_size_is(self@, before, bytes, after)
    }

    fn get_heap_size_with_tracker<T: GetSizeTracker>(&self, tracker: T) -> (measured: (usize, T)) {
        let items = self.as_slice();
        let iter = items.iter();
        let capacity = vec_capacity(self);
        let measured = buffered_heap_size_with_tracker(capacity, iter, self.len(), tracker);
        proof {
            axiom_spec_slice_iter(items);
            assert(limited(iter.remaining(), self.len()).unref() == self@);
            assert(buffered_heap_size_is(
                capacity,
                self@.len() as usize,
                self@,
                tracker.state(),
                measured.0,
                measured.1.state(),
            ));
        }
        measured
    }
}

/// How many items `deque` can hold without allocating again, as
/// `VecDeque::capacity` gives it. The deque holds its items without allocating
/// again, so the number is never less than the length.
#[verifier::external_body]
fn vec_deque_capacity<V>(deque: &VecDeque<V>) -> (capacity: usize)
    ensures
        capacity >= deque@.len(),
{
    deque.capacity()
}

impl<V: GetSize> GetSize for VecDeque<V> {
    open spec fn heap_size_is(&self, before: TrackerState, bytes: usize, after: TrackerState) -> bool {
        buffer_heap_size_is(self@, before, bytes, after)
    }

    fn get_heap_size_with_tracker<T: GetSizeTracker>(&self, tracker: T) -> (measured: (usize, T)) {
        let iter = self.iter();
        let capacity = vec_deque_capacity(self);
        let measured = buffered_heap_size_with_tracker(capacity, iter, self.len(), tracker);
        proof {
            axiom_spec_iter(self);
            assert(limited(iter.remaining(), self.len()).unref() == self@);
            assert(buffered_heap_size_is(
                capacity,
                self@.len() as usize,
                self@,
                tracker.state(),
                measured.0,
                measured.1.state(),
            ));
        }
        measured
    }
}

impl<V: GetSize, const SIZE: usize> GetSize for [V; SIZE] {
    open spec fn heap_size_is(&self, before: TrackerState, bytes: usize, after: TrackerState) -> bool {
        inline_heap_size_is(self@, before, bytes, after)
    }

    fn get_heap_size_with_tracker<T: GetSizeTracker>(&self, tracker: T) -> (measured: (usize, T)) {
        // The array's stack size already accounts for the stack size of its elements.
        let items = self.as_slice();
        let iter = items.iter();
        let measured = inline_heap_size_with_tracker(iter, SIZE, tracker);
        proof {
            axiom_spec_slice_iter(items);
            assert(limited(iter.remaining(), SIZE).unref() == self@);
        }
        measured
    }
}

impl<V: GetSize> GetSize for Box<[V]> {
    open spec fn heap_size_is(&self, before: TrackerState, bytes: usize, after: TrackerState) -> bool {
        listed_heap_size_is(self@, before, bytes, after)
    }

    fn get_heap_size_with_tracker<T: GetSizeTracker>(&self, tracker: T) -> (measured: (usize, T)) {
        let items: &[V] = &**self;
        let iter = items.iter();
        let measured = listed_heap_size_with_tracker(iter, items.len(), tracker);
        proof {
            axiom_spec_slice_iter(items);
            assert(limited(iter.remaining(), items.len()).unref() == self@);
        }
        measured
    }
}

impl<V: GetSize> GetSize for Box<V> {
    /// A box owns the value it points at, whole.
    open spec fn heap_size_is(&self, before: TrackerState, bytes: usize, after: TrackerState) -> bool {
        size_measured(&**self, before, bytes, after)
    }

    fn get_heap_size_with_tracker<T: GetSizeTracker>(&self, tracker: T) -> (measured: (usize, T)) {
        let measured = (**self).get_size_with_tracker(tracker);
        proof {
            let heap = choose|heap: usize| #[trigger]
                (**self).heap_size_is(tracker.state(), heap, measured.1.state()) && measured.0
                    == saturate(size_of::<V>() + heap);
            assert(heap_measured(&**self, tracker.state(), heap, measured.1.state()));
        }
        measured
    }
}

impl<V: GetSize> GetSize for Option<V> {
    open spec fn heap_size_is(&self, before: TrackerState, bytes: usize, after: TrackerState) -> bool {
        match self {
            Some(value) => heap_measured(value, before, bytes, after),
            None => bytes == 0 && after == before,
        }
    }

    fn get_heap_size_with_tracker<T: GetSizeTracker>(&self, tracker: T) -> (measured: (usize, T)) {
        match self {
            Some(value) => value.get_heap_size_with_tracker(tracker),
            None => (0, tracker),
        }
    }
}

impl<V: GetSize, E: GetSize> GetSize for Result<V, E> {
    open spec fn heap_size_is(&self, before: TrackerState, bytes: usize, after: TrackerState) -> bool {
        match self {
            Ok(value) => heap_measured(value, before, bytes, after),
            Err(error) => heap_measured(error, before, bytes, after),
        }
    }

    fn get_heap_size_with_tracker<T: GetSizeTracker>(&self, tracker: T) -> (measured: (usize, T)) {
        match self {
            // The result's stack size already accounts for the stack size of its values.
            Ok(value) => value.get_heap_size_with_tracker(tracker),
            Err(error) => error.get_heap_size_with_tracker(tracker),
        }
    }
}

impl<'a, B: ToOwned + ?Sized> GetSize for Cow<'a, B> where B::Owned: GetSize {
    /// What is borrowed is not owned: only a value that the `Cow` holds itself
    /// counts.
    open spec fn heap_size_is(&self, before: TrackerState, bytes: usize, after: TrackerState) -> bool {
        match self {
            Cow::Borrowed(_) => bytes == 0 && after == before,
            Cow::Owned(owned) => heap_measured(owned, before, bytes, after),
        }
    }

    fn get_heap_size_with_tracker<T: GetSizeTracker>(&self, tracker: T) -> (measured: (usize, T)) {
        match self {
            Cow::Borrowed(_) => (0, tracker),
            Cow::Owned(owned) => owned.get_heap_size_with_tracker(tracker),
        }
    }
}

/// The size of the buffer of `string` in bytes, as `String::capacity` gives it.
/// The length of a string is never more than its capacity.
#[verifier::external_body]
fn string_capacity(string: &String) -> (capacity: usize)
    ensures
        capacity >= encode_utf8(string@).len(),
{
    string.capacity()
}

impl GetSize for String {
    /// A string owns the buffer that holds its bytes, used or not.
    open spec fn heap_size_is(&self, before: TrackerState, bytes: usize, after: TrackerState) -> bool {
        bytes >= encode_utf8(self@).len() && after == before
    }

    fn get_heap_size_with_tracker<T: GetSizeTracker>(&self, tracker: T) -> (measured: (usize, T)) {
        (string_capacity(self), tracker)
    }
}

impl GetSize for Box<str> {
    /// A boxed string owns its bytes, and the length says how many there are.
    open spec fn heap_size_is(&self, before: TrackerState, bytes: usize, after: TrackerState) -> bool {
        bytes == encode_utf8((**self)@).len() as usize && after == before
    }

    fn get_heap_size_with_tracker<T: GetSizeTracker>(&self, tracker: T) -> (measured: (usize, T)) {
        let text: &str = &**self;
        (text.len(), tracker)
    }
}

// A reference owns nothing, whatever it refers to.
impl<V> GetSize for &V {
    fn get_heap_size(&self) -> (bytes: usize)
        ensures
            bytes == 0,
    {
        assert(self.heap_size_is(TrackerState::fresh(), 0, TrackerState::fresh()));
        0
    }

    fn get_heap_size_with_tracker<T: GetSizeTracker>(&self, tracker: T) -> (measured: (usize, T))
        ensures
            measured.0 == 0,
            measured.1 == tracker,
    {
        (0, tracker)
    }
}

impl<V> GetSize for &mut V {
    fn get_heap_size(&self) -> (bytes: usize)
        ensures
            bytes == 0,
    {
        assert(self.heap_size_is(TrackerState::fresh(), 0, TrackerState::fresh()));
        0
    }

    fn get_heap_size_with_tracker<T: GetSizeTracker>(&self, tracker: T) -> (measured: (usize, T))
        ensures
            measured.0 == 0,
            measured.1 == tracker,
    {
        (0, tracker)
    }
}

impl<V: GetSize> GetSize for &[V] {
    fn get_heap_size(&self) -> (bytes: usize)
        ensures
            bytes == 0,
    {
        assert(self.heap_size_is(TrackerState::fresh(), 0, TrackerState::fresh()));
        0
    }

    fn get_heap_size_with_tracker<T: GetSizeTracker>(&self, tracker: T) -> (measured: (usize, T))
        ensures
            measured.0 == 0,
            measured.1 == tracker,
    {
        (0, tracker)
    }
}

impl GetSize for &str {
    fn get_heap_size(&self) -> (bytes: usize)
        ensures
            bytes == 0,
    {
        assert(self.heap_size_is(TrackerState::fresh(), 0, TrackerState::fresh()));
        0
    }

    fn get_heap_size_with_tracker<T: GetSizeTracker>(&self, tracker: T) -> (measured: (usize, T))
        ensures
            measured.0 == 0,
            measured.1 == tracker,
    {
        (0, tracker)
    }
}

} // verus!
