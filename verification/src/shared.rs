//! Shared ownership: handles that keep a heap block alive together with other
//! handles to the same block.

use crate::arith::saturate;
use crate::size::{heap_measured, size_measured, GetSize};
use crate::tracker::{lemma_extends_transitive, GetSizeTracker, TrackerState};
use std::rc::Rc;
use std::sync::Arc;
use vstd::layout::size_of;
use vstd::prelude::*;
use vstd::utf8::encode_utf8;

verus! {

/// Whether a strong handle to `target`, whose heap block has the identity
/// `addr`, may report `bytes` to a tracker in state `before` and leave it in
/// state `after`.
///
/// The first handle that a measurement meets pays for the block: it reports the
/// total size of `target`, measured with the tracker that has recorded the
/// block. Every later handle to the same block reports nothing.
pub open spec fn strong_heap_size_is<V: GetSize>(
    addr: usize,
    target: &V,
    before: TrackerState,
    bytes: usize,
    after: TrackerState,
) -> bool {
    if before.is_new(addr) {
        size_measured(target, before.record(addr), bytes, after)
    } else {
        bytes == 0 && after == before.record(addr)
    }
}

/// Measures what a strong handle owns, given the identity `addr` of its heap
/// block: the total size of `target` if `tracker` sees the block for the first
/// time, and nothing otherwise. `strong_ref` is a handle to the block, for the
/// tracker to hold on to.
pub fn strong_heap_size_with_tracker<V: GetSize, A: 'static, T: GetSizeTracker>(
    addr: usize,
    strong_ref: A,
    target: &V,
    tracker: T,
) -> (measured: (usize, T))
    ensures
        strong_heap_size_is(addr, target, tracker.state(), measured.0, measured.1.state()),
        measured.1.state().extends(tracker.state()),
{
    let mut tracker = tracker;
    let ghost before = tracker.state();
    if tracker.track(addr, strong_ref) {
        let ghost recorded = tracker.state();
        let measured = target.get_size_with_tracker(tracker);
        proof {
            let heap = choose|heap: usize| #[trigger]
                target.heap_size_is(recorded, heap, measured.1.state()) && measured.0 == saturate(
                    size_of::<V>() + heap,
                );
            assert(heap_measured(target, recorded, heap, measured.1.state()));
            lemma_extends_transitive(before, recorded, measured.1.state());
        }
        measured
    } else {
        (0, tracker)
    }
}

/// Measures what a weak handle owns: nothing. The handle is not looked into,
/// since what it points at may be gone, and the tracker is not asked.
pub fn weak_heap_size_with_tracker<W, T: GetSizeTracker>(weak: &W, tracker: T) -> (measured: (
    usize,
    T,
))
    ensures
        measured.0 == 0,
        measured.1 == tracker,
{
    (0, tracker)
}

/// The address of the heap block that `rc` keeps alive. `Rc::as_ptr` gives it;
/// nothing is claimed of the number.
#[verifier::external_body]
fn rc_address<V>(rc: &Rc<V>) -> (addr: usize) {
    Rc::as_ptr(rc) as usize
}

/// The address of the heap block that `arc` keeps alive. `Arc::as_ptr` gives it;
/// nothing is claimed of the number.
#[verifier::external_body]
fn arc_address<V>(arc: &Arc<V>) -> (addr: usize) {
    Arc::as_ptr(arc) as usize
}

impl<V: GetSize + 'static> GetSize for Rc<V> {
    /// Wherever the block lies, the handle is measured as a strong handle to it.
    open spec fn heap_size_is(&self, before: TrackerState, bytes: usize, after: TrackerState) -> bool {
        exists|addr: usize| #[trigger] strong_heap_size_is(addr, &**self, before, bytes, after)
    }

    fn get_heap_size_with_tracker<T: GetSizeTracker>(&self, tracker: T) -> (measured: (usize, T)) {
        let strong_ref = Rc::clone(self);
        let addr = rc_address(&strong_ref);
        let measured = strong_heap_size_with_tracker(addr, strong_ref, &**self, tracker);
        assert(self.heap_size_is(tracker.state(), measured.0, measured.1.state()));
        measured
    }
}

impl<V: GetSize + 'static> GetSize for Arc<V> {
    /// Wherever the block lies, the handle is measured as a strong handle to it.
    open spec fn heap_size_is(&self, before: TrackerState, bytes: usize, after: TrackerState) -> bool {
        exists|addr: usize| #[trigger] strong_heap_size_is(addr, &**self, before, bytes, after)
    }

    fn get_heap_size_with_tracker<T: GetSizeTracker>(&self, tracker: T) -> (measured: (usize, T)) {
        let strong_ref = Arc::clone(self);
        let addr = arc_address(&strong_ref);
        let measured = strong_heap_size_with_tracker(addr, strong_ref, &**self, tracker);
        assert(self.heap_size_is(tracker.state(), measured.0, measured.1.state()));
        measured
    }
}

impl GetSize for Rc<str> {
    /// A shared string owns its bytes, and the length says how many there are.
    open spec fn heap_size_is(&self, before: TrackerState, bytes: usize, after: TrackerState) -> bool {
        bytes == encode_utf8((**self)@).len() as usize && after == before
    }

    fn get_heap_size_with_tracker<T: GetSizeTracker>(&self, tracker: T) -> (measured: (usize, T)) {
        let text: &str = &**self;
        (text.len(), tracker)
    }
}

impl GetSize for Arc<str> {
    /// A shared string owns its bytes, and the length says how many there are.
    open spec fn heap_size_is(&self, before: TrackerState, bytes: usize, after: TrackerState) -> bool {
        bytes == encode_utf8((**self)@).len() as usize && after == before
    }

    fn get_heap_size_with_tracker<T: GetSizeTracker>(&self, tracker: T) -> (measured: (usize, T)) {
        let text: &str = &**self;
        (text.len(), tracker)
    }
}

} // verus!
