//! Trackers: the state of one measurement that keeps a shared heap block from
//! being counted more than once.

use std::collections::BTreeSet;
use vstd::prelude::*;
use vstd::std_specs::btree::group_btree_axioms;

verus! {

/// What a tracker knows in the middle of a measurement.
#[verifier::ext_equal]
pub struct TrackerState {
    /// Whether the tracker records what it is asked about. One that does not
    /// reports every block as new.
    pub dedups: bool,
    /// The identities of the heap blocks recorded so far.
    pub seen: Set<usize>,
}

impl TrackerState {
    /// The state of a recording tracker that has seen nothing yet.
    pub open spec fn fresh() -> TrackerState {
        TrackerState { dedups: true, seen: Set::empty() }
    }

    /// The state of a tracker that records nothing.
    pub open spec fn blind() -> TrackerState {
        TrackerState { dedups: false, seen: Set::empty() }
    }

    /// Whether the block `id` counts as not yet visited.
    pub open spec fn is_new(self, id: usize) -> bool {
        !(self.dedups && self.seen.contains(id))
    }

    /// The state after the tracker was asked about the block `id`.
    pub open spec fn record(self, id: usize) -> TrackerState {
        if self.dedups {
            TrackerState { dedups: true, seen: self.seen.insert(id) }
        } else {
            self
        }
    }

    /// Whether `self` can follow `earlier` in one measurement: nothing that was
    /// recorded is forgotten, and the tracker has not changed its kind.
    pub open spec fn extends(self, earlier: TrackerState) -> bool {
        &&& self.dedups == earlier.dedups
        &&& earlier.seen.subset_of(self.seen)
    }
}

/// A state that follows a state that follows a third follows the third.
pub proof fn lemma_extends_transitive(first: TrackerState, second: TrackerState, third: TrackerState)
    requires
        second.extends(first),
        third.extends(second),
    ensures
        third.extends(first),
{
}

/// The capability that a measurement threads through every nested call.
pub trait GetSizeTracker: Sized {
    /// What the tracker knows.
    spec fn state(&self) -> TrackerState;

    /// Asks whether the heap block with identity `addr` is visited for the first
    /// time, and records the visit. `strong_ref` owns the block: a tracker that
    /// holds on to it keeps the block from being freed, and its identity from
    /// being given to another block, while the measurement goes on.
    fn track<A: 'static>(&mut self, addr: usize, strong_ref: A) -> (first_visit: bool)
        ensures
            first_visit == old(self).state().is_new(addr),
            final(self).state() == old(self).state().record(addr),
    ;
}

/// A handle that a tracker holds on to. Nothing is asked of it but to stay
/// alive.
pub trait Held {
}

impl<A: 'static> Held for A {
}

/// The tracker of an ordinary measurement: it reports each heap block as new
/// exactly once.
pub struct StandardTracker {
    /// The identities of the blocks that were recorded.
    seen: BTreeSet<usize>,
    /// A handle to each of them, so that none is freed, and its identity given
    /// to another block, while the tracker is in use.
    handles: Vec<Box<dyn Held>>,
}

impl StandardTracker {
    /// A tracker that has seen nothing.
    pub fn new() -> (tracker: StandardTracker)
        ensures
            tracker.state() == TrackerState::fresh(),
    {
        StandardTracker { seen: BTreeSet::new(), handles: Vec::new() }
    }

    /// Forgets every block and lets go of every handle, so that the tracker can
    /// serve another measurement.
    pub fn clear(&mut self)
        ensures
            final(self).state() == TrackerState::fresh(),
    {
        self.seen.clear();
        self.handles.clear();
    }
}

impl StandardTracker {
    /// A standard tracker records, whatever it has seen.
    pub proof fn lemma_records(&self)
        ensures
            self.state().dedups,
    {
    }
}

impl Default for StandardTracker {
    fn default() -> (tracker: StandardTracker)
        ensures
            tracker.state() == TrackerState::fresh(),
    {
        StandardTracker::new()
    }
}

impl GetSizeTracker for StandardTracker {
    closed spec fn state(&self) -> TrackerState {
        TrackerState { dedups: true, seen: self.seen@ }
    }

    /// The handle of a block that is recorded is held on to; the handle of a
    /// block that was recorded before is dropped.
    fn track<A: 'static>(&mut self, addr: usize, strong_ref: A) -> (first_visit: bool) {
        broadcast use group_btree_axioms;

        let first_visit = self.seen.insert(addr);
        if first_visit {
            self.handles.push(Box::new(strong_ref));
        }
        first_visit
    }
}

/// A tracker that tracks nothing: every block is new to it, every time. It
/// serves measurements of values that are known to share nothing.
pub struct NoTracker {}

impl NoTracker {
    /// The tracker that tracks nothing.
    pub fn new() -> (tracker: NoTracker)
        ensures
            tracker.state() == TrackerState::blind(),
    {
        NoTracker {  }
    }
}

impl Default for NoTracker {
    fn default() -> (tracker: NoTracker)
        ensures
            tracker.state() == TrackerState::blind(),
    {
        NoTracker::new()
    }
}

impl GetSizeTracker for NoTracker {
    open spec fn state(&self) -> TrackerState {
        TrackerState::blind()
    }

    fn track<A: 'static>(&mut self, addr: usize, strong_ref: A) -> (first_visit: bool) {
        true
    }
}

} // verus!
