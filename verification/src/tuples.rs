//! Tuples. The components of a tuple lie in place, so a tuple owns what its
//! components own and nothing more. The components are measured in order.

use crate::arith::{add_size, saturate};
use crate::size::{heap_measured, GetSize};
use crate::tracker::{lemma_extends_transitive, GetSizeTracker, TrackerState};
use vstd::prelude::*;

verus! {

impl<V1: GetSize> GetSize for (V1,) {
    open spec fn heap_size_is(&self, before: TrackerState, bytes: usize, after: TrackerState) -> bool {
        exists|size1: usize|
            #![trigger heap_measured(&self.0, before, size1, after)]
            {
                &&& heap_measured(&self.0, before, size1, after)
                &&& bytes == saturate(size1 as int)
            }
    }

    fn get_heap_size_with_tracker<T: GetSizeTracker>(&self, tracker: T) -> (measured: (usize, T)) {
        let total: usize = 0;
        let tracker0 = tracker;
        let (v1,) = self;
        let (size1, tracker1) = v1.get_heap_size_with_tracker(tracker0);
        let total = add_size(total, size1, Ghost(0));
        assert(heap_measured(v1, tracker0.state(), size1, tracker1.state()));
        (total, tracker1)
    }
}

impl<V1: GetSize, V2: GetSize> GetSize for (V1, V2) {
    open spec fn heap_size_is(&self, before: TrackerState, bytes: usize, after: TrackerState) -> bool {
        exists|size1: usize, size2: usize, state1: TrackerState|
            #![trigger heap_measured(&self.0, before, size1, state1), heap_measured(&self.1, state1, size2, after)]
            {
                &&& heap_measured(&self.0, before, size1, state1)
                &&& heap_measured(&self.1, state1, size2, after)
                &&& bytes == saturate(size1 + size2)
            }
    }

    fn get_heap_size_with_tracker<T: GetSizeTracker>(&self, tracker: T) -> (measured: (usize, T)) {
        let total: usize = 0;
        let tracker0 = tracker;
        let (v1, v2) = self;
        let (size1, tracker1) = v1.get_heap_size_with_tracker(tracker0);
        let total = add_size(total, size1, Ghost(0));
        let (size2, tracker2) = v2.get_heap_size_with_tracker(tracker1);
        let total = add_size(total, size2, Ghost(size1 as int));
        proof {
            lemma_extends_transitive(tracker0.state(), tracker1.state(), tracker2.state());
        }
        assert(heap_measured(v1, tracker0.state(), size1, tracker1.state()));
        assert(heap_measured(v2, tracker1.state(), size2, tracker2.state()));
        (total, tracker2)
    }
}

impl<V1: GetSize, V2: GetSize, V3: GetSize> GetSize for (V1, V2, V3) {
    open spec fn heap_size_is(&self, before: TrackerState, bytes: usize, after: TrackerState) -> bool {
        exists|size1: usize, size2: usize, size3: usize, state1: TrackerState, state2: TrackerState|
            #![trigger heap_measured(&self.0, before, size1, state1), heap_measured(&self.1, state1, size2, state2), heap_measured(&self.2, state2, size3, after)]
            {
                &&& heap_measured(&self.0, before, size1, state1)
                &&& heap_measured(&self.1, state1, size2, state2)
                &&& heap_measured(&self.2, state2, size3, after)
                &&& bytes == saturate(size1 + size2 + size3)
            }
    }

    fn get_heap_size_with_tracker<T: GetSizeTracker>(&self, tracker: T) -> (measured: (usize, T)) {
        let total: usize = 0;
        let tracker0 = tracker;
        let (v1, v2, v3) = self;
        let (size1, tracker1) = v1.get_heap_size_with_tracker(tracker0);
        let total = add_size(total, size1, Ghost(0));
        let (size2, tracker2) = v2.get_heap_size_with_tracker(tracker1);
        let total = add_size(total, size2, Ghost(size1 as int));
        proof {
            lemma_extends_transitive(tracker0.state(), tracker1.state(), tracker2.state());
        }
        let (size3, tracker3) = v3.get_heap_size_with_tracker(tracker2);
        let total = add_size(total, size3, Ghost(size1 + size2));
        proof {
            lemma_extends_transitive(tracker0.state(), tracker2.state(), tracker3.state());
        }
        assert(heap_measured(v1, tracker0.state(), size1, tracker1.state()));
        assert(heap_measured(v2, tracker1.state(), size2, tracker2.state()));
        assert(heap_measured(v3, tracker2.state(), size3, tracker3.state()));
        (total, tracker3)
    }
}

impl<V1: GetSize, V2: GetSize, V3: GetSize, V4: GetSize> GetSize for (V1, V2, V3, V4) {
    open spec fn heap_size_is(&self, before: TrackerState, bytes: usize, after: TrackerState) -> bool {
        exists|size1: usize, size2: usize, size3: usize, size4: usize, state1: TrackerState, state2: TrackerState, state3: TrackerState|
            #![trigger heap_measured(&self.0, before, size1, state1), heap_measured(&self.1, state1, size2, state2), heap_measured(&self.2, state2, size3, state3), heap_measured(&self.3, state3, size4, after)]
            {
                &&& heap_measured(&self.0, before, size1, state1)
                &&& heap_measured(&self.1, state1, size2, state2)
                &&& heap_measured(&self.2, state2, size3, state3)
                &&& heap_measured(&self.3, state3, size4, after)
                &&& bytes == saturate(size1 + size2 + size3 + size4)
            }
    }

    fn get_heap_size_with_tracker<T: GetSizeTracker>(&self, tracker: T) -> (measured: (usize, T)) {
        let total: usize = 0;
        let tracker0 = tracker;
        let (v1, v2, v3, v4) = self;
        let (size1, tracker1) = v1.get_heap_size_with_tracker(tracker0);
        let total = add_size(total, size1, Ghost(0));
        let (size2, tracker2) = v2.get_heap_size_with_tracker(tracker1);
        let total = add_size(total, size2, Ghost(size1 as int));
        proof {
            lemma_extends_transitive(tracker0.state(), tracker1.state(), tracker2.state());
        }
        let (size3, tracker3) = v3.get_heap_size_with_tracker(tracker2);
        let total = add_size(total, size3, Ghost(size1 + size2));
        proof {
            lemma_extends_transitive(tracker0.state(), tracker2.state(), tracker3.state());
        }
        let (size4, tracker4) = v4.get_heap_size_with_tracker(tracker3);
        let total = add_size(total, size4, Ghost(size1 + size2 + size3));
        proof {
            lemma_extends_transitive(tracker0.state(), tracker3.state(), tracker4.state());
        }
        assert(heap_measured(v1, tracker0.state(), size1, tracker1.state()));
        assert(heap_measured(v2, tracker1.state(), size2, tracker2.state()));
        assert(heap_measured(v3, tracker2.state(), size3, tracker3.state()));
        assert(heap_measured(v4, tracker3.state(), size4, tracker4.state()));
        (total, tracker4)
    }
}

impl<V1: GetSize, V2: GetSize, V3: GetSize, V4: GetSize, V5: GetSize> GetSize for (V1, V2, V3, V4, V5) {
    open spec fn heap_size_is(&self, before: TrackerState, bytes: usize, after: TrackerState) -> bool {
        exists|size1: usize, size2: usize, size3: usize, size4: usize, size5: usize, state1: TrackerState, state2: TrackerState, state3: TrackerState, state4: TrackerState|
            #![trigger heap_measured(&self.0, before, size1, state1), heap_measured(&self.1, state1, size2, state2), heap_measured(&self.2, state2, size3, state3), heap_measured(&self.3, state3, size4, state4), heap_measured(&self.4, state4, size5, after)]
            {
                &&& heap_measured(&self.0, before, size1, state1)
                &&& heap_measured(&self.1, state1, size2, state2)
                &&& heap_measured(&self.2, state2, size3, state3)
                &&& heap_measured(&self.3, state3, size4, state4)
                &&& heap_measured(&self.4, state4, size5, after)
                &&& bytes == saturate(size1 + size2 + size3 + size4 + size5)
            }
    }

    fn get_heap_size_with_tracker<T: GetSizeTracker>(&self, tracker: T) -> (measured: (usize, T)) {
        let total: usize = 0;
        let tracker0 = tracker;
        let (v1, v2, v3, v4, v5) = self;
        let (size1, tracker1) = v1.get_heap_size_with_tracker(tracker0);
        let total = add_size(total, size1, Ghost(0));
        let (size2, tracker2) = v2.get_heap_size_with_tracker(tracker1);
        let total = add_size(total, size2, Ghost(size1 as int));
        proof {
            lemma_extends_transitive(tracker0.state(), tracker1.state(), tracker2.state());
        }
        let (size3, tracker3) = v3.get_heap_size_with_tracker(tracker2);
        let total = add_size(total, size3, Ghost(size1 + size2));
        proof {
            lemma_extends_transitive(tracker0.state(), tracker2.state(), tracker3.state());
        }
        let (size4, tracker4) = v4.get_heap_size_with_tracker(tracker3);
        let total = add_size(total, size4, Ghost(size1 + size2 + size3));
        proof {
            lemma_extends_transitive(tracker0.state(), tracker3.state(), tracker4.state());
        }
        let (size5, tracker5) = v5.get_heap_size_with_tracker(tracker4);
        let total = add_size(total, size5, Ghost(size1 + size2 + size3 + size4));
        proof {
            lemma_extends_transitive(tracker0.state(), tracker4.state(), tracker5.state());
        }
        assert(heap_measured(v1, tracker0.state(), size1, tracker1.state()));
        assert(heap_measured(v2, tracker1.state(), size2, tracker2.state()));
        assert(heap_measured(v3, tracker2.state(), size3, tracker3.state()));
        assert(heap_measured(v4, tracker3.state(), size4, tracker4.state()));
        assert(heap_measured(v5, tracker4.state(), size5, tracker5.state()));
        (total, tracker5)
    }
}

impl<V1: GetSize, V2: GetSize, V3: GetSize, V4: GetSize, V5: GetSize, V6: GetSize> GetSize for (V1, V2, V3, V4, V5, V6) {
    open spec fn heap_size_is(&self, before: TrackerState, bytes: usize, after: TrackerState) -> bool {
        exists|size1: usize, size2: usize, size3: usize, size4: usize, size5: usize, size6: usize, state1: TrackerState, state2: TrackerState, state3: TrackerState, state4: TrackerState, state5: TrackerState|
            #![trigger heap_measured(&self.0, before, size1, state1), heap_measured(&self.1, state1, size2, state2), heap_measured(&self.2, state2, size3, state3), heap_measured(&self.3, state3, size4, state4), heap_measured(&self.4, state4, size5, state5), heap_measured(&self.5, state5, size6, after)]
            {
                &&& heap_measured(&self.0, before, size1, state1)
                &&& heap_measured(&self.1, state1, size2, state2)
                &&& heap_measured(&self.2, state2, size3, state3)
                &&& heap_measured(&self.3, state3, size4, state4)
                &&& heap_measured(&self.4, state4, size5, state5)
                &&& heap_measured(&self.5, state5, size6, after)
                &&& bytes == saturate(size1 + size2 + size3 + size4 + size5 + size6)
            }
    }

    fn get_heap_size_with_tracker<T: GetSizeTracker>(&self, tracker: T) -> (measured: (usize, T)) {
        let total: usize = 0;
        let tracker0 = tracker;
        let (v1, v2, v3, v4, v5, v6) = self;
        let (size1, tracker1) = v1.get_heap_size_with_tracker(tracker0);
        let total = add_size(total, size1, Ghost(0));
        let (size2, tracker2) = v2.get_heap_size_with_tracker(tracker1);
        let total = add_size(total, size2, Ghost(size1 as int));
        proof {
            lemma_extends_transitive(tracker0.state(), tracker1.state(), tracker2.state());
        }
        let (size3, tracker3) = v3.get_heap_size_with_tracker(tracker2);
        let total = add_size(total, size3, Ghost(size1 + size2));
        proof {
            lemma_extends_transitive(tracker0.state(), tracker2.state(), tracker3.state());
        }
        let (size4, tracker4) = v4.get_heap_size_with_tracker(tracker3);
        let total = add_size(total, size4, Ghost(size1 + size2 + size3));
        proof {
            lemma_extends_transitive(tracker0.state(), tracker3.state(), tracker4.state());
        }
        let (size5, tracker5) = v5.get_heap_size_with_tracker(tracker4);
        let total = add_size(total, size5, Ghost(size1 + size2 + size3 + size4));
        proof {
            lemma_extends_transitive(tracker0.state(), tracker4.state(), tracker5.state());
        }
        let (size6, tracker6) = v6.get_heap_size_with_tracker(tracker5);
        let total = add_size(total, size6, Ghost(size1 + size2 + size3 + size4 + size5));
        proof {
            lemma_extends_transitive(tracker0.state(), tracker5.state(), tracker6.state());
        }
        assert(heap_measured(v1, tracker0.state(), size1, tracker1.state()));
        assert(heap_measured(v2, tracker1.state(), size2, tracker2.state()));
        assert(heap_measured(v3, tracker2.state(), size3, tracker3.state()));
        assert(heap_measured(v4, tracker3.state(), size4, tracker4.state()));
        assert(heap_measured(v5, tracker4.state(), size5, tracker5.state()));
        assert(heap_measured(v6, tracker5.state(), size6, tracker6.state()));
        (total, tracker6)
    }
}

impl<V1: GetSize, V2: GetSize, V3: GetSize, V4: GetSize, V5: GetSize, V6: GetSize, V7: GetSize> GetSize for (V1, V2, V3, V4, V5, V6, V7) {
    open spec fn heap_size_is(&self, before: TrackerState, bytes: usize, after: TrackerState) -> bool {
        exists|size1: usize, size2: usize, size3: usize, size4: usize, size5: usize, size6: usize, size7: usize, state1: TrackerState, state2: TrackerState, state3: TrackerState, state4: TrackerState, state5: TrackerState, state6: TrackerState|
            #![trigger heap_measured(&self.0, before, size1, state1), heap_measured(&self.1, state1, size2, state2), heap_measured(&self.2, state2, size3, state3), heap_measured(&self.3, state3, size4, state4), heap_measured(&self.4, state4, size5, state5), heap_measured(&self.5, state5, size6, state6), heap_measured(&self.6, state6, size7, after)]
            {
                &&& heap_measured(&self.0, before, size1, state1)
                &&& heap_measured(&self.1, state1, size2, state2)
                &&& heap_measured(&self.2, state2, size3, state3)
                &&& heap_measured(&self.3, state3, size4, state4)
                &&& heap_measured(&self.4, state4, size5, state5)
                &&& heap_measured(&self.5, state5, size6, state6)
                &&& heap_measured(&self.6, state6, size7, after)
                &&& bytes == saturate(size1 + size2 + size3 + size4 + size5 + size6 + size7)
            }
    }

    fn get_heap_size_with_tracker<T: GetSizeTracker>(&self, tracker: T) -> (measured: (usize, T)) {
        let total: usize = 0;
        let tracker0 = tracker;
        let (v1, v2, v3, v4, v5, v6, v7) = self;
        let (size1, tracker1) = v1.get_heap_size_with_tracker(tracker0);
        let total = add_size(total, size1, Ghost(0));
        let (size2, tracker2) = v2.get_heap_size_with_tracker(tracker1);
        let total = add_size(total, size2, Ghost(size1 as int));
        proof {
            lemma_extends_transitive(tracker0.state(), tracker1.state(), tracker2.state());
        }
        let (size3, tracker3) = v3.get_heap_size_with_tracker(tracker2);
        let total = add_size(total, size3, Ghost(size1 + size2));
        proof {
            lemma_extends_transitive(tracker0.state(), tracker2.state(), tracker3.state());
        }
        let (size4, tracker4) = v4.get_heap_size_with_tracker(tracker3);
        let total = add_size(total, size4, Ghost(size1 + size2 + size3));
        proof {
            lemma_extends_transitive(tracker0.state(), tracker3.state(), tracker4.state());
        }
        let (size5, tracker5) = v5.get_heap_size_with_tracker(tracker4);
        let total = add_size(total, size5, Ghost(size1 + size2 + size3 + size4));
        proof {
            lemma_extends_transitive(tracker0.state(), tracker4.state(), tracker5.state());
        }
        let (size6, tracker6) = v6.get_heap_size_with_tracker(tracker5);
        let total = add_size(total, size6, Ghost(size1 + size2 + size3 + size4 + size5));
        proof {
            lemma_extends_transitive(tracker0.state(), tracker5.state(), tracker6.state());
        }
        let (size7, tracker7) = v7.get_heap_size_with_tracker(tracker6);
        let total = add_size(total, size7, Ghost(size1 + size2 + size3 + size4 + size5 + size6));
        proof {
            lemma_extends_transitive(tracker0.state(), tracker6.state(), tracker7.state());
        }
        assert(heap_measured(v1, tracker0.state(), size1, tracker1.state()));
        assert(heap_measured(v2, tracker1.state(), size2, tracker2.state()));
        assert(heap_measured(v3, tracker2.state(), size3, tracker3.state()));
        assert(heap_measured(v4, tracker3.state(), size4, tracker4.state()));
        assert(heap_measured(v5, tracker4.state(), size5, tracker5.state()));
        assert(heap_measured(v6, tracker5.state(), size6, tracker6.state()));
        assert(heap_measured(v7, tracker6.state(), size7, tracker7.state()));
        (total, tracker7)
    }
}

impl<V1: GetSize, V2: GetSize, V3: GetSize, V4: GetSize, V5: GetSize, V6: GetSize, V7: GetSize, V8: GetSize> GetSize for (V1, V2, V3, V4, V5, V6, V7, V8) {
    open spec fn heap_size_is(&self, before: TrackerState, bytes: usize, after: TrackerState) -> bool {
        exists|size1: usize, size2: usize, size3: usize, size4: usize, size5: usize, size6: usize, size7: usize, size8: usize, state1: TrackerState, state2: TrackerState, state3: TrackerState, state4: TrackerState, state5: TrackerState, state6: TrackerState, state7: TrackerState|
            #![trigger heap_measured(&self.0, before, size1, state1), heap_measured(&self.1, state1, size2, state2), heap_measured(&self.2, state2, size3, state3), heap_measured(&self.3, state3, size4, state4), heap_measured(&self.4, state4, size5, state5), heap_measured(&self.5, state5, size6, state6), heap_measured(&self.6, state6, size7, state7), heap_measured(&self.7, state7, size8, after)]
            {
                &&& heap_measured(&self.0, before, size1, state1)
                &&& heap_measured(&self.1, state1, size2, state2)
                &&& heap_measured(&self.2, state2, size3, state3)
                &&& heap_measured(&self.3, state3, size4, state4)
                &&& heap_measured(&self.4, state4, size5, state5)
                &&& heap_measured(&self.5, state5, size6, state6)
                &&& heap_measured(&self.6, state6, size7, state7)
                &&& heap_measured(&self.7, state7, size8, after)
                &&& bytes == saturate(size1 + size2 + size3 + size4 + size5 + size6 + size7 + size8)
            }
    }

    fn get_heap_size_with_tracker<T: GetSizeTracker>(&self, tracker: T) -> (measured: (usize, T)) {
        let total: usize = 0;
        let tracker0 = tracker;
        let (v1, v2, v3, v4, v5, v6, v7, v8) = self;
        let (size1, tracker1) = v1.get_heap_size_with_tracker(tracker0);
        let total = add_size(total, size1, Ghost(0));
        let (size2, tracker2) = v2.get_heap_size_with_tracker(tracker1);
        let total = add_size(total, size2, Ghost(size1 as int));
        proof {
            lemma_extends_transitive(tracker0.state(), tracker1.state(), tracker2.state());
        }
        let (size3, tracker3) = v3.get_heap_size_with_tracker(tracker2);
        let total = add_size(total, size3, Ghost(size1 + size2));
        proof {
            lemma_extends_transitive(tracker0.state(), tracker2.state(), tracker3.state());
        }
        let (size4, tracker4) = v4.get_heap_size_with_tracker(tracker3);
        let total = add_size(total, size4, Ghost(size1 + size2 + size3));
        proof {
            lemma_extends_transitive(tracker0.state(), tracker3.state(), tracker4.state());
        }
        let (size5, tracker5) = v5.get_heap_size_with_tracker(tracker4);
        let total = add_size(total, size5, Ghost(size1 + size2 + size3 + size4));
        proof {
            lemma_extends_transitive(tracker0.state(), tracker4.state(), tracker5.state());
        }
        let (size6, tracker6) = v6.get_heap_size_with_tracker(tracker5);
        let total = add_size(total, size6, Ghost(size1 + size2 + size3 + size4 + size5));
        proof {
            lemma_extends_transitive(tracker0.state(), tracker5.state(), tracker6.state());
        }
        let (size7, tracker7) = v7.get_heap_size_with_tracker(tracker6);
        let total = add_size(total, size7, Ghost(size1 + size2 + size3 + size4 + size5 + size6));
        proof {
            lemma_extends_transitive(tracker0.state(), tracker6.state(), tracker7.state());
        }
        let (size8, tracker8) = v8.get_heap_size_with_tracker(tracker7);
        let total = add_size(total, size8, Ghost(size1 + size2 + size3 + size4 + size5 + size6 + size7));
        proof {
            lemma_extends_transitive(tracker0.state(), tracker7.state(), tracker8.state());
        }
        assert(heap_measured(v1, tracker0.state(), size1, tracker1.state()));
        assert(heap_measured(v2, tracker1.state(), size2, tracker2.state()));
        assert(heap_measured(v3, tracker2.state(), size3, tracker3.state()));
        assert(heap_measured(v4, tracker3.state(), size4, tracker4.state()));
        assert(heap_measured(v5, tracker4.state(), size5, tracker5.state()));
        assert(heap_measured(v6, tracker5.state(), size6, tracker6.state()));
        assert(heap_measured(v7, tracker6.state(), size7, tracker7.state()));
        assert(heap_measured(v8, tracker7.state(), size8, tracker8.state()));
        (total, tracker8)
    }
}

impl<V1: GetSize, V2: GetSize, V3: GetSize, V4: GetSize, V5: GetSize, V6: GetSize, V7: GetSize, V8: GetSize, V9: GetSize> GetSize for (V1, V2, V3, V4, V5, V6, V7, V8, V9) {
    open spec fn heap_size_is(&self, before: TrackerState, bytes: usize, after: TrackerState) -> bool {
        exists|size1: usize, size2: usize, size3: usize, size4: usize, size5: usize, size6: usize, size7: usize, size8: usize, size9: usize, state1: TrackerState, state2: TrackerState, state3: TrackerState, state4: TrackerState, state5: TrackerState, state6: TrackerState, state7: TrackerState, state8: TrackerState|
            #![trigger heap_measured(&self.0, before, size1, state1), heap_measured(&self.1, state1, size2, state2), heap_measured(&self.2, state2, size3, state3), heap_measured(&self.3, state3, size4, state4), heap_measured(&self.4, state4, size5, state5), heap_measured(&self.5, state5, size6, state6), heap_measured(&self.6, state6, size7, state7), heap_measured(&self.7, state7, size8, state8), heap_measured(&self.8, state8, size9, after)]
            {
                &&& heap_measured(&self.0, before, size1, state1)
                &&& heap_measured(&self.1, state1, size2, state2)
                &&& heap_measured(&self.2, state2, size3, state3)
                &&& heap_measured(&self.3, state3, size4, state4)
                &&& heap_measured(&self.4, state4, size5, state5)
                &&& heap_measured(&self.5, state5, size6, state6)
                &&& heap_measured(&self.6, state6, size7, state7)
                &&& heap_measured(&self.7, state7, size8, state8)
                &&& heap_measured(&self.8, state8, size9, after)
                &&& bytes == saturate(size1 + size2 + size3 + size4 + size5 + size6 + size7 + size8 + size9)
            }
    }

    fn get_heap_size_with_tracker<T: GetSizeTracker>(&self, tracker: T) -> (measured: (usize, T)) {
        let total: usize = 0;
        let tracker0 = tracker;
        let (v1, v2, v3, v4, v5, v6, v7, v8, v9) = self;
        let (size1, tracker1) = v1.get_heap_size_with_tracker(tracker0);
        let total = add_size(total, size1, Ghost(0));
        let (size2, tracker2) = v2.get_heap_size_with_tracker(tracker1);
        let total = add_size(total, size2, Ghost(size1 as int));
        proof {
            lemma_extends_transitive(tracker0.state(), tracker1.state(), tracker2.state());
        }
        let (size3, tracker3) = v3.get_heap_size_with_tracker(tracker2);
        let total = add_size(total, size3, Ghost(size1 + size2));
        proof {
            lemma_extends_transitive(tracker0.state(), tracker2.state(), tracker3.state());
        }
        let (size4, tracker4) = v4.get_heap_size_with_tracker(tracker3);
        let total = add_size(total, size4, Ghost(size1 + size2 + size3));
        proof {
            lemma_extends_transitive(tracker0.state(), tracker3.state(), tracker4.state());
        }
        let (size5, tracker5) = v5.get_heap_size_with_tracker(tracker4);
        let total = add_size(total, size5, Ghost(size1 + size2 + size3 + size4));
        proof {
            lemma_extends_transitive(tracker0.state(), tracker4.state(), tracker5.state());
        }
        let (size6, tracker6) = v6.get_heap_size_with_tracker(tracker5);
        let total = add_size(total, size6, Ghost(size1 + size2 + size3 + size4 + size5));
        proof {
            lemma_extends_transitive(tracker0.state(), tracker5.state(), tracker6.state());
        }
        let (size7, tracker7) = v7.get_heap_size_with_tracker(tracker6);
        let total = add_size(total, size7, Ghost(size1 + size2 + size3 + size4 + size5 + size6));
        proof {
            lemma_extends_transitive(tracker0.state(), tracker6.state(), tracker7.state());
        }
        let (size8, tracker8) = v8.get_heap_size_with_tracker(tracker7);
        let total = add_size(total, size8, Ghost(size1 + size2 + size3 + size4 + size5 + size6 + size7));
        proof {
            lemma_extends_transitive(tracker0.state(), tracker7.state(), tracker8.state());
        }
        let (size9, tracker9) = v9.get_heap_size_with_tracker(tracker8);
        let total = add_size(total, size9, Ghost(size1 + size2 + size3 + size4 + size5 + size6 + size7 + size8));
        proof {
            lemma_extends_transitive(tracker0.state(), tracker8.state(), tracker9.state());
        }
        assert(heap_measured(v1, tracker0.state(), size1, tracker1.state()));
        assert(heap_measured(v2, tracker1.state(), size2, tracker2.state()));
        assert(heap_measured(v3, tracker2.state(), size3, tracker3.state()));
        assert(heap_measured(v4, tracker3.state(), size4, tracker4.state()));
        assert(heap_measured(v5, tracker4.state(), size5, tracker5.state()));
        assert(heap_measured(v6, tracker5.state(), size6, tracker6.state()));
        assert(heap_measured(v7, tracker6.state(), size7, tracker7.state()));
        assert(heap_measured(v8, tracker7.state(), size8, tracker8.state()));
        assert(heap_measured(v9, tracker8.state(), size9, tracker9.state()));
        (total, tracker9)
    }
}

impl<V1: GetSize, V2: GetSize, V3: GetSize, V4: GetSize, V5: GetSize, V6: GetSize, V7: GetSize, V8: GetSize, V9: GetSize, V10: GetSize> GetSize for (V1, V2, V3, V4, V5, V6, V7, V8, V9, V10) {
    open spec fn heap_size_is(&self, before: TrackerState, bytes: usize, after: TrackerState) -> bool {
        exists|size1: usize, size2: usize, size3: usize, size4: usize, size5: usize, size6: usize, size7: usize, size8: usize, size9: usize, size10: usize, state1: TrackerState, state2: TrackerState, state3: TrackerState, state4: TrackerState, state5: TrackerState, state6: TrackerState, state7: TrackerState, state8: TrackerState, state9: TrackerState|
            #![trigger heap_measured(&self.0, before, size1, state1), heap_measured(&self.1, state1, size2, state2), heap_measured(&self.2, state2, size3, state3), heap_measured(&self.3, state3, size4, state4), heap_measured(&self.4, state4, size5, state5), heap_measured(&self.5, state5, size6, state6), heap_measured(&self.6, state6, size7, state7), heap_measured(&self.7, state7, size8, state8), heap_measured(&self.8, state8, size9, state9), heap_measured(&self.9, state9, size10, after)]
            {
                &&& heap_measured(&self.0, before, size1, state1)
                &&& heap_measured(&self.1, state1, size2, state2)
                &&& heap_measured(&self.2, state2, size3, state3)
                &&& heap_measured(&self.3, state3, size4, state4)
                &&& heap_measured(&self.4, state4, size5, state5)
                &&& heap_measured(&self.5, state5, size6, state6)
                &&& heap_measured(&self.6, state6, size7, state7)
                &&& heap_measured(&self.7, state7, size8, state8)
                &&& heap_measured(&self.8, state8, size9, state9)
                &&& heap_measured(&self.9, state9, size10, after)
                &&& bytes == saturate(size1 + size2 + size3 + size4 + size5 + size6 + size7 + size8 + size9 + size10)
            }
    }

    fn get_heap_size_with_tracker<T: GetSizeTracker>(&self, tracker: T) -> (measured: (usize, T)) {
        let total: usize = 0;
        let tracker0 = tracker;
        let (v1, v2, v3, v4, v5, v6, v7, v8, v9, v10) = self;
        let (size1, tracker1) = v1.get_heap_size_with_tracker(tracker0);
        let total = add_size(total, size1, Ghost(0));
        let (size2, tracker2) = v2.get_heap_size_with_tracker(tracker1);
        let total = add_size(total, size2, Ghost(size1 as int));
        proof {
            lemma_extends_transitive(tracker0.state(), tracker1.state(), tracker2.state());
        }
        let (size3, tracker3) = v3.get_heap_size_with_tracker(tracker2);
        let total = add_size(total, size3, Ghost(size1 + size2));
        proof {
            lemma_extends_transitive(tracker0.state(), tracker2.state(), tracker3.state());
        }
        let (size4, tracker4) = v4.get_heap_size_with_tracker(tracker3);
        let total = add_size(total, size4, Ghost(size1 + size2 + size3));
        proof {
            lemma_extends_transitive(tracker0.state(), tracker3.state(), tracker4.state());
        }
        let (size5, tracker5) = v5.get_heap_size_with_tracker(tracker4);
        let total = add_size(total, size5, Ghost(size1 + size2 + size3 + size4));
        proof {
            lemma_extends_transitive(tracker0.state(), tracker4.state(), tracker5.state());
        }
        let (size6, tracker6) = v6.get_heap_size_with_tracker(tracker5);
        let total = add_size(total, size6, Ghost(size1 + size2 + size3 + size4 + size5));
        proof {
            lemma_extends_transitive(tracker0.state(), tracker5.state(), tracker6.state());
        }
        let (size7, tracker7) = v7.get_heap_size_with_tracker(tracker6);
        let total = add_size(total, size7, Ghost(size1 + size2 + size3 + size4 + size5 + size6));
        proof {
            lemma_extends_transitive(tracker0.state(), tracker6.state(), tracker7.state());
        }
        let (size8, tracker8) = v8.get_heap_size_with_tracker(tracker7);
        let total = add_size(total, size8, Ghost(size1 + size2 + size3 + size4 + size5 + size6 + size7));
        proof {
            lemma_extends_transitive(tracker0.state(), tracker7.state(), tracker8.state());
        }
        let (size9, tracker9) = v9.get_heap_size_with_tracker(tracker8);
        let total = add_size(total, size9, Ghost(size1 + size2 + size3 + size4 + size5 + size6 + size7 + size8));
        proof {
            lemma_extends_transitive(tracker0.state(), tracker8.state(), tracker9.state());
        }
        let (size10, tracker10) = v10.get_heap_size_with_tracker(tracker9);
        let total = add_size(total, size10, Ghost(size1 + size2 + size3 + size4 + size5 + size6 + size7 + size8 + size9));
        proof {
            lemma_extends_transitive(tracker0.state(), tracker9.state(), tracker10.state());
        }
        assert(heap_measured(v1, tracker0.state(), size1, tracker1.state()));
        assert(heap_measured(v2, tracker1.state(), size2, tracker2.state()));
        assert(heap_measured(v3, tracker2.state(), size3, tracker3.state()));
        assert(heap_measured(v4, tracker3.state(), size4, tracker4.state()));
        assert(heap_measured(v5, tracker4.state(), size5, tracker5.state()));
        assert(heap_measured(v6, tracker5.state(), size6, tracker6.state()));
        assert(heap_measured(v7, tracker6.state(), size7, tracker7.state()));
        assert(heap_measured(v8, tracker7.state(), size8, tracker8.state()));
        assert(heap_measured(v9, tracker8.state(), size9, tracker9.state()));
        assert(heap_measured(v10, tracker9.state(), size10, tracker10.state()));
        (total, tracker10)
    }
}

impl<V1: GetSize, V2: GetSize, V3: GetSize, V4: GetSize, V5: GetSize, V6: GetSize, V7: GetSize, V8: GetSize, V9: GetSize, V10: GetSize, V11: GetSize> GetSize for (V1, V2, V3, V4, V5, V6, V7, V8, V9, V10, V11) {
    open spec fn heap_size_is(&self, before: TrackerState, bytes: usize, after: TrackerState) -> bool {
        exists|size1: usize, size2: usize, size3: usize, size4: usize, size5: usize, size6: usize, size7: usize, size8: usize, size9: usize, size10: usize, size11: usize, state1: TrackerState, state2: TrackerState, state3: TrackerState, state4: TrackerState, state5: TrackerState, state6: TrackerState, state7: TrackerState, state8: TrackerState, state9: TrackerState, state10: TrackerState|
            #![trigger heap_measured(&self.0, before, size1, state1), heap_measured(&self.1, state1, size2, state2), heap_measured(&self.2, state2, size3, state3), heap_measured(&self.3, state3, size4, state4), heap_measured(&self.4, state4, size5, state5), heap_measured(&self.5, state5, size6, state6), heap_measured(&self.6, state6, size7, state7), heap_measured(&self.7, state7, size8, state8), heap_measured(&self.8, state8, size9, state9), heap_measured(&self.9, state9, size10, state10), heap_measured(&self.10, state10, size11, after)]
            {
                &&& heap_measured(&self.0, before, size1, state1)
                &&& heap_measured(&self.1, state1, size2, state2)
                &&& heap_measured(&self.2, state2, size3, state3)
                &&& heap_measured(&self.3, state3, size4, state4)
                &&& heap_measured(&self.4, state4, size5, state5)
                &&& heap_measured(&self.5, state5, size6, state6)
                &&& heap_measured(&self.6, state6, size7, state7)
                &&& heap_measured(&self.7, state7, size8, state8)
                &&& heap_measured(&self.8, state8, size9, state9)
                &&& heap_measured(&self.9, state9, size10, state10)
                &&& heap_measured(&self.10, state10, size11, after)
                &&& bytes == saturate(size1 + size2 + size3 + size4 + size5 + size6 + size7 + size8 + size9 + size10 + size11)
            }
    }

    fn get_heap_size_with_tracker<T: GetSizeTracker>(&self, tracker: T) -> (measured: (usize, T)) {
        let total: usize = 0;
        let tracker0 = tracker;
        let (v1, v2, v3, v4, v5, v6, v7, v8, v9, v10, v11) = self;
        let (size1, tracker1) = v1.get_heap_size_with_tracker(tracker0);
        let total = add_size(total, size1, Ghost(0));
        let (size2, tracker2) = v2.get_heap_size_with_tracker(tracker1);
        let total = add_size(total, size2, Ghost(size1 as int));
        proof {
            lemma_extends_transitive(tracker0.state(), tracker1.state(), tracker2.state());
        }
        let (size3, tracker3) = v3.get_heap_size_with_tracker(tracker2);
        let total = add_size(total, size3, Ghost(size1 + size2));
        proof {
            lemma_extends_transitive(tracker0.state(), tracker2.state(), tracker3.state());
        }
        let (size4, tracker4) = v4.get_heap_size_with_tracker(tracker3);
        let total = add_size(total, size4, Ghost(size1 + size2 + size3));
        proof {
            lemma_extends_transitive(tracker0.state(), tracker3.state(), tracker4.state());
        }
        let (size5, tracker5) = v5.get_heap_size_with_tracker(tracker4);
        let total = add_size(total, size5, Ghost(size1 + size2 + size3 + size4));
        proof {
            lemma_extends_transitive(tracker0.state(), tracker4.state(), tracker5.state());
        }
        let (size6, tracker6) = v6.get_heap_size_with_tracker(tracker5);
        let total = add_size(total, size6, Ghost(size1 + size2 + size3 + size4 + size5));
        proof {
            lemma_extends_transitive(tracker0.state(), tracker5.state(), tracker6.state());
        }
        let (size7, tracker7) = v7.get_heap_size_with_tracker(tracker6);
        let total = add_size(total, size7, Ghost(size1 + size2 + size3 + size4 + size5 + size6));
        proof {
            lemma_extends_transitive(tracker0.state(), tracker6.state(), tracker7.state());
        }
        let (size8, tracker8) = v8.get_heap_size_with_tracker(tracker7);
        let total = add_size(total, size8, Ghost(size1 + size2 + size3 + size4 + size5 + size6 + size7));
        proof {
            lemma_extends_transitive(tracker0.state(), tracker7.state(), tracker8.state());
        }
        let (size9, tracker9) = v9.get_heap_size_with_tracker(tracker8);
        let total = add_size(total, size9, Ghost(size1 + size2 + size3 + size4 + size5 + size6 + size7 + size8));
        proof {
            lemma_extends_transitive(tracker0.state(), tracker8.state(), tracker9.state());
        }
        let (size10, tracker10) = v10.get_heap_size_with_tracker(tracker9);
        let total = add_size(total, size10, Ghost(size1 + size2 + size3 + size4 + size5 + size6 + size7 + size8 + size9));
        proof {
            lemma_extends_transitive(tracker0.state(), tracker9.state(), tracker10.state());
        }
        let (size11, tracker11) = v11.get_heap_size_with_tracker(tracker10);
        let total = add_size(total, size11, Ghost(size1 + size2 + size3 + size4 + size5 + size6 + size7 + size8 + size9 + size10));
        proof {
            lemma_extends_transitive(tracker0.state(), tracker10.state(), tracker11.state());
        }
        assert(heap_measured(v1, tracker0.state(), size1, tracker1.state()));
        assert(heap_measured(v2, tracker1.state(), size2, tracker2.state()));
        assert(heap_measured(v3, tracker2.state(), size3, tracker3.state()));
        assert(heap_measured(v4, tracker3.state(), size4, tracker4.state()));
        assert(heap_measured(v5, tracker4.state(), size5, tracker5.state()));
        assert(heap_measured(v6, tracker5.state(), size6, tracker6.state()));
        assert(heap_measured(v7, tracker6.state(), size7, tracker7.state()));
        assert(heap_measured(v8, tracker7.state(), size8, tracker8.state()));
        assert(heap_measured(v9, tracker8.state(), size9, tracker9.state()));
        assert(heap_measured(v10, tracker9.state(), size10, tracker10.state()));
        assert(heap_measured(v11, tracker10.state(), size11, tracker11.state()));
        (total, tracker11)
    }
}

impl<V1: GetSize, V2: GetSize, V3: GetSize, V4: GetSize, V5: GetSize, V6: GetSize, V7: GetSize, V8: GetSize, V9: GetSize, V10: GetSize, V11: GetSize, V12: GetSize> GetSize for (V1, V2, V3, V4, V5, V6, V7, V8, V9, V10, V11, V12) {
    open spec fn heap_size_is(&self, before: TrackerState, bytes: usize, after: TrackerState) -> bool {
        exists|size1: usize, size2: usize, size3: usize, size4: usize, size5: usize, size6: usize, size7: usize, size8: usize, size9: usize, size10: usize, size11: usize, size12: usize, state1: TrackerState, state2: TrackerState, state3: TrackerState, state4: TrackerState, state5: TrackerState, state6: TrackerState, state7: TrackerState, state8: TrackerState, state9: TrackerState, state10: TrackerState, state11: TrackerState|
            #![trigger heap_measured(&self.0, before, size1, state1), heap_measured(&self.1, state1, size2, state2), heap_measured(&self.2, state2, size3, state3), heap_measured(&self.3, state3, size4, state4), heap_measured(&self.4, state4, size5, state5), heap_measured(&self.5, state5, size6, state6), heap_measured(&self.6, state6, size7, state7), heap_measured(&self.7, state7, size8, state8), heap_measured(&self.8, state8, size9, state9), heap_measured(&self.9, state9, size10, state10), heap_measured(&self.10, state10, size11, state11), heap_measured(&self.11, state11, size12, after)]
            {
                &&& heap_measured(&self.0, before, size1, state1)
                &&& heap_measured(&self.1, state1, size2, state2)
                &&& heap_measured(&self.2, state2, size3, state3)
                &&& heap_measured(&self.3, state3, size4, state4)
                &&& heap_measured(&self.4, state4, size5, state5)
                &&& heap_measured(&self.5, state5, size6, state6)
                &&& heap_measured(&self.6, state6, size7, state7)
                &&& heap_measured(&self.7, state7, size8, state8)
                &&& heap_measured(&self.8, state8, size9, state9)
                &&& heap_measured(&self.9, state9, size10, state10)
                &&& heap_measured(&self.10, state10, size11, state11)
                &&& heap_measured(&self.11, state11, size12, after)
                &&& bytes == saturate(size1 + size2 + size3 + size4 + size5 + size6 + size7 + size8 + size9 + size10 + size11 + size12)
            }
    }

    fn get_heap_size_with_tracker<T: GetSizeTracker>(&self, tracker: T) -> (measured: (usize, T)) {
        let total: usize = 0;
        let tracker0 = tracker;
        let (v1, v2, v3, v4, v5, v6, v7, v8, v9, v10, v11, v12) = self;
        let (size1, tracker1) = v1.get_heap_size_with_tracker(tracker0);
        let total = add_size(total, size1, Ghost(0));
        let (size2, tracker2) = v2.get_heap_size_with_tracker(tracker1);
        let total = add_size(total, size2, Ghost(size1 as int));
        proof {
            lemma_extends_transitive(tracker0.state(), tracker1.state(), tracker2.state());
        }
        let (size3, tracker3) = v3.get_heap_size_with_tracker(tracker2);
        let total = add_size(total, size3, Ghost(size1 + size2));
        proof {
            lemma_extends_transitive(tracker0.state(), tracker2.state(), tracker3.state());
        }
        let (size4, tracker4) = v4.get_heap_size_with_tracker(tracker3);
        let total = add_size(total, size4, Ghost(size1 + size2 + size3));
        proof {
            lemma_extends_transitive(tracker0.state(), tracker3.state(), tracker4.state());
        }
        let (size5, tracker5) = v5.get_heap_size_with_tracker(tracker4);
        let total = add_size(total, size5, Ghost(size1 + size2 + size3 + size4));
        proof {
            lemma_extends_transitive(tracker0.state(), tracker4.state(), tracker5.state());
        }
        let (size6, tracker6) = v6.get_heap_size_with_tracker(tracker5);
        let total = add_size(total, size6, Ghost(size1 + size2 + size3 + size4 + size5));
        proof {
            lemma_extends_transitive(tracker0.state(), tracker5.state(), tracker6.state());
        }
        let (size7, tracker7) = v7.get_heap_size_with_tracker(tracker6);
        let total = add_size(total, size7, Ghost(size1 + size2 + size3 + size4 + size5 + size6));
        proof {
            lemma_extends_transitive(tracker0.state(), tracker6.state(), tracker7.state());
        }
        let (size8, tracker8) = v8.get_heap_size_with_tracker(tracker7);
        let total = add_size(total, size8, Ghost(size1 + size2 + size3 + size4 + size5 + size6 + size7));
        proof {
            lemma_extends_transitive(tracker0.state(), tracker7.state(), tracker8.state());
        }
        let (size9, tracker9) = v9.get_heap_size_with_tracker(tracker8);
        let total = add_size(total, size9, Ghost(size1 + size2 + size3 + size4 + size5 + size6 + size7 + size8));
        proof {
            lemma_extends_transitive(tracker0.state(), tracker8.state(), tracker9.state());
        }
        let (size10, tracker10) = v10.get_heap_size_with_tracker(tracker9);
        let total = add_size(total, size10, Ghost(size1 + size2 + size3 + size4 + size5 + size6 + size7 + size8 + size9));
        proof {
            lemma_extends_transitive(tracker0.state(), tracker9.state(), tracker10.state());
        }
        let (size11, tracker11) = v11.get_heap_size_with_tracker(tracker10);
        let total = add_size(total, size11, Ghost(size1 + size2 + size3 + size4 + size5 + size6 + size7 + size8 + size9 + size10));
        proof {
            lemma_extends_transitive(tracker0.state(), tracker10.state(), tracker11.state());
        }
        let (size12, tracker12) = v12.get_heap_size_with_tracker(tracker11);
        let total = add_size(total, size12, Ghost(size1 + size2 + size3 + size4 + size5 + size6 + size7 + size8 + size9 + size10 + size11));
        proof {
            lemma_extends_transitive(tracker0.state(), tracker11.state(), tracker12.state());
        }
        assert(heap_measured(v1, tracker0.state(), size1, tracker1.state()));
        assert(heap_measured(v2, tracker1.state(), size2, tracker2.state()));
        assert(heap_measured(v3, tracker2.state(), size3, tracker3.state()));
        assert(heap_measured(v4, tracker3.state(), size4, tracker4.state()));
        assert(heap_measured(v5, tracker4.state(), size5, tracker5.state()));
        assert(heap_measured(v6, tracker5.state(), size6, tracker6.state()));
        assert(heap_measured(v7, tracker6.state(), size7, tracker7.state()));
        assert(heap_measured(v8, tracker7.state(), size8, tracker8.state()));
        assert(heap_measured(v9, tracker8.state(), size9, tracker9.state()));
        assert(heap_measured(v10, tracker9.state(), size10, tracker10.state()));
        assert(heap_measured(v11, tracker10.state(), size11, tracker11.state()));
        assert(heap_measured(v12, tracker11.state(), size12, tracker12.state()));
        (total, tracker12)
    }
}

impl<V1: GetSize, V2: GetSize, V3: GetSize, V4: GetSize, V5: GetSize, V6: GetSize, V7: GetSize, V8: GetSize, V9: GetSize, V10: GetSize, V11: GetSize, V12: GetSize, V13: GetSize> GetSize for (V1, V2, V3, V4, V5, V6, V7, V8, V9, V10, V11, V12, V13) {
    open spec fn heap_size_is(&self, before: TrackerState, bytes: usize, after: TrackerState) -> bool {
        exists|size1: usize, size2: usize, size3: usize, size4: usize, size5: usize, size6: usize, size7: usize, size8: usize, size9: usize, size10: usize, size11: usize, size12: usize, size13: usize, state1: TrackerState, state2: TrackerState, state3: TrackerState, state4: TrackerState, state5: TrackerState, state6: TrackerState, state7: TrackerState, state8: TrackerState, state9: TrackerState, state10: TrackerState, state11: TrackerState, state12: TrackerState|
            #![trigger heap_measured(&self.0, before, size1, state1), heap_measured(&self.1, state1, size2, state2), heap_measured(&self.2, state2, size3, state3), heap_measured(&self.3, state3, size4, state4), heap_measured(&self.4, state4, size5, state5), heap_measured(&self.5, state5, size6, state6), heap_measured(&self.6, state6, size7, state7), heap_measured(&self.7, state7, size8, state8), heap_measured(&self.8, state8, size9, state9), heap_measured(&self.9, state9, size10, state10), heap_measured(&self.10, state10, size11, state11), heap_measured(&self.11, state11, size12, state12), heap_measured(&self.12, state12, size13, after)]
            {
                &&& heap_measured(&self.0, before, size1, state1)
                &&& heap_measured(&self.1, state1, size2, state2)
                &&& heap_measured(&self.2, state2, size3, state3)
                &&& heap_measured(&self.3, state3, size4, state4)
                &&& heap_measured(&self.4, state4, size5, state5)
                &&& heap_measured(&self.5, state5, size6, state6)
                &&& heap_measured(&self.6, state6, size7, state7)
                &&& heap_measured(&self.7, state7, size8, state8)
                &&& heap_measured(&self.8, state8, size9, state9)
                &&& heap_measured(&self.9, state9, size10, state10)
                &&& heap_measured(&self.10, state10, size11, state11)
                &&& heap_measured(&self.11, state11, size12, state12)
                &&& heap_measured(&self.12, state12, size13, after)
                &&& bytes == saturate(size1 + size2 + size3 + size4 + size5 + size6 + size7 + size8 + size9 + size10 + size11 + size12 + size13)
            }
    }

    fn get_heap_size_with_tracker<T: GetSizeTracker>(&self, tracker: T) -> (measured: (usize, T)) {
        let total: usize = 0;
        let tracker0 = tracker;
        let (v1, v2, v3, v4, v5, v6, v7, v8, v9, v10, v11, v12, v13) = self;
        let (size1, tracker1) = v1.get_heap_size_with_tracker(tracker0);
        let total = add_size(total, size1, Ghost(0));
        let (size2, tracker2) = v2.get_heap_size_with_tracker(tracker1);
        let total = add_size(total, size2, Ghost(size1 as int));
        proof {
            lemma_extends_transitive(tracker0.state(), tracker1.state(), tracker2.state());
        }
        let (size3, tracker3) = v3.get_heap_size_with_tracker(tracker2);
        let total = add_size(total, size3, Ghost(size1 + size2));
        proof {
            lemma_extends_transitive(tracker0.state(), tracker2.state(), tracker3.state());
        }
        let (size4, tracker4) = v4.get_heap_size_with_tracker(tracker3);
        let total = add_size(total, size4, Ghost(size1 + size2 + size3));
        proof {
            lemma_extends_transitive(tracker0.state(), tracker3.state(), tracker4.state());
        }
        let (size5, tracker5) = v5.get_heap_size_with_tracker(tracker4);
        let total = add_size(total, size5, Ghost(size1 + size2 + size3 + size4));
        proof {
            lemma_extends_transitive(tracker0.state(), tracker4.state(), tracker5.state());
        }
        let (size6, tracker6) = v6.get_heap_size_with_tracker(tracker5);
        let total = add_size(total, size6, Ghost(size1 + size2 + size3 + size4 + size5));
        proof {
            lemma_extends_transitive(tracker0.state(), tracker5.state(), tracker6.state());
        }
        let (size7, tracker7) = v7.get_heap_size_with_tracker(tracker6);
        let total = add_size(total, size7, Ghost(size1 + size2 + size3 + size4 + size5 + size6));
        proof {
            lemma_extends_transitive(tracker0.state(), tracker6.state(), tracker7.state());
        }
        let (size8, tracker8) = v8.get_heap_size_with_tracker(tracker7);
        let total = add_size(total, size8, Ghost(size1 + size2 + size3 + size4 + size5 + size6 + size7));
        proof {
            lemma_extends_transitive(tracker0.state(), tracker7.state(), tracker8.state());
        }
        let (size9, tracker9) = v9.get_heap_size_with_tracker(tracker8);
        let total = add_size(total, size9, Ghost(size1 + size2 + size3 + size4 + size5 + size6 + size7 + size8));
        proof {
            lemma_extends_transitive(tracker0.state(), tracker8.state(), tracker9.state());
        }
        let (size10, tracker10) = v10.get_heap_size_with_tracker(tracker9);
        let total = add_size(total, size10, Ghost(size1 + size2 + size3 + size4 + size5 + size6 + size7 + size8 + size9));
        proof {
            lemma_extends_transitive(tracker0.state(), tracker9.state(), tracker10.state());
        }
        let (size11, tracker11) = v11.get_heap_size_with_tracker(tracker10);
        let total = add_size(total, size11, Ghost(size1 + size2 + size3 + size4 + size5 + size6 + size7 + size8 + size9 + size10));
        proof {
            lemma_extends_transitive(tracker0.state(), tracker10.state(), tracker11.state());
        }
        let (size12, tracker12) = v12.get_heap_size_with_tracker(tracker11);
        let total = add_size(total, size12, Ghost(size1 + size2 + size3 + size4 + size5 + size6 + size7 + size8 + size9 + size10 + size11));
        proof {
            lemma_extends_transitive(tracker0.state(), tracker11.state(), tracker12.state());
        }
        let (size13, tracker13) = v13.get_heap_size_with_tracker(tracker12);
        let total = add_size(total, size13, Ghost(size1 + size2 + size3 + size4 + size5 + size6 + size7 + size8 + size9 + size10 + size11 + size12));
        proof {
            lemma_extends_transitive(tracker0.state(), tracker12.state(), tracker13.state());
        }
        assert(heap_measured(v1, tracker0.state(), size1, tracker1.state()));
        assert(heap_measured(v2, tracker1.state(), size2, tracker2.state()));
        assert(heap_measured(v3, tracker2.state(), size3, tracker3.state()));
        assert(heap_measured(v4, tracker3.state(), size4, tracker4.state()));
        assert(heap_measured(v5, tracker4.state(), size5, tracker5.state()));
        assert(heap_measured(v6, tracker5.state(), size6, tracker6.state()));
        assert(heap_measured(v7, tracker6.state(), size7, tracker7.state()));
        assert(heap_measured(v8, tracker7.state(), size8, tracker8.state()));
        assert(heap_measured(v9, tracker8.state(), size9, tracker9.state()));
        assert(heap_measured(v10, tracker9.state(), size10, tracker10.state()));
        assert(heap_measured(v11, tracker10.state(), size11, tracker11.state()));
        assert(heap_measured(v12, tracker11.state(), size12, tracker12.state()));
        assert(heap_measured(v13, tracker12.state(), size13, tracker13.state()));
        (total, tracker13)
    }
}

impl<V1: GetSize, V2: GetSize, V3: GetSize, V4: GetSize, V5: GetSize, V6: GetSize, V7: GetSize, V8: GetSize, V9: GetSize, V10: GetSize, V11: GetSize, V12: GetSize, V13: GetSize, V14: GetSize> GetSize for (V1, V2, V3, V4, V5, V6, V7, V8, V9, V10, V11, V12, V13, V14) {
    open spec fn heap_size_is(&self, before: TrackerState, bytes: usize, after: TrackerState) -> bool {
        exists|size1: usize, size2: usize, size3: usize, size4: usize, size5: usize, size6: usize, size7: usize, size8: usize, size9: usize, size10: usize, size11: usize, size12: usize, size13: usize, size14: usize, state1: TrackerState, state2: TrackerState, state3: TrackerState, state4: TrackerState, state5: TrackerState, state6: TrackerState, state7: TrackerState, state8: TrackerState, state9: TrackerState, state10: TrackerState, state11: TrackerState, state12: TrackerState, state13: TrackerState|
            #![trigger heap_measured(&self.0, before, size1, state1), heap_measured(&self.1, state1, size2, state2), heap_measured(&self.2, state2, size3, state3), heap_measured(&self.3, state3, size4, state4), heap_measured(&self.4, state4, size5, state5), heap_measured(&self.5, state5, size6, state6), heap_measured(&self.6, state6, size7, state7), heap_measured(&self.7, state7, size8, state8), heap_measured(&self.8, state8, size9, state9), heap_measured(&self.9, state9, size10, state10), heap_measured(&self.10, state10, size11, state11), heap_measured(&self.11, state11, size12, state12), heap_measured(&self.12, state12, size13, state13), heap_measured(&self.13, state13, size14, after)]
            {
                &&& heap_measured(&self.0, before, size1, state1)
                &&& heap_measured(&self.1, state1, size2, state2)
                &&& heap_measured(&self.2, state2, size3, state3)
                &&& heap_measured(&self.3, state3, size4, state4)
                &&& heap_measured(&self.4, state4, size5, state5)
                &&& heap_measured(&self.5, state5, size6, state6)
                &&& heap_measured(&self.6, state6, size7, state7)
                &&& heap_measured(&self.7, state7, size8, state8)
                &&& heap_measured(&self.8, state8, size9, state9)
                &&& heap_measured(&self.9, state9, size10, state10)
                &&& heap_measured(&self.10, state10, size11, state11)
                &&& heap_measured(&self.11, state11, size12, state12)
                &&& heap_measured(&self.12, state12, size13, state13)
                &&& heap_measured(&self.13, state13, size14, after)
                &&& bytes == saturate(size1 + size2 + size3 + size4 + size5 + size6 + size7 + size8 + size9 + size10 + size11 + size12 + size13 + size14)
            }
    }

    fn get_heap_size_with_tracker<T: GetSizeTracker>(&self, tracker: T) -> (measured: (usize, T)) {
        let total: usize = 0;
        let tracker0 = tracker;
        let (v1, v2, v3, v4, v5, v6, v7, v8, v9, v10, v11, v12, v13, v14) = self;
        let (size1, tracker1) = v1.get_heap_size_with_tracker(tracker0);
        let total = add_size(total, size1, Ghost(0));
        let (size2, tracker2) = v2.get_heap_size_with_tracker(tracker1);
        let total = add_size(total, size2, Ghost(size1 as int));
        proof {
            lemma_extends_transitive(tracker0.state(), tracker1.state(), tracker2.state());
        }
        let (size3, tracker3) = v3.get_heap_size_with_tracker(tracker2);
        let total = add_size(total, size3, Ghost(size1 + size2));
        proof {
            lemma_extends_transitive(tracker0.state(), tracker2.state(), tracker3.state());
        }
        let (size4, tracker4) = v4.get_heap_size_with_tracker(tracker3);
        let total = add_size(total, size4, Ghost(size1 + size2 + size3));
        proof {
            lemma_extends_transitive(tracker0.state(), tracker3.state(), tracker4.state());
        }
        let (size5, tracker5) = v5.get_heap_size_with_tracker(tracker4);
        let total = add_size(total, size5, Ghost(size1 + size2 + size3 + size4));
        proof {
            lemma_extends_transitive(tracker0.state(), tracker4.state(), tracker5.state());
        }
        let (size6, tracker6) = v6.get_heap_size_with_tracker(tracker5);
        let total = add_size(total, size6, Ghost(size1 + size2 + size3 + size4 + size5));
        proof {
            lemma_extends_transitive(tracker0.state(), tracker5.state(), tracker6.state());
        }
        let (size7, tracker7) = v7.get_heap_size_with_tracker(tracker6);
        let total = add_size(total, size7, Ghost(size1 + size2 + size3 + size4 + size5 + size6));
        proof {
            lemma_extends_transitive(tracker0.state(), tracker6.state(), tracker7.state());
        }
        let (size8, tracker8) = v8.get_heap_size_with_tracker(tracker7);
        let total = add_size(total, size8, Ghost(size1 + size2 + size3 + size4 + size5 + size6 + size7));
        proof {
            lemma_extends_transitive(tracker0.state(), tracker7.state(), tracker8.state());
        }
        let (size9, tracker9) = v9.get_heap_size_with_tracker(tracker8);
        let total = add_size(total, size9, Ghost(size1 + size2 + size3 + size4 + size5 + size6 + size7 + size8));
        proof {
            lemma_extends_transitive(tracker0.state(), tracker8.state(), tracker9.state());
        }
        let (size10, tracker10) = v10.get_heap_size_with_tracker(tracker9);
        let total = add_size(total, size10, Ghost(size1 + size2 + size3 + size4 + size5 + size6 + size7 + size8 + size9));
        proof {
            lemma_extends_transitive(tracker0.state(), tracker9.state(), tracker10.state());
        }
        let (size11, tracker11) = v11.get_heap_size_with_tracker(tracker10);
        let total = add_size(total, size11, Ghost(size1 + size2 + size3 + size4 + size5 + size6 + size7 + size8 + size9 + size10));
        proof {
            lemma_extends_transitive(tracker0.state(), tracker10.state(), tracker11.state());
        }
        let (size12, tracker12) = v12.get_heap_size_with_tracker(tracker11);
        let total = add_size(total, size12, Ghost(size1 + size2 + size3 + size4 + size5 + size6 + size7 + size8 + size9 + size10 + size11));
        proof {
            lemma_extends_transitive(tracker0.state(), tracker11.state(), tracker12.state());
        }
        let (size13, tracker13) = v13.get_heap_size_with_tracker(tracker12);
        let total = add_size(total, size13, Ghost(size1 + size2 + size3 + size4 + size5 + size6 + size7 + size8 + size9 + size10 + size11 + size12));
        proof {
            lemma_extends_transitive(tracker0.state(), tracker12.state(), tracker13.state());
        }
        let (size14, tracker14) = v14.get_heap_size_with_tracker(tracker13);
        let total = add_size(total, size14, Ghost(size1 + size2 + size3 + size4 + size5 + size6 + size7 + size8 + size9 + size10 + size11 + size12 + size13));
        proof {
            lemma_extends_transitive(tracker0.state(), tracker13.state(), tracker14.state());
        }
        assert(heap_measured(v1, tracker0.state(), size1, tracker1.state()));
        assert(heap_measured(v2, tracker1.state(), size2, tracker2.state()));
        assert(heap_measured(v3, tracker2.state(), size3, tracker3.state()));
        assert(heap_measured(v4, tracker3.state(), size4, tracker4.state()));
        assert(heap_measured(v5, tracker4.state(), size5, tracker5.state()));
        assert(heap_measured(v6, tracker5.state(), size6, tracker6.state()));
        assert(heap_measured(v7, tracker6.state(), size7, tracker7.state()));
        assert(heap_measured(v8, tracker7.state(), size8, tracker8.state()));
        assert(heap_measured(v9, tracker8.state(), size9, tracker9.state()));
        assert(heap_measured(v10, tracker9.state(), size10, tracker10.state()));
        assert(heap_measured(v11, tracker10.state(), size11, tracker11.state()));
        assert(heap_measured(v12, tracker11.state(), size12, tracker12.state()));
        assert(heap_measured(v13, tracker12.state(), size13, tracker13.state()));
        assert(heap_measured(v14, tracker13.state(), size14, tracker14.state()));
        (total, tracker14)
    }
}

impl<V1: GetSize, V2: GetSize, V3: GetSize, V4: GetSize, V5: GetSize, V6: GetSize, V7: GetSize, V8: GetSize, V9: GetSize, V10: GetSize, V11: GetSize, V12: GetSize, V13: GetSize, V14: GetSize, V15: GetSize> GetSize for (V1, V2, V3, V4, V5, V6, V7, V8, V9, V10, V11, V12, V13, V14, V15) {
    open spec fn heap_size_is(&self, before: TrackerState, bytes: usize, after: TrackerState) -> bool {
        exists|size1: usize, size2: usize, size3: usize, size4: usize, size5: usize, size6: usize, size7: usize, size8: usize, size9: usize, size10: usize, size11: usize, size12: usize, size13: usize, size14: usize, size15: usize, state1: TrackerState, state2: TrackerState, state3: TrackerState, state4: TrackerState, state5: TrackerState, state6: TrackerState, state7: TrackerState, state8: TrackerState, state9: TrackerState, state10: TrackerState, state11: TrackerState, state12: TrackerState, state13: TrackerState, state14: TrackerState|
            #![trigger heap_measured(&self.0, before, size1, state1), heap_measured(&self.1, state1, size2, state2), heap_measured(&self.2, state2, size3, state3), heap_measured(&self.3, state3, size4, state4), heap_measured(&self.4, state4, size5, state5), heap_measured(&self.5, state5, size6, state6), heap_measured(&self.6, state6, size7, state7), heap_measured(&self.7, state7, size8, state8), heap_measured(&self.8, state8, size9, state9), heap_measured(&self.9, state9, size10, state10), heap_measured(&self.10, state10, size11, state11), heap_measured(&self.11, state11, size12, state12), heap_measured(&self.12, state12, size13, state13), heap_measured(&self.13, state13, size14, state14), heap_measured(&self.14, state14, size15, after)]
            {
                &&& heap_measured(&self.0, before, size1, state1)
                &&& heap_measured(&self.1, state1, size2, state2)
                &&& heap_measured(&self.2, state2, size3, state3)
                &&& heap_measured(&self.3, state3, size4, state4)
                &&& heap_measured(&self.4, state4, size5, state5)
                &&& heap_measured(&self.5, state5, size6, state6)
                &&& heap_measured(&self.6, state6, size7, state7)
                &&& heap_measured(&self.7, state7, size8, state8)
                &&& heap_measured(&self.8, state8, size9, state9)
                &&& heap_measured(&self.9, state9, size10, state10)
                &&& heap_measured(&self.10, state10, size11, state11)
                &&& heap_measured(&self.11, state11, size12, state12)
                &&& heap_measured(&self.12, state12, size13, state13)
                &&& heap_measured(&self.13, state13, size14, state14)
                &&& heap_measured(&self.14, state14, size15, after)
                &&& bytes == saturate(size1 + size2 + size3 + size4 + size5 + size6 + size7 + size8 + size9 + size10 + size11 + size12 + size13 + size14 + size15)
            }
    }

    fn get_heap_size_with_tracker<T: GetSizeTracker>(&self, tracker: T) -> (measured: (usize, T)) {
        let total: usize = 0;
        let tracker0 = tracker;
        let (v1, v2, v3, v4, v5, v6, v7, v8, v9, v10, v11, v12, v13, v14, v15) = self;
        let (size1, tracker1) = v1.get_heap_size_with_tracker(tracker0);
        let total = add_size(total, size1, Ghost(0));
        let (size2, tracker2) = v2.get_heap_size_with_tracker(tracker1);
        let total = add_size(total, size2, Ghost(size1 as int));
        proof {
            lemma_extends_transitive(tracker0.state(), tracker1.state(), tracker2.state());
        }
        let (size3, tracker3) = v3.get_heap_size_with_tracker(tracker2);
        let total = add_size(total, size3, Ghost(size1 + size2));
        proof {
            lemma_extends_transitive(tracker0.state(), tracker2.state(), tracker3.state());
        }
        let (size4, tracker4) = v4.get_heap_size_with_tracker(tracker3);
        let total = add_size(total, size4, Ghost(size1 + size2 + size3));
        proof {
            lemma_extends_transitive(tracker0.state(), tracker3.state(), tracker4.state());
        }
        let (size5, tracker5) = v5.get_heap_size_with_tracker(tracker4);
        let total = add_size(total, size5, Ghost(size1 + size2 + size3 + size4));
        proof {
            lemma_extends_transitive(tracker0.state(), tracker4.state(), tracker5.state());
        }
        let (size6, tracker6) = v6.get_heap_size_with_tracker(tracker5);
        let total = add_size(total, size6, Ghost(size1 + size2 + size3 + size4 + size5));
        proof {
            lemma_extends_transitive(tracker0.state(), tracker5.state(), tracker6.state());
        }
        let (size7, tracker7) = v7.get_heap_size_with_tracker(tracker6);
        let total = add_size(total, size7, Ghost(size1 + size2 + size3 + size4 + size5 + size6));
        proof {
            lemma_extends_transitive(tracker0.state(), tracker6.state(), tracker7.state());
        }
        let (size8, tracker8) = v8.get_heap_size_with_tracker(tracker7);
        let total = add_size(total, size8, Ghost(size1 + size2 + size3 + size4 + size5 + size6 + size7));
        proof {
            lemma_extends_transitive(tracker0.state(), tracker7.state(), tracker8.state());
        }
        let (size9, tracker9) = v9.get_heap_size_with_tracker(tracker8);
        let total = add_size(total, size9, Ghost(size1 + size2 + size3 + size4 + size5 + size6 + size7 + size8));
        proof {
            lemma_extends_transitive(tracker0.state(), tracker8.state(), tracker9.state());
        }
        let (size10, tracker10) = v10.get_heap_size_with_tracker(tracker9);
        let total = add_size(total, size10, Ghost(size1 + size2 + size3 + size4 + size5 + size6 + size7 + size8 + size9));
        proof {
            lemma_extends_transitive(tracker0.state(), tracker9.state(), tracker10.state());
        }
        let (size11, tracker11) = v11.get_heap_size_with_tracker(tracker10);
        let total = add_size(total, size11, Ghost(size1 + size2 + size3 + size4 + size5 + size6 + size7 + size8 + size9 + size10));
        proof {
            lemma_extends_transitive(tracker0.state(), tracker10.state(), tracker11.state());
        }
        let (size12, tracker12) = v12.get_heap_size_with_tracker(tracker11);
        let total = add_size(total, size12, Ghost(size1 + size2 + size3 + size4 + size5 + size6 + size7 + size8 + size9 + size10 + size11));
        proof {
            lemma_extends_transitive(tracker0.state(), tracker11.state(), tracker12.state());
        }
        let (size13, tracker13) = v13.get_heap_size_with_tracker(tracker12);
        let total = add_size(total, size13, Ghost(size1 + size2 + size3 + size4 + size5 + size6 + size7 + size8 + size9 + size10 + size11 + size12));
        proof {
            lemma_extends_transitive(tracker0.state(), tracker12.state(), tracker13.state());
        }
        let (size14, tracker14) = v14.get_heap_size_with_tracker(tracker13);
        let total = add_size(total, size14, Ghost(size1 + size2 + size3 + size4 + size5 + size6 + size7 + size8 + size9 + size10 + size11 + size12 + size13));
        proof {
            lemma_extends_transitive(tracker0.state(), tracker13.state(), tracker14.state());
        }
        let (size15, tracker15) = v15.get_heap_size_with_tracker(tracker14);
        let total = add_size(total, size15, Ghost(size1 + size2 + size3 + size4 + size5 + size6 + size7 + size8 + size9 + size10 + size11 + size12 + size13 + size14));
        proof {
            lemma_extends_transitive(tracker0.state(), tracker14.state(), tracker15.state());
        }
        assert(heap_measured(v1, tracker0.state(), size1, tracker1.state()));
        assert(heap_measured(v2, tracker1.state(), size2, tracker2.state()));
        assert(heap_measured(v3, tracker2.state(), size3, tracker3.state()));
        assert(heap_measured(v4, tracker3.state(), size4, tracker4.state()));
        assert(heap_measured(v5, tracker4.state(), size5, tracker5.state()));
        assert(heap_measured(v6, tracker5.state(), size6, tracker6.state()));
        assert(heap_measured(v7, tracker6.state(), size7, tracker7.state()));
        assert(heap_measured(v8, tracker7.state(), size8, tracker8.state()));
        assert(heap_measured(v9, tracker8.state(), size9, tracker9.state()));
        assert(heap_measured(v10, tracker9.state(), size10, tracker10.state()));
        assert(heap_measured(v11, tracker10.state(), size11, tracker11.state()));
        assert(heap_measured(v12, tracker11.state(), size12, tracker12.state()));
        assert(heap_measured(v13, tracker12.state(), size13, tracker13.state()));
        assert(heap_measured(v14, tracker13.state(), size14, tracker14.state()));
        assert(heap_measured(v15, tracker14.state(), size15, tracker15.state()));
        (total, tracker15)
    }
}

impl<V1: GetSize, V2: GetSize, V3: GetSize, V4: GetSize, V5: GetSize, V6: GetSize, V7: GetSize, V8: GetSize, V9: GetSize, V10: GetSize, V11: GetSize, V12: GetSize, V13: GetSize, V14: GetSize, V15: GetSize, V16: GetSize> GetSize for (V1, V2, V3, V4, V5, V6, V7, V8, V9, V10, V11, V12, V13, V14, V15, V16) {
    open spec fn heap_size_is(&self, before: TrackerState, bytes: usize, after: TrackerState) -> bool {
        exists|size1: usize, size2: usize, size3: usize, size4: usize, size5: usize, size6: usize, size7: usize, size8: usize, size9: usize, size10: usize, size11: usize, size12: usize, size13: usize, size14: usize, size15: usize, size16: usize, state1: TrackerState, state2: TrackerState, state3: TrackerState, state4: TrackerState, state5: TrackerState, state6: TrackerState, state7: TrackerState, state8: TrackerState, state9: TrackerState, state10: TrackerState, state11: TrackerState, state12: TrackerState, state13: TrackerState, state14: TrackerState, state15: TrackerState|
            #![trigger heap_measured(&self.0, before, size1, state1), heap_measured(&self.1, state1, size2, state2), heap_measured(&self.2, state2, size3, state3), heap_measured(&self.3, state3, size4, state4), heap_measured(&self.4, state4, size5, state5), heap_measured(&self.5, state5, size6, state6), heap_measured(&self.6, state6, size7, state7), heap_measured(&self.7, state7, size8, state8), heap_measured(&self.8, state8, size9, state9), heap_measured(&self.9, state9, size10, state10), heap_measured(&self.10, state10, size11, state11), heap_measured(&self.11, state11, size12, state12), heap_measured(&self.12, state12, size13, state13), heap_measured(&self.13, state13, size14, state14), heap_measured(&self.14, state14, size15, state15), heap_measured(&self.15, state15, size16, after)]
            {
                &&& heap_measured(&self.0, before, size1, state1)
                &&& heap_measured(&self.1, state1, size2, state2)
                &&& heap_measured(&self.2, state2, size3, state3)
                &&& heap_measured(&self.3, state3, size4, state4)
                &&& heap_measured(&self.4, state4, size5, state5)
                &&& heap_measured(&self.5, state5, size6, state6)
                &&& heap_measured(&self.6, state6, size7, state7)
                &&& heap_measured(&self.7, state7, size8, state8)
                &&& heap_measured(&self.8, state8, size9, state9)
                &&& heap_measured(&self.9, state9, size10, state10)
                &&& heap_measured(&self.10, state10, size11, state11)
                &&& heap_measured(&self.11, state11, size12, state12)
                &&& heap_measured(&self.12, state12, size13, state13)
                &&& heap_measured(&self.13, state13, size14, state14)
                &&& heap_measured(&self.14, state14, size15, state15)
                &&& heap_measured(&self.15, state15, size16, after)
                &&& bytes == saturate(size1 + size2 + size3 + size4 + size5 + size6 + size7 + size8 + size9 + size10 + size11 + size12 + size13 + size14 + size15 + size16)
            }
    }

    fn get_heap_size_with_tracker<T: GetSizeTracker>(&self, tracker: T) -> (measured: (usize, T)) {
        let total: usize = 0;
        let tracker0 = tracker;
        let (v1, v2, v3, v4, v5, v6, v7, v8, v9, v10, v11, v12, v13, v14, v15, v16) = self;
        let (size1, tracker1) = v1.get_heap_size_with_tracker(tracker0);
        let total = add_size(total, size1, Ghost(0));
        let (size2, tracker2) = v2.get_heap_size_with_tracker(tracker1);
        let total = add_size(total, size2, Ghost(size1 as int));
        proof {
            lemma_extends_transitive(tracker0.state(), tracker1.state(), tracker2.state());
        }
        let (size3, tracker3) = v3.get_heap_size_with_tracker(tracker2);
        let total = add_size(total, size3, Ghost(size1 + size2));
        proof {
            lemma_extends_transitive(tracker0.state(), tracker2.state(), tracker3.state());
        }
        let (size4, tracker4) = v4.get_heap_size_with_tracker(tracker3);
        let total = add_size(total, size4, Ghost(size1 + size2 + size3));
        proof {
            lemma_extends_transitive(tracker0.state(), tracker3.state(), tracker4.state());
        }
        let (size5, tracker5) = v5.get_heap_size_with_tracker(tracker4);
        let total = add_size(total, size5, Ghost(size1 + size2 + size3 + size4));
        proof {
            lemma_extends_transitive(tracker0.state(), tracker4.state(), tracker5.state());
        }
        let (size6, tracker6) = v6.get_heap_size_with_tracker(tracker5);
        let total = add_size(total, size6, Ghost(size1 + size2 + size3 + size4 + size5));
        proof {
            lemma_extends_transitive(tracker0.state(), tracker5.state(), tracker6.state());
        }
        let (size7, tracker7) = v7.get_heap_size_with_tracker(tracker6);
        let total = add_size(total, size7, Ghost(size1 + size2 + size3 + size4 + size5 + size6));
        proof {
            lemma_extends_transitive(tracker0.state(), tracker6.state(), tracker7.state());
        }
        let (size8, tracker8) = v8.get_heap_size_with_tracker(tracker7);
        let total = add_size(total, size8, Ghost(size1 + size2 + size3 + size4 + size5 + size6 + size7));
        proof {
            lemma_extends_transitive(tracker0.state(), tracker7.state(), tracker8.state());
        }
        let (size9, tracker9) = v9.get_heap_size_with_tracker(tracker8);
        let total = add_size(total, size9, Ghost(size1 + size2 + size3 + size4 + size5 + size6 + size7 + size8));
        proof {
            lemma_extends_transitive(tracker0.state(), tracker8.state(), tracker9.state());
        }
        let (size10, tracker10) = v10.get_heap_size_with_tracker(tracker9);
        let total = add_size(total, size10, Ghost(size1 + size2 + size3 + size4 + size5 + size6 + size7 + size8 + size9));
        proof {
            lemma_extends_transitive(tracker0.state(), tracker9.state(), tracker10.state());
        }
        let (size11, tracker11) = v11.get_heap_size_with_tracker(tracker10);
        let total = add_size(total, size11, Ghost(size1 + size2 + size3 + size4 + size5 + size6 + size7 + size8 + size9 + size10));
        proof {
            lemma_extends_transitive(tracker0.state(), tracker10.state(), tracker11.state());
        }
        let (size12, tracker12) = v12.get_heap_size_with_tracker(tracker11);
        let total = add_size(total, size12, Ghost(size1 + size2 + size3 + size4 + size5 + size6 + size7 + size8 + size9 + size10 + size11));
        proof {
            lemma_extends_transitive(tracker0.state(), tracker11.state(), tracker12.state());
        }
        let (size13, tracker13) = v13.get_heap_size_with_tracker(tracker12);
        let total = add_size(total, size13, Ghost(size1 + size2 + size3 + size4 + size5 + size6 + size7 + size8 + size9 + size10 + size11 + size12));
        proof {
            lemma_extends_transitive(tracker0.state(), tracker12.state(), tracker13.state());
        }
        let (size14, tracker14) = v14.get_heap_size_with_tracker(tracker13);
        let total = add_size(total, size14, Ghost(size1 + size2 + size3 + size4 + size5 + size6 + size7 + size8 + size9 + size10 + size11 + size12 + size13));
        proof {
            lemma_extends_transitive(tracker0.state(), tracker13.state(), tracker14.state());
        }
        let (size15, tracker15) = v15.get_heap_size_with_tracker(tracker14);
        let total = add_size(total, size15, Ghost(size1 + size2 + size3 + size4 + size5 + size6 + size7 + size8 + size9 + size10 + size11 + size12 + size13 + size14));
        proof {
            lemma_extends_transitive(tracker0.state(), tracker14.state(), tracker15.state());
        }
        let (size16, tracker16) = v16.get_heap_size_with_tracker(tracker15);
        let total = add_size(total, size16, Ghost(size1 + size2 + size3 + size4 + size5 + size6 + size7 + size8 + size9 + size10 + size11 + size12 + size13 + size14 + size15));
        proof {
            lemma_extends_transitive(tracker0.state(), tracker15.state(), tracker16.state());
        }
        assert(heap_measured(v1, tracker0.state(), size1, tracker1.state()));
        assert(heap_measured(v2, tracker1.state(), size2, tracker2.state()));
        assert(heap_measured(v3, tracker2.state(), size3, tracker3.state()));
        assert(heap_measured(v4, tracker3.state(), size4, tracker4.state()));
        assert(heap_measured(v5, tracker4.state(), size5, tracker5.state()));
        assert(heap_measured(v6, tracker5.state(), size6, tracker6.state()));
        assert(heap_measured(v7, tracker6.state(), size7, tracker7.state()));
        assert(heap_measured(v8, tracker7.state(), size8, tracker8.state()));
        assert(heap_measured(v9, tracker8.state(), size9, tracker9.state()));
        assert(heap_measured(v10, tracker9.state(), size10, tracker10.state()));
        assert(heap_measured(v11, tracker10.state(), size11, tracker11.state()));
        assert(heap_measured(v12, tracker11.state(), size12, tracker12.state()));
        assert(heap_measured(v13, tracker12.state(), size13, tracker13.state()));
        assert(heap_measured(v14, tracker13.state(), size14, tracker14.state()));
        assert(heap_measured(v15, tracker14.state(), size15, tracker15.state()));
        assert(heap_measured(v16, tracker15.state(), size16, tracker16.state()));
        (total, tracker16)
    }
}

} // verus!
