//! Taking the steps of a generated routine on a value.
//!
//! The routine knows the fields of a value by their position only. Whoever
//! measures a value hands over two functions that reach into it: one that
//! measures a field with the tracker, and one that applies the size function
//! that a field's attribute names.

use crate::arith::{lemma_saturate_add, lemma_sum_nonnegative, lemma_sum_push, saturate, sum};
use crate::derive::generate::{ImplBody, Step};
use crate::tracker::GetSizeTracker;
use vstd::prelude::*;

verus! {

/// Whether taking `step` with the tracker `before` may yield `bytes` and leave
/// the tracker `after`.
pub open spec fn step_is<T, M: Fn(usize, T) -> (usize, T), C: Fn(usize) -> usize>(
    step: Step,
    measure: M,
    compute: C,
    before: T,
    bytes: usize,
    after: T,
) -> bool {
    match step {
        Step::Fixed { bytes: fixed } => bytes == fixed && after == before,
        Step::Computed { field } => call_ensures(compute, (field,), bytes) && after == before,
        Step::Recurse { field } => call_ensures(measure, (field, before), (bytes, after)),
    }
}

/// Whether taking `steps` in order may yield `sizes`, step by step, while the
/// tracker passes through `trackers`: `trackers[i]` goes into step `i` and
/// `trackers[i + 1]` comes out of it.
pub open spec fn traversal_is<T, M: Fn(usize, T) -> (usize, T), C: Fn(usize) -> usize>(
    steps: Seq<Step>,
    measure: M,
    compute: C,
    sizes: Seq<usize>,
    trackers: Seq<T>,
) -> bool {
    &&& sizes.len() == steps.len()
    &&& trackers.len() == steps.len() + 1
    &&& forall|i: int|
        0 <= i < steps.len() ==> step_is(
            #[trigger] steps[i],
            measure,
            compute,
            trackers[i],
            sizes[i],
            trackers[i + 1],
        )
}

/// Whether `measure` and `compute` can be called for every field that `steps`
/// reach into.
pub open spec fn steps_callable<T, M: Fn(usize, T) -> (usize, T), C: Fn(usize) -> usize>(
    steps: Seq<Step>,
    measure: M,
    compute: C,
) -> bool {
    forall|i: int|
        0 <= i < steps.len() ==> match #[trigger] steps[i] {
            Step::Fixed { .. } => true,
            Step::Computed { field } => call_requires(compute, (field,)),
            Step::Recurse { field } => forall|tracker: T| call_requires(measure, (field, tracker)),
        }
}

/// Whether measuring with `steps`, starting with the tracker `before`, may
/// report `bytes` and leave the tracker `after`: the steps are taken in order,
/// each with the tracker that the step before it left, and what they yield is
/// added up.
pub open spec fn traversed_heap_size_is<
    T,
    M: Fn(usize, T) -> (usize, T),
    C: Fn(usize) -> usize,
>(steps: Seq<Step>, measure: M, compute: C, before: T, bytes: usize, after: T) -> bool {
    exists|sizes: Seq<usize>, trackers: Seq<T>| #[trigger]
        traversal_is(steps, measure, compute, sizes, trackers) && trackers[0] == before
            && trackers.last() == after && bytes == saturate(sum(sizes))
}

/// Measures a value by taking `steps` in order. `measure` measures the field at
/// a position with the tracker it is given; `compute` applies the size function
/// of the field at a position.
pub fn traverse<T, M, C>(steps: &Vec<Step>, measure: &M, compute: &C, tracker: T) -> (measured: (
    usize,
    T,
)) where T: GetSizeTracker, M: Fn(usize, T) -> (usize, T), C: Fn(usize) -> usize
    requires
        steps_callable(steps@, *measure, *compute),
    ensures
        traversed_heap_size_is(steps@, *measure, *compute, tracker, measured.0, measured.1),
{
    let mut total: usize = 0;
    let mut tracker = tracker;
    let ghost before = tracker;
    let ghost mut sizes = Seq::<usize>::empty();
    let ghost mut trackers = seq![tracker];
    for i in 0..steps.len()
        invariant
            steps_callable(steps@, *measure, *compute),
            sizes.len() == i,
            trackers.len() == i + 1,
            trackers[0] == before,
            trackers.last() == tracker,
            total == saturate(sum(sizes)),
            forall|j: int|
                0 <= j < i ==> step_is(
                    #[trigger] steps@[j],
                    *measure,
                    *compute,
                    trackers[j],
                    sizes[j],
                    trackers[j + 1],
                ),
    {
        let ghost entering = tracker;
        let step = steps[i];
        let total_add = match step {
            Step::Fixed { bytes } => bytes,
            Step::Computed { field } => compute(field),
            Step::Recurse { field } => {
                let (total_add, tracker_after) = measure(field, tracker);
                tracker = tracker_after;
                total_add
            },
        };
        proof {
            lemma_sum_nonnegative(sizes);
            lemma_sum_push(sizes, total_add);
            lemma_saturate_add(sum(sizes), total_add as int);
            assert(step_is(steps@[i as int], *measure, *compute, entering, total_add, tracker));
            sizes = sizes.push(total_add);
            trackers = trackers.push(tracker);
        }
        total = total.saturating_add(total_add);
    }
    let measured = (total, tracker);
    assert(traversal_is(steps@, *measure, *compute, sizes, trackers));
    measured
}

/// Whether the routine `body`, run on a value that is in the variant at position
/// `variant`, may report `bytes` and leave the tracker `after` when it starts
/// with the tracker `before`. Where there are no steps to take, the value owns
/// nothing and the tracker is untouched.
pub open spec fn generated_heap_size_is<T, M: Fn(usize, T) -> (usize, T), C: Fn(usize) -> usize>(
    body: ImplBody,
    variant: usize,
    measure: M,
    compute: C,
    before: T,
    bytes: usize,
    after: T,
) -> bool {
    match body.steps_for_spec(variant) {
        Some(steps) => traversed_heap_size_is(steps, measure, compute, before, bytes, after),
        None => bytes == 0 && after == before,
    }
}

impl ImplBody {
    /// The steps for a value that is in the variant at position `variant`: none
    /// for an empty routine and for a variant that the enum does not have, and
    /// the steps of a struct whatever `variant` is.
    pub open spec fn steps_for_spec(&self, variant: usize) -> Option<Seq<Step>> {
        match self {
            ImplBody::Empty => None,
            ImplBody::Struct(steps) => Some(steps@),
            ImplBody::Enum(arms) => if variant < arms@.len() {
                Some(arms@[variant as int]@)
            } else {
                None
            },
        }
    }

    /// The steps for a value that is in the variant at position `variant`.
    pub fn steps_for(&self, variant: usize) -> (steps: Option<&Vec<Step>>)
        ensures
            match self.steps_for_spec(variant) {
                Some(chosen) => steps is Some && steps->0@ == chosen,
                None => steps is None,
            },
    {
        match self {
            ImplBody::Empty => None,
            ImplBody::Struct(steps) => Some(steps),
            ImplBody::Enum(arms) => if variant < arms.len() {
                Some(&arms[variant])
            } else {
                None
            },
        }
    }

    /// Measures a value that is in the variant at position `variant` (0 for a
    /// struct): the steps of that variant are taken and of no other. Where there
    /// are no steps to take, the value owns nothing and the tracker is handed
    /// back untouched.
    pub fn get_heap_size_with_tracker<T, M, C>(
        &self,
        variant: usize,
        measure: &M,
        compute: &C,
        tracker: T,
    ) -> (measured: (usize, T)) where
        T: GetSizeTracker,
        M: Fn(usize, T) -> (usize, T),
        C: Fn(usize) -> usize,

        requires
            self.steps_for_spec(variant) matches Some(steps) ==> steps_callable(
                steps,
                *measure,
                *compute,
            ),
        ensures
            generated_heap_size_is(
                *self,
                variant,
                *measure,
                *compute,
                tracker,
                measured.0,
                measured.1,
            ),
    {
        match self.steps_for(variant) {
            Some(steps) => traverse(steps, measure, compute, tracker),
            None => (0, tracker),
        }
    }
}

} // verus!
