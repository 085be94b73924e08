//! Saturating arithmetic on byte counts, and the sums that the size rules are
//! stated with.

use vstd::prelude::*;

verus! {

/// The byte count that a mathematical total is reported as: the total itself
/// where it fits a `usize`, and `usize::MAX` where it does not.
pub open spec fn saturate(total: int) -> usize {
    if total <= 0 {
        0
    } else if total >= usize::MAX {
        usize::MAX
    } else {
        total as usize
    }
}

/// The sum of a sequence of byte counts.
pub open spec fn sum(sizes: Seq<usize>) -> int
    decreases sizes.len(),
{
    if sizes.len() == 0 {
        0
    } else {
        sum(sizes.drop_last()) + sizes.last()
    }
}

/// Saturating first and adding then loses nothing that adding first and
/// saturating once would keep.
pub proof fn lemma_saturate_add(a: int, b: int)
    requires
        0 <= a,
        0 <= b,
    ensures
        saturate(saturate(a) + saturate(b)) == saturate(a + b),
{
}

/// A sum of byte counts is never negative.
pub proof fn lemma_sum_nonnegative(sizes: Seq<usize>)
    ensures
        0 <= sum(sizes),
    decreases sizes.len(),
{
    if sizes.len() > 0 {
        lemma_sum_nonnegative(sizes.drop_last());
    }
}

/// Appending one byte count adds it to the sum.
pub proof fn lemma_sum_push(sizes: Seq<usize>, size: usize)
    ensures
        sum(sizes.push(size)) == sum(sizes) + size,
{
    assert(sizes.push(size).drop_last() =~= sizes);
}

/// Adds `size` to a running total that stands for the mathematical total
/// `so_far`.
pub(crate) fn add_size(total: usize, size: usize, Ghost(so_far): Ghost<int>) -> (next: usize)
    requires
        0 <= so_far,
        total == saturate(so_far),
    ensures
        next == saturate(so_far + size),
{
    total.saturating_add(size)
}

/// The product of two byte counts, saturating at `usize::MAX`.
pub fn saturating_product(a: usize, b: usize) -> (product: usize)
    ensures
        product == saturate(a * b),
{
    assert(0 <= a * b) by (nonlinear_arith)
        requires
            0 <= a,
            0 <= b,
    ;
    match a.checked_mul(b) {
        Some(product) => product,
        None => usize::MAX,
    }
}

/// The bytes that a container's unused slots take: every slot that is
/// allocated and holds no element yet is charged at the size of one element in
/// place, since such a slot owns nothing on the heap.
pub open spec fn spare_bytes(capacity: usize, len: usize, slot: usize) -> int {
    if capacity >= len {
        (capacity - len) * slot
    } else {
        0
    }
}

/// Unused slots never take a negative number of bytes.
pub proof fn lemma_spare_bytes_nonnegative(capacity: usize, len: usize, slot: usize)
    ensures
        0 <= spare_bytes(capacity, len, slot),
{
    if capacity >= len {
        assert(0 <= (capacity - len) * slot) by (nonlinear_arith)
            requires
                0 <= capacity - len,
                0 <= slot,
        ;
    }
}

/// Computes [`spare_bytes`], saturating at `usize::MAX`.
pub fn spare_capacity_bytes(capacity: usize, len: usize, slot: usize) -> (bytes: usize)
    ensures
        bytes == saturate(spare_bytes(capacity, len, slot)),
{
    let spare = capacity.saturating_sub(len);
    saturating_product(spare, slot)
}

} // verus!
