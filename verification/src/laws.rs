//! What holds of every measurement.

use crate::arith::{saturate, spare_bytes, sum};
use crate::containers::buffer_heap_size_is;
use crate::derive::generate::{
    body_of, derive_error, fields_error, steps_of, steps_through, variants_error, ImplBody, Step,
};
use crate::derive::ignored::{attributes_well_formed, ignored_generics};
use crate::derive::shape::{Data, DeriveInput, Field, StructFieldAttribute, Variant};
use crate::derive::traverse::{generated_heap_size_is, traversal_is};
use crate::shared::strong_heap_size_is;
use crate::size::{heap_measured, size_measured, GetSize};
use crate::tracker::TrackerState;
use crate::walk::{items_measured, items_total_is, measured};
use vstd::layout::size_of;
use vstd::prelude::*;

verus! {

/// Whether `value` never owns anything on the heap and never touches the
/// tracker, as numbers and other scalar values do.
pub open spec fn owns_nothing<V: GetSize>(value: &V) -> bool {
    forall|before: TrackerState, bytes: usize, after: TrackerState| #[trigger]
        value.heap_size_is(before, bytes, after) ==> bytes == 0 && after == before
}

/// The total size of a value that owns nothing on the heap is the size of its
/// type in place, and measuring it leaves the tracker as it was.
pub proof fn lemma_scalar_size<V: GetSize>(
    value: &V,
    before: TrackerState,
    bytes: usize,
    after: TrackerState,
)
    requires
        owns_nothing(value),
        size_measured(value, before, bytes, after),
        size_of::<V>() <= usize::MAX,
    ensures
        bytes == size_of::<V>(),
        after == before,
{
}

/// Whether a type of the shape `data` holds nothing in the variant at position
/// `variant`: a struct without fields, an enum without variants, or a variant
/// without fields.
pub open spec fn holds_nothing(data: Data, variant: usize) -> bool {
    match data {
        Data::Struct(fields) => fields.list().len() == 0,
        Data::Enum(variants) => variants@.len() == 0 || (variant < variants@.len()
            && variants@[variant as int].fields.list().len() == 0),
        Data::Union => false,
    }
}

/// The generated routine of a type that holds nothing reports a heap size of
/// zero and hands the tracker back as it got it.
pub proof fn lemma_empty_composite_owns_nothing<
    T,
    M: Fn(usize, T) -> (usize, T),
    C: Fn(usize) -> usize,
>(
    data: Data,
    body: ImplBody,
    variant: usize,
    measure: M,
    compute: C,
    before: T,
    bytes: usize,
    after: T,
)
    requires
        body_of(data, body),
        holds_nothing(data, variant),
        generated_heap_size_is(body, variant, measure, compute, before, bytes, after),
    ensures
        bytes == 0,
        after == before,
{
    if body.steps_for_spec(variant) is Some {
        let steps = body.steps_for_spec(variant)->0;
        assert(steps_through(Seq::<Field>::empty(), 0) == Seq::<Step>::empty());
        match data {
            Data::Struct(fields) => {
                assert(false);
            },
            Data::Enum(variants) => {
                assert(variants@[variant as int].fields.list() == Seq::<Field>::empty());
                assert(steps == steps_of(variants@[variant as int].fields.list()));
            },
            Data::Union => {},
        }
        assert(steps.len() == 0);
        let (sizes, trackers) = choose|sizes: Seq<usize>, trackers: Seq<T>| #[trigger]
            traversal_is(steps, measure, compute, sizes, trackers) && trackers[0] == before
                && trackers.last() == after && bytes == saturate(sum(sizes));
        assert(sizes.len() == 0);
    }
}

/// Items that own nothing are charged by the capacity of their buffer alone:
/// the size of one item in place, once for every slot that is allocated. The
/// length does not enter.
pub proof fn lemma_buffer_charged_by_capacity(
    capacity: usize,
    len: usize,
    slot: usize,
    sizes: Seq<usize>,
)
    requires
        len <= capacity,
        sizes.len() == len,
        forall|i: int| 0 <= i < sizes.len() ==> sizes[i] == slot,
    ensures
        sum(sizes) + spare_bytes(capacity, len, slot) == capacity * slot,
    decreases len,
{
    if len == 0 {
        assert(sum(sizes) == 0);
    } else {
        lemma_buffer_charged_by_capacity(capacity, (len - 1) as usize, slot, sizes.drop_last());
        assert((capacity - (len - 1)) * slot == (capacity - len) * slot + slot)
            by (nonlinear_arith);
    }
}

/// Measuring items that own nothing reports the size of the item type in place
/// for each and leaves the tracker as it was.
proof fn lemma_scalar_items<V: GetSize>(
    items: Seq<V>,
    states: Seq<TrackerState>,
    sizes: Seq<usize>,
    upto: int,
)
    requires
        items_measured(items, true, states, sizes),
        forall|i: int| 0 <= i < items.len() ==> owns_nothing(&#[trigger] items[i]),
        size_of::<V>() <= usize::MAX,
        0 <= upto <= items.len(),
    ensures
        states[upto] == states[0],
        forall|i: int| 0 <= i < upto ==> sizes[i] == size_of::<V>(),
    decreases upto,
{
    if upto > 0 {
        lemma_scalar_items(items, states, sizes, upto - 1);
        assert(measured(&items[upto - 1], true, states[upto - 1], sizes[upto - 1], states[upto]));
        assert(owns_nothing(&items[upto - 1]));
        lemma_scalar_size(&items[upto - 1], states[upto - 1], sizes[upto - 1], states[upto]);
    }
}

/// The heap size of a buffer whose items own nothing is its capacity in bytes
/// of the item type, so two such buffers of one capacity report the same, however
/// many items each holds. The tracker is left as it was.
pub proof fn lemma_buffer_heap_size_is_capacity<V: GetSize>(
    items: Seq<V>,
    before: TrackerState,
    bytes: usize,
    after: TrackerState,
)
    requires
        buffer_heap_size_is(items, before, bytes, after),
        forall|i: int| 0 <= i < items.len() ==> owns_nothing(&#[trigger] items[i]),
        size_of::<V>() <= usize::MAX,
        items.len() <= usize::MAX,
    ensures
        exists|capacity: usize|
            capacity >= items.len() && bytes == #[trigger] saturate(capacity * size_of::<V>()),
        after == before,
{
    let slot = size_of::<V>() as usize;
    let (capacity, total) = choose|capacity: usize, total: int|
        #![trigger items_total_is(items, true, before, total, after), spare_bytes(capacity, items.len() as usize, size_of::<V>() as usize)]
        {
            &&& capacity >= items.len()
            &&& items_total_is(items, true, before, total, after)
            &&& bytes == saturate(
                total + spare_bytes(capacity, items.len() as usize, size_of::<V>() as usize),
            )
        };
    let (states, sizes) = choose|states: Seq<TrackerState>, sizes: Seq<usize>| #[trigger]
        items_measured(items, true, states, sizes) && states[0] == before && states.last()
            == after && total == sum(sizes);
    lemma_scalar_items(items, states, sizes, items.len() as int);
    lemma_buffer_charged_by_capacity(capacity, items.len() as usize, slot, sizes);
    assert(bytes == saturate(capacity * size_of::<V>()));
}

/// The unused room of a map is charged at the size of one entry in place: a key
/// and a value.
pub proof fn lemma_spare_entries(capacity: usize, len: usize, key_slot: usize, value_slot: usize)
    requires
        len <= capacity,
    ensures
        spare_bytes(capacity, len, key_slot) + spare_bytes(capacity, len, value_slot) == (capacity
            - len) * (key_slot + value_slot),
{
    assert((capacity - len) * key_slot + (capacity - len) * value_slot == (capacity - len) * (
    key_slot + value_slot)) by (nonlinear_arith);
}

/// Of two strong handles to one heap block that a recording tracker meets one
/// after the other, the second reports nothing and leaves the tracker alone. So
/// both together report what the first reports alone: the block is counted once.
pub proof fn lemma_shared_block_counted_once<V: GetSize>(
    addr: usize,
    target: &V,
    before: TrackerState,
    first: usize,
    between: TrackerState,
    second: usize,
    after: TrackerState,
)
    requires
        before.dedups,
        strong_heap_size_is(addr, target, before, first, between),
        strong_heap_size_is(addr, target, between, second, after),
    ensures
        second == 0,
        after == between,
        saturate(first + second) == first,
{
    assert(before.record(addr).seen.contains(addr));
    if before.is_new(addr) {
        let heap = choose|heap: usize| #[trigger]
            heap_measured(target, before.record(addr), heap, between) && first == saturate(
                size_of::<V>() + heap,
            );
        assert(between.extends(before.record(addr)));
    }
    assert(between.seen.contains(addr));
    assert(between.record(addr).seen =~= between.seen);
}

/// A recording tracker that was asked about a block once never takes the block
/// for new again, whatever else it is asked about in between: nothing that was
/// recorded is forgotten.
pub proof fn lemma_block_stays_seen(before: TrackerState, addr: usize, later: TrackerState)
    requires
        before.dedups,
        later.extends(before.record(addr)),
    ensures
        !later.is_new(addr),
{
    assert(before.record(addr).seen.contains(addr));
}

/// A strong handle to a block that the tracker has seen reports nothing, and
/// what the block holds is not looked at. This is what ends the walk round a
/// cycle of shared blocks: the second visit of a block goes no further.
pub proof fn lemma_seen_block_not_entered<V: GetSize>(
    addr: usize,
    target: &V,
    before: TrackerState,
    bytes: usize,
    after: TrackerState,
)
    requires
        !before.is_new(addr),
        strong_heap_size_is(addr, target, before, bytes, after),
    ensures
        bytes == 0,
        after == before,
{
    assert(before.record(addr).seen =~= before.seen);
}

/// Every block that a recording tracker lets a measurement enter is one that it
/// had not recorded, and is recorded from then on. So a measurement enters no
/// more blocks than there are.
pub proof fn lemma_entered_block_is_recorded(before: TrackerState, addr: usize)
    requires
        before.dedups,
        before.is_new(addr),
    ensures
        !before.seen.contains(addr),
        before.record(addr).seen == before.seen.insert(addr),
        !before.record(addr).is_new(addr),
{
}

/// Whether a measurement that starts in `states[0]` may enter the blocks
/// `entered` one after another: each is new to the tracker when it is entered,
/// and `states[i + 1]` is a state that follows the recording of block `i`,
/// whatever else was measured in between.
pub open spec fn blocks_entered(entered: Seq<usize>, states: Seq<TrackerState>) -> bool {
    &&& states.len() == entered.len() + 1
    &&& forall|i: int|
        0 <= i < entered.len() ==> {
            &&& (#[trigger] states[i]).is_new(entered[i])
            &&& states[i + 1].extends(states[i].record(entered[i]))
        }
}

/// A tracker that records at the start of a measurement records throughout.
proof fn lemma_states_keep_recording(entered: Seq<usize>, states: Seq<TrackerState>, j: int)
    requires
        states.len() > 0,
        states[0].dedups,
        blocks_entered(entered, states),
        0 <= j <= entered.len(),
    ensures
        states[j].dedups,
    decreases j,
{
    if j > 0 {
        lemma_states_keep_recording(entered, states, j - 1);
        assert(states[j - 1].is_new(entered[j - 1]));
    }
}

/// What a recording tracker has let a measurement enter, it has recorded.
proof fn lemma_entered_blocks_recorded(entered: Seq<usize>, states: Seq<TrackerState>, i: int, j: int)
    requires
        states.len() > 0,
        states[0].dedups,
        blocks_entered(entered, states),
        0 <= i < j <= entered.len(),
    ensures
        states[j].seen.contains(entered[i]),
    decreases j - i,
{
    lemma_states_keep_recording(entered, states, j - 1);
    assert(states[j - 1].is_new(entered[j - 1]));
    if j == i + 1 {
        assert(states[i].record(entered[i]).seen.contains(entered[i]));
    } else {
        lemma_entered_blocks_recorded(entered, states, i, j - 1);
    }
}

/// A measurement with a recording tracker enters no block twice. So where the
/// blocks that can be reached are finitely many, the measurement enters no more
/// blocks than there are, round a cycle as anywhere else.
pub proof fn lemma_blocks_entered_once(
    entered: Seq<usize>,
    states: Seq<TrackerState>,
    reachable: Set<usize>,
)
    requires
        states.len() > 0,
        states[0].dedups,
        blocks_entered(entered, states),
        reachable.finite(),
        forall|i: int| 0 <= i < entered.len() ==> reachable.contains(#[trigger] entered[i]),
    ensures
        entered.no_duplicates(),
        entered.len() <= reachable.len(),
{
    assert forall|i: int, j: int| 0 <= i < j < entered.len() implies entered[i] != entered[j] by {
        lemma_entered_blocks_recorded(entered, states, i, j);
        lemma_states_keep_recording(entered, states, j);
        assert(states[j].is_new(entered[j]));
    }
    entered.unique_seq_to_set();
    vstd::set_lib::lemma_len_subset(entered.to_set(), reachable);
}

/// A reference owns nothing, whatever it refers to, and measuring it leaves the
/// tracker as it was.
pub proof fn lemma_borrow_owns_nothing<V>(borrowed: &&V)
    ensures
        owns_nothing(borrowed),
{
}

/// A fixed size and `ignore` on one field conflict, and so do any two
/// overrides.
pub proof fn lemma_overrides_exclude_each_other(attribute: StructFieldAttribute)
    ensures
        attribute.size is Some && attribute.ignore ==> attribute.conflicts(),
        attribute.size is Some && attribute.size_fn is Some ==> attribute.conflicts(),
        attribute.size_fn is Some && attribute.ignore ==> attribute.conflicts(),
{
}

/// A field whose overrides conflict makes the list of fields that holds it
/// rejected.
pub proof fn lemma_conflicting_field_rejected(
    fields: Seq<Field>,
    ignored: Seq<Seq<char>>,
    variant: usize,
    field: int,
    count: int,
)
    requires
        0 <= field < count <= fields.len(),
        fields[field].attribute.conflicts(),
    ensures
        fields_error(fields, ignored, variant, count) is Some,
    decreases count,
{
    if field < count - 1 {
        lemma_conflicting_field_rejected(fields, ignored, variant, field, count - 1);
    }
}

/// A variant that holds a rejected field makes the enum rejected.
pub proof fn lemma_rejected_variant_rejected(
    variants: Seq<Variant>,
    ignored: Seq<Seq<char>>,
    variant: int,
    count: int,
)
    requires
        0 <= variant < count <= variants.len(),
        fields_error(
            variants[variant].fields.list(),
            ignored,
            variant as usize,
            variants[variant].fields.list().len() as int,
        ) is Some,
    ensures
        variants_error(variants, ignored, count) is Some,
    decreases count,
{
    if variant < count - 1 {
        lemma_rejected_variant_rejected(variants, ignored, variant, count - 1);
    }
}

/// Whether the field at position `field` of the variant at position `variant`
/// (0 in a struct) carries overrides that conflict.
pub open spec fn has_conflicting_field(data: Data, variant: int, field: int) -> bool {
    match data {
        Data::Struct(fields) => {
            &&& variant == 0
            &&& 0 <= field < fields.list().len()
            &&& fields.list()[field].attribute.conflicts()
        },
        Data::Enum(variants) => {
            &&& 0 <= variant < variants@.len()
            &&& 0 <= field < variants@[variant].fields.list().len()
            &&& variants@[variant].fields.list()[field].attribute.conflicts()
        },
        Data::Union => false,
    }
}

/// A definition with a field whose overrides conflict is rejected when its
/// routine is generated.
pub proof fn lemma_conflicting_overrides_rejected(input: DeriveInput, variant: int, field: int)
    requires
        has_conflicting_field(input.data, variant, field),
    ensures
        derive_error(input) is Some,
{
    if attributes_well_formed(input.attrs@) {
        let ignored = ignored_generics(input.attrs@);
        match input.data {
            Data::Struct(fields) => {
                lemma_conflicting_field_rejected(
                    fields.list(),
                    ignored,
                    0,
                    field,
                    fields.list().len() as int,
                );
            },
            Data::Enum(variants) => {
                let list = variants@[variant].fields.list();
                lemma_conflicting_field_rejected(
                    list,
                    ignored,
                    variant as usize,
                    field,
                    list.len() as int,
                );
                lemma_rejected_variant_rejected(variants@, ignored, variant, variants@.len() as int);
            },
            Data::Union => {},
        }
    }
}

} // verus!
