//! Laws of the double buffer, stated over its model and proved.

use vstd::prelude::*;
use vstd::std_specs::cmp::{PartialEqSpec, PartialOrdSpec};
use crate::buffer::{BufferView, DoubleBuffer};

verus! {

/// Writes through the next role never touch the current value nor the
/// slots, however many there are.
pub proof fn lemma_writes_keep_current<T>(before: BufferView<T>, writes: Seq<T>)
    ensures
        before.write_all(writes).current == before.current,
        before.write_all(writes).current_slot == before.current_slot,
        before.write_all(writes).next == if writes.len() > 0 {
            writes.last()
        } else {
            before.next
        },
    decreases writes.len(),
{
    if writes.len() > 0 {
        lemma_writes_keep_current(before, writes.drop_last());
    }
}

/// After any run of writes through the next role and one move-swap, the
/// current value is the last value written (the old next value where nothing
/// was written), and the next value is the old current value.
pub proof fn lemma_swap_commits_last_write<T>(before: BufferView<T>, writes: Seq<T>)
    ensures
        before.write_all(writes).swap().current == if writes.len() > 0 {
            writes.last()
        } else {
            before.next
        },
        before.write_all(writes).swap().next == before.current,
        before.write_all(writes).swap().current_slot == before.next_slot(),
{
    lemma_writes_keep_current(before, writes);
}

/// The move-swap is its own inverse: two in a row restore both values to
/// their roles and both roles to their slots.
pub proof fn lemma_swap_twice_restores<T>(before: BufferView<T>)
    ensures
        before.swap().swap() == before,
{
}

/// The move-swap changes no stored value: each of the two slots holds what
/// it held, and the current role sits on the other slot.
pub proof fn lemma_swap_moves_roles_only<T>(before: BufferView<T>, slot: int)
    requires
        before.wf(),
        slot == 0 || slot == 1,
    ensures
        before.swap().stored(slot) == before.stored(slot),
        before.swap().current_slot != before.current_slot,
        before.swap().wf(),
{
}

/// After a clone-swap whose copy equals the next value, current and next are
/// equal, the next value is what it was, and the current role sits on the
/// slot it sat on.
pub proof fn lemma_clone_swap_equalizes<T>(before: BufferView<T>, copy: T)
    requires
        copy == before.next,
    ensures
        before.swap_with_clone(copy).current == before.swap_with_clone(copy).next,
        before.swap_with_clone(copy).next == before.next,
        before.swap_with_clone(copy).current_slot == before.current_slot,
{
}

/// After a default-reset swap the current value is the old next value and
/// the next value is the fresh default.
pub proof fn lemma_default_swap_resets_next<T>(before: BufferView<T>, fresh: T)
    ensures
        before.swap_with_default(fresh).current == before.next,
        before.swap_with_default(fresh).next == fresh,
        before.swap_with_default(fresh).current_slot == before.next_slot(),
{
}

/// A buffer compares with a value as its current value does, for equality
/// and for order; so two buffers with the same current value compare alike,
/// whatever their next values are.
pub proof fn lemma_comparison_reads_current_only<T: PartialOrd>(
    left: DoubleBuffer<T>,
    right: DoubleBuffer<T>,
    value: T,
)
    requires
        left@.current == right@.current,
    ensures
        left.eq_spec(&value) == left@.current.eq_spec(&value),
        left.partial_cmp_spec(&value) == left@.current.partial_cmp_spec(&value),
        left.eq_spec(&value) == right.eq_spec(&value),
        left.partial_cmp_spec(&value) == right.partial_cmp_spec(&value),
{
}

/// Two buffers compare with each other as their current values do.
pub proof fn lemma_buffers_compare_by_current<T: PartialOrd>(
    left: DoubleBuffer<T>,
    right: DoubleBuffer<T>,
)
    ensures
        left.eq_spec(&right) == left@.current.eq_spec(&right@.current),
        left.partial_cmp_spec(&right) == left@.current.partial_cmp_spec(&right@.current),
{
}

} // verus!
