//! The two-slot holder, its mathematical model and its swap strategies.

use vstd::prelude::*;

verus! {

/// What a [`DoubleBuffer`] is, seen by its roles: the value readers see, the
/// value writers fill, and which of the two storage slots (0 or 1) backs the
/// current role. The next role is always backed by the other slot.
pub struct BufferView<T> {
    pub current: T,
    pub next: T,
    pub current_slot: int,
}

impl<T> BufferView<T> {
    /// The slot selector is binary: the current role sits on slot 0 or slot 1.
    pub open spec fn wf(self) -> bool {
        self.current_slot == 0 || self.current_slot == 1
    }

    /// The slot that backs the next role.
    pub open spec fn next_slot(self) -> int {
        1 - self.current_slot
    }

    /// The value stored in slot `slot`, whatever role it plays.
    pub open spec fn stored(self, slot: int) -> T {
        if slot == self.current_slot {
            self.current
        } else {
            self.next
        }
    }

    /// A write through the next role: only the next value changes.
    pub open spec fn write_next(self, value: T) -> Self {
        BufferView { current: self.current, next: value, current_slot: self.current_slot }
    }

    /// A write through the current role: only the current value changes.
    pub open spec fn write_current(self, value: T) -> Self {
        BufferView { current: value, next: self.next, current_slot: self.current_slot }
    }

    /// The move-swap: the two roles trade slots, and no stored value changes.
    pub open spec fn swap(self) -> Self {
        BufferView { current: self.next, next: self.current, current_slot: self.next_slot() }
    }

    /// The clone-swap, given the copy that was made of the next value: the
    /// copy lands in the slot that already backs the current role.
    pub open spec fn swap_with_clone(self, copy: T) -> Self {
        self.write_current(copy)
    }

    /// The default-reset swap, given a freshly made default value: a
    /// move-swap, after which the new next value is replaced by `fresh`.
    pub open spec fn swap_with_default(self, fresh: T) -> Self {
        self.swap().write_next(fresh)
    }

    /// A run of writes through the next role, first to last.
    pub open spec fn write_all(self, values: Seq<T>) -> Self
        decreases values.len(),
    {
        if values.len() == 0 {
            self
        } else {
            self.write_all(values.drop_last()).write_next(values.last())
        }
    }
}

/// `value` is a value that `T::default()` may return.
pub open spec fn is_default<T: Default>(value: T) -> bool {
    call_ensures(T::default, (), value)
}

/// Two values of `T`: one plays the current role and is read, the other
/// plays the next role and is written. A swap commits what was written.
pub struct DoubleBuffer<T> {
    swapped: bool,
    buffers: [T; 2],
}

impl<T> View for DoubleBuffer<T> {
    type V = BufferView<T>;

    closed spec fn view(&self) -> BufferView<T> {
        if self.swapped {
            BufferView { current: self.buffers@[1], next: self.buffers@[0], current_slot: 1 }
        } else {
            BufferView { current: self.buffers@[0], next: self.buffers@[1], current_slot: 0 }
        }
    }
}

impl<T> DoubleBuffer<T> {
    /// Every buffer has exactly one slot in each role.
    pub proof fn lemma_view_wf(&self)
        ensures
            self@.wf(),
    {
    }

    /// A buffer whose current value is `current` and whose next value is
    /// `next`. The current role starts on slot 0.
    pub fn new(current: T, next: T) -> (buffer: Self)
        ensures
            buffer@ == (BufferView { current, next, current_slot: 0 }),
    {
        Self { swapped: false, buffers: [current, next] }
    }

    /// Swaps the roles of the two slots: what was written as next becomes
    /// current, and later writes go over the previous current value. Nothing
    /// is copied; the current value now lives in the other slot.
    pub fn swap(&mut self)
        ensures
            final(self)@ == old(self)@.swap(),
    {
        self.swapped = !self.swapped;
    }

    fn current_offset(&self) -> (offset: usize)
        ensures
            offset == self@.current_slot,
    {
        if self.swapped {
            return 1;
        }
        return 0;
    }

    fn next_offset(&self) -> (offset: usize)
        ensures
            offset == self@.next_slot(),
    {
        if self.swapped {
            return 0;
        }
        return 1;
    }

    /// Reads the current value.
    pub fn current(&self) -> (value: &T)
        ensures
            *value == self@.current,
    {
        &self.buffers[self.current_offset()]
    }

    /// Reads the next value.
    pub fn next(&self) -> (value: &T)
        ensures
            *value == self@.next,
    {
        &self.buffers[self.next_offset()]
    }

    /// Hands out the current value for writing. Only the swap strategies
    /// write here; callers write through [`DoubleBuffer::next_mut`].
    fn current_mut(&mut self) -> (value: &mut T)
        ensures
            *value == old(self)@.current,
            final(self)@ == old(self)@.write_current(*final(value)),
    {
        let offset: usize = self.current_offset();
        &mut self.buffers[offset]
    }

    /// Hands out the next value for writing. What the caller leaves in it is
    /// the buffer's next value; the current value and the slots stay as they
    /// were.
    pub fn next_mut(&mut self) -> (value: &mut T)
        ensures
            *value == old(self)@.next,
            final(self)@ == old(self)@.write_next(*final(value)),
    {
        let offset: usize = self.next_offset();
        &mut self.buffers[offset]
    }
}

impl<T: Clone> DoubleBuffer<T> {
    /// Clones the next value over the current value. The next value stays,
    /// and later writes continue over it; the current value stays in the
    /// slot it was in.
    pub fn swap_with_clone(&mut self)
        ensures
            cloned(old(self)@.next, final(self)@.current),
            final(self)@ == old(self)@.swap_with_clone(final(self)@.current),
    {
        let next = self.next().clone();
        let current = self.current_mut();
        *current = next;
    }
}

impl<T: Default> DoubleBuffer<T> {
    /// Swaps like [`DoubleBuffer::swap`], then sets the next value to the
    /// default of `T`, so that later writes start from the default.
    pub fn swap_with_default(&mut self)
        ensures
            is_default(final(self)@.next),
            final(self)@ == old(self)@.swap_with_default(final(self)@.next),
    {
        self.swap();
        let next = self.next_mut();
        *next = T::default();
    }
}

impl<T: Default> Default for DoubleBuffer<T> {
    /// A buffer whose two values are defaults of `T`.
    fn default() -> (buffer: Self)
        ensures
            is_default(buffer@.current),
            is_default(buffer@.next),
            buffer@.current_slot == 0,
    {
        Self::new(T::default(), T::default())
    }
}

} // verus!
