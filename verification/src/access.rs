//! Reading and writing a buffer through std's access traits: a shared
//! borrow reaches the current value, a mutable borrow the next value.

use vstd::prelude::*;
use crate::buffer::DoubleBuffer;
use core::borrow::{Borrow, BorrowMut};
use core::ops::{Deref, DerefMut};

verus! {

impl<T> Deref for DoubleBuffer<T> {
    type Target = T;

    fn deref(&self) -> (value: &T)
        ensures
            *value == self@.current,
    {
        self.current()
    }
}

impl<T> DerefMut for DoubleBuffer<T> {
    fn deref_mut(&mut self) -> (value: &mut T)
        ensures
            *value == old(self)@.next,
            final(self)@ == old(self)@.write_next(*final(value)),
    {
        self.next_mut()
    }
}

impl<T> Borrow<T> for DoubleBuffer<T> {
    fn borrow(&self) -> &T
        returns
            &self@.current,
    {
        self.current()
    }
}

impl<T> BorrowMut<T> for DoubleBuffer<T> {
    fn borrow_mut(&mut self) -> (value: &mut T)
        ensures
            *value == old(self)@.next,
            final(self)@ == old(self)@.write_next(*final(value)),
    {
        self.next_mut()
    }
}

impl<T> AsRef<T> for DoubleBuffer<T> {
    fn as_ref(&self) -> (value: &T)
        ensures
            *value == self@.current,
    {
        self.current()
    }
}

impl<T> AsMut<T> for DoubleBuffer<T> {
    fn as_mut(&mut self) -> (value: &mut T)
        ensures
            *value == old(self)@.next,
            final(self)@ == old(self)@.write_next(*final(value)),
    {
        self.next_mut()
    }
}

} // verus!
