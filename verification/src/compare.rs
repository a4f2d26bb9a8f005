//! Comparing a buffer with a value or with another buffer. Only current
//! values are compared: the next value never takes part.

use vstd::prelude::*;
use vstd::std_specs::cmp::{OrdSpec, PartialEqSpec, PartialEqSpecImpl, PartialOrdSpec, PartialOrdSpecImpl};
use crate::buffer::DoubleBuffer;
use core::cmp::Ordering;

verus! {

impl<T: PartialEq> PartialEq<T> for DoubleBuffer<T> {
    /// Whether the current value equals `other`, as `T` decides it.
    fn eq(&self, other: &T) -> (equal: bool)
        ensures
            call_ensures(T::eq, (&self@.current, other), equal),
    {
        self.current().eq(other)
    }
}

impl<T: PartialEq> PartialEqSpecImpl<T> for DoubleBuffer<T> {
    open spec fn obeys_eq_spec() -> bool {
        T::obeys_eq_spec()
    }

    open spec fn eq_spec(&self, other: &T) -> bool {
        self@.current.eq_spec(other)
    }
}

impl<T: PartialEq> PartialEq for DoubleBuffer<T> {
    /// Whether the two current values are equal, as `T` decides it.
    fn eq(&self, other: &Self) -> (equal: bool)
        ensures
            call_ensures(T::eq, (&self@.current, &other@.current), equal),
    {
        self.current().eq(other.current())
    }
}

impl<T: PartialEq> PartialEqSpecImpl for DoubleBuffer<T> {
    open spec fn obeys_eq_spec() -> bool {
        T::obeys_eq_spec()
    }

    open spec fn eq_spec(&self, other: &Self) -> bool {
        self@.current.eq_spec(&other@.current)
    }
}

impl<T: Eq> Eq for DoubleBuffer<T> {
}

impl<T: PartialOrd> PartialOrd<T> for DoubleBuffer<T> {
    /// How the current value is ordered against `other`, as `T` decides it.
    fn partial_cmp(&self, other: &T) -> (order: Option<Ordering>)
        ensures
            call_ensures(T::partial_cmp, (&self@.current, other), order),
    {
        self.current().partial_cmp(other)
    }
}

impl<T: PartialOrd> PartialOrdSpecImpl<T> for DoubleBuffer<T> {
    open spec fn obeys_partial_cmp_spec() -> bool {
        T::obeys_partial_cmp_spec()
    }

    open spec fn partial_cmp_spec(&self, other: &T) -> Option<Ordering> {
        self@.current.partial_cmp_spec(other)
    }
}

impl<T: PartialOrd> PartialOrd for DoubleBuffer<T> {
    /// How the two current values are ordered, as `T` decides it.
    fn partial_cmp(&self, other: &Self) -> (order: Option<Ordering>)
        ensures
            call_ensures(T::partial_cmp, (&self@.current, &other@.current), order),
    {
        self.current().partial_cmp(other.current())
    }
}

impl<T: PartialOrd> PartialOrdSpecImpl for DoubleBuffer<T> {
    open spec fn obeys_partial_cmp_spec() -> bool {
        T::obeys_partial_cmp_spec()
    }

    open spec fn partial_cmp_spec(&self, other: &Self) -> Option<Ordering> {
        self@.current.partial_cmp_spec(&other@.current)
    }
}

impl<T: Ord> DoubleBuffer<T> {
    /// How the two current values are ordered in the total order of `T`.
    pub fn cmp(&self, other: &Self) -> (order: Ordering)
        ensures
            call_ensures(T::cmp, (&self@.current, &other@.current), order),
            T::obeys_cmp_spec() ==> order == self@.current.cmp_spec(&other@.current),
    {
        self.current().cmp(other.current())
    }
}

} // verus!
