//! An occupancy-gated optional slot.
//!
//! [`UncheckedOption`] holds zero or one value of `T` with no runtime
//! occupancy check of any kind: every accessor that assumes the slot is
//! occupied (or vacant) states that assumption as a precondition, and the
//! proof of each caller discharges it. A slot that is destroyed while
//! occupied does not run the stored value's destructor — tracking
//! occupancy, and extracting the value before the slot goes away, is
//! entirely the caller's responsibility.

use core::mem::ManuallyDrop;
use core::ops::Deref;
use vstd::prelude::*;
use vstd::std_specs::manually_drop::ManuallyDropAdditionalFns;

verus! {

/// Relies on `ManuallyDrop`'s `DerefMut` impl: it hands out a mutable
/// reference to the wrapped value itself.
#[verifier::external_body]
fn manually_drop_deref_mut<T>(m: &mut ManuallyDrop<T>) -> (r: &mut T)
    ensures
        *r == old(m)@,
        final(m)@ == *final(r),
{
    &mut **m
}

/// A slot that is either vacant or holds one value of `T`. Destroying the
/// slot never runs the destructor of a value still inside; pairing every
/// insertion with exactly one extraction is the caller's obligation.
pub struct UncheckedOption<T> {
    inner: Option<ManuallyDrop<T>>,
}

impl<T> UncheckedOption<T> {
    /// Whether the slot currently holds a value.
    pub closed spec fn is_occupied(&self) -> bool {
        self.inner is Some
    }

    /// The value the slot holds; meaningful only while it is occupied.
    pub closed spec fn value(&self) -> T {
        self.inner->0@
    }

    /// Create a slot that holds `t`.
    pub fn new(t: T) -> (s: Self)
        ensures
            s.is_occupied(),
            s.value() == t,
    {
        UncheckedOption { inner: Some(ManuallyDrop::new(t)) }
    }

    /// Create a vacant slot.
    pub fn new_none() -> (s: Self)
        ensures
            !s.is_occupied(),
    {
        UncheckedOption { inner: None }
    }

    /// Take the stored value out, leaving the slot vacant.
    pub fn take(&mut self) -> (t: T)
        requires
            old(self).is_occupied(),
        ensures
            t == old(self).value(),
            !final(self).is_occupied(),
    {
        match self.inner.take() {
            Some(m) => ManuallyDrop::into_inner(m),
            None => vstd::pervasive::unreached(),
        }
    }

    /// Borrow the stored value.
    pub fn get_ref(&self) -> (r: &T)
        requires
            self.is_occupied(),
        ensures
            *r == self.value(),
    {
        match &self.inner {
            Some(m) => m.deref(),
            None => vstd::pervasive::unreached(),
        }
    }

    /// Borrow the stored value mutably; the slot stays occupied and ends
    /// up holding whatever the caller leaves behind the reference.
    pub fn get_mut(&mut self) -> (r: &mut T)
        requires
            old(self).is_occupied(),
        ensures
            *r == old(self).value(),
            final(self).is_occupied(),
            final(self).value() == *final(r),
    {
        match self.inner.as_mut() {
            Some(m) => manually_drop_deref_mut(m),
            None => vstd::pervasive::unreached(),
        }
    }

    /// Put `t` into a vacant slot.
    pub fn set(&mut self, t: T)
        requires
            !old(self).is_occupied(),
        ensures
            final(self).is_occupied(),
            final(self).value() == t,
    {
        self.inner = Some(ManuallyDrop::new(t));
    }
}

/// Setting a vacant slot to `t` and then taking makes a round trip: the
/// take yields `t` itself, and the slot ends vacant, ready for the next
/// set. The premises are precisely what the `ensures` of
/// [`UncheckedOption::set`] and [`UncheckedOption::take`] give for the
/// two calls, so any valid alternation of sets and takes hands back, at
/// each take, the value most recently set.
pub proof fn lemma_set_take_roundtrip<T>(t: T, after_set: UncheckedOption<T>, taken: T)
    requires
        after_set.is_occupied(),
        after_set.value() == t,
        taken == after_set.value(),
    ensures
        taken == t,
{
}

} // verus!
