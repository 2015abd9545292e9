//! A single-owner box-like wrapper built atop the escape/reclaim
//! primitives: it owns exactly one heap allocation, hands out references
//! to the value stored there, and destroys the value exactly once, when
//! the wrapper itself is destroyed or is explicitly converted back into
//! an ordinary owning allocation.

use vstd::prelude::*;
use vstd::std_specs::cmp::PartialEqSpec;

use crate::mem_intern::Handle;
use crate::mem_intern::address_of;
use crate::mem_intern::leak_as_nonnull;
use crate::mem_intern::reclaim_as_boxed;

verus! {

/// The owning wrapper. At most one `Korobka` is ever responsible for a
/// given allocation, and the value it holds is destroyed exactly once:
/// when the wrapper goes out of scope, or — if the wrapper is first
/// converted back into an owning allocation — when that allocation does.
#[derive(Hash)]
pub struct Korobka<T> {
    inner: Box<T>,
}

impl<T> Korobka<T> {
    /// The value stored behind the wrapper.
    pub closed spec fn value(&self) -> T {
        *self.inner
    }

    /// Allocate heap storage for `t` and wrap it.
    pub fn new(t: T) -> (k: Self)
        ensures
            k.value() == t,
    {
        Korobka { inner: Box::new(t) }
    }

    /// The address of the wrapped allocation. Never zero; stable for as
    /// long as this wrapper owns the allocation.
    pub fn as_ptr(&self) -> (a: usize)
        ensures
            a != 0,
    {
        address_of(&*self.inner)
    }

    /// Same address as [`Self::as_ptr`], offered under the name callers
    /// of the non-null accessor expect.
    pub fn as_nonnull(&self) -> (a: usize)
        ensures
            a != 0,
    {
        address_of(&*self.inner)
    }

    /// Borrow the stored value.
    pub fn as_ref(&self) -> (r: &T)
        ensures
            *r == self.value(),
    {
        &*self.inner
    }

    /// Borrow the stored value mutably.
    pub fn as_mut(&mut self) -> (r: &mut T)
        ensures
            *r == old(self).value(),
            final(self).value() == *final(r),
    {
        &mut *self.inner
    }

    /// Escape the wrapped allocation into a bare handle, cancelling this
    /// wrapper's own destruction of it. Zero-copy: the handle refers to
    /// the same storage at the same address.
    pub fn into_handle(self) -> (h: Handle<T>)
        ensures
            h.value() == self.value(),
    {
        leak_as_nonnull(self.inner)
    }

    /// Take over a previously escaped allocation: the wrapper becomes
    /// responsible for destroying it. Zero-copy.
    pub fn from_handle(h: Handle<T>) -> (k: Self)
        ensures
            k.value() == h.value(),
    {
        Korobka { inner: reclaim_as_boxed(h) }
    }

    /// Convert back into an ordinary owning allocation, which takes over
    /// the destruction of the value. Zero-copy.
    pub fn into_boxed(self) -> (boxed: Box<T>)
        ensures
            *boxed == self.value(),
    {
        self.inner
    }
}

impl<T> From<Box<T>> for Korobka<T> {
    /// Take over an allocation already owned by the caller. Zero-copy:
    /// the wrapper refers to the same storage at the same address.
    fn from(boxed: Box<T>) -> (k: Self)
        ensures
            k.value() == *boxed,
    {
        Korobka { inner: boxed }
    }
}

impl<T> vstd::std_specs::convert::FromSpecImpl<Box<T>> for Korobka<T> {
    open spec fn obeys_from_spec() -> bool {
        true
    }

    closed spec fn from_spec(boxed: Box<T>) -> Self {
        (Korobka { inner: boxed })
    }
}

impl<T: PartialEq> PartialEq for Korobka<T> {
    /// Equality delegates to the referents' own equality, not to the
    /// allocations' identity: two wrappers holding equal but distinct
    /// referents compare equal.
    fn eq(&self, other: &Self) -> bool {
        *self.inner == *other.inner
    }
}

impl<T: PartialEq> vstd::std_specs::cmp::PartialEqSpecImpl for Korobka<T> {
    open spec fn obeys_eq_spec() -> bool {
        T::obeys_eq_spec()
    }

    open spec fn eq_spec(&self, other: &Self) -> bool {
        self.value().eq_spec(&other.value())
    }
}

impl<T: Eq> Eq for Korobka<T> {

}

} // verus!
