//! Heap escape and reclaim primitives.
//!
//! A value is escaped by moving it into heap storage whose automatic
//! destruction is switched off; what the caller gets back is an opaque
//! [`Handle`]. Reclaiming consumes the handle and restores an ordinary
//! owning allocation over the very same storage. Because a `Handle` can
//! be reclaimed only by moving it, every escape is paired with at most
//! one reclaim; a handle that is merely dropped leaks its allocation,
//! which is the documented cost of escaping.

use core::mem::ManuallyDrop;
use vstd::prelude::*;

verus! {

/// An opaque, non-null reference to a heap allocation holding a value of
/// type `T`. It carries no automatic destruction of its own: dropping a
/// `Handle` leaks the allocation. It is valid from the moment an escape
/// operation produces it until the moment a reclaim operation consumes it.
pub struct Handle<T> {
    ptr: ManuallyDrop<Box<T>>,
}

impl<T> Handle<T> {
    /// The value stored in the allocation this handle refers to.
    pub closed spec fn value(&self) -> T {
        *self.ptr@
    }

    /// The address of the allocation, for identity comparisons. Two
    /// handles refer to the same allocation exactly when their addresses
    /// are equal; a handle's address never changes while it is live.
    pub fn addr(&self) -> (a: usize)
        ensures
            a != 0,
    {
        let referent: &T = &**self.ptr;
        address_of(referent)
    }
}

/// Relies on references never being null: the address of a live
/// allocation is never zero.
#[verifier::external_body]
pub(crate) fn address_of<T>(r: &T) -> (a: usize)
    ensures
        a != 0,
{
    core::ptr::from_ref(r).addr()
}

/// Move the given value to the heap, returning a handle to it.
///
/// The allocation will not be destroyed automatically: it stays live
/// until the handle is passed to [`reclaim_as_boxed`].
pub fn move_to_heap<T>(data: T) -> (h: Handle<T>)
    ensures
        h.value() == data,
{
    Handle { ptr: ManuallyDrop::new(Box::new(data)) }
}

/// "Leak" the content of the given allocation, returning a handle to the
/// same storage, at the same address, with no copy made.
pub fn leak_as_nonnull<T>(boxed: Box<T>) -> (h: Handle<T>)
    ensures
        h.value() == *boxed,
{
    Handle { ptr: ManuallyDrop::new(boxed) }
}

/// Reclaim a previously escaped handle, putting its allocation back under
/// automatic destruction. Consumes the handle, so no allocation can be
/// reclaimed twice; the storage and its address are unchanged.
pub fn reclaim_as_boxed<T>(h: Handle<T>) -> (boxed: Box<T>)
    ensures
        *boxed == h.value(),
{
    ManuallyDrop::into_inner(h.ptr)
}

/// The escape/reclaim round trip is the identity: whatever handle an
/// escape produced for a value `v`, reclaiming that handle yields an
/// allocation holding exactly `v`. The two premises are precisely what
/// the `ensures` of [`move_to_heap`] (or [`leak_as_nonnull`]) and of
/// [`reclaim_as_boxed`] give for the two steps.
pub proof fn lemma_escape_reclaim_roundtrip<T>(v: T, h: Handle<T>, boxed: Box<T>)
    requires
        h.value() == v,
        *boxed == h.value(),
    ensures
        *boxed == v,
{
}

} // verus!
