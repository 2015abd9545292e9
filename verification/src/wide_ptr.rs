//! The fat-pointer layout descriptor.
//!
//! A reference to an unsized referent occupies two machine words: the
//! address of the referent's first byte, and a metadata word — a dispatch
//! table address for a type-erased referent, or an element count for a
//! slice. [`WidePointer`] records those two words as plain data. It is
//! untyped, owns nothing, and promises nothing about `trivia` beyond
//! "whatever metadata word the source reference carried".

use vstd::prelude::*;

verus! {

/// A two-word layout descriptor: `ptr` is the referent's starting
/// address, `trivia` the metadata word of the reference it was derived
/// from. Two descriptors are equal exactly when both words match.
#[derive(Clone, Copy, Debug, PartialEq, Eq, Structural, Hash)]
pub struct WidePointer {
    pub ptr: usize,
    pub trivia: usize,
}

impl WidePointer {
    /// Build a descriptor from explicit words.
    pub fn new(ptr: usize, trivia: usize) -> (w: Self)
        ensures
            w.ptr == ptr,
            w.trivia == trivia,
    {
        WidePointer { ptr, trivia }
    }
}

impl Default for WidePointer {
    /// The all-zero descriptor.
    fn default() -> (w: Self)
        ensures
            w.ptr == 0,
            w.trivia == 0,
    {
        WidePointer { ptr: 0, trivia: 0 }
    }
}

/// Relies on `<[T]>::as_ptr`: it returns the address of the slice's first
/// element, which is never null (for an empty slice it is the dangling,
/// still non-null address the slice was created with).
#[verifier::external_body]
fn slice_addr<T>(s: &[T]) -> (a: usize)
    ensures
        a != 0,
{
    s.as_ptr().addr()
}

/// Derive a descriptor from a slice reference: `ptr` is the (non-null)
/// address of the slice's first element and `trivia` is its metadata
/// word, the element count. Rebuilding a reference out of the two plain
/// words is the inverse of this derivation, but it is raw-pointer
/// reinterpretation with an unwritable precondition — the words must
/// still describe a live referent — and is therefore not offered here.
pub fn describe_slice<T>(s: &[T]) -> (w: WidePointer)
    ensures
        w.trivia == s@.len(),
        w.ptr != 0,
{
    WidePointer { ptr: slice_addr(s), trivia: s.len() }
}

} // verus!
