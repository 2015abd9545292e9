//! A plain two-variant sum type.
//!
//! `Either` is isomorphic to `Result` but carries none of its
//! error-handling connotations or trait machinery: it exists purely for
//! branching between two payloads of equal standing.

use vstd::prelude::*;

verus! {

/// One of two values: the left or the right.
#[derive(Debug)]
pub enum Either<T1, T2> {
    Left(T1),
    Right(T2),
}

} // verus!
