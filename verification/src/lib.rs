//! Manual-ownership primitives: heap escape/reclaim, an owning handle
//! wrapper, an occupancy-gated optional slot, and a fat-pointer layout
//! descriptor. Every operation that the original discipline guarded with
//! written safety preconditions is guarded here by a `requires` clause
//! instead, so misuse is ruled out before the program runs.

pub mod either;
pub mod korobka;
pub mod std_ext;
pub mod mem_intern;
pub mod unchecked_intern;
pub mod wide_ptr;
