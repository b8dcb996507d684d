//! Element-wise comparison primitives for chunked, possibly nullable columns.
//!
//! A column's physical shape (chunk count, null mask) is inspected once, at
//! comparator construction; the comparator then answers `eq(i, j)` and
//! `cmp(i, j)` over logical positions with no per-call layout branching.
//! Null ordering, the NaN tie-break and dictionary-encoded categorical
//! columns are all resolved here, beneath the algorithms that consume the
//! comparators.

pub mod element;
pub mod chunked;
pub mod compare;
pub mod categorical;
pub mod laws;
