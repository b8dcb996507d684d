//! Type-erased element comparators over logical positions, with the null
//! ordering and the NaN tie-break stated once.
//!
//! A factory inspects a column's layout once and returns a comparator; the
//! comparator answers `eq(i, j)` and `cmp(i, j)` many times with no layout
//! branching. Both operations are pinned, in the trait contracts, to the
//! column's logical view alone, so physical chunking cannot change a result.

use vstd::prelude::*;
use std::cmp::Ordering;
use crate::element::Element;
use crate::chunked::{Chunk, ChunkedArray, ChunkedArrayLayout};

verus! {

/// Equality on optional values: null equals null and nothing present; two
/// present values compare by the element's own equality (so IEEE equality
/// for floating values, where a NaN is unequal even to itself).
pub open spec fn sp_eq_opt<T: Element>(a: Option<T>, b: Option<T>) -> bool {
    match (a, b) {
        (None, None) => true,
        (Some(x), Some(y)) => x.sp_eq(y),
        _ => false,
    }
}

/// The tie-break applied where the natural ordering is undefined: the left
/// operand is compared to itself, and one unequal to itself (a NaN) orders
/// `Less`, anything else `Greater`. Net effect: a NaN left operand yields
/// `Less` against any present value — itself included, which deliberately
/// breaks reflexivity — and any non-NaN left operand yields `Greater`
/// against a NaN.
pub open spec fn sp_fallback<T: Element>(a: T) -> Ordering {
    if !a.sp_eq(a) {
        Ordering::Less
    } else {
        Ordering::Greater
    }
}

/// Ordering of two present values: the natural order where it is defined,
/// else the tie-break on the left operand.
pub open spec fn sp_cmp_value<T: Element>(a: T, b: T) -> Ordering {
    match a.sp_partial_cmp(b) {
        Some(o) => o,
        None => sp_fallback(a),
    }
}

/// Ordering on optional values: two nulls are equal, a null orders strictly
/// before every present value, and present values order by `sp_cmp_value`.
pub open spec fn sp_cmp_opt<T: Element>(a: Option<T>, b: Option<T>) -> Ordering {
    match (a, b) {
        (None, None) => Ordering::Equal,
        (None, Some(_)) => Ordering::Less,
        (Some(_), None) => Ordering::Greater,
        (Some(x), Some(y)) => sp_cmp_value(x, y),
    }
}

/// Tie-break for a pair the natural ordering cannot decide; see
/// `sp_fallback`.
pub fn fallback<T: Element>(a: &T) -> (r: Ordering)
    ensures
        r == sp_fallback(*a),
{
    if !a.eq_element(a) {
        Ordering::Less
    } else {
        Ordering::Greater
    }
}

/// Computes `sp_eq_opt`.
pub fn eq_opt<T: Element>(a: &Option<T>, b: &Option<T>) -> (r: bool)
    ensures
        r == sp_eq_opt(*a, *b),
{
    match (a, b) {
        (Option::None, Option::None) => true,
        (Option::Some(x), Option::Some(y)) => x.eq_element(y),
        _ => false,
    }
}

/// Computes `sp_cmp_value`.
pub fn cmp_value<T: Element>(a: &T, b: &T) -> (r: Ordering)
    ensures
        r == sp_cmp_value(*a, *b),
{
    match a.partial_cmp_element(b) {
        Some(o) => o,
        None => fallback(a),
    }
}

/// Computes `sp_cmp_opt`.
pub fn cmp_opt<T: Element>(a: &Option<T>, b: &Option<T>) -> (r: Ordering)
    ensures
        r == sp_cmp_opt(*a, *b),
{
    match (a, b) {
        (Option::None, Option::None) => Ordering::Equal,
        (Option::None, Option::Some(_)) => Ordering::Less,
        (Option::Some(_), Option::None) => Ordering::Greater,
        (Option::Some(x), Option::Some(y)) => cmp_value(x, y),
    }
}

/// The spec-level shape of a comparator: whether it is well formed, and the
/// logical sequence of optional elements it compares over.
pub trait GetInner {
    type E: Element;

    /// The comparator's borrowed data is well formed.
    spec fn wf(&self) -> bool;

    /// The logical sequence the comparator answers over.
    spec fn items(&self) -> Seq<Option<Self::E>>;
}

/// Position-wise equality over one column, layout already resolved.
pub trait PartialEqInner: GetInner {
    /// Equality of the elements at two logical positions. The caller
    /// answers for both bounds; nothing is re-checked here.
    fn eq_element_unchecked(&self, idx_a: usize, idx_b: usize) -> (r: bool)
        requires
            self.wf(),
            idx_a < self.items().len(),
            idx_b < self.items().len(),
        ensures
            r == sp_eq_opt(self.items()[idx_a as int], self.items()[idx_b as int]),
    ;
}

/// Position-wise ordering over one column, layout already resolved.
pub trait PartialOrdInner: GetInner {
    /// Ordering of the elements at two logical positions, nulls first and
    /// the NaN tie-break applied. The caller answers for both bounds.
    fn cmp_element_unchecked(&self, idx_a: usize, idx_b: usize) -> (r: Ordering)
        requires
            self.wf(),
            idx_a < self.items().len(),
            idx_b < self.items().len(),
        ensures
            r == sp_cmp_opt(self.items()[idx_a as int], self.items()[idx_b as int]),
    ;
}

/// A comparator bound to one column: a closed union over the four layouts,
/// selected once at construction. The no-null variants read plain values
/// and skip the validity test on every call.
pub enum InnerComparator<'a, T> {
    SingleNoNull(&'a Chunk<T>),
    Single(&'a Chunk<T>),
    MultiNoNull(&'a ChunkedArray<T>),
    Multi(&'a ChunkedArray<T>),
}

impl<'a, T: Element + Copy> GetInner for InnerComparator<'a, T> {
    type E = T;

    open spec fn wf(&self) -> bool {
        match *self {
            InnerComparator::SingleNoNull(c) => c.wf() && (forall|i: int|
                0 <= i < c@.len() ==> c@[i] is Some),
            InnerComparator::Single(c) => c.wf(),
            InnerComparator::MultiNoNull(a) => a.wf() && (forall|i: int|
                0 <= i < a@.len() ==> a@[i] is Some),
            InnerComparator::Multi(a) => a.wf(),
        }
    }

    open spec fn items(&self) -> Seq<Option<T>> {
        match *self {
            InnerComparator::SingleNoNull(c) => c@,
            InnerComparator::Single(c) => c@,
            InnerComparator::MultiNoNull(a) => a@,
            InnerComparator::Multi(a) => a@,
        }
    }
}

impl<'a, T: Element + Copy> PartialEqInner for InnerComparator<'a, T> {
    fn eq_element_unchecked(&self, idx_a: usize, idx_b: usize) -> (r: bool) {
        match self {
            InnerComparator::SingleNoNull(c) => c.value_unchecked(idx_a).eq_element(
                &c.value_unchecked(idx_b),
            ),
            InnerComparator::Single(c) => eq_opt(&c.get_unchecked(idx_a), &c.get_unchecked(idx_b)),
            InnerComparator::MultiNoNull(a) => a.value_unchecked(idx_a).eq_element(
                &a.value_unchecked(idx_b),
            ),
            InnerComparator::Multi(a) => eq_opt(&a.get_unchecked(idx_a), &a.get_unchecked(idx_b)),
        }
    }
}

impl<'a, T: Element + Copy> PartialOrdInner for InnerComparator<'a, T> {
    fn cmp_element_unchecked(&self, idx_a: usize, idx_b: usize) -> (r: Ordering) {
        match self {
            InnerComparator::SingleNoNull(c) => cmp_value(
                &c.value_unchecked(idx_a),
                &c.value_unchecked(idx_b),
            ),
            InnerComparator::Single(c) => cmp_opt(&c.get_unchecked(idx_a), &c.get_unchecked(idx_b)),
            InnerComparator::MultiNoNull(a) => cmp_value(
                &a.value_unchecked(idx_a),
                &a.value_unchecked(idx_b),
            ),
            InnerComparator::Multi(a) => cmp_opt(&a.get_unchecked(idx_a), &a.get_unchecked(idx_b)),
        }
    }
}

/// The comparator variant a factory returns is the one the column's
/// physical shape selects.
pub open spec fn sp_matches_layout<'a, T>(r: InnerComparator<'a, T>, col: ChunkedArray<T>) -> bool {
    match r {
        InnerComparator::SingleNoNull(_) => col.chunks@.len() == 1 && !col.sp_has_nulls(),
        InnerComparator::Single(_) => col.chunks@.len() == 1 && col.sp_has_nulls(),
        InnerComparator::MultiNoNull(_) => col.chunks@.len() > 1 && !col.sp_has_nulls(),
        InnerComparator::Multi(_) => col.chunks@.len() > 1 && col.sp_has_nulls(),
    }
}

impl<T: Element + Copy> ChunkedArray<T> {
    /// Builds the equality comparator for this column. All layout branching
    /// is paid here, once; the comparator answers over the logical view.
    pub fn into_partial_eq_inner<'a>(&'a self) -> (r: InnerComparator<'a, T>)
        requires
            self.wf(),
        ensures
            r.wf(),
            r.items() == self@,
            sp_matches_layout(r, *self),
    {
        match self.layout() {
            ChunkedArrayLayout::SingleNoNull(c) => InnerComparator::SingleNoNull(c),
            ChunkedArrayLayout::Single(c) => InnerComparator::Single(c),
            ChunkedArrayLayout::MultiNoNull(a) => InnerComparator::MultiNoNull(a),
            ChunkedArrayLayout::Multi(a) => InnerComparator::Multi(a),
        }
    }

    /// Builds the ordering comparator for this column. All layout branching
    /// is paid here, once; the comparator answers over the logical view.
    pub fn into_partial_ord_inner<'a>(&'a self) -> (r: InnerComparator<'a, T>)
        requires
            self.wf(),
        ensures
            r.wf(),
            r.items() == self@,
            sp_matches_layout(r, *self),
    {
        match self.layout() {
            ChunkedArrayLayout::SingleNoNull(c) => InnerComparator::SingleNoNull(c),
            ChunkedArrayLayout::Single(c) => InnerComparator::Single(c),
            ChunkedArrayLayout::MultiNoNull(a) => InnerComparator::MultiNoNull(a),
            ChunkedArrayLayout::Multi(a) => InnerComparator::Multi(a),
        }
    }
}

} // verus!
