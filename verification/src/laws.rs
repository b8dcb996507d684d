//! The semantic guarantees of the comparator layer, stated and proved once
//! over the spec functions that every comparator contract is pinned to.

use vstd::prelude::*;
use std::cmp::Ordering;
use crate::chunked::ChunkedArray;
use crate::element::{Element, Fp};
use crate::compare::{sp_eq_opt, sp_cmp_opt, sp_cmp_value};

verus! {

/// For two present values, comparator equality is exactly the element's own
/// equality, and, wherever the natural ordering is defined, the comparator's
/// verdict is exactly that ordering.
pub proof fn lemma_values_compare_naturally<T: Element>(a: T, b: T)
    ensures
        sp_eq_opt(Some(a), Some(b)) == a.sp_eq(b),
        a.sp_partial_cmp(b) is Some ==> Some(sp_cmp_opt(Some(a), Some(b))) == a.sp_partial_cmp(b),
{
}

/// Null ordering: two nulls are equal, and a null orders strictly before —
/// and never equal to — any present value.
pub proof fn lemma_null_ordering<T: Element>(b: T)
    ensures
        sp_eq_opt::<T>(None, None),
        sp_cmp_opt::<T>(None, None) == Ordering::Equal,
        sp_cmp_opt(None, Some(b)) == Ordering::Less,
        sp_cmp_opt(Some(b), None) == Ordering::Greater,
        !sp_eq_opt(None, Some(b)),
        !sp_eq_opt(Some(b), None),
{
}

/// The NaN tie-break, a documented quirk kept deliberately: a NaN left
/// operand orders `Less` against any present value — itself included, which
/// breaks reflexivity — and is equal to nothing, itself included; a non-NaN
/// left operand orders `Greater` against a NaN.
pub proof fn lemma_nan_ordering(a: Fp, b: Fp)
    ensures
        a.nan ==> sp_cmp_opt(Some(a), Some(b)) == Ordering::Less,
        a.nan ==> sp_cmp_opt(Some(a), Some(a)) == Ordering::Less,
        a.nan ==> !sp_eq_opt(Some(a), Some(a)),
        !a.nan && b.nan ==> sp_cmp_opt(Some(a), Some(b)) == Ordering::Greater,
{
}

/// Layout independence: every comparator's answers are functions of the
/// column's logical view alone (the factories ensure `items() == column@`),
/// so re-chunking a column's physical storage — same logical values, same
/// null positions, any chunk boundaries — changes no answer at any pair of
/// positions.
pub proof fn lemma_layout_independence<T: Element>(
    a: ChunkedArray<T>,
    b: ChunkedArray<T>,
    i: int,
    j: int,
)
    requires
        a@ == b@,
        0 <= i < a@.len(),
        0 <= j < a@.len(),
    ensures
        sp_eq_opt(a@[i], a@[j]) == sp_eq_opt(b@[i], b@[j]),
        sp_cmp_opt(a@[i], a@[j]) == sp_cmp_opt(b@[i], b@[j]),
{
}

/// Two optional byte strings holding the same bytes.
pub open spec fn sp_bytes_match(a: Option<Vec<u8>>, b: Option<Vec<u8>>) -> bool {
    match (a, b) {
        (None, None) => true,
        (Some(x), Some(y)) => x@ == y@,
        _ => false,
    }
}

/// Categorical equivalence: a locally and a globally encoded column that
/// resolve to the same logical string sequence answer identically, for both
/// equality and ordering, at every pair of positions — string comparisons
/// depend only on the resolved bytes, never on codes, slots or dictionaries.
pub proof fn lemma_categorical_equivalence(
    l: Seq<Option<Vec<u8>>>,
    g: Seq<Option<Vec<u8>>>,
    i: int,
    j: int,
)
    requires
        l.len() == g.len(),
        forall|k: int| 0 <= k < l.len() ==> sp_bytes_match(#[trigger] l[k], g[k]),
        0 <= i < l.len(),
        0 <= j < l.len(),
    ensures
        sp_eq_opt(l[i], l[j]) == sp_eq_opt(g[i], g[j]),
        sp_cmp_opt(l[i], l[j]) == sp_cmp_opt(g[i], g[j]),
{
    assert(sp_bytes_match(l[i], g[i]));
    assert(sp_bytes_match(l[j], g[j]));
    if l[i] is Some && l[j] is Some {
        let xi = l[i]->Some_0;
        let xj = l[j]->Some_0;
        let yi = g[i]->Some_0;
        let yj = g[j]->Some_0;
        assert(xi.sp_eq(xj) == yi.sp_eq(yj));
        assert(xi.sp_partial_cmp(xj) == yi.sp_partial_cmp(yj));
        assert(sp_cmp_value(xi, xj) == sp_cmp_value(yi, yj));
    }
}

} // verus!
