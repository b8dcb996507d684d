//! The element types a column can hold, with their equality and their
//! (possibly partial) natural ordering, stated once and shared by every
//! comparator.

use vstd::prelude::*;
use std::cmp::Ordering;

verus! {

/// An element type that a comparator can work over: it has an equality and a
/// partial natural ordering, each given as a spec function and computed by a
/// verified executable method.
///
/// `sp_partial_cmp` returns `None` exactly where the natural ordering is
/// undefined (a NaN operand); the comparators then fall back to the
/// documented tie-break policy.
pub trait Element: Sized {
    /// Equality of two element values.
    spec fn sp_eq(self, other: Self) -> bool;

    /// Natural partial ordering; `None` where it is undefined.
    spec fn sp_partial_cmp(self, other: Self) -> Option<Ordering>;

    /// Computes `sp_eq`.
    fn eq_element(&self, other: &Self) -> (r: bool)
        ensures
            r == self.sp_eq(*other),
    ;

    /// Computes `sp_partial_cmp`.
    fn partial_cmp_element(&self, other: &Self) -> (r: Option<Ordering>)
        ensures
            r == self.sp_partial_cmp(*other),
    ;
}

impl Element for i64 {
    open spec fn sp_eq(self, other: i64) -> bool {
        self == other
    }

    open spec fn sp_partial_cmp(self, other: i64) -> Option<Ordering> {
        if self < other {
            Some(Ordering::Less)
        } else if self == other {
            Some(Ordering::Equal)
        } else {
            Some(Ordering::Greater)
        }
    }

    fn eq_element(&self, other: &i64) -> (r: bool) {
        *self == *other
    }

    fn partial_cmp_element(&self, other: &i64) -> (r: Option<Ordering>) {
        if *self < *other {
            Some(Ordering::Less)
        } else if *self == *other {
            Some(Ordering::Equal)
        } else {
            Some(Ordering::Greater)
        }
    }
}

impl Element for u32 {
    open spec fn sp_eq(self, other: u32) -> bool {
        self == other
    }

    open spec fn sp_partial_cmp(self, other: u32) -> Option<Ordering> {
        if self < other {
            Some(Ordering::Less)
        } else if self == other {
            Some(Ordering::Equal)
        } else {
            Some(Ordering::Greater)
        }
    }

    fn eq_element(&self, other: &u32) -> (r: bool) {
        *self == *other
    }

    fn partial_cmp_element(&self, other: &u32) -> (r: Option<Ordering>) {
        if *self < *other {
            Some(Ordering::Less)
        } else if *self == *other {
            Some(Ordering::Equal)
        } else {
            Some(Ordering::Greater)
        }
    }
}

/// A stand-in for an IEEE floating-point value, holding exactly what the
/// comparison logic reads of one: whether it is NaN, and, for a non-NaN
/// value, an order-preserving integer key (equal values share a key, and
/// keys order as the values do).
#[derive(Clone, Copy)]
pub struct Fp {
    pub nan: bool,
    pub key: i64,
}

impl Element for Fp {
    /// IEEE equality: a NaN is unequal to everything, itself included.
    open spec fn sp_eq(self, other: Fp) -> bool {
        &&& !self.nan
        &&& !other.nan
        &&& self.key == other.key
    }

    /// IEEE ordering: undefined as soon as either operand is NaN.
    open spec fn sp_partial_cmp(self, other: Fp) -> Option<Ordering> {
        if self.nan || other.nan {
            None
        } else if self.key < other.key {
            Some(Ordering::Less)
        } else if self.key == other.key {
            Some(Ordering::Equal)
        } else {
            Some(Ordering::Greater)
        }
    }

    fn eq_element(&self, other: &Fp) -> (r: bool) {
        !self.nan && !other.nan && self.key == other.key
    }

    fn partial_cmp_element(&self, other: &Fp) -> (r: Option<Ordering>) {
        if self.nan || other.nan {
            None
        } else if self.key < other.key {
            Some(Ordering::Less)
        } else if self.key == other.key {
            Some(Ordering::Equal)
        } else {
            Some(Ordering::Greater)
        }
    }
}

/// Lexicographic order on byte strings: the order `str` comparison gives, as
/// dictionary entries of categorical columns are compared.
pub open spec fn sp_lex_cmp(a: Seq<u8>, b: Seq<u8>) -> Ordering
    decreases a.len(),
{
    if a.len() == 0 && b.len() == 0 {
        Ordering::Equal
    } else if a.len() == 0 {
        Ordering::Less
    } else if b.len() == 0 {
        Ordering::Greater
    } else if a[0] < b[0] {
        Ordering::Less
    } else if a[0] > b[0] {
        Ordering::Greater
    } else {
        sp_lex_cmp(a.skip(1), b.skip(1))
    }
}

/// Dropping an equal prefix does not change the lexicographic verdict.
proof fn lemma_lex_cmp_skip(a: Seq<u8>, b: Seq<u8>, i: int)
    requires
        0 <= i <= a.len(),
        0 <= i <= b.len(),
        forall|k: int| 0 <= k < i ==> a[k] == b[k],
    ensures
        sp_lex_cmp(a, b) == sp_lex_cmp(a.skip(i), b.skip(i)),
    decreases i,
{
    if i > 0 {
        lemma_lex_cmp_skip(a, b, i - 1);
        let a1 = a.skip(i - 1);
        let b1 = b.skip(i - 1);
        assert(a1[0] == a[i - 1]);
        assert(b1[0] == b[i - 1]);
        assert(a1.skip(1) =~= a.skip(i));
        assert(b1.skip(1) =~= b.skip(i));
    } else {
        assert(a.skip(0) =~= a);
        assert(b.skip(0) =~= b);
    }
}

impl Element for Vec<u8> {
    /// Byte strings are equal exactly when they hold the same bytes.
    open spec fn sp_eq(self, other: Vec<u8>) -> bool {
        self@ == other@
    }

    /// Byte strings are totally ordered lexicographically.
    open spec fn sp_partial_cmp(self, other: Vec<u8>) -> Option<Ordering> {
        Some(sp_lex_cmp(self@, other@))
    }

    fn eq_element(&self, other: &Vec<u8>) -> (r: bool) {
        if self.len() != other.len() {
            return false;
        }
        let n = self.len();
        let mut k: usize = 0;
        while k < n
            invariant
                n == self@.len(),
                n == other@.len(),
                k <= n,
                forall|m: int| 0 <= m < k ==> self@[m] == other@[m],
            decreases n - k,
        {
            if self[k] != other[k] {
                return false;
            }
            k += 1;
        }
        proof {
            assert(self@ =~= other@);
        }
        true
    }

    fn partial_cmp_element(&self, other: &Vec<u8>) -> (r: Option<Ordering>) {
        let n = if self.len() < other.len() {
            self.len()
        } else {
            other.len()
        };
        let mut k: usize = 0;
        while k < n
            invariant
                n <= self@.len(),
                n <= other@.len(),
                n == self@.len() || n == other@.len(),
                k <= n,
                forall|m: int| 0 <= m < k ==> self@[m] == other@[m],
            decreases n - k,
        {
            let x = self[k];
            let y = other[k];
            if x < y || x > y {
                proof {
                    lemma_lex_cmp_skip(self@, other@, k as int);
                    assert(self@.skip(k as int)[0] == self@[k as int]);
                    assert(other@.skip(k as int)[0] == other@[k as int]);
                }
                if x < y {
                    return Some(Ordering::Less);
                }
                return Some(Ordering::Greater);
            }
            k += 1;
        }
        proof {
            lemma_lex_cmp_skip(self@, other@, n as int);
        }
        if self.len() < other.len() {
            Some(Ordering::Less)
        } else if self.len() > other.len() {
            proof {
                assert(other@.skip(n as int).len() == 0);
                assert(self@.skip(n as int).len() > 0);
            }
            Some(Ordering::Greater)
        } else {
            Some(Ordering::Equal)
        }
    }
}

} // verus!
