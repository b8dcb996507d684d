//! Dictionary-encoded categorical columns: integer codes resolved to byte
//! strings through either a per-column dictionary (Local) or a shared
//! code-to-slot table feeding a shared dictionary (Global). Both resolvers
//! expose the same equality and ordering contract on the resolved strings,
//! so the encoding never shows through a comparator.

use vstd::prelude::*;
use std::cmp::Ordering;
use std::collections::HashMap;
use crate::chunked::ChunkedArray;
use crate::compare::{GetInner, PartialEqInner, PartialOrdInner, cmp_value};
use crate::element::Element;

verus! {

broadcast use vstd::std_specs::hash::group_hash_axioms;

/// Every present code indexes into the local dictionary.
pub open spec fn sp_local_wf(rev_map: Vec<Vec<u8>>, cats: ChunkedArray<u32>) -> bool {
    &&& cats.wf()
    &&& forall|i: int|
        0 <= i < cats@.len() && cats@[i] is Some ==> (#[trigger] cats@[i])->Some_0
            < rev_map@.len()
}

/// The logical string at each position of a locally encoded column: the
/// code, where present, indexes the column's own dictionary.
pub open spec fn sp_local_items(rev_map: Vec<Vec<u8>>, cats: Seq<Option<u32>>) -> Seq<
    Option<Vec<u8>>,
> {
    Seq::new(
        cats.len(),
        |i: int| match cats[i] {
            Some(c) => Some(rev_map@[c as int]),
            None => None,
        },
    )
}

/// Every present code has a slot in the shared table, and every slot indexes
/// into the shared dictionary; this is guaranteed at encoding time, so a
/// missing code would be an internal invariant violation, not an error.
pub open spec fn sp_global_wf(p1: HashMap<u32, u32>, p2: Vec<Vec<u8>>, cats: ChunkedArray<
    u32,
>) -> bool {
    &&& cats.wf()
    &&& forall|i: int|
        0 <= i < cats@.len() && (#[trigger] cats@[i]) is Some ==> p1@.contains_key(
            cats@[i]->Some_0,
        ) && p1@[cats@[i]->Some_0] < p2@.len()
}

/// The logical string at each position of a globally encoded column: the
/// code, where present, goes through the shared table into the shared
/// dictionary.
pub open spec fn sp_global_items(p1: HashMap<u32, u32>, p2: Vec<Vec<u8>>, cats: Seq<
    Option<u32>,
>) -> Seq<Option<Vec<u8>>> {
    Seq::new(
        cats.len(),
        |i: int| match cats[i] {
            Some(c) => Some(p2@[p1@[c] as int]),
            None => None,
        },
    )
}

/// Resolver for a column whose codes index its own dictionary directly.
pub struct LocalCategorical<'a> {
    pub rev_map: &'a Vec<Vec<u8>>,
    pub cats: &'a ChunkedArray<u32>,
}

impl<'a> LocalCategorical<'a> {
    pub open spec fn wf(&self) -> bool {
        sp_local_wf(*self.rev_map, *self.cats)
    }

    pub open spec fn items(&self) -> Seq<Option<Vec<u8>>> {
        sp_local_items(*self.rev_map, self.cats@)
    }

    /// The resolved string at `idx`; the caller answers for the bound.
    pub fn get_unchecked(&self, idx: usize) -> (r: Option<&'a Vec<u8>>)
        requires
            self.wf(),
            idx < self.items().len(),
        ensures
            match r {
                Some(v) => self.items()[idx as int] == Some(*v),
                None => self.items()[idx as int] is None,
            },
    {
        match self.cats.get_unchecked(idx) {
            Some(cat) => Some(&self.rev_map[cat as usize]),
            None => None,
        }
    }
}

/// Resolver for a column whose codes go through a shared code-to-slot table
/// into a shared, interned dictionary.
pub struct GlobalCategorical<'a> {
    pub p1: &'a HashMap<u32, u32>,
    pub p2: &'a Vec<Vec<u8>>,
    pub cats: &'a ChunkedArray<u32>,
}

impl<'a> GlobalCategorical<'a> {
    pub open spec fn wf(&self) -> bool {
        sp_global_wf(*self.p1, *self.p2, *self.cats)
    }

    pub open spec fn items(&self) -> Seq<Option<Vec<u8>>> {
        sp_global_items(*self.p1, *self.p2, self.cats@)
    }

    /// The resolved string at `idx`; the caller answers for the bound. The
    /// table lookup is owed to succeed by the encoding invariant.
    pub fn get_unchecked(&self, idx: usize) -> (r: Option<&'a Vec<u8>>)
        requires
            self.wf(),
            idx < self.items().len(),
        ensures
            match r {
                Some(v) => self.items()[idx as int] == Some(*v),
                None => self.items()[idx as int] is None,
            },
    {
        match self.cats.get_unchecked(idx) {
            Some(cat) => {
                proof {
                    assert(self.cats@[idx as int] is Some);
                    assert(self.p1@.contains_key(cat));
                }
                let slot = self.p1.get(&cat).unwrap();
                Some(&self.p2[*slot as usize])
            },
            None => None,
        }
    }
}

/// A categorical comparator: the encoding is resolved once, at construction,
/// never at comparison time.
pub enum CategoricalInner<'a> {
    Global(GlobalCategorical<'a>),
    Local(LocalCategorical<'a>),
}

impl<'a> CategoricalInner<'a> {
    /// The resolved string at `idx`; the caller answers for the bound.
    pub fn get_unchecked(&self, idx: usize) -> (r: Option<&'a Vec<u8>>)
        requires
            self.wf(),
            idx < self.items().len(),
        ensures
            match r {
                Some(v) => self.items()[idx as int] == Some(*v),
                None => self.items()[idx as int] is None,
            },
    {
        match self {
            CategoricalInner::Global(g) => g.get_unchecked(idx),
            CategoricalInner::Local(l) => l.get_unchecked(idx),
        }
    }
}

impl<'a> GetInner for CategoricalInner<'a> {
    type E = Vec<u8>;

    open spec fn wf(&self) -> bool {
        match *self {
            CategoricalInner::Global(g) => g.wf(),
            CategoricalInner::Local(l) => l.wf(),
        }
    }

    open spec fn items(&self) -> Seq<Option<Vec<u8>>> {
        match *self {
            CategoricalInner::Global(g) => g.items(),
            CategoricalInner::Local(l) => l.items(),
        }
    }
}

impl<'a> PartialEqInner for CategoricalInner<'a> {
    fn eq_element_unchecked(&self, idx_a: usize, idx_b: usize) -> (r: bool) {
        let va = self.get_unchecked(idx_a);
        let vb = self.get_unchecked(idx_b);
        match (va, vb) {
            (Option::None, Option::None) => true,
            (Option::Some(x), Option::Some(y)) => x.eq_element(y),
            _ => false,
        }
    }
}

impl<'a> PartialOrdInner for CategoricalInner<'a> {
    fn cmp_element_unchecked(&self, idx_a: usize, idx_b: usize) -> (r: Ordering) {
        let va = self.get_unchecked(idx_a);
        let vb = self.get_unchecked(idx_b);
        match (va, vb) {
            (Option::None, Option::None) => Ordering::Equal,
            (Option::None, Option::Some(_)) => Ordering::Less,
            (Option::Some(_), Option::None) => Ordering::Greater,
            (Option::Some(x), Option::Some(y)) => cmp_value(x, y),
        }
    }
}

/// How a categorical column's codes map back to strings: through a shared
/// table and dictionary, or through the column's own dictionary. A column
/// has exactly one active mode, fixed for its lifetime.
pub enum RevMapping {
    Global(HashMap<u32, u32>, Vec<Vec<u8>>),
    Local(Vec<Vec<u8>>),
}

/// A dictionary-encoded categorical column: a code column plus its mapping.
pub struct CategoricalChunked {
    pub cats: ChunkedArray<u32>,
    pub rev_map: RevMapping,
}

impl CategoricalChunked {
    pub open spec fn wf(&self) -> bool {
        match self.rev_map {
            RevMapping::Global(p1, p2) => sp_global_wf(p1, p2, self.cats),
            RevMapping::Local(d) => sp_local_wf(d, self.cats),
        }
    }

    /// The column as the logical sequence of resolved strings.
    pub open spec fn resolved(&self) -> Seq<Option<Vec<u8>>> {
        match self.rev_map {
            RevMapping::Global(p1, p2) => sp_global_items(p1, p2, self.cats@),
            RevMapping::Local(d) => sp_local_items(d, self.cats@),
        }
    }

    /// The underlying code column.
    pub fn logical(&self) -> (r: &ChunkedArray<u32>)
        ensures
            r == &self.cats,
    {
        &self.cats
    }

    /// The active code-to-string mapping.
    pub fn get_rev_map(&self) -> (r: &RevMapping)
        ensures
            r == &self.rev_map,
    {
        &self.rev_map
    }

    /// The comparator resolves through the same mode the column carries.
    pub open spec fn sp_matches_mode(&self, r: CategoricalInner) -> bool {
        match r {
            CategoricalInner::Global(_) => self.rev_map is Global,
            CategoricalInner::Local(_) => self.rev_map is Local,
        }
    }

    /// Builds the equality comparator: the encoding mode is inspected once,
    /// here, and the comparator answers over the resolved strings.
    pub fn into_partial_eq_inner<'a>(&'a self) -> (r: CategoricalInner<'a>)
        requires
            self.wf(),
        ensures
            r.wf(),
            r.items() == self.resolved(),
            self.sp_matches_mode(r),
    {
        let cats = &self.cats;
        match &self.rev_map {
            RevMapping::Global(p1, p2) => CategoricalInner::Global(
                GlobalCategorical { p1, p2, cats },
            ),
            RevMapping::Local(rev_map) => CategoricalInner::Local(
                LocalCategorical { rev_map, cats },
            ),
        }
    }

    /// Builds the ordering comparator: the encoding mode is inspected once,
    /// here, and the comparator answers over the resolved strings.
    pub fn into_partial_ord_inner<'a>(&'a self) -> (r: CategoricalInner<'a>)
        requires
            self.wf(),
        ensures
            r.wf(),
            r.items() == self.resolved(),
            self.sp_matches_mode(r),
    {
        let cats = &self.cats;
        match &self.rev_map {
            RevMapping::Global(p1, p2) => CategoricalInner::Global(
                GlobalCategorical { p1, p2, cats },
            ),
            RevMapping::Local(rev_map) => CategoricalInner::Local(
                LocalCategorical { rev_map, cats },
            ),
        }
    }
}

} // verus!
