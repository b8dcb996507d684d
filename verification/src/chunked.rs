//! The column model: a logical sequence of optional values, physically split
//! into one or more chunks, each chunk optionally carrying a validity mask.
//! The logical view (`@`) is the concatenation of the chunk views; every
//! accessor contract is stated over that view, so physical chunking can
//! never show through a comparator.

use vstd::prelude::*;

verus! {

/// One contiguous physical segment of a column. A position is logically
/// null when the mask is present and holds `false` there; a chunk without a
/// mask holds no nulls.
pub struct Chunk<T> {
    pub values: Vec<T>,
    pub validity: Option<Vec<bool>>,
}

impl<T> Chunk<T> {
    /// The mask, where present, covers every value.
    pub open spec fn wf(self) -> bool {
        match self.validity {
            Some(v) => v.len() == self.values.len(),
            None => true,
        }
    }

    /// Whether position `i` holds a (non-null) value.
    pub open spec fn valid_at(self, i: int) -> bool {
        match self.validity {
            Some(v) => v[i],
            None => true,
        }
    }

    /// Whether any position of this chunk is null.
    pub open spec fn sp_has_nulls(self) -> bool {
        exists|i: int| 0 <= i < self@.len() && self@[i] is None
    }
}

impl<T> View for Chunk<T> {
    type V = Seq<Option<T>>;

    /// The chunk as a logical sequence: `None` at null positions.
    open spec fn view(&self) -> Seq<Option<T>> {
        Seq::new(
            self.values@.len(),
            |i: int| if self.valid_at(i) {
                Some(self.values@[i])
            } else {
                None
            },
        )
    }
}

impl<T: Copy> Chunk<T> {
    /// Number of positions in this chunk.
    pub fn len(&self) -> (r: usize)
        ensures
            r == self@.len(),
    {
        self.values.len()
    }

    /// The logical value at `idx`; the caller answers for the bound.
    pub fn get_unchecked(&self, idx: usize) -> (r: Option<T>)
        requires
            self.wf(),
            idx < self@.len(),
        ensures
            r == self@[idx as int],
    {
        match &self.validity {
            Some(v) => if v[idx] {
                Some(self.values[idx])
            } else {
                None
            },
            None => Some(self.values[idx]),
        }
    }

    /// The plain value at `idx`, for chunks known to hold one there.
    pub fn value_unchecked(&self, idx: usize) -> (r: T)
        requires
            self.wf(),
            idx < self@.len(),
            self@[idx as int] is Some,
        ensures
            Some(r) == self@[idx as int],
    {
        self.values[idx]
    }

    /// Whether any position of this chunk is null.
    pub fn has_nulls(&self) -> (r: bool)
        requires
            self.wf(),
        ensures
            r == self.sp_has_nulls(),
    {
        match &self.validity {
            None => false,
            Some(v) => {
                let n = v.len();
                let mut k: usize = 0;
                while k < n
                    invariant
                        self.wf(),
                        self.validity == Some(*v),
                        n == v@.len(),
                        k <= n,
                        forall|m: int| 0 <= m < k ==> self@[m] is Some,
                    decreases n - k,
                {
                    if !v[k] {
                        proof {
                            assert(self@[k as int] is None);
                        }
                        return true;
                    }
                    k += 1;
                }
                false
            },
        }
    }
}

/// The concatenation of chunk views: the logical content of a column.
pub open spec fn sp_concat<T>(views: Seq<Seq<Option<T>>>) -> Seq<Option<T>>
    decreases views.len(),
{
    if views.len() == 0 {
        Seq::empty()
    } else {
        views[0] + sp_concat(views.skip(1))
    }
}

/// Every element of a concatenation comes from one of its chunks.
pub proof fn lemma_concat_elem<T>(views: Seq<Seq<Option<T>>>, i: int)
    requires
        0 <= i < sp_concat(views).len(),
    ensures
        exists|c: int, k: int|
            0 <= c < views.len() && 0 <= k < views[c].len() && sp_concat(views)[i]
                == views[c][k],
    decreases views.len(),
{
    if i < views[0].len() {
        assert(sp_concat(views)[i] == views[0][i]);
    } else {
        let rest = views.skip(1);
        lemma_concat_elem(rest, i - views[0].len());
        let (c, k): (int, int) = choose|c: int, k: int|
            0 <= c < rest.len() && 0 <= k < rest[c].len() && sp_concat(rest)[i
                - views[0].len()] == rest[c][k];
        assert(views[c + 1] == rest[c]);
        assert(sp_concat(views)[i] == views[c + 1][k]);
    }
}

/// A column: one or more chunks seen as one logical sequence.
pub struct ChunkedArray<T> {
    pub chunks: Vec<Chunk<T>>,
}

impl<T> ChunkedArray<T> {
    /// A column holds at least one chunk, each well formed.
    pub open spec fn wf(self) -> bool {
        &&& self.chunks@.len() >= 1
        &&& forall|c: int| 0 <= c < self.chunks@.len() ==> (#[trigger] self.chunks@[c]).wf()
    }

    /// Whether any chunk holds a null.
    pub open spec fn sp_has_nulls(self) -> bool {
        exists|c: int| 0 <= c < self.chunks@.len() && (#[trigger] self.chunks@[c]).sp_has_nulls()
    }
}

impl<T> View for ChunkedArray<T> {
    type V = Seq<Option<T>>;

    /// The column as one logical sequence, chunk views concatenated.
    open spec fn view(&self) -> Seq<Option<T>> {
        sp_concat(self.chunks@.map_values(|c: Chunk<T>| c@))
    }
}

/// A column without nulls holds a value at every logical position.
pub proof fn lemma_no_nulls_view<T>(arr: ChunkedArray<T>)
    requires
        arr.wf(),
        !arr.sp_has_nulls(),
    ensures
        forall|i: int| 0 <= i < arr@.len() ==> arr@[i] is Some,
{
    let views = arr.chunks@.map_values(|c: Chunk<T>| c@);
    assert forall|i: int| 0 <= i < arr@.len() implies arr@[i] is Some by {
        lemma_concat_elem(views, i);
        let (c, k): (int, int) = choose|c: int, k: int|
            0 <= c < views.len() && 0 <= k < views[c].len() && sp_concat(views)[i]
                == views[c][k];
        assert(!arr.chunks@[c].sp_has_nulls());
        assert(views[c] == arr.chunks@[c]@);
        assert(!(views[c][k] is None));
    }
}

/// A single-chunk column's view is that chunk's view.
pub proof fn lemma_single_chunk_view<T>(arr: ChunkedArray<T>)
    requires
        arr.chunks@.len() == 1,
    ensures
        arr@ == arr.chunks@[0]@,
{
    let views = arr.chunks@.map_values(|c: Chunk<T>| c@);
    assert(sp_concat(views.skip(1)) =~= Seq::<Option<T>>::empty());
    assert(arr@ =~= arr.chunks@[0]@);
}

impl<T: Copy> ChunkedArray<T> {
    /// Logical length of the column.
    pub fn len(&self) -> (r: usize)
        requires
            self.wf(),
            self@.len() <= usize::MAX,
        ensures
            r == self@.len(),
    {
        let n = self.chunks.len();
        let mut total: usize = 0;
        let mut c: usize = 0;
        let ghost views = self.chunks@.map_values(|ch: Chunk<T>| ch@);
        proof {
            assert(views.take(0) =~= Seq::<Seq<Option<T>>>::empty());
            assert(views.skip(0) =~= views);
        }
        while c < n
            invariant
                self.wf(),
                self@.len() <= usize::MAX,
                n == self.chunks@.len(),
                c <= n,
                views == self.chunks@.map_values(|ch: Chunk<T>| ch@),
                total == sp_concat(views.take(c as int)).len(),
                sp_concat(views.take(c as int)).len() + sp_concat(views.skip(c as int)).len()
                    == self@.len(),
            decreases n - c,
        {
            proof {
                assert(views[c as int] == self.chunks@[c as int]@);
                assert(views.skip(c as int)[0] == views[c as int]);
                assert(views.skip(c as int).skip(1) =~= views.skip(c as int + 1));
                assert(views.take(c as int + 1).drop_last() =~= views.take(c as int));
                lemma_concat_snoc(views.take(c as int + 1));
                assert(views.take(c as int + 1).last() == views[c as int]);
            }
            let cl = self.chunks[c].len();
            total = total + cl;
            c += 1;
        }
        proof {
            assert(views.take(n as int) =~= views);
            assert(views.skip(n as int) =~= Seq::<Seq<Option<T>>>::empty());
        }
        total
    }

    /// The logical value at `idx`, found by walking the chunks once; the
    /// caller answers for the bound.
    pub fn get_unchecked(&self, idx: usize) -> (r: Option<T>)
        requires
            self.wf(),
            idx < self@.len(),
        ensures
            r == self@[idx as int],
    {
        let ghost views = self.chunks@.map_values(|ch: Chunk<T>| ch@);
        let mut c: usize = 0;
        let mut i: usize = idx;
        proof {
            assert(views.skip(0) =~= views);
        }
        loop
            invariant
                self.wf(),
                views == self.chunks@.map_values(|ch: Chunk<T>| ch@),
                idx < self@.len(),
                c < self.chunks@.len(),
                i < sp_concat(views.skip(c as int)).len(),
                sp_concat(views.skip(c as int))[i as int] == self@[idx as int],
            decreases self.chunks@.len() - c,
        {
            proof {
                assert(views[c as int] == self.chunks@[c as int]@);
                assert(views.skip(c as int)[0] == views[c as int]);
                assert(views.skip(c as int).skip(1) =~= views.skip(c as int + 1));
            }
            let cl = self.chunks[c].len();
            if i < cl {
                proof {
                    assert(sp_concat(views.skip(c as int))[i as int] == views[c as int][i as int]);
                }
                return self.chunks[c].get_unchecked(i);
            }
            i = i - cl;
            proof {
                assert(self.chunks.len() == self.chunks@.len());
            }
            c = c + 1;
            proof {
                assert(sp_concat(views.skip(c as int - 1))[(i + cl) as int] == sp_concat(
                    views.skip(c as int),
                )[i as int]);
                if c >= self.chunks@.len() {
                    assert(views.skip(c as int) =~= Seq::<Seq<Option<T>>>::empty());
                    assert(sp_concat(views.skip(c as int)).len() == 0);
                }
            }
        }
    }

    /// The plain value at `idx`, for columns known to hold one there.
    pub fn value_unchecked(&self, idx: usize) -> (r: T)
        requires
            self.wf(),
            idx < self@.len(),
            self@[idx as int] is Some,
        ensures
            Some(r) == self@[idx as int],
    {
        self.get_unchecked(idx).unwrap()
    }

    /// Whether any position of the column is null.
    pub fn has_nulls(&self) -> (r: bool)
        requires
            self.wf(),
        ensures
            r == self.sp_has_nulls(),
    {
        let n = self.chunks.len();
        let mut c: usize = 0;
        while c < n
            invariant
                self.wf(),
                n == self.chunks@.len(),
                c <= n,
                forall|m: int| 0 <= m < c ==> !(#[trigger] self.chunks@[m]).sp_has_nulls(),
            decreases n - c,
        {
            if self.chunks[c].has_nulls() {
                return true;
            }
            c += 1;
        }
        false
    }
}

/// The four physical shapes a column can take: single or multiple chunks,
/// with or without nulls. Classified once, at comparator construction; the
/// comparison hot path never re-inspects it.
pub enum ChunkedArrayLayout<'a, T> {
    SingleNoNull(&'a Chunk<T>),
    Single(&'a Chunk<T>),
    MultiNoNull(&'a ChunkedArray<T>),
    Multi(&'a ChunkedArray<T>),
}

impl<T: Copy> ChunkedArray<T> {
    /// Classifies this column's physical shape: chunk count and presence of
    /// nulls, each inspected exactly once.
    pub fn layout<'a>(&'a self) -> (r: ChunkedArrayLayout<'a, T>)
        requires
            self.wf(),
        ensures
            match r {
                ChunkedArrayLayout::SingleNoNull(c) => self.chunks@.len() == 1
                    && !self.sp_has_nulls() && c.wf() && c@ == self@ && (forall|i: int|
                    0 <= i < self@.len() ==> self@[i] is Some),
                ChunkedArrayLayout::Single(c) => self.chunks@.len() == 1 && self.sp_has_nulls()
                    && c.wf() && c@ == self@,
                ChunkedArrayLayout::MultiNoNull(a) => self.chunks@.len() > 1
                    && !self.sp_has_nulls() && *a == *self && (forall|i: int|
                    0 <= i < self@.len() ==> self@[i] is Some),
                ChunkedArrayLayout::Multi(a) => self.chunks@.len() > 1 && self.sp_has_nulls()
                    && *a == *self,
            },
    {
        let single = self.chunks.len() == 1;
        let nulls = self.has_nulls();
        if single {
            proof {
                lemma_single_chunk_view(*self);
            }
            let c = &self.chunks[0];
            if nulls {
                ChunkedArrayLayout::Single(c)
            } else {
                proof {
                    lemma_no_nulls_view(*self);
                }
                ChunkedArrayLayout::SingleNoNull(c)
            }
        } else {
            if nulls {
                ChunkedArrayLayout::Multi(self)
            } else {
                proof {
                    lemma_no_nulls_view(*self);
                }
                ChunkedArrayLayout::MultiNoNull(self)
            }
        }
    }
}

/// Splitting off the last chunk splits the concatenation's length.
pub proof fn lemma_concat_snoc<T>(views: Seq<Seq<Option<T>>>)
    requires
        views.len() >= 1,
    ensures
        sp_concat(views).len() == sp_concat(views.drop_last()).len() + views.last().len(),
    decreases views.len(),
{
    if views.len() == 1 {
        assert(views.drop_last() =~= Seq::<Seq<Option<T>>>::empty());
        assert(views.skip(1) =~= Seq::<Seq<Option<T>>>::empty());
    } else {
        lemma_concat_snoc(views.skip(1));
        assert(views.skip(1).drop_last() =~= views.drop_last().skip(1));
        assert(views.drop_last()[0] == views[0]);
        assert(views.skip(1).last() == views.last());
    }
}

} // verus!
