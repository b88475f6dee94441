//! A set of cells, backed by a hash set of packed keys.

use crate::coords::{cell_key, cell_of, in_range, key_cell, key_of, lemma_cell_of_key, lemma_key_injective, lemma_key_of_cell, point, Point};
use std::collections::HashSet;
use vstd::std_specs::iter::IteratorSpec;
use vstd::prelude::*;

verus! {

/// The cells that a sequence of machine coordinates names.
pub open spec fn cells_of(s: Seq<(i32, i32)>) -> Set<Point> {
    Set::new(|c: Point| exists|i: int| 0 <= i < s.len() && point(#[trigger] s[i]) == c)
}

/// A finite set of representable cells.
pub struct CellSet {
    keys: HashSet<u64>,
}

impl View for CellSet {
    type V = Set<Point>;

    closed spec fn view(&self) -> Set<Point> {
        Set::new(|c: Point| in_range(c) && self.keys@.contains(key_of(c) as u64))
    }
}

impl CellSet {
    /// The keys behind the set, for proofs about its size.
    pub closed spec fn keys(&self) -> Set<u64> {
        self.keys@
    }

    /// Every member is representable.
    pub proof fn lemma_members_in_range(&self)
        ensures
            forall|c: Point| #[trigger] self@.contains(c) ==> in_range(c),
    {
    }

    /// The set is finite and has as many cells as keys.
    pub proof fn lemma_len(&self)
        ensures
            self@.finite(),
            self@.len() == self.keys().len(),
    {
        let f = |k: u64| cell_of(k as int);
        let mapped = self.keys@.map(f);
        let listed = vstd::std_specs::hash::spec_hash_keys_iter(&self.keys).remaining().unref();
        assert(listed.to_set() == self.keys@);
        vstd::seq_lib::seq_to_set_is_finite(listed);
        assert forall|c: Point| self@.contains(c) <==> mapped.contains(c) by {
            if self@.contains(c) {
                lemma_key_of_cell(c);
                assert(self.keys@.contains(key_of(c) as u64) && f(key_of(c) as u64) == c);
            }
            if mapped.contains(c) {
                let k = choose|k: u64| self.keys@.contains(k) && f(k) == c;
                lemma_cell_of_key(k as int);
            }
        }
        assert(self@ =~= mapped);
        assert forall|a: u64, b: u64| #[trigger] f(a) == #[trigger] f(b) implies a == b by {
            lemma_cell_of_key(a as int);
            lemma_cell_of_key(b as int);
        }
        vstd::set_lib::lemma_map_size(self.keys@, mapped, f);
        self.keys@.lemma_map_finite(f);
    }

    /// The empty set.
    pub fn new() -> (s: CellSet)
        ensures
            s@ == Set::<Point>::empty(),
    {
        let s = CellSet { keys: HashSet::new() };
        assert(s@ =~= Set::<Point>::empty());
        s
    }

    /// Whether `cell` is in the set.
    pub fn contains(&self, cell: (i32, i32)) -> (found: bool)
        ensures
            found == self@.contains(point(cell)),
    {
        let k = cell_key(cell.0, cell.1);
        self.keys.contains(&k)
    }

    /// Adds `cell`; the result says whether it was new.
    pub fn insert(&mut self, cell: (i32, i32)) -> (fresh: bool)
        ensures
            final(self)@ == old(self)@.insert(point(cell)),
            fresh == !old(self)@.contains(point(cell)),
    {
        let k = cell_key(cell.0, cell.1);
        let fresh = self.keys.insert(k);
        proof {
            assert forall|c: Point| self@.contains(c) <==> old(self)@.insert(point(cell)).contains(
                c,
            ) by {
                if in_range(c) && key_of(c) == key_of(point(cell)) {
                    lemma_key_injective(c, point(cell));
                }
            }
            assert(self@ =~= old(self)@.insert(point(cell)));
        }
        fresh
    }

    /// Removes `cell`; the result says whether it was present.
    pub fn remove(&mut self, cell: (i32, i32)) -> (found: bool)
        ensures
            final(self)@ == old(self)@.remove(point(cell)),
            found == old(self)@.contains(point(cell)),
    {
        let k = cell_key(cell.0, cell.1);
        let found = self.keys.remove(&k);
        proof {
            assert forall|c: Point| self@.contains(c) <==> old(self)@.remove(point(cell)).contains(
                c,
            ) by {
                if in_range(c) && key_of(c) == key_of(point(cell)) {
                    lemma_key_injective(c, point(cell));
                }
            }
            assert(self@ =~= old(self)@.remove(point(cell)));
        }
        found
    }

    /// Removes every cell.
    pub fn clear(&mut self)
        ensures
            final(self)@ == Set::<Point>::empty(),
    {
        self.keys.clear();
        assert(self@ =~= Set::<Point>::empty());
    }

    /// The number of cells.
    pub fn len(&self) -> (n: usize)
        ensures
            self@.finite(),
            n == self@.len(),
    {
        proof {
            self.lemma_len();
        }
        self.keys.len()
    }

    /// Whether the set has no cell.
    pub fn is_empty(&self) -> (empty: bool)
        ensures
            empty == (self@ == Set::<Point>::empty()),
    {
        proof {
            self.lemma_len();
            if self@ =~= Set::<Point>::empty() {
            } else {
                assert(self@.len() != 0);
            }
        }
        self.keys.len() == 0
    }

    /// The set of the cells that `cells` lists.
    pub fn from_cells(cells: &[(i32, i32)]) -> (s: CellSet)
        ensures
            s@ == cells_of(cells@),
    {
        let mut s = CellSet::new();
        let mut i: usize = 0;
        while i < cells.len()
            invariant
                i <= cells.len(),
                s@ == cells_of(cells@.take(i as int)),
            decreases cells.len() - i,
        {
            s.insert(cells[i]);
            proof {
                lemma_cells_of_push(cells@.take(i as int), cells@[i as int]);
                assert(cells@.take(i as int).push(cells@[i as int]) =~= cells@.take(i + 1));
            }
            i += 1;
        }
        assert(cells@.take(i as int) =~= cells@);
        s
    }

    /// The cells of this set that are not in `other`.
    pub fn difference(&self, other: &CellSet) -> (d: CellSet)
        ensures
            d@ == self@.difference(other@),
    {
        let cells = self.to_vec();
        let mut d = CellSet::new();
        let mut i: usize = 0;
        proof {
            assert(d@ =~= cells_of(cells@.take(0)).difference(other@));
        }
        while i < cells.len()
            invariant
                i <= cells.len(),
                d@ == cells_of(cells@.take(i as int)).difference(other@),
            decreases cells.len() - i,
        {
            let cell = cells[i];
            proof {
                lemma_cells_of_push(cells@.take(i as int), cell);
                assert(cells@.take(i as int).push(cell) =~= cells@.take(i + 1));
            }
            if !other.contains(cell) {
                d.insert(cell);
            }
            proof {
                assert(d@ =~= cells_of(cells@.take(i + 1)).difference(other@));
            }
            i += 1;
        }
        proof {
            assert(cells@.take(cells@.len() as int) =~= cells@);
        }
        d
    }

    /// Adds every cell of `other`.
    pub fn insert_all(&mut self, other: &CellSet)
        ensures
            final(self)@ == old(self)@.union(other@),
    {
        let cells = other.to_vec();
        let mut i: usize = 0;
        proof {
            assert(self@ =~= old(self)@.union(cells_of(cells@.take(0))));
        }
        while i < cells.len()
            invariant
                i <= cells.len(),
                self@ == old(self)@.union(cells_of(cells@.take(i as int))),
            decreases cells.len() - i,
        {
            let cell = cells[i];
            proof {
                lemma_cells_of_push(cells@.take(i as int), cell);
                assert(cells@.take(i as int).push(cell) =~= cells@.take(i + 1));
            }
            self.insert(cell);
            proof {
                assert(self@ =~= old(self)@.union(cells_of(cells@.take(i + 1))));
            }
            i += 1;
        }
        proof {
            assert(cells@.take(cells@.len() as int) =~= cells@);
        }
    }

    /// Removes every cell of `other`.
    pub fn remove_all(&mut self, other: &CellSet)
        ensures
            final(self)@ == old(self)@.difference(other@),
    {
        let cells = other.to_vec();
        let mut i: usize = 0;
        proof {
            assert(self@ =~= old(self)@.difference(cells_of(cells@.take(0))));
        }
        while i < cells.len()
            invariant
                i <= cells.len(),
                self@ == old(self)@.difference(cells_of(cells@.take(i as int))),
            decreases cells.len() - i,
        {
            let cell = cells[i];
            proof {
                lemma_cells_of_push(cells@.take(i as int), cell);
                assert(cells@.take(i as int).push(cell) =~= cells@.take(i + 1));
            }
            self.remove(cell);
            proof {
                assert(self@ =~= old(self)@.difference(cells_of(cells@.take(i + 1))));
            }
            i += 1;
        }
        proof {
            assert(cells@.take(cells@.len() as int) =~= cells@);
        }
    }

    /// The cells of the set, each once, in no particular order.
    pub fn to_vec(&self) -> (cells: Vec<(i32, i32)>)
        ensures
            cells_of(cells@) == self@,
            cells@.no_duplicates(),
            cells@.len() == self@.len(),
    {
        let mut cells: Vec<(i32, i32)> = Vec::new();
        let ghost all = self.keys.iter().remaining();
        for k in it: self.keys.iter()
            invariant
                it.seq() == all,
                cells@.len() == it.index(),
                forall|j: int|
                    0 <= j < cells@.len() ==> point(#[trigger] cells@[j]) == cell_of(
                        *all[j] as int,
                    ),
        {
            cells.push(key_cell(*k));
        }
        proof {
            let keys = all.unref();
            assert(keys.to_set() == self.keys@);
            assert(keys.no_duplicates());
            assert(keys.len() == all.len());
            assert forall|j: int| 0 <= j < keys.len() implies keys[j] == *all[j] by {}
            assert forall|i: int, j: int|
                0 <= i < cells@.len() && 0 <= j < cells@.len() && i != j implies cells@[i]
                != cells@[j] by {
                lemma_cell_of_key(keys[i] as int);
                lemma_cell_of_key(keys[j] as int);
            }
            assert forall|c: Point| cells_of(cells@).contains(c) <==> self@.contains(c) by {
                if cells_of(cells@).contains(c) {
                    let i = choose|i: int| 0 <= i < cells@.len() && point(#[trigger] cells@[i]) == c;
                    lemma_cell_of_key(keys[i] as int);
                    assert(keys.to_set().contains(keys[i]));
                }
                if self@.contains(c) {
                    lemma_key_of_cell(c);
                    let k = key_of(c) as u64;
                    assert(keys.to_set().contains(k));
                    let i = choose|i: int| 0 <= i < keys.len() && keys[i] == k;
                    assert(point(cells@[i]) == c);
                }
            }
            assert(cells_of(cells@) =~= self@);
            lemma_listing_len(cells@);
        }
        cells
    }
}

/// Listing one more cell adds that cell to the set.
pub proof fn lemma_cells_of_push(s: Seq<(i32, i32)>, c: (i32, i32))
    ensures
        cells_of(s.push(c)) == cells_of(s).insert(point(c)),
{
    let t = s.push(c);
    assert forall|p: Point| cells_of(t).contains(p) <==> cells_of(s).insert(point(c)).contains(
        p,
    ) by {
        if cells_of(t).contains(p) {
            let i = choose|i: int| 0 <= i < t.len() && point(#[trigger] t[i]) == p;
            if i < s.len() {
                assert(point(s[i]) == p);
            }
        }
        if cells_of(s).contains(p) {
            let i = choose|i: int| 0 <= i < s.len() && point(#[trigger] s[i]) == p;
            assert(point(t[i]) == p);
        }
        if p == point(c) {
            assert(point(t[s.len() as int]) == p);
        }
    }
    assert(cells_of(t) =~= cells_of(s).insert(point(c)));
}

/// A list without repetitions names as many cells as it is long.
pub proof fn lemma_listing_len(s: Seq<(i32, i32)>)
    requires
        s.no_duplicates(),
    ensures
        cells_of(s).finite(),
        cells_of(s).len() == s.len(),
{
    let points = s.map_values(|c: (i32, i32)| point(c));
    assert(points.no_duplicates());
    assert forall|p: Point| cells_of(s).contains(p) <==> points.to_set().contains(p) by {
        if cells_of(s).contains(p) {
            let i = choose|i: int| 0 <= i < s.len() && point(#[trigger] s[i]) == p;
            assert(points[i] == p);
        }
        if points.to_set().contains(p) {
            let i = choose|i: int| 0 <= i < points.len() && points[i] == p;
            assert(point(s[i]) == p);
        }
    }
    assert(cells_of(s) =~= points.to_set());
    points.unique_seq_to_set();
    vstd::seq_lib::seq_to_set_is_finite(points);
}

} // verus!
