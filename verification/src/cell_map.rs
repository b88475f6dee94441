//! A map from cells to values, backed by a hash map of packed keys.

use crate::cell_set::cells_of;
use crate::coords::{
    cell_key, cell_of, in_range, key_cell, key_of, lemma_cell_of_key, lemma_key_injective,
    lemma_key_of_cell, point, Point,
};
use std::collections::HashMap;
use vstd::prelude::*;
use vstd::std_specs::iter::IteratorSpec;

verus! {

/// A finite map from representable cells to values.
pub struct CellMap<V> {
    entries: HashMap<u64, V>,
}

impl<V> View for CellMap<V> {
    type V = Map<Point, V>;

    closed spec fn view(&self) -> Map<Point, V> {
        Map::new(
            |c: Point| in_range(c) && self.entries@.contains_key(key_of(c) as u64),
            |c: Point| self.entries@[key_of(c) as u64],
        )
    }
}

impl<V> CellMap<V> {
    /// The keys behind the map, for proofs about its size.
    pub closed spec fn keys(&self) -> Set<u64> {
        self.entries@.dom()
    }

    /// Every cell of the domain is representable.
    pub proof fn lemma_domain_in_range(&self)
        ensures
            forall|c: Point| #[trigger] self@.contains_key(c) ==> in_range(c),
    {
    }

    /// The domain is finite and has as many cells as the map has keys.
    pub proof fn lemma_len(&self)
        ensures
            self@.dom().finite(),
            self@.dom().len() == self.keys().len(),
    {
        let f = |k: u64| cell_of(k as int);
        let keys = self.entries@.dom();
        let mapped = keys.map(f);
        assert forall|c: Point| self@.dom().contains(c) <==> mapped.contains(c) by {
            if self@.dom().contains(c) {
                lemma_key_of_cell(c);
                assert(keys.contains(key_of(c) as u64) && f(key_of(c) as u64) == c);
            }
            if mapped.contains(c) {
                let k = choose|k: u64| keys.contains(k) && f(k) == c;
                lemma_cell_of_key(k as int);
            }
        }
        assert(self@.dom() =~= mapped);
        assert forall|a: u64, b: u64| #[trigger] f(a) == #[trigger] f(b) implies a == b by {
            lemma_cell_of_key(a as int);
            lemma_cell_of_key(b as int);
        }
        vstd::set_lib::lemma_map_size(keys, mapped, f);
    }

    /// The empty map.
    pub fn new() -> (m: CellMap<V>)
        ensures
            m@ == Map::<Point, V>::empty(),
    {
        let m = CellMap { entries: HashMap::new() };
        assert(m@ =~= Map::<Point, V>::empty());
        m
    }

    /// Whether `cell` has a value.
    pub fn contains_key(&self, cell: (i32, i32)) -> (found: bool)
        ensures
            found == self@.contains_key(point(cell)),
    {
        let k = cell_key(cell.0, cell.1);
        self.entries.contains_key(&k)
    }

    /// The value of `cell`, if it has one.
    pub fn get(&self, cell: (i32, i32)) -> (value: Option<&V>)
        ensures
            match value {
                Some(v) => self@.contains_key(point(cell)) && *v == self@[point(cell)],
                None => !self@.contains_key(point(cell)),
            },
    {
        let k = cell_key(cell.0, cell.1);
        self.entries.get(&k)
    }

    /// Gives `cell` the value `value`; the result is the value it had.
    pub fn insert(&mut self, cell: (i32, i32), value: V) -> (previous: Option<V>)
        ensures
            final(self)@ == old(self)@.insert(point(cell), value),
            match previous {
                Some(v) => old(self)@.contains_key(point(cell)) && v == old(self)@[point(cell)],
                None => !old(self)@.contains_key(point(cell)),
            },
    {
        let k = cell_key(cell.0, cell.1);
        let previous = self.entries.insert(k, value);
        proof {
            let target = old(self)@.insert(point(cell), value);
            assert forall|c: Point| self@.contains_key(c) <==> target.contains_key(c) by {
                if in_range(c) && key_of(c) == key_of(point(cell)) {
                    lemma_key_injective(c, point(cell));
                }
            }
            assert forall|c: Point| self@.contains_key(c) implies self@[c] == target[c] by {
                if key_of(c) == key_of(point(cell)) {
                    lemma_key_injective(c, point(cell));
                }
            }
            assert(self@ =~= target);
        }
        previous
    }

    /// Takes the value of `cell` away; the result is the value it had.
    pub fn remove(&mut self, cell: (i32, i32)) -> (previous: Option<V>)
        ensures
            final(self)@ == old(self)@.remove(point(cell)),
            match previous {
                Some(v) => old(self)@.contains_key(point(cell)) && v == old(self)@[point(cell)],
                None => !old(self)@.contains_key(point(cell)),
            },
    {
        let k = cell_key(cell.0, cell.1);
        let previous = self.entries.remove(&k);
        proof {
            let target = old(self)@.remove(point(cell));
            assert forall|c: Point| self@.contains_key(c) <==> target.contains_key(c) by {
                if in_range(c) && key_of(c) == key_of(point(cell)) {
                    lemma_key_injective(c, point(cell));
                }
            }
            assert(self@ =~= target);
        }
        previous
    }

    /// Takes every value away.
    pub fn clear(&mut self)
        ensures
            final(self)@ == Map::<Point, V>::empty(),
    {
        self.entries.clear();
        assert(self@ =~= Map::<Point, V>::empty());
    }

    /// The number of cells that have a value.
    pub fn len(&self) -> (n: usize)
        ensures
            self@.dom().finite(),
            n == self@.dom().len(),
    {
        proof {
            self.lemma_len();
        }
        self.entries.len()
    }

    /// Whether no cell has a value.
    pub fn is_empty(&self) -> (empty: bool)
        ensures
            empty == (self@.dom() == Set::<Point>::empty()),
    {
        proof {
            self.lemma_len();
            if self@.dom() =~= Set::<Point>::empty() {
            } else {
                assert(self@.dom().len() != 0);
            }
        }
        self.entries.len() == 0
    }

    /// The cells that have a value, each once, in no particular order.
    pub fn cells(&self) -> (cells: Vec<(i32, i32)>)
        ensures
            cells_of(cells@) == self@.dom(),
            cells@.no_duplicates(),
            cells@.len() == self@.dom().len(),
    {
        let mut cells: Vec<(i32, i32)> = Vec::new();
        let ghost all = self.entries.keys().remaining();
        for k in it: self.entries.keys()
            invariant
                it.seq() == all,
                cells@.len() == it.index(),
                forall|j: int|
                    0 <= j < cells@.len() ==> point(#[trigger] cells@[j]) == cell_of(
                        *all[j] as int,
                    ),
        {
            cells.push(key_cell(*k));
        }
        proof {
            let keys = all.unref();
            assert(keys.to_set() == self.entries@.dom());
            assert(keys.no_duplicates());
            assert(keys.len() == all.len());
            assert forall|j: int| 0 <= j < keys.len() implies keys[j] == *all[j] by {}
            assert forall|i: int, j: int|
                0 <= i < cells@.len() && 0 <= j < cells@.len() && i != j implies cells@[i]
                != cells@[j] by {
                lemma_cell_of_key(keys[i] as int);
                lemma_cell_of_key(keys[j] as int);
            }
            assert forall|c: Point| cells_of(cells@).contains(c) <==> self@.dom().contains(c) by {
                if cells_of(cells@).contains(c) {
                    let i = choose|i: int| 0 <= i < cells@.len() && point(#[trigger] cells@[i]) == c;
                    lemma_cell_of_key(keys[i] as int);
                    assert(keys.to_set().contains(keys[i]));
                }
                if self@.dom().contains(c) {
                    lemma_key_of_cell(c);
                    let k = key_of(c) as u64;
                    assert(keys.to_set().contains(k));
                    let i = choose|i: int| 0 <= i < keys.len() && keys[i] == k;
                    assert(point(cells@[i]) == c);
                }
            }
            assert(cells_of(cells@) =~= self@.dom());
            self.lemma_len();
        }
        cells
    }
}

} // verus!
