//! The live cells of a grid, with the births and deaths that a prepared
//! transition is about to bring.

use crate::cell_set::{cells_of, lemma_cells_of_push, CellSet};
use crate::coords::{point, Point};
use crate::grid::GridPosition;
use crate::patterns::{generate_blinker_pattern, generate_block_pattern, generate_glider_pattern, placed};
use vstd::prelude::*;

verus! {

/// The toad: an oscillator of six cells in two rows.
pub open spec fn toad_shape() -> Seq<Point> {
    seq![(1, 0), (2, 0), (3, 0), (0, 1), (1, 1), (2, 1)]
}

/// The cells of a shape moved by an offset.
pub open spec fn shape_at(shape: Seq<Point>, offset_x: int, offset_y: int) -> Set<Point> {
    Set::new(
        |c: Point|
            exists|i: int|
                0 <= i < shape.len() && crate::life::shifted(#[trigger] shape[i], offset_x, offset_y)
                    == c,
    )
}

/// The state of the grid.
pub struct GridState {
    pub live_cells: CellSet,
    pub pending_births: CellSet,
    pub pending_deaths: CellSet,
    pub dirty: bool,
}

/// Whether `bounds` is the bounding box of `cells`: every cell lies in it
/// and a cell lies on each of its sides.
pub open spec fn is_bounding_box(bounds: (i32, i32, i32, i32), cells: Set<Point>) -> bool {
    &&& forall|c: Point| #[trigger]
        cells.contains(c) ==> bounds.0 <= c.0 <= bounds.2 && bounds.1 <= c.1 <= bounds.3
    &&& exists|c: Point| #[trigger] cells.contains(c) && c.0 == bounds.0
    &&& exists|c: Point| #[trigger] cells.contains(c) && c.1 == bounds.1
    &&& exists|c: Point| #[trigger] cells.contains(c) && c.0 == bounds.2
    &&& exists|c: Point| #[trigger] cells.contains(c) && c.1 == bounds.3
}

impl GridState {
    /// Whether `other` has the same pending births and deaths.
    pub open spec fn same_pending(&self, other: &GridState) -> bool {
        &&& self.pending_births@ == other.pending_births@
        &&& self.pending_deaths@ == other.pending_deaths@
    }

    /// An empty, clean grid.
    pub fn new() -> (state: GridState)
        ensures
            state.live_cells@ == Set::<Point>::empty(),
            state.pending_births@ == Set::<Point>::empty(),
            state.pending_deaths@ == Set::<Point>::empty(),
            !state.dirty,
    {
        GridState {
            live_cells: CellSet::new(),
            pending_births: CellSet::new(),
            pending_deaths: CellSet::new(),
            dirty: false,
        }
    }

    /// A grid with the listed cells alive.  It is dirty.
    pub fn from_positions(positions: Vec<(i32, i32)>) -> (state: GridState)
        ensures
            state.live_cells@ == cells_of(positions@),
            state.pending_births@ == Set::<Point>::empty(),
            state.pending_deaths@ == Set::<Point>::empty(),
            state.dirty,
    {
        let mut state = GridState::new();
        state.live_cells = CellSet::from_cells(positions.as_slice());
        state.dirty = true;
        state
    }

    /// Sets a cell alive.  The grid is dirty if the cell was dead.
    pub fn add_cell(&mut self, position: (i32, i32))
        ensures
            final(self).live_cells@ == old(self).live_cells@.insert(point(position)),
            final(self).dirty == (old(self).dirty || !old(self).live_cells@.contains(
                point(position),
            )),
            final(self).same_pending(old(self)),
    {
        if self.live_cells.insert(position) {
            self.dirty = true;
        }
    }

    /// Sets a cell dead.  The grid is dirty if the cell was alive.
    pub fn remove_cell(&mut self, position: &(i32, i32))
        ensures
            final(self).live_cells@ == old(self).live_cells@.remove(point(*position)),
            final(self).dirty == (old(self).dirty || old(self).live_cells@.contains(
                point(*position),
            )),
            final(self).same_pending(old(self)),
    {
        if self.live_cells.remove(*position) {
            self.dirty = true;
        }
    }

    /// Sets a live cell dead and a dead cell alive.  The grid is dirty.
    pub fn toggle_cell(&mut self, position: (i32, i32))
        ensures
            final(self).live_cells@ == if old(self).live_cells@.contains(point(position)) {
                old(self).live_cells@.remove(point(position))
            } else {
                old(self).live_cells@.insert(point(position))
            },
            final(self).dirty,
            final(self).same_pending(old(self)),
    {
        if self.live_cells.contains(position) {
            self.remove_cell(&position);
        } else {
            self.add_cell(position);
        }
    }

    /// Whether a cell is alive.
    pub fn is_alive(&self, position: &(i32, i32)) -> (alive: bool)
        ensures
            alive == self.live_cells@.contains(point(*position)),
    {
        self.live_cells.contains(*position)
    }

    /// The live cells.
    pub fn get_live_cells(&self) -> (cells: &CellSet)
        ensures
            cells@ == self.live_cells@,
    {
        &self.live_cells
    }

    /// The live cells, each once, in no particular order.
    pub fn get_live_positions(&self) -> (positions: Vec<(i32, i32)>)
        ensures
            cells_of(positions@) == self.live_cells@,
            positions@.no_duplicates(),
    {
        self.live_cells.to_vec()
    }

    /// The live cells as grid positions, each once, in no particular order.
    pub fn get_live_grid_positions(&self) -> (positions: Vec<GridPosition>)
        ensures
            cells_of(positions@.map_values(|p: GridPosition| (p.x, p.y))) == self.live_cells@,
            positions@.map_values(|p: GridPosition| (p.x, p.y)).no_duplicates(),
    {
        let cells = self.live_cells.to_vec();
        let mut positions: Vec<GridPosition> = Vec::new();
        let mut i: usize = 0;
        while i < cells.len()
            invariant
                i <= cells.len(),
                positions@.len() == i,
                forall|j: int|
                    0 <= j < i ==> #[trigger] positions@[j] == (GridPosition {
                        x: cells@[j].0,
                        y: cells@[j].1,
                    }),
            decreases cells.len() - i,
        {
            positions.push(GridPosition::from_tuple(cells[i]));
            i += 1;
        }
        proof {
            assert(positions@.map_values(|p: GridPosition| (p.x, p.y)) =~= cells@);
        }
        positions
    }

    /// The number of live cells.
    pub fn cell_count(&self) -> (n: usize)
        ensures
            self.live_cells@.finite(),
            n == self.live_cells@.len(),
    {
        self.live_cells.len()
    }

    /// The number of live cells.
    pub fn count_live_cells(&self) -> (n: usize)
        ensures
            self.live_cells@.finite(),
            n == self.live_cells@.len(),
    {
        self.live_cells.len()
    }

    /// Whether no cell is alive.
    pub fn is_empty(&self) -> (empty: bool)
        ensures
            empty == (self.live_cells@ == Set::<Point>::empty()),
    {
        self.live_cells.is_empty()
    }

    /// Sets every cell dead and forgets the pending births and deaths.  A
    /// grid without live cells is left as it is.
    pub fn clear(&mut self)
        ensures
            final(self).live_cells@ == Set::<Point>::empty(),
            if old(self).live_cells@ == Set::<Point>::empty() {
                final(self).same_pending(old(self)) && final(self).dirty == old(self).dirty
            } else {
                &&& final(self).pending_births@ == Set::<Point>::empty()
                &&& final(self).pending_deaths@ == Set::<Point>::empty()
                &&& final(self).dirty
            },
    {
        if !self.live_cells.is_empty() {
            self.live_cells.clear();
            self.pending_births.clear();
            self.pending_deaths.clear();
            self.dirty = true;
        }
    }

    /// The bounding box of the live cells as `(min_x, min_y, max_x, max_y)`,
    /// or nothing where no cell is alive.
    pub fn get_bounds(&self) -> (bounds: Option<(i32, i32, i32, i32)>)
        ensures
            match bounds {
                Some(b) => is_bounding_box(b, self.live_cells@),
                None => self.live_cells@ == Set::<Point>::empty(),
            },
    {
        let cells = self.live_cells.to_vec();
        if cells.len() == 0 {
            proof {
                assert(self.live_cells@ =~= Set::<Point>::empty());
            }
            return None;
        }
        let (x0, y0) = cells[0];
        let mut min_x = x0;
        let mut max_x = x0;
        let mut min_y = y0;
        let mut max_y = y0;
        let mut i: usize = 1;
        while i < cells.len()
            invariant
                1 <= i <= cells.len(),
                forall|j: int|
                    0 <= j < i ==> min_x <= (#[trigger] cells@[j]).0 <= max_x && min_y
                        <= cells@[j].1 <= max_y,
                exists|j: int| 0 <= j < i && (#[trigger] cells@[j]).0 == min_x,
                exists|j: int| 0 <= j < i && (#[trigger] cells@[j]).0 == max_x,
                exists|j: int| 0 <= j < i && (#[trigger] cells@[j]).1 == min_y,
                exists|j: int| 0 <= j < i && (#[trigger] cells@[j]).1 == max_y,
            decreases cells.len() - i,
        {
            let (x, y) = cells[i];
            if x < min_x {
                min_x = x;
            }
            if x > max_x {
                max_x = x;
            }
            if y < min_y {
                min_y = y;
            }
            if y > max_y {
                max_y = y;
            }
            i += 1;
        }
        proof {
            let live = self.live_cells@;
            assert forall|c: Point| #[trigger] live.contains(c) implies min_x <= c.0 <= max_x
                && min_y <= c.1 <= max_y by {
                let j = choose|j: int| 0 <= j < cells@.len() && point(#[trigger] cells@[j]) == c;
            }
            let a = choose|j: int| 0 <= j < i && (#[trigger] cells@[j]).0 == min_x;
            assert(live.contains(point(cells@[a])));
            let b = choose|j: int| 0 <= j < i && (#[trigger] cells@[j]).1 == min_y;
            assert(live.contains(point(cells@[b])));
            let c = choose|j: int| 0 <= j < i && (#[trigger] cells@[j]).0 == max_x;
            assert(live.contains(point(cells@[c])));
            let d = choose|j: int| 0 <= j < i && (#[trigger] cells@[j]).1 == max_y;
            assert(live.contains(point(cells@[d])));
        }
        Some((min_x, min_y, max_x, max_y))
    }

    /// Sets the listed cells alive.
    fn add_cells(&mut self, cells: &Vec<(i32, i32)>)
        ensures
            final(self).live_cells@ == old(self).live_cells@.union(cells_of(cells@)),
            final(self).same_pending(old(self)),
            old(self).dirty ==> final(self).dirty,
    {
        let mut i: usize = 0;
        proof {
            assert(self.live_cells@ =~= old(self).live_cells@.union(cells_of(cells@.take(0))));
        }
        while i < cells.len()
            invariant
                i <= cells.len(),
                self.live_cells@ == old(self).live_cells@.union(cells_of(cells@.take(i as int))),
                self.same_pending(old(self)),
                old(self).dirty ==> self.dirty,
            decreases cells.len() - i,
        {
            let cell = cells[i];
            proof {
                lemma_cells_of_push(cells@.take(i as int), cell);
                assert(cells@.take(i as int).push(cell) =~= cells@.take(i + 1));
            }
            self.add_cell(cell);
            proof {
                assert(self.live_cells@ =~= old(self).live_cells@.union(
                    cells_of(cells@.take(i + 1)),
                ));
            }
            i += 1;
        }
        proof {
            assert(cells@.take(cells@.len() as int) =~= cells@);
        }
    }

    /// Sets the cells of a glider alive at the given offset.
    pub fn set_pattern_glider(&mut self, offset_x: i32, offset_y: i32)
        requires
            offset_x + 2 <= i32::MAX,
            offset_y + 2 <= i32::MAX,
        ensures
            final(self).live_cells@ == old(self).live_cells@.union(
                shape_at(crate::patterns::glider_shape(), offset_x as int, offset_y as int),
            ),
            final(self).same_pending(old(self)),
    {
        let cells = generate_glider_pattern(offset_x, offset_y);
        proof {
            lemma_placed_cells(cells@, crate::patterns::glider_shape(), offset_x as int, offset_y as int);
        }
        self.add_cells(&cells);
    }

    /// Sets the cells of a blinker alive at the given offset.
    pub fn set_pattern_blinker(&mut self, offset_x: i32, offset_y: i32)
        requires
            offset_x + 1 <= i32::MAX,
            offset_y + 2 <= i32::MAX,
        ensures
            final(self).live_cells@ == old(self).live_cells@.union(
                shape_at(crate::patterns::blinker_shape(), offset_x as int, offset_y as int),
            ),
            final(self).same_pending(old(self)),
    {
        let cells = generate_blinker_pattern(offset_x, offset_y);
        proof {
            lemma_placed_cells(cells@, crate::patterns::blinker_shape(), offset_x as int, offset_y as int);
        }
        self.add_cells(&cells);
    }

    /// Sets the cells of a block alive at the given offset.
    pub fn set_pattern_block(&mut self, offset_x: i32, offset_y: i32)
        requires
            offset_x + 1 <= i32::MAX,
            offset_y + 1 <= i32::MAX,
        ensures
            final(self).live_cells@ == old(self).live_cells@.union(
                shape_at(crate::patterns::block_shape(), offset_x as int, offset_y as int),
            ),
            final(self).same_pending(old(self)),
    {
        let cells = generate_block_pattern(offset_x, offset_y);
        proof {
            lemma_placed_cells(cells@, crate::patterns::block_shape(), offset_x as int, offset_y as int);
        }
        self.add_cells(&cells);
    }

    /// Sets the cells of a toad alive at the given offset.
    pub fn set_pattern_toad(&mut self, offset_x: i32, offset_y: i32)
        requires
            offset_x + 3 <= i32::MAX,
            offset_y + 1 <= i32::MAX,
        ensures
            final(self).live_cells@ == old(self).live_cells@.union(
                shape_at(toad_shape(), offset_x as int, offset_y as int),
            ),
            final(self).same_pending(old(self)),
    {
        let cells = vec![
            (1 + offset_x, 0 + offset_y),
            (2 + offset_x, 0 + offset_y),
            (3 + offset_x, 0 + offset_y),
            (0 + offset_x, 1 + offset_y),
            (1 + offset_x, 1 + offset_y),
            (2 + offset_x, 1 + offset_y),
        ];
        proof {
            assert(placed(cells@, toad_shape(), offset_x as int, offset_y as int));
            lemma_placed_cells(cells@, toad_shape(), offset_x as int, offset_y as int);
        }
        self.add_cells(&cells);
    }

    /// Prepares the transition to `new_live_cells`: the births are the
    /// cells that are alive there and dead here, the deaths the cells that
    /// are alive here and dead there.  The live cells stay until the
    /// transition is applied.
    pub fn prepare_transition(&mut self, new_live_cells: CellSet)
        ensures
            final(self).live_cells@ == old(self).live_cells@,
            final(self).dirty == old(self).dirty,
            final(self).pending_births@ == new_live_cells@.difference(old(self).live_cells@),
            final(self).pending_deaths@ == old(self).live_cells@.difference(new_live_cells@),
    {
        self.pending_births = new_live_cells.difference(&self.live_cells);
        self.pending_deaths = self.live_cells.difference(&new_live_cells);
    }

    /// Applies the prepared transition: the deaths die, the births are
    /// born, and nothing is pending afterwards.  The grid is dirty.
    pub fn apply_transition(&mut self)
        ensures
            final(self).live_cells@ == old(self).live_cells@.difference(
                old(self).pending_deaths@,
            ).union(old(self).pending_births@),
            final(self).pending_births@ == Set::<Point>::empty(),
            final(self).pending_deaths@ == Set::<Point>::empty(),
            final(self).dirty,
    {
        self.live_cells.remove_all(&self.pending_deaths);
        self.live_cells.insert_all(&self.pending_births);
        self.pending_births.clear();
        self.pending_deaths.clear();
        self.dirty = true;
    }

    /// The cells that the prepared transition sets alive.
    pub fn get_pending_births(&self) -> (cells: &CellSet)
        ensures
            cells@ == self.pending_births@,
    {
        &self.pending_births
    }

    /// The cells that the prepared transition sets dead.
    pub fn get_pending_deaths(&self) -> (cells: &CellSet)
        ensures
            cells@ == self.pending_deaths@,
    {
        &self.pending_deaths
    }

    /// Whether a prepared transition changes anything.
    pub fn has_pending_changes(&self) -> (pending: bool)
        ensures
            pending == (self.pending_births@ != Set::<Point>::empty() || self.pending_deaths@
                != Set::<Point>::empty()),
    {
        !self.pending_births.is_empty() || !self.pending_deaths.is_empty()
    }

    /// Marks the grid as clean.
    pub fn mark_clean(&mut self)
        ensures
            !final(self).dirty,
            final(self).live_cells@ == old(self).live_cells@,
            final(self).same_pending(old(self)),
    {
        self.dirty = false;
    }

    /// Whether the grid has changed since it was last marked clean.
    pub fn is_dirty(&self) -> (dirty: bool)
        ensures
            dirty == self.dirty,
    {
        self.dirty
    }

    /// Replaces the live cells and forgets the pending births and deaths.
    /// The grid is dirty.
    pub fn set_from_cells(&mut self, cells: CellSet)
        ensures
            final(self).live_cells@ == cells@,
            final(self).pending_births@ == Set::<Point>::empty(),
            final(self).pending_deaths@ == Set::<Point>::empty(),
            final(self).dirty,
    {
        self.live_cells = cells;
        self.pending_births.clear();
        self.pending_deaths.clear();
        self.dirty = true;
    }
}

/// A prepared transition that is applied leaves exactly the cells for which
/// it was prepared.
pub proof fn law_transition_reaches_target(live: Set<Point>, target: Set<Point>)
    ensures
        live.difference(live.difference(target)).union(target.difference(live)) == target,
{
    assert(live.difference(live.difference(target)).union(target.difference(live)) =~= target);
}

/// The cells of a placed shape are the shape's cells at the offset.
pub proof fn lemma_placed_cells(
    cells: Seq<(i32, i32)>,
    shape: Seq<Point>,
    offset_x: int,
    offset_y: int,
)
    requires
        placed(cells, shape, offset_x, offset_y),
    ensures
        cells_of(cells) == shape_at(shape, offset_x, offset_y),
{
    assert forall|c: Point| cells_of(cells).contains(c) <==> shape_at(
        shape,
        offset_x,
        offset_y,
    ).contains(c) by {
        if cells_of(cells).contains(c) {
            let i = choose|i: int| 0 <= i < cells.len() && point(#[trigger] cells[i]) == c;
            assert(crate::life::shifted(shape[i], offset_x, offset_y) == c);
        }
        if shape_at(shape, offset_x, offset_y).contains(c) {
            let i = choose|i: int|
                0 <= i < shape.len() && crate::life::shifted(#[trigger] shape[i], offset_x, offset_y)
                    == c;
            assert(point(cells[i]) == c);
        }
    }
    assert(cells_of(cells) =~= shape_at(shape, offset_x, offset_y));
}

} // verus!
