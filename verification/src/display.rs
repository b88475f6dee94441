//! What the terminal front end shows: the cells of the last response and
//! the window through which they are seen.

use crate::cell_set::CellSet;
use crate::coords::{point, Point};
use crate::grid_state::is_bounding_box;
use crate::renderer::half;
use crate::service::{Cell, SimulationResponse};
use vstd::prelude::*;

verus! {

/// The cells of a response that are alive.
pub open spec fn alive_in(cells: Seq<Cell>) -> Set<Point> {
    Set::new(
        |c: Point|
            exists|i: int|
                0 <= i < cells.len() && (#[trigger] cells[i]).alive && (
                cells[i].x as int,
                cells[i].y as int,
            ) == c,
    )
}

/// The state of the display.
pub struct GridDisplay {
    pub width: u16,
    pub height: u16,
    pub live_cells: CellSet,
    pub generation: i64,
    pub live_count: i64,
    pub viewport_x: i32,
    pub viewport_y: i32,
}

impl GridDisplay {
    /// Whether `other` shows the same cells and numbers.
    pub open spec fn same_content(&self, other: &GridDisplay) -> bool {
        &&& self.live_cells@ == other.live_cells@
        &&& self.generation == other.generation
        &&& self.live_count == other.live_count
    }

    /// An empty display of eighty by twenty-four with its window at the
    /// origin.
    pub fn new() -> (display: GridDisplay)
        ensures
            display.width == 80,
            display.height == 24,
            display.live_cells@ == Set::<Point>::empty(),
            display.generation == 0,
            display.live_count == 0,
            display.viewport_x == 0,
            display.viewport_y == 0,
    {
        GridDisplay {
            width: 80,
            height: 24,
            live_cells: CellSet::new(),
            generation: 0,
            live_count: 0,
            viewport_x: 0,
            viewport_y: 0,
        }
    }

    /// Takes over what a response says: its generation, its number of live
    /// cells and those of its cells that are alive.
    pub fn update_from_simulation(&mut self, simulation: &SimulationResponse)
        ensures
            final(self).live_cells@ == alive_in(simulation.cells@),
            final(self).generation == simulation.generation,
            final(self).live_count == simulation.live_cells,
            final(self).width == old(self).width,
            final(self).height == old(self).height,
            final(self).viewport_x == old(self).viewport_x,
            final(self).viewport_y == old(self).viewport_y,
    {
        self.live_cells.clear();
        self.generation = simulation.generation;
        self.live_count = simulation.live_cells;
        let mut i: usize = 0;
        proof {
            assert(self.live_cells@ =~= alive_in(simulation.cells@.take(0)));
        }
        while i < simulation.cells.len()
            invariant
                i <= simulation.cells.len(),
                self.live_cells@ == alive_in(simulation.cells@.take(i as int)),
                self.generation == simulation.generation,
                self.live_count == simulation.live_cells,
                self.width == old(self).width,
                self.height == old(self).height,
                self.viewport_x == old(self).viewport_x,
                self.viewport_y == old(self).viewport_y,
            decreases simulation.cells.len() - i,
        {
            let cell = simulation.cells[i];
            let ghost earlier = simulation.cells@.take(i as int);
            let ghost later = simulation.cells@.take(i + 1);
            if cell.alive {
                self.live_cells.insert((cell.x, cell.y));
            }
            proof {
                assert forall|c: Point| self.live_cells@.contains(c) <==> alive_in(later).contains(
                    c,
                ) by {
                    if alive_in(later).contains(c) {
                        let j = choose|j: int|
                            0 <= j < later.len() && (#[trigger] later[j]).alive && (
                            later[j].x as int,
                            later[j].y as int,
                        ) == c;
                        if j < i {
                            assert(earlier[j] == later[j]);
                            assert(alive_in(earlier).contains(c));
                        }
                    }
                    if alive_in(earlier).contains(c) {
                        let j = choose|j: int|
                            0 <= j < earlier.len() && (#[trigger] earlier[j]).alive && (
                            earlier[j].x as int,
                            earlier[j].y as int,
                        ) == c;
                        assert(later[j] == earlier[j]);
                    }
                    if cell.alive && c == point((cell.x, cell.y)) {
                        assert(later[i as int] == cell);
                    }
                }
                assert(self.live_cells@ =~= alive_in(later));
            }
            i += 1;
        }
        proof {
            assert(simulation.cells@.take(simulation.cells@.len() as int) =~= simulation.cells@);
        }
    }

    /// Takes over the size of the terminal.
    pub fn update_terminal_size(&mut self, width: u16, height: u16)
        ensures
            final(self).width == width,
            final(self).height == height,
            final(self).same_content(old(self)),
            final(self).viewport_x == old(self).viewport_x,
            final(self).viewport_y == old(self).viewport_y,
    {
        self.width = width;
        self.height = height;
    }

    /// Puts the window's corner at `(x, y)`.
    pub fn set_viewport(&mut self, x: i32, y: i32)
        ensures
            final(self).viewport_x == x,
            final(self).viewport_y == y,
            final(self).same_content(old(self)),
            final(self).width == old(self).width,
            final(self).height == old(self).height,
    {
        self.viewport_x = x;
        self.viewport_y = y;
    }

    /// Moves the window by `(dx, dy)`.
    pub fn move_viewport(&mut self, dx: i32, dy: i32)
        requires
            i32::MIN <= old(self).viewport_x + dx <= i32::MAX,
            i32::MIN <= old(self).viewport_y + dy <= i32::MAX,
        ensures
            final(self).viewport_x == old(self).viewport_x + dx,
            final(self).viewport_y == old(self).viewport_y + dy,
            final(self).same_content(old(self)),
            final(self).width == old(self).width,
            final(self).height == old(self).height,
    {
        self.viewport_x = self.viewport_x + dx;
        self.viewport_y = self.viewport_y + dy;
    }

    /// The corner of the window that has the middle of `bounds` at its
    /// middle, each coordinate kept within reach.
    pub open spec fn centered_on(&self, bounds: (i32, i32, i32, i32)) -> (int, int) {
        (
            within_reach(half(bounds.0 + bounds.2) - self.width as int / 2),
            within_reach(half(bounds.1 + bounds.3) - self.height as int / 2),
        )
    }

    /// Moves the window so that the middle of the live cells' bounding box
    /// is at its middle.  Nothing moves where no cell is alive.
    pub fn center_on_live_cells(&mut self)
        ensures
            final(self).same_content(old(self)),
            final(self).width == old(self).width,
            final(self).height == old(self).height,
            old(self).live_cells@ == Set::<Point>::empty() ==> final(self).viewport_x == old(
                self,
            ).viewport_x && final(self).viewport_y == old(self).viewport_y,
            old(self).live_cells@ != Set::<Point>::empty() ==> exists|
                bounds: (i32, i32, i32, i32),
            |
                #![trigger is_bounding_box(bounds, old(self).live_cells@)]
                is_bounding_box(bounds, old(self).live_cells@) && (
                    final(self).viewport_x as int,
                    final(self).viewport_y as int,
                ) == old(self).centered_on(bounds),
    {
        let cells = self.live_cells.to_vec();
        if cells.len() == 0 {
            proof {
                assert(self.live_cells@ =~= Set::<Point>::empty());
            }
            return;
        }
        let mut min_x = cells[0].0;
        let mut max_x = cells[0].0;
        let mut min_y = cells[0].1;
        let mut max_y = cells[0].1;
        let mut i: usize = 1;
        while i < cells.len()
            invariant
                1 <= i <= cells.len(),
                forall|j: int|
                    0 <= j < i ==> min_x <= (#[trigger] cells@[j]).0 <= max_x && min_y
                        <= cells@[j].1 <= max_y,
                exists|j: int| 0 <= j < i && (#[trigger] cells@[j]).0 == min_x,
                exists|j: int| 0 <= j < i && (#[trigger] cells@[j]).0 == max_x,
                exists|j: int| 0 <= j < i && (#[trigger] cells@[j]).1 == min_y,
                exists|j: int| 0 <= j < i && (#[trigger] cells@[j]).1 == max_y,
            decreases cells.len() - i,
        {
            let (x, y) = cells[i];
            if x < min_x {
                min_x = x;
            }
            if x > max_x {
                max_x = x;
            }
            if y < min_y {
                min_y = y;
            }
            if y > max_y {
                max_y = y;
            }
            i += 1;
        }
        proof {
            let live = self.live_cells@;
            assert forall|c: Point| #[trigger] live.contains(c) implies min_x <= c.0 <= max_x
                && min_y <= c.1 <= max_y by {
                let j = choose|j: int| 0 <= j < cells@.len() && point(#[trigger] cells@[j]) == c;
            }
            let a = choose|j: int| 0 <= j < i && (#[trigger] cells@[j]).0 == min_x;
            assert(live.contains(point(cells@[a])));
            let b = choose|j: int| 0 <= j < i && (#[trigger] cells@[j]).1 == min_y;
            assert(live.contains(point(cells@[b])));
            let c = choose|j: int| 0 <= j < i && (#[trigger] cells@[j]).0 == max_x;
            assert(live.contains(point(cells@[c])));
            let d = choose|j: int| 0 <= j < i && (#[trigger] cells@[j]).1 == max_y;
            assert(live.contains(point(cells@[d])));
            assert(is_bounding_box((min_x, min_y, max_x, max_y), live));
        }
        let center_x = half_sum(min_x, max_x);
        let center_y = half_sum(min_y, max_y);
        self.viewport_x = reach(center_x - (self.width as i64) / 2);
        self.viewport_y = reach(center_y - (self.height as i64) / 2);
    }

    /// The cell that is seen at a place of the screen, where one place of
    /// the screen is `cell_size` cells wide and high.
    pub fn get_cell_at_screen_pos(&self, screen_x: u16, screen_y: u16, cell_size: i32) -> (cell: (
        i64,
        i64,
    ))
        ensures
            cell.0 == self.viewport_x + screen_x * cell_size,
            cell.1 == self.viewport_y + screen_y * cell_size,
    {
        proof {
            assert(-0x8000_0000 * 0xffff <= screen_x as int * cell_size as int <= 0x8000_0000
                * 0xffff) by (nonlinear_arith)
                requires
                    0 <= screen_x <= 0xffff,
                    -0x8000_0000 <= cell_size <= 0x7fff_ffff,
            ;
            assert(-0x8000_0000 * 0xffff <= screen_y as int * cell_size as int <= 0x8000_0000
                * 0xffff) by (nonlinear_arith)
                requires
                    0 <= screen_y <= 0xffff,
                    -0x8000_0000 <= cell_size <= 0x7fff_ffff,
            ;
        }
        let dx: i64 = screen_x as i64 * cell_size as i64;
        let dy: i64 = screen_y as i64 * cell_size as i64;
        (self.viewport_x as i64 + dx, self.viewport_y as i64 + dy)
    }

    /// Whether the cell seen at a place of the screen is alive.
    pub fn is_alive_at_screen_pos(&self, screen_x: u16, screen_y: u16, cell_size: i32) -> (alive:
        bool)
        ensures
            alive == self.live_cells@.contains(
                (
                    self.viewport_x + screen_x * cell_size,
                    self.viewport_y + screen_y * cell_size,
                ),
            ),
    {
        let (x, y) = self.get_cell_at_screen_pos(screen_x, screen_y, cell_size);
        proof {
            self.live_cells.lemma_members_in_range();
        }
        if x >= -0x8000_0000 && x <= 0x7fff_ffff && y >= -0x8000_0000 && y <= 0x7fff_ffff {
            self.live_cells.contains((x as i32, y as i32))
        } else {
            false
        }
    }

    /// The corner of the window.
    pub fn get_viewport_info(&self) -> (corner: (i32, i32))
        ensures
            corner == (self.viewport_x, self.viewport_y),
    {
        (self.viewport_x, self.viewport_y)
    }

    /// The generation shown and its number of live cells.
    pub fn get_stats(&self) -> (stats: (i64, i64))
        ensures
            stats == (self.generation, self.live_count),
    {
        (self.generation, self.live_count)
    }
}

/// `v`, or the nearest number of thirty-two bits.
pub open spec fn within_reach(v: int) -> int {
    if v < i32::MIN {
        i32::MIN as int
    } else if v > i32::MAX {
        i32::MAX as int
    } else {
        v
    }
}

/// `v`, or the nearest number of thirty-two bits.
fn reach(v: i64) -> (r: i32)
    ensures
        r == within_reach(v as int),
{
    if v < -0x8000_0000 {
        -0x8000_0000
    } else if v > 0x7fff_ffff {
        0x7fff_ffff
    } else {
        v as i32
    }
}

/// Half of the sum of `a` and `b`, rounded towards zero.
fn half_sum(a: i32, b: i32) -> (h: i64)
    ensures
        h == half(a + b),
{
    let sum: i64 = a as i64 + b as i64;
    if sum >= 0 {
        sum / 2
    } else {
        -((-sum) / 2)
    }
}

} // verus!
