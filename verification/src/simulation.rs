//! One simulation: a grid, the cells on it and a generation counter.

use crate::cell_map::CellMap;
use crate::cell_set::{cells_of, lemma_cells_of_push, lemma_listing_len, CellSet};
use crate::components::{fresh_cell, CellState};
use crate::coords::{point, Point};
use crate::engine::{compute_next_generation, count_neighbors};
use crate::life::{in_grid, neighbor_count, next_generation, shifted, BoundaryPolicy};
use std::time::SystemTime;
use vstd::prelude::*;

verus! {

/// The cells of `cells` that are marked alive.
pub open spec fn live_cells(cells: Map<Point, CellState>) -> Set<Point> {
    Set::new(|c: Point| cells.contains_key(c) && cells[c].alive)
}

/// The cells after one transition: the cells of the next generation, each
/// alive, of generation `generation`, with the number of live neighbours
/// that it had before the transition.
pub open spec fn stepped_cells(
    cells: Map<Point, CellState>,
    policy: BoundaryPolicy,
    generation: u64,
) -> Map<Point, CellState> {
    Map::new(
        |c: Point| next_generation(live_cells(cells), policy).contains(c),
        |c: Point|
            CellState {
                alive: true,
                generation,
                neighbor_count: neighbor_count(live_cells(cells), policy, c) as u8,
            },
    )
}

/// The cells after `steps` transitions that start after generation
/// `generation`.
pub open spec fn cells_after(
    cells: Map<Point, CellState>,
    policy: BoundaryPolicy,
    generation: int,
    steps: nat,
) -> Map<Point, CellState>
    decreases steps,
{
    if steps == 0 {
        cells
    } else {
        stepped_cells(
            cells_after(cells, policy, generation, (steps - 1) as nat),
            policy,
            (generation + steps) as u64,
        )
    }
}

/// The cells that a list sets alive on a grid: the listed cells that lie on
/// it, each fresh.
pub open spec fn cells_set_to(list: Seq<(i32, i32)>, width: int, height: int) -> Map<
    Point,
    CellState,
> {
    Map::new(
        |c: Point| cells_of(list).contains(c) && in_grid(c, width, height),
        |c: Point| fresh_cell(),
    )
}

/// Where the cells of a pattern land on a grid when the pattern is put at an
/// offset: the moved cells that lie on the grid.
pub open spec fn pattern_targets(
    pattern: Seq<(i32, i32)>,
    offset_x: int,
    offset_y: int,
    width: int,
    height: int,
) -> Set<Point> {
    Set::new(
        |c: Point|
            in_grid(c, width, height) && exists|i: int|
                0 <= i < pattern.len() && shifted(point(#[trigger] pattern[i]), offset_x, offset_y)
                    == c,
    )
}

/// The cells that a pattern adds: the cells on which it lands that are not
/// alive.  A cell that has a state and is dead counts as not alive.
pub open spec fn pattern_additions(cells: Map<Point, CellState>, targets: Set<Point>) -> Set<
    Point,
> {
    targets.difference(live_cells(cells))
}

/// The cells after a pattern was added: a fresh live cell wherever the
/// pattern lands on a cell that is not alive, and every other cell as it
/// was.
pub open spec fn cells_with_pattern(
    cells: Map<Point, CellState>,
    targets: Set<Point>,
) -> Map<Point, CellState> {
    Map::new(
        |c: Point| cells.contains_key(c) || targets.contains(c),
        |c: Point|
            if pattern_additions(cells, targets).contains(c) {
                fresh_cell()
            } else {
                cells[c]
            },
    )
}

/// A count as a signed number of sixty-four bits: the count itself, or the
/// greatest such number where the count is greater.
pub open spec fn count_of(n: nat) -> int {
    if n <= i64::MAX {
        n as int
    } else {
        i64::MAX as int
    }
}

/// A count as a signed number of thirty-two bits: the count itself, or the
/// greatest such number where the count is greater.
pub open spec fn small_count_of(n: nat) -> int {
    if n <= i32::MAX {
        n as int
    } else {
        i32::MAX as int
    }
}

/// A length as a signed number of sixty-four bits.
pub fn count_from(n: usize) -> (count: i64)
    ensures
        count == count_of(n as nat),
{
    if n as u64 > 0x7fff_ffff_ffff_ffff {
        0x7fff_ffff_ffff_ffff
    } else {
        n as i64
    }
}

/// One simulation.
pub struct SimulationData {
    pub id: String,
    pub generation: u64,
    pub width: i32,
    pub height: i32,
    pub wrap_edges: bool,
    pub cells: CellMap<CellState>,
    pub is_running: bool,
    pub created_at: SystemTime,
}

impl SimulationData {
    /// The boundary policy of the simulation: its rectangle, wrapping where
    /// wrapping is switched on and the rectangle has cells.
    pub open spec fn policy(&self) -> BoundaryPolicy {
        BoundaryPolicy::Bounded {
            width: self.width,
            height: self.height,
            wrap: self.wrap_edges && self.width > 0 && self.height > 0,
        }
    }

    /// The live cells.
    pub open spec fn live(&self) -> Set<Point> {
        live_cells(self.cells@)
    }

    /// Whether every cell that has a state lies on the grid.
    pub open spec fn within_bounds(&self) -> bool {
        forall|c: Point| #[trigger]
            self.cells@.contains_key(c) ==> in_grid(c, self.width as int, self.height as int)
    }

    /// Whether `other` differs from this simulation in nothing but its
    /// cells and its generation.
    pub open spec fn same_frame(&self, other: &SimulationData) -> bool {
        &&& self.id == other.id
        &&& self.width == other.width
        &&& self.height == other.height
        &&& self.wrap_edges == other.wrap_edges
        &&& self.is_running == other.is_running
        &&& self.created_at == other.created_at
    }

    /// The boundary policy of the simulation.
    pub fn boundary_policy(&self) -> (policy: BoundaryPolicy)
        ensures
            policy == self.policy(),
            policy.valid(),
    {
        BoundaryPolicy::Bounded {
            width: self.width,
            height: self.height,
            wrap: self.wrap_edges && self.width > 0 && self.height > 0,
        }
    }

    /// Whether `(x, y)` lies on the grid.
    fn on_grid(&self, x: i64, y: i64) -> (inside: bool)
        ensures
            inside == in_grid((x as int, y as int), self.width as int, self.height as int),
    {
        x >= 0 && x < self.width as i64 && y >= 0 && y < self.height as i64
    }

    /// Replaces the cells by the listed ones, each fresh.  Listed cells
    /// outside the grid are left out.
    pub fn set_cells(&mut self, cells: &[(i32, i32)])
        ensures
            final(self).cells@ == cells_set_to(
                cells@,
                old(self).width as int,
                old(self).height as int,
            ),
            final(self).generation == old(self).generation,
            final(self).same_frame(old(self)),
            final(self).within_bounds(),
    {
        self.cells.clear();
        let mut i: usize = 0;
        proof {
            assert(self.cells@ =~= cells_set_to(
                cells@.take(0),
                self.width as int,
                self.height as int,
            ));
        }
        while i < cells.len()
            invariant
                i <= cells.len(),
                self.cells@ == cells_set_to(
                    cells@.take(i as int),
                    self.width as int,
                    self.height as int,
                ),
                self.generation == old(self).generation,
                self.same_frame(old(self)),
            decreases cells.len() - i,
        {
            let (x, y) = cells[i];
            if self.on_grid(x as i64, y as i64) {
                self.cells.insert((x, y), CellState::new());
            }
            proof {
                lemma_cells_of_push(cells@.take(i as int), cells@[i as int]);
                assert(cells@.take(i as int).push(cells@[i as int]) =~= cells@.take(i + 1));
                assert(self.cells@ =~= cells_set_to(
                    cells@.take(i + 1),
                    self.width as int,
                    self.height as int,
                ));
            }
            i += 1;
        }
        proof {
            assert(cells@.take(cells@.len() as int) =~= cells@);
        }
    }

    /// The live cells, each once, in no particular order.
    pub fn get_live_cells(&self) -> (live: Vec<(i32, i32)>)
        ensures
            cells_of(live@) == self.live(),
            live@.no_duplicates(),
    {
        let all = self.cells.cells();
        let mut live: Vec<(i32, i32)> = Vec::new();
        let mut i: usize = 0;
        proof {
            assert(cells_of(live@) =~= Set::new(
                |c: Point| cells_of(all@.take(0)).contains(c) && self.live().contains(c),
            ));
        }
        while i < all.len()
            invariant
                i <= all.len(),
                all@.no_duplicates(),
                cells_of(all@) == self.cells@.dom(),
                live@.no_duplicates(),
                cells_of(live@) == Set::new(
                    |c: Point|
                        cells_of(all@.take(i as int)).contains(c) && self.live().contains(c),
                ),
            decreases all.len() - i,
        {
            let position = all[i];
            proof {
                lemma_cells_of_push(all@.take(i as int), position);
                assert(all@.take(i as int).push(position) =~= all@.take(i + 1));
                assert(cells_of(all@).contains(point(all@[i as int])));
            }
            let alive = match self.cells.get(position) {
                Some(state) => state.alive,
                None => false,
            };
            if alive {
                proof {
                    lemma_cells_of_push(live@, position);
                    assert forall|j: int| 0 <= j < live@.len() implies live@[j] != position by {
                        assert(cells_of(live@).contains(point(live@[j])));
                        let t = choose|t: int|
                            0 <= t < all@.take(i as int).len() && point(
                                #[trigger] all@.take(i as int)[t],
                            ) == point(live@[j]);
                        assert(all@[t] == live@[j]);
                    }
                }
                live.push(position);
            }
            proof {
                assert(cells_of(live@) =~= Set::new(
                    |c: Point|
                        cells_of(all@.take(i + 1)).contains(c) && self.live().contains(c),
                ));
            }
            i += 1;
        }
        proof {
            assert(all@.take(all@.len() as int) =~= all@);
            assert(cells_of(live@) =~= self.live());
        }
        live
    }

    /// The number of live cells.
    pub fn get_live_cell_count(&self) -> (count: i64)
        ensures
            self.live().finite(),
            count == count_of(self.live().len()),
    {
        let live = self.get_live_cells();
        proof {
            lemma_listing_len(live@);
        }
        count_from(live.len())
    }

    /// Puts a pattern on the grid at an offset: each cell of the pattern
    /// that lands on a cell of the grid that is not alive becomes a fresh
    /// live cell.  Cells that land outside the grid or on a live cell are
    /// skipped.  The result is the number of cells added.
    pub fn add_pattern(&mut self, pattern: &[(i32, i32)], offset_x: i32, offset_y: i32) -> (added:
        i32)
        ensures
            final(self).cells@ == cells_with_pattern(
                old(self).cells@,
                pattern_targets(
                    pattern@,
                    offset_x as int,
                    offset_y as int,
                    old(self).width as int,
                    old(self).height as int,
                ),
            ),
            pattern_additions(
                old(self).cells@,
                pattern_targets(
                    pattern@,
                    offset_x as int,
                    offset_y as int,
                    old(self).width as int,
                    old(self).height as int,
                ),
            ).finite(),
            added == small_count_of(
                pattern_additions(
                    old(self).cells@,
                    pattern_targets(
                        pattern@,
                        offset_x as int,
                        offset_y as int,
                        old(self).width as int,
                        old(self).height as int,
                    ),
                ).len(),
            ),
            final(self).generation == old(self).generation,
            final(self).same_frame(old(self)),
            old(self).within_bounds() ==> final(self).within_bounds(),
    {
        let mut cells_added: usize = 0;
        let mut i: usize = 0;
        let ghost ox = offset_x as int;
        let ghost oy = offset_y as int;
        let ghost w = self.width as int;
        let ghost h = self.height as int;
        let ghost before = self.cells@;
        proof {
            assert(pattern_targets(pattern@.take(0), ox, oy, w, h) =~= Set::<Point>::empty());
            assert(pattern_additions(before, pattern_targets(pattern@.take(0), ox, oy, w, h))
                =~= Set::<Point>::empty());
            assert(self.cells@ =~= cells_with_pattern(
                before,
                pattern_targets(pattern@.take(0), ox, oy, w, h),
            ));
        }
        while i < pattern.len()
            invariant
                i <= pattern.len(),
                ox == offset_x,
                oy == offset_y,
                w == self.width,
                h == self.height,
                before == old(self).cells@,
                self.generation == old(self).generation,
                self.same_frame(old(self)),
                self.cells@ == cells_with_pattern(
                    before,
                    pattern_targets(pattern@.take(i as int), ox, oy, w, h),
                ),
                pattern_additions(
                    before,
                    pattern_targets(pattern@.take(i as int), ox, oy, w, h),
                ).finite(),
                cells_added == pattern_additions(
                    before,
                    pattern_targets(pattern@.take(i as int), ox, oy, w, h),
                ).len(),
                cells_added <= i,
            decreases pattern.len() - i,
        {
            let (x, y) = pattern[i];
            let new_x: i64 = x as i64 + offset_x as i64;
            let new_y: i64 = y as i64 + offset_y as i64;
            let ghost target = shifted(point(pattern@[i as int]), ox, oy);
            let ghost earlier = pattern_targets(pattern@.take(i as int), ox, oy, w, h);
            let ghost later = pattern_targets(pattern@.take(i + 1), ox, oy, w, h);
            proof {
                lemma_targets_push(pattern@.take(i as int), pattern@[i as int], ox, oy, w, h);
                assert(pattern@.take(i as int).push(pattern@[i as int]) =~= pattern@.take(i + 1));
            }
            if self.on_grid(new_x, new_y) {
                let alive = match self.cells.get((new_x as i32, new_y as i32)) {
                    Some(state) => state.alive,
                    None => false,
                };
                if !alive {
                    self.cells.insert((new_x as i32, new_y as i32), CellState::new());
                    cells_added += 1;
                    proof {
                        assert(!earlier.contains(target));
                        assert(!live_cells(before).contains(target));
                        assert(pattern_additions(before, later) =~= pattern_additions(
                            before,
                            earlier,
                        ).insert(target));
                    }
                } else {
                    proof {
                        assert(earlier.contains(target) || live_cells(before).contains(target));
                        assert(pattern_additions(before, later) =~= pattern_additions(
                            before,
                            earlier,
                        ));
                    }
                }
            } else {
                proof {
                    assert(later =~= earlier);
                }
            }
            proof {
                assert(self.cells@ =~= cells_with_pattern(before, later));
            }
            i += 1;
        }
        proof {
            assert(pattern@.take(pattern@.len() as int) =~= pattern@);
        }
        if cells_added > 0x7fff_ffff {
            0x7fff_ffff
        } else {
            cells_added as i32
        }
    }

    /// Advances the simulation by one generation.
    pub fn step(&mut self)
        requires
            old(self).generation < u64::MAX,
        ensures
            final(self).generation == old(self).generation + 1,
            final(self).cells@ == stepped_cells(
                old(self).cells@,
                old(self).policy(),
                final(self).generation,
            ),
            final(self).same_frame(old(self)),
            final(self).within_bounds(),
    {
        self.generation = self.generation + 1;
        let policy = self.boundary_policy();
        let live = self.get_live_cells();
        let live_set = CellSet::from_cells(live.as_slice());
        let next = compute_next_generation(live.as_slice(), policy);
        let mut new_cells: CellMap<CellState> = CellMap::new();
        let mut i: usize = 0;
        let ghost target = stepped_cells(old(self).cells@, policy, self.generation);
        proof {
            assert(new_cells@ =~= target.restrict(cells_of(next@.take(0))));
        }
        while i < next.len()
            invariant
                i <= next.len(),
                policy.valid(),
                live_set@ == live_cells(old(self).cells@),
                cells_of(next@) == next_generation(live_cells(old(self).cells@), policy),
                target == stepped_cells(old(self).cells@, policy, self.generation),
                new_cells@ == target.restrict(cells_of(next@.take(i as int))),
            decreases next.len() - i,
        {
            let position = next[i];
            let count = count_neighbors(position, &live_set, policy);
            new_cells.insert(
                position,
                CellState { alive: true, generation: self.generation, neighbor_count: count },
            );
            proof {
                lemma_cells_of_push(next@.take(i as int), position);
                assert(next@.take(i as int).push(position) =~= next@.take(i + 1));
                assert(cells_of(next@).contains(point(next@[i as int])));
                assert(new_cells@ =~= target.restrict(cells_of(next@.take(i + 1))));
            }
            i += 1;
        }
        proof {
            assert(next@.take(next@.len() as int) =~= next@);
            assert(new_cells@ =~= target);
        }
        self.cells = new_cells;
    }

    /// Advances the simulation by `steps` generations.
    pub fn advance(&mut self, steps: u32)
        requires
            old(self).generation + steps <= u64::MAX,
        ensures
            final(self).generation == old(self).generation + steps,
            final(self).cells@ == cells_after(
                old(self).cells@,
                old(self).policy(),
                old(self).generation as int,
                steps as nat,
            ),
            final(self).same_frame(old(self)),
            steps > 0 ==> final(self).within_bounds(),
    {
        let mut done: u32 = 0;
        while done < steps
            invariant
                done <= steps,
                old(self).generation + steps <= u64::MAX,
                self.generation == old(self).generation + done,
                self.cells@ == cells_after(
                    old(self).cells@,
                    old(self).policy(),
                    old(self).generation as int,
                    done as nat,
                ),
                self.same_frame(old(self)),
                done > 0 ==> self.within_bounds(),
            decreases steps - done,
        {
            self.step();
            done += 1;
        }
    }
}

/// The targets of a pattern with one more cell.
pub proof fn lemma_targets_push(
    pattern: Seq<(i32, i32)>,
    cell: (i32, i32),
    offset_x: int,
    offset_y: int,
    width: int,
    height: int,
)
    ensures
        pattern_targets(pattern.push(cell), offset_x, offset_y, width, height) == if in_grid(
            shifted(point(cell), offset_x, offset_y),
            width,
            height,
        ) {
            pattern_targets(pattern, offset_x, offset_y, width, height).insert(
                shifted(point(cell), offset_x, offset_y),
            )
        } else {
            pattern_targets(pattern, offset_x, offset_y, width, height)
        },
{
    let longer = pattern.push(cell);
    let target = shifted(point(cell), offset_x, offset_y);
    let before = pattern_targets(pattern, offset_x, offset_y, width, height);
    let after = pattern_targets(longer, offset_x, offset_y, width, height);
    let expected = if in_grid(target, width, height) {
        before.insert(target)
    } else {
        before
    };
    assert forall|c: Point| after.contains(c) <==> expected.contains(c) by {
        if after.contains(c) {
            let i = choose|i: int|
                0 <= i < longer.len() && shifted(point(#[trigger] longer[i]), offset_x, offset_y)
                    == c;
            if i < pattern.len() {
                assert(shifted(point(pattern[i]), offset_x, offset_y) == c);
            }
        }
        if before.contains(c) {
            let i = choose|i: int|
                0 <= i < pattern.len() && shifted(point(#[trigger] pattern[i]), offset_x, offset_y)
                    == c;
            assert(shifted(point(longer[i]), offset_x, offset_y) == c);
        }
        if c == target && in_grid(target, width, height) {
            assert(shifted(point(longer[pattern.len() as int]), offset_x, offset_y) == c);
        }
    }
    assert(after =~= expected);
}

/// Adding a pattern is idempotent: where a pattern has been added, adding
/// it again at the same place changes no cell and adds none.
pub proof fn law_pattern_idempotent(cells: Map<Point, CellState>, targets: Set<Point>)
    ensures
        cells_with_pattern(cells_with_pattern(cells, targets), targets) == cells_with_pattern(
            cells,
            targets,
        ),
        pattern_additions(cells_with_pattern(cells, targets), targets) == Set::<Point>::empty(),
        small_count_of(pattern_additions(cells_with_pattern(cells, targets), targets).len()) == 0,
{
    let once = cells_with_pattern(cells, targets);
    assert(pattern_additions(once, targets) =~= Set::<Point>::empty());
    assert(cells_with_pattern(once, targets) =~= once);
}

/// After a pattern was added the live cells are the cells that were alive
/// and the cells on which the pattern lands: every one of those is alive,
/// whether it had no state or was stored as dead.
pub proof fn law_pattern_live_cells(cells: Map<Point, CellState>, targets: Set<Point>)
    ensures
        live_cells(cells_with_pattern(cells, targets)) == live_cells(cells).union(targets),
{
    assert(live_cells(cells_with_pattern(cells, targets)) =~= live_cells(cells).union(targets));
}

/// A cell that a pattern adds is one of its targets, was not alive and is
/// fresh; every other cell that had a state has it still.
pub proof fn law_pattern_keeps_cells(cells: Map<Point, CellState>, targets: Set<Point>, c: Point)
    ensures
        pattern_additions(cells, targets).contains(c) ==> targets.contains(c) && !live_cells(
            cells,
        ).contains(c) && cells_with_pattern(cells, targets)[c] == fresh_cell(),
        cells.contains_key(c) && !pattern_additions(cells, targets).contains(c)
            ==> cells_with_pattern(cells, targets).contains_key(c) && cells_with_pattern(
            cells,
            targets,
        )[c] == cells[c],
        cells_with_pattern(cells, targets).contains_key(c) ==> cells.contains_key(c)
            || pattern_additions(cells, targets).contains(c),
{
}

/// After a transition every cell with a state is alive and lies on the
/// grid, and the live cells are the next generation of the live cells
/// before.
pub proof fn law_step_is_next_generation(
    cells: Map<Point, CellState>,
    policy: BoundaryPolicy,
    generation: u64,
)
    ensures
        live_cells(stepped_cells(cells, policy, generation)) == next_generation(
            live_cells(cells),
            policy,
        ),
        stepped_cells(cells, policy, generation).dom() == next_generation(
            live_cells(cells),
            policy,
        ),
{
    let after = stepped_cells(cells, policy, generation);
    assert(live_cells(after) =~= next_generation(live_cells(cells), policy));
    assert(after.dom() =~= next_generation(live_cells(cells), policy));
}

/// After any number of transitions the live cells are the generation that
/// many transitions after the live cells before.
pub proof fn law_advance_is_generation_after(
    cells: Map<Point, CellState>,
    policy: BoundaryPolicy,
    generation: int,
    steps: nat,
)
    ensures
        live_cells(cells_after(cells, policy, generation, steps)) == crate::life::generation_after(
            live_cells(cells),
            policy,
            steps,
        ),
    decreases steps,
{
    if steps > 0 {
        law_advance_is_generation_after(cells, policy, generation, (steps - 1) as nat);
        law_step_is_next_generation(
            cells_after(cells, policy, generation, (steps - 1) as nat),
            policy,
            (generation + steps) as u64,
        );
    }
}

} // verus!
