//! The generation engine: neighbour counting and the transition of a whole
//! generation, for every boundary policy.
//!
//! Only live cells and the positions around them are examined, so the work
//! is proportional to the number of live cells and not to the size of the
//! grid.

use crate::cell_map::CellMap;
use crate::cell_set::{cells_of, lemma_cells_of_push, CellSet};
use crate::coords::{point, Point};
use crate::grid::GridBoundary;
use crate::life::{
    alive_at, alive_next, in_grid, lemma_resolve_admitted, lemma_resolve_back,
    lemma_resolve_self, lemma_some_neighbor, neighbor_count, next_generation, shifted, wrap,
    wrapped, BoundaryPolicy,
};
use crate::rules::should_cell_survive;
use vstd::prelude::*;

verus! {

/// The remainder of a negated number, from the remainder of the number.
proof fn lemma_mod_of_negated(x: int, w: int)
    requires
        w > 0,
        x >= 0,
    ensures
        (-x) % w == if x % w == 0 {
            0
        } else {
            w - x % w
        },
{
    let q = x / w;
    let r = x % w;
    assert(x == q * w + r) by (nonlinear_arith)
        requires
            w > 0,
            q == x / w,
            r == x % w,
    ;
    if r == 0 {
        assert((-x) == (-q) * w + 0) by (nonlinear_arith)
            requires
                x == q * w + r,
                r == 0,
        ;
        vstd::arithmetic::div_mod::lemma_fundamental_div_mod_converse(-x, w, -q, 0);
    } else {
        assert((-x) == (-q - 1) * w + (w - r)) by (nonlinear_arith)
            requires
                x == q * w + r,
        ;
        vstd::arithmetic::div_mod::lemma_fundamental_div_mod_converse(-x, w, -q - 1, w - r);
    }
}

/// Reduces one coordinate into `[0, dim)`.
fn wrap_component(v: i64, dim: i32) -> (r: i32)
    requires
        dim > 0,
        v > i64::MIN,
    ensures
        r as int == wrap(v as int, dim as int),
{
    let d: i64 = dim as i64;
    if v >= 0 {
        (v % d) as i32
    } else {
        let m: i64 = (-v) % d;
        proof {
            lemma_mod_of_negated(-v as int, d as int);
        }
        if m == 0 {
            0
        } else {
            (d - m) as i32
        }
    }
}

/// The cell on which the position `(x, y)` lands under `policy`, if any.
fn resolve_position(policy: BoundaryPolicy, x: i64, y: i64) -> (landing: Option<(i32, i32)>)
    requires
        policy.valid(),
        x > i64::MIN,
        y > i64::MIN,
    ensures
        match landing {
            Some(c) => policy.resolve((x as int, y as int)) == Some(point(c)),
            None => policy.resolve((x as int, y as int)) is None,
        },
{
    match policy {
        BoundaryPolicy::Unbounded => {
            if x >= -0x8000_0000 && x <= 0x7fff_ffff && y >= -0x8000_0000 && y <= 0x7fff_ffff {
                Some((x as i32, y as i32))
            } else {
                None
            }
        },
        BoundaryPolicy::Bounded { width, height, wrap } => {
            if wrap {
                Some((wrap_component(x, width), wrap_component(y, height)))
            } else if x >= 0 && x < width as i64 && y >= 0 && y < height as i64 {
                Some((x as i32, y as i32))
            } else {
                None
            }
        },
    }
}

/// Whether the position `(dx, dy)` away from `position` lands on a live cell.
fn probe(
    position: (i32, i32),
    dx: i64,
    dy: i64,
    live_cells: &CellSet,
    policy: BoundaryPolicy,
) -> (hit: u8)
    requires
        policy.valid(),
        -1 <= dx <= 1,
        -1 <= dy <= 1,
    ensures
        hit as int == crate::life::indicator(
            alive_at(live_cells@, policy, shifted(point(position), dx as int, dy as int)),
        ),
{
    match resolve_position(policy, position.0 as i64 + dx, position.1 as i64 + dy) {
        Some(c) => if live_cells.contains(c) {
            1
        } else {
            0
        },
        None => 0,
    }
}

/// Counts the live cells on which the eight positions around `position`
/// land under `policy`.
pub fn count_neighbors(position: (i32, i32), live_cells: &CellSet, policy: BoundaryPolicy) -> (count:
    u8)
    requires
        policy.valid(),
    ensures
        count as int == neighbor_count(live_cells@, policy, point(position)),
        count <= 8,
{
    let mut count: u8 = 0;
    count += probe(position, -1, -1, live_cells, policy);
    count += probe(position, -1, 0, live_cells, policy);
    count += probe(position, -1, 1, live_cells, policy);
    count += probe(position, 0, -1, live_cells, policy);
    count += probe(position, 0, 1, live_cells, policy);
    count += probe(position, 1, -1, live_cells, policy);
    count += probe(position, 1, 0, live_cells, policy);
    count += probe(position, 1, 1, live_cells, policy);
    count
}

/// Counts the live neighbours of `position` on the unbounded grid.  The flag
/// is accepted for symmetry with the bounded counters and has no effect.
pub fn count_live_neighbors(position: (i32, i32), live_cells: &CellSet, _wrap_edges: bool) -> (count:
    u8)
    ensures
        count as int == neighbor_count(live_cells@, BoundaryPolicy::Unbounded, point(position)),
        count <= 8,
{
    count_neighbors(position, live_cells, BoundaryPolicy::Unbounded)
}

/// Counts the live neighbours of `position` on a bounded grid: positions
/// beyond an edge wrap to the opposite edge or are left out, as the boundary
/// says.
pub fn count_live_neighbors_bounded(
    position: (i32, i32),
    live_cells: &CellSet,
    boundary: &GridBoundary,
) -> (count: u8)
    requires
        boundary.policy().valid(),
    ensures
        count as int == neighbor_count(live_cells@, boundary.policy(), point(position)),
        count <= 8,
{
    count_neighbors(position, live_cells, boundary.policy())
}

/// Counts the live neighbours of `position` on a wrapping grid of the given
/// size.
pub fn count_live_neighbors_with_wrapping(
    position: (i32, i32),
    live_cells: &CellSet,
    grid_width: i32,
    grid_height: i32,
) -> (count: u8)
    requires
        grid_width > 0,
        grid_height > 0,
    ensures
        count as int == neighbor_count(
            live_cells@,
            BoundaryPolicy::Bounded { width: grid_width, height: grid_height, wrap: true },
            point(position),
        ),
        count <= 8,
{
    let boundary = GridBoundary { width: grid_width, height: grid_height, wrap_edges: true };
    count_live_neighbors_bounded(position, live_cells, &boundary)
}

/// Whether `position` lies inside the boundary's rectangle.
pub fn is_valid_coordinate(position: (i32, i32), boundary: &GridBoundary) -> (valid: bool)
    ensures
        valid == in_grid(point(position), boundary.width as int, boundary.height as int),
{
    let (x, y) = position;
    x >= 0 && x < boundary.width && y >= 0 && y < boundary.height
}

/// Reduces `position` into the boundary's rectangle, each coordinate modulo
/// the matching dimension.
pub fn wrap_coordinate(position: (i32, i32), boundary: &GridBoundary) -> (landing: (i32, i32))
    requires
        boundary.width > 0,
        boundary.height > 0,
    ensures
        point(landing) == wrapped(point(position), boundary.width as int, boundary.height as int),
        in_grid(point(landing), boundary.width as int, boundary.height as int),
{
    let (x, y) = position;
    (wrap_component(x as i64, boundary.width), wrap_component(y as i64, boundary.height))
}

/// Whether `order` lists exactly the cells of `seen`, each once.
pub open spec fn lists(order: Seq<(i32, i32)>, seen: Set<Point>) -> bool {
    &&& cells_of(order) == seen
    &&& order.no_duplicates()
}

/// Whether the cell on which `n` lands, if any, is in `seen`.
pub open spec fn covered(seen: Set<Point>, policy: BoundaryPolicy, n: Point) -> bool {
    policy.resolve(n) matches Some(c) ==> seen.contains(c)
}

/// Whether `seen` holds every cell of the grid among the first `upto` cells
/// of `live` and every cell on which a position around one of them lands.
pub open spec fn covers(
    seen: Set<Point>,
    policy: BoundaryPolicy,
    live: Seq<(i32, i32)>,
    upto: int,
) -> bool {
    forall|j: int, dx: int, dy: int|
        0 <= j < upto && -1 <= dx <= 1 && -1 <= dy <= 1 && policy.admits(point(live[j]))
            ==> #[trigger] covered(seen, policy, shifted(point(live[j]), dx, dy))
}

/// Whether every cell of `seen` is a cell of the grid.
pub open spec fn all_admitted(seen: Set<Point>, policy: BoundaryPolicy) -> bool {
    forall|c: Point| #[trigger] seen.contains(c) ==> policy.admits(c)
}

/// A set that covers the whole live list holds every cell that is alive in
/// the next generation.
pub proof fn lemma_candidates_complete(
    seen: Set<Point>,
    policy: BoundaryPolicy,
    live: Seq<(i32, i32)>,
    c: Point,
)
    requires
        policy.valid(),
        covers(seen, policy, live, live.len() as int),
        alive_next(cells_of(live), policy, c),
    ensures
        seen.contains(c),
{
    let alive = cells_of(live);
    if alive.contains(c) {
        let j = choose|j: int| 0 <= j < live.len() && point(#[trigger] live[j]) == c;
        lemma_resolve_self(policy, c);
        assert(covered(seen, policy, shifted(point(live[j]), 0, 0)));
        assert(shifted(c, 0, 0) == c);
    } else {
        let d = lemma_some_neighbor(alive, policy, c);
        let m = policy.resolve(shifted(c, d.0, d.1))->0;
        lemma_resolve_admitted(policy, shifted(c, d.0, d.1));
        lemma_resolve_back(policy, c, d.0, d.1);
        let j = choose|j: int| 0 <= j < live.len() && point(#[trigger] live[j]) == m;
        assert(covered(seen, policy, shifted(point(live[j]), -d.0, -d.1)));
    }
}

/// Records the cell on which the position `(dx, dy)` away from `origin`
/// lands, unless it lands nowhere or the cell is already recorded.
fn add_candidate(
    seen: &mut CellSet,
    order: &mut Vec<(i32, i32)>,
    policy: BoundaryPolicy,
    origin: (i32, i32),
    dx: i64,
    dy: i64,
)
    requires
        policy.valid(),
        -1 <= dx <= 1,
        -1 <= dy <= 1,
        lists(old(order)@, old(seen)@),
        all_admitted(old(seen)@, policy),
    ensures
        lists(final(order)@, final(seen)@),
        all_admitted(final(seen)@, policy),
        old(seen)@.subset_of(final(seen)@),
        covered(final(seen)@, policy, shifted(point(origin), dx as int, dy as int)),
{
    proof {
        lemma_resolve_admitted(policy, shifted(point(origin), dx as int, dy as int));
    }
    match resolve_position(policy, origin.0 as i64 + dx, origin.1 as i64 + dy) {
        Some(c) => {
            if seen.insert(c) {
                proof {
                    lemma_cells_of_push(order@, c);
                    assert forall|i: int| 0 <= i < order@.len() implies order@[i] != c by {
                        assert(cells_of(order@).contains(point(order@[i])));
                    }
                }
                order.push(c);
            } else {
                assert(seen@ =~= old(seen)@);
            }
        },
        None => {},
    }
}

/// The cells among the first `upto` of `order` that are alive in the
/// generation after `live`.
pub open spec fn chosen(
    order: Seq<(i32, i32)>,
    upto: int,
    live: Set<Point>,
    policy: BoundaryPolicy,
) -> Set<Point> {
    Set::new(|c: Point| cells_of(order.take(upto)).contains(c) && alive_next(live, policy, c))
}

/// Computes the generation after `live_cells` under `policy`.
///
/// The result lists each cell of the next generation once.  Cells of
/// `live_cells` that are no cells of the grid are ignored.
pub fn compute_next_generation(live_cells: &[(i32, i32)], policy: BoundaryPolicy) -> (next: Vec<
    (i32, i32),
>)
    requires
        policy.valid(),
    ensures
        cells_of(next@) == next_generation(cells_of(live_cells@), policy),
        next@.no_duplicates(),
{
    let live = CellSet::from_cells(live_cells);
    let mut seen = CellSet::new();
    let mut order: Vec<(i32, i32)> = Vec::new();
    proof {
        assert(cells_of(order@) =~= seen@);
    }
    let mut i: usize = 0;
    while i < live_cells.len()
        invariant
            policy.valid(),
            i <= live_cells.len(),
            lists(order@, seen@),
            all_admitted(seen@, policy),
            covers(seen@, policy, live_cells@, i as int),
        decreases live_cells.len() - i,
    {
        let origin = live_cells[i];
        let ghost before = seen@;
        if admits_cell(policy, origin) {
            add_candidate(&mut seen, &mut order, policy, origin, 0, 0);
            add_candidate(&mut seen, &mut order, policy, origin, -1, -1);
            add_candidate(&mut seen, &mut order, policy, origin, -1, 0);
            add_candidate(&mut seen, &mut order, policy, origin, -1, 1);
            add_candidate(&mut seen, &mut order, policy, origin, 0, -1);
            add_candidate(&mut seen, &mut order, policy, origin, 0, 1);
            add_candidate(&mut seen, &mut order, policy, origin, 1, -1);
            add_candidate(&mut seen, &mut order, policy, origin, 1, 0);
            add_candidate(&mut seen, &mut order, policy, origin, 1, 1);
        }
        proof {
            assert(before.subset_of(seen@));
            assert forall|j: int, dx: int, dy: int|
                0 <= j < i + 1 && -1 <= dx <= 1 && -1 <= dy <= 1 && policy.admits(
                    point(live_cells@[j]),
                ) implies #[trigger] covered(
                seen@,
                policy,
                shifted(point(live_cells@[j]), dx, dy),
            ) by {
                if j < i {
                    assert(covered(before, policy, shifted(point(live_cells@[j]), dx, dy)));
                }
            }
        }
        i += 1;
    }
    let mut next: Vec<(i32, i32)> = Vec::new();
    let mut k: usize = 0;
    proof {
        assert(cells_of(next@) =~= chosen(order@, 0, live@, policy));
    }
    while k < order.len()
        invariant
            policy.valid(),
            k <= order.len(),
            lists(order@, seen@),
            all_admitted(seen@, policy),
            live@ == cells_of(live_cells@),
            next@.no_duplicates(),
            cells_of(next@) == chosen(order@, k as int, live@, policy),
        decreases order.len() - k,
    {
        let position = order[k];
        let currently_alive = live.contains(position);
        let neighbors = count_neighbors(position, &live, policy);
        proof {
            lemma_cells_of_push(order@.take(k as int), position);
            assert(order@.take(k as int).push(position) =~= order@.take(k + 1));
            assert(cells_of(order@).contains(point(order@[k as int])));
        }
        if should_cell_survive(currently_alive, neighbors) {
            proof {
                lemma_cells_of_push(next@, position);
                assert forall|j: int| 0 <= j < next@.len() implies next@[j] != position by {
                    assert(cells_of(next@).contains(point(next@[j])));
                    let t = choose|t: int|
                        0 <= t < order@.take(k as int).len() && point(
                            #[trigger] order@.take(k as int)[t],
                        ) == point(next@[j]);
                    assert(order@[t] == next@[j]);
                }
            }
            next.push(position);
        }
        proof {
            assert(cells_of(next@) =~= chosen(order@, k + 1, live@, policy));
        }
        k += 1;
    }
    proof {
        assert(order@.take(order@.len() as int) =~= order@);
        assert forall|c: Point| alive_next(live@, policy, c) implies seen@.contains(c) by {
            lemma_candidates_complete(seen@, policy, live_cells@, c);
        }
        assert(cells_of(next@) =~= next_generation(live@, policy));
    }
    next
}

/// Whether `cell` is a cell of the grid.
fn admits_cell(policy: BoundaryPolicy, cell: (i32, i32)) -> (admitted: bool)
    ensures
        admitted == policy.admits(point(cell)),
{
    match policy {
        BoundaryPolicy::Unbounded => true,
        BoundaryPolicy::Bounded { width, height, .. } => cell.0 >= 0 && cell.0 < width && cell.1
            >= 0 && cell.1 < height,
    }
}

/// The boundary policy that the arguments of `apply_game_of_life_rules`
/// select: a wrapping grid where wrapping is asked for and both dimensions
/// are given, the unbounded grid otherwise.
pub open spec fn selected_policy(
    wrap_edges: bool,
    grid_width: Option<i32>,
    grid_height: Option<i32>,
) -> BoundaryPolicy {
    if wrap_edges && grid_width is Some && grid_height is Some {
        BoundaryPolicy::Bounded { width: grid_width->0, height: grid_height->0, wrap: true }
    } else {
        BoundaryPolicy::Unbounded
    }
}

/// Computes the next generation on the unbounded grid or, where wrapping is
/// asked for and both dimensions are given, on a wrapping grid of that size.
pub fn apply_game_of_life_rules(
    live_cells: &[(i32, i32)],
    wrap_edges: bool,
    grid_width: Option<i32>,
    grid_height: Option<i32>,
) -> (next: Vec<(i32, i32)>)
    requires
        selected_policy(wrap_edges, grid_width, grid_height).valid(),
    ensures
        cells_of(next@) == next_generation(
            cells_of(live_cells@),
            selected_policy(wrap_edges, grid_width, grid_height),
        ),
        next@.no_duplicates(),
{
    if wrap_edges && grid_width.is_some() && grid_height.is_some() {
        let policy = BoundaryPolicy::Bounded {
            width: grid_width.unwrap(),
            height: grid_height.unwrap(),
            wrap: true,
        };
        compute_next_generation(live_cells, policy)
    } else {
        compute_next_generation(live_cells, BoundaryPolicy::Unbounded)
    }
}

/// Computes the next generation on a bounded grid.
pub fn apply_game_of_life_rules_bounded(live_cells: &[(i32, i32)], boundary: &GridBoundary) -> (next:
    Vec<(i32, i32)>)
    requires
        boundary.policy().valid(),
    ensures
        cells_of(next@) == next_generation(cells_of(live_cells@), boundary.policy()),
        next@.no_duplicates(),
{
    compute_next_generation(live_cells, boundary.policy())
}

/// Counts the live neighbours of each of `positions` on the unbounded grid.
/// The flag has no effect.
pub fn batch_count_neighbors(positions: &[(i32, i32)], live_cells: &CellSet, wrap_edges: bool) -> (counts:
    CellMap<u8>)
    ensures
        counts@.dom() == cells_of(positions@),
        forall|c: Point| #[trigger]
            counts@.contains_key(c) ==> counts@[c] as int == neighbor_count(
                live_cells@,
                BoundaryPolicy::Unbounded,
                c,
            ),
{
    let mut counts: CellMap<u8> = CellMap::new();
    let mut i: usize = 0;
    proof {
        assert(counts@.dom() =~= cells_of(positions@.take(0)));
    }
    while i < positions.len()
        invariant
            i <= positions.len(),
            counts@.dom() == cells_of(positions@.take(i as int)),
            forall|c: Point| #[trigger]
                counts@.contains_key(c) ==> counts@[c] as int == neighbor_count(
                    live_cells@,
                    BoundaryPolicy::Unbounded,
                    c,
                ),
        decreases positions.len() - i,
    {
        let position = positions[i];
        let count = count_live_neighbors(position, live_cells, wrap_edges);
        counts.insert(position, count);
        proof {
            lemma_cells_of_push(positions@.take(i as int), position);
            assert(positions@.take(i as int).push(position) =~= positions@.take(i + 1));
            assert(counts@.dom() =~= cells_of(positions@.take(i + 1)));
        }
        i += 1;
    }
    proof {
        assert(positions@.take(positions@.len() as int) =~= positions@);
    }
    counts
}

} // verus!
