//! The mathematical model of one generation.
//!
//! A generation is a set of live cells.  A boundary policy says which cells
//! exist and where a neighbouring position lands; the next generation is the
//! set of existing cells that the transition rule makes alive.

use crate::coords::{in_range, Point};
use crate::rules::rule;
use vstd::prelude::*;

verus! {

/// How the grid treats its edges.
#[derive(Clone, Copy, Debug, PartialEq, Eq, Structural)]
pub enum BoundaryPolicy {
    /// Every representable cell exists.
    Unbounded,
    /// Only the cells of a `width` by `height` rectangle at the origin exist.
    /// With `wrap`, positions beyond an edge land on the opposite edge;
    /// without it they land nowhere.
    Bounded { width: i32, height: i32, wrap: bool },
}

/// Whether `c` lies in the rectangle `[0, width)` by `[0, height)`.
pub open spec fn in_grid(c: Point, width: int, height: int) -> bool {
    &&& 0 <= c.0 < width
    &&& 0 <= c.1 < height
}

/// One coordinate reduced into `[0, dim)`.
pub open spec fn wrap(v: int, dim: int) -> int {
    v % dim
}

/// `c` with both coordinates reduced into the rectangle.
pub open spec fn wrapped(c: Point, width: int, height: int) -> Point {
    (wrap(c.0, width), wrap(c.1, height))
}

/// The position `(dx, dy)` away from `c`.
pub open spec fn shifted(c: Point, dx: int, dy: int) -> Point {
    (c.0 + dx, c.1 + dy)
}

/// One for `true`, zero for `false`.
pub open spec fn indicator(b: bool) -> int {
    if b {
        1
    } else {
        0
    }
}

impl BoundaryPolicy {
    /// A wrapping grid needs positive dimensions.
    pub open spec fn valid(self) -> bool {
        match self {
            BoundaryPolicy::Unbounded => true,
            BoundaryPolicy::Bounded { width, height, wrap } => wrap ==> width > 0 && height > 0,
        }
    }

    /// Whether `c` is a cell of the grid.
    pub open spec fn admits(self, c: Point) -> bool {
        match self {
            BoundaryPolicy::Unbounded => in_range(c),
            BoundaryPolicy::Bounded { width, height, .. } => in_grid(c, width as int, height as int),
        }
    }

    /// The cell on which the position `n` lands, if it lands on any.
    pub open spec fn resolve(self, n: Point) -> Option<Point> {
        match self {
            BoundaryPolicy::Unbounded => if in_range(n) {
                Some(n)
            } else {
                None
            },
            BoundaryPolicy::Bounded { width, height, wrap } => if wrap {
                Some(wrapped(n, width as int, height as int))
            } else if in_grid(n, width as int, height as int) {
                Some(n)
            } else {
                None
            },
        }
    }
}

/// Whether the position `n` lands on a live cell.
pub open spec fn alive_at(live: Set<Point>, policy: BoundaryPolicy, n: Point) -> bool {
    match policy.resolve(n) {
        Some(c) => live.contains(c),
        None => false,
    }
}

/// How many of the eight positions around `c` land on a live cell.
pub open spec fn neighbor_count(live: Set<Point>, policy: BoundaryPolicy, c: Point) -> int {
    indicator(alive_at(live, policy, shifted(c, -1, -1)))
        + indicator(alive_at(live, policy, shifted(c, -1, 0)))
        + indicator(alive_at(live, policy, shifted(c, -1, 1)))
        + indicator(alive_at(live, policy, shifted(c, 0, -1)))
        + indicator(alive_at(live, policy, shifted(c, 0, 1)))
        + indicator(alive_at(live, policy, shifted(c, 1, -1)))
        + indicator(alive_at(live, policy, shifted(c, 1, 0)))
        + indicator(alive_at(live, policy, shifted(c, 1, 1)))
}

/// Whether `c` is alive in the generation after `live`.
pub open spec fn alive_next(live: Set<Point>, policy: BoundaryPolicy, c: Point) -> bool {
    policy.admits(c) && rule(live.contains(c), neighbor_count(live, policy, c))
}

/// The generation after `live`.
pub open spec fn next_generation(live: Set<Point>, policy: BoundaryPolicy) -> Set<Point> {
    Set::new(|c: Point| alive_next(live, policy, c))
}

/// The generation `steps` transitions after `live`.
pub open spec fn generation_after(live: Set<Point>, policy: BoundaryPolicy, steps: nat) -> Set<
    Point,
>
    decreases steps,
{
    if steps == 0 {
        live
    } else {
        next_generation(generation_after(live, policy, (steps - 1) as nat), policy)
    }
}

/// A value of `[-1, dim]` reduced into `[0, dim)`.
pub proof fn lemma_wrap_near(v: int, dim: int)
    requires
        dim > 0,
        -1 <= v <= dim,
    ensures
        wrap(v, dim) == if v == -1 {
            dim - 1
        } else if v == dim {
            0
        } else {
            v
        },
{
    if v == -1 {
        vstd::arithmetic::div_mod::lemma_fundamental_div_mod_converse(v, dim, -1, dim - 1);
    } else if v == dim {
        vstd::arithmetic::div_mod::lemma_fundamental_div_mod_converse(v, dim, 1, 0);
    } else {
        vstd::arithmetic::div_mod::lemma_fundamental_div_mod_converse(v, dim, 0, v);
    }
}

/// Reducing always lands in `[0, dim)`.
pub proof fn law_wrap_bounds(v: int, dim: int)
    requires
        dim > 0,
    ensures
        0 <= wrap(v, dim) < dim,
{
}

/// Stepping off a cell of a wrapping grid and stepping back returns to it.
pub proof fn lemma_wrap_there_and_back(v: int, d: int, dim: int)
    requires
        dim > 0,
        0 <= v < dim,
        -1 <= d <= 1,
    ensures
        wrap(wrap(v + d, dim) - d, dim) == v,
{
    lemma_wrap_near(v + d, dim);
    lemma_wrap_near(wrap(v + d, dim) - d, dim);
}

/// A position lands only on cells of the grid.
pub proof fn lemma_resolve_admitted(policy: BoundaryPolicy, n: Point)
    requires
        policy.valid(),
    ensures
        policy.resolve(n) matches Some(c) ==> policy.admits(c),
{
}

/// A cell of the grid lands on itself.
pub proof fn lemma_resolve_self(policy: BoundaryPolicy, c: Point)
    requires
        policy.valid(),
        policy.admits(c),
    ensures
        policy.resolve(c) == Some(c),
{
    if let BoundaryPolicy::Bounded { width, height, wrap } = policy {
        if wrap {
            lemma_wrap_near(c.0, width as int);
            lemma_wrap_near(c.1, height as int);
        }
    }
}

/// If the position `(dx, dy)` away from a cell `c` lands on `m`, then the
/// position `(-dx, -dy)` away from `m` lands on `c`.
pub proof fn lemma_resolve_back(policy: BoundaryPolicy, c: Point, dx: int, dy: int)
    requires
        policy.valid(),
        policy.admits(c),
        -1 <= dx <= 1,
        -1 <= dy <= 1,
    ensures
        policy.resolve(shifted(c, dx, dy)) matches Some(m) ==> policy.resolve(
            shifted(m, -dx, -dy),
        ) == Some(c),
{
    if let BoundaryPolicy::Bounded { width, height, wrap } = policy {
        if wrap {
            lemma_wrap_there_and_back(c.0, dx, width as int);
            lemma_wrap_there_and_back(c.1, dy, height as int);
        }
    }
}

/// A cell with a live neighbour has one at some offset.
pub proof fn lemma_some_neighbor(live: Set<Point>, policy: BoundaryPolicy, c: Point) -> (d: (
    int,
    int,
))
    requires
        neighbor_count(live, policy, c) > 0,
    ensures
        -1 <= d.0 <= 1,
        -1 <= d.1 <= 1,
        d != (0int, 0int),
        alive_at(live, policy, shifted(c, d.0, d.1)),
{
    if alive_at(live, policy, shifted(c, -1, -1)) {
        (-1, -1)
    } else if alive_at(live, policy, shifted(c, -1, 0)) {
        (-1, 0)
    } else if alive_at(live, policy, shifted(c, -1, 1)) {
        (-1, 1)
    } else if alive_at(live, policy, shifted(c, 0, -1)) {
        (0, -1)
    } else if alive_at(live, policy, shifted(c, 0, 1)) {
        (0, 1)
    } else if alive_at(live, policy, shifted(c, 1, -1)) {
        (1, -1)
    } else if alive_at(live, policy, shifted(c, 1, 0)) {
        (1, 0)
    } else {
        (1, 1)
    }
}

/// The neighbour count lies between zero and eight.
pub proof fn law_neighbor_count_bounds(live: Set<Point>, policy: BoundaryPolicy, c: Point)
    ensures
        0 <= neighbor_count(live, policy, c) <= 8,
{
}

/// The next generation depends on nothing but the live set and the policy:
/// equal inputs give equal generations, however often it is computed.
pub proof fn law_deterministic(
    first: Set<Point>,
    second: Set<Point>,
    policy: BoundaryPolicy,
    steps: nat,
)
    requires
        first == second,
    ensures
        next_generation(first, policy) == next_generation(second, policy),
        generation_after(first, policy, steps) == generation_after(second, policy, steps),
{
}

/// Underpopulation: a live cell with fewer than two live neighbours is
/// absent from the next generation.
pub proof fn law_underpopulation(live: Set<Point>, policy: BoundaryPolicy, c: Point)
    requires
        live.contains(c),
        neighbor_count(live, policy, c) <= 1,
    ensures
        !next_generation(live, policy).contains(c),
{
}

/// Survival: a live cell of the grid with two or three live neighbours is
/// in the next generation.
pub proof fn law_survival(live: Set<Point>, policy: BoundaryPolicy, c: Point)
    requires
        live.contains(c),
        policy.admits(c),
        neighbor_count(live, policy, c) == 2 || neighbor_count(live, policy, c) == 3,
    ensures
        next_generation(live, policy).contains(c),
{
}

/// Overpopulation: a live cell with four or more live neighbours is absent
/// from the next generation.
pub proof fn law_overpopulation(live: Set<Point>, policy: BoundaryPolicy, c: Point)
    requires
        live.contains(c),
        neighbor_count(live, policy, c) >= 4,
    ensures
        !next_generation(live, policy).contains(c),
{
}

/// Reproduction: a dead cell of the grid with exactly three live neighbours
/// is in the next generation, and with any other count it is not.
pub proof fn law_reproduction(live: Set<Point>, policy: BoundaryPolicy, c: Point)
    requires
        !live.contains(c),
        policy.admits(c),
    ensures
        next_generation(live, policy).contains(c) <==> neighbor_count(live, policy, c) == 3,
{
}

/// The empty generation stays empty, for every policy and any number of
/// transitions.
pub proof fn law_empty_stays_empty(policy: BoundaryPolicy, steps: nat)
    ensures
        next_generation(Set::<Point>::empty(), policy) == Set::<Point>::empty(),
        generation_after(Set::<Point>::empty(), policy, steps) == Set::<Point>::empty(),
    decreases steps,
{
    assert(next_generation(Set::<Point>::empty(), policy) =~= Set::<Point>::empty());
    if steps > 0 {
        law_empty_stays_empty(policy, (steps - 1) as nat);
    }
}

/// Every cell of the next generation is a cell of the grid.
pub proof fn law_next_generation_in_grid(live: Set<Point>, policy: BoundaryPolicy, c: Point)
    requires
        next_generation(live, policy).contains(c),
    ensures
        policy.admits(c),
{
}

/// The two by two block at `(x, y)`.
pub open spec fn block_at(x: int, y: int) -> Set<Point> {
    set![(x, y), (x, y + 1), (x + 1, y), (x + 1, y + 1)]
}

/// The block is a still life of the unbounded grid: it is its own next
/// generation, after any number of transitions.
#[verifier::rlimit(60)]
#[verifier::spinoff_prover]
pub proof fn law_block_is_still(x: int, y: int, steps: nat)
    requires
        in_range((x, y)),
        in_range((x + 1, y + 1)),
    ensures
        next_generation(block_at(x, y), BoundaryPolicy::Unbounded) == block_at(x, y),
        generation_after(block_at(x, y), BoundaryPolicy::Unbounded, steps) == block_at(x, y),
    decreases steps,
{
    let block = block_at(x, y);
    let policy = BoundaryPolicy::Unbounded;
    assert forall|c: Point| next_generation(block, policy).contains(c) <==> block.contains(
        c,
    ) by {
        if block.contains(c) {
            assert(neighbor_count(block, policy, c) == 3);
        } else {
            assert(neighbor_count(block, policy, c) != 3);
        }
    }
    assert(next_generation(block, policy) =~= block);
    if steps > 0 {
        law_block_is_still(x, y, (steps - 1) as nat);
    }
}

/// The upright blinker whose middle cell is `(x, y)`.
pub open spec fn blinker_upright(x: int, y: int) -> Set<Point> {
    set![(x, y - 1), (x, y), (x, y + 1)]
}

/// The level blinker whose middle cell is `(x, y)`.
pub open spec fn blinker_level(x: int, y: int) -> Set<Point> {
    set![(x - 1, y), (x, y), (x + 1, y)]
}

/// The blinker oscillates with period two on the unbounded grid: upright
/// becomes level and level becomes upright.
#[verifier::rlimit(60)]
#[verifier::spinoff_prover]
pub proof fn law_blinker_oscillates(x: int, y: int)
    requires
        in_range((x - 1, y - 1)),
        in_range((x + 1, y + 1)),
    ensures
        next_generation(blinker_upright(x, y), BoundaryPolicy::Unbounded) == blinker_level(x, y),
        next_generation(blinker_level(x, y), BoundaryPolicy::Unbounded) == blinker_upright(x, y),
        generation_after(blinker_upright(x, y), BoundaryPolicy::Unbounded, 2) == blinker_upright(
            x,
            y,
        ),
{
    let policy = BoundaryPolicy::Unbounded;
    let upright = blinker_upright(x, y);
    let level = blinker_level(x, y);
    assert forall|c: Point| next_generation(upright, policy).contains(c) <==> level.contains(
        c,
    ) by {
        lemma_count_near(upright, c);
    }
    assert(next_generation(upright, policy) =~= level);
    assert forall|c: Point| next_generation(level, policy).contains(c) <==> upright.contains(
        c,
    ) by {
        lemma_count_near(level, c);
    }
    assert(next_generation(level, policy) =~= upright);
    reveal_with_fuel(generation_after, 3);
}

/// On the unbounded grid the count of a representable cell whose
/// surroundings are representable is the number of live cells around it.
pub proof fn lemma_count_near(live: Set<Point>, c: Point)
    requires
        forall|p: Point| #[trigger] live.contains(p) ==> in_range(p),
    ensures
        neighbor_count(live, BoundaryPolicy::Unbounded, c) == indicator(
            live.contains(shifted(c, -1, -1)),
        ) + indicator(live.contains(shifted(c, -1, 0))) + indicator(
            live.contains(shifted(c, -1, 1)),
        ) + indicator(live.contains(shifted(c, 0, -1))) + indicator(
            live.contains(shifted(c, 0, 1)),
        ) + indicator(live.contains(shifted(c, 1, -1))) + indicator(
            live.contains(shifted(c, 1, 0)),
        ) + indicator(live.contains(shifted(c, 1, 1))),
{
}

/// The glider whose bounding square has its corner at `(x, y)`.
pub open spec fn glider_at(x: int, y: int) -> Set<Point> {
    set![(x + 1, y), (x + 2, y + 1), (x, y + 2), (x + 1, y + 2), (x + 2, y + 2)]
}

/// The glider after one transition.
pub open spec fn glider_second(x: int, y: int) -> Set<Point> {
    set![(x, y + 1), (x + 2, y + 1), (x + 1, y + 2), (x + 2, y + 2), (x + 1, y + 3)]
}

/// The glider after two transitions.
pub open spec fn glider_third(x: int, y: int) -> Set<Point> {
    set![(x + 2, y + 1), (x, y + 2), (x + 2, y + 2), (x + 1, y + 3), (x + 2, y + 3)]
}

/// The glider after three transitions.
pub open spec fn glider_fourth(x: int, y: int) -> Set<Point> {
    set![(x + 1, y + 1), (x + 2, y + 2), (x + 3, y + 2), (x + 1, y + 3), (x + 2, y + 3)]
}

/// One transition takes the glider to its second phase.
#[verifier::rlimit(60)]
#[verifier::spinoff_prover]
pub proof fn lemma_glider_first_step(x: int, y: int)
    requires
        in_range((x - 1, y - 1)),
        in_range((x + 4, y + 4)),
    ensures
        next_generation(glider_at(x, y), BoundaryPolicy::Unbounded) == glider_second(x, y),
{
    let policy = BoundaryPolicy::Unbounded;
    assert forall|c: Point|
        next_generation(glider_at(x, y), policy).contains(c) <==> glider_second(x, y).contains(
            c,
        ) by {
        lemma_count_near(glider_at(x, y), c);
    }
    assert(next_generation(glider_at(x, y), policy) =~= glider_second(x, y));
}

/// One transition takes the second phase of the glider to the third.
#[verifier::rlimit(60)]
#[verifier::spinoff_prover]
pub proof fn lemma_glider_second_step(x: int, y: int)
    requires
        in_range((x - 1, y - 1)),
        in_range((x + 4, y + 4)),
    ensures
        next_generation(glider_second(x, y), BoundaryPolicy::Unbounded) == glider_third(x, y),
{
    let policy = BoundaryPolicy::Unbounded;
    assert forall|c: Point|
        next_generation(glider_second(x, y), policy).contains(c) <==> glider_third(
            x,
            y,
        ).contains(c) by {
        lemma_count_near(glider_second(x, y), c);
    }
    assert(next_generation(glider_second(x, y), policy) =~= glider_third(x, y));
}

/// One transition takes the third phase of the glider to the fourth.
#[verifier::rlimit(60)]
#[verifier::spinoff_prover]
pub proof fn lemma_glider_third_step(x: int, y: int)
    requires
        in_range((x - 1, y - 1)),
        in_range((x + 4, y + 4)),
    ensures
        next_generation(glider_third(x, y), BoundaryPolicy::Unbounded) == glider_fourth(x, y),
{
    let policy = BoundaryPolicy::Unbounded;
    assert forall|c: Point|
        next_generation(glider_third(x, y), policy).contains(c) <==> glider_fourth(
            x,
            y,
        ).contains(c) by {
        lemma_count_near(glider_third(x, y), c);
    }
    assert(next_generation(glider_third(x, y), policy) =~= glider_fourth(x, y));
}

/// One transition takes the fourth phase of the glider to the glider one
/// cell further along both axes.
#[verifier::rlimit(60)]
#[verifier::spinoff_prover]
pub proof fn lemma_glider_fourth_step(x: int, y: int)
    requires
        in_range((x - 1, y - 1)),
        in_range((x + 4, y + 4)),
    ensures
        next_generation(glider_fourth(x, y), BoundaryPolicy::Unbounded) == glider_at(
            x + 1,
            y + 1,
        ),
{
    let policy = BoundaryPolicy::Unbounded;
    assert forall|c: Point|
        next_generation(glider_fourth(x, y), policy).contains(c) <==> glider_at(
            x + 1,
            y + 1,
        ).contains(c) by {
        lemma_count_near(glider_fourth(x, y), c);
    }
    assert(next_generation(glider_fourth(x, y), policy) =~= glider_at(x + 1, y + 1));
}

/// The glider is a spaceship of the unbounded grid: after four transitions
/// it is the same glider one cell further along both axes.
pub proof fn law_glider_travels(x: int, y: int)
    requires
        in_range((x - 1, y - 1)),
        in_range((x + 4, y + 4)),
    ensures
        generation_after(glider_at(x, y), BoundaryPolicy::Unbounded, 4) == glider_at(
            x + 1,
            y + 1,
        ),
{
    lemma_glider_first_step(x, y);
    lemma_glider_second_step(x, y);
    lemma_glider_third_step(x, y);
    lemma_glider_fourth_step(x, y);
    reveal_with_fuel(generation_after, 5);
}

} // verus!
