//! The simulation as a sequence of passes over a world of cell entities:
//! count the neighbours, apply the rule, clean up.
//!
//! A world is a list of entities, each a position with a cell state.  Live
//! cells are entities; a dead entity is a ghost, put where a cell may be
//! born and removed again where none is.

use crate::cell_set::{cells_of, lemma_cells_of_push, CellSet};
use crate::components::{CellState, Position};
use crate::coords::{in_range, point, Point};
use crate::engine::{compute_next_generation, count_neighbors};
use crate::life::{neighbor_count, next_generation, BoundaryPolicy};
use crate::rules::rule;
use vstd::prelude::*;

verus! {

/// One entity: a cell state at a position.
#[derive(Clone, Copy, Debug, PartialEq, Eq, Structural)]
pub struct CellEntity {
    pub position: Position,
    pub state: CellState,
}

/// The positions of a list of entities.
pub open spec fn entity_positions(entities: Seq<CellEntity>) -> Seq<(i32, i32)> {
    entities.map_values(|e: CellEntity| (e.position.x, e.position.y))
}

/// The cells at which a list of entities stands.
pub open spec fn occupied(entities: Seq<CellEntity>) -> Set<Point> {
    cells_of(entity_positions(entities))
}

/// Whether no two entities of the list stand at one position.
pub open spec fn distinct_positions(entities: Seq<CellEntity>) -> bool {
    entity_positions(entities).no_duplicates()
}

/// The cell at which an entity stands.
pub open spec fn cell_of_entity(e: CellEntity) -> Point {
    (e.position.x as int, e.position.y as int)
}

/// An entity with its neighbours counted among `around`.
pub open spec fn counted(e: CellEntity, around: Set<Point>) -> CellEntity {
    CellEntity {
        position: e.position,
        state: CellState {
            neighbor_count: neighbor_count(around, BoundaryPolicy::Unbounded, cell_of_entity(e)) as u8,
            ..e.state
        },
    }
}

/// Whether `e` is a ghost among `around`: a dead entity of generation zero
/// at a free cell with exactly three occupied cells around it.
pub open spec fn is_ghost(e: CellEntity, around: Set<Point>) -> bool {
    &&& !around.contains(cell_of_entity(e))
    &&& neighbor_count(around, BoundaryPolicy::Unbounded, cell_of_entity(e)) == 3
    &&& e.state == (CellState { alive: false, generation: 0, neighbor_count: 3 })
}

/// The state of an entity after the rule was applied, if the entity stays:
/// a live cell with two or three neighbours is one generation older, a dead
/// one with three neighbours is born into the generation after
/// `generation`.  Either has no neighbours counted.
pub open spec fn state_after_rule(state: CellState, generation: u64) -> Option<CellState> {
    if rule(state.alive, state.neighbor_count as int) {
        Some(
            CellState {
                alive: true,
                generation: if state.alive {
                    (state.generation + 1) as u64
                } else {
                    (generation + 1) as u64
                },
                neighbor_count: 0,
            },
        )
    } else {
        None
    }
}

/// The entities after the rule was applied: those that stay, in their
/// order, each in its new state.
pub open spec fn entities_after_rule(entities: Seq<CellEntity>, generation: u64) -> Seq<CellEntity>
    decreases entities.len(),
{
    if entities.len() == 0 {
        Seq::empty()
    } else {
        let earlier = entities_after_rule(entities.drop_last(), generation);
        match state_after_rule(entities.last().state, generation) {
            Some(state) => earlier.push(CellEntity { position: entities.last().position, state }),
            None => earlier,
        }
    }
}

/// Whether an entity outlasts the clean-up: every entity but a dead one
/// whose neighbour count is not three.
pub open spec fn outlasts_cleanup(e: CellEntity) -> bool {
    e.state.alive || e.state.neighbor_count == 3
}

/// A world of cell entities.
pub struct CellWorld {
    pub entities: Vec<CellEntity>,
}

impl View for CellWorld {
    type V = Seq<CellEntity>;

    open spec fn view(&self) -> Seq<CellEntity> {
        self.entities@
    }
}

impl CellWorld {
    /// An empty world.
    pub fn new() -> (world: CellWorld)
        ensures
            world@ == Seq::<CellEntity>::empty(),
    {
        CellWorld { entities: Vec::new() }
    }

    /// Puts an entity into the world.
    pub fn spawn(&mut self, position: Position, state: CellState)
        ensures
            final(self)@ == old(self)@.push(CellEntity { position, state }),
    {
        self.entities.push(CellEntity { position, state });
    }

    /// The number of entities.
    pub fn len(&self) -> (n: usize)
        ensures
            n == self@.len(),
    {
        self.entities.len()
    }

    /// The positions of the entities, in their order.
    pub fn positions(&self) -> (positions: Vec<(i32, i32)>)
        ensures
            positions@ == entity_positions(self@),
    {
        let mut positions: Vec<(i32, i32)> = Vec::new();
        let mut i: usize = 0;
        while i < self.entities.len()
            invariant
                i <= self.entities.len(),
                positions@.len() == i,
                forall|j: int|
                    0 <= j < i ==> #[trigger] positions@[j] == (
                        self.entities@[j].position.x,
                        self.entities@[j].position.y,
                    ),
            decreases self.entities.len() - i,
        {
            positions.push((self.entities[i].position.x, self.entities[i].position.y));
            i += 1;
        }
        proof {
            assert(positions@ =~= entity_positions(self@));
        }
        positions
    }
}

/// Counts, for every entity, the entities around it.  The entities stay as
/// they are otherwise.
pub fn neighbor_calculation_system(world: &mut CellWorld)
    ensures
        final(world)@.len() == old(world)@.len(),
        forall|i: int|
            0 <= i < old(world)@.len() ==> #[trigger] final(world)@[i] == counted(
                old(world)@[i],
                occupied(old(world)@),
            ),
{
    let positions = world.positions();
    let around = CellSet::from_cells(positions.as_slice());
    let mut i: usize = 0;
    while i < world.entities.len()
        invariant
            i <= world.entities.len(),
            world@.len() == old(world)@.len(),
            around@ == occupied(old(world)@),
            forall|j: int|
                0 <= j < i ==> #[trigger] world@[j] == counted(old(world)@[j], around@),
            forall|j: int| i <= j < world@.len() ==> #[trigger] world@[j] == old(world)@[j],
        decreases world.entities.len() - i,
    {
        let entity = world.entities[i];
        let count = count_neighbors(
            (entity.position.x, entity.position.y),
            &around,
            BoundaryPolicy::Unbounded,
        );
        world.entities.set(
            i,
            CellEntity {
                position: entity.position,
                state: CellState { neighbor_count: count, ..entity.state },
            },
        );
        i += 1;
    }
}

/// Counts, for every entity, the entities around it, and puts a ghost at
/// every free cell with exactly three entities around it.
pub fn neighbor_counting_system(world: &mut CellWorld)
    ensures
        final(world)@.len() >= old(world)@.len(),
        forall|i: int|
            0 <= i < old(world)@.len() ==> #[trigger] final(world)@[i] == counted(
                old(world)@[i],
                occupied(old(world)@),
            ),
        forall|i: int|
            old(world)@.len() <= i < final(world)@.len() ==> is_ghost(
                #[trigger] final(world)@[i],
                occupied(old(world)@),
            ),
        forall|c: Point|
            in_range(c) && !occupied(old(world)@).contains(c) && neighbor_count(
                occupied(old(world)@),
                BoundaryPolicy::Unbounded,
                c,
            ) == 3 ==> #[trigger] occupied(final(world)@).contains(c),
        distinct_positions(old(world)@) ==> distinct_positions(final(world)@),
{
    let positions = world.positions();
    let around = CellSet::from_cells(positions.as_slice());
    neighbor_calculation_system(world);
    let candidates = compute_next_generation(positions.as_slice(), BoundaryPolicy::Unbounded);
    let ghost base = world@;
    let ghost before = old(world)@;
    let mut k: usize = 0;
    proof {
        assert(entity_positions(base) =~= entity_positions(before));
    }
    while k < candidates.len()
        invariant
            k <= candidates.len(),
            base.len() == before.len(),
            entity_positions(base) == entity_positions(before),
            around@ == occupied(before),
            cells_of(candidates@) == next_generation(occupied(before), BoundaryPolicy::Unbounded),
            candidates@.no_duplicates(),
            world@.len() >= base.len(),
            world@.subrange(0, base.len() as int) == base,
            forall|i: int|
                base.len() <= i < world@.len() ==> is_ghost(#[trigger] world@[i], occupied(before)),
            forall|i: int|
                base.len() <= i < world@.len() ==> cells_of(candidates@.take(k as int)).contains(
                    cell_of_entity(#[trigger] world@[i]),
                ),
            forall|c: Point|
                cells_of(candidates@.take(k as int)).contains(c) && !occupied(before).contains(c)
                    ==> #[trigger] occupied(world@).contains(c),
            distinct_positions(before) ==> distinct_positions(world@),
        decreases candidates.len() - k,
    {
        let cell = candidates[k];
        let ghost earlier = world@;
        proof {
            lemma_cells_of_push(candidates@.take(k as int), cell);
            assert(candidates@.take(k as int).push(cell) =~= candidates@.take(k + 1));
            assert(cells_of(candidates@).contains(point(candidates@[k as int])));
        }
        if !around.contains(cell) {
            world.spawn(
                Position::new(cell.0, cell.1),
                CellState { alive: false, generation: 0, neighbor_count: 3 },
            );
            proof {
                let ghost_entity = world@[earlier.len() as int];
                assert(entity_positions(world@) =~= entity_positions(earlier).push(cell));
                lemma_cells_of_push(entity_positions(earlier), cell);
                assert(world@.subrange(0, base.len() as int) =~= earlier.subrange(
                    0,
                    base.len() as int,
                ));
                if distinct_positions(before) {
                    assert forall|i: int| 0 <= i < earlier.len() implies entity_positions(
                        earlier,
                    )[i] != cell by {
                        if i < base.len() {
                            assert(earlier.subrange(0, base.len() as int)[i] == earlier[i]);
                            assert(entity_positions(base)[i] == entity_positions(earlier)[i]);
                            assert(occupied(before).contains(point(entity_positions(before)[i])));
                        } else {
                            let t = choose|t: int|
                                0 <= t < candidates@.take(k as int).len() && point(
                                    #[trigger] candidates@.take(k as int)[t],
                                ) == cell_of_entity(earlier[i]);
                            assert(candidates@[t] == candidates@.take(k as int)[t]);
                        }
                    }
                }
            }
        }
        proof {
            assert forall|c: Point|
                cells_of(candidates@.take(k + 1)).contains(c) && !occupied(before).contains(
                    c,
                ) implies #[trigger] occupied(world@).contains(c) by {
                if c != point(cell) {
                    assert(occupied(earlier).contains(c));
                    let t = choose|t: int|
                        0 <= t < entity_positions(earlier).len() && point(
                            #[trigger] entity_positions(earlier)[t],
                        ) == c;
                    assert(point(entity_positions(world@)[t]) == c);
                }
            }
        }
        k += 1;
    }
    proof {
        assert(candidates@.take(candidates@.len() as int) =~= candidates@);
        assert forall|i: int| 0 <= i < before.len() implies #[trigger] world@[i] == counted(
            before[i],
            occupied(before),
        ) by {
            assert(world@.subrange(0, base.len() as int)[i] == world@[i]);
        }
    }
}

/// Applies the rule to every entity and ends the generation: the entities
/// that the rule keeps stay, in their order and in their new state, the
/// others leave, and the generation counter advances by one.
pub fn cell_lifecycle_system(world: &mut CellWorld, generation: &mut u64)
    requires
        *old(generation) < u64::MAX,
        forall|i: int| 0 <= i < old(world)@.len() ==> (#[trigger] old(world)@[i]).state.generation < u64::MAX,
    ensures
        final(world)@ == entities_after_rule(old(world)@, *old(generation)),
        *final(generation) == *old(generation) + 1,
{
    let mut kept: Vec<CellEntity> = Vec::new();
    let mut i: usize = 0;
    proof {
        assert(world@.take(0) =~= Seq::<CellEntity>::empty());
    }
    while i < world.entities.len()
        invariant
            i <= world.entities.len(),
            world@ == old(world)@,
            *generation == *old(generation),
            *generation < u64::MAX,
            forall|j: int| 0 <= j < world@.len() ==> (#[trigger] world@[j]).state.generation < u64::MAX,
            kept@ == entities_after_rule(world@.take(i as int), *generation),
        decreases world.entities.len() - i,
    {
        let entity = world.entities[i];
        proof {
            assert(world@.take(i + 1).drop_last() =~= world@.take(i as int));
            assert(world@.take(i + 1).last() == entity);
        }
        if entity.state.alive {
            if entity.state.neighbor_count == 2 || entity.state.neighbor_count == 3 {
                kept.push(
                    CellEntity {
                        position: entity.position,
                        state: CellState {
                            alive: true,
                            generation: entity.state.generation + 1,
                            neighbor_count: 0,
                        },
                    },
                );
            }
        } else if entity.state.neighbor_count == 3 {
            kept.push(
                CellEntity {
                    position: entity.position,
                    state: CellState { alive: true, generation: *generation + 1, neighbor_count: 0 },
                },
            );
        }
        i += 1;
    }
    proof {
        assert(world@.take(world@.len() as int) =~= world@);
    }
    world.entities = kept;
    *generation = *generation + 1;
}

/// Applies the rule to every entity and ends the generation, as
/// `cell_lifecycle_system` does.
pub fn lifecycle_system(world: &mut CellWorld, generation: &mut u64)
    requires
        *old(generation) < u64::MAX,
        forall|i: int| 0 <= i < old(world)@.len() ==> (#[trigger] old(world)@[i]).state.generation < u64::MAX,
    ensures
        final(world)@ == entities_after_rule(old(world)@, *old(generation)),
        *final(generation) == *old(generation) + 1,
{
    cell_lifecycle_system(world, generation);
}

/// Removes the ghosts at which no cell is born: the dead entities whose
/// neighbour count is not three.
pub fn cleanup_system(world: &mut CellWorld)
    ensures
        final(world)@ == old(world)@.filter(|e: CellEntity| outlasts_cleanup(e)),
{
    let mut kept: Vec<CellEntity> = Vec::new();
    let mut i: usize = 0;
    let ghost keep = |e: CellEntity| outlasts_cleanup(e);
    proof {
        assert(world@.take(0) =~= Seq::<CellEntity>::empty());
        assert(kept@ =~= world@.take(0).filter(keep));
    }
    while i < world.entities.len()
        invariant
            i <= world.entities.len(),
            world@ == old(world)@,
            keep == |e: CellEntity| outlasts_cleanup(e),
            kept@ == world@.take(i as int).filter(keep),
        decreases world.entities.len() - i,
    {
        let entity = world.entities[i];
        proof {
            assert(world@.take(i + 1).drop_last() =~= world@.take(i as int));
            assert(world@.take(i + 1).last() == entity);
            reveal(Seq::filter);
        }
        if entity.state.alive || entity.state.neighbor_count == 3 {
            kept.push(entity);
        }
        i += 1;
    }
    proof {
        assert(world@.take(world@.len() as int) =~= world@);
    }
    world.entities = kept;
}

/// Whether every entity of the list is alive.
pub open spec fn all_alive(entities: Seq<CellEntity>) -> bool {
    forall|i: int| 0 <= i < entities.len() ==> (#[trigger] entities[i]).state.alive
}

/// Whether an entity of the list that the rule keeps stands at `c`.
pub open spec fn kept_at(entities: Seq<CellEntity>, c: Point) -> bool {
    exists|i: int|
        0 <= i < entities.len() && cell_of_entity(#[trigger] entities[i]) == c && rule(
            entities[i].state.alive,
            entities[i].state.neighbor_count as int,
        )
}

/// What the rule leaves of a list of entities: live entities, at the cells
/// of the entities that the rule keeps, and at distinct positions where
/// the entities stood at distinct positions.
pub proof fn lemma_after_rule(entities: Seq<CellEntity>, generation: u64)
    ensures
        all_alive(entities_after_rule(entities, generation)),
        forall|c: Point| #[trigger]
            occupied(entities_after_rule(entities, generation)).contains(c) <==> kept_at(
                entities,
                c,
            ),
        distinct_positions(entities) ==> distinct_positions(
            entities_after_rule(entities, generation),
        ),
    decreases entities.len(),
{
    let after = entities_after_rule(entities, generation);
    if entities.len() == 0 {
        assert(occupied(after) =~= Set::<Point>::empty());
    } else {
        let shorter = entities.drop_last();
        let earlier = entities_after_rule(shorter, generation);
        let last = entities.last();
        lemma_after_rule(shorter, generation);
        let kept = rule(last.state.alive, last.state.neighbor_count as int);
        if kept {
            assert(entity_positions(after) =~= entity_positions(earlier).push(
                (last.position.x, last.position.y),
            ));
            lemma_cells_of_push(entity_positions(earlier), (last.position.x, last.position.y));
        }
        let last_cell = cell_of_entity(last);
        assert(entities[entities.len() - 1] == last);
        assert forall|c: Point| #[trigger] occupied(after).contains(c) <==> kept_at(
            entities,
            c,
        ) by {
            if occupied(after).contains(c) {
                if occupied(earlier).contains(c) {
                    assert(kept_at(shorter, c));
                    let i = choose|i: int|
                        0 <= i < shorter.len() && cell_of_entity(#[trigger] shorter[i]) == c
                            && rule(shorter[i].state.alive, shorter[i].state.neighbor_count as int);
                    assert(entities[i] == shorter[i]);
                    assert(kept_at(entities, c));
                } else {
                    assert(kept);
                    assert(c == last_cell);
                    assert(kept_at(entities, c));
                }
            }
            if kept_at(entities, c) {
                let i = choose|i: int|
                    0 <= i < entities.len() && cell_of_entity(#[trigger] entities[i]) == c && rule(
                        entities[i].state.alive,
                        entities[i].state.neighbor_count as int,
                    );
                if i < shorter.len() {
                    assert(shorter[i] == entities[i]);
                    assert(kept_at(shorter, c));
                    assert(occupied(earlier).contains(c));
                } else {
                    assert(kept);
                    assert(c == last_cell);
                }
                assert(occupied(after).contains(c));
            }
        }
        if distinct_positions(entities) {
            assert(entity_positions(shorter) =~= entity_positions(entities).drop_last());
            assert(distinct_positions(shorter));
            if kept {
                assert forall|j: int| 0 <= j < earlier.len() implies entity_positions(earlier)[j]
                    != (last.position.x, last.position.y) by {
                    let c = point(entity_positions(earlier)[j]);
                    assert(occupied(earlier).contains(c));
                    let i = choose|i: int|
                        0 <= i < shorter.len() && cell_of_entity(#[trigger] shorter[i]) == c
                            && rule(shorter[i].state.alive, shorter[i].state.neighbor_count as int);
                    assert(entity_positions(entities)[i] == (
                        shorter[i].position.x,
                        shorter[i].position.y,
                    ));
                    assert(entity_positions(entities)[entities.len() - 1] == (
                        last.position.x,
                        last.position.y,
                    ));
                }
            }
        }
    }
}

/// The clean-up removes no live entity.
pub proof fn lemma_cleanup_keeps_alive(entities: Seq<CellEntity>)
    requires
        all_alive(entities),
    ensures
        entities.filter(|e: CellEntity| outlasts_cleanup(e)) == entities,
    decreases entities.len(),
{
    reveal(Seq::filter);
    if entities.len() > 0 {
        lemma_cleanup_keeps_alive(entities.drop_last());
        assert(entities.drop_last().push(entities.last()) =~= entities);
    }
}

/// One generation of a world: counts the neighbours, applies the rule and
/// cleans up.  Where every entity is alive and no two stand at one
/// position, the world afterwards holds exactly the next generation of the
/// unbounded grid: live entities, at distinct positions.
pub fn run_generation(world: &mut CellWorld, generation: &mut u64)
    requires
        *old(generation) < u64::MAX,
        forall|i: int|
            0 <= i < old(world)@.len() ==> (#[trigger] old(world)@[i]).state.generation
                < u64::MAX,
        all_alive(old(world)@),
        distinct_positions(old(world)@),
    ensures
        *final(generation) == *old(generation) + 1,
        occupied(final(world)@) == next_generation(
            occupied(old(world)@),
            BoundaryPolicy::Unbounded,
        ),
        all_alive(final(world)@),
        distinct_positions(final(world)@),
{
    let ghost before = world@;
    let ghost around = occupied(before);
    neighbor_counting_system(world);
    let ghost prepared = world@;
    proof {
        assert forall|i: int| 0 <= i < prepared.len() implies (
        #[trigger] prepared[i]).state.generation < u64::MAX by {
            if i < before.len() {
                assert(prepared[i] == counted(before[i], around));
            } else {
                assert(is_ghost(prepared[i], around));
            }
        }
    }
    cell_lifecycle_system(world, generation);
    let ghost ruled = world@;
    cleanup_system(world);
    proof {
        lemma_after_rule(prepared, *old(generation));
        lemma_cleanup_keeps_alive(ruled);
        let policy = BoundaryPolicy::Unbounded;
        assert forall|c: Point| occupied(ruled).contains(c) <==> next_generation(
            around,
            policy,
        ).contains(c) by {
            if occupied(ruled).contains(c) {
                assert(kept_at(prepared, c));
                let i = choose|i: int|
                    0 <= i < prepared.len() && cell_of_entity(#[trigger] prepared[i]) == c
                        && rule(prepared[i].state.alive, prepared[i].state.neighbor_count as int);
                if i < before.len() {
                    assert(prepared[i] == counted(before[i], around));
                    assert(point(entity_positions(before)[i]) == c);
                    assert(around.contains(c));
                } else {
                    assert(is_ghost(prepared[i], around));
                }
            }
            if next_generation(around, policy).contains(c) {
                if around.contains(c) {
                    let i = choose|i: int|
                        0 <= i < entity_positions(before).len() && point(
                            #[trigger] entity_positions(before)[i],
                        ) == c;
                    assert(prepared[i] == counted(before[i], around));
                    assert(cell_of_entity(prepared[i]) == c);
                    assert(kept_at(prepared, c));
                } else {
                    assert(occupied(prepared).contains(c));
                    let i = choose|i: int|
                        0 <= i < entity_positions(prepared).len() && point(
                            #[trigger] entity_positions(prepared)[i],
                        ) == c;
                    assert(cell_of_entity(prepared[i]) == c);
                    if i < before.len() {
                        assert(prepared[i] == counted(before[i], around));
                        assert(point(entity_positions(before)[i]) == c);
                    } else {
                        assert(is_ghost(prepared[i], around));
                    }
                    assert(kept_at(prepared, c));
                }
            }
        }
        assert(occupied(ruled) =~= next_generation(around, policy));
    }
}

} // verus!
