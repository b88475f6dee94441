//! The service: the requests that a server answers, each as a function from
//! the registry and a request to the new registry and a response.
//!
//! The functions here take and return plain values.  Transport, locking and
//! timing are the caller's business: a server that shares the registry
//! among tasks calls these functions while it holds the registry's lock.

use crate::cell_set::{cells_of, lemma_listing_len};
use crate::components::{CellState, Position};
use crate::coords::{point, Point};
use crate::life::in_grid;
use crate::registry::{is_new_simulation, uptime_from, uptime_of, Simulations};
use crate::simulation::{
    cells_after, cells_with_pattern, count_from, count_of, live_cells, pattern_additions,
    pattern_targets, small_count_of, SimulationData,
};
use vstd::prelude::*;
use vstd::string::{StrSliceExecFns, StringExecFns};

verus! {

/// Why a request failed.
#[derive(Debug, Clone)]
pub enum ServiceError {
    /// The request's parameters are malformed.
    InvalidArgument(String),
    /// The simulation that the request names does not exist.
    NotFound(String),
    /// The registry is in a state that the request cannot be served from.
    Internal(String),
}

/// The kinds of failure.
#[derive(Debug, Clone, Copy, PartialEq, Eq, Structural)]
pub enum ErrorKind {
    InvalidArgument,
    NotFound,
    Internal,
}

impl ServiceError {
    /// The kind of the failure.
    pub open spec fn kind_spec(&self) -> ErrorKind {
        match *self {
            ServiceError::InvalidArgument(_) => ErrorKind::InvalidArgument,
            ServiceError::NotFound(_) => ErrorKind::NotFound,
            ServiceError::Internal(_) => ErrorKind::Internal,
        }
    }

    /// The text of the failure.
    pub open spec fn text(&self) -> Seq<char> {
        match *self {
            ServiceError::InvalidArgument(message) => message@,
            ServiceError::NotFound(message) => message@,
            ServiceError::Internal(message) => message@,
        }
    }

    /// The kind of the failure.
    #[verifier::when_used_as_spec(kind_spec)]
    pub fn kind(&self) -> (kind: ErrorKind)
        ensures
            kind == self.kind_spec(),
    {
        match self {
            ServiceError::InvalidArgument(_) => ErrorKind::InvalidArgument,
            ServiceError::NotFound(_) => ErrorKind::NotFound,
            ServiceError::Internal(_) => ErrorKind::Internal,
        }
    }

    /// The text of the failure.
    pub fn message(&self) -> (message: String)
        ensures
            message@ == self.text(),
    {
        match self {
            ServiceError::InvalidArgument(message) => message.clone(),
            ServiceError::NotFound(message) => message.clone(),
            ServiceError::Internal(message) => message.clone(),
        }
    }
}

/// The failure that says that a simulation does not exist.
pub open spec fn is_not_found(error: ServiceError) -> bool {
    error.kind() == ErrorKind::NotFound && error.text() == "Simulation not found"@
}

/// The failure that says that a simulation does not exist.
pub fn not_found() -> (error: ServiceError)
    ensures
        is_not_found(error),
{
    ServiceError::NotFound("Simulation not found".to_string())
}

/// The failure that says that a generation counter cannot count further.
pub open spec fn is_exhausted(error: ServiceError) -> bool {
    error.kind() == ErrorKind::Internal && error.text() == "Generation counter exhausted"@
}

/// The failure that says that a generation counter cannot count further.
pub fn exhausted() -> (error: ServiceError)
    ensures
        is_exhausted(error),
{
    ServiceError::Internal("Generation counter exhausted".to_string())
}

/// A cell in a response or a request.
#[derive(Debug, Clone, Copy, PartialEq, Eq, Structural)]
pub struct Cell {
    pub x: i32,
    pub y: i32,
    pub alive: bool,
    pub neighbors: i32,
}

/// The size of a grid.
#[derive(Debug, Clone, Copy, PartialEq, Eq, Structural)]
pub struct GridInfo {
    pub width: i32,
    pub height: i32,
}

/// A pattern: a name, its credits and its cells relative to its origin.
#[derive(Debug, Clone)]
pub struct Pattern {
    pub name: String,
    pub description: String,
    pub author: String,
    pub cells: Vec<Position>,
}

/// The answer to a status request.
#[derive(Debug, Clone)]
pub struct StatusResponse {
    pub status: String,
    pub version: String,
    pub implementation: String,
    pub uptime_seconds: i64,
}

/// The request to create a simulation.
#[derive(Debug, Clone)]
pub struct CreateSimulationRequest {
    pub width: i32,
    pub height: i32,
    pub initial_pattern: String,
}

/// The request for a simulation's state.
#[derive(Debug, Clone)]
pub struct GetSimulationRequest {
    pub id: String,
}

/// The request to change a simulation's generation counter or cells.
#[derive(Debug, Clone)]
pub struct UpdateSimulationRequest {
    pub id: String,
    pub generation: i64,
    pub cells: Vec<Cell>,
}

/// The request to delete a simulation.
#[derive(Debug, Clone)]
pub struct DeleteSimulationRequest {
    pub id: String,
}

/// The request to advance a simulation.
#[derive(Debug, Clone)]
pub struct StepSimulationRequest {
    pub id: String,
    pub steps: i32,
}

/// The request to put a pattern on a simulation's grid.
#[derive(Debug, Clone)]
pub struct LoadPatternRequest {
    pub id: String,
    pub pattern: Option<Pattern>,
    pub position: Option<Position>,
}

/// The request to follow a simulation.
#[derive(Debug, Clone)]
pub struct StreamRequest {
    pub id: String,
    pub auto_step: bool,
    pub step_interval_ms: i32,
}

/// The state of a simulation, as responses carry it.
#[derive(Debug, Clone)]
pub struct SimulationResponse {
    pub id: String,
    pub generation: i64,
    pub live_cells: i64,
    pub grid: Option<GridInfo>,
    pub cells: Vec<Cell>,
}

/// The answer to a delete request.
#[derive(Debug, Clone)]
pub struct DeleteResponse {
    pub success: bool,
    pub message: String,
}

/// The answer to a step request.
#[derive(Debug, Clone)]
pub struct StepResponse {
    pub generation: i64,
    pub live_cells: i64,
    pub changed_cells: i64,
}

/// The answer to a request to load a pattern.
#[derive(Debug, Clone)]
pub struct LoadPatternResponse {
    pub success: bool,
    pub cells_added: i32,
    pub message: String,
}

/// One event of a stream.
#[derive(Debug, Clone)]
pub struct SimulationUpdate {
    pub generation: i64,
    pub live_cells: i64,
    pub changed_cells: Vec<Cell>,
    pub simulation_ended: bool,
}

/// The positions of a list of cells.
pub open spec fn positions_of(cells: Seq<Cell>) -> Seq<(i32, i32)> {
    cells.map_values(|c: Cell| (c.x, c.y))
}

/// Whether `cells` reports the live cells of `states`: each live cell once,
/// marked alive, with the neighbour count that its state holds.
pub open spec fn reports_live(cells: Seq<Cell>, states: Map<Point, CellState>) -> bool {
    &&& cells_of(positions_of(cells)) == live_cells(states)
    &&& positions_of(cells).no_duplicates()
    &&& forall|i: int|
        0 <= i < cells.len() ==> (#[trigger] cells[i]).alive && cells[i].neighbors
            == states[(cells[i].x as int, cells[i].y as int)].neighbor_count
}

/// Whether `response` reports the state of `simulation` under the
/// identifier `id`.
pub open spec fn reports(response: SimulationResponse, id: Seq<char>, simulation: SimulationData) -> bool {
    &&& response.id@ == id
    &&& response.generation == simulation.generation as i64
    &&& response.live_cells == count_of(live_cells(simulation.cells@).len())
    &&& response.grid == Some(GridInfo { width: simulation.width, height: simulation.height })
    &&& reports_live(response.cells@, simulation.cells@)
}

/// The largest width and the largest height of a grid that the service
/// creates.
pub open spec fn max_dimension() -> int {
    1000
}

/// The live cells of `simulation`, as responses list them.
pub fn live_cell_report(simulation: &SimulationData) -> (cells: Vec<Cell>)
    ensures
        reports_live(cells@, simulation.cells@),
        live_cells(simulation.cells@).finite(),
        cells@.len() == live_cells(simulation.cells@).len(),
{
    let live = simulation.get_live_cells();
    let mut cells: Vec<Cell> = Vec::new();
    let mut i: usize = 0;
    proof {
        lemma_listing_len(live@);
        assert(positions_of(cells@) =~= live@.take(0));
    }
    while i < live.len()
        invariant
            i <= live.len(),
            cells_of(live@) == live_cells(simulation.cells@),
            cells@.len() == i,
            positions_of(cells@) == live@.take(i as int),
            forall|j: int|
                0 <= j < cells@.len() ==> (#[trigger] cells@[j]).alive && cells@[j].neighbors
                    == simulation.cells@[(
                    cells@[j].x as int,
                    cells@[j].y as int,
                )].neighbor_count,
        decreases live.len() - i,
    {
        let (x, y) = live[i];
        proof {
            assert(cells_of(live@).contains(point(live@[i as int])));
        }
        let neighbors: i32 = match simulation.cells.get((x, y)) {
            Some(state) => state.neighbor_count as i32,
            None => 0,
        };
        let ghost before = cells@;
        cells.push(Cell { x, y, alive: true, neighbors });
        proof {
            assert forall|j: int| 0 <= j < i + 1 implies positions_of(cells@)[j] == live@.take(
                i + 1,
            )[j] by {
                if j < i {
                    assert(positions_of(before)[j] == live@.take(i as int)[j]);
                }
            }
            assert(positions_of(cells@) =~= live@.take(i + 1));
        }
        i += 1;
    }
    proof {
        assert(live@.take(live@.len() as int) =~= live@);
    }
    cells
}

/// The state of `simulation`, as responses carry it under the identifier
/// `id`.
pub fn simulation_response(id: &str, simulation: &SimulationData) -> (response: SimulationResponse)
    ensures
        reports(response, id@, *simulation),
{
    let cells = live_cell_report(simulation);
    SimulationResponse {
        id: id.to_string(),
        generation: simulation.generation as i64,
        live_cells: count_from(cells.len()),
        grid: Some(GridInfo { width: simulation.width, height: simulation.height }),
        cells,
    }
}

/// Whether `after` differs from `before` at the identifier `id` at most,
/// where both hold a simulation.
pub open spec fn touches_only(
    before: Map<Seq<char>, SimulationData>,
    after: Map<Seq<char>, SimulationData>,
    id: Seq<char>,
) -> bool {
    before.contains_key(id) && after == before.insert(id, after[id])
}

/// The state that an update request gives one cell.
pub open spec fn updated_state(cell: Cell, generation: u64) -> CellState {
    CellState { alive: cell.alive, generation, neighbor_count: cell.neighbors as u8 }
}

/// The cells that an update request sets: for each position of the grid
/// that the request lists, the state that the last cell listed for it
/// gives.  Cells outside the grid are dropped.
pub open spec fn updated_cells(cells: Seq<Cell>, width: int, height: int, generation: u64) -> Map<
    Point,
    CellState,
>
    decreases cells.len(),
{
    if cells.len() == 0 {
        Map::empty()
    } else {
        let earlier = updated_cells(cells.drop_last(), width, height, generation);
        let cell = cells.last();
        if in_grid((cell.x as int, cell.y as int), width, height) {
            earlier.insert((cell.x as int, cell.y as int), updated_state(cell, generation))
        } else {
            earlier
        }
    }
}

/// The generation counter after an update request: the requested one where
/// it is positive, the old one otherwise.
pub open spec fn updated_generation(generation: u64, requested: i64) -> u64 {
    if requested > 0 {
        requested as u64
    } else {
        generation
    }
}

/// Whether `after` is `before` as an update request with the given
/// generation and cells leaves it: an empty list of cells leaves the cells
/// as they are.
pub open spec fn is_updated(
    before: SimulationData,
    after: SimulationData,
    generation: i64,
    cells: Seq<Cell>,
) -> bool {
    &&& after.same_frame(&before)
    &&& after.generation == updated_generation(before.generation, generation)
    &&& after.cells@ == if cells.len() == 0 {
        before.cells@
    } else {
        updated_cells(cells, before.width as int, before.height as int, after.generation)
    }
}

/// The number of generations that a step request advances: one where it
/// asks for none or fewer.
pub open spec fn steps_of(requested: i32) -> nat {
    if requested <= 0 {
        1
    } else {
        requested as nat
    }
}

/// Whether `after` is `before` advanced by `steps` generations.
pub open spec fn is_advanced(before: SimulationData, after: SimulationData, steps: nat) -> bool {
    &&& after.same_frame(&before)
    &&& after.generation == before.generation + steps
    &&& after.cells@ == cells_after(
        before.cells@,
        before.policy(),
        before.generation as int,
        steps,
    )
}

/// The distance between two counts.
pub open spec fn distance(a: int, b: int) -> int {
    if a >= b {
        a - b
    } else {
        b - a
    }
}

/// What a step leaves behind: the generation reached, the number of live
/// cells and the distance between that number and the number before.
#[derive(Debug, Clone, Copy, PartialEq, Eq, Structural)]
pub struct StepResult {
    pub generation: u64,
    pub live_cell_count: i64,
    pub changed_cell_count: i64,
}

/// Whether `result` is what a step from `before` to `after` leaves behind.
pub open spec fn is_step_result(result: StepResult, before: SimulationData, after: SimulationData) -> bool {
    &&& result.generation == after.generation
    &&& result.live_cell_count == count_of(live_cells(after.cells@).len())
    &&& result.changed_cell_count == distance(
        count_of(live_cells(before.cells@).len()),
        count_of(live_cells(after.cells@).len()),
    )
}

/// The answer to a step request that advances `before` by `steps`
/// generations: the generation reached, the number of live cells then, and
/// the distance between that number and the number before.  It depends on
/// nothing but the simulation and the number of steps.
pub open spec fn step_response_of(before: SimulationData, steps: nat) -> StepResponse {
    let cells = cells_after(before.cells@, before.policy(), before.generation as int, steps);
    StepResponse {
        generation: ((before.generation + steps) as u64) as i64,
        live_cells: count_of(live_cells(cells).len()) as i64,
        changed_cells: distance(
            count_of(live_cells(before.cells@).len()),
            count_of(live_cells(cells).len()),
        ) as i64,
    }
}

/// Whether a step request that asks for `steps` generations of `before`
/// succeeds: the generation counter can count that far.
pub open spec fn can_advance(before: SimulationData, steps: nat) -> bool {
    before.generation + steps <= u64::MAX
}

/// The positions of a pattern's cells.
pub open spec fn pattern_positions(cells: Seq<Position>) -> Seq<(i32, i32)> {
    cells.map_values(|p: Position| (p.x, p.y))
}

/// The text that reports a loaded pattern.
pub open spec fn loaded_text(name: Seq<char>) -> Seq<char> {
    "Pattern '"@ + name + "' loaded successfully"@
}

/// The text that reports that a pattern added no cell.
pub open spec fn nothing_added_text() -> Seq<char> {
    "No cells were added (pattern outside grid or cells already exist)"@
}

/// Whether `after` is `before` with `pattern` put at `position`.
pub open spec fn has_pattern(
    before: SimulationData,
    after: SimulationData,
    pattern: Seq<Position>,
    position: Position,
) -> bool {
    &&& after.same_frame(&before)
    &&& after.generation == before.generation
    &&& after.cells@ == cells_with_pattern(
        before.cells@,
        pattern_targets(
            pattern_positions(pattern),
            position.x as int,
            position.y as int,
            before.width as int,
            before.height as int,
        ),
    )
}

/// The number of cells that `pattern` adds to `before` at `position`: the
/// cells of the grid on which it lands that are not alive.
pub open spec fn cells_added_by(before: SimulationData, pattern: Seq<Position>, position: Position) -> int {
    small_count_of(
        pattern_additions(
            before.cells@,
            pattern_targets(
                pattern_positions(pattern),
                position.x as int,
                position.y as int,
                before.width as int,
                before.height as int,
            ),
        ).len(),
    )
}

/// Changes `simulation` as an update request asks: the generation counter
/// becomes the requested one where that is positive, and a list of cells
/// that is not empty replaces the cells.
pub fn apply_update(simulation: &mut SimulationData, generation: i64, cells: &[Cell])
    ensures
        is_updated(*old(simulation), *final(simulation), generation, cells@),
{
    if generation > 0 {
        simulation.generation = generation as u64;
    }
    if cells.len() > 0 {
        simulation.cells.clear();
        let mut i: usize = 0;
        let ghost width = simulation.width as int;
        let ghost height = simulation.height as int;
        proof {
            assert(cells@.take(0) =~= Seq::<Cell>::empty());
        }
        while i < cells.len()
            invariant
                i <= cells.len(),
                width == simulation.width,
                height == simulation.height,
                simulation.same_frame(old(simulation)),
                simulation.generation == updated_generation(old(simulation).generation, generation),
                simulation.cells@ == updated_cells(
                    cells@.take(i as int),
                    width,
                    height,
                    simulation.generation,
                ),
            decreases cells.len() - i,
        {
            let cell = cells[i];
            proof {
                assert(cells@.take(i + 1).drop_last() =~= cells@.take(i as int));
                assert(cells@.take(i + 1).last() == cell);
            }
            if cell.x >= 0 && cell.x < simulation.width && cell.y >= 0 && cell.y
                < simulation.height {
                simulation.cells.insert(
                    (cell.x, cell.y),
                    CellState {
                        alive: cell.alive,
                        generation: simulation.generation,
                        neighbor_count: cell.neighbors as u8,
                    },
                );
            }
            i += 1;
        }
        proof {
            assert(cells@.take(cells@.len() as int) =~= cells@);
        }
    }
}

/// The step controller: advances the simulation under `id` by `steps`
/// generations, one where `steps` is not positive, and reports the
/// generation reached, the live cells and the distance between their
/// number before and after.  Fails where no simulation stands under `id`,
/// and where the generation counter cannot count that far.
pub fn step(simulations: &mut Simulations, id: &str, steps: i32) -> (result: Result<
    StepResult,
    ServiceError,
>)
    requires
        old(simulations).wf(),
    ensures
        final(simulations).wf(),
        final(simulations).started() == old(simulations).started(),
        match result {
            Ok(outcome) => {
                &&& touches_only(old(simulations)@, final(simulations)@, id@)
                &&& is_advanced(old(simulations)@[id@], final(simulations)@[id@], steps_of(steps))
                &&& is_step_result(outcome, old(simulations)@[id@], final(simulations)@[id@])
            },
            Err(error) => {
                &&& final(simulations)@ == old(simulations)@
                &&& if !old(simulations)@.contains_key(id@) {
                    is_not_found(error)
                } else {
                    &&& old(simulations)@[id@].generation + steps_of(steps) > u64::MAX
                    &&& is_exhausted(error)
                }
            },
        },
{
    let count: u32 = if steps <= 0 {
        1
    } else {
        steps as u32
    };
    match simulations.get_simulation_mut(id) {
        Some(simulation) => {
            if simulation.generation > u64::MAX - count as u64 {
                proof {
                    assert(old(simulations)@.insert(id@, *simulation) =~= old(simulations)@);
                }
                return Err(exhausted());
            }
            let initial_cells = simulation.get_live_cell_count();
            simulation.advance(count);
            let final_cells = simulation.get_live_cell_count();
            let changed_cells = if initial_cells >= final_cells {
                initial_cells - final_cells
            } else {
                final_cells - initial_cells
            };
            Ok(
                StepResult {
                    generation: simulation.generation,
                    live_cell_count: final_cells,
                    changed_cell_count: changed_cells,
                },
            )
        },
        None => Err(not_found()),
    }
}

/// The positions of a pattern's cells.
pub fn positions_of_pattern(cells: &[Position]) -> (positions: Vec<(i32, i32)>)
    ensures
        positions@ == pattern_positions(cells@),
{
    let mut positions: Vec<(i32, i32)> = Vec::new();
    let mut i: usize = 0;
    while i < cells.len()
        invariant
            i <= cells.len(),
            positions@.len() == i,
            forall|j: int| 0 <= j < i ==> #[trigger] positions@[j] == (cells@[j].x, cells@[j].y),
        decreases cells.len() - i,
    {
        positions.push((cells[i].x, cells[i].y));
        i += 1;
    }
    proof {
        assert(positions@ =~= pattern_positions(cells@));
    }
    positions
}

/// Isolation: two requests that each touch one simulation, under different
/// identifiers, do not see each other.  The second leaves what the first
/// made of its simulation, the first left the second's simulation as it
/// was, and no third simulation is touched.
pub proof fn law_isolation(
    before: Map<Seq<char>, SimulationData>,
    between: Map<Seq<char>, SimulationData>,
    after: Map<Seq<char>, SimulationData>,
    first: Seq<char>,
    second: Seq<char>,
)
    requires
        first != second,
        touches_only(before, between, first),
        touches_only(between, after, second),
    ensures
        after.dom() == before.dom(),
        after[first] == between[first],
        between[second] == before[second],
        forall|other: Seq<char>|
            other != first && other != second && before.contains_key(other) ==> after[other]
                == before[other],
{
    assert(after.dom() =~= before.dom());
}

/// Steps under different identifiers commute: whichever of two simulations
/// is advanced first, each ends at the same generation with the same cells.
pub proof fn law_steps_commute(
    before: Map<Seq<char>, SimulationData>,
    first_then: Map<Seq<char>, SimulationData>,
    first_then_second: Map<Seq<char>, SimulationData>,
    second_then: Map<Seq<char>, SimulationData>,
    second_then_first: Map<Seq<char>, SimulationData>,
    first: Seq<char>,
    second: Seq<char>,
    first_steps: nat,
    second_steps: nat,
)
    requires
        first != second,
        touches_only(before, first_then, first),
        is_advanced(before[first], first_then[first], first_steps),
        touches_only(first_then, first_then_second, second),
        is_advanced(first_then[second], first_then_second[second], second_steps),
        touches_only(before, second_then, second),
        is_advanced(before[second], second_then[second], second_steps),
        touches_only(second_then, second_then_first, first),
        is_advanced(second_then[first], second_then_first[first], first_steps),
    ensures
        first_then_second[first].generation == second_then_first[first].generation,
        first_then_second[first].cells@ == second_then_first[first].cells@,
        first_then_second[second].generation == second_then_first[second].generation,
        first_then_second[second].cells@ == second_then_first[second].cells@,
{
}

/// A step is as if it were made alone.  The requests of the service are
/// made one at a time (a server that shares the registry makes each under
/// the registry's lock), so that two steps under different identifiers
/// come in one order or the other.  Whatever a request under `other` made
/// of its own simulation before, the step under `id` finds its simulation
/// as it was: it succeeds on the same condition, gives the same answer and
/// leaves the same generation and cells as the same step made alone, and
/// it leaves what the other request made of the other simulation.
pub proof fn law_step_as_if_alone(
    before: Map<Seq<char>, SimulationData>,
    after_other: Map<Seq<char>, SimulationData>,
    after_both: Map<Seq<char>, SimulationData>,
    alone: Map<Seq<char>, SimulationData>,
    id: Seq<char>,
    other: Seq<char>,
    steps: nat,
)
    requires
        id != other,
        before.contains_key(id),
        touches_only(before, after_other, other),
        touches_only(after_other, after_both, id),
        is_advanced(after_other[id], after_both[id], steps),
        touches_only(before, alone, id),
        is_advanced(before[id], alone[id], steps),
    ensures
        after_other[id] == before[id],
        can_advance(after_other[id], steps) == can_advance(before[id], steps),
        step_response_of(after_other[id], steps) == step_response_of(before[id], steps),
        after_both[id].generation == alone[id].generation,
        after_both[id].cells@ == alone[id].cells@,
        after_both[other] == after_other[other],
{
}

/// The answer to a step reports the simulation that the step leaves: its
/// generation, as the signed number of the same bits, and the number of its
/// live cells.
pub proof fn law_step_response_reports(before: SimulationData, after: SimulationData, steps: nat)
    requires
        can_advance(before, steps),
        is_advanced(before, after, steps),
    ensures
        step_response_of(before, steps).generation == after.generation as i64,
        step_response_of(before, steps).live_cells == count_of(live_cells(after.cells@).len()),
        step_response_of(before, steps).changed_cells == distance(
            count_of(live_cells(before.cells@).len()),
            count_of(live_cells(after.cells@).len()),
        ),
        0 <= before.generation + steps <= i64::MAX ==> step_response_of(before, steps).generation
            == before.generation + steps,
{
}

/// Deletion: a registry from which an identifier was removed holds no
/// simulation under it, so that every later request that names it finds
/// nothing; the other simulations stay.
pub proof fn law_deleted_is_gone(before: Map<Seq<char>, SimulationData>, id: Seq<char>)
    ensures
        !before.remove(id).contains_key(id),
        forall|other: Seq<char>|
            other != id && before.contains_key(other) ==> before.remove(id).contains_key(other)
                && before.remove(id)[other] == before[other],
{
}

/// Loading a pattern twice: where `after` is `before` with a pattern put at
/// a position, every cell of the grid on which the pattern lands is alive,
/// and putting the same pattern at the same position again adds no cell and
/// leaves the cells as they are.
pub proof fn law_load_pattern_twice(
    before: SimulationData,
    after: SimulationData,
    again: SimulationData,
    pattern: Seq<Position>,
    position: Position,
)
    requires
        has_pattern(before, after, pattern, position),
        has_pattern(after, again, pattern, position),
    ensures
        live_cells(after.cells@) == live_cells(before.cells@).union(
            pattern_targets(
                pattern_positions(pattern),
                position.x as int,
                position.y as int,
                before.width as int,
                before.height as int,
            ),
        ),
        cells_added_by(after, pattern, position) == 0,
        again.cells@ == after.cells@,
{
    let targets = pattern_targets(
        pattern_positions(pattern),
        position.x as int,
        position.y as int,
        before.width as int,
        before.height as int,
    );
    crate::simulation::law_pattern_idempotent(before.cells@, targets);
    crate::simulation::law_pattern_live_cells(before.cells@, targets);
}

/// Whether `response` is the answer to a status request made when the
/// clock said that `elapsed` had passed since the server started.
pub open spec fn is_status(response: StatusResponse, elapsed: Option<u64>) -> bool {
    &&& response.status@ == "healthy"@
    &&& response.version@ == "1.0.0"@
    &&& response.implementation@ == "bevy"@
    &&& response.uptime_seconds == uptime_of(elapsed)
}

/// The answer to a status request made when the clock says that `elapsed`
/// has passed since the server started.
pub fn status_response(elapsed: Option<u64>) -> (response: StatusResponse)
    ensures
        is_status(response, elapsed),
{
    StatusResponse {
        status: "healthy".to_string(),
        version: "1.0.0".to_string(),
        implementation: "bevy".to_string(),
        uptime_seconds: uptime_from(elapsed),
    }
}

/// The service.
pub struct GameOfLifeServiceImpl {
    pub simulations: Simulations,
}

impl GameOfLifeServiceImpl {
    /// The registry holds no identifier twice.
    pub open spec fn wf(&self) -> bool {
        self.simulations.wf()
    }

    /// A service with an empty registry.
    pub fn new() -> (service: GameOfLifeServiceImpl)
        ensures
            service.wf(),
            service.simulations@ == Map::<Seq<char>, SimulationData>::empty(),
    {
        GameOfLifeServiceImpl { simulations: Simulations::new() }
    }

    /// Answers a status request: the service is healthy, and has been up
    /// for as long as the system clock says, which is never less than no
    /// time.
    pub fn get_status(&self) -> (response: StatusResponse)
        ensures
            response.status@ == "healthy"@,
            response.version@ == "1.0.0"@,
            response.implementation@ == "bevy"@,
            0 <= response.uptime_seconds,
    {
        status_response(self.simulations.elapsed_seconds())
    }

    /// Creates a simulation.  Both dimensions must be positive and neither
    /// may exceed the largest dimension; otherwise the request is refused as
    /// an invalid argument and the registry stays as it is.
    pub fn create_simulation(&mut self, request: CreateSimulationRequest) -> (result: Result<
        SimulationResponse,
        ServiceError,
    >)
        requires
            old(self).wf(),
        ensures
            final(self).wf(),
            final(self).simulations.started() == old(self).simulations.started(),
            match result {
                Ok(response) => {
                    &&& 0 < request.width <= max_dimension()
                    &&& 0 < request.height <= max_dimension()
                    &&& response.id@.len() == 36
                    &&& final(self).simulations@.dom() == old(self).simulations@.dom().insert(
                        response.id@,
                    )
                    &&& is_new_simulation(
                        final(self).simulations@[response.id@],
                        response.id@,
                        request.width,
                        request.height,
                    )
                    &&& forall|other: Seq<char>|
                        other != response.id@ && old(self).simulations@.contains_key(other)
                            ==> final(self).simulations@[other] == old(self).simulations@[other]
                    &&& reports(response, response.id@, final(self).simulations@[response.id@])
                    &&& response.generation == 0
                    &&& response.live_cells == 0
                    &&& response.cells@.len() == 0
                },
                Err(error) => {
                    &&& final(self).simulations@ == old(self).simulations@
                    &&& error.kind() == ErrorKind::InvalidArgument
                    &&& if request.width <= 0 || request.height <= 0 {
                        error.text() == "Width and height must be positive"@
                    } else {
                        &&& request.width > max_dimension() || request.height > max_dimension()
                        &&& error.text() == "Grid size too large (max 1000x1000)"@
                    }
                },
            },
    {
        if request.width <= 0 || request.height <= 0 {
            return Err(
                ServiceError::InvalidArgument("Width and height must be positive".to_string()),
            );
        }
        if request.width > 1000 || request.height > 1000 {
            return Err(
                ServiceError::InvalidArgument("Grid size too large (max 1000x1000)".to_string()),
            );
        }
        let pattern = if request.initial_pattern.as_str().unicode_len() == 0 {
            None
        } else {
            Some(request.initial_pattern)
        };
        let id = self.simulations.create_simulation(request.width, request.height, pattern);
        match self.simulations.get_simulation(id.as_str()) {
            Some(simulation) => {
                let response = simulation_response(id.as_str(), simulation);
                proof {
                    assert(live_cells(simulation.cells@) =~= Set::<Point>::empty());
                    lemma_listing_len(positions_of(response.cells@));
                }
                Ok(response)
            },
            None => {
                proof {
                    assert(self.simulations@.dom().contains(id@));
                }
                Err(not_found())
            },
        }
    }

    /// Answers the state of a simulation, or that it does not exist.
    pub fn get_simulation(&self, request: GetSimulationRequest) -> (result: Result<
        SimulationResponse,
        ServiceError,
    >)
        requires
            self.wf(),
        ensures
            match result {
                Ok(response) => {
                    &&& self.simulations@.contains_key(request.id@)
                    &&& reports(response, request.id@, self.simulations@[request.id@])
                },
                Err(error) => !self.simulations@.contains_key(request.id@) && is_not_found(error),
            },
    {
        match self.simulations.get_simulation(request.id.as_str()) {
            Some(simulation) => Ok(simulation_response(request.id.as_str(), simulation)),
            None => Err(not_found()),
        }
    }

    /// Deletes a simulation.  Deleting one that does not exist is no
    /// failure: the response says that nothing was there.
    pub fn delete_simulation(&mut self, request: DeleteSimulationRequest) -> (response:
        DeleteResponse)
        requires
            old(self).wf(),
        ensures
            final(self).wf(),
            final(self).simulations.started() == old(self).simulations.started(),
            final(self).simulations@ == old(self).simulations@.remove(request.id@),
            response.success == old(self).simulations@.contains_key(request.id@),
            response.message@ == if response.success {
                "Simulation deleted successfully"@
            } else {
                "Simulation not found"@
            },
    {
        let success = self.simulations.delete_simulation(request.id.as_str());
        DeleteResponse {
            success,
            message: if success {
                "Simulation deleted successfully".to_string()
            } else {
                "Simulation not found".to_string()
            },
        }
    }

    /// Changes a simulation's generation counter, its cells, or both, and
    /// answers the state that results.
    pub fn update_simulation(&mut self, request: UpdateSimulationRequest) -> (result: Result<
        SimulationResponse,
        ServiceError,
    >)
        requires
            old(self).wf(),
        ensures
            final(self).wf(),
            final(self).simulations.started() == old(self).simulations.started(),
            match result {
                Ok(response) => {
                    &&& touches_only(old(self).simulations@, final(self).simulations@, request.id@)
                    &&& is_updated(
                        old(self).simulations@[request.id@],
                        final(self).simulations@[request.id@],
                        request.generation,
                        request.cells@,
                    )
                    &&& reports(response, request.id@, final(self).simulations@[request.id@])
                },
                Err(error) => {
                    &&& !old(self).simulations@.contains_key(request.id@)
                    &&& final(self).simulations@ == old(self).simulations@
                    &&& is_not_found(error)
                },
            },
    {
        match self.simulations.get_simulation_mut(request.id.as_str()) {
            Some(simulation) => {
                apply_update(simulation, request.generation, request.cells.as_slice());
                Ok(simulation_response(request.id.as_str(), simulation))
            },
            None => Err(not_found()),
        }
    }

    /// Advances a simulation and answers the generation reached, the number
    /// of live cells and the distance between that number and the number
    /// before.
    pub fn step_simulation(&mut self, request: StepSimulationRequest) -> (result: Result<
        StepResponse,
        ServiceError,
    >)
        requires
            old(self).wf(),
        ensures
            final(self).wf(),
            final(self).simulations.started() == old(self).simulations.started(),
            match result {
                Ok(response) => {
                    &&& touches_only(old(self).simulations@, final(self).simulations@, request.id@)
                    &&& is_advanced(
                        old(self).simulations@[request.id@],
                        final(self).simulations@[request.id@],
                        steps_of(request.steps),
                    )
                    &&& can_advance(old(self).simulations@[request.id@], steps_of(request.steps))
                    &&& response == step_response_of(
                        old(self).simulations@[request.id@],
                        steps_of(request.steps),
                    )
                },
                Err(error) => {
                    &&& final(self).simulations@ == old(self).simulations@
                    &&& if !old(self).simulations@.contains_key(request.id@) {
                        is_not_found(error)
                    } else {
                        &&& !can_advance(
                            old(self).simulations@[request.id@],
                            steps_of(request.steps),
                        )
                        &&& is_exhausted(error)
                    }
                },
            },
    {
        match step(&mut self.simulations, request.id.as_str(), request.steps) {
            Ok(outcome) => Ok(
                StepResponse {
                    generation: outcome.generation as i64,
                    live_cells: outcome.live_cell_count,
                    changed_cells: outcome.changed_cell_count,
                },
            ),
            Err(error) => Err(error),
        }
    }

    /// Puts a pattern on a simulation's grid.  The simulation must exist,
    /// and the request must carry a pattern and a position; the checks are
    /// made in that order.
    pub fn load_pattern(&mut self, request: LoadPatternRequest) -> (result: Result<
        LoadPatternResponse,
        ServiceError,
    >)
        requires
            old(self).wf(),
        ensures
            final(self).wf(),
            final(self).simulations.started() == old(self).simulations.started(),
            match result {
                Ok(response) => {
                    &&& request.pattern is Some
                    &&& request.position is Some
                    &&& touches_only(old(self).simulations@, final(self).simulations@, request.id@)
                    &&& has_pattern(
                        old(self).simulations@[request.id@],
                        final(self).simulations@[request.id@],
                        request.pattern->0.cells@,
                        request.position->0,
                    )
                    &&& response.cells_added == cells_added_by(
                        old(self).simulations@[request.id@],
                        request.pattern->0.cells@,
                        request.position->0,
                    )
                    &&& response.success == (response.cells_added > 0)
                    &&& response.message@ == if response.success {
                        loaded_text(request.pattern->0.name@)
                    } else {
                        nothing_added_text()
                    }
                },
                Err(error) => {
                    &&& final(self).simulations@ == old(self).simulations@
                    &&& if !old(self).simulations@.contains_key(request.id@) {
                        is_not_found(error)
                    } else if request.pattern is None {
                        error.kind() == ErrorKind::InvalidArgument && error.text()
                            == "Pattern is required"@
                    } else {
                        &&& request.position is None
                        &&& error.kind() == ErrorKind::InvalidArgument
                        &&& error.text() == "Position is required"@
                    }
                },
            },
    {
        match self.simulations.get_simulation_mut(request.id.as_str()) {
            Some(simulation) => {
                let pattern = match request.pattern {
                    Some(pattern) => pattern,
                    None => {
                        proof {
                            assert(old(self).simulations@.insert(request.id@, *simulation)
                                =~= old(self).simulations@);
                        }
                        return Err(
                            ServiceError::InvalidArgument("Pattern is required".to_string()),
                        );
                    },
                };
                let position = match request.position {
                    Some(position) => position,
                    None => {
                        proof {
                            assert(old(self).simulations@.insert(request.id@, *simulation)
                                =~= old(self).simulations@);
                        }
                        return Err(
                            ServiceError::InvalidArgument("Position is required".to_string()),
                        );
                    },
                };
                let pattern_cells = positions_of_pattern(pattern.cells.as_slice());
                let cells_added = simulation.add_pattern(
                    pattern_cells.as_slice(),
                    position.x,
                    position.y,
                );
                let message = if cells_added > 0 {
                    "Pattern '".to_string().concat(pattern.name.as_str()).concat(
                        "' loaded successfully",
                    )
                } else {
                    "No cells were added (pattern outside grid or cells already exist)".to_string()
                };
                Ok(LoadPatternResponse { success: cells_added > 0, cells_added, message })
            },
            None => Err(not_found()),
        }
    }
}

} // verus!
