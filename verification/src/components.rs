//! The parts of a cell: where it is and how it fares.

use crate::rules::rule;
use vstd::prelude::*;

verus! {

/// A position on the grid.
#[derive(Clone, Copy, Debug, PartialEq, Eq, Hash, Structural)]
pub struct Position {
    pub x: i32,
    pub y: i32,
}

impl Position {
    /// The position `(x, y)`.
    pub fn new(x: i32, y: i32) -> (p: Position)
        ensures
            p.x == x,
            p.y == y,
    {
        Position { x, y }
    }

    /// The position `(dx, dy)` away from this one.
    pub open spec fn moved(self, dx: int, dy: int) -> Position {
        Position { x: (self.x + dx) as i32, y: (self.y + dy) as i32 }
    }

    /// The eight positions around this one: the column to the left from top
    /// to bottom, then above and below, then the column to the right.
    pub open spec fn neighbors_spec(self) -> Seq<Position> {
        seq![
            self.moved(-1, -1),
            self.moved(-1, 0),
            self.moved(-1, 1),
            self.moved(0, -1),
            self.moved(0, 1),
            self.moved(1, -1),
            self.moved(1, 0),
            self.moved(1, 1),
        ]
    }

    /// The eight positions around this one.
    pub fn neighbors(&self) -> (around: [Position; 8])
        requires
            i32::MIN < self.x < i32::MAX,
            i32::MIN < self.y < i32::MAX,
        ensures
            around@ == self.neighbors_spec(),
    {
        let around = [
            Position::new(self.x - 1, self.y - 1),
            Position::new(self.x - 1, self.y),
            Position::new(self.x - 1, self.y + 1),
            Position::new(self.x, self.y - 1),
            Position::new(self.x, self.y + 1),
            Position::new(self.x + 1, self.y - 1),
            Position::new(self.x + 1, self.y),
            Position::new(self.x + 1, self.y + 1),
        ];
        assert(around@ =~= self.neighbors_spec());
        around
    }
}

/// How a cell fares: whether it is alive, the generation it belongs to and
/// the number of its live neighbours as last counted.
#[derive(Clone, Copy, Debug, PartialEq, Eq, Structural)]
pub struct CellState {
    pub alive: bool,
    pub generation: u64,
    pub neighbor_count: u8,
}

/// The state of a cell that has just been set alive.
pub open spec fn fresh_cell() -> CellState {
    CellState { alive: true, generation: 0, neighbor_count: 0 }
}

impl CellState {
    /// A live cell of generation zero with no neighbours counted.
    pub fn new() -> (cell: CellState)
        ensures
            cell == fresh_cell(),
    {
        CellState { alive: true, generation: 0, neighbor_count: 0 }
    }

    /// A live cell of the given generation.
    pub fn with_generation(generation: u64) -> (cell: CellState)
        ensures
            cell == (CellState { alive: true, generation, neighbor_count: 0 }),
    {
        CellState { alive: true, generation, neighbor_count: 0 }
    }

    /// A live cell with the given number of live neighbours.
    pub fn with_neighbors(neighbor_count: u8) -> (cell: CellState)
        ensures
            cell == (CellState { alive: true, generation: 0, neighbor_count }),
    {
        CellState { alive: true, generation: 0, neighbor_count }
    }

    /// A live cell of the given generation with the given number of live
    /// neighbours.
    pub fn with_generation_and_neighbors(generation: u64, neighbor_count: u8) -> (cell: CellState)
        ensures
            cell == (CellState { alive: true, generation, neighbor_count }),
    {
        CellState { alive: true, generation, neighbor_count }
    }

    /// Whether the cell is alive and stays alive.
    pub fn should_survive(&self) -> (survives: bool)
        ensures
            survives == (self.alive && rule(true, self.neighbor_count as int)),
    {
        self.alive && (self.neighbor_count == 2 || self.neighbor_count == 3)
    }

    /// Whether the cell is dead and comes alive.
    pub fn should_be_born(&self) -> (born: bool)
        ensures
            born == (!self.alive && rule(false, self.neighbor_count as int)),
    {
        !self.alive && self.neighbor_count == 3
    }

    /// The cell one generation on: alive as the rule says, with no
    /// neighbours counted yet.
    pub fn next_generation(&self) -> (next: CellState)
        requires
            self.generation < u64::MAX,
        ensures
            next == (CellState {
                alive: rule(self.alive, self.neighbor_count as int),
                generation: (self.generation + 1) as u64,
                neighbor_count: 0,
            }),
    {
        CellState {
            alive: self.should_survive() || self.should_be_born(),
            generation: self.generation + 1,
            neighbor_count: 0,
        }
    }
}

impl Default for CellState {
    fn default() -> (cell: CellState)
        ensures
            cell == fresh_cell(),
    {
        CellState::new()
    }
}

} // verus!
