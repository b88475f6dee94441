//! A cell that ages, and a neighbour count that knows whether it is stale.

use vstd::prelude::*;

verus! {

/// Whether a cell is alive, and for how many generations it has been.
#[derive(Debug, Clone, Copy, PartialEq, Eq, Structural)]
pub struct CellState {
    pub alive: bool,
    pub age: u32,
}

impl CellState {
    /// A cell of age zero.
    pub fn new(alive: bool) -> (cell: CellState)
        ensures
            cell == (CellState { alive, age: 0 }),
    {
        CellState { alive, age: 0 }
    }

    /// A cell of the given age.
    pub fn new_with_age(alive: bool, age: u32) -> (cell: CellState)
        ensures
            cell == (CellState { alive, age }),
    {
        CellState { alive, age }
    }

    /// Makes the cell one generation older.  The greatest age stays.
    pub fn increment_age(&mut self)
        ensures
            final(self).alive == old(self).alive,
            final(self).age == if old(self).age < u32::MAX {
                old(self).age + 1
            } else {
                u32::MAX as int
            },
    {
        if self.age < u32::MAX {
            self.age = self.age + 1;
        }
    }

    /// Puts the age back to zero.
    pub fn reset_age(&mut self)
        ensures
            *final(self) == (CellState { alive: old(self).alive, age: 0 }),
    {
        self.age = 0;
    }

    /// Whether the cell is alive.
    pub fn is_alive(&self) -> (alive: bool)
        ensures
            alive == self.alive,
    {
        self.alive
    }

    /// Sets the cell alive or dead.  A dead cell has no age.
    pub fn set_alive(&mut self, alive: bool)
        ensures
            final(self).alive == alive,
            final(self).age == if alive {
                old(self).age
            } else {
                0
            },
    {
        self.alive = alive;
        if !alive {
            self.age = 0;
        }
    }
}

impl Default for CellState {
    fn default() -> (cell: CellState)
        ensures
            cell == (CellState { alive: false, age: 0 }),
    {
        CellState::new(false)
    }
}

/// The number of live neighbours of a cell, with a mark that says whether
/// it has to be counted again.
#[derive(Debug, Clone, Copy, PartialEq, Eq, Structural)]
pub struct NeighborCount {
    pub count: u8,
    pub dirty: bool,
}

impl NeighborCount {
    /// A count of zero that has to be counted.
    pub fn new() -> (n: NeighborCount)
        ensures
            n == (NeighborCount { count: 0, dirty: true }),
    {
        NeighborCount { count: 0, dirty: true }
    }

    /// A count that is up to date.
    pub fn new_with_count(count: u8) -> (n: NeighborCount)
        ensures
            n == (NeighborCount { count, dirty: false }),
    {
        NeighborCount { count, dirty: false }
    }

    /// Sets the count; it is up to date afterwards.
    pub fn set_count(&mut self, count: u8)
        ensures
            *final(self) == (NeighborCount { count, dirty: false }),
    {
        self.count = count;
        self.dirty = false;
    }

    /// Marks the count as stale.
    pub fn mark_dirty(&mut self)
        ensures
            *final(self) == (NeighborCount { count: old(self).count, dirty: true }),
    {
        self.dirty = true;
    }

    /// Whether the count is stale.
    pub fn is_dirty(&self) -> (dirty: bool)
        ensures
            dirty == self.dirty,
    {
        self.dirty
    }

    /// The count.
    pub fn get_count(&self) -> (count: u8)
        ensures
            count == self.count,
    {
        self.count
    }
}

impl Default for NeighborCount {
    fn default() -> (n: NeighborCount)
        ensures
            n == (NeighborCount { count: 0, dirty: true }),
    {
        NeighborCount::new()
    }
}

} // verus!
