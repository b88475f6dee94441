//! The transition rule for a single cell.

use vstd::prelude::*;

verus! {

/// Whether a cell is alive in the next generation, given whether it is alive
/// now and how many of its eight neighbours are alive.
pub open spec fn rule(alive: bool, neighbors: int) -> bool {
    if alive {
        neighbors == 2 || neighbors == 3
    } else {
        neighbors == 3
    }
}

/// Applies the transition rule to one cell.
pub fn should_cell_survive(currently_alive: bool, neighbor_count: u8) -> (next: bool)
    ensures
        next == rule(currently_alive, neighbor_count as int),
{
    if currently_alive {
        neighbor_count == 2 || neighbor_count == 3
    } else {
        neighbor_count == 3
    }
}

} // verus!
