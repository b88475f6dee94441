//! The resources of a world of cell entities: the grid's size and the
//! state of the run.

use crate::ids::random_uuid;
use uuid::Uuid;
use vstd::prelude::*;

verus! {

/// The size of the grid and what happens at its edges.
#[derive(Clone, Copy, Debug, PartialEq, Eq, Structural)]
pub struct GridConfig {
    pub width: u32,
    pub height: u32,
    pub wrap_edges: bool,
}

impl Default for GridConfig {
    fn default() -> (config: GridConfig)
        ensures
            config == (GridConfig { width: 50, height: 50, wrap_edges: false }),
    {
        GridConfig { width: 50, height: 50, wrap_edges: false }
    }
}

impl GridConfig {
    /// A grid of the given size.
    pub fn new(width: u32, height: u32, wrap_edges: bool) -> (config: GridConfig)
        ensures
            config == (GridConfig { width, height, wrap_edges }),
    {
        GridConfig { width, height, wrap_edges }
    }
}

/// A named pattern of a run.
#[derive(Clone, Debug)]
pub struct NamedPattern {
    pub name: String,
    pub cells: Vec<(i32, i32)>,
}

/// The state of a run: its identifier, the generation reached, whether it
/// is running, and the patterns it knows.
#[derive(Debug)]
pub struct SimulationState {
    pub simulation_id: Uuid,
    pub generation: u64,
    pub is_running: bool,
    pub patterns: Vec<NamedPattern>,
}

impl Default for SimulationState {
    fn default() -> (state: SimulationState)
        ensures
            state.generation == 0,
            !state.is_running,
            state.patterns@.len() == 0,
    {
        SimulationState {
            simulation_id: random_uuid(),
            generation: 0,
            is_running: false,
            patterns: Vec::new(),
        }
    }
}

impl SimulationState {
    /// A run under a fresh identifier, at generation zero and at rest.
    pub fn new() -> (state: SimulationState)
        ensures
            state.generation == 0,
            !state.is_running,
            state.patterns@.len() == 0,
    {
        SimulationState {
            simulation_id: random_uuid(),
            generation: 0,
            is_running: false,
            patterns: Vec::new(),
        }
    }

    /// Lets the run go on.
    pub fn start(&mut self)
        ensures
            final(self).is_running,
            final(self).generation == old(self).generation,
            final(self).simulation_id == old(self).simulation_id,
            final(self).patterns == old(self).patterns,
    {
        self.is_running = true;
    }

    /// Halts the run.
    pub fn stop(&mut self)
        ensures
            !final(self).is_running,
            final(self).generation == old(self).generation,
            final(self).simulation_id == old(self).simulation_id,
            final(self).patterns == old(self).patterns,
    {
        self.is_running = false;
    }

    /// Starts over: generation zero, at rest, under a fresh identifier.
    /// The patterns stay.
    pub fn reset(&mut self)
        ensures
            final(self).generation == 0,
            !final(self).is_running,
            final(self).patterns == old(self).patterns,
    {
        self.generation = 0;
        self.is_running = false;
        self.simulation_id = random_uuid();
    }
}

} // verus!
