//! Plain records exchanged with front ends: cells, game states and patterns.

use vstd::prelude::*;

verus! {

/// One cell and whether it is alive.
#[derive(Debug, Clone)]
pub struct CellData {
    pub x: i32,
    pub y: i32,
    pub alive: bool,
}

/// A generation counter with the cells of that generation.
#[derive(Debug, Clone)]
pub struct GameState {
    pub generation: u64,
    pub cells: Vec<CellData>,
}

/// A named pattern: cells relative to the pattern's origin.
#[derive(Debug, Clone)]
pub struct PatternData {
    pub name: String,
    pub cells: Vec<(i32, i32)>,
}

/// One cell of a pattern file.
#[derive(Debug)]
pub struct PatternCell {
    pub x: i32,
    pub y: i32,
}

/// A pattern as pattern files hold it.
#[derive(Debug)]
pub struct PatternFile {
    pub name: String,
    pub description: String,
    pub author: String,
    pub cells: Vec<PatternCell>,
}

/// The service's marker type.
pub struct GameOfLifeService;

/// The health check.
#[derive(Default)]
pub struct HealthService;

impl HealthService {
    /// The answer of the health check.
    pub fn check(&self) -> (answer: String)
        ensures
            answer@ == "Server is healthy"@,
    {
        "Server is healthy".to_string()
    }
}

/// The short answer of the health check.
pub fn health_check() -> (answer: String)
    ensures
        answer@ == "OK"@,
{
    "OK".to_string()
}

} // verus!
