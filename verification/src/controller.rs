//! The simulation controller: one grid with its settings and the state of
//! its run, behind the operations that a front end needs.

use crate::cell_set::{cells_of, CellSet};
use crate::config::{GameConfig, PatternConfig, SimulationState, SimulationTimer};
use crate::coords::Point;
use crate::engine::{apply_game_of_life_rules, selected_policy};
use crate::grid_state::{is_bounding_box, law_transition_reaches_target, lemma_placed_cells, shape_at, GridState};
use crate::life::{next_generation, BoundaryPolicy};
use crate::patterns::{
    blinker_shape, block_shape, generate_blinker_pattern, generate_block_pattern,
    generate_glider_pattern, generate_gosper_gun_pattern, glider_shape, gosper_gun_shape,
};
use crate::renderer::SimulationSnapshot;
use std::time::Duration;
use vstd::prelude::*;

verus! {

/// Whether two texts are the same.
pub fn same_text(a: &str, b: &str) -> (same: bool)
    ensures
        same == (a@ == b@),
{
    a.to_string() == b.to_string()
}

/// The cells of the pattern built in under `name`, where it is put: the
/// glider gun at `(5, 5)`, the blinker and the block at `(10, 10)`, and the
/// glider at `(10, 10)` under its own name and under every other.
pub open spec fn embedded_pattern(name: Seq<char>) -> Set<Point> {
    if name == "blinker"@ {
        shape_at(blinker_shape(), 10, 10)
    } else if name == "block"@ {
        shape_at(block_shape(), 10, 10)
    } else if name == "gosper_gun"@ {
        shape_at(gosper_gun_shape(), 5, 5)
    } else {
        shape_at(glider_shape(), 10, 10)
    }
}

/// The cells with which a simulation starts: the pattern built in under
/// the settings' name where the settings ask for a built-in pattern, and
/// the glider otherwise.
pub open spec fn initial_pattern(pattern: PatternConfig) -> Set<Point> {
    if pattern.pattern_type@ == "embedded"@ {
        embedded_pattern(pattern.path@)
    } else {
        shape_at(glider_shape(), 10, 10)
    }
}

/// The cells of the pattern built in under `name`.
pub fn pattern_by_name(name: &str) -> (cells: Vec<(i32, i32)>)
    ensures
        cells_of(cells@) == embedded_pattern(name@),
{
    if same_text(name, "blinker") {
        let cells = generate_blinker_pattern(10, 10);
        proof {
            lemma_placed_cells(cells@, blinker_shape(), 10, 10);
        }
        cells
    } else if same_text(name, "block") {
        let cells = generate_block_pattern(10, 10);
        proof {
            lemma_placed_cells(cells@, block_shape(), 10, 10);
        }
        cells
    } else if same_text(name, "gosper_gun") {
        let cells = generate_gosper_gun_pattern(5, 5);
        proof {
            lemma_placed_cells(cells@, gosper_gun_shape(), 5, 5);
        }
        cells
    } else {
        let cells = generate_glider_pattern(10, 10);
        proof {
            lemma_placed_cells(cells@, glider_shape(), 10, 10);
        }
        cells
    }
}

/// The cells with which a simulation of the given settings starts.
pub fn initial_pattern_cells(pattern: &PatternConfig) -> (cells: Vec<(i32, i32)>)
    ensures
        cells_of(cells@) == initial_pattern(*pattern),
{
    if same_text(pattern.pattern_type.as_str(), "embedded") {
        pattern_by_name(pattern.path.as_str())
    } else {
        let cells = generate_glider_pattern(10, 10);
        proof {
            lemma_placed_cells(cells@, glider_shape(), 10, 10);
        }
        cells
    }
}

/// `v - 5`, or the least number where that is out of reach.
pub open spec fn padded_down(v: int) -> int {
    if v - 5 < i32::MIN {
        i32::MIN as int
    } else {
        v - 5
    }
}

/// `v + 5`, or the greatest number where that is out of reach.
pub open spec fn padded_up(v: int) -> int {
    if v + 5 > i32::MAX {
        i32::MAX as int
    } else {
        v + 5
    }
}

/// The smaller of `v` and fifty.
pub open spec fn at_most_fifty(v: int) -> int {
    if v < 50 {
        v
    } else {
        50
    }
}

/// The simulation controller.
pub struct SimulationController {
    pub config: GameConfig,
    pub grid_state: GridState,
    pub simulation_state: SimulationState,
    pub timer: SimulationTimer,
}

impl SimulationController {
    /// The boundary policy of the grid: a wrapping grid of the settings'
    /// size where the settings ask for wrapping and the size is positive,
    /// the unbounded grid otherwise.
    pub open spec fn policy(&self) -> BoundaryPolicy {
        selected_policy(
            self.config.grid.wrap_edges && self.config.grid.width > 0 && self.config.grid.height
                > 0,
            Some(self.config.grid.width),
            Some(self.config.grid.height),
        )
    }

    /// The live cells.
    pub open spec fn live(&self) -> Set<Point> {
        self.grid_state.live_cells@
    }

    /// A controller with the default settings.
    pub fn new() -> (controller: SimulationController)
        ensures
            controller.live() == initial_pattern(controller.config.initial_pattern),
            controller.simulation_state.generation == 0,
            !controller.simulation_state.running,
    {
        SimulationController::with_config(GameConfig::default())
    }

    /// A controller with the given settings: at generation zero, at rest,
    /// with the settings' first cells alive.
    pub fn with_config(config: GameConfig) -> (controller: SimulationController)
        ensures
            controller.config == config,
            controller.live() == initial_pattern(config.initial_pattern),
            controller.simulation_state.generation == 0,
            !controller.simulation_state.running,
    {
        let cells = initial_pattern_cells(&config.initial_pattern);
        let timer = SimulationTimer::from_config(&config);
        SimulationController {
            config,
            grid_state: GridState::from_positions(cells),
            simulation_state: SimulationState::new(),
            timer,
        }
    }

    /// Lets the simulation run.
    pub fn start(&mut self)
        ensures
            final(self).simulation_state.running,
            !final(self).timer.paused,
            final(self).simulation_state.generation == old(self).simulation_state.generation,
            final(self).live() == old(self).live(),
            final(self).config == old(self).config,
    {
        self.simulation_state.start();
        self.timer.unpause();
    }

    /// Halts the simulation.
    pub fn pause(&mut self)
        ensures
            !final(self).simulation_state.running,
            final(self).timer.paused,
            final(self).simulation_state.generation == old(self).simulation_state.generation,
            final(self).live() == old(self).live(),
            final(self).config == old(self).config,
    {
        self.simulation_state.pause();
        self.timer.pause();
    }

    /// Whether the simulation is running.
    pub fn is_running(&self) -> (running: bool)
        ensures
            running == self.simulation_state.running,
    {
        self.simulation_state.is_running()
    }

    /// Takes one step, whether the simulation is running or not: the live
    /// cells become their next generation.  The generation counter
    /// advances where that changes a cell, and `step_duration` is then
    /// recorded as the time that the step took.
    pub fn step(&mut self, step_duration: Duration)
        requires
            old(self).simulation_state.generation < u64::MAX,
        ensures
            final(self).live() == next_generation(old(self).live(), old(self).policy()),
            final(self).simulation_state.generation == if final(self).live() == old(self).live() {
                old(self).simulation_state.generation as int
            } else {
                old(self).simulation_state.generation + 1
            },
            final(self).simulation_state.running == old(self).simulation_state.running,
            final(self).config == old(self).config,
    {
        let live = self.grid_state.get_live_positions();
        let grid = self.config.grid;
        let next = if grid.wrap_edges && grid.width > 0 && grid.height > 0 {
            apply_game_of_life_rules(live.as_slice(), true, Some(grid.width), Some(grid.height))
        } else {
            apply_game_of_life_rules(live.as_slice(), false, None, None)
        };
        let target = CellSet::from_cells(next.as_slice());
        proof {
            law_transition_reaches_target(self.live(), target@);
        }
        self.grid_state.prepare_transition(target);
        if self.grid_state.has_pending_changes() {
            self.grid_state.apply_transition();
            let count = self.grid_state.cell_count();
            self.simulation_state.advance_generation(count, step_duration);
            proof {
                let before = old(self).live();
                let after = self.live();
                if after =~= before {
                    assert(after.difference(before) =~= Set::<Point>::empty());
                    assert(before.difference(after) =~= Set::<Point>::empty());
                }
            }
        } else {
            proof {
                let before = old(self).live();
                let goal = next_generation(before, old(self).policy());
                assert(goal.difference(before) =~= Set::<Point>::empty());
                assert(before.difference(goal) =~= Set::<Point>::empty());
                assert(goal =~= before);
            }
        }
    }

    /// One turn of the front end's loop: takes a step where the time of a
    /// frame has passed and the simulation is running.
    pub fn update(&mut self, frame_due: bool, step_duration: Duration)
        requires
            old(self).simulation_state.generation < u64::MAX,
        ensures
            final(self).live() == if frame_due && old(self).simulation_state.running {
                next_generation(old(self).live(), old(self).policy())
            } else {
                old(self).live()
            },
            final(self).simulation_state.running == old(self).simulation_state.running,
            final(self).config == old(self).config,
    {
        if frame_due && self.simulation_state.is_running() {
            self.step(step_duration);
        }
    }

    /// Starts over: generation zero, at rest, with the settings' first
    /// cells alive.
    pub fn reset(&mut self)
        ensures
            final(self).live() == initial_pattern(old(self).config.initial_pattern),
            final(self).simulation_state.generation == 0,
            !final(self).simulation_state.running,
            final(self).config == old(self).config,
            final(self).timer == old(self).timer,
    {
        self.simulation_state.reset();
        let cells = initial_pattern_cells(&self.config.initial_pattern);
        self.grid_state = GridState::from_positions(cells);
    }

    /// Replaces the live cells by the pattern built in under
    /// `pattern_name`, and makes that pattern the settings' first cells.
    pub fn load_pattern(&mut self, pattern_name: &str)
        ensures
            final(self).live() == embedded_pattern(pattern_name@),
            final(self).config.initial_pattern.path@ == pattern_name@,
            final(self).config.initial_pattern.pattern_type == old(
                self,
            ).config.initial_pattern.pattern_type,
            final(self).config.grid == old(self).config.grid,
            final(self).config.simulation == old(self).config.simulation,
            final(self).simulation_state == old(self).simulation_state,
    {
        let cells = pattern_by_name(pattern_name);
        self.set_cells(cells.as_slice());
        self.config.initial_pattern.path = pattern_name.to_string();
    }

    /// Replaces the live cells by the listed ones.
    pub fn set_cells(&mut self, cells: &[(i32, i32)])
        ensures
            final(self).live() == cells_of(cells@),
            final(self).config == old(self).config,
            final(self).simulation_state == old(self).simulation_state,
    {
        self.grid_state.set_from_cells(CellSet::from_cells(cells));
    }

    /// What a view shows of the simulation now.
    pub fn get_state(&self) -> (snapshot: SimulationSnapshot)
        ensures
            snapshot.generation == self.simulation_state.generation,
            cells_of(snapshot.live_cells@) == self.live(),
            snapshot.live_cells@.no_duplicates(),
            snapshot.population == snapshot.live_cells@.len(),
            snapshot.is_running == self.simulation_state.running,
            snapshot.grid_width == self.config.grid.width,
            snapshot.grid_height == self.config.grid.height,
    {
        let live_cells = self.grid_state.get_live_positions();
        let population = live_cells.len();
        SimulationSnapshot {
            generation: self.simulation_state.get_generation(),
            live_cells,
            population,
            is_running: self.simulation_state.is_running(),
            grid_width: self.config.grid.width,
            grid_height: self.config.grid.height,
        }
    }

    /// The part of the grid that a view shows, as `(min_x, min_y, max_x,
    /// max_y)`: the whole grid where it wraps, the bounding box of the live
    /// cells with five cells to spare on every side where it does not, and
    /// a corner of at most fifty by fifty where no cell is alive.
    pub fn get_grid_bounds(&self) -> (bounds: (i32, i32, i32, i32))
        ensures
            self.config.grid.wrap_edges ==> bounds == (
                0i32,
                0i32,
                self.config.grid.width,
                self.config.grid.height,
            ),
            !self.config.grid.wrap_edges && self.live() == Set::<Point>::empty() ==> bounds.0 == 0
                && bounds.1 == 0 && bounds.2 == at_most_fifty(self.config.grid.width as int)
                && bounds.3 == at_most_fifty(self.config.grid.height as int),
            !self.config.grid.wrap_edges && self.live() != Set::<Point>::empty() ==> exists|
                inner: (i32, i32, i32, i32),
            |
                #![trigger is_bounding_box(inner, self.live())]
                is_bounding_box(inner, self.live()) && bounds.0 == padded_down(inner.0 as int)
                    && bounds.1 == padded_down(inner.1 as int) && bounds.2 == padded_up(
                    inner.2 as int,
                ) && bounds.3 == padded_up(inner.3 as int),
    {
        let grid = self.config.grid;
        if grid.wrap_edges {
            return (0, 0, grid.width, grid.height);
        }
        match self.grid_state.get_bounds() {
            None => (
                0,
                0,
                if grid.width < 50 {
                    grid.width
                } else {
                    50
                },
                if grid.height < 50 {
                    grid.height
                } else {
                    50
                },
            ),
            Some(inner) => {
                let (min_x, min_y, max_x, max_y) = inner;
                (pad_down(min_x), pad_down(min_y), pad_up(max_x), pad_up(max_y))
            },
        }
    }
}

/// The keys of the headless front end.
#[derive(Debug, Clone, Copy, PartialEq, Eq, Structural)]
pub enum KeyCommand {
    /// `q`: leave.
    Quit,
    /// The enter key: take a step out of turn.
    Advance,
    /// The space bar: halt a running simulation, let a halted one run.
    TogglePause,
    /// `r`: start over with the settings' first cells.
    Reset,
    /// `g`: put a glider at the middle of the live cells.
    SpawnGlider,
    /// `b`: put a blinker at the middle of the live cells.
    SpawnBlinker,
    /// `c`: clear the grid.
    Clear,
    /// `i`: report the generation and the live cells.
    Info,
    /// `+` or `=`: go faster.
    SpeedUp,
    /// `-`: go slower.
    SlowDown,
    /// Any other key.
    Ignored,
}

/// The command of a key.  Letters count in either case.
pub open spec fn command_of_key(key: char) -> KeyCommand {
    if key == 'q' || key == 'Q' {
        KeyCommand::Quit
    } else if key == '\n' || key == '\r' {
        KeyCommand::Advance
    } else if key == ' ' {
        KeyCommand::TogglePause
    } else if key == 'r' || key == 'R' {
        KeyCommand::Reset
    } else if key == 'g' || key == 'G' {
        KeyCommand::SpawnGlider
    } else if key == 'b' || key == 'B' {
        KeyCommand::SpawnBlinker
    } else if key == 'c' || key == 'C' {
        KeyCommand::Clear
    } else if key == 'i' || key == 'I' {
        KeyCommand::Info
    } else if key == '+' || key == '=' {
        KeyCommand::SpeedUp
    } else if key == '-' {
        KeyCommand::SlowDown
    } else {
        KeyCommand::Ignored
    }
}

/// The command of a key.
pub fn key_command(key: char) -> (command: KeyCommand)
    ensures
        command == command_of_key(key),
{
    if key == 'q' || key == 'Q' {
        KeyCommand::Quit
    } else if key == '\n' || key == '\r' {
        KeyCommand::Advance
    } else if key == ' ' {
        KeyCommand::TogglePause
    } else if key == 'r' || key == 'R' {
        KeyCommand::Reset
    } else if key == 'g' || key == 'G' {
        KeyCommand::SpawnGlider
    } else if key == 'b' || key == 'B' {
        KeyCommand::SpawnBlinker
    } else if key == 'c' || key == 'C' {
        KeyCommand::Clear
    } else if key == 'i' || key == 'I' {
        KeyCommand::Info
    } else if key == '+' || key == '=' {
        KeyCommand::SpeedUp
    } else if key == '-' {
        KeyCommand::SlowDown
    } else {
        KeyCommand::Ignored
    }
}

/// Whether `at` is where a key puts a pattern on `live`: the middle of the
/// live cells' bounding box, or `(10, 10)` where no cell is alive.
pub open spec fn is_spawn_point(at: (i32, i32), live: Set<Point>) -> bool {
    if live == Set::<Point>::empty() {
        at == (10i32, 10i32)
    } else {
        exists|bounds: (i32, i32, i32, i32)|
            #![trigger is_bounding_box(bounds, live)]
            is_bounding_box(bounds, live) && at.0 == crate::renderer::half(bounds.0 + bounds.2)
                && at.1 == crate::renderer::half(bounds.1 + bounds.3)
    }
}

impl SimulationController {
    /// Where a key puts a pattern.
    pub fn spawn_point(&self) -> (at: (i32, i32))
        ensures
            is_spawn_point(at, self.live()),
    {
        match self.grid_state.get_bounds() {
            Some(bounds) => {
                let (min_x, min_y, max_x, max_y) = bounds;
                (middle(min_x, max_x), middle(min_y, max_y))
            },
            None => (10, 10),
        }
    }

}

/// Takes one key of the headless front end and says whether the key asks
/// to leave.
///
/// A pattern that would reach beyond the greatest coordinate is not put.
pub fn input_system(controller: &mut SimulationController, key: char) -> (quit: bool)
    ensures
        quit == (command_of_key(key) == KeyCommand::Quit),
        final(controller).config == old(controller).config,
        match command_of_key(key) {
            KeyCommand::Advance => {
                &&& final(controller).timer == (SimulationTimer { force_step: true, ..old(controller).timer })
                &&& final(controller).live() == old(controller).live()
                &&& final(controller).simulation_state == old(controller).simulation_state
            },
            KeyCommand::TogglePause => {
                &&& final(controller).simulation_state == (SimulationState {
                    running: !old(controller).simulation_state.running,
                    ..old(controller).simulation_state
                })
                &&& final(controller).live() == old(controller).live()
                &&& final(controller).timer == old(controller).timer
            },
            KeyCommand::Reset => {
                &&& final(controller).live() == initial_pattern(old(controller).config.initial_pattern)
                &&& final(controller).simulation_state.generation == 0
                &&& !final(controller).simulation_state.running
                &&& final(controller).timer == old(controller).timer
            },
            KeyCommand::SpawnGlider => {
                &&& final(controller).simulation_state == old(controller).simulation_state
                &&& final(controller).timer == old(controller).timer
                &&& exists|at: (i32, i32)|
                    #![trigger is_spawn_point(at, old(controller).live())]
                    is_spawn_point(at, old(controller).live()) && final(controller).live() == if at.0 + 2
                        <= i32::MAX && at.1 + 2 <= i32::MAX {
                        old(controller).live().union(
                            shape_at(glider_shape(), at.0 as int, at.1 as int),
                        )
                    } else {
                        old(controller).live()
                    }
            },
            KeyCommand::SpawnBlinker => {
                &&& final(controller).simulation_state == old(controller).simulation_state
                &&& final(controller).timer == old(controller).timer
                &&& exists|at: (i32, i32)|
                    #![trigger is_spawn_point(at, old(controller).live())]
                    is_spawn_point(at, old(controller).live()) && final(controller).live() == if at.0 + 1
                        <= i32::MAX && at.1 + 2 <= i32::MAX {
                        old(controller).live().union(
                            shape_at(blinker_shape(), at.0 as int, at.1 as int),
                        )
                    } else {
                        old(controller).live()
                    }
            },
            KeyCommand::Clear => {
                &&& final(controller).live() == Set::<Point>::empty()
                &&& final(controller).simulation_state == old(controller).simulation_state
                &&& final(controller).timer == old(controller).timer
            },
            KeyCommand::SpeedUp => {
                &&& final(controller).timer.steps_per_second == if old(controller).timer.steps_per_second
                    * 2 < crate::config::fastest() {
                    old(controller).timer.steps_per_second * 2
                } else {
                    crate::config::fastest() as int
                }
                &&& final(controller).live() == old(controller).live()
                &&& final(controller).simulation_state == old(controller).simulation_state
            },
            KeyCommand::SlowDown => {
                &&& final(controller).timer.steps_per_second == if old(controller).timer.steps_per_second
                    / 2 > 1 {
                    old(controller).timer.steps_per_second as int / 2
                } else {
                    1
                }
                &&& final(controller).live() == old(controller).live()
                &&& final(controller).simulation_state == old(controller).simulation_state
            },
            _ => {
                &&& final(controller).live() == old(controller).live()
                &&& final(controller).simulation_state == old(controller).simulation_state
                &&& final(controller).timer == old(controller).timer
            },
        },
{
    match key_command(key) {
        KeyCommand::Quit => {
            return true;
        },
        KeyCommand::Advance => {
            controller.timer.force_update();
        },
        KeyCommand::TogglePause => {
            if controller.simulation_state.is_paused() {
                controller.simulation_state.resume();
            } else {
                controller.simulation_state.pause();
            }
        },
        KeyCommand::Reset => {
            controller.reset();
        },
        KeyCommand::SpawnGlider => {
            let at = controller.spawn_point();
            if at.0 <= i32::MAX - 2 && at.1 <= i32::MAX - 2 {
                controller.grid_state.set_pattern_glider(at.0, at.1);
            }
            proof {
                assert(is_spawn_point(at, old(controller).live()));
            }
        },
        KeyCommand::SpawnBlinker => {
            let at = controller.spawn_point();
            if at.0 <= i32::MAX - 1 && at.1 <= i32::MAX - 2 {
                controller.grid_state.set_pattern_blinker(at.0, at.1);
            }
            proof {
                assert(is_spawn_point(at, old(controller).live()));
            }
        },
        KeyCommand::Clear => {
            controller.grid_state.clear();
        },
        KeyCommand::Info => {},
        KeyCommand::SpeedUp => {
            controller.timer.speed_up();
        },
        KeyCommand::SlowDown => {
            controller.timer.slow_down();
        },
        KeyCommand::Ignored => {},
    }
    false
}

/// Half of the sum of `a` and `b`, rounded towards zero.
fn middle(a: i32, b: i32) -> (m: i32)
    ensures
        m == crate::renderer::half(a + b),
{
    let sum: i64 = a as i64 + b as i64;
    if sum >= 0 {
        (sum / 2) as i32
    } else {
        (-((-sum) / 2)) as i32
    }
}

/// `v - 5`, or the least number where that is out of reach.
fn pad_down(v: i32) -> (p: i32)
    ensures
        p == padded_down(v as int),
{
    if v < i32::MIN + 5 {
        i32::MIN
    } else {
        v - 5
    }
}

/// `v + 5`, or the greatest number where that is out of reach.
fn pad_up(v: i32) -> (p: i32)
    ensures
        p == padded_up(v as int),
{
    if v > i32::MAX - 5 {
        i32::MAX
    } else {
        v + 5
    }
}

impl Default for SimulationController {
    fn default() -> (controller: SimulationController)
        ensures
            controller.live() == initial_pattern(controller.config.initial_pattern),
            controller.simulation_state.generation == 0,
            !controller.simulation_state.running,
    {
        SimulationController::new()
    }
}

} // verus!
