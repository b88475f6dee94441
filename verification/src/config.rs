//! The settings of a game and the state of its run.
//!
//! Settings are checked part by part: each part says which of its rules a
//! value breaks first.

use std::time::Duration;
use vstd::prelude::*;
use vstd::string::StrSliceExecFns;

verus! {

/// The size of the grid and what happens at its edges.
#[derive(Debug, Clone, Copy, PartialEq, Eq, Structural)]
pub struct GridConfig {
    pub width: i32,
    pub height: i32,
    pub wrap_edges: bool,
}

/// How fast and how long a simulation runs.
#[derive(Debug, Clone, Copy, PartialEq, Eq)]
pub struct SimulationConfig {
    pub steps_per_second: u32,
    pub auto_start: bool,
    pub max_generations: Option<u64>,
}

/// Where the first cells come from: a pattern built in, by its name, or a
/// pattern file, by its path.
#[derive(Debug, Clone)]
pub struct PatternConfig {
    pub pattern_type: String,
    pub path: String,
}

/// The settings of a game, as far as the simulation reads them.
#[derive(Debug, Clone)]
pub struct GameConfig {
    pub grid: GridConfig,
    pub simulation: SimulationConfig,
    pub initial_pattern: PatternConfig,
}

/// The rules that settings can break.
#[derive(Debug, Clone, Copy, PartialEq, Eq, Structural)]
pub enum ConfigError {
    GridNotPositive,
    GridTooLarge,
    StepsNotPositive,
    StepsTooHigh,
    PatternTypeEmpty,
    PatternTypeUnknown,
}

/// The text for a broken rule.
pub open spec fn error_text(error: ConfigError) -> Seq<char> {
    match error {
        ConfigError::GridNotPositive => "Grid dimensions must be positive"@,
        ConfigError::GridTooLarge => "Grid dimensions too large (max 10000x10000)"@,
        ConfigError::StepsNotPositive => "Steps per second must be positive"@,
        ConfigError::StepsTooHigh => "Steps per second too high (max 1000)"@,
        ConfigError::PatternTypeEmpty => "Pattern type cannot be empty"@,
        ConfigError::PatternTypeUnknown => "Pattern type must be 'file' or 'embedded'"@,
    }
}

impl ConfigError {
    /// The text for the broken rule.
    pub fn message(&self) -> (text: String)
        ensures
            text@ == error_text(*self),
    {
        match self {
            ConfigError::GridNotPositive => "Grid dimensions must be positive".to_string(),
            ConfigError::GridTooLarge => "Grid dimensions too large (max 10000x10000)".to_string(),
            ConfigError::StepsNotPositive => "Steps per second must be positive".to_string(),
            ConfigError::StepsTooHigh => "Steps per second too high (max 1000)".to_string(),
            ConfigError::PatternTypeEmpty => "Pattern type cannot be empty".to_string(),
            ConfigError::PatternTypeUnknown => "Pattern type must be 'file' or 'embedded'".to_string(),
        }
    }
}

/// The first rule that a grid breaks, if it breaks one.
pub open spec fn grid_fault(grid: GridConfig) -> Option<ConfigError> {
    if grid.width <= 0 || grid.height <= 0 {
        Some(ConfigError::GridNotPositive)
    } else if grid.width > 10000 || grid.height > 10000 {
        Some(ConfigError::GridTooLarge)
    } else {
        None
    }
}

/// The first rule that a pace breaks, if it breaks one.
pub open spec fn simulation_fault(simulation: SimulationConfig) -> Option<ConfigError> {
    if simulation.steps_per_second == 0 {
        Some(ConfigError::StepsNotPositive)
    } else if simulation.steps_per_second > 1000 {
        Some(ConfigError::StepsTooHigh)
    } else {
        None
    }
}

/// The first rule that a pattern type breaks, if it breaks one.
pub open spec fn pattern_fault(pattern_type: Seq<char>) -> Option<ConfigError> {
    if pattern_type.len() == 0 {
        Some(ConfigError::PatternTypeEmpty)
    } else if pattern_type != "file"@ && pattern_type != "embedded"@ {
        Some(ConfigError::PatternTypeUnknown)
    } else {
        None
    }
}

/// The first rule that settings break, if they break one: the grid is
/// checked first, then the pace, then the pattern.
pub open spec fn config_fault(config: GameConfig) -> Option<ConfigError> {
    if grid_fault(config.grid) is Some {
        grid_fault(config.grid)
    } else if simulation_fault(config.simulation) is Some {
        simulation_fault(config.simulation)
    } else {
        pattern_fault(config.initial_pattern.pattern_type@)
    }
}

/// The outcome of a check that found `fault`.
pub open spec fn checked(fault: Option<ConfigError>) -> Result<(), ConfigError> {
    match fault {
        Some(error) => Err(error),
        None => Ok(()),
    }
}

impl GridConfig {
    /// Checks the grid: both dimensions are positive and at most ten
    /// thousand.
    pub fn validate(&self) -> (result: Result<(), ConfigError>)
        ensures
            result == checked(grid_fault(*self)),
    {
        if self.width <= 0 || self.height <= 0 {
            return Err(ConfigError::GridNotPositive);
        }
        if self.width > 10000 || self.height > 10000 {
            return Err(ConfigError::GridTooLarge);
        }
        Ok(())
    }
}

impl Default for GridConfig {
    fn default() -> (grid: GridConfig)
        ensures
            grid == (GridConfig { width: 100, height: 100, wrap_edges: false }),
    {
        GridConfig { width: 100, height: 100, wrap_edges: false }
    }
}

impl SimulationConfig {
    /// Checks the pace: between one and a thousand steps a second.
    pub fn validate(&self) -> (result: Result<(), ConfigError>)
        ensures
            result == checked(simulation_fault(*self)),
    {
        if self.steps_per_second == 0 {
            return Err(ConfigError::StepsNotPositive);
        }
        if self.steps_per_second > 1000 {
            return Err(ConfigError::StepsTooHigh);
        }
        Ok(())
    }
}

impl Default for SimulationConfig {
    fn default() -> (simulation: SimulationConfig)
        ensures
            simulation.steps_per_second == 10,
            simulation.auto_start,
            simulation.max_generations is None,
    {
        SimulationConfig { steps_per_second: 10, auto_start: true, max_generations: None }
    }
}

impl PatternConfig {
    /// Checks the pattern: its type is `file` or `embedded`.
    pub fn validate(&self) -> (result: Result<(), ConfigError>)
        ensures
            result == checked(pattern_fault(self.pattern_type@)),
    {
        if self.pattern_type.as_str().unicode_len() == 0 {
            return Err(ConfigError::PatternTypeEmpty);
        }
        if self.pattern_type != "file".to_string() && self.pattern_type != "embedded".to_string() {
            return Err(ConfigError::PatternTypeUnknown);
        }
        Ok(())
    }
}

impl Default for PatternConfig {
    fn default() -> (pattern: PatternConfig)
        ensures
            pattern.pattern_type@ == "embedded"@,
            pattern.path@ == "glider"@,
    {
        PatternConfig { pattern_type: "embedded".to_string(), path: "glider".to_string() }
    }
}

impl GameConfig {
    /// Checks the settings, part by part.
    pub fn validate(&self) -> (result: Result<(), ConfigError>)
        ensures
            result == checked(config_fault(*self)),
    {
        match self.grid.validate() {
            Err(error) => return Err(error),
            Ok(_) => {},
        }
        match self.simulation.validate() {
            Err(error) => return Err(error),
            Ok(_) => {},
        }
        self.initial_pattern.validate()
    }
}

impl Default for GameConfig {
    fn default() -> (config: GameConfig)
        ensures
            config.grid == (GridConfig { width: 100, height: 100, wrap_edges: false }),
            config.simulation.steps_per_second == 10,
            config.simulation.auto_start,
            config.simulation.max_generations is None,
            config.initial_pattern.pattern_type@ == "embedded"@,
            config.initial_pattern.path@ == "glider"@,
            config_fault(config) is None,
    {
        let config = GameConfig {
            grid: GridConfig::default(),
            simulation: SimulationConfig::default(),
            initial_pattern: PatternConfig::default(),
        };
        proof {
            reveal_strlit("embedded");
            reveal_strlit("file");
        }
        config
    }
}

/// The pace of a simulation: how many steps a second it takes, whether it
/// is halted, and whether a step was asked for out of turn.  Measuring the
/// time is the caller's business.
#[derive(Debug, Clone, Copy, PartialEq, Eq, Structural)]
pub struct SimulationTimer {
    pub steps_per_second: u32,
    pub force_step: bool,
    pub paused: bool,
}

/// The greatest pace that speeding up reaches.
pub open spec fn fastest() -> u32 {
    100
}

impl SimulationTimer {
    /// A running timer of the given pace.
    pub fn new(steps_per_second: u32) -> (timer: SimulationTimer)
        ensures
            timer == (SimulationTimer { steps_per_second, force_step: false, paused: false }),
    {
        SimulationTimer { steps_per_second, force_step: false, paused: false }
    }

    /// A running timer of the pace that the settings give.
    pub fn from_config(config: &GameConfig) -> (timer: SimulationTimer)
        ensures
            timer == (SimulationTimer {
                steps_per_second: config.simulation.steps_per_second,
                force_step: false,
                paused: false,
            }),
    {
        SimulationTimer::new(config.simulation.steps_per_second)
    }

    /// One measurement: `interval_passed` says whether the time of one
    /// step has passed since the last one.  The result says whether a step
    /// is due: the time has passed, or a step was asked for out of turn.
    /// That request is served by this answer.
    pub fn tick(&mut self, interval_passed: bool) -> (due: bool)
        ensures
            due == (interval_passed || old(self).force_step),
            *final(self) == (SimulationTimer { force_step: false, ..*old(self) }),
    {
        let due = interval_passed || self.force_step;
        if self.force_step {
            self.force_step = false;
        }
        due
    }

    /// Sets the pace.
    pub fn set_steps_per_second(&mut self, steps_per_second: u32)
        ensures
            *final(self) == (SimulationTimer { steps_per_second, ..*old(self) }),
    {
        self.steps_per_second = steps_per_second;
    }

    /// The pace.
    pub fn steps_per_second(&self) -> (pace: u32)
        ensures
            pace == self.steps_per_second,
    {
        self.steps_per_second
    }

    /// Halts the timer.
    pub fn pause(&mut self)
        ensures
            *final(self) == (SimulationTimer { paused: true, ..*old(self) }),
    {
        self.paused = true;
    }

    /// Lets the timer run.
    pub fn unpause(&mut self)
        ensures
            *final(self) == (SimulationTimer { paused: false, ..*old(self) }),
    {
        self.paused = false;
    }

    /// Whether the timer is halted.
    pub fn is_paused(&self) -> (paused: bool)
        ensures
            paused == self.paused,
    {
        self.paused
    }

    /// Asks for a step out of turn.
    pub fn force_update(&mut self)
        ensures
            *final(self) == (SimulationTimer { force_step: true, ..*old(self) }),
    {
        self.force_step = true;
    }

    /// Doubles the pace, up to the greatest pace.
    pub fn speed_up(&mut self)
        ensures
            final(self).steps_per_second == if old(self).steps_per_second * 2 < fastest() {
                old(self).steps_per_second * 2
            } else {
                fastest() as int
            },
            final(self).force_step == old(self).force_step,
            final(self).paused == old(self).paused,
    {
        let new_speed: u32 = if self.steps_per_second < 50 {
            self.steps_per_second * 2
        } else {
            100
        };
        self.set_steps_per_second(new_speed);
    }

    /// Halves the pace, down to one step a second.
    pub fn slow_down(&mut self)
        ensures
            final(self).steps_per_second == if old(self).steps_per_second / 2 > 1 {
                old(self).steps_per_second as int / 2
            } else {
                1
            },
            final(self).force_step == old(self).force_step,
            final(self).paused == old(self).paused,
    {
        let half: u32 = self.steps_per_second / 2;
        let new_speed: u32 = if half > 1 {
            half
        } else {
            1
        };
        self.set_steps_per_second(new_speed);
    }
}

/// The state of a run: the generation reached, whether the simulation is
/// running, the live cells of the last step and how long that step took.
#[derive(Debug, Clone, Copy)]
pub struct SimulationState {
    pub generation: u64,
    pub running: bool,
    pub cell_count: usize,
    pub last_step_duration: Option<Duration>,
}

impl SimulationState {
    /// The state before the first step: generation zero, at rest.
    pub fn new() -> (state: SimulationState)
        ensures
            state.generation == 0,
            !state.running,
            state.cell_count == 0,
            state.last_step_duration is None,
    {
        SimulationState { generation: 0, running: false, cell_count: 0, last_step_duration: None }
    }

    /// Lets the simulation run.
    pub fn start(&mut self)
        ensures
            *final(self) == (SimulationState { running: true, ..*old(self) }),
    {
        self.running = true;
    }

    /// Halts the simulation.
    pub fn pause(&mut self)
        ensures
            *final(self) == (SimulationState { running: false, ..*old(self) }),
    {
        self.running = false;
    }

    /// Halts a running simulation and lets a halted one run.
    pub fn toggle(&mut self)
        ensures
            *final(self) == (SimulationState { running: !old(self).running, ..*old(self) }),
    {
        self.running = !self.running;
    }

    /// Puts the state back to the state before the first step.
    pub fn reset(&mut self)
        ensures
            final(self).generation == 0,
            !final(self).running,
            final(self).cell_count == 0,
            final(self).last_step_duration is None,
    {
        self.generation = 0;
        self.running = false;
        self.cell_count = 0;
        self.last_step_duration = None;
    }

    /// Records one step: the generation advances by one, and the live
    /// cells and the time of the step are kept.
    pub fn advance_generation(&mut self, cell_count: usize, step_duration: Duration)
        requires
            old(self).generation < u64::MAX,
        ensures
            *final(self) == (SimulationState {
                generation: (old(self).generation + 1) as u64,
                cell_count,
                last_step_duration: Some(step_duration),
                ..*old(self)
            }),
    {
        self.generation = self.generation + 1;
        self.cell_count = cell_count;
        self.last_step_duration = Some(step_duration);
    }

    /// Whether the simulation is running.
    pub fn is_running(&self) -> (running: bool)
        ensures
            running == self.running,
    {
        self.running
    }

    /// The generation reached.
    pub fn get_generation(&self) -> (generation: u64)
        ensures
            generation == self.generation,
    {
        self.generation
    }

    /// The generation reached.
    pub fn generation(&self) -> (generation: u64)
        ensures
            generation == self.generation,
    {
        self.generation
    }

    /// The live cells of the last step.
    pub fn get_cell_count(&self) -> (count: usize)
        ensures
            count == self.cell_count,
    {
        self.cell_count
    }

    /// Whether the simulation is halted.
    pub fn is_paused(&self) -> (paused: bool)
        ensures
            paused == !self.running,
    {
        !self.running
    }

    /// Lets the simulation run.
    pub fn resume(&mut self)
        ensures
            *final(self) == (SimulationState { running: true, ..*old(self) }),
    {
        self.running = true;
    }
}

impl Default for SimulationState {
    fn default() -> (state: SimulationState)
        ensures
            state.generation == 0,
            !state.running,
            state.cell_count == 0,
            state.last_step_duration is None,
    {
        SimulationState::new()
    }
}

} // verus!
