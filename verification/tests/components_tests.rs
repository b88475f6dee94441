use game_of_life::cell;
use game_of_life::cell::NeighborCount;
use game_of_life::components::{CellState, Position};
use game_of_life::config::{
    ConfigError, GameConfig, GridConfig, PatternConfig, SimulationConfig, SimulationState,
    SimulationTimer,
};
use game_of_life::grid::{GridBoundary, GridPosition, SpatialGrid};
use game_of_life::resources;

#[test]
fn test_cell_state_creation() {
    let cell = CellState::new();
    assert_eq!(cell.alive, true);
    assert_eq!(cell.generation, 0);
    assert_eq!(cell.neighbor_count, 0);
}

#[test]
fn test_cell_state_with_generation() {
    let cell = CellState::with_generation(5);
    assert_eq!(cell.alive, true);
    assert_eq!(cell.generation, 5);
    assert_eq!(cell.neighbor_count, 0);
}

#[test]
fn test_cell_state_with_neighbors() {
    let cell = CellState::with_neighbors(3);
    assert_eq!(cell.alive, true);
    assert_eq!(cell.generation, 0);
    assert_eq!(cell.neighbor_count, 3);
}

#[test]
fn test_cell_state_game_of_life_rules() {
    let mut cell = CellState::with_neighbors(2);
    cell.alive = true;
    assert!(cell.should_survive());

    cell.neighbor_count = 3;
    assert!(cell.should_survive());

    cell.neighbor_count = 1;
    assert!(!cell.should_survive());

    cell.neighbor_count = 4;
    assert!(!cell.should_survive());

    cell.alive = false;
    cell.neighbor_count = 3;
    assert!(cell.should_be_born());

    cell.neighbor_count = 2;
    assert!(!cell.should_be_born());
}

#[test]
fn test_next_generation() {
    let cell = CellState::with_generation_and_neighbors(1, 2);
    let next = cell.next_generation();
    assert!(next.alive);
    assert_eq!(next.generation, 2);
    assert_eq!(next.neighbor_count, 0);

    let cell = CellState::with_generation_and_neighbors(1, 1);
    let next = cell.next_generation();
    assert!(!next.alive);
    assert_eq!(next.generation, 2);

    let mut cell = CellState::with_generation_and_neighbors(1, 3);
    cell.alive = false;
    let next = cell.next_generation();
    assert!(next.alive);
    assert_eq!(next.generation, 2);
}

#[test]
fn test_default_implementation() {
    let cell = CellState::default();
    let expected = CellState::new();
    assert_eq!(cell, expected);
}

#[test]
fn test_position_creation() {
    let pos = Position::new(5, 10);
    assert_eq!(pos.x, 5);
    assert_eq!(pos.y, 10);
}

#[test]
fn test_position_neighbors() {
    let pos = Position::new(0, 0);
    let neighbors = pos.neighbors();
    let expected = [
        Position::new(-1, -1),
        Position::new(-1, 0),
        Position::new(-1, 1),
        Position::new(0, -1),
        Position::new(0, 1),
        Position::new(1, -1),
        Position::new(1, 0),
        Position::new(1, 1),
    ];
    assert_eq!(neighbors, expected);
}

#[test]
fn test_position_equality() {
    let pos1 = Position::new(1, 2);
    let pos2 = Position::new(1, 2);
    let pos3 = Position::new(2, 1);

    assert_eq!(pos1, pos2);
    assert_ne!(pos1, pos3);
}

#[test]
fn test_cell_state_component() {
    let cell_state = cell::CellState::new(true);

    assert!(cell_state.alive);
    assert_eq!(cell_state.age, 0);

    let mut aged_cell = cell_state;
    aged_cell.increment_age();
    assert_eq!(aged_cell.age, 1);
}

#[test]
fn test_cell_age_stops_at_the_greatest_age() {
    let mut old = cell::CellState::new_with_age(true, u32::MAX - 1);
    old.increment_age();
    assert_eq!(old.age, u32::MAX);
    old.increment_age();
    assert_eq!(old.age, u32::MAX);
    old.set_alive(true);
    assert_eq!(old.age, u32::MAX);
    old.set_alive(false);
    assert_eq!(old.age, 0);
    assert!(!old.is_alive());
    let mut young = cell::CellState::new_with_age(true, 7);
    young.reset_age();
    assert_eq!(young, cell::CellState::new(true));
    assert_eq!(cell::CellState::default(), cell::CellState::new(false));
}

#[test]
fn test_grid_position_component() {
    let position = GridPosition::new(10, 20);

    assert_eq!(position.x, 10);
    assert_eq!(position.y, 20);

    let neighbors = position.get_neighbor_positions();
    assert_eq!(neighbors.len(), 8);

    assert!(neighbors.contains(&GridPosition::new(9, 19)));
    assert!(neighbors.contains(&GridPosition::new(10, 19)));
    assert!(neighbors.contains(&GridPosition::new(11, 19)));
    assert!(neighbors.contains(&GridPosition::new(9, 20)));
    assert!(neighbors.contains(&GridPosition::new(11, 20)));
    assert!(neighbors.contains(&GridPosition::new(9, 21)));
    assert!(neighbors.contains(&GridPosition::new(10, 21)));
    assert!(neighbors.contains(&GridPosition::new(11, 21)));
}

#[test]
fn test_grid_position_conversions_and_distance() {
    let position = GridPosition::from_tuple((3, -4));
    assert_eq!(position, GridPosition::new(3, -4));
    assert_eq!(position.to_tuple(), (3, -4));
    assert_eq!(GridPosition::from((3, -4)), position);
    let pair: (i32, i32) = position.into();
    assert_eq!(pair, (3, -4));
    assert_eq!(position.manhattan_distance_to(&GridPosition::new(0, 0)), 7);
    assert_eq!(GridPosition::new(-2, 5).manhattan_distance_to(&GridPosition::new(4, 1)), 10);
    assert_eq!(
        GridPosition::get_neighbor_offsets(),
        [(-1, -1), (0, -1), (1, -1), (-1, 0), (1, 0), (-1, 1), (0, 1), (1, 1)]
    );
}

#[test]
fn test_neighbor_count_component() {
    let mut neighbor_count = NeighborCount::new();

    assert_eq!(neighbor_count.count, 0);
    assert!(neighbor_count.dirty);

    neighbor_count.set_count(5);
    assert_eq!(neighbor_count.count, 5);
    assert!(!neighbor_count.dirty);

    neighbor_count.mark_dirty();
    assert!(neighbor_count.dirty);
    assert!(neighbor_count.is_dirty());
    assert_eq!(neighbor_count.get_count(), 5);
    assert_eq!(NeighborCount::new_with_count(3), NeighborCount { count: 3, dirty: false });
    assert_eq!(NeighborCount::default(), NeighborCount::new());
}

#[test]
fn test_grid_boundary_positions() {
    let open = GridBoundary::new(5, 3, false);
    assert!(open.is_valid_position(&GridPosition::new(4, 2)));
    assert!(!open.is_valid_position(&GridPosition::new(5, 2)));
    assert!(!open.is_valid_position(&GridPosition::new(0, -1)));
    assert_eq!(open.wrap_position(&GridPosition::new(7, -1)), GridPosition::new(7, -1));
    assert_eq!(open.clamp_position(&GridPosition::new(7, -1)), GridPosition::new(4, 0));
    assert_eq!(open.clamp_position(&GridPosition::new(2, 9)), GridPosition::new(2, 2));

    let torus = GridBoundary::new(5, 3, true);
    assert!(torus.is_valid_position(&GridPosition::new(50, -20)));
    assert_eq!(torus.wrap_position(&GridPosition::new(7, -1)), GridPosition::new(2, 2));
    assert_eq!(torus.wrap_position(&GridPosition::new(-5, 3)), GridPosition::new(0, 0));
    assert_eq!(torus.wrap_position(&GridPosition::new(-10, -6)), GridPosition::new(0, 0));

    let widest = GridBoundary::infinite();
    assert_eq!(widest, GridBoundary { width: i32::MAX, height: i32::MAX, wrap_edges: false });
    assert_eq!(GridBoundary::default(), GridBoundary::new(100, 100, false));
}

#[test]
fn test_spatial_grid_resource() {
    let mut grid = SpatialGrid::new();
    assert!(grid.is_empty());
    assert_eq!(grid.chunk_size, 32);
    assert_eq!(SpatialGrid::new_with_chunk_size(8).chunk_size, 8);

    grid.insert((5, 10), 1);
    grid.insert((6, 10), 2);
    grid.insert((5, 11), 3);
    grid.insert((4, 9), 4);
    grid.insert((9, 9), 5);
    assert_eq!(grid.len(), 5);
    assert!(grid.contains(&(5, 10)));
    assert!(!grid.contains(&(5, 12)));
    assert_eq!(grid.get(&(6, 10)), Some(2));
    assert_eq!(grid.get(&(7, 10)), None);

    assert_eq!(grid.get_neighbors((5, 10)), vec![4, 2, 3]);
    assert_eq!(grid.get_neighbors_in_chunk((5, 10)), vec![1, 2, 3]);
    assert_eq!(grid.get_neighbors((i32::MAX, i32::MIN)), Vec::<u64>::new());

    let mut positions = grid.positions();
    positions.sort();
    assert_eq!(positions, vec![(4, 9), (5, 10), (5, 11), (6, 10), (9, 9)]);
    let mut entities = grid.entities();
    entities.sort();
    assert_eq!(entities, vec![1, 2, 3, 4, 5]);

    assert_eq!(grid.remove(&(6, 10)), Some(2));
    assert_eq!(grid.remove(&(6, 10)), None);
    assert_eq!(grid.len(), 4);
    grid.insert((5, 10), 7);
    assert_eq!(grid.get(&(5, 10)), Some(7));
    grid.clear();
    assert!(grid.is_empty());
    assert_eq!(grid.len(), 0);
}

#[test]
fn test_game_config_default_values() {
    let config = GameConfig::default();

    assert_eq!(config.grid.width, 100);
    assert_eq!(config.grid.height, 100);
    assert!(!config.grid.wrap_edges);

    assert_eq!(config.simulation.steps_per_second, 10);
    assert!(config.simulation.auto_start);
    assert_eq!(config.simulation.max_generations, None);

    assert_eq!(config.initial_pattern.pattern_type, "embedded");
    assert_eq!(config.initial_pattern.path, "glider");
    assert_eq!(config.validate(), Ok(()));
}

fn config_with(width: i32, height: i32, steps: u32, pattern_type: &str) -> GameConfig {
    GameConfig {
        grid: GridConfig { width, height, wrap_edges: false },
        simulation: SimulationConfig {
            steps_per_second: steps,
            auto_start: true,
            max_generations: None,
        },
        initial_pattern: PatternConfig {
            pattern_type: pattern_type.to_string(),
            path: "glider".to_string(),
        },
    }
}

#[test]
fn test_game_config_validation_names_the_first_broken_rule() {
    assert_eq!(config_with(10000, 1, 1000, "file").validate(), Ok(()));
    assert_eq!(config_with(0, 5, 10, "file").validate(), Err(ConfigError::GridNotPositive));
    assert_eq!(config_with(5, -1, 0, "").validate(), Err(ConfigError::GridNotPositive));
    assert_eq!(config_with(10001, 5, 10, "file").validate(), Err(ConfigError::GridTooLarge));
    assert_eq!(config_with(5, 10001, 0, "x").validate(), Err(ConfigError::GridTooLarge));
    assert_eq!(config_with(5, 5, 0, "x").validate(), Err(ConfigError::StepsNotPositive));
    assert_eq!(config_with(5, 5, 1001, "").validate(), Err(ConfigError::StepsTooHigh));
    assert_eq!(config_with(5, 5, 10, "").validate(), Err(ConfigError::PatternTypeEmpty));
    assert_eq!(config_with(5, 5, 10, "File").validate(), Err(ConfigError::PatternTypeUnknown));

    assert_eq!(ConfigError::GridNotPositive.message(), "Grid dimensions must be positive");
    assert_eq!(
        ConfigError::GridTooLarge.message(),
        "Grid dimensions too large (max 10000x10000)"
    );
    assert_eq!(ConfigError::StepsNotPositive.message(), "Steps per second must be positive");
    assert_eq!(ConfigError::StepsTooHigh.message(), "Steps per second too high (max 1000)");
    assert_eq!(ConfigError::PatternTypeEmpty.message(), "Pattern type cannot be empty");
    assert_eq!(
        ConfigError::PatternTypeUnknown.message(),
        "Pattern type must be 'file' or 'embedded'"
    );
}

#[test]
fn test_simulation_timer_resource() {
    let timer = SimulationTimer::new(10);
    assert_eq!(timer.steps_per_second(), 10);
}

#[test]
fn test_simulation_timer_pace_and_forced_steps() {
    let mut timer = SimulationTimer::from_config(&GameConfig::default());
    assert_eq!(timer.steps_per_second(), 10);
    assert!(!timer.is_paused());
    assert!(!timer.tick(false));
    assert!(timer.tick(true));
    timer.force_update();
    assert!(timer.tick(false));
    assert!(!timer.tick(false));

    timer.speed_up();
    assert_eq!(timer.steps_per_second(), 20);
    timer.speed_up();
    timer.speed_up();
    assert_eq!(timer.steps_per_second(), 80);
    timer.speed_up();
    assert_eq!(timer.steps_per_second(), 100);
    timer.speed_up();
    assert_eq!(timer.steps_per_second(), 100);
    timer.set_steps_per_second(u32::MAX);
    timer.speed_up();
    assert_eq!(timer.steps_per_second(), 100);

    timer.set_steps_per_second(5);
    timer.slow_down();
    assert_eq!(timer.steps_per_second(), 2);
    timer.slow_down();
    assert_eq!(timer.steps_per_second(), 1);
    timer.slow_down();
    assert_eq!(timer.steps_per_second(), 1);

    timer.pause();
    assert!(timer.is_paused());
    timer.unpause();
    assert!(!timer.is_paused());
}

#[test]
fn test_simulation_state_of_a_run() {
    let mut state = SimulationState::new();
    assert_eq!(state.get_generation(), 0);
    assert!(state.is_paused());
    state.start();
    assert!(state.is_running());
    state.advance_generation(12, std::time::Duration::from_millis(3));
    assert_eq!(state.generation(), 1);
    assert_eq!(state.get_cell_count(), 12);
    assert_eq!(state.last_step_duration, Some(std::time::Duration::from_millis(3)));
    state.toggle();
    assert!(!state.is_running());
    state.resume();
    assert!(state.is_running());
    state.pause();
    assert!(state.is_paused());
    state.reset();
    assert_eq!(state.get_generation(), 0);
    assert_eq!(state.get_cell_count(), 0);
    assert_eq!(state.last_step_duration, None);
    assert_eq!(SimulationState::default().generation, 0);
}

#[test]
fn test_world_resources() {
    assert_eq!(
        resources::GridConfig::default(),
        resources::GridConfig { width: 50, height: 50, wrap_edges: false }
    );
    assert_eq!(
        resources::GridConfig::new(7, 9, true),
        resources::GridConfig { width: 7, height: 9, wrap_edges: true }
    );
    let mut state = resources::SimulationState::new();
    let first_id = state.simulation_id;
    assert_eq!(state.generation, 0);
    assert!(!state.is_running);
    state.start();
    assert!(state.is_running);
    state.generation = 9;
    state.stop();
    assert!(!state.is_running);
    assert_eq!(state.generation, 9);
    state.reset();
    assert_eq!(state.generation, 0);
    assert_ne!(state.simulation_id, first_id);
    assert!(resources::SimulationState::default().patterns.is_empty());
}

#[test]
fn test_bevy_app_with_game_components() {
    let entities = vec![
        (cell::CellState::new(true), GridPosition::new(0, 0), NeighborCount::new()),
        (cell::CellState::new(false), GridPosition::new(1, 1), NeighborCount::new()),
    ];

    assert_eq!(entities.len(), 2);

    let (cell_state, position, _) = &entities[0];
    assert!(cell_state.alive);
    assert_eq!(position.x, 0);
    assert_eq!(position.y, 0);
}

#[test]
fn test_game_config_resource() {
    let resource = GameConfig::default();
    assert_eq!(resource.grid.width, 100);
    assert_eq!(resource.grid.height, 100);
}

#[test]
fn bevy_ecs_tests_test_component_queries() {
    let entities = vec![
        (cell::CellState::new(true), GridPosition::new(0, 0), NeighborCount::new()),
        (cell::CellState::new(false), GridPosition::new(1, 0), NeighborCount::new()),
        (cell::CellState::new(true), GridPosition::new(0, 1), NeighborCount::new()),
    ];

    let live_positions: Vec<_> = entities.iter().map(|(_, position, _)| position).collect();
    assert_eq!(live_positions.len(), 3);

    let mut live_count = 0;
    for (cell_state, _position, _) in &entities {
        if cell_state.is_alive() {
            live_count += 1;
        }
    }

    assert_eq!(live_count, 2);
}
