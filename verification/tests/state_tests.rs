use game_of_life::cell_map::CellMap;
use game_of_life::cell_set::CellSet;
use game_of_life::components::CellState;
use game_of_life::config::{GameConfig, GridConfig, PatternConfig, SimulationConfig};
use game_of_life::controller::{
    initial_pattern_cells, input_system, key_command, pattern_by_name, KeyCommand,
    SimulationController,
};
use game_of_life::coords::{cell_key, key_cell};
use game_of_life::engine::{
    apply_game_of_life_rules, apply_game_of_life_rules_bounded, batch_count_neighbors,
    compute_next_generation, count_neighbors,
};
use game_of_life::grid::{GridBoundary, GridPosition};
use game_of_life::grid_state::GridState;
use game_of_life::life::BoundaryPolicy;
use game_of_life::patterns::{
    generate_blinker_pattern, generate_block_pattern, generate_glider_pattern,
    generate_gosper_gun_pattern,
};
use game_of_life::registry::{uptime_from, Simulations};
use std::collections::HashSet;
use std::time::Duration;

fn as_set(cells: Vec<(i32, i32)>) -> HashSet<(i32, i32)> {
    cells.into_iter().collect()
}

fn sorted(mut cells: Vec<(i32, i32)>) -> Vec<(i32, i32)> {
    cells.sort();
    cells
}

#[test]
fn test_cell_keys_are_one_to_one() {
    let corners = [
        (0, 0),
        (1, 0),
        (0, 1),
        (-1, -1),
        (i32::MIN, i32::MIN),
        (i32::MIN, i32::MAX),
        (i32::MAX, i32::MIN),
        (i32::MAX, i32::MAX),
    ];
    let mut keys = HashSet::new();
    for (x, y) in corners {
        let key = cell_key(x, y);
        assert_eq!(key_cell(key), (x, y));
        assert!(keys.insert(key));
    }
    assert_eq!(cell_key(i32::MIN, i32::MIN), 0);
    assert_eq!(cell_key(i32::MAX, i32::MAX), u64::MAX);
    assert_eq!(key_cell(0x8000_0000_8000_0000), (0, 0));
}

#[test]
fn test_cell_set_operations() {
    let mut set = CellSet::new();
    assert!(set.is_empty());
    assert!(set.insert((1, 2)));
    assert!(!set.insert((1, 2)));
    assert!(set.insert((-3, 4)));
    assert!(set.contains((1, 2)));
    assert!(!set.contains((2, 1)));
    assert_eq!(set.len(), 2);
    assert_eq!(sorted(set.to_vec()), vec![(-3, 4), (1, 2)]);
    assert!(set.remove((1, 2)));
    assert!(!set.remove((1, 2)));
    assert_eq!(set.len(), 1);

    let a = CellSet::from_cells(&[(0, 0), (1, 1), (2, 2), (1, 1)]);
    let b = CellSet::from_cells(&[(1, 1), (3, 3)]);
    assert_eq!(a.len(), 3);
    assert_eq!(sorted(a.difference(&b).to_vec()), vec![(0, 0), (2, 2)]);
    assert_eq!(sorted(b.difference(&a).to_vec()), vec![(3, 3)]);
    let mut both = CellSet::from_cells(&[(0, 0), (1, 1), (2, 2)]);
    both.insert_all(&b);
    assert_eq!(sorted(both.to_vec()), vec![(0, 0), (1, 1), (2, 2), (3, 3)]);
    both.remove_all(&a);
    assert_eq!(sorted(both.to_vec()), vec![(3, 3)]);
    both.clear();
    assert!(both.is_empty());
}

#[test]
fn test_cell_map_operations() {
    let mut map: CellMap<u8> = CellMap::new();
    assert!(map.is_empty());
    assert_eq!(map.insert((1, 2), 7), None);
    assert_eq!(map.insert((1, 2), 8), Some(7));
    assert_eq!(map.insert((2, 1), 9), None);
    assert_eq!(map.get((1, 2)), Some(&8));
    assert_eq!(map.get((0, 0)), None);
    assert!(map.contains_key((2, 1)));
    assert_eq!(map.len(), 2);
    assert_eq!(sorted(map.cells()), vec![(1, 2), (2, 1)]);
    assert_eq!(map.remove((1, 2)), Some(8));
    assert_eq!(map.remove((1, 2)), None);
    assert_eq!(map.len(), 1);
    map.clear();
    assert!(map.is_empty());
}

#[test]
fn test_the_transition_is_a_function_of_its_input() {
    let live = vec![(1, 0), (2, 1), (0, 2), (1, 2), (2, 2), (7, 7), (8, 7), (7, 8)];
    let shuffled = vec![(7, 8), (2, 2), (1, 0), (8, 7), (0, 2), (2, 1), (7, 7), (1, 2), (1, 0)];
    for policy in [
        BoundaryPolicy::Unbounded,
        BoundaryPolicy::Bounded { width: 9, height: 9, wrap: false },
        BoundaryPolicy::Bounded { width: 9, height: 9, wrap: true },
    ] {
        let first = compute_next_generation(&live, policy);
        let second = compute_next_generation(&live, policy);
        let third = compute_next_generation(&shuffled, policy);
        assert_eq!(first, second);
        assert_eq!(as_set(first.clone()), as_set(third));
        assert_eq!(as_set(first.clone()).len(), first.len());
    }
}

#[test]
fn test_lonely_cells_die() {
    assert!(apply_game_of_life_rules(&[(5, 5)], false, None, None).is_empty());
    assert!(apply_game_of_life_rules(&[(5, 5), (6, 6)], false, None, None).is_empty());
    let row = apply_game_of_life_rules(&[(0, 0), (1, 0), (2, 0)], false, None, None);
    assert!(!row.contains(&(0, 0)));
    assert!(!row.contains(&(2, 0)));
}

#[test]
fn test_cells_with_two_or_three_neighbours_stay() {
    let next = as_set(apply_game_of_life_rules(&[(0, 0), (1, 0), (2, 0)], false, None, None));
    assert!(next.contains(&(1, 0)));
    let next = as_set(apply_game_of_life_rules(&[(0, 0), (1, 0), (0, 1), (1, 1)], false, None, None));
    assert!(next.contains(&(0, 0)));
}

#[test]
fn test_crowded_cells_die() {
    let mut block = Vec::new();
    for x in 0..3 {
        for y in 0..3 {
            block.push((x, y));
        }
    }
    let next = as_set(apply_game_of_life_rules(&block, false, None, None));
    assert!(!next.contains(&(1, 1)));
    let expected: HashSet<(i32, i32)> =
        [(0, 0), (2, 0), (0, 2), (2, 2), (1, -1), (-1, 1), (3, 1), (1, 3)].iter().cloned().collect();
    assert_eq!(next, expected);
}

#[test]
fn test_dead_cells_with_three_neighbours_are_born() {
    let next = as_set(apply_game_of_life_rules(&[(0, 0), (1, 0), (0, 1)], false, None, None));
    assert!(next.contains(&(1, 1)));
    assert_eq!(next.len(), 4);
}

#[test]
fn test_glider_moves_one_cell_in_four_generations() {
    let start = generate_glider_pattern(0, 0);
    let mut cells = start.clone();
    for _ in 0..4 {
        cells = apply_game_of_life_rules(&cells, false, None, None);
    }
    let moved: HashSet<(i32, i32)> = start.iter().map(|(x, y)| (x + 1, y + 1)).collect();
    assert_eq!(as_set(cells), moved);
}

#[test]
fn test_block_stays_for_many_generations_under_every_policy() {
    let block = vec![(1, 1), (1, 2), (2, 1), (2, 2)];
    for policy in [
        BoundaryPolicy::Unbounded,
        BoundaryPolicy::Bounded { width: 4, height: 4, wrap: false },
        BoundaryPolicy::Bounded { width: 6, height: 6, wrap: true },
    ] {
        let mut cells = block.clone();
        for _ in 0..10 {
            cells = compute_next_generation(&cells, policy);
            assert_eq!(as_set(cells.clone()), as_set(block.clone()));
        }
    }
}

#[test]
fn test_empty_generation_stays_empty_under_every_policy() {
    for policy in [
        BoundaryPolicy::Unbounded,
        BoundaryPolicy::Bounded { width: 4, height: 4, wrap: false },
        BoundaryPolicy::Bounded { width: 4, height: 4, wrap: true },
        BoundaryPolicy::Bounded { width: 0, height: -4, wrap: false },
    ] {
        assert!(compute_next_generation(&[], policy).is_empty());
    }
    assert!(apply_game_of_life_rules(&[], true, Some(5), Some(5)).is_empty());
    assert!(apply_game_of_life_rules(&[], true, None, Some(5)).is_empty());
}

#[test]
fn test_wrapping_asked_for_without_a_size_is_the_unbounded_grid() {
    let blinker = vec![(0, 0), (0, 1), (0, 2)];
    let unbounded = as_set(apply_game_of_life_rules(&blinker, false, None, None));
    assert_eq!(as_set(apply_game_of_life_rules(&blinker, true, Some(5), None)), unbounded);
    assert_eq!(as_set(apply_game_of_life_rules(&blinker, false, Some(5), Some(5))), unbounded);
    let expected: HashSet<(i32, i32)> = [(-1, 1), (0, 1), (1, 1)].iter().cloned().collect();
    assert_eq!(unbounded, expected);
    let wrapped = as_set(apply_game_of_life_rules(&blinker, true, Some(5), Some(5)));
    let expected: HashSet<(i32, i32)> = [(4, 1), (0, 1), (1, 1)].iter().cloned().collect();
    assert_eq!(wrapped, expected);
}

#[test]
fn test_cells_outside_a_bounded_grid_are_ignored() {
    let boundary = GridBoundary { width: 3, height: 3, wrap_edges: false };
    let cells = vec![(0, 0), (1, 0), (0, 1), (-1, 0), (0, -1), (5, 5)];
    let next = as_set(apply_game_of_life_rules_bounded(&cells, &boundary));
    let expected: HashSet<(i32, i32)> = [(0, 0), (1, 0), (0, 1), (1, 1)].iter().cloned().collect();
    assert_eq!(next, expected);
    let torus = GridBoundary { width: 3, height: 3, wrap_edges: true };
    let next = as_set(apply_game_of_life_rules_bounded(&[(7, 7), (8, 7), (7, 8)], &torus));
    assert!(next.is_empty());
}

#[test]
fn test_narrow_wrapping_grids() {
    let column = GridBoundary { width: 1, height: 4, wrap_edges: true };
    let live = CellSet::from_cells(&[(0, 0), (0, 1)]);
    assert_eq!(count_neighbors((0, 0), &live, column.policy()), 5);
    assert_eq!(count_neighbors((0, 2), &live, column.policy()), 3);
    let next = as_set(apply_game_of_life_rules_bounded(&[(0, 0), (0, 1)], &column));
    let expected: HashSet<(i32, i32)> = [(0, 2), (0, 3)].iter().cloned().collect();
    assert_eq!(next, expected);
}

#[test]
fn test_cells_at_the_rim_of_the_representable_grid() {
    let corner = vec![(i32::MAX, i32::MAX), (i32::MAX - 1, i32::MAX), (i32::MAX, i32::MAX - 1)];
    let next = as_set(apply_game_of_life_rules(&corner, false, None, None));
    let mut expected: HashSet<(i32, i32)> = corner.iter().cloned().collect();
    expected.insert((i32::MAX - 1, i32::MAX - 1));
    assert_eq!(next, expected);
    let edge = vec![(i32::MIN, 0), (i32::MIN, 1), (i32::MIN, 2)];
    let next = as_set(apply_game_of_life_rules(&edge, false, None, None));
    let expected: HashSet<(i32, i32)> = [(i32::MIN, 1), (i32::MIN + 1, 1)].iter().cloned().collect();
    assert_eq!(next, expected);
}

#[test]
fn test_batch_count_neighbors() {
    let live = CellSet::from_cells(&[(0, 0), (0, 1), (1, 0)]);
    let counts = batch_count_neighbors(&[(0, 0), (1, 1), (5, 5), (1, 1)], &live, true);
    assert_eq!(counts.len(), 3);
    assert_eq!(counts.get((0, 0)), Some(&2));
    assert_eq!(counts.get((1, 1)), Some(&3));
    assert_eq!(counts.get((5, 5)), Some(&0));
    assert_eq!(counts.get((0, 1)), None);
}

#[test]
fn test_patterns() {
    assert_eq!(generate_glider_pattern(0, 0), vec![(1, 0), (2, 1), (0, 2), (1, 2), (2, 2)]);
    assert_eq!(generate_glider_pattern(10, -3), vec![(11, -3), (12, -2), (10, -1), (11, -1), (12, -1)]);
    assert_eq!(generate_blinker_pattern(2, 3), vec![(3, 3), (3, 4), (3, 5)]);
    assert_eq!(generate_block_pattern(-1, -1), vec![(-1, -1), (-1, 0), (0, -1), (0, 0)]);
    let gun = generate_gosper_gun_pattern(5, 5);
    assert_eq!(gun.len(), 36);
    assert_eq!(gun[0], (5, 9));
    assert_eq!(gun[13], (19, 10));
    assert_eq!(gun[35], (40, 8));
    assert_eq!(as_set(gun.clone()).len(), 36);
    assert_eq!(generate_glider_pattern(i32::MAX - 2, i32::MAX - 2)[4], (i32::MAX, i32::MAX));

    assert_eq!(pattern_by_name("blinker"), generate_blinker_pattern(10, 10));
    assert_eq!(pattern_by_name("block"), generate_block_pattern(10, 10));
    assert_eq!(pattern_by_name("gosper_gun"), generate_gosper_gun_pattern(5, 5));
    assert_eq!(pattern_by_name("glider"), generate_glider_pattern(10, 10));
    assert_eq!(pattern_by_name("unheard of"), generate_glider_pattern(10, 10));
    let from_file = PatternConfig { pattern_type: "file".to_string(), path: "block".to_string() };
    assert_eq!(initial_pattern_cells(&from_file), generate_glider_pattern(10, 10));
    let built_in = PatternConfig { pattern_type: "embedded".to_string(), path: "block".to_string() };
    assert_eq!(initial_pattern_cells(&built_in), generate_block_pattern(10, 10));
}

#[test]
fn test_grid_state() {
    let mut state = GridState::new();
    assert!(state.is_empty());
    assert!(!state.is_dirty());
    assert_eq!(state.get_bounds(), None);
    state.clear();
    assert!(!state.is_dirty());

    state.add_cell((3, 4));
    assert!(state.is_dirty());
    state.mark_clean();
    state.add_cell((3, 4));
    assert!(!state.is_dirty());
    state.remove_cell(&(9, 9));
    assert!(!state.is_dirty());
    state.toggle_cell((5, -1));
    assert!(state.is_alive(&(5, -1)));
    assert!(state.is_dirty());
    state.toggle_cell((5, -1));
    assert!(!state.is_alive(&(5, -1)));
    state.add_cell((-2, 8));
    assert_eq!(state.cell_count(), 2);
    assert_eq!(state.count_live_cells(), 2);
    assert_eq!(state.get_bounds(), Some((-2, 4, 3, 8)));
    assert_eq!(sorted(state.get_live_positions()), vec![(-2, 8), (3, 4)]);
    assert_eq!(state.get_live_cells().len(), 2);
    let mut positions = state.get_live_grid_positions();
    positions.sort_by_key(|p| (p.x, p.y));
    assert_eq!(positions, vec![GridPosition::new(-2, 8), GridPosition::new(3, 4)]);

    let target = CellSet::from_cells(&[(3, 4), (0, 0), (1, 1)]);
    state.mark_clean();
    state.prepare_transition(target);
    assert!(state.has_pending_changes());
    assert!(!state.is_dirty());
    assert_eq!(sorted(state.get_pending_births().to_vec()), vec![(0, 0), (1, 1)]);
    assert_eq!(sorted(state.get_pending_deaths().to_vec()), vec![(-2, 8)]);
    assert_eq!(state.cell_count(), 2);
    state.apply_transition();
    assert!(!state.has_pending_changes());
    assert!(state.is_dirty());
    assert_eq!(sorted(state.get_live_positions()), vec![(0, 0), (1, 1), (3, 4)]);

    state.prepare_transition(CellSet::from_cells(&[(0, 0), (1, 1), (3, 4)]));
    assert!(!state.has_pending_changes());
    state.prepare_transition(CellSet::new());
    state.clear();
    assert!(state.is_empty());
    assert!(!state.has_pending_changes());

    state.set_from_cells(CellSet::from_cells(&[(1, 1)]));
    assert_eq!(state.get_live_positions(), vec![(1, 1)]);
    let from_list = GridState::from_positions(vec![(2, 2), (2, 2), (3, 3)]);
    assert!(from_list.is_dirty());
    assert_eq!(from_list.cell_count(), 2);
}

#[test]
fn test_grid_state_patterns() {
    let mut state = GridState::new();
    state.set_pattern_glider(1, 1);
    assert_eq!(as_set(state.get_live_positions()), as_set(generate_glider_pattern(1, 1)));
    state.set_pattern_blinker(1, 1);
    assert_eq!(state.cell_count(), 6);
    let mut state = GridState::new();
    state.set_pattern_block(0, 0);
    assert_eq!(sorted(state.get_live_positions()), vec![(0, 0), (0, 1), (1, 0), (1, 1)]);
    let mut state = GridState::new();
    state.set_pattern_toad(2, 3);
    assert_eq!(
        sorted(state.get_live_positions()),
        vec![(2, 4), (3, 3), (3, 4), (4, 3), (4, 4), (5, 3)]
    );
    let mut cells = state.get_live_positions();
    for _ in 0..2 {
        cells = apply_game_of_life_rules(&cells, false, None, None);
    }
    assert_eq!(as_set(cells), as_set(state.get_live_positions()));
}

fn settings(width: i32, height: i32, wrap_edges: bool, pattern: &str) -> GameConfig {
    GameConfig {
        grid: GridConfig { width, height, wrap_edges },
        simulation: SimulationConfig::default(),
        initial_pattern: PatternConfig {
            pattern_type: "embedded".to_string(),
            path: pattern.to_string(),
        },
    }
}

#[test]
fn test_controller() {
    let mut controller = SimulationController::new();
    let state = controller.get_state();
    assert_eq!(state.generation, 0);
    assert!(!state.is_running);
    assert_eq!((state.grid_width, state.grid_height), (100, 100));
    assert_eq!(state.population, 5);
    assert_eq!(as_set(state.live_cells), as_set(generate_glider_pattern(10, 10)));
    assert_eq!(controller.get_grid_bounds(), (5, 5, 17, 17));

    controller.load_pattern("blinker");
    assert_eq!(controller.config.initial_pattern.path, "blinker");
    let before = controller.get_state();
    assert_eq!(as_set(before.live_cells), as_set(generate_blinker_pattern(10, 10)));
    controller.step(Duration::from_millis(2));
    let after = controller.get_state();
    assert_eq!(after.generation, 1);
    assert!(!after.is_running);
    let expected: HashSet<(i32, i32)> = [(10, 11), (11, 11), (12, 11)].iter().cloned().collect();
    assert_eq!(as_set(after.live_cells), expected);
    assert_eq!(controller.simulation_state.get_cell_count(), 3);
    assert_eq!(controller.simulation_state.last_step_duration, Some(Duration::from_millis(2)));

    controller.update(true, Duration::from_millis(1));
    assert_eq!(controller.get_state().generation, 1);
    controller.start();
    assert!(controller.is_running());
    controller.update(false, Duration::from_millis(1));
    assert_eq!(controller.get_state().generation, 1);
    controller.update(true, Duration::from_millis(1));
    assert_eq!(controller.get_state().generation, 2);
    controller.pause();
    assert!(!controller.is_running());
    assert!(controller.timer.is_paused());

    controller.load_pattern("block");
    let generation = controller.get_state().generation;
    controller.step(Duration::from_millis(1));
    assert_eq!(controller.get_state().generation, generation);
    assert_eq!(controller.get_state().population, 4);

    controller.reset();
    let state = controller.get_state();
    assert_eq!(state.generation, 0);
    assert_eq!(as_set(state.live_cells), as_set(generate_block_pattern(10, 10)));

    controller.set_cells(&[]);
    assert_eq!(controller.get_state().population, 0);
    assert_eq!(controller.get_grid_bounds(), (0, 0, 50, 50));
    controller.set_cells(&[(i32::MIN, 0), (i32::MAX, 3)]);
    assert_eq!(controller.get_grid_bounds(), (i32::MIN, -5, i32::MAX, 8));

    let small = SimulationController::with_config(settings(20, 30, false, "gosper_gun"));
    assert_eq!(small.get_state().population, 36);
    let mut torus = SimulationController::with_config(settings(7, 9, true, "glider"));
    assert_eq!(torus.get_grid_bounds(), (0, 0, 7, 9));
    torus.set_cells(&[(0, 0), (0, 1), (0, 2)]);
    torus.step(Duration::from_millis(1));
    let expected: HashSet<(i32, i32)> = [(6, 1), (0, 1), (1, 1)].iter().cloned().collect();
    assert_eq!(as_set(torus.get_state().live_cells), expected);
    let mut tiny = SimulationController::with_config(settings(20, 30, false, "glider"));
    tiny.set_cells(&[]);
    assert_eq!(tiny.get_grid_bounds(), (0, 0, 20, 30));
}

#[test]
fn test_controller_keys() {
    assert_eq!(key_command('Q'), KeyCommand::Quit);
    assert_eq!(key_command('\r'), KeyCommand::Advance);
    assert_eq!(key_command('='), KeyCommand::SpeedUp);
    assert_eq!(key_command('x'), KeyCommand::Ignored);

    let mut controller = SimulationController::new();
    assert!(input_system(&mut controller, 'q'));
    assert!(!input_system(&mut controller, '\n'));
    assert!(controller.timer.force_step);
    assert!(!input_system(&mut controller, ' '));
    assert!(controller.is_running());
    assert!(!input_system(&mut controller, ' '));
    assert!(!controller.is_running());
    assert!(!input_system(&mut controller, '+'));
    assert_eq!(controller.timer.steps_per_second(), 20);
    assert!(!input_system(&mut controller, '-'));
    assert!(!input_system(&mut controller, '-'));
    assert_eq!(controller.timer.steps_per_second(), 5);
    assert!(!input_system(&mut controller, 'i'));
    assert!(!input_system(&mut controller, 'c'));
    assert!(controller.grid_state.is_empty());
    assert!(!input_system(&mut controller, 'g'));
    assert_eq!(
        as_set(controller.grid_state.get_live_positions()),
        as_set(generate_glider_pattern(10, 10))
    );
    assert_eq!(controller.spawn_point(), (11, 11));
    assert!(!input_system(&mut controller, 'B'));
    let mut expected = as_set(generate_glider_pattern(10, 10));
    expected.extend(generate_blinker_pattern(11, 11));
    assert_eq!(as_set(controller.grid_state.get_live_positions()), expected);
    controller.set_cells(&[(i32::MAX, i32::MAX)]);
    assert!(!input_system(&mut controller, 'g'));
    assert_eq!(controller.grid_state.cell_count(), 1);
    controller.set_cells(&[(-3, -3), (-4, -8)]);
    assert_eq!(controller.spawn_point(), (-3, -5));
    controller.simulation_state.generation = 9;
    assert!(!input_system(&mut controller, 'r'));
    assert_eq!(controller.get_state().generation, 0);
    assert_eq!(
        as_set(controller.grid_state.get_live_positions()),
        as_set(generate_glider_pattern(10, 10))
    );
}

#[test]
fn test_simulation_data() {
    let mut registry = Simulations::new();
    let id = registry.create_simulation(6, 4, Some("glider".to_string()));
    assert!(registry.uptime_seconds() >= 0);
    {
        let simulation = registry.get_simulation(&id).unwrap();
        assert_eq!(simulation.id, id);
        assert_eq!(simulation.generation, 0);
        assert_eq!((simulation.width, simulation.height), (6, 4));
        assert!(!simulation.wrap_edges);
        assert!(!simulation.is_running);
        assert!(simulation.cells.is_empty());
    }
    let simulation = registry.get_simulation_mut(&id).unwrap();
    simulation.set_cells(&[(0, 0), (5, 3), (6, 3), (5, 4), (-1, 0), (0, 0)]);
    assert_eq!(sorted(simulation.get_live_cells()), vec![(0, 0), (5, 3)]);
    assert_eq!(simulation.get_live_cell_count(), 2);
    assert_eq!(simulation.cells.get((0, 0)), Some(&CellState::new()));

    assert_eq!(simulation.add_pattern(&[(0, 0), (1, 0), (1, 0), (2, 0)], 4, 3), 1);
    assert_eq!(simulation.add_pattern(&[(0, 0), (1, 0)], i32::MAX, i32::MIN), 0);
    assert_eq!(simulation.add_pattern(&[(0, 0), (0, 1), (0, 2)], 2, 1), 3);
    assert_eq!(simulation.add_pattern(&[(0, 0), (0, 1), (0, 2)], 2, 1), 0);
    assert_eq!(simulation.get_live_cell_count(), 6);

    simulation.set_cells(&[(0, 1), (1, 1), (2, 1)]);
    simulation.step();
    assert_eq!(simulation.generation, 1);
    assert_eq!(sorted(simulation.get_live_cells()), vec![(1, 0), (1, 1), (1, 2)]);
    assert_eq!(
        simulation.cells.get((1, 1)),
        Some(&CellState { alive: true, generation: 1, neighbor_count: 2 })
    );
    assert_eq!(
        simulation.cells.get((1, 0)),
        Some(&CellState { alive: true, generation: 1, neighbor_count: 3 })
    );
    simulation.advance(3);
    assert_eq!(simulation.generation, 4);
    assert_eq!(sorted(simulation.get_live_cells()), vec![(0, 1), (1, 1), (2, 1)]);
    simulation.advance(0);
    assert_eq!(simulation.generation, 4);

    simulation.wrap_edges = true;
    simulation.set_cells(&[(0, 0), (0, 1), (0, 2)]);
    simulation.step();
    assert_eq!(sorted(simulation.get_live_cells()), vec![(0, 1), (1, 1), (5, 1)]);
    simulation.wrap_edges = false;
    simulation.set_cells(&[(0, 0), (0, 1), (0, 2)]);
    simulation.step();
    assert_eq!(sorted(simulation.get_live_cells()), vec![(0, 1), (1, 1)]);
}

#[test]
fn test_registry() {
    let mut registry = Simulations::new();
    assert!(registry.get_simulation("a").is_none());
    assert!(!registry.delete_simulation("a"));
    registry.register("a".to_string(), 3, 3);
    registry.register("b".to_string(), 4, 4);
    registry.get_simulation_mut("a").unwrap().generation = 5;
    assert_eq!(registry.get_simulation("a").unwrap().generation, 5);
    assert_eq!(registry.get_simulation("b").unwrap().generation, 0);
    registry.register("a".to_string(), 7, 7);
    assert_eq!(registry.get_simulation("a").unwrap().generation, 0);
    assert_eq!(registry.get_simulation("a").unwrap().width, 7);
    assert_eq!(registry.get_simulation("b").unwrap().width, 4);
    assert!(registry.get_simulation_mut("c").is_none());
    assert!(registry.delete_simulation("a"));
    assert!(registry.get_simulation("a").is_none());
    assert_eq!(registry.get_simulation("b").unwrap().width, 4);
    assert!(!registry.delete_simulation("a"));

    registry.register("c".to_string(), 3, 3);
    assert!(registry.set_cells("c", &[(0, 0), (2, 2), (3, 3)]));
    assert!(!registry.set_cells("nowhere", &[(0, 0)]));
    assert_eq!(registry.get_simulation("c").unwrap().get_live_cell_count(), 2);
    assert_eq!(registry.add_pattern("c", &[(0, 0), (1, 0), (2, 0)], 1, 0), Some(2));
    assert_eq!(registry.add_pattern("c", &[(0, 0), (1, 0), (2, 0)], 1, 0), Some(0));
    assert_eq!(registry.add_pattern("nowhere", &[(0, 0)], 0, 0), None);
    assert_eq!(registry.get_simulation("c").unwrap().get_live_cell_count(), 4);
    assert_eq!(registry.get_simulation("b").unwrap().get_live_cell_count(), 0);

    let torus = registry.create(5, 5, true, None);
    let flat = registry.create(5, 5, false, Some("glider".to_string()));
    assert!(registry.get_simulation(&torus).unwrap().wrap_edges);
    assert!(!registry.get_simulation(&flat).unwrap().wrap_edges);
    registry.register_with("d".to_string(), 4, 4, true);
    assert!(registry.get_simulation("d").unwrap().wrap_edges);
    assert!(!registry.get_simulation("b").unwrap().wrap_edges);
    for id in [&torus, &flat] {
        assert!(registry.set_cells(id, &[(0, 0), (0, 1), (0, 2)]));
        registry.get_simulation_mut(id).unwrap().step();
    }
    let mut wrapped = registry.get_simulation(&torus).unwrap().get_live_cells();
    wrapped.sort();
    assert_eq!(wrapped, vec![(0, 1), (1, 1), (4, 1)]);
    let mut clipped = registry.get_simulation(&flat).unwrap().get_live_cells();
    clipped.sort();
    assert_eq!(clipped, vec![(0, 1), (1, 1)]);

    assert_eq!(uptime_from(None), 0);
    assert_eq!(uptime_from(Some(0)), 0);
    assert_eq!(uptime_from(Some(86400)), 86400);
    assert_eq!(uptime_from(Some(i64::MAX as u64)), i64::MAX);
    assert_eq!(uptime_from(Some(i64::MAX as u64 + 1)), i64::MAX);
    assert_eq!(uptime_from(Some(u64::MAX)), i64::MAX);
}
