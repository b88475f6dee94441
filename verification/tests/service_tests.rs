use game_of_life::components::Position;
use game_of_life::service::{
    status_response, Cell, CreateSimulationRequest, DeleteSimulationRequest, ErrorKind, GameOfLifeServiceImpl,
    GetSimulationRequest, LoadPatternRequest, Pattern, StepSimulationRequest, StreamRequest,
    UpdateSimulationRequest,
};
use game_of_life::stream::StreamState;

fn create_test_service() -> GameOfLifeServiceImpl {
    GameOfLifeServiceImpl::new()
}

fn create(service: &mut GameOfLifeServiceImpl, width: i32, height: i32) -> String {
    service
        .create_simulation(CreateSimulationRequest {
            width,
            height,
            initial_pattern: String::new(),
        })
        .unwrap()
        .id
}

fn alive(x: i32, y: i32) -> Cell {
    Cell { x, y, alive: true, neighbors: 0 }
}

#[test]
fn test_get_status() {
    let service = create_test_service();
    let status = service.get_status();

    assert_eq!(status.status, "healthy");
    assert_eq!(status.version, "1.0.0");
    assert_eq!(status.implementation, "bevy");
    assert!(status.uptime_seconds >= 0);
}

#[test]
fn test_create_simulation() {
    let mut service = create_test_service();
    let simulation = service
        .create_simulation(CreateSimulationRequest {
            width: 100,
            height: 100,
            initial_pattern: String::new(),
        })
        .unwrap();

    assert!(!simulation.id.is_empty());
    assert_eq!(simulation.generation, 0);
    assert_eq!(simulation.live_cells, 0);
    assert!(simulation.grid.is_some());
    assert_eq!(simulation.grid.unwrap().width, 100);
    assert_eq!(simulation.grid.unwrap().height, 100);
    assert!(simulation.cells.is_empty());
}

#[test]
fn test_create_simulation_invalid_dimensions() {
    let mut service = create_test_service();

    let result = service.create_simulation(CreateSimulationRequest {
        width: 0,
        height: 100,
        initial_pattern: String::new(),
    });
    assert!(result.is_err());
    let error = result.unwrap_err();
    assert_eq!(error.kind(), ErrorKind::InvalidArgument);
    assert_eq!(error.message(), "Width and height must be positive");

    let result = service.create_simulation(CreateSimulationRequest {
        width: 100,
        height: -1,
        initial_pattern: String::new(),
    });
    assert!(result.is_err());

    let result = service.create_simulation(CreateSimulationRequest {
        width: 2000,
        height: 2000,
        initial_pattern: String::new(),
    });
    assert!(result.is_err());
    let error = result.unwrap_err();
    assert_eq!(error.kind(), ErrorKind::InvalidArgument);
    assert_eq!(error.message(), "Grid size too large (max 1000x1000)");
}

#[test]
fn test_create_simulation_largest_grid() {
    let mut service = create_test_service();
    let result = service.create_simulation(CreateSimulationRequest {
        width: 1000,
        height: 1000,
        initial_pattern: String::new(),
    });
    assert!(result.is_ok());
    let result = service.create_simulation(CreateSimulationRequest {
        width: 1001,
        height: 1000,
        initial_pattern: String::new(),
    });
    assert!(result.is_err());
}

#[test]
fn test_created_ids_are_distinct_and_hyphenated() {
    let mut service = create_test_service();
    let first = create(&mut service, 10, 10);
    let second = create(&mut service, 10, 10);
    assert_ne!(first, second);
    assert_eq!(first.len(), 36);
    assert_eq!(first.chars().filter(|c| *c == '-').count(), 4);
}

#[test]
fn test_get_simulation() {
    let mut service = create_test_service();
    let id = create(&mut service, 50, 50);

    let simulation = service.get_simulation(GetSimulationRequest { id: id.clone() }).unwrap();

    assert_eq!(simulation.id, id);
    assert_eq!(simulation.generation, 0);
    assert_eq!(simulation.live_cells, 0);
    assert!(simulation.grid.is_some());
    assert_eq!(simulation.grid.unwrap().width, 50);
    assert_eq!(simulation.grid.unwrap().height, 50);
}

#[test]
fn test_get_simulation_not_found() {
    let service = create_test_service();
    let result = service.get_simulation(GetSimulationRequest { id: "non-existent-id".to_string() });
    assert!(result.is_err());
    let error = result.unwrap_err();
    assert_eq!(error.kind(), ErrorKind::NotFound);
    assert_eq!(error.message(), "Simulation not found");
}

#[test]
fn test_update_simulation() {
    let mut service = create_test_service();
    let id = create(&mut service, 50, 50);

    let updated = service
        .update_simulation(UpdateSimulationRequest {
            id: id.clone(),
            generation: 1,
            cells: vec![alive(25, 24), alive(25, 25), alive(25, 26)],
        })
        .unwrap();

    assert_eq!(updated.id, id);
    assert_eq!(updated.generation, 1);
    assert_eq!(updated.live_cells, 3);
    assert_eq!(updated.cells.len(), 3);
}

#[test]
fn test_update_simulation_drops_cells_outside_the_grid() {
    let mut service = create_test_service();
    let id = create(&mut service, 5, 5);

    let updated = service
        .update_simulation(UpdateSimulationRequest {
            id: id.clone(),
            generation: 0,
            cells: vec![alive(0, 0), alive(5, 0), alive(-1, 2), alive(4, 4), alive(0, 5)],
        })
        .unwrap();

    assert_eq!(updated.generation, 0);
    assert_eq!(updated.live_cells, 2);
    let mut positions: Vec<(i32, i32)> = updated.cells.iter().map(|c| (c.x, c.y)).collect();
    positions.sort();
    assert_eq!(positions, vec![(0, 0), (4, 4)]);
}

#[test]
fn test_update_simulation_keeps_cells_for_an_empty_list() {
    let mut service = create_test_service();
    let id = create(&mut service, 5, 5);
    service
        .update_simulation(UpdateSimulationRequest {
            id: id.clone(),
            generation: 0,
            cells: vec![alive(1, 1)],
        })
        .unwrap();
    let updated = service
        .update_simulation(UpdateSimulationRequest { id: id.clone(), generation: 7, cells: vec![] })
        .unwrap();
    assert_eq!(updated.generation, 7);
    assert_eq!(updated.live_cells, 1);
}

#[test]
fn test_update_simulation_last_listing_wins_and_dead_cells_are_not_reported() {
    let mut service = create_test_service();
    let id = create(&mut service, 5, 5);
    let updated = service
        .update_simulation(UpdateSimulationRequest {
            id: id.clone(),
            generation: 0,
            cells: vec![
                Cell { x: 1, y: 1, alive: true, neighbors: 2 },
                Cell { x: 1, y: 1, alive: false, neighbors: 0 },
                Cell { x: 2, y: 2, alive: true, neighbors: 3 },
            ],
        })
        .unwrap();
    assert_eq!(updated.live_cells, 1);
    assert_eq!(updated.cells, vec![Cell { x: 2, y: 2, alive: true, neighbors: 3 }]);
}

#[test]
fn test_update_simulation_not_found() {
    let mut service = create_test_service();
    let result = service.update_simulation(UpdateSimulationRequest {
        id: "missing".to_string(),
        generation: 1,
        cells: vec![],
    });
    assert_eq!(result.unwrap_err().kind(), ErrorKind::NotFound);
}

#[test]
fn test_delete_simulation() {
    let mut service = create_test_service();
    let id = create(&mut service, 50, 50);

    let result = service.delete_simulation(DeleteSimulationRequest { id: id.clone() });

    assert!(result.success);
    assert_eq!(result.message, "Simulation deleted successfully");

    let get_result = service.get_simulation(GetSimulationRequest { id });
    assert!(get_result.is_err());
}

#[test]
fn test_delete_simulation_twice() {
    let mut service = create_test_service();
    let id = create(&mut service, 50, 50);
    assert!(service.delete_simulation(DeleteSimulationRequest { id: id.clone() }).success);
    let again = service.delete_simulation(DeleteSimulationRequest { id: id.clone() });
    assert!(!again.success);
    assert_eq!(again.message, "Simulation not found");
}

#[test]
fn test_deleted_simulation_is_gone_for_every_request() {
    let mut service = create_test_service();
    let id = create(&mut service, 50, 50);
    let mut stream = service
        .stream_simulation(StreamRequest { id: id.clone(), auto_step: true, step_interval_ms: 10 })
        .unwrap();
    assert!(service.delete_simulation(DeleteSimulationRequest { id: id.clone() }).success);

    let get = service.get_simulation(GetSimulationRequest { id: id.clone() });
    assert_eq!(get.unwrap_err().kind(), ErrorKind::NotFound);
    let step = service.step_simulation(StepSimulationRequest { id: id.clone(), steps: 1 });
    assert_eq!(step.unwrap_err().kind(), ErrorKind::NotFound);
    let open = service.stream_simulation(StreamRequest {
        id: id.clone(),
        auto_step: true,
        step_interval_ms: 10,
    });
    assert_eq!(open.err().unwrap().kind(), ErrorKind::NotFound);

    let event = stream.tick(&mut service.simulations);
    let error = event.unwrap().unwrap_err();
    assert_eq!(error.kind(), ErrorKind::NotFound);
    assert_eq!(stream.state(), StreamState::Cancelled);
    assert!(stream.tick(&mut service.simulations).is_none());
}

#[test]
fn test_step_simulation() {
    let mut service = create_test_service();
    let id = create(&mut service, 50, 50);

    service
        .update_simulation(UpdateSimulationRequest {
            id: id.clone(),
            generation: 0,
            cells: vec![alive(25, 24), alive(25, 25), alive(25, 26)],
        })
        .unwrap();

    let result =
        service.step_simulation(StepSimulationRequest { id: id.clone(), steps: 1 }).unwrap();

    assert_eq!(result.generation, 1);
    assert_eq!(result.live_cells, 3);
    assert!(result.changed_cells >= 0);
    assert_eq!(result.changed_cells, 0);
}

#[test]
fn test_step_simulation_treats_steps_below_one_as_one() {
    let mut service = create_test_service();
    let id = create(&mut service, 50, 50);
    let result =
        service.step_simulation(StepSimulationRequest { id: id.clone(), steps: 0 }).unwrap();
    assert_eq!(result.generation, 1);
    let result =
        service.step_simulation(StepSimulationRequest { id: id.clone(), steps: -5 }).unwrap();
    assert_eq!(result.generation, 2);
    let result =
        service.step_simulation(StepSimulationRequest { id: id.clone(), steps: 3 }).unwrap();
    assert_eq!(result.generation, 5);
}

#[test]
fn test_step_simulation_reports_the_change_over_the_whole_call() {
    let mut service = create_test_service();
    let id = create(&mut service, 50, 50);
    service
        .update_simulation(UpdateSimulationRequest {
            id: id.clone(),
            generation: 0,
            cells: vec![alive(10, 10), alive(11, 10), alive(10, 11)],
        })
        .unwrap();
    let result =
        service.step_simulation(StepSimulationRequest { id: id.clone(), steps: 2 }).unwrap();
    assert_eq!(result.generation, 2);
    assert_eq!(result.live_cells, 4);
    assert_eq!(result.changed_cells, 1);
}

#[test]
fn test_step_simulation_fails_where_the_counter_is_exhausted() {
    let mut service = create_test_service();
    let id = create(&mut service, 5, 5);
    service.simulations.get_simulation_mut(&id).unwrap().generation = u64::MAX;
    let result = service.step_simulation(StepSimulationRequest { id: id.clone(), steps: 1 });
    assert_eq!(result.unwrap_err().kind(), ErrorKind::Internal);
    assert_eq!(service.simulations.get_simulation(&id).unwrap().generation, u64::MAX);
}

#[test]
fn test_load_pattern() {
    let mut service = create_test_service();
    let id = create(&mut service, 50, 50);

    let result = service
        .load_pattern(LoadPatternRequest {
            id: id.clone(),
            pattern: Some(Pattern {
                name: "glider".to_string(),
                description: "A simple glider pattern".to_string(),
                author: "John Conway".to_string(),
                cells: vec![
                    Position { x: 0, y: 1 },
                    Position { x: 1, y: 2 },
                    Position { x: 2, y: 0 },
                    Position { x: 2, y: 1 },
                    Position { x: 2, y: 2 },
                ],
            }),
            position: Some(Position { x: 10, y: 10 }),
        })
        .unwrap();

    assert!(result.success);
    assert_eq!(result.cells_added, 5);
    assert!(result.message.contains("glider"));
    assert_eq!(result.message, "Pattern 'glider' loaded successfully");
}

fn block_request(id: &str, x: i32, y: i32) -> LoadPatternRequest {
    LoadPatternRequest {
        id: id.to_string(),
        pattern: Some(Pattern {
            name: "block".to_string(),
            description: String::new(),
            author: String::new(),
            cells: vec![
                Position { x: 0, y: 0 },
                Position { x: 0, y: 1 },
                Position { x: 1, y: 0 },
                Position { x: 1, y: 1 },
            ],
        }),
        position: Some(Position { x, y }),
    }
}

#[test]
fn test_load_pattern_twice_adds_nothing_the_second_time() {
    let mut service = create_test_service();
    let id = create(&mut service, 50, 50);
    let first = service.load_pattern(block_request(&id, 3, 3)).unwrap();
    assert_eq!(first.cells_added, 4);
    let second = service.load_pattern(block_request(&id, 3, 3)).unwrap();
    assert!(!second.success);
    assert_eq!(second.cells_added, 0);
    assert_eq!(
        second.message,
        "No cells were added (pattern outside grid or cells already exist)"
    );
    let state = service.get_simulation(GetSimulationRequest { id }).unwrap();
    assert_eq!(state.live_cells, 4);
}

#[test]
fn test_load_pattern_skips_cells_outside_the_grid_and_taken_cells() {
    let mut service = create_test_service();
    let id = create(&mut service, 5, 5);
    let at_edge = service.load_pattern(block_request(&id, 4, 4)).unwrap();
    assert_eq!(at_edge.cells_added, 1);
    let overlapping = service.load_pattern(block_request(&id, 3, 3)).unwrap();
    assert_eq!(overlapping.cells_added, 3);
    let outside = service.load_pattern(block_request(&id, -5, 9)).unwrap();
    assert_eq!(outside.cells_added, 0);
    let far = service.load_pattern(block_request(&id, i32::MAX, i32::MAX)).unwrap();
    assert_eq!(far.cells_added, 0);
}

#[test]
fn test_load_pattern_failures() {
    let mut service = create_test_service();
    let id = create(&mut service, 5, 5);

    let missing = service.load_pattern(block_request("nowhere", 0, 0));
    assert_eq!(missing.unwrap_err().kind(), ErrorKind::NotFound);

    let mut no_pattern = block_request(&id, 0, 0);
    no_pattern.pattern = None;
    let error = service.load_pattern(no_pattern).unwrap_err();
    assert_eq!(error.kind(), ErrorKind::InvalidArgument);
    assert_eq!(error.message(), "Pattern is required");

    let mut no_position = block_request(&id, 0, 0);
    no_position.position = None;
    let error = service.load_pattern(no_position).unwrap_err();
    assert_eq!(error.kind(), ErrorKind::InvalidArgument);
    assert_eq!(error.message(), "Position is required");

    let mut neither = block_request("nowhere", 0, 0);
    neither.pattern = None;
    neither.position = None;
    assert_eq!(service.load_pattern(neither).unwrap_err().kind(), ErrorKind::NotFound);
}

#[test]
fn test_blinker_pattern_behavior() {
    let mut service = create_test_service();
    let id = create(&mut service, 50, 50);

    service
        .update_simulation(UpdateSimulationRequest {
            id: id.clone(),
            generation: 0,
            cells: vec![alive(25, 24), alive(25, 25), alive(25, 26)],
        })
        .unwrap();

    let result =
        service.step_simulation(StepSimulationRequest { id: id.clone(), steps: 1 }).unwrap();

    assert_eq!(result.generation, 1);
    assert_eq!(result.live_cells, 3);

    let simulation = service.get_simulation(GetSimulationRequest { id: id.clone() }).unwrap();

    assert_eq!(simulation.cells.len(), 3);
    let mut positions: Vec<(i32, i32)> = simulation.cells.iter().map(|c| (c.x, c.y)).collect();
    positions.sort();
    assert_eq!(positions, vec![(24, 25), (25, 25), (26, 25)]);
    for cell in &simulation.cells {
        assert!(cell.alive);
        let expected = if (cell.x, cell.y) == (25, 25) { 2 } else { 3 };
        assert_eq!(cell.neighbors, expected);
    }
}

#[test]
fn test_block_pattern_stability() {
    let mut service = create_test_service();
    let id = create(&mut service, 50, 50);

    service
        .update_simulation(UpdateSimulationRequest {
            id: id.clone(),
            generation: 0,
            cells: vec![alive(25, 25), alive(25, 26), alive(26, 25), alive(26, 26)],
        })
        .unwrap();

    for _ in 0..5 {
        let result =
            service.step_simulation(StepSimulationRequest { id: id.clone(), steps: 1 }).unwrap();
        assert_eq!(result.live_cells, 4);
    }
}

#[test]
fn test_empty_simulation_behavior() {
    let mut service = create_test_service();
    let id = create(&mut service, 50, 50);

    let result =
        service.step_simulation(StepSimulationRequest { id: id.clone(), steps: 1 }).unwrap();

    assert_eq!(result.generation, 1);
    assert_eq!(result.live_cells, 0);
    assert_eq!(result.changed_cells, 0);
}

#[test]
fn test_multiple_simulations() {
    let mut service = create_test_service();

    let mut simulation_ids = Vec::new();
    for i in 0..3 {
        simulation_ids.push(create(&mut service, 50 + i * 10, 50 + i * 10));
    }

    for id in &simulation_ids {
        let simulation = service.get_simulation(GetSimulationRequest { id: id.clone() }).unwrap();
        assert_eq!(simulation.id, *id);
    }

    let delete_response =
        service.delete_simulation(DeleteSimulationRequest { id: simulation_ids[1].clone() });
    assert!(delete_response.success);

    let get_result =
        service.get_simulation(GetSimulationRequest { id: simulation_ids[1].clone() });
    assert!(get_result.is_err());

    for (i, id) in simulation_ids.iter().enumerate() {
        if i != 1 {
            let get_response = service.get_simulation(GetSimulationRequest { id: id.clone() });
            assert!(get_response.is_ok());
            assert_eq!(get_response.unwrap().grid.unwrap().width, 50 + (i as i32) * 10);
        }
    }
}

#[test]
fn test_steps_on_one_simulation_leave_the_other_alone() {
    let mut service = create_test_service();
    let first = create(&mut service, 20, 20);
    let second = create(&mut service, 20, 20);
    for id in [&first, &second] {
        service
            .update_simulation(UpdateSimulationRequest {
                id: id.clone(),
                generation: 0,
                cells: vec![alive(5, 4), alive(5, 5), alive(5, 6)],
            })
            .unwrap();
    }
    service.step_simulation(StepSimulationRequest { id: first.clone(), steps: 3 }).unwrap();

    let untouched = service.get_simulation(GetSimulationRequest { id: second.clone() }).unwrap();
    assert_eq!(untouched.generation, 0);
    let mut positions: Vec<(i32, i32)> = untouched.cells.iter().map(|c| (c.x, c.y)).collect();
    positions.sort();
    assert_eq!(positions, vec![(5, 4), (5, 5), (5, 6)]);

    let stepped = service.get_simulation(GetSimulationRequest { id: first.clone() }).unwrap();
    assert_eq!(stepped.generation, 3);
    let mut positions: Vec<(i32, i32)> = stepped.cells.iter().map(|c| (c.x, c.y)).collect();
    positions.sort();
    assert_eq!(positions, vec![(4, 5), (5, 5), (6, 5)]);
}

#[test]
fn test_stream_steps_and_ends_when_the_cells_die_out() {
    let mut service = create_test_service();
    let id = create(&mut service, 20, 20);
    service
        .update_simulation(UpdateSimulationRequest {
            id: id.clone(),
            generation: 0,
            cells: vec![alive(5, 5), alive(6, 5)],
        })
        .unwrap();
    let mut stream = service
        .stream_simulation(StreamRequest { id: id.clone(), auto_step: true, step_interval_ms: 0 })
        .unwrap();
    assert_eq!(stream.interval_ms(), 1000);
    assert!(stream.is_active());

    let update = stream.tick(&mut service.simulations).unwrap().unwrap();
    assert_eq!(update.generation, 1);
    assert_eq!(update.live_cells, 0);
    assert!(update.changed_cells.is_empty());
    assert!(update.simulation_ended);
    assert_eq!(stream.state(), StreamState::Ended);
    assert!(stream.tick(&mut service.simulations).is_none());
    let state = service.get_simulation(GetSimulationRequest { id }).unwrap();
    assert_eq!(state.generation, 1);
}

#[test]
fn test_stream_without_auto_step_reports_and_does_not_advance() {
    let mut service = create_test_service();
    let id = create(&mut service, 20, 20);
    service
        .update_simulation(UpdateSimulationRequest {
            id: id.clone(),
            generation: 4,
            cells: vec![alive(5, 5), alive(6, 5), alive(5, 6), alive(6, 6)],
        })
        .unwrap();
    let mut stream = service
        .stream_simulation(StreamRequest { id: id.clone(), auto_step: false, step_interval_ms: 250 })
        .unwrap();
    assert_eq!(stream.interval_ms(), 250);
    for _ in 0..3 {
        let update = stream.tick(&mut service.simulations).unwrap().unwrap();
        assert_eq!(update.generation, 4);
        assert_eq!(update.live_cells, 4);
        assert_eq!(update.changed_cells.len(), 4);
        assert!(!update.simulation_ended);
        assert!(stream.is_active());
    }
    stream.cancel();
    assert_eq!(stream.state(), StreamState::Cancelled);
    assert!(stream.tick(&mut service.simulations).is_none());
}

#[test]
fn test_stream_of_unknown_simulation_is_refused() {
    let service = create_test_service();
    let result = service.stream_simulation(StreamRequest {
        id: "unknown".to_string(),
        auto_step: true,
        step_interval_ms: 100,
    });
    assert_eq!(result.err().unwrap().kind(), ErrorKind::NotFound);
}

#[test]
fn test_load_pattern_revives_cells_stored_as_dead() {
    let mut service = create_test_service();
    let id = create(&mut service, 3, 3);
    let updated = service
        .update_simulation(UpdateSimulationRequest {
            id: id.clone(),
            generation: 0,
            cells: vec![Cell { x: 1, y: 1, alive: false, neighbors: 0 }],
        })
        .unwrap();
    assert_eq!(updated.live_cells, 0);

    let one_cell = |id: &str| LoadPatternRequest {
        id: id.to_string(),
        pattern: Some(Pattern {
            name: "dot".to_string(),
            description: String::new(),
            author: String::new(),
            cells: vec![Position { x: 0, y: 0 }],
        }),
        position: Some(Position { x: 1, y: 1 }),
    };
    let first = service.load_pattern(one_cell(&id)).unwrap();
    assert!(first.success);
    assert_eq!(first.cells_added, 1);
    assert_eq!(first.message, "Pattern 'dot' loaded successfully");
    let state = service.get_simulation(GetSimulationRequest { id: id.clone() }).unwrap();
    assert_eq!(state.live_cells, 1);
    assert_eq!(state.cells, vec![Cell { x: 1, y: 1, alive: true, neighbors: 0 }]);

    let second = service.load_pattern(one_cell(&id)).unwrap();
    assert!(!second.success);
    assert_eq!(second.cells_added, 0);
    let state = service.get_simulation(GetSimulationRequest { id }).unwrap();
    assert_eq!(state.live_cells, 1);
}

#[test]
fn test_load_pattern_leaves_other_dead_cells_as_they_are() {
    let mut service = create_test_service();
    let id = create(&mut service, 4, 4);
    service
        .update_simulation(UpdateSimulationRequest {
            id: id.clone(),
            generation: 0,
            cells: vec![
                Cell { x: 0, y: 0, alive: false, neighbors: 5 },
                Cell { x: 1, y: 0, alive: false, neighbors: 6 },
                Cell { x: 2, y: 0, alive: true, neighbors: 7 },
            ],
        })
        .unwrap();
    let added = service.simulations.add_pattern(&id, &[(1, 0), (2, 0), (3, 0), (1, 0)], 0, 0);
    assert_eq!(added, Some(2));
    let simulation = service.simulations.get_simulation(&id).unwrap();
    let state = |x: i32, y: i32| simulation.cells.get((x, y)).map(|s| (s.alive, s.neighbor_count));
    assert_eq!(state(0, 0), Some((false, 5)));
    assert_eq!(state(1, 0), Some((true, 0)));
    assert_eq!(state(2, 0), Some((true, 7)));
    assert_eq!(state(3, 0), Some((true, 0)));
    assert_eq!(simulation.get_live_cell_count(), 3);
}

#[test]
fn test_status_response_for_every_answer_of_the_clock() {
    let status = status_response(Some(3601));
    assert_eq!(status.status, "healthy");
    assert_eq!(status.version, "1.0.0");
    assert_eq!(status.implementation, "bevy");
    assert_eq!(status.uptime_seconds, 3601);
    assert_eq!(status_response(None).uptime_seconds, 0);
    assert_eq!(status_response(Some(u64::MAX)).uptime_seconds, i64::MAX);
}
