use game_of_life::client::{
    convert_to_grpc_pattern, named_pattern_file, pattern_extent, pattern_file_path, play_continues,
    status_text, BackendTarget,
};
use game_of_life::commands::{parse_command, parse_number, split_words, Command};
use game_of_life::components::Position;
use game_of_life::console_input::{lower_key, ConsoleInput, InputEvent, InputState};
use game_of_life::display::GridDisplay;
use game_of_life::input_handler::{InputAction, InputHandler, Key};
use game_of_life::menu::{MenuSystem, MenuType};
use game_of_life::models::{health_check, HealthService, PatternCell, PatternFile};
use game_of_life::renderer::{ConsoleRenderer, RenderConfig, SimulationSnapshot};
use game_of_life::service::{Cell, GridInfo, SimulationResponse, StatusResponse, StepResponse};
use std::time::Duration;

fn snapshot(cells: Vec<(i32, i32)>, generation: u64, running: bool) -> SimulationSnapshot {
    let population = cells.len();
    SimulationSnapshot {
        generation,
        live_cells: cells,
        population,
        is_running: running,
        grid_width: 100,
        grid_height: 100,
    }
}

#[test]
fn test_renderer_viewport() {
    let mut renderer = ConsoleRenderer::default();
    let config = *renderer.get_render_config();
    assert_eq!(config, RenderConfig::default());
    assert_eq!(config.alive_char, '#');
    assert_eq!(config.dead_char, ' ');
    assert_eq!(config.border_char, '.');
    assert_eq!((config.viewport_width, config.viewport_height), (80, 24));

    renderer.set_viewport(3, 4, 11, 7);
    let config = *renderer.get_render_config();
    assert_eq!(
        (config.viewport_x, config.viewport_y, config.viewport_width, config.viewport_height),
        (3, 4, 11, 7)
    );
    renderer.center_viewport(0, 0);
    let config = *renderer.get_render_config();
    assert_eq!((config.viewport_x, config.viewport_y), (-5, -3));
    renderer.move_viewport(7, -2);
    let config = *renderer.get_render_config();
    assert_eq!((config.viewport_x, config.viewport_y), (2, -5));

    renderer.set_viewport(0, 0, -7, -4);
    renderer.center_viewport(0, 0);
    let config = *renderer.get_render_config();
    assert_eq!((config.viewport_x, config.viewport_y), (3, 2));

    let other = RenderConfig { alive_char: 'O', show_border: false, ..RenderConfig::default() };
    renderer.set_render_config(other);
    assert_eq!(*renderer.get_render_config(), other);
    assert_eq!(*ConsoleRenderer::new(other).get_render_config(), other);
}

#[test]
fn test_renderer_text() {
    let renderer = ConsoleRenderer::default();
    assert_eq!(renderer.repeat_char('=', 5), "=====");
    assert_eq!(renderer.repeat_char('=', 0), "");
    assert_eq!(renderer.render_border(4), "....");
    assert_eq!(renderer.render_border(-4), "");

    let shot = snapshot(vec![(1, 0), (1, 1), (1, 2)], 42, true);
    assert_eq!(renderer.format_stats(&shot), "Gen:     42 | Cells:      3 | Status: RUNNING");
    let paused = snapshot(vec![], 1234567, false);
    assert_eq!(renderer.format_stats(&paused), "Gen: 1234567 | Cells:      0 | Status: PAUSED");

    assert_eq!(renderer.render_frame(&shot, 0, 0, 3, 3), " # \n. # \n. # ");
    assert_eq!(renderer.render_frame(&shot, 1, 1, 2, 1), "# ");
    assert_eq!(renderer.render_frame(&shot, 0, 0, 0, 2), "\n.");
    assert_eq!(renderer.render_frame(&shot, 0, 0, 3, 0), "");
    assert_eq!(renderer.render_frame(&shot, 0, 0, -3, -1), "");
    assert_eq!(renderer.render_frame(&shot, i32::MAX, i32::MAX, 2, 2), "  \n.  ");

    let plain = ConsoleRenderer::new(RenderConfig {
        alive_char: 'O',
        dead_char: '-',
        show_border: false,
        viewport_width: 6,
        ..RenderConfig::default()
    });
    assert_eq!(plain.render_frame(&shot, 0, 0, 3, 2), "-O-\n-O-");
    let mut rows = vec!["-O----"; 3];
    rows.extend(vec!["------"; 15]);
    assert_eq!(plain.render_grid(&shot), rows.join("\n"));
    let small = ConsoleRenderer::new(RenderConfig {
        viewport_x: 1,
        viewport_y: 1,
        viewport_width: 2,
        viewport_height: 8,
        show_border: false,
        show_controls: false,
        ..RenderConfig::default()
    });
    assert_eq!(small.render_grid(&shot), "# \n# \n  \n  \n  ");
    assert_eq!(
        plain.render_stats(&shot),
        "\n======\nGen:     42 | Cells:      3 | Status: RUNNING\n"
    );
    assert_eq!(
        plain.render_controls(),
        "------\nControls: [SPACE] Start/Pause | [>/.] Step | [R] Reset | [Q] Quit | [W/A/S/D] Move | [L] Load Pattern\n"
    );
}

fn key_event(key: char) -> InputEvent {
    ConsoleInput::new().process_key(key)
}

#[test]
fn test_console_input_keys() {
    assert_eq!(lower_key('A'), 'a');
    assert_eq!(lower_key('Z'), 'z');
    assert_eq!(lower_key('q'), 'q');
    assert_eq!(lower_key('@'), '@');
    assert_eq!(lower_key('['), '[');
    assert_eq!(lower_key('É'), 'É');
    for code in 0..=0x10FFFFu32 {
        if let Some(c) = char::from_u32(code) {
            assert_eq!(lower_key(c), c.to_ascii_lowercase());
        }
    }
    assert_eq!(key_event('w'), InputEvent::MoveUp);
    assert_eq!(key_event('A'), InputEvent::MoveLeft);
    assert_eq!(key_event('S'), InputEvent::MoveDown);
    assert_eq!(key_event('d'), InputEvent::MoveRight);
    assert_eq!(key_event('I'), InputEvent::ToggleStats);
    assert_eq!(key_event('H'), InputEvent::ToggleControls);
    assert_eq!(key_event('\u{1}'), InputEvent::Unknown);
    assert_eq!(key_event('\u{212A}'), InputEvent::Unknown);
    assert_eq!(key_event(' '), InputEvent::StartPause);
    assert_eq!(key_event('R'), InputEvent::Reset);
    assert_eq!(key_event('q'), InputEvent::Quit);
    assert_eq!(key_event('.'), InputEvent::Step);
    assert_eq!(key_event('>'), InputEvent::Step);
    assert_eq!(key_event('+'), InputEvent::ZoomIn);
    assert_eq!(key_event('-'), InputEvent::ZoomOut);
    assert_eq!(key_event('C'), InputEvent::CenterView);
    assert_eq!(key_event('l'), InputEvent::LoadPattern);
    assert_eq!(key_event('o'), InputEvent::SavePattern);
    assert_eq!(key_event('x'), InputEvent::Unknown);

    let mut input = ConsoleInput::new();
    assert_eq!(*input.get_state(), InputState::default());
    assert!(input.get_state().running);

    assert_eq!(input.process_key('w'), InputEvent::MoveUp);
    assert_eq!((input.get_state().viewport_delta_x, input.get_state().viewport_delta_y), (0, -5));
    assert_eq!(input.process_key('D'), InputEvent::MoveRight);
    assert_eq!((input.get_state().viewport_delta_x, input.get_state().viewport_delta_y), (5, 0));
    assert_eq!(input.get_move_speed(), 5);
    input.set_move_speed(2);
    assert_eq!(input.get_move_speed(), 2);
    assert_eq!(input.process_key('a'), InputEvent::MoveLeft);
    assert_eq!((input.get_state().viewport_delta_x, input.get_state().viewport_delta_y), (-2, 0));
    assert_eq!(input.process_key('s'), InputEvent::MoveDown);
    assert_eq!((input.get_state().viewport_delta_x, input.get_state().viewport_delta_y), (0, 2));

    assert_eq!(input.process_key('i'), InputEvent::ToggleStats);
    assert!(!input.get_state().stats_visible);
    assert_eq!(input.process_key('h'), InputEvent::ToggleControls);
    assert!(!input.get_state().controls_visible);
    assert_eq!(input.process_key('?'), InputEvent::Unknown);
    assert_eq!((input.get_state().viewport_delta_x, input.get_state().viewport_delta_y), (0, 2));
    assert_eq!(input.process_key('Q'), InputEvent::Quit);
    assert!(!input.get_state().running);

    input.handle_movement(InputEvent::Step);
    assert_eq!((input.get_state().viewport_delta_x, input.get_state().viewport_delta_y), (0, 0));
    input.reset_state();
    assert_eq!(*input.get_state(), InputState::default());
}

fn type_line(handler: &mut InputHandler, line: &str) {
    for c in line.chars() {
        assert!(handler.handle_key_event(Key::Char(c)).is_none());
    }
}

#[test]
fn test_input_handler_normal_mode() {
    let mut handler = InputHandler::new();
    assert!(!handler.is_command_mode());
    assert!(!handler.is_help_shown());
    assert_eq!(handler.get_command_buffer(), "");
    assert_eq!(handler.get_command_prompt(), "");

    assert!(matches!(handler.handle_key_event(Key::Char('q')), Some(InputAction::Quit)));
    assert!(matches!(
        handler.handle_key_event(Key::Char('R')),
        Some(InputAction::RunSimulation)
    ));
    assert!(matches!(
        handler.handle_key_event(Key::Char('s')),
        Some(InputAction::StepSimulation)
    ));
    assert!(matches!(
        handler.handle_key_event(Key::Char('p')),
        Some(InputAction::PauseSimulation)
    ));
    assert!(matches!(handler.handle_key_event(Key::Char('c')), Some(InputAction::ClearGrid)));
    assert!(matches!(
        handler.handle_key_event(Key::Char('o')),
        Some(InputAction::CenterOnCells)
    ));
    assert!(matches!(handler.handle_key_event(Key::Home), Some(InputAction::ResetViewport)));
    assert!(matches!(
        handler.handle_key_event(Key::Up),
        Some(InputAction::MoveViewport(0, -1))
    ));
    assert!(matches!(
        handler.handle_key_event(Key::Down),
        Some(InputAction::MoveViewport(0, 1))
    ));
    assert!(matches!(
        handler.handle_key_event(Key::Left),
        Some(InputAction::MoveViewport(-1, 0))
    ));
    assert!(matches!(
        handler.handle_key_event(Key::Right),
        Some(InputAction::MoveViewport(1, 0))
    ));
    assert!(matches!(handler.handle_key_event(Key::Char('=')), Some(InputAction::Zoom(120))));
    assert!(matches!(handler.handle_key_event(Key::Char('_')), Some(InputAction::Zoom(80))));
    match handler.handle_key_event(Key::Char('l')) {
        Some(InputAction::LoadPattern(name)) => assert_eq!(name, "glider"),
        _ => panic!("the pattern key loads the glider"),
    }
    match handler.handle_key_event(Key::Char('2')) {
        Some(InputAction::SwitchBackend(name)) => assert_eq!(name, "entt"),
        _ => panic!("the second digit switches to the second backend"),
    }
    assert!(handler.handle_key_event(Key::Char('x')).is_none());
    assert!(handler.handle_key_event(Key::Backspace).is_none());
    assert!(handler.handle_key_event(Key::Other).is_none());

    assert!(handler.handle_key_event(Key::Esc).is_none());
    assert!(matches!(
        handler.handle_key_event(Key::Char('h')),
        Some(InputAction::ShowHelp(true))
    ));
    assert!(handler.is_help_shown());
    assert!(matches!(handler.handle_key_event(Key::Esc), Some(InputAction::ShowHelp(false))));
    assert!(!handler.is_help_shown());
    assert!(matches!(
        handler.handle_key_event(Key::Char('H')),
        Some(InputAction::ShowHelp(true))
    ));
    assert!(matches!(
        handler.handle_key_event(Key::Char('h')),
        Some(InputAction::ShowHelp(false))
    ));
}

#[test]
fn test_input_handler_command_mode() {
    let mut handler = InputHandler::new();
    assert!(matches!(handler.handle_key_event(Key::Enter), Some(InputAction::CommandMode)));
    assert!(handler.is_command_mode());
    assert_eq!(handler.get_command_prompt(), "> ");

    type_line(&mut handler, "  step 3x");
    assert!(handler.handle_key_event(Key::Backspace).is_none());
    assert_eq!(handler.get_command_buffer(), "  step 3");
    assert_eq!(handler.get_command_prompt(), ">   step 3");
    match handler.handle_key_event(Key::Enter) {
        Some(InputAction::ExecuteCommand(command)) => assert_eq!(command, "step 3"),
        _ => panic!("a line with a word is executed"),
    }
    assert!(!handler.is_command_mode());
    assert_eq!(handler.get_command_buffer(), "");

    handler.handle_key_event(Key::Enter);
    type_line(&mut handler, " \t ");
    assert!(handler.handle_key_event(Key::Enter).is_none());
    assert!(!handler.is_command_mode());
    assert_eq!(handler.get_command_buffer(), " \t ");

    handler.handle_key_event(Key::Enter);
    assert_eq!(handler.get_command_buffer(), "");
    type_line(&mut handler, "status");
    assert!(handler.handle_key_event(Key::Esc).is_none());
    assert!(!handler.is_command_mode());
    assert_eq!(handler.get_command_buffer(), "");

    handler.handle_key_event(Key::Enter);
    type_line(&mut handler, "run");
    handler.handle_key_event(Key::Enter);

    handler.handle_key_event(Key::Enter);
    assert!(handler.handle_key_event(Key::Up).is_none());
    assert_eq!(handler.get_command_buffer(), "run");
    handler.handle_key_event(Key::Up);
    assert_eq!(handler.get_command_buffer(), "step 3");
    handler.handle_key_event(Key::Up);
    assert_eq!(handler.get_command_buffer(), "step 3");
    handler.handle_key_event(Key::Down);
    assert_eq!(handler.get_command_buffer(), "run");
    handler.handle_key_event(Key::Down);
    assert_eq!(handler.get_command_buffer(), "");
    assert!(handler.handle_key_event(Key::Backspace).is_none());
    assert_eq!(handler.get_command_buffer(), "");
    assert!(handler.handle_key_event(Key::Home).is_none());
}

#[test]
fn test_input_handler_history_keeps_fifty_commands() {
    let mut handler = InputHandler::new();
    for i in 0..53 {
        handler.add_to_history(format!("c{}", i));
    }
    handler.handle_key_event(Key::Enter);
    for _ in 0..60 {
        handler.handle_key_event(Key::Up);
    }
    assert_eq!(handler.get_command_buffer(), "c3");
    handler.handle_key_event(Key::Down);
    assert_eq!(handler.get_command_buffer(), "c4");
}

#[test]
fn test_input_handler_help_text() {
    let handler = InputHandler::new();
    let help = handler.get_help_text();
    let lines: Vec<&str> = help.split('\n').collect();
    assert_eq!(lines.len(), 21);
    assert_eq!(lines[0], "Available Commands:");
    assert_eq!(lines[3], "  create <w> <h> [pattern] - Create new simulation");
    assert_eq!(lines[20], "  1/2/3 - switch backend, o - center on cells");
}

#[test]
fn test_menu_system() {
    let mut menu = MenuSystem::new();
    assert!(!menu.is_menu_active());
    assert_eq!(menu.get_current_menu(), None);
    assert_eq!(menu.get_selected_item(), None);
    assert_eq!(menu.get_menu_help(), "Press m for menu, h for help, q to quit");
    menu.move_selection(1);
    assert_eq!(menu.get_selected_item(), None);

    menu.show_menu(MenuType::Main);
    assert!(menu.is_menu_active());
    assert_eq!(menu.get_current_menu(), Some(MenuType::Main));
    assert_eq!(menu.get_selected_item(), Some("New Simulation".to_string()));
    assert_eq!(menu.get_menu_help(), "Navigate: ↑/↓, Select: Enter, Back: Esc");
    menu.move_selection(-1);
    assert_eq!(menu.get_selected_item(), Some("New Simulation".to_string()));
    menu.move_selection(0);
    assert_eq!(menu.get_selected_item(), Some("New Simulation".to_string()));
    menu.move_selection(5);
    assert_eq!(menu.get_selected_item(), Some("Load Pattern".to_string()));
    for _ in 0..10 {
        menu.move_selection(1);
    }
    assert_eq!(menu.get_selected_item(), Some("About".to_string()));
    menu.move_selection(-3);
    assert_eq!(menu.get_selected_item(), Some("Settings".to_string()));

    menu.show_menu(MenuType::Patterns);
    assert_eq!(menu.get_selected_item(), Some("blinker".to_string()));
    assert_eq!(menu.get_menu_help(), "Navigate: ↑/↓, Load: Enter, Back: Esc");
    for _ in 0..10 {
        menu.move_selection(1);
    }
    assert_eq!(menu.get_selected_item(), Some("glider-gun".to_string()));
    menu.update_available_patterns(vec!["one".to_string(), "two".to_string()]);
    assert_eq!(menu.get_selected_item(), None);
    menu.move_selection(1);
    assert_eq!(menu.get_selected_item(), None);
    menu.move_selection(-1);
    menu.move_selection(-1);
    menu.move_selection(-1);
    menu.move_selection(-1);
    assert_eq!(menu.get_selected_item(), Some("two".to_string()));
    menu.update_available_patterns(vec![]);
    menu.show_menu(MenuType::Patterns);
    menu.move_selection(1);
    assert_eq!(menu.get_selected_item(), None);

    menu.show_menu(MenuType::Backends);
    menu.move_selection(1);
    assert_eq!(menu.get_selected_item(), Some("entt".to_string()));
    assert_eq!(menu.get_menu_help(), "Navigate: ↑/↓, Switch: Enter, Back: Esc");

    menu.show_menu(MenuType::Settings);
    menu.move_selection(1);
    menu.move_selection(1);
    assert_eq!(menu.get_selected_item(), Some("Viewport".to_string()));
    assert_eq!(menu.get_menu_help(), "Navigate: ↑/↓, Configure: Enter, Back: Esc");

    menu.show_menu(MenuType::About);
    menu.move_selection(1);
    assert_eq!(menu.get_selected_item(), Some("Close".to_string()));
    assert_eq!(menu.get_menu_help(), "Press Esc to close");

    menu.hide_menu();
    assert!(!menu.is_menu_active());
    assert_eq!(menu.get_selected_item(), None);
}

#[test]
fn test_menu_items() {
    let mut menu = MenuSystem::new();
    assert!(menu.get_menu_items().is_empty());
    assert_eq!(menu.get_selected_index(), 0);
    menu.show_menu(MenuType::Main);
    assert_eq!(
        menu.get_menu_items(),
        vec!["New Simulation", "Load Pattern", "Switch Backend", "Settings", "About"]
    );
    menu.move_selection(1);
    menu.move_selection(1);
    assert_eq!(menu.get_selected_index(), 2);
    menu.show_menu(MenuType::Patterns);
    assert_eq!(
        menu.get_menu_items(),
        vec!["blinker", "glider", "beacon", "toad", "block", "glider-gun"]
    );
    menu.update_available_patterns(vec!["one".to_string()]);
    assert_eq!(menu.get_menu_items(), vec!["one"]);
    menu.show_menu(MenuType::Backends);
    assert_eq!(menu.get_menu_items(), vec!["bevy", "entt", "flecs"]);
    menu.show_menu(MenuType::Settings);
    assert_eq!(
        menu.get_menu_items(),
        vec!["Auto-step Speed", "Grid Colors", "Viewport", "Keybindings"]
    );
    menu.show_menu(MenuType::About);
    assert_eq!(menu.get_menu_items(), vec!["Close"]);
    for menu_type in [MenuType::Main, MenuType::Settings, MenuType::Backends] {
        menu.show_menu(menu_type);
        let items = menu.get_menu_items();
        for item in &items {
            assert_eq!(menu.get_selected_item().as_ref(), Some(item));
            menu.move_selection(1);
        }
    }
}

fn as_text(words: Vec<Vec<char>>) -> Vec<String> {
    words.into_iter().map(|w| w.into_iter().collect()).collect()
}

#[test]
fn test_command_words_and_numbers() {
    assert_eq!(as_text(split_words("  create \t 10  20\nglider ")), vec![
        "create", "10", "20", "glider"
    ]);
    assert!(split_words("").is_empty());
    assert!(split_words(" \u{2003}\t\n").is_empty());
    assert_eq!(as_text(split_words("one")), vec!["one"]);

    let number = |s: &str| parse_number(&s.chars().collect::<Vec<char>>());
    assert_eq!(number("0"), Some(0));
    assert_eq!(number("007"), Some(7));
    assert_eq!(number("+15"), Some(15));
    assert_eq!(number("-15"), Some(-15));
    assert_eq!(number("-0"), Some(0));
    assert_eq!(number("2147483647"), Some(i32::MAX));
    assert_eq!(number("2147483648"), None);
    assert_eq!(number("-2147483648"), Some(i32::MIN));
    assert_eq!(number("-2147483649"), None);
    assert_eq!(number("99999999999999999999999"), None);
    assert_eq!(number(""), None);
    assert_eq!(number("+"), None);
    assert_eq!(number("-"), None);
    assert_eq!(number("1_000"), None);
    assert_eq!(number("12a"), None);
    assert_eq!(number("a12"), None);
    assert_eq!(number("--1"), None);
    assert_eq!(number("1.5"), None);
    for s in ["42", "-7", "+3", "x", "", "2147483648", "١٢"] {
        assert_eq!(number(s), s.parse::<i32>().ok());
    }
}

#[test]
fn test_parse_command() {
    assert!(matches!(parse_command(""), Command::Empty));
    assert!(matches!(parse_command("   "), Command::Empty));
    assert!(matches!(parse_command("help"), Command::Help));
    assert!(matches!(parse_command(" H  ignored"), Command::Help));
    assert!(matches!(parse_command("QUIT"), Command::Quit));
    assert!(matches!(parse_command("q"), Command::Quit));
    assert!(matches!(parse_command("exit"), Command::Quit));
    assert!(matches!(parse_command("run anything"), Command::Run));
    assert!(matches!(parse_command("r"), Command::Run));
    assert!(matches!(parse_command("status"), Command::Status));
    assert!(matches!(parse_command("stat"), Command::Status));
    assert!(matches!(parse_command("clear"), Command::Clear));
    assert!(matches!(parse_command("c"), Command::Clear));
    assert!(matches!(parse_command("create"), Command::CreateUsage));
    assert!(matches!(parse_command("new 10"), Command::CreateUsage));
    assert!(matches!(parse_command("load"), Command::LoadUsage));
    assert!(matches!(parse_command("backend"), Command::BackendUsage));

    match parse_command("create 10 20") {
        Command::Create { width, height, pattern } => {
            assert_eq!((width, height, pattern), (10, 20, None));
        },
        _ => panic!("create with two numbers creates"),
    }
    match parse_command("NEW wide -3 glider more") {
        Command::Create { width, height, pattern } => {
            assert_eq!((width, height, pattern), (50, -3, Some("glider".to_string())));
        },
        _ => panic!("create with a pattern creates"),
    }
    match parse_command("create 10 tall") {
        Command::Create { width, height, pattern } => {
            assert_eq!((width, height, pattern), (10, 30, None));
        },
        _ => panic!("create falls back on its default height"),
    }
    match parse_command("step") {
        Command::Step { steps, simulation } => assert_eq!((steps, simulation.as_str()), (1, "default")),
        _ => panic!("step steps"),
    }
    match parse_command("s 5 abc") {
        Command::Step { steps, simulation } => assert_eq!((steps, simulation.as_str()), (5, "abc")),
        _ => panic!("step steps"),
    }
    match parse_command("step many") {
        Command::Step { steps, simulation } => assert_eq!((steps, simulation.as_str()), (1, "default")),
        _ => panic!("step steps"),
    }
    match parse_command("load glider 3 -4") {
        Command::Load { pattern, x, y } => assert_eq!((pattern.as_str(), x, y), ("glider", 3, -4)),
        _ => panic!("load loads"),
    }
    match parse_command("l Toad") {
        Command::Load { pattern, x, y } => assert_eq!((pattern.as_str(), x, y), ("Toad", 0, 0)),
        _ => panic!("load loads"),
    }
    match parse_command("be flecs") {
        Command::Backend { name } => assert_eq!(name, "flecs"),
        _ => panic!("backend switches"),
    }
    match parse_command("Dance now") {
        Command::Unknown { name } => assert_eq!(name, "dance"),
        _ => panic!("an unknown word is unknown"),
    }
}

#[test]
fn test_command_replies() {
    assert_eq!(parse_command("").reply(), Some("No command entered".to_string()));
    assert_eq!(parse_command("quit").reply(), Some("Quitting...".to_string()));
    assert_eq!(parse_command("help").reply(), Some(InputHandler::new().get_help_text()));
    assert_eq!(
        parse_command("create 1").reply(),
        Some("Usage: create <width> <height> [pattern]".to_string())
    );
    assert_eq!(
        parse_command("load").reply(),
        Some("Usage: load <pattern_name> [x] [y]".to_string())
    );
    assert_eq!(
        parse_command("backend").reply(),
        Some("Usage: backend <bevy|entt|flecs>".to_string())
    );
    assert_eq!(parse_command("c").reply(), Some("Grid cleared (not implemented)".to_string()));
    assert_eq!(
        parse_command("FLY away").reply(),
        Some("Unknown command: fly. Type 'help' for available commands.".to_string())
    );
    assert_eq!(parse_command("step 2").reply(), None);
    assert_eq!(parse_command("create 1 2").reply(), None);
    assert_eq!(parse_command("load x").reply(), None);
    assert_eq!(parse_command("run").reply(), None);
    assert_eq!(parse_command("status").reply(), None);
    assert_eq!(parse_command("backend bevy").reply(), None);
}

#[test]
fn test_backend_targets() {
    let wait = Duration::from_secs(5);
    let bevy = BackendTarget::for_backend("bevy", wait);
    assert_eq!((bevy.backend.as_str(), bevy.host.as_str(), bevy.port), ("bevy", "localhost", 50051));
    assert_eq!(bevy.timeout, wait);
    assert_eq!(BackendTarget::for_backend("entt", wait).port, 50052);
    assert_eq!(BackendTarget::for_backend("flecs", wait).port, 50053);
    let other = BackendTarget::for_backend("other", wait);
    assert_eq!((other.backend.as_str(), other.port), ("other", 50051));
    assert_eq!(other.get_backend_info(), "Current backend: other");
    let custom = BackendTarget::new("x".to_string(), "example.org".to_string(), 9, wait)
        .with_timeout(Duration::from_secs(1));
    assert_eq!((custom.host.as_str(), custom.port), ("example.org", 9));
    assert_eq!(custom.timeout, Duration::from_secs(1));
}

#[test]
fn test_pattern_files() {
    assert_eq!(pattern_file_path("glider"), "../patterns/glider.json");
    assert_eq!(pattern_file_path("glider.json"), "../patterns/glider.json");
    assert_eq!(pattern_file_path("/tmp/p.json"), "/tmp/p.json");
    assert_eq!(pattern_file_path("/tmp/p"), "/tmp/p");
    assert_eq!(pattern_file_path("C:\\p.json"), "C:\\p.json");
    assert_eq!(pattern_file_path("a:b"), "a:b");
    assert_eq!(pattern_file_path(""), "../patterns/.json");
    assert_eq!(pattern_file_path(".json"), "../patterns/.json");
    assert_eq!(pattern_file_path("x.jso"), "../patterns/x.jso.json");
    assert_eq!(pattern_file_path("dir/x.json"), "../patterns/dir/x.json");
    assert_eq!(named_pattern_file("toad"), "../patterns/toad.json");

    let file = PatternFile {
        name: "glider".to_string(),
        description: "moves".to_string(),
        author: "someone".to_string(),
        cells: vec![PatternCell { x: 1, y: 0 }, PatternCell { x: -2, y: 7 }],
    };
    assert_eq!(pattern_extent(&file.cells), Some((4, 8)));
    assert_eq!(pattern_extent(&[PatternCell { x: 5, y: 5 }]), Some((1, 1)));
    assert_eq!(
        pattern_extent(&[PatternCell { x: i32::MIN, y: 0 }, PatternCell { x: i32::MAX, y: 0 }]),
        Some((4294967296, 1))
    );
    assert_eq!(pattern_extent(&[]), None);
    let pattern = convert_to_grpc_pattern(file);
    assert_eq!(pattern.name, "glider");
    assert_eq!(pattern.description, "moves");
    assert_eq!(pattern.author, "someone");
    assert_eq!(pattern.cells, vec![Position { x: 1, y: 0 }, Position { x: -2, y: 7 }]);
}

#[test]
fn test_status_text_and_play() {
    let status = StatusResponse {
        status: "healthy".to_string(),
        version: "1.0.0".to_string(),
        implementation: "bevy".to_string(),
        uptime_seconds: 3601,
    };
    assert_eq!(
        status_text(&status),
        "Server Status: healthy\nVersion: 1.0.0\nImplementation: bevy\nUptime: 3601 seconds"
    );
    let odd = StatusResponse { uptime_seconds: i64::MIN, ..status };
    assert!(status_text(&odd).ends_with("Uptime: -9223372036854775808 seconds"));
    assert!(play_continues(&StepResponse { generation: 1, live_cells: 3, changed_cells: 0 }));
    assert!(!play_continues(&StepResponse { generation: 1, live_cells: 0, changed_cells: 3 }));
    assert_eq!(health_check(), "OK");
    assert_eq!(HealthService::default().check(), "Server is healthy");
}

#[test]
fn test_grid_display() {
    let mut display = GridDisplay::new();
    assert_eq!((display.width, display.height), (80, 24));
    assert_eq!(display.get_viewport_info(), (0, 0));
    assert_eq!(display.get_stats(), (0, 0));
    display.center_on_live_cells();
    assert_eq!(display.get_viewport_info(), (0, 0));

    let response = SimulationResponse {
        id: "a".to_string(),
        generation: 12,
        live_cells: 3,
        grid: Some(GridInfo { width: 100, height: 100 }),
        cells: vec![
            Cell { x: 50, y: 40, alive: true, neighbors: 1 },
            Cell { x: 53, y: 47, alive: true, neighbors: 1 },
            Cell { x: 90, y: 90, alive: false, neighbors: 0 },
            Cell { x: 51, y: 40, alive: true, neighbors: 2 },
        ],
    };
    display.update_from_simulation(&response);
    assert_eq!(display.get_stats(), (12, 3));
    assert_eq!(display.live_cells.len(), 3);
    assert!(display.live_cells.contains((53, 47)));
    assert!(!display.live_cells.contains((90, 90)));

    display.center_on_live_cells();
    assert_eq!(display.get_viewport_info(), (51 - 40, 43 - 12));
    display.update_terminal_size(10, 5);
    display.center_on_live_cells();
    assert_eq!(display.get_viewport_info(), (46, 41));
    assert_eq!(display.get_cell_at_screen_pos(4, 0, 1), (50, 41));
    assert_eq!(display.get_cell_at_screen_pos(2, 3, 2), (50, 47));
    assert_eq!(display.get_cell_at_screen_pos(9, 9, 0), (46, 41));
    display.set_viewport(50, 40);
    assert!(display.is_alive_at_screen_pos(0, 0, 1));
    assert!(display.is_alive_at_screen_pos(1, 0, 1));
    assert!(!display.is_alive_at_screen_pos(2, 0, 1));
    assert!(display.is_alive_at_screen_pos(7, 3, 0));
    display.move_viewport(-3, 2);
    assert_eq!(display.get_viewport_info(), (47, 42));
    display.set_viewport(i32::MAX, i32::MAX);
    assert_eq!(display.get_cell_at_screen_pos(2, 2, 1), (2147483649, 2147483649));
    assert!(!display.is_alive_at_screen_pos(2, 2, 1));

    let gone = SimulationResponse { cells: vec![], live_cells: 0, generation: 13, ..response };
    display.update_from_simulation(&gone);
    assert!(display.live_cells.is_empty());
    assert_eq!(display.get_stats(), (13, 0));
}

#[test]
fn test_white_space_is_the_listed_code_points() {
    let listed = |c: char| {
        let code = c as u32;
        (0x0009..=0x000D).contains(&code)
            || code == 0x0020
            || code == 0x0085
            || code == 0x00A0
            || code == 0x1680
            || (0x2000..=0x200A).contains(&code)
            || code == 0x2028
            || code == 0x2029
            || code == 0x202F
            || code == 0x205F
            || code == 0x3000
    };
    let mut count = 0;
    for code in 0..=0x10FFFFu32 {
        if let Some(c) = char::from_u32(code) {
            assert_eq!(c.is_whitespace(), listed(c), "code point {:#x}", code);
            if listed(c) {
                count += 1;
                let line = format!("a{}b", c);
                assert_eq!(as_text(split_words(&line)), vec!["a", "b"]);
            }
        }
    }
    assert_eq!(count, 25);
    for c in ['\u{200B}', '\u{180E}', '\u{FEFF}', '\u{00AD}', '\u{001C}', '\u{2060}'] {
        let line = format!("a{}b", c);
        assert_eq!(as_text(split_words(&line)).len(), 1);
    }
    let mut handler = InputHandler::new();
    handler.handle_key_event(Key::Enter);
    type_line(&mut handler, "\u{3000}\u{85} step 5 \u{2028}\u{a0}");
    match handler.handle_key_event(Key::Enter) {
        Some(InputAction::ExecuteCommand(command)) => assert_eq!(command, "step 5"),
        _ => panic!("a line with words is executed"),
    }
}
