//! The interactive front end's keyboard handling: a normal mode of one-key
//! shortcuts and a command mode with a line buffer and a history.

use crate::text::{pop_char, push_char, trim_text, trimmed};
use std::collections::VecDeque;
use vstd::prelude::*;
use vstd::string::{StrSliceExecFns, StringExecFns};

verus! {

/// A key of the keyboard, as far as the handler tells keys apart.
#[derive(Debug, Clone, Copy, PartialEq, Eq, Structural)]
pub enum Key {
    Char(char),
    Enter,
    Esc,
    Backspace,
    Up,
    Down,
    Left,
    Right,
    Home,
    Other,
}

/// What the front end is asked to do.  A zoom carries its factor in
/// hundredths.
#[derive(Debug, Clone)]
pub enum InputAction {
    Quit,
    Help,
    ShowHelp(bool),
    MoveViewport(i32, i32),
    Zoom(u32),
    ResetViewport,
    StepSimulation,
    RunSimulation,
    PauseSimulation,
    ClearGrid,
    LoadPattern(String),
    CommandMode,
    ExecuteCommand(String),
    CenterOnCells,
    SavePattern(String),
    SwitchBackend(String),
}

/// An action, with its text as a sequence of characters.
pub enum Action {
    Quit,
    Help,
    ShowHelp(bool),
    MoveViewport(int, int),
    Zoom(nat),
    ResetViewport,
    StepSimulation,
    RunSimulation,
    PauseSimulation,
    ClearGrid,
    LoadPattern(Seq<char>),
    CommandMode,
    ExecuteCommand(Seq<char>),
    CenterOnCells,
    SavePattern(Seq<char>),
    SwitchBackend(Seq<char>),
}

impl View for InputAction {
    type V = Action;

    open spec fn view(&self) -> Action {
        match *self {
            InputAction::Quit => Action::Quit,
            InputAction::Help => Action::Help,
            InputAction::ShowHelp(shown) => Action::ShowHelp(shown),
            InputAction::MoveViewport(dx, dy) => Action::MoveViewport(dx as int, dy as int),
            InputAction::Zoom(factor) => Action::Zoom(factor as nat),
            InputAction::ResetViewport => Action::ResetViewport,
            InputAction::StepSimulation => Action::StepSimulation,
            InputAction::RunSimulation => Action::RunSimulation,
            InputAction::PauseSimulation => Action::PauseSimulation,
            InputAction::ClearGrid => Action::ClearGrid,
            InputAction::LoadPattern(name) => Action::LoadPattern(name@),
            InputAction::CommandMode => Action::CommandMode,
            InputAction::ExecuteCommand(command) => Action::ExecuteCommand(command@),
            InputAction::CenterOnCells => Action::CenterOnCells,
            InputAction::SavePattern(name) => Action::SavePattern(name@),
            InputAction::SwitchBackend(name) => Action::SwitchBackend(name@),
        }
    }
}

/// The action that a handler returned, if it returned one.
pub open spec fn action_view(action: Option<InputAction>) -> Option<Action> {
    match action {
        Some(a) => Some(a@),
        None => None,
    }
}

/// The handler's state, as mathematics sees it.
pub struct HandlerState {
    pub command_mode: bool,
    pub buffer: Seq<char>,
    pub history: Seq<Seq<char>>,
    pub history_index: nat,
    pub show_help: bool,
}

/// The number of commands that the history keeps.
pub open spec fn history_limit() -> nat {
    50
}

/// The history with one more command: the oldest command leaves a full
/// history first.
pub open spec fn history_with(history: Seq<Seq<char>>, command: Seq<char>) -> Seq<Seq<char>> {
    if history.len() >= history_limit() {
        history.drop_first().push(command)
    } else {
        history.push(command)
    }
}

/// The state after `key` in normal mode.
pub open spec fn normal_state(s: HandlerState, key: Key) -> HandlerState {
    match key {
        Key::Char(c) => if c == 'h' || c == 'H' {
            HandlerState { show_help: !s.show_help, ..s }
        } else {
            s
        },
        Key::Enter => HandlerState { command_mode: true, buffer: Seq::empty(), ..s },
        Key::Esc => HandlerState { show_help: false, ..s },
        _ => s,
    }
}

/// The action of a character key in normal mode.
pub open spec fn shortcut_action(s: HandlerState, c: char) -> Option<Action> {
    if c == 'q' || c == 'Q' {
        Some(Action::Quit)
    } else if c == 'h' || c == 'H' {
        Some(Action::ShowHelp(!s.show_help))
    } else if c == 'r' || c == 'R' {
        Some(Action::RunSimulation)
    } else if c == 's' || c == 'S' {
        Some(Action::StepSimulation)
    } else if c == 'p' || c == 'P' {
        Some(Action::PauseSimulation)
    } else if c == 'c' || c == 'C' {
        Some(Action::ClearGrid)
    } else if c == 'l' || c == 'L' {
        Some(Action::LoadPattern("glider"@))
    } else if c == 'o' || c == 'O' {
        Some(Action::CenterOnCells)
    } else if c == '+' || c == '=' {
        Some(Action::Zoom(120))
    } else if c == '-' || c == '_' {
        Some(Action::Zoom(80))
    } else if c == '1' {
        Some(Action::SwitchBackend("bevy"@))
    } else if c == '2' {
        Some(Action::SwitchBackend("entt"@))
    } else if c == '3' {
        Some(Action::SwitchBackend("flecs"@))
    } else {
        None
    }
}

/// The action of `key` in normal mode.
pub open spec fn normal_action(s: HandlerState, key: Key) -> Option<Action> {
    match key {
        Key::Char(c) => shortcut_action(s, c),
        Key::Enter => Some(Action::CommandMode),
        Key::Home => Some(Action::ResetViewport),
        Key::Up => Some(Action::MoveViewport(0, -1)),
        Key::Down => Some(Action::MoveViewport(0, 1)),
        Key::Left => Some(Action::MoveViewport(-1, 0)),
        Key::Right => Some(Action::MoveViewport(1, 0)),
        Key::Esc => if s.show_help {
            Some(Action::ShowHelp(false))
        } else {
            None
        },
        _ => None,
    }
}

/// The state after `key` in command mode.
pub open spec fn command_state(s: HandlerState, key: Key) -> HandlerState {
    match key {
        Key::Enter => {
            let command = trimmed(s.buffer);
            if command.len() > 0 {
                let history = history_with(s.history, command);
                HandlerState {
                    command_mode: false,
                    buffer: Seq::empty(),
                    history,
                    history_index: history.len(),
                    ..s
                }
            } else {
                HandlerState { command_mode: false, ..s }
            }
        },
        Key::Esc => HandlerState { command_mode: false, buffer: Seq::empty(), ..s },
        Key::Backspace => HandlerState {
            buffer: if s.buffer.len() > 0 {
                s.buffer.drop_last()
            } else {
                s.buffer
            },
            ..s
        },
        Key::Up => if 0 < s.history_index <= s.history.len() {
            HandlerState {
                history_index: (s.history_index - 1) as nat,
                buffer: s.history[s.history_index as int - 1],
                ..s
            }
        } else {
            s
        },
        Key::Down => if s.history.len() > 0 && s.history_index + 1 < s.history.len() {
            HandlerState {
                history_index: s.history_index + 1,
                buffer: s.history[s.history_index as int + 1],
                ..s
            }
        } else {
            HandlerState { buffer: Seq::empty(), ..s }
        },
        Key::Char(c) => HandlerState { buffer: s.buffer.push(c), ..s },
        _ => s,
    }
}

/// The action of `key` in command mode: only a line that is more than white
/// space is executed.
pub open spec fn command_action(s: HandlerState, key: Key) -> Option<Action> {
    match key {
        Key::Enter => if trimmed(s.buffer).len() > 0 {
            Some(Action::ExecuteCommand(trimmed(s.buffer)))
        } else {
            None
        },
        _ => None,
    }
}

/// The state after `key`.
pub open spec fn state_after_key(s: HandlerState, key: Key) -> HandlerState {
    if s.command_mode {
        command_state(s, key)
    } else {
        normal_state(s, key)
    }
}

/// The action of `key`.
pub open spec fn action_of_key(s: HandlerState, key: Key) -> Option<Action> {
    if s.command_mode {
        command_action(s, key)
    } else {
        normal_action(s, key)
    }
}

/// The text of the command prompt: the buffer after a mark in command mode,
/// nothing in normal mode.
pub open spec fn prompt_text(s: HandlerState) -> Seq<char> {
    if s.command_mode {
        "> "@ + s.buffer
    } else {
        Seq::empty()
    }
}

/// The help on commands and shortcuts.
pub open spec fn help_text() -> Seq<char> {
    "Available Commands:\n\nSimulation:\n  create <w> <h> [pattern] - Create new simulation\n  step [count] [sim_id]    - Step simulation\n  run [sim_id]             - Run simulation\n  status                   - Get server status\n  clear                    - Clear grid\n\nPatterns:\n  load <name> [x] [y]      - Load pattern at position\n\nControl:\n  backend <name>           - Switch backend (bevy|entt|flecs)\n  help                     - Show this help\n  quit                     - Exit application\n\nKeyboard Shortcuts:\n  q - quit, h - help, r - run, s - step, p - pause\n  arrows - move view, +/- - zoom, Enter - command mode\n  1/2/3 - switch backend, o - center on cells"@
}

/// The keyboard handler.
pub struct InputHandler {
    command_mode: bool,
    command_buffer: String,
    command_history: VecDeque<String>,
    history_index: usize,
    show_help: bool,
}

impl View for InputHandler {
    type V = HandlerState;

    closed spec fn view(&self) -> HandlerState {
        HandlerState {
            command_mode: self.command_mode,
            buffer: self.command_buffer@,
            history: self.command_history@.map_values(|s: String| s@),
            history_index: self.history_index as nat,
            show_help: self.show_help,
        }
    }
}

impl InputHandler {
    /// A handler in normal mode with an empty buffer and an empty history.
    pub fn new() -> (handler: InputHandler)
        ensures
            handler@ == (HandlerState {
                command_mode: false,
                buffer: Seq::empty(),
                history: Seq::empty(),
                history_index: 0,
                show_help: false,
            }),
    {
        let handler = InputHandler {
            command_mode: false,
            command_buffer: String::new(),
            command_history: VecDeque::new(),
            history_index: 0,
            show_help: false,
        };
        assert(handler.command_history@.map_values(|s: String| s@) =~= Seq::<Seq<char>>::empty());
        handler
    }

    /// Takes one key: changes the state and says what the front end is to
    /// do, if anything.
    pub fn handle_key_event(&mut self, key: Key) -> (action: Option<InputAction>)
        ensures
            final(self)@ == state_after_key(old(self)@, key),
            action_view(action) == action_of_key(old(self)@, key),
    {
        if self.command_mode {
            self.handle_command_mode_key(key)
        } else {
            self.handle_normal_mode_key(key)
        }
    }

    /// Takes one key in normal mode.
    pub fn handle_normal_mode_key(&mut self, key: Key) -> (action: Option<InputAction>)
        ensures
            final(self)@ == normal_state(old(self)@, key),
            action_view(action) == normal_action(old(self)@, key),
    {
        match key {
            Key::Char(c) => {
                if c == 'q' || c == 'Q' {
                    Some(InputAction::Quit)
                } else if c == 'h' || c == 'H' {
                    self.show_help = !self.show_help;
                    Some(InputAction::ShowHelp(self.show_help))
                } else if c == 'r' || c == 'R' {
                    Some(InputAction::RunSimulation)
                } else if c == 's' || c == 'S' {
                    Some(InputAction::StepSimulation)
                } else if c == 'p' || c == 'P' {
                    Some(InputAction::PauseSimulation)
                } else if c == 'c' || c == 'C' {
                    Some(InputAction::ClearGrid)
                } else if c == 'l' || c == 'L' {
                    Some(InputAction::LoadPattern("glider".to_string()))
                } else if c == 'o' || c == 'O' {
                    Some(InputAction::CenterOnCells)
                } else if c == '+' || c == '=' {
                    Some(InputAction::Zoom(120))
                } else if c == '-' || c == '_' {
                    Some(InputAction::Zoom(80))
                } else if c == '1' {
                    Some(InputAction::SwitchBackend("bevy".to_string()))
                } else if c == '2' {
                    Some(InputAction::SwitchBackend("entt".to_string()))
                } else if c == '3' {
                    Some(InputAction::SwitchBackend("flecs".to_string()))
                } else {
                    None
                }
            },
            Key::Enter => {
                self.command_mode = true;
                self.command_buffer = String::new();
                Some(InputAction::CommandMode)
            },
            Key::Home => Some(InputAction::ResetViewport),
            Key::Up => Some(InputAction::MoveViewport(0, -1)),
            Key::Down => Some(InputAction::MoveViewport(0, 1)),
            Key::Left => Some(InputAction::MoveViewport(-1, 0)),
            Key::Right => Some(InputAction::MoveViewport(1, 0)),
            Key::Esc => {
                if self.show_help {
                    self.show_help = false;
                    Some(InputAction::ShowHelp(false))
                } else {
                    None
                }
            },
            _ => None,
        }
    }

    /// Takes one key in command mode.
    pub fn handle_command_mode_key(&mut self, key: Key) -> (action: Option<InputAction>)
        ensures
            final(self)@ == command_state(old(self)@, key),
            action_view(action) == command_action(old(self)@, key),
    {
        match key {
            Key::Enter => {
                let command = trim_text(self.command_buffer.as_str());
                if command.as_str().unicode_len() > 0 {
                    self.add_to_history(command.clone());
                    self.command_mode = false;
                    self.command_buffer = String::new();
                    Some(InputAction::ExecuteCommand(command))
                } else {
                    self.command_mode = false;
                    None
                }
            },
            Key::Esc => {
                self.command_mode = false;
                self.command_buffer = String::new();
                None
            },
            Key::Backspace => {
                pop_char(&mut self.command_buffer);
                None
            },
            Key::Up => {
                if self.history_index > 0 && self.history_index <= self.command_history.len() {
                    self.history_index -= 1;
                    self.command_buffer = self.command_history[self.history_index].clone();
                }
                None
            },
            Key::Down => {
                if self.command_history.len() > 0 && self.history_index
                    < self.command_history.len() - 1 {
                    self.history_index += 1;
                    self.command_buffer = self.command_history[self.history_index].clone();
                } else {
                    self.command_buffer = String::new();
                }
                None
            },
            Key::Char(c) => {
                push_char(&mut self.command_buffer, c);
                None
            },
            _ => None,
        }
    }

    /// Puts `command` at the end of the history, after dropping the oldest
    /// command of a full one, and moves the place in the history to its end.
    pub fn add_to_history(&mut self, command: String)
        ensures
            final(self)@ == (HandlerState {
                history: history_with(old(self)@.history, command@),
                history_index: history_with(old(self)@.history, command@).len(),
                ..old(self)@
            }),
    {
        let ghost before = self.command_history@;
        if self.command_history.len() >= 50 {
            self.command_history.pop_front();
        }
        self.command_history.push_back(command);
        self.history_index = self.command_history.len();
        proof {
            assert(self.command_history@.map_values(|s: String| s@) =~= history_with(
                before.map_values(|s: String| s@),
                command@,
            ));
        }
    }

    /// Whether the handler is in command mode.
    pub fn is_command_mode(&self) -> (mode: bool)
        ensures
            mode == self@.command_mode,
    {
        self.command_mode
    }

    /// The line typed so far.
    pub fn get_command_buffer(&self) -> (buffer: &str)
        ensures
            buffer@ == self@.buffer,
    {
        self.command_buffer.as_str()
    }

    /// Whether the help is shown.
    pub fn is_help_shown(&self) -> (shown: bool)
        ensures
            shown == self@.show_help,
    {
        self.show_help
    }

    /// The help on commands and shortcuts.
    pub fn get_help_text(&self) -> (help: String)
        ensures
            help@ == help_text(),
    {
        "Available Commands:\n\nSimulation:\n  create <w> <h> [pattern] - Create new simulation\n  step [count] [sim_id]    - Step simulation\n  run [sim_id]             - Run simulation\n  status                   - Get server status\n  clear                    - Clear grid\n\nPatterns:\n  load <name> [x] [y]      - Load pattern at position\n\nControl:\n  backend <name>           - Switch backend (bevy|entt|flecs)\n  help                     - Show this help\n  quit                     - Exit application\n\nKeyboard Shortcuts:\n  q - quit, h - help, r - run, s - step, p - pause\n  arrows - move view, +/- - zoom, Enter - command mode\n  1/2/3 - switch backend, o - center on cells".to_string()
    }

    /// The text of the command prompt.
    pub fn get_command_prompt(&self) -> (prompt: String)
        ensures
            prompt@ == prompt_text(self@),
    {
        if self.command_mode {
            "> ".to_string().concat(self.command_buffer.as_str())
        } else {
            String::new()
        }
    }
}

} // verus!
