//! Keys of the console and what they do to the input state.  Reading the
//! keys from a terminal is the caller's business.

use std::collections::HashMap;
use vstd::prelude::*;

verus! {

/// What a key asks for.
#[derive(Debug, Clone, Copy, PartialEq, Eq, Structural)]
pub enum InputEvent {
    StartPause,
    Step,
    Reset,
    Quit,
    MoveUp,
    MoveDown,
    MoveLeft,
    MoveRight,
    ZoomIn,
    ZoomOut,
    CenterView,
    LoadPattern,
    SavePattern,
    ToggleStats,
    ToggleControls,
    Unknown,
}

/// What the keys pressed so far have left behind.
#[derive(Debug, Clone, Copy, PartialEq, Eq, Structural)]
pub struct InputState {
    pub running: bool,
    pub viewport_delta_x: i32,
    pub viewport_delta_y: i32,
    pub stats_visible: bool,
    pub controls_visible: bool,
}

/// The state before any key: running, at rest, everything visible.
pub open spec fn initial_input_state() -> InputState {
    InputState {
        running: true,
        viewport_delta_x: 0,
        viewport_delta_y: 0,
        stats_visible: true,
        controls_visible: true,
    }
}

impl Default for InputState {
    fn default() -> (state: InputState)
        ensures
            state == initial_input_state(),
    {
        InputState {
            running: true,
            viewport_delta_x: 0,
            viewport_delta_y: 0,
            stats_visible: true,
            controls_visible: true,
        }
    }
}

/// The lower-case form of an ASCII capital letter, and every other
/// character as it is.
pub open spec fn lowered(key: char) -> char {
    if 'A' <= key && key <= 'Z' {
        ((key as u32) + 32) as char
    } else {
        key
    }
}

/// The table of the keys: the code point of each key that asks for
/// something, with the event that it asks for.
pub open spec fn key_table() -> Map<u32, InputEvent> {
    map![
        ' ' as u32 => InputEvent::StartPause,
        'r' as u32 => InputEvent::Reset,
        'q' as u32 => InputEvent::Quit,
        'w' as u32 => InputEvent::MoveUp,
        'a' as u32 => InputEvent::MoveLeft,
        's' as u32 => InputEvent::MoveDown,
        'd' as u32 => InputEvent::MoveRight,
        '.' as u32 => InputEvent::Step,
        '>' as u32 => InputEvent::Step,
        '+' as u32 => InputEvent::ZoomIn,
        '-' as u32 => InputEvent::ZoomOut,
        'c' as u32 => InputEvent::CenterView,
        'l' as u32 => InputEvent::LoadPattern,
        'o' as u32 => InputEvent::SavePattern,
        'i' as u32 => InputEvent::ToggleStats,
        'h' as u32 => InputEvent::ToggleControls,
    ]
}

/// The event of a key under a table of keys: the event that the table has
/// for the key's lower-case form, and `Unknown` where it has none.
pub open spec fn event_in(table: Map<u32, InputEvent>, key: char) -> InputEvent {
    if table.contains_key(lowered(key) as u32) {
        table[lowered(key) as u32]
    } else {
        InputEvent::Unknown
    }
}

/// The event of a key.  Letters count in either case.
pub open spec fn event_of_key(key: char) -> InputEvent {
    event_in(key_table(), key)
}

/// The keys spelled out: the event of a key is what the list below says.
pub proof fn law_events_of_keys(key: char)
    ensures
        event_of_key(key) == if key == ' ' {
            InputEvent::StartPause
        } else if key == 'r' || key == 'R' {
            InputEvent::Reset
        } else if key == 'q' || key == 'Q' {
            InputEvent::Quit
        } else if key == 'w' || key == 'W' {
            InputEvent::MoveUp
        } else if key == 'a' || key == 'A' {
            InputEvent::MoveLeft
        } else if key == 's' || key == 'S' {
            InputEvent::MoveDown
        } else if key == 'd' || key == 'D' {
            InputEvent::MoveRight
        } else if key == '.' || key == '>' {
            InputEvent::Step
        } else if key == '+' {
            InputEvent::ZoomIn
        } else if key == '-' {
            InputEvent::ZoomOut
        } else if key == 'c' || key == 'C' {
            InputEvent::CenterView
        } else if key == 'l' || key == 'L' {
            InputEvent::LoadPattern
        } else if key == 'o' || key == 'O' {
            InputEvent::SavePattern
        } else if key == 'i' || key == 'I' {
            InputEvent::ToggleStats
        } else if key == 'h' || key == 'H' {
            InputEvent::ToggleControls
        } else {
            InputEvent::Unknown
        },
{
}

/// The state after a movement event: the window moves by `speed` along one
/// axis and rests along the other.  Other events leave it at rest.
pub open spec fn state_after_movement(state: InputState, speed: int, event: InputEvent) -> InputState {
    InputState {
        viewport_delta_x: match event {
            InputEvent::MoveLeft => (-speed) as i32,
            InputEvent::MoveRight => speed as i32,
            _ => 0,
        },
        viewport_delta_y: match event {
            InputEvent::MoveUp => (-speed) as i32,
            InputEvent::MoveDown => speed as i32,
            _ => 0,
        },
        ..state
    }
}

/// The state after an event.
pub open spec fn state_after(state: InputState, speed: int, event: InputEvent) -> InputState {
    match event {
        InputEvent::MoveUp | InputEvent::MoveDown | InputEvent::MoveLeft | InputEvent::MoveRight => {
            state_after_movement(state, speed, event)
        },
        InputEvent::ToggleStats => InputState { stats_visible: !state.stats_visible, ..state },
        InputEvent::ToggleControls => InputState {
            controls_visible: !state.controls_visible,
            ..state
        },
        InputEvent::Quit => InputState { running: false, ..state },
        _ => state,
    }
}

/// The lower-case form of an ASCII capital letter, and every other
/// character as it is.
pub fn lower_key(key: char) -> (lower: char)
    ensures
        lower == lowered(key),
{
    if key >= 'A' && key <= 'Z' {
        ((key as u8) + 32) as char
    } else {
        key
    }
}

/// The console's input handler.
pub struct ConsoleInput {
    key_map: HashMap<u32, InputEvent>,
    state: InputState,
    move_speed: i32,
}

impl ConsoleInput {
    /// The input state.
    pub closed spec fn state(&self) -> InputState {
        self.state
    }

    /// How far one movement key moves the window.
    pub closed spec fn speed(&self) -> int {
        self.move_speed as int
    }

    /// The table of the handler's keys.
    pub closed spec fn keys(&self) -> Map<u32, InputEvent> {
        self.key_map@
    }

    /// A handler in the initial state, with the table of the keys, that
    /// moves the window five cells a key.
    pub fn new() -> (input: ConsoleInput)
        ensures
            input.state() == initial_input_state(),
            input.speed() == 5,
            input.keys() == key_table(),
    {
        let mut input = ConsoleInput {
            key_map: HashMap::new(),
            state: InputState::default(),
            move_speed: 5,
        };
        input.initialize_key_map();
        input
    }

    /// Fills the table of the keys.
    fn initialize_key_map(&mut self)
        requires
            old(self).keys() == Map::<u32, InputEvent>::empty(),
        ensures
            final(self).keys() == key_table(),
            final(self).state() == old(self).state(),
            final(self).speed() == old(self).speed(),
    {
        self.key_map.insert(' ' as u32, InputEvent::StartPause);
        self.key_map.insert('r' as u32, InputEvent::Reset);
        self.key_map.insert('q' as u32, InputEvent::Quit);

        self.key_map.insert('w' as u32, InputEvent::MoveUp);
        self.key_map.insert('a' as u32, InputEvent::MoveLeft);
        self.key_map.insert('s' as u32, InputEvent::MoveDown);
        self.key_map.insert('d' as u32, InputEvent::MoveRight);

        self.key_map.insert('.' as u32, InputEvent::Step);
        self.key_map.insert('>' as u32, InputEvent::Step);

        self.key_map.insert('+' as u32, InputEvent::ZoomIn);
        self.key_map.insert('-' as u32, InputEvent::ZoomOut);
        self.key_map.insert('c' as u32, InputEvent::CenterView);

        self.key_map.insert('l' as u32, InputEvent::LoadPattern);
        self.key_map.insert('o' as u32, InputEvent::SavePattern);

        self.key_map.insert('i' as u32, InputEvent::ToggleStats);
        self.key_map.insert('h' as u32, InputEvent::ToggleControls);
        assert(self.key_map@ =~= key_table());
    }

    /// Takes one key: looks its event up in the table and changes the
    /// state as the event asks.
    pub fn process_key(&mut self, key: char) -> (event: InputEvent)
        requires
            old(self).speed() > i32::MIN,
        ensures
            event == event_in(old(self).keys(), key),
            final(self).state() == state_after(old(self).state(), old(self).speed(), event),
            final(self).speed() == old(self).speed(),
            final(self).keys() == old(self).keys(),
    {
        let code = lower_key(key) as u32;
        let event = match self.key_map.get(&code) {
            Some(event) => *event,
            None => InputEvent::Unknown,
        };
        match event {
            InputEvent::MoveUp | InputEvent::MoveDown | InputEvent::MoveLeft | InputEvent::MoveRight => {
                self.handle_movement(event);
            },
            InputEvent::ToggleStats => {
                self.state.stats_visible = !self.state.stats_visible;
            },
            InputEvent::ToggleControls => {
                self.state.controls_visible = !self.state.controls_visible;
            },
            InputEvent::Quit => {
                self.state.running = false;
            },
            _ => {},
        }
        event
    }

    /// Sets the window's movement for a movement event, and puts it at rest
    /// for any other.
    pub fn handle_movement(&mut self, event: InputEvent)
        requires
            old(self).speed() > i32::MIN,
        ensures
            final(self).state() == state_after_movement(
                old(self).state(),
                old(self).speed(),
                event,
            ),
            final(self).speed() == old(self).speed(),
            final(self).keys() == old(self).keys(),
    {
        self.state.viewport_delta_x = 0;
        self.state.viewport_delta_y = 0;
        match event {
            InputEvent::MoveUp => {
                self.state.viewport_delta_y = -self.move_speed;
            },
            InputEvent::MoveDown => {
                self.state.viewport_delta_y = self.move_speed;
            },
            InputEvent::MoveLeft => {
                self.state.viewport_delta_x = -self.move_speed;
            },
            InputEvent::MoveRight => {
                self.state.viewport_delta_x = self.move_speed;
            },
            _ => {},
        }
    }

    /// The input state.
    pub fn get_state(&self) -> (state: &InputState)
        ensures
            *state == self.state(),
    {
        &self.state
    }

    /// Puts the state back to the initial state.
    pub fn reset_state(&mut self)
        ensures
            final(self).state() == initial_input_state(),
            final(self).speed() == old(self).speed(),
            final(self).keys() == old(self).keys(),
    {
        self.state = InputState::default();
    }

    /// Sets how far one movement key moves the window.
    pub fn set_move_speed(&mut self, speed: i32)
        ensures
            final(self).speed() == speed,
            final(self).state() == old(self).state(),
            final(self).keys() == old(self).keys(),
    {
        self.move_speed = speed;
    }

    /// How far one movement key moves the window.
    pub fn get_move_speed(&self) -> (speed: i32)
        ensures
            speed == self.speed(),
    {
        self.move_speed
    }
}

} // verus!
