//! The menu shown over the grid: which menu is open and which of its items
//! is selected.

use vstd::prelude::*;

verus! {

/// The menus that can be open.
#[derive(Debug, Clone, Copy, PartialEq, Eq, Structural)]
pub enum MenuType {
    Main,
    Patterns,
    Backends,
    Settings,
    About,
}

/// The state of the menu.
pub struct MenuSystem {
    current_menu: Option<MenuType>,
    selected_index: usize,
    available_patterns: Vec<String>,
    available_backends: Vec<String>,
}

/// The items of the main menu.
pub open spec fn main_items() -> Seq<Seq<char>> {
    seq![
        "New Simulation"@,
        "Load Pattern"@,
        "Switch Backend"@,
        "Settings"@,
        "About"@,
    ]
}

/// The items of the settings menu.
pub open spec fn settings_items() -> Seq<Seq<char>> {
    seq!["Auto-step Speed"@, "Grid Colors"@, "Viewport"@, "Keybindings"@]
}

/// The patterns that a new menu offers.
pub open spec fn default_patterns() -> Seq<Seq<char>> {
    seq!["blinker"@, "glider"@, "beacon"@, "toad"@, "block"@, "glider-gun"@]
}

/// The backends that a menu offers.
pub open spec fn default_backends() -> Seq<Seq<char>> {
    seq!["bevy"@, "entt"@, "flecs"@]
}

/// The line of help for a menu, or for the screen without a menu.
pub open spec fn menu_help(menu: Option<MenuType>) -> Seq<char> {
    match menu {
        Some(MenuType::Main) => "Navigate: ↑/↓, Select: Enter, Back: Esc"@,
        Some(MenuType::Patterns) => "Navigate: ↑/↓, Load: Enter, Back: Esc"@,
        Some(MenuType::Backends) => "Navigate: ↑/↓, Switch: Enter, Back: Esc"@,
        Some(MenuType::Settings) => "Navigate: ↑/↓, Configure: Enter, Back: Esc"@,
        Some(MenuType::About) => "Press Esc to close"@,
        None => "Press m for menu, h for help, q to quit"@,
    }
}

impl MenuSystem {
    /// The open menu, if one is open.
    pub closed spec fn menu(&self) -> Option<MenuType> {
        self.current_menu
    }

    /// The index of the selected item.
    pub closed spec fn selection(&self) -> nat {
        self.selected_index as nat
    }

    /// The names of the patterns on offer.
    pub closed spec fn patterns(&self) -> Seq<Seq<char>> {
        self.available_patterns.deep_view()
    }

    /// The names of the backends on offer.
    pub closed spec fn backends(&self) -> Seq<Seq<char>> {
        self.available_backends.deep_view()
    }

    /// The items of `menu`.
    pub open spec fn items(&self, menu: MenuType) -> Seq<Seq<char>> {
        match menu {
            MenuType::Main => main_items(),
            MenuType::Patterns => self.patterns(),
            MenuType::Backends => self.backends(),
            MenuType::Settings => settings_items(),
            MenuType::About => seq!["Close"@],
        }
    }

    /// The number of positions that the selection can take in `menu`.
    pub open spec fn item_count(&self, menu: MenuType) -> nat {
        match menu {
            MenuType::Main => 5,
            MenuType::Patterns => self.patterns().len(),
            MenuType::Backends => self.backends().len(),
            MenuType::Settings => 4,
            MenuType::About => 1,
        }
    }

    /// A closed menu with the default patterns and backends.
    pub fn new() -> (m: MenuSystem)
        ensures
            m.menu() is None,
            m.selection() == 0,
            m.patterns() == default_patterns(),
            m.backends() == default_backends(),
    {
        let m = MenuSystem {
            current_menu: None,
            selected_index: 0,
            available_patterns: vec![
                "blinker".to_string(),
                "glider".to_string(),
                "beacon".to_string(),
                "toad".to_string(),
                "block".to_string(),
                "glider-gun".to_string(),
            ],
            available_backends: vec!["bevy".to_string(), "entt".to_string(), "flecs".to_string()],
        };
        proof {
            assert(m.available_patterns.deep_view() =~= default_patterns());
            assert(m.available_backends.deep_view() =~= default_backends());
        }
        m
    }

    /// Opens `menu_type`, with its first item selected.
    pub fn show_menu(&mut self, menu_type: MenuType)
        ensures
            final(self).menu() == Some(menu_type),
            final(self).selection() == 0,
            final(self).patterns() == old(self).patterns(),
            final(self).backends() == old(self).backends(),
    {
        self.current_menu = Some(menu_type);
        self.selected_index = 0;
    }

    /// Closes the menu.
    pub fn hide_menu(&mut self)
        ensures
            final(self).menu() is None,
            final(self).selection() == 0,
            final(self).patterns() == old(self).patterns(),
            final(self).backends() == old(self).backends(),
    {
        self.current_menu = None;
        self.selected_index = 0;
    }

    /// Whether a menu is open.
    pub fn is_menu_active(&self) -> (active: bool)
        ensures
            active == self.menu() is Some,
    {
        self.current_menu.is_some()
    }

    /// The open menu, if one is open.
    pub fn get_current_menu(&self) -> (menu: Option<MenuType>)
        ensures
            menu == self.menu(),
    {
        self.current_menu
    }

    /// Moves the selection one item down for a positive `direction` and one
    /// item up for a negative one; it stays where it is at either end, for
    /// zero and while no menu is open.
    pub fn move_selection(&mut self, direction: i32)
        ensures
            final(self).menu() == old(self).menu(),
            final(self).patterns() == old(self).patterns(),
            final(self).backends() == old(self).backends(),
            final(self).selection() == match old(self).menu() {
                Some(menu) => if direction > 0 && old(self).selection() + 1 < old(self).item_count(
                    menu,
                ) {
                    old(self).selection() + 1
                } else if direction < 0 && old(self).selection() > 0 {
                    (old(self).selection() - 1) as nat
                } else {
                    old(self).selection()
                },
                None => old(self).selection(),
            },
    {
        if let Some(menu_type) = self.current_menu {
            let max_items: usize = match menu_type {
                MenuType::Main => 5,
                MenuType::Patterns => self.available_patterns.len(),
                MenuType::Backends => self.available_backends.len(),
                MenuType::Settings => 4,
                MenuType::About => 1,
            };
            if direction > 0 && self.selected_index < max_items && self.selected_index + 1
                < max_items {
                self.selected_index += 1;
            } else if direction < 0 && self.selected_index > 0 {
                self.selected_index -= 1;
            }
        }
    }

    /// The selected item of the open menu: `None` while no menu is open and
    /// where the selection lies beyond the menu's items.
    pub fn get_selected_item(&self) -> (item: Option<String>)
        ensures
            match self.menu() {
                Some(menu) => if self.selection() < self.items(menu).len() {
                    item is Some && item->0@ == self.items(menu)[self.selection() as int]
                } else {
                    item is None
                },
                None => item is None,
            },
    {
        match self.current_menu {
            Some(MenuType::Main) => {
                let i = self.selected_index;
                if i == 0 {
                    Some("New Simulation".to_string())
                } else if i == 1 {
                    Some("Load Pattern".to_string())
                } else if i == 2 {
                    Some("Switch Backend".to_string())
                } else if i == 3 {
                    Some("Settings".to_string())
                } else if i == 4 {
                    Some("About".to_string())
                } else {
                    None
                }
            },
            Some(MenuType::Patterns) => {
                if self.selected_index < self.available_patterns.len() {
                    Some(self.available_patterns[self.selected_index].clone())
                } else {
                    None
                }
            },
            Some(MenuType::Backends) => {
                if self.selected_index < self.available_backends.len() {
                    Some(self.available_backends[self.selected_index].clone())
                } else {
                    None
                }
            },
            Some(MenuType::Settings) => {
                let i = self.selected_index;
                if i == 0 {
                    Some("Auto-step Speed".to_string())
                } else if i == 1 {
                    Some("Grid Colors".to_string())
                } else if i == 2 {
                    Some("Viewport".to_string())
                } else if i == 3 {
                    Some("Keybindings".to_string())
                } else {
                    None
                }
            },
            Some(MenuType::About) => {
                if self.selected_index == 0 {
                    Some("Close".to_string())
                } else {
                    None
                }
            },
            None => None,
        }
    }

    /// The index of the selected item.
    pub fn get_selected_index(&self) -> (index: usize)
        ensures
            index == self.selection(),
    {
        self.selected_index
    }

    /// The items of the open menu, in order; none while no menu is open.
    pub fn get_menu_items(&self) -> (items: Vec<String>)
        ensures
            items.deep_view() == match self.menu() {
                Some(menu) => self.items(menu),
                None => Seq::empty(),
            },
    {
        let items = match self.current_menu {
            Some(MenuType::Main) => vec![
                "New Simulation".to_string(),
                "Load Pattern".to_string(),
                "Switch Backend".to_string(),
                "Settings".to_string(),
                "About".to_string(),
            ],
            Some(MenuType::Patterns) => self.available_patterns.clone(),
            Some(MenuType::Backends) => self.available_backends.clone(),
            Some(MenuType::Settings) => vec![
                "Auto-step Speed".to_string(),
                "Grid Colors".to_string(),
                "Viewport".to_string(),
                "Keybindings".to_string(),
            ],
            Some(MenuType::About) => vec!["Close".to_string()],
            None => Vec::new(),
        };
        proof {
            match self.current_menu {
                Some(MenuType::Main) => {
                    assert(items.deep_view() =~= main_items());
                },
                Some(MenuType::Patterns) => {
                    assert(items.deep_view() =~= self.available_patterns.deep_view());
                },
                Some(MenuType::Backends) => {
                    assert(items.deep_view() =~= self.available_backends.deep_view());
                },
                Some(MenuType::Settings) => {
                    assert(items.deep_view() =~= settings_items());
                },
                Some(MenuType::About) => {
                    assert(items.deep_view() =~= seq!["Close"@]);
                },
                None => {
                    assert(items.deep_view() =~= Seq::<Seq<char>>::empty());
                },
            }
        }
        items
    }

    /// Replaces the patterns on offer.  The selection stays where it is.
    pub fn update_available_patterns(&mut self, patterns: Vec<String>)
        ensures
            final(self).patterns() == patterns.deep_view(),
            final(self).backends() == old(self).backends(),
            final(self).menu() == old(self).menu(),
            final(self).selection() == old(self).selection(),
    {
        self.available_patterns = patterns;
    }

    /// The line of help for the open menu, or for the screen without one.
    pub fn get_menu_help(&self) -> (help: String)
        ensures
            help@ == menu_help(self.menu()),
    {
        match self.current_menu {
            Some(MenuType::Main) => "Navigate: ↑/↓, Select: Enter, Back: Esc".to_string(),
            Some(MenuType::Patterns) => "Navigate: ↑/↓, Load: Enter, Back: Esc".to_string(),
            Some(MenuType::Backends) => "Navigate: ↑/↓, Switch: Enter, Back: Esc".to_string(),
            Some(MenuType::Settings) => "Navigate: ↑/↓, Configure: Enter, Back: Esc".to_string(),
            Some(MenuType::About) => "Press Esc to close".to_string(),
            None => "Press m for menu, h for help, q to quit".to_string(),
        }
    }
}

} // verus!
