//! The menu that the game starts with.

pub mod settings_dialog;
pub mod tile_sets_dialog;

use vstd::prelude::*;
use crate::data::base::Size;
use crate::game::{Event, Mouse};
use crate::ui::dialog::middle;

verus! {

/// When an entry of the menu can be chosen.
#[derive(Copy, Clone, Debug, Eq, PartialEq, Structural)]
pub enum ActiveState {
    Always,
    IfRunning,
    HasSaves,
    Never,
}

/// What choosing an entry of the menu leads to.
#[derive(Copy, Clone, Debug, Eq, PartialEq, Structural)]
pub enum MenuAction {
    /// Ask whether a new game is to begin.
    ConfirmNewGame,
    /// End the game.
    EndGame,
}

/// Whether something that can be chosen in the state `active` can be
/// chosen, in a game that runs or in one that does not.
pub open spec fn spec_active(active: ActiveState, running: bool) -> bool {
    match active {
        ActiveState::Always => true,
        ActiveState::IfRunning => running,
        _ => false,
    }
}

/// An entry of the main menu.
#[derive(Copy, Clone, Debug)]
pub struct MainMenuEntry {
    pub label: &'static str,
    pub shortcut: char,
    pub active: ActiveState,
    pub action: MenuAction,
}

/// The number of entries of the main menu.
pub const ENTRY_COUNT: usize = 9;

/// The width of the main menu.
pub const MENU_WIDTH: i32 = 20;

impl MainMenuEntry {
    /// Whether the entry can be chosen, in a game that runs or in one that
    /// does not.
    pub open spec fn spec_is_active(&self, running: bool) -> bool {
        spec_active(self.active, running)
    }

    pub fn is_active(&self, running: bool) -> (r: bool)
        ensures
            r == self.spec_is_active(running),
    {
        match self.active {
            ActiveState::Always => true,
            ActiveState::IfRunning => running,
            _ => false,
        }
    }
}

/// The key, the state in which it can be chosen, and what it leads to,
/// for the entry at `i` of the main menu.
pub open spec fn spec_entry(i: int) -> (char, ActiveState, MenuAction) {
    if i == 0 {
        ('n', ActiveState::Always, MenuAction::ConfirmNewGame)
    } else if i == 1 {
        ('c', ActiveState::IfRunning, MenuAction::EndGame)
    } else if i == 2 {
        ('l', ActiveState::HasSaves, MenuAction::EndGame)
    } else if i == 3 {
        ('s', ActiveState::IfRunning, MenuAction::EndGame)
    } else if i == 4 {
        ('o', ActiveState::Never, MenuAction::EndGame)
    } else if i == 5 {
        ('k', ActiveState::Never, MenuAction::EndGame)
    } else if i == 6 {
        ('m', ActiveState::Never, MenuAction::EndGame)
    } else if i == 7 {
        ('t', ActiveState::Never, MenuAction::EndGame)
    } else {
        ('q', ActiveState::Always, MenuAction::EndGame)
    }
}

/// The entries of the main menu, from the top.
pub fn entries() -> (r: Vec<MainMenuEntry>)
    ensures
        r@.len() == ENTRY_COUNT,
        forall|i: int|
            0 <= i < ENTRY_COUNT ==> ((#[trigger] r@[i]).shortcut, r@[i].active, r@[i].action) == spec_entry(i),
{
    vec![
        MainMenuEntry {
            label: "New Game",
            shortcut: 'n',
            active: ActiveState::Always,
            action: MenuAction::ConfirmNewGame,
        },
        MainMenuEntry {
            label: "Continue",
            shortcut: 'c',
            active: ActiveState::IfRunning,
            action: MenuAction::EndGame,
        },
        MainMenuEntry { label: "Load", shortcut: 'l', active: ActiveState::HasSaves, action: MenuAction::EndGame },
        MainMenuEntry { label: "Save", shortcut: 's', active: ActiveState::IfRunning, action: MenuAction::EndGame },
        MainMenuEntry { label: "Settings", shortcut: 'o', active: ActiveState::Never, action: MenuAction::EndGame },
        MainMenuEntry { label: "Keys", shortcut: 'k', active: ActiveState::Never, action: MenuAction::EndGame },
        MainMenuEntry { label: "Mods", shortcut: 'm', active: ActiveState::Never, action: MenuAction::EndGame },
        MainMenuEntry { label: "Tile sets", shortcut: 't', active: ActiveState::Never, action: MenuAction::EndGame },
        MainMenuEntry { label: "Exit", shortcut: 'q', active: ActiveState::Always, action: MenuAction::EndGame },
    ]
}

/// Where the menu stands and what the mouse last did in it.
#[derive(Copy, Clone, Debug, PartialEq, Eq, Structural)]
pub struct RenderData {
    pub height: i32,
    pub edge_x: i32,
    pub edge_y: i32,
    pub render_credits_done: bool,
    pub l_button_down: bool,
    /// The entry that the mouse is over.
    pub selected: Option<usize>,
}

/// The main menu.
#[derive(Copy, Clone, Debug, PartialEq, Eq, Structural)]
pub struct MainMenu {
    pub render_data: Option<RenderData>,
}

/// The entry in whose row the mouse stands, if it stands in one: the
/// entries stand in every second row, from the third row of the menu on,
/// and the mouse has to be between the two sides of the menu.
pub open spec fn spec_entry_under(edge_x: i32, edge_y: i32, mouse: Mouse) -> Option<usize> {
    let line = mouse.cy - (edge_y + 2);
    if edge_x < mouse.cx < edge_x + MENU_WIDTH && line >= 0 && line % 2 == 0 && line / 2 < ENTRY_COUNT {
        Some((line / 2) as usize)
    } else {
        None
    }
}

pub fn entry_under(edge_x: i32, edge_y: i32, mouse: Mouse) -> (r: Option<usize>)
    ensures
        r == spec_entry_under(edge_x, edge_y, mouse),
{
    let line = mouse.cy as i64 - (edge_y as i64 + 2);
    if (edge_x as i64) < mouse.cx as i64 && (mouse.cx as i64) < edge_x as i64 + MENU_WIDTH as i64 && line >= 0 && line
        % 2 == 0 && line / 2 < ENTRY_COUNT as i64 {
        Some((line / 2) as usize)
    } else {
        None
    }
}

/// The first entry, from `from` on, that has the key `key` and can be
/// chosen.
pub open spec fn entry_for_key(key: char, running: bool, from: int) -> Option<int>
    decreases ENTRY_COUNT - from,
{
    if from < 0 || from >= ENTRY_COUNT {
        None
    } else if spec_entry(from).0 == key && spec_active(spec_entry(from).1, running) {
        Some(from)
    } else {
        entry_for_key(key, running, from + 1)
    }
}

impl MainMenu {
    /// A menu that has not come up yet.
    pub fn new() -> (r: Self)
        ensures
            r.render_data.is_none(),
    {
        MainMenu { render_data: None }
    }

    /// Brings the menu up in the middle of a screen of the size
    /// `screen`, or back up where it was.
    pub fn activate(&mut self, screen: Size)
        ensures
            final(self).render_data matches Some(data) && !data.render_credits_done && !data.l_button_down
                && data.selected.is_none() && match old(self).render_data {
                Some(before) => data.height == before.height && data.edge_x == before.edge_x && data.edge_y
                    == before.edge_y,
                None => data.height == ENTRY_COUNT * 2 + 2 && data.edge_x == crate::ui::dialog::spec_middle(
                    screen.width,
                    MENU_WIDTH,
                ) && data.edge_y == crate::ui::dialog::spec_middle(screen.height, (ENTRY_COUNT * 2 + 2) as i32),
            },
    {
        match self.render_data {
            None => {
                let height: i32 = (ENTRY_COUNT * 2 + 2) as i32;
                self.render_data = Some(
                    RenderData {
                        edge_x: middle(screen.width, MENU_WIDTH),
                        edge_y: middle(screen.height, height),
                        height,
                        render_credits_done: false,
                        l_button_down: false,
                        selected: None,
                    },
                );
            },
            Some(data) => {
                self.render_data = Some(
                    RenderData { render_credits_done: false, l_button_down: false, selected: None, ..data },
                );
            },
        }
    }

    /// What the menu does after `event`, the first thing the player did.
    /// A key chooses the first entry with that key that can be chosen.
    /// The mouse selects the entry it is over, and chooses it when the
    /// left button goes up over an entry that can be chosen.
    pub fn handle_input(data: &mut RenderData, event: Option<Event>, running: bool) -> (chosen: Option<MenuAction>)
        ensures
            final(data).height == old(data).height,
            final(data).edge_x == old(data).edge_x,
            final(data).edge_y == old(data).edge_y,
            final(data).render_credits_done == old(data).render_credits_done,
            match event {
                None => *final(data) == *old(data) && chosen.is_none(),
                Some(Event::Key(key)) => *final(data) == *old(data) && chosen == (match entry_for_key(
                    key.printable,
                    running,
                    0,
                ) {
                    Some(i) => Some(spec_entry(i).2),
                    None => None,
                }),
                Some(Event::Mouse(mouse)) => {
                    let under = spec_entry_under(old(data).edge_x, old(data).edge_y, mouse);
                    let released = !mouse.lbutton && old(data).l_button_down;
                    let chooses = released && under.is_some() && spec_active(
                        spec_entry(under.unwrap() as int).1,
                        running,
                    );
                    &&& final(data).l_button_down == mouse.lbutton
                    &&& chosen == (if chooses {
                        Some(spec_entry(under.unwrap() as int).2)
                    } else {
                        None
                    })
                    &&& final(data).selected == under
                },
            },
    {
        let all = entries();
        match event {
            None => None,
            Some(Event::Key(key)) => {
                let mut i: usize = 0;
                while i < ENTRY_COUNT
                    invariant
                        i <= ENTRY_COUNT,
                        all@.len() == ENTRY_COUNT,
                        event == Some(Event::Key(key)),
                        *data == *old(data),
                        forall|j: int|
                            0 <= j < ENTRY_COUNT ==> ((#[trigger] all@[j]).shortcut, all@[j].active, all@[j].action)
                                == spec_entry(j),
                        entry_for_key(key.printable, running, 0) == entry_for_key(key.printable, running, i as int),
                    decreases ENTRY_COUNT - i,
                {
                    if key.printable == all[i].shortcut && all[i].is_active(running) {
                        return Some(all[i].action);
                    }
                    i += 1;
                }
                None
            },
            Some(Event::Mouse(mouse)) => {
                data.selected = entry_under(data.edge_x, data.edge_y, mouse);
                if mouse.lbutton {
                    data.l_button_down = true;
                    None
                } else if data.l_button_down {
                    data.l_button_down = false;
                    match data.selected {
                        Some(selected) => {
                            if all[selected].is_active(running) {
                                Some(all[selected].action)
                            } else {
                                None
                            }
                        },
                        None => None,
                    }
                } else {
                    None
                }
            },
        }
    }
}

} // verus!
