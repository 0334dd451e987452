//! The state of a running game, and what the player does to it.

pub mod game_data;
pub mod game_state;

use vstd::prelude::*;
use crate::data::base::Position;

verus! {

/// The keys that the game tells apart by their code; every other key has
/// the code `Char` if it prints a character and `Other` if not.
#[derive(Copy, Clone, Debug, PartialEq, Eq, Structural)]
pub enum KeyCode {
    NoKey,
    Escape,
    Backspace,
    Enter,
    Up,
    Down,
    Left,
    Right,
    Char,
    Other,
}

/// A key as it was pressed or released.
#[derive(Copy, Clone, Debug, PartialEq, Eq, Structural)]
pub struct Key {
    pub code: KeyCode,
    pub printable: char,
    pub pressed: bool,
    pub shift: bool,
}

impl Key {
    /// No key at all.
    pub open spec fn spec_default() -> Key {
        Key { code: KeyCode::NoKey, printable: '\0', pressed: false, shift: false }
    }
}

impl Default for Key {
    fn default() -> (r: Self)
        ensures
            r == Key::spec_default(),
    {
        Key { code: KeyCode::NoKey, printable: '\0', pressed: false, shift: false }
    }
}

/// The mouse as it was when it last moved or clicked: where it is, in
/// pixels and in cells of the console, which buttons are held, and which
/// were clicked just now.
#[derive(Copy, Clone, Debug, PartialEq, Eq, Structural)]
pub struct Mouse {
    pub x: i32,
    pub y: i32,
    pub cx: i32,
    pub cy: i32,
    pub lbutton: bool,
    pub rbutton: bool,
    pub mbutton: bool,
    pub lbutton_pressed: bool,
    pub rbutton_pressed: bool,
    pub mbutton_pressed: bool,
}

impl Mouse {
    /// A mouse in the top-left corner with no button touched.
    pub open spec fn spec_default() -> Mouse {
        Mouse {
            x: 0,
            y: 0,
            cx: 0,
            cy: 0,
            lbutton: false,
            rbutton: false,
            mbutton: false,
            lbutton_pressed: false,
            rbutton_pressed: false,
            mbutton_pressed: false,
        }
    }

    /// The mouse with no button clicked just now.
    pub open spec fn spec_without_clicks(self) -> Mouse {
        Mouse { lbutton_pressed: false, rbutton_pressed: false, mbutton_pressed: false, ..self }
    }

    pub fn without_clicks(self) -> (r: Mouse)
        ensures
            r == self.spec_without_clicks(),
    {
        Mouse { lbutton_pressed: false, rbutton_pressed: false, mbutton_pressed: false, ..self }
    }
}

impl Default for Mouse {
    fn default() -> (r: Self)
        ensures
            r == Mouse::spec_default(),
    {
        Mouse {
            x: 0,
            y: 0,
            cx: 0,
            cy: 0,
            lbutton: false,
            rbutton: false,
            mbutton: false,
            lbutton_pressed: false,
            rbutton_pressed: false,
            mbutton_pressed: false,
        }
    }
}

/// Something the player did.
#[derive(Copy, Clone, Debug, PartialEq, Eq, Structural)]
pub enum Event {
    Key(Key),
    Mouse(Mouse),
}

/// The kinds that an event belongs to.
#[derive(Copy, Clone, Debug, PartialEq, Eq, Structural)]
pub struct EventFlags {
    pub key_press: bool,
    pub key_release: bool,
    pub mouse: bool,
}

/// An event as the console hands it out, with its kinds.
#[derive(Copy, Clone, Debug, PartialEq, Eq, Structural)]
pub struct RawEvent {
    pub flags: EventFlags,
    pub event: Event,
}

/// A key that the game reacts to.
#[derive(Copy, Clone, Debug, PartialEq, Eq, Structural)]
pub struct KeyEvent {
    pub raw: Key,
}

impl KeyEvent {
    pub open spec fn spec_default() -> KeyEvent {
        KeyEvent { raw: Key::spec_default() }
    }
}

impl Default for KeyEvent {
    fn default() -> (r: Self)
        ensures
            r == KeyEvent::spec_default(),
    {
        KeyEvent { raw: Key::default() }
    }
}

/// The mouse as the game sees it.
#[derive(Copy, Clone, Debug, PartialEq, Eq, Structural)]
pub struct MouseEvent {
    pub raw: Mouse,
    /// The cell of the console under the mouse.
    pub character_position: Position,
    /// The pixel under the mouse.
    pub screen_position: Position,
    /// Whether the left button was clicked just now.
    pub clicked: bool,
}

impl MouseEvent {
    /// The mouse as the game sees it.
    pub open spec fn spec_from(mouse: Mouse) -> MouseEvent {
        MouseEvent {
            raw: mouse,
            character_position: Position { x: mouse.cx, y: mouse.cy },
            screen_position: Position { x: mouse.x, y: mouse.y },
            clicked: mouse.lbutton_pressed,
        }
    }

    pub fn from_mouse(mouse: Mouse) -> (r: Self)
        ensures
            r == Self::spec_from(mouse),
    {
        MouseEvent {
            raw: mouse,
            character_position: Position { x: mouse.cx, y: mouse.cy },
            screen_position: Position { x: mouse.x, y: mouse.y },
            clicked: mouse.lbutton_pressed,
        }
    }
}

impl Default for MouseEvent {
    fn default() -> (r: Self)
        ensures
            r == MouseEvent::spec_from(Mouse::spec_default()),
    {
        MouseEvent::from_mouse(Mouse::default())
    }
}

/// What was picked out of the events so far: the first key released, the
/// first key pressed, and the first move or click of the mouse.
#[derive(Copy, Clone, Debug, PartialEq, Eq, Structural)]
pub struct Picked {
    pub release: Option<Key>,
    pub press: Option<Key>,
    pub mouse: Option<Mouse>,
}

impl Picked {
    /// What is picked after `event` has come in. An event counts for the
    /// first kind, among release, press and mouse, that it belongs to and
    /// for which nothing is picked yet; it is picked if it is a key for a
    /// release or a press, or a mouse for a mouse.
    pub open spec fn spec_take(self, event: RawEvent) -> Picked {
        if event.flags.key_release && self.release.is_none() {
            match event.event {
                Event::Key(key) => Picked { release: Some(key), ..self },
                Event::Mouse(_) => self,
            }
        } else if event.flags.key_press && self.press.is_none() {
            match event.event {
                Event::Key(key) => Picked { press: Some(key), ..self },
                Event::Mouse(_) => self,
            }
        } else if event.flags.mouse && self.mouse.is_none() {
            match event.event {
                Event::Mouse(mouse) => Picked { mouse: Some(mouse), ..self },
                Event::Key(_) => self,
            }
        } else {
            self
        }
    }

    /// What is picked out of the first `count` of `events`.
    pub open spec fn of(events: Seq<RawEvent>, count: int) -> Picked
        decreases count,
    {
        if count <= 0 {
            Picked { release: None, press: None, mouse: None }
        } else {
            Self::of(events, count - 1).spec_take(events[count - 1])
        }
    }

    pub fn take(self, event: RawEvent) -> (r: Picked)
        ensures
            r == self.spec_take(event),
    {
        if event.flags.key_release && self.release.is_none() {
            match event.event {
                Event::Key(key) => Picked { release: Some(key), ..self },
                Event::Mouse(_) => self,
            }
        } else if event.flags.key_press && self.press.is_none() {
            match event.event {
                Event::Key(key) => Picked { press: Some(key), ..self },
                Event::Mouse(_) => self,
            }
        } else if event.flags.mouse && self.mouse.is_none() {
            match event.event {
                Event::Mouse(mouse) => Picked { mouse: Some(mouse), ..self },
                Event::Key(_) => self,
            }
        } else {
            self
        }
    }
}

/// What the player did since the game last looked.
#[derive(Clone, Debug)]
pub struct Input {
    pub raw_events: Vec<Event>,
    pub press_key_event: KeyEvent,
    pub release_key_event: KeyEvent,
    pub mouse_event: MouseEvent,
}

impl Input {
    /// No input, with the mouse where it was.
    pub fn idle(mouse: Mouse) -> (r: Self)
        ensures
            r.raw_events@.len() == 0,
            r.press_key_event == KeyEvent::spec_default(),
            r.release_key_event == KeyEvent::spec_default(),
            r.mouse_event == MouseEvent::spec_from(mouse),
    {
        Input {
            raw_events: Vec::new(),
            press_key_event: KeyEvent::default(),
            release_key_event: KeyEvent::default(),
            mouse_event: MouseEvent::from_mouse(mouse),
        }
    }
}

/// Gathers what the player did from the events that came in. The first
/// key released, the first key pressed and the first event of the mouse
/// count. Where the mouse did nothing, it is where it was before,
/// `previous_mouse`; else `previous_mouse` becomes the mouse as it is now,
/// without its clicks, so that a click counts once.
pub fn handle_input(events: &Vec<RawEvent>, previous_mouse: &mut Mouse) -> (input: Input)
    ensures
        input.raw_events@.len() == events@.len(),
        forall|i: int| 0 <= i < events@.len() ==> #[trigger] input.raw_events@[i] == events@[i].event,
        input.press_key_event == (match Picked::of(events@, events@.len() as int).press {
            Some(key) => KeyEvent { raw: key },
            None => KeyEvent::spec_default(),
        }),
        input.release_key_event == (match Picked::of(events@, events@.len() as int).release {
            Some(key) => KeyEvent { raw: key },
            None => KeyEvent::spec_default(),
        }),
        input.mouse_event == (match Picked::of(events@, events@.len() as int).mouse {
            Some(mouse) => MouseEvent::spec_from(mouse),
            None => MouseEvent::spec_from(*old(previous_mouse)),
        }),
        *final(previous_mouse) == (match Picked::of(events@, events@.len() as int).mouse {
            Some(mouse) => mouse.spec_without_clicks(),
            None => *old(previous_mouse),
        }),
{
    let mut raw_events: Vec<Event> = Vec::new();
    let mut picked = Picked { release: None, press: None, mouse: None };
    let mut i: usize = 0;
    while i < events.len()
        invariant
            i <= events.len(),
            raw_events@.len() == i,
            forall|j: int| 0 <= j < i ==> #[trigger] raw_events@[j] == events@[j].event,
            picked == Picked::of(events@, i as int),
        decreases events.len() - i,
    {
        raw_events.push(events[i].event);
        picked = picked.take(events[i]);
        i += 1;
    }
    let mouse_event = match picked.mouse {
        Some(mouse) => {
            *previous_mouse = mouse.without_clicks();
            MouseEvent::from_mouse(mouse)
        },
        None => MouseEvent::from_mouse(*previous_mouse),
    };
    Input {
        raw_events,
        press_key_event: match picked.press {
            Some(key) => KeyEvent { raw: key },
            None => KeyEvent::default(),
        },
        release_key_event: match picked.release {
            Some(key) => KeyEvent { raw: key },
            None => KeyEvent::default(),
        },
        mouse_event,
    }
}

} // verus!
