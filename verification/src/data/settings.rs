use vstd::prelude::*;
use crate::data::base::Size;
use crate::util::{find_largest_fit, largest_fit_from};

verus! {

/// How the console is put on the screen.
#[derive(Debug, Copy, Clone, Eq, PartialEq, Structural)]
pub enum Renderer {
    GlSl,
    OpenGL,
    SDL,
}

impl Renderer {
    /// All renderers, in the order in which they are offered.
    pub fn all() -> (r: Vec<Self>)
        ensures
            r@ == seq![Renderer::GlSl, Renderer::OpenGL, Renderer::SDL],
    {
        let r = vec![Renderer::GlSl, Renderer::OpenGL, Renderer::SDL];
        assert(r@ =~= seq![Renderer::GlSl, Renderer::OpenGL, Renderer::SDL]);
        r
    }

    /// The name under which the renderer is offered.
    pub fn label(self) -> (r: &'static str)
        ensures
            r@ == (match self {
                Renderer::GlSl => "GLSL"@,
                Renderer::OpenGL => "OpenGL"@,
                Renderer::SDL => "SDL"@,
            }),
    {
        match self {
            Self::GlSl => "GLSL",
            Self::OpenGL => "OpenGL",
            Self::SDL => "SDL",
        }
    }

    /// The renderer at the given place among all of them.
    pub open spec fn spec_from_index(i: usize) -> Option<Self> {
        if i == 0 {
            Some(Renderer::GlSl)
        } else if i == 1 {
            Some(Renderer::OpenGL)
        } else if i == 2 {
            Some(Renderer::SDL)
        } else {
            None
        }
    }

    pub fn from_index(i: usize) -> (r: Option<Self>)
        ensures
            r == Self::spec_from_index(i),
    {
        if i == 0 {
            Some(Renderer::GlSl)
        } else if i == 1 {
            Some(Renderer::OpenGL)
        } else if i == 2 {
            Some(Renderer::SDL)
        } else {
            None
        }
    }
}

impl Default for Renderer {
    fn default() -> (r: Self)
        ensures
            r == Renderer::SDL,
    {
        Self::SDL
    }
}

/// The window of the game.
#[derive(Debug, Copy, Clone, PartialEq, Eq, Structural)]
pub struct Display {
    pub fullscreen: bool,
    pub resolution: Size,
}

/// The widths a window is offered in, in pixels.
pub open spec fn offered_widths() -> Seq<i32> {
    seq![800i32, 1024, 1280, 1366, 1440, 1600, 1920, 2560]
}

/// The heights a window is offered in, in pixels.
pub open spec fn offered_heights() -> Seq<i32> {
    seq![600i32, 768, 900, 1080, 1200, 1440, 1600]
}

/// The widths a window is offered in, in pixels.
pub fn widths() -> (r: [i32; 8])
    ensures
        r@ == offered_widths(),
{
    let r: [i32; 8] = [800, 1024, 1280, 1366, 1440, 1600, 1920, 2560];
    assert(r@ =~= offered_widths());
    r
}

/// The heights a window is offered in, in pixels.
pub fn heights() -> (r: [i32; 7])
    ensures
        r@ == offered_heights(),
{
    let r: [i32; 7] = [600, 768, 900, 1080, 1200, 1440, 1600];
    assert(r@ =~= offered_heights());
    r
}

/// The resolution for a window on a screen of `current_width` times
/// `current_height` pixels: on each axis the size that is offered just
/// before the first one, from the second on, that the screen does not
/// exceed, and the largest one for a screen beyond them all.
pub open spec fn sensible_resolution(current_width: i32, current_height: i32) -> Size {
    Size {
        width: largest_fit_from(current_width, offered_widths(), 0),
        height: largest_fit_from(current_height, offered_heights(), 0),
    }
}

/// A resolution for a window that fits a screen of `current_width` times
/// `current_height` pixels.
pub fn get_sensible_default_resolution(current_width: i32, current_height: i32) -> (r: Size)
    ensures
        r == sensible_resolution(current_width, current_height),
        offered_widths().contains(r.width),
        offered_heights().contains(r.height),
{
    let mut width = current_width;
    let mut height = current_height;
    let w = widths();
    let h = heights();
    find_largest_fit(&mut width, w.as_slice());
    find_largest_fit(&mut height, h.as_slice());
    Size::new(width, height)
}

impl Display {
    /// A window, not fullscreen, of a sensible size for a screen of
    /// `current_width` times `current_height` pixels.
    pub fn for_screen(current_width: i32, current_height: i32) -> (r: Self)
        ensures
            !r.fullscreen,
            r.resolution == sensible_resolution(current_width, current_height),
    {
        Self { fullscreen: false, resolution: get_sensible_default_resolution(current_width, current_height) }
    }
}

/// The key for each command.
#[derive(Debug, Copy, Clone, PartialEq, Eq, Structural)]
pub struct KeyBindings {
    pub exit: char,
    pub basics: char,
    pub workshops: char,
    pub orders: char,
    pub furniture: char,
    pub stock_manager: char,
    pub squads: char,
    pub announcements: char,
    pub center: char,
    pub help: char,
    pub pause: char,
    pub jobs: char,
    pub dev_console: char,
    pub terrain_overlay: char,
    pub permanent: char,
}

/// The number of commands that have a key.
pub const KEY_COUNT: usize = 15;

impl KeyBindings {
    /// The key of the command at the given place in the key map.
    pub open spec fn key_at(self, mapping: int) -> char {
        if mapping == 0 {
            self.announcements
        } else if mapping == 1 {
            self.center
        } else if mapping == 2 {
            self.stock_manager
        } else if mapping == 3 {
            self.exit
        } else if mapping == 4 {
            self.permanent
        } else if mapping == 5 {
            self.furniture
        } else if mapping == 6 {
            self.orders
        } else if mapping == 7 {
            self.help
        } else if mapping == 8 {
            self.basics
        } else if mapping == 9 {
            self.pause
        } else if mapping == 10 {
            self.terrain_overlay
        } else if mapping == 11 {
            self.dev_console
        } else if mapping == 12 {
            self.jobs
        } else if mapping == 13 {
            self.squads
        } else {
            self.workshops
        }
    }

    /// The name of the command at the given place in the key map.
    pub open spec fn label_at(mapping: int) -> Seq<char> {
        if mapping == 0 {
            "Announcements"@
        } else if mapping == 1 {
            "Center"@
        } else if mapping == 2 {
            "Stock Manager"@
        } else if mapping == 3 {
            "Exit"@
        } else if mapping == 4 {
            "Permanent"@
        } else if mapping == 5 {
            "Furniture"@
        } else if mapping == 6 {
            "Orders"@
        } else if mapping == 7 {
            "Help"@
        } else if mapping == 8 {
            "Basics"@
        } else if mapping == 9 {
            "Pause"@
        } else if mapping == 10 {
            "Terrain Overlay"@
        } else if mapping == 11 {
            "Developer Console"@
        } else if mapping == 12 {
            "Jobs"@
        } else if mapping == 13 {
            "Squads"@
        } else {
            "Workshops"@
        }
    }

    /// The name and the key of every command, in the order of the key
    /// map.
    pub fn key_map(&self) -> (r: Vec<(&'static str, char)>)
        ensures
            r.len() == KEY_COUNT,
            forall|i: int| 0 <= i < KEY_COUNT ==> (#[trigger] r[i]).0@ == Self::label_at(i),
            forall|i: int| 0 <= i < KEY_COUNT ==> (#[trigger] r[i]).1 == self.key_at(i),
    {
        vec![
            ("Announcements", self.announcements),
            ("Center", self.center),
            ("Stock Manager", self.stock_manager),
            ("Exit", self.exit),
            ("Permanent", self.permanent),
            ("Furniture", self.furniture),
            ("Orders", self.orders),
            ("Help", self.help),
            ("Basics", self.basics),
            ("Pause", self.pause),
            ("Terrain Overlay", self.terrain_overlay),
            ("Developer Console", self.dev_console),
            ("Jobs", self.jobs),
            ("Squads", self.squads),
            ("Workshops", self.workshops),
        ]
    }

    /// Gives the command at the given place in the key map another key.
    pub fn update_key_map(&mut self, mapping: usize, value: char)
        requires
            mapping < KEY_COUNT,
        ensures
            final(self).key_at(mapping as int) == value,
            forall|i: int| 0 <= i < KEY_COUNT && i != mapping ==> final(self).key_at(i) == old(self).key_at(i),
    {
        if mapping == 0 {
            self.announcements = value;
        } else if mapping == 1 {
            self.center = value;
        } else if mapping == 2 {
            self.stock_manager = value;
        } else if mapping == 3 {
            self.exit = value;
        } else if mapping == 4 {
            self.permanent = value;
        } else if mapping == 5 {
            self.furniture = value;
        } else if mapping == 6 {
            self.orders = value;
        } else if mapping == 7 {
            self.help = value;
        } else if mapping == 8 {
            self.basics = value;
        } else if mapping == 9 {
            self.pause = value;
        } else if mapping == 10 {
            self.terrain_overlay = value;
        } else if mapping == 11 {
            self.dev_console = value;
        } else if mapping == 12 {
            self.jobs = value;
        } else if mapping == 13 {
            self.squads = value;
        } else {
            self.workshops = value;
        }
    }

    /// The keys as they are before anyone changes them.
    pub open spec fn spec_default() -> Self {
        KeyBindings {
            exit: 'q',
            basics: 'b',
            workshops: 'w',
            orders: 'o',
            furniture: 'f',
            stock_manager: 's',
            squads: 'm',
            announcements: 'a',
            center: 'c',
            help: 'h',
            pause: ' ',
            jobs: 'j',
            dev_console: '`',
            terrain_overlay: 't',
            permanent: 'p',
        }
    }
}

impl Default for KeyBindings {
    fn default() -> (r: Self)
        ensures
            r == KeyBindings::spec_default(),
    {
        Self {
            exit: 'q',
            basics: 'b',
            workshops: 'w',
            orders: 'o',
            furniture: 'f',
            stock_manager: 's',
            squads: 'm',
            announcements: 'a',
            center: 'c',
            help: 'h',
            pause: ' ',
            jobs: 'j',
            dev_console: '`',
            terrain_overlay: 't',
            permanent: 'p',
        }
    }
}

/// What the player has set.
#[derive(Debug, Clone)]
pub struct Settings {
    pub renderer: Renderer,
    pub use_tile_set: bool,
    pub tile_set: Option<String>,
    pub tutorial: bool,
    pub river_width: u32,
    pub river_depth: u32,
    pub half_rendering: bool,
    pub compress_saves: bool,
    pub translucent_ui: bool,
    pub auto_save: bool,
    pub pause_on_danger: bool,
    pub display: Display,
    pub key_bindings: KeyBindings,
}

impl Settings {
    /// The settings of a new installation, with the given window.
    pub fn new(display: Display) -> (r: Self)
        ensures
            r.display == display,
            r.renderer == Renderer::SDL,
            !r.use_tile_set,
            r.tile_set.is_none(),
            !r.tutorial,
            r.river_width == 30,
            r.river_depth == 5,
            !r.half_rendering,
            !r.compress_saves,
            !r.translucent_ui,
            r.auto_save,
            !r.pause_on_danger,
            r.key_bindings == KeyBindings::spec_default(),
    {
        Self {
            display,
            renderer: Renderer::SDL,
            use_tile_set: false,
            tile_set: None,
            tutorial: false,
            river_width: 30,
            river_depth: 5,
            half_rendering: false,
            compress_saves: false,
            translucent_ui: false,
            auto_save: true,
            pause_on_danger: false,
            key_bindings: KeyBindings::default(),
        }
    }

    /// The same settings once more.
    pub fn duplicate(&self) -> (r: Self)
        ensures
            r == *self,
    {
        Self {
            display: self.display,
            renderer: self.renderer,
            use_tile_set: self.use_tile_set,
            tile_set: match &self.tile_set {
                Some(name) => Some(name.clone()),
                None => None,
            },
            tutorial: self.tutorial,
            river_width: self.river_width,
            river_depth: self.river_depth,
            half_rendering: self.half_rendering,
            compress_saves: self.compress_saves,
            translucent_ui: self.translucent_ui,
            auto_save: self.auto_save,
            pause_on_danger: self.pause_on_danger,
            key_bindings: self.key_bindings,
        }
    }

    /// Puts `other` in the place of these settings.
    pub fn restore_from(&mut self, other: Self)
        ensures
            *final(self) == other,
    {
        *self = other;
    }

    /// The switch at the given place in the list of switches.
    pub open spec fn switch_at(&self, i: int) -> bool {
        if i == 0 {
            self.display.fullscreen
        } else if i == 1 {
            self.tutorial
        } else if i == 2 {
            self.translucent_ui
        } else if i == 3 {
            self.compress_saves
        } else if i == 4 {
            self.auto_save
        } else {
            self.pause_on_danger
        }
    }

    /// The name of the switch at the given place in the list of
    /// switches.
    pub open spec fn switch_label_at(i: int) -> Seq<char> {
        if i == 0 {
            "Fullscreen mode"@
        } else if i == 1 {
            "Tutorial"@
        } else if i == 2 {
            "Translucent UI"@
        } else if i == 3 {
            "Compress saves"@
        } else if i == 4 {
            "Auto save"@
        } else {
            "Pause on danger"@
        }
    }

    /// The name of every switch and whether it is on.
    pub fn text_and_values(&self) -> (r: Vec<(&'static str, bool)>)
        ensures
            r.len() == 6,
            forall|i: int| 0 <= i < 6 ==> (#[trigger] r[i]).0@ == Self::switch_label_at(i),
            forall|i: int| 0 <= i < 6 ==> (#[trigger] r[i]).1 == self.switch_at(i),
    {
        vec![
            ("Fullscreen mode", self.display.fullscreen),
            ("Tutorial", self.tutorial),
            ("Translucent UI", self.translucent_ui),
            ("Compress saves", self.compress_saves),
            ("Auto save", self.auto_save),
            ("Pause on danger", self.pause_on_danger),
        ]
    }
}

} // verus!
