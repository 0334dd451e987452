use vstd::prelude::*;
use crate::data::base::{Position, Rectangle, Size};
use crate::data::settings::{Renderer, Settings};
use crate::game::{Input, KeyCode};
use crate::ui::dialog::middle;
use crate::util::text::{decimal, parse_number, spec_decimal, to_chars, value_of, all_digits};
use crate::util::Flip;

verus! {

/// The width of the dialog.
pub const WIDTH: i32 = 40;

/// The height of the dialog.
pub const HEIGHT: i32 = 21;

/// How many digits a field takes.
pub const FIELD_LENGTH: usize = 33;

/// A field of the dialog in which a number is typed.
pub struct SettingField {
    pub label: &'static str,
    pub value: Vec<char>,
    pub invalid: bool,
}

/// What the player has done with the dialog.
#[derive(Copy, Clone, Debug, PartialEq, Eq, Structural)]
pub enum SettingsDialogOutcome {
    /// The dialog stays.
    Stay,
    /// The dialog goes and the settings are as they were before it came.
    Discard,
    /// The dialog goes and the settings are to be saved.
    Save,
    /// The player is to be told that a field holds no number.
    ShowInvalid,
}

/// The dialog in which the player sets the size of the window and a few
/// switches.
pub struct SettingsDialog {
    pub width_field: SettingField,
    pub height_field: SettingField,
    pub focused_field: usize,
    pub original_settings: Option<Settings>,
    pub message_box: bool,
}

/// What a click in the given row of the dialog does.
#[derive(Copy, Clone, Debug, PartialEq, Eq, Structural)]
pub enum RowAction {
    Nothing,
    FocusWidth,
    FocusHeight,
    FlipFullscreen,
    FlipTutorial,
    FlipTranslucentUi,
    FlipCompressSaves,
    FlipAutoSave,
    FlipPauseOnDanger,
    FlipUseTileSet,
    PickRenderer(usize),
}

/// What a click in the row `y` of the dialog does.
pub open spec fn spec_row_action(y: int) -> RowAction {
    if y == 4 || y == 5 {
        RowAction::FocusWidth
    } else if y == 6 || y == 7 {
        RowAction::FocusHeight
    } else if y == 9 {
        RowAction::FlipFullscreen
    } else if y == 11 {
        RowAction::FlipTutorial
    } else if y == 13 {
        RowAction::FlipTranslucentUi
    } else if y == 15 {
        RowAction::FlipCompressSaves
    } else if y == 17 {
        RowAction::FlipAutoSave
    } else if y == 19 {
        RowAction::FlipPauseOnDanger
    } else if y == 26 {
        RowAction::FlipUseTileSet
    } else if 22 <= y <= 24 {
        RowAction::PickRenderer((y - 22) as usize)
    } else {
        RowAction::Nothing
    }
}

pub fn row_action(y: i64) -> (r: RowAction)
    ensures
        r == spec_row_action(y as int),
{
    if y == 4 || y == 5 {
        RowAction::FocusWidth
    } else if y == 6 || y == 7 {
        RowAction::FocusHeight
    } else if y == 9 {
        RowAction::FlipFullscreen
    } else if y == 11 {
        RowAction::FlipTutorial
    } else if y == 13 {
        RowAction::FlipTranslucentUi
    } else if y == 15 {
        RowAction::FlipCompressSaves
    } else if y == 17 {
        RowAction::FlipAutoSave
    } else if y == 19 {
        RowAction::FlipPauseOnDanger
    } else if y == 26 {
        RowAction::FlipUseTileSet
    } else if 22 <= y && y <= 24 {
        RowAction::PickRenderer((y - 22) as usize)
    } else {
        RowAction::Nothing
    }
}

/// The settings after `action` was done to them.
pub open spec fn spec_switched(settings: Settings, action: RowAction) -> Settings {
    match action {
        RowAction::FlipFullscreen => Settings {
            display: crate::data::settings::Display { fullscreen: !settings.display.fullscreen, ..settings.display },
            ..settings
        },
        RowAction::FlipTutorial => Settings { tutorial: !settings.tutorial, ..settings },
        RowAction::FlipTranslucentUi => Settings { translucent_ui: !settings.translucent_ui, ..settings },
        RowAction::FlipCompressSaves => Settings { compress_saves: !settings.compress_saves, ..settings },
        RowAction::FlipAutoSave => Settings { auto_save: !settings.auto_save, ..settings },
        RowAction::FlipPauseOnDanger => Settings { pause_on_danger: !settings.pause_on_danger, ..settings },
        RowAction::FlipUseTileSet => Settings { use_tile_set: !settings.use_tile_set, ..settings },
        RowAction::PickRenderer(i) => match Renderer::spec_from_index(i) {
            Some(renderer) => Settings { renderer, ..settings },
            None => settings,
        },
        _ => settings,
    }
}

/// Does `action` to the settings.
pub fn switch(settings: &mut Settings, action: RowAction)
    ensures
        *final(settings) == spec_switched(*old(settings), action),
{
    match action {
        RowAction::FlipFullscreen => {
            settings.display.fullscreen.flip();
        },
        RowAction::FlipTutorial => {
            settings.tutorial.flip();
        },
        RowAction::FlipTranslucentUi => {
            settings.translucent_ui.flip();
        },
        RowAction::FlipCompressSaves => {
            settings.compress_saves.flip();
        },
        RowAction::FlipAutoSave => {
            settings.auto_save.flip();
        },
        RowAction::FlipPauseOnDanger => {
            settings.pause_on_danger.flip();
        },
        RowAction::FlipUseTileSet => {
            settings.use_tile_set.flip();
        },
        RowAction::PickRenderer(i) => {
            match Renderer::from_index(i) {
                Some(renderer) => {
                    settings.renderer = renderer;
                },
                None => {},
            }
        },
        _ => {},
    }
}

/// What a key does to the digits typed in a field: a digit is put at the
/// end, unless the field is full, and the backspace takes the last one
/// away. Nothing comes back where the key leaves the field as it is.
pub open spec fn spec_typed(value: Seq<char>, key: char, code: KeyCode) -> Option<Seq<char>> {
    if '0' <= key <= '9' && value.len() < FIELD_LENGTH {
        Some(value.push(key))
    } else if code == KeyCode::Backspace {
        Some(
            if value.len() > 0 {
                value.drop_last()
            } else {
                value
            },
        )
    } else {
        None
    }
}

impl SettingsDialog {
    /// A dialog that has not come up yet.
    pub fn new() -> (r: Self)
        ensures
            r.width_field.label@ == "Resolution (width)"@,
            r.height_field.label@ == "Resolution (height)"@,
            r.width_field.value@.len() == 0,
            r.height_field.value@.len() == 0,
            !r.width_field.invalid,
            !r.height_field.invalid,
            r.focused_field == 0,
            r.original_settings.is_none(),
            !r.message_box,
    {
        Self {
            width_field: SettingField { label: "Resolution (width)", value: Vec::new(), invalid: false },
            height_field: SettingField { label: "Resolution (height)", value: Vec::new(), invalid: false },
            focused_field: 0,
            original_settings: None,
            message_box: false,
        }
    }

    /// Brings the dialog up with the size of the window in its fields.
    /// Coming back from the message about a field without a number, the
    /// dialog is as it was.
    pub fn activate(&mut self, settings: &Settings)
        ensures
            !final(self).message_box,
            final(self).focused_field == old(self).focused_field,
            old(self).message_box ==> {
                &&& final(self).width_field == old(self).width_field
                &&& final(self).height_field == old(self).height_field
                &&& final(self).original_settings == old(self).original_settings
            },
            !old(self).message_box ==> {
                &&& final(self).original_settings == Some(*settings)
                &&& final(self).width_field.value@ == spec_decimal(settings.display.resolution.width as int)
                &&& final(self).height_field.value@ == spec_decimal(settings.display.resolution.height as int)
                &&& !final(self).width_field.invalid
                &&& !final(self).height_field.invalid
            },
    {
        if self.message_box {
            self.message_box = false;
        } else {
            self.original_settings = Some(settings.duplicate());
            self.width_field.value = to_chars(decimal(settings.display.resolution.width).as_str());
            self.width_field.invalid = false;
            self.height_field.value = to_chars(decimal(settings.display.resolution.height).as_str());
            self.height_field.invalid = false;
        }
    }

    /// Where the dialog stands on a screen of the size `screen`.
    pub fn dialog_position(screen: Size) -> (r: Position)
        ensures
            r.x == crate::ui::dialog::spec_middle(screen.width, WIDTH),
            r.y == crate::ui::dialog::spec_middle(screen.height, HEIGHT),
    {
        Position { x: middle(screen.width, WIDTH), y: middle(screen.height, HEIGHT) }
    }

    /// Shows a key to the field in focus. The digits typed are read as a
    /// number: if they are one, it becomes the width or the height of the
    /// window, and if not, the field is marked.
    pub fn type_key(&mut self, key: char, code: KeyCode, settings: &mut Settings)
        ensures
            final(self).focused_field == old(self).focused_field,
            final(self).original_settings == old(self).original_settings,
            final(self).message_box == old(self).message_box,
            ({
                let first = old(self).focused_field == 0;
                let field = if first {
                    old(self).width_field
                } else {
                    old(self).height_field
                };
                let after = if first {
                    final(self).width_field
                } else {
                    final(self).height_field
                };
                let other_same = if first {
                    final(self).height_field == old(self).height_field
                } else {
                    final(self).width_field == old(self).width_field
                };
                &&& other_same
                &&& match spec_typed(field.value@, key, code) {
                    None => after == field && *final(settings) == *old(settings),
                    Some(typed) => {
                        let number = typed.len() > 0 && all_digits(typed) && value_of(typed) <= i32::MAX;
                        &&& after.value@ == typed
                        &&& after.invalid == !number
                        &&& !number ==> *final(settings) == *old(settings)
                        &&& number && first ==> final(settings).display.resolution.width == value_of(typed)
                            && final(settings).display.resolution.height == old(settings).display.resolution.height
                        &&& number && !first ==> final(settings).display.resolution.height == value_of(typed)
                            && final(settings).display.resolution.width == old(settings).display.resolution.width
                    },
                }
            }),
    {
        let first = self.focused_field == 0;
        let mut value = if first {
            to_chars_of(&self.width_field.value)
        } else {
            to_chars_of(&self.height_field.value)
        };
        let updated = if '0' <= key && key <= '9' && value.len() < FIELD_LENGTH {
            value.push(key);
            true
        } else if code == KeyCode::Backspace {
            value.pop();
            true
        } else {
            false
        };
        if updated {
            let parsed = parse_number(&value);
            match parsed {
                Some(number) => {
                    if first {
                        settings.display.resolution.width = number;
                    } else {
                        settings.display.resolution.height = number;
                    }
                },
                None => {},
            }
            if first {
                self.width_field.value = value;
                self.width_field.invalid = parsed.is_none();
            } else {
                self.height_field.value = value;
                self.height_field.invalid = parsed.is_none();
            }
        }
    }

    /// Shows the input to the dialog. Escape ends it and brings the
    /// settings back; Enter ends it, unless a field holds no number; any
    /// other key goes to the field in focus; a click on a row of the
    /// dialog puts a field in focus or turns a switch.
    pub fn update(&mut self, input: &Input, settings: &mut Settings, screen: Size) -> (outcome: SettingsDialogOutcome)
        ensures
            input.release_key_event.raw.code == KeyCode::Escape ==> {
                &&& outcome == SettingsDialogOutcome::Discard
                &&& final(self).original_settings.is_none()
                &&& *final(settings) == (match old(self).original_settings {
                    Some(original) => original,
                    None => *old(settings),
                })
            },
            input.release_key_event.raw.code == KeyCode::Enter ==> {
                &&& *final(settings) == *old(settings)
                &&& outcome == (if old(self).width_field.invalid || old(self).height_field.invalid {
                    SettingsDialogOutcome::ShowInvalid
                } else {
                    SettingsDialogOutcome::Save
                })
                &&& final(self).message_box == (old(self).message_box || outcome
                    == SettingsDialogOutcome::ShowInvalid)
            },
            input.release_key_event.raw.code != KeyCode::Escape && input.release_key_event.raw.code
                != KeyCode::Enter ==> outcome == SettingsDialogOutcome::Stay,
    {
        let code = input.release_key_event.raw.code;
        if code == KeyCode::Escape {
            match self.original_settings.take() {
                Some(original) => {
                    settings.restore_from(original);
                },
                None => {},
            }
            return SettingsDialogOutcome::Discard;
        } else if code == KeyCode::Enter {
            if self.width_field.invalid || self.height_field.invalid {
                self.message_box = true;
                return SettingsDialogOutcome::ShowInvalid;
            }
            return SettingsDialogOutcome::Save;
        } else {
            self.type_key(input.release_key_event.raw.printable, code, settings);
        }
        let position = Self::dialog_position(screen);
        let mouse_event = input.mouse_event;
        if mouse_event.clicked && (Rectangle { position, size: Size { width: WIDTH, height: HEIGHT } }).contains_position(
            mouse_event.character_position,
        ) {
            let row = mouse_event.character_position.y as i64 - position.y as i64;
            let action = row_action(row);
            match action {
                RowAction::FocusWidth => {
                    self.focused_field = 0;
                },
                RowAction::FocusHeight => {
                    self.focused_field = 1;
                },
                _ => {
                    switch(settings, action);
                },
            }
        }
        SettingsDialogOutcome::Stay
    }
}

/// The same characters once more.
fn to_chars_of(chars: &Vec<char>) -> (r: Vec<char>)
    ensures
        r@ == chars@,
{
    let mut r: Vec<char> = Vec::new();
    let mut i: usize = 0;
    while i < chars.len()
        invariant
            i <= chars.len(),
            r@ == chars@.subrange(0, i as int),
        decreases chars.len() - i,
    {
        r.push(chars[i]);
        assert(chars@.subrange(0, i + 1) =~= chars@.subrange(0, i as int).push(chars@[i as int]));
        i += 1;
    }
    assert(chars@.subrange(0, chars@.len() as int) =~= chars@);
    r
}

} // verus!
