use vstd::prelude::*;
use crate::data::base::{Position, Rectangle, Size};
use crate::data::settings::{KeyBindings, Settings, KEY_COUNT};
use crate::game::{Input, KeyCode};
use crate::ui::dialog::middle;

verus! {

/// The least width of the dialog.
pub const MIN_WIDTH: usize = 40;

/// The row of the dialog in which the first key stands.
pub const FIRST_ROW: i32 = 3;

/// One key in the dialog: the command, its key, and whether another
/// command has the same key.
pub struct KeyMapField {
    pub label: &'static str,
    pub value: char,
    pub display_value: Option<String>,
    pub conflict: bool,
}

/// How the key `value` is shown: a space by its name, every other key
/// between brackets.
pub open spec fn shown_key(value: char) -> Seq<char> {
    if value == ' ' {
        "[SPC]"@
    } else {
        seq!['[', ' ', value, ' ', ']']
    }
}

impl KeyMapField {
    pub fn new(label: &'static str, value: char) -> (r: Self)
        ensures
            r.label == label,
            r.value == value,
            r.display_value.is_none(),
            !r.conflict,
    {
        Self { label, value, display_value: None, conflict: false }
    }

    /// Whether what is kept to show the key, if anything, shows the key.
    pub open spec fn wf(&self) -> bool {
        self.display_value.is_some() ==> self.display_value.unwrap()@ == shown_key(self.value)
    }

    /// How the key is shown. The text is made once and kept.
    pub fn display_value(&mut self) -> (r: String)
        requires
            old(self).wf(),
        ensures
            r@ == shown_key(old(self).value),
            final(self).wf(),
            final(self).display_value.is_some(),
            final(self).label == old(self).label,
            final(self).value == old(self).value,
            final(self).conflict == old(self).conflict,
    {
        match &self.display_value {
            Some(text) => text.clone(),
            None => {
                let text = if self.value == ' ' {
                    "[SPC]".to_owned()
                } else {
                    let mut text = String::new();
                    text.push('[');
                    text.push(' ');
                    text.push(self.value);
                    text.push(' ');
                    text.push(']');
                    assert(text@ =~= seq!['[', ' ', self.value, ' ', ']']);
                    text
                };
                self.display_value = Some(text.clone());
                text
            },
        }
    }

    /// Gives the command another key.
    pub fn update_value(&mut self, value: char)
        ensures
            final(self).value == value,
            final(self).display_value.is_none(),
            final(self).label == old(self).label,
            final(self).conflict == old(self).conflict,
            final(self).wf(),
    {
        self.value = value;
        self.display_value = None;
    }
}

/// Whether the entry at `i` of `values` stands in it before, too.
pub open spec fn seen_before<T>(values: Seq<T>, i: int) -> bool {
    exists|j: int| 0 <= j < i && values[j] == values[i]
}

/// The entries of `values` that stand in it before, too, out of the
/// first `count` entries, in order.
pub open spec fn repeats<T>(values: Seq<T>, count: int) -> Seq<T>
    decreases count,
{
    if count <= 0 {
        Seq::<T>::empty()
    } else if seen_before(values, count - 1) {
        repeats(values, count - 1).push(values[count - 1])
    } else {
        repeats(values, count - 1)
    }
}

/// Every entry of `values` that stood in it before, in order. An entry
/// that stands in it three times is given twice.
pub fn get_non_unique_elements(values: &Vec<char>) -> (r: Vec<char>)
    ensures
        r@ == repeats(values@, values@.len() as int),
{
    let mut r: Vec<char> = Vec::new();
    let mut i: usize = 0;
    while i < values.len()
        invariant
            i <= values.len(),
            r@ == repeats(values@, i as int),
        decreases values.len() - i,
    {
        let mut j: usize = 0;
        let mut seen = false;
        while j < i
            invariant
                j <= i < values.len(),
                seen == (exists|k: int| 0 <= k < j && values@[k] == values@[i as int]),
            decreases i - j,
        {
            if values[j] == values[i] {
                seen = true;
            }
            j += 1;
        }
        if seen {
            r.push(values[i]);
        }
        i += 1;
    }
    r
}

/// What the player has done with the dialog.
#[derive(Copy, Clone, Debug, PartialEq, Eq, Structural)]
pub enum KeysDialogOutcome {
    /// The dialog stays.
    Stay,
    /// The dialog goes and the settings are as they were before it came.
    Discard,
    /// The dialog goes and the settings are to be saved.
    Save,
    /// The player is to be told that two commands share a key.
    ShowConflicts,
}

/// The dialog in which the player gives the commands their keys.
pub struct KeysDialog {
    pub fields: Vec<KeyMapField>,
    pub focused_field: usize,
    pub original_settings: Option<Settings>,
    pub position: Position,
    pub size: Size,
    pub message_box: bool,
}

impl KeysDialog {
    /// A dialog that has not come up yet.
    pub fn new() -> (r: Self)
        ensures
            r.fields@.len() == 0,
            r.focused_field == 0,
            r.original_settings.is_none(),
            r.position == (Position { x: 0, y: 0 }),
            r.size == (Size { width: 0, height: 0 }),
            !r.message_box,
    {
        Self {
            fields: Vec::new(),
            focused_field: 0,
            original_settings: None,
            position: Position { x: 0, y: 0 },
            size: Size { width: 0, height: 0 },
            message_box: false,
        }
    }

    /// Whether the dialog has come up: it has a field for every command,
    /// one of them is in focus, and it knows the settings as they were.
    pub open spec fn is_up(&self) -> bool {
        &&& self.fields@.len() == KEY_COUNT
        &&& self.focused_field < KEY_COUNT
        &&& forall|i: int| 0 <= i < self.fields@.len() ==> (#[trigger] self.fields@[i]).wf()
    }

    /// The keys in the fields.
    pub open spec fn values(&self) -> Seq<char> {
        Seq::new(self.fields@.len(), |i: int| self.fields@[i].value)
    }

    /// Whether the fields show the keys of `keys` and mark those that two
    /// commands share.
    pub open spec fn shows(&self, keys: KeyBindings) -> bool {
        &&& self.fields@.len() == KEY_COUNT
        &&& forall|i: int| 0 <= i < KEY_COUNT ==> (#[trigger] self.fields@[i]).value == keys.key_at(i)
    }

    /// Brings the dialog up on a screen of the size `screen`. Coming back
    /// from the message about shared keys, the dialog is as it was.
    pub fn activate(&mut self, settings: &Settings, screen: Size)
        requires
            old(self).message_box ==> old(self).is_up(),
        ensures
            final(self).is_up(),
            !final(self).message_box,
            old(self).message_box ==> {
                &&& final(self).fields == old(self).fields
                &&& final(self).focused_field == old(self).focused_field
                &&& final(self).original_settings == old(self).original_settings
                &&& final(self).position == old(self).position
                &&& final(self).size == old(self).size
            },
            !old(self).message_box ==> {
                &&& final(self).original_settings == Some(*settings)
                &&& final(self).shows(settings.key_bindings)
                &&& final(self).size.height == KEY_COUNT + 4
                &&& final(self).size.width >= MIN_WIDTH
                &&& forall|i: int| 0 <= i < KEY_COUNT ==> !(#[trigger] final(self).fields@[i]).conflict
            },
    {
        if !self.message_box {
            self.original_settings = Some(settings.duplicate());
            let key_map = settings.key_bindings.key_map();
            let mut fields: Vec<KeyMapField> = Vec::new();
            let mut width: usize = MIN_WIDTH;
            let mut i: usize = 0;
            while i < key_map.len()
                invariant
                    i <= key_map.len(),
                    key_map.len() == KEY_COUNT,
                    fields@.len() == i,
                    MIN_WIDTH <= width,
                    forall|j: int| 0 <= j < KEY_COUNT ==> (#[trigger] key_map[j]).1 == settings.key_bindings.key_at(j),
                    forall|j: int|
                        0 <= j < i ==> (#[trigger] fields@[j]).value == settings.key_bindings.key_at(j)
                            && fields@[j].wf() && !fields@[j].conflict,
                decreases key_map.len() - i,
            {
                let label: &'static str = key_map[i].0;
                if label.len() > width {
                    width = label.len();
                }
                let ghost before = fields@;
                fields.push(KeyMapField::new(label, key_map[i].1));
                assert(forall|j: int| 0 <= j < i ==> fields@[j] == before[j]);
                i += 1;
            }
            self.fields = fields;
            let w: i32 = if width > 10000 {
                10000
            } else {
                width as i32
            };
            let h: i32 = KEY_COUNT as i32 + 4;
            self.size = Size { width: w, height: h };
            self.position = Position { x: middle(screen.width, w), y: middle(screen.height, h) };
            if self.focused_field >= KEY_COUNT {
                self.focused_field = 0;
            }
        } else {
            self.message_box = false;
        }
    }

    /// Marks the fields whose key another field has, too.
    pub fn mark_conflicts(&mut self)
        requires
            old(self).is_up(),
        ensures
            final(self).is_up(),
            final(self).focused_field == old(self).focused_field,
            final(self).original_settings == old(self).original_settings,
            final(self).position == old(self).position,
            final(self).size == old(self).size,
            final(self).message_box == old(self).message_box,
            forall|i: int|
                0 <= i < KEY_COUNT ==> (#[trigger] final(self).fields@[i]).value == old(self).fields@[i].value
                    && final(self).fields@[i].label == old(self).fields@[i].label,
            forall|i: int|
                0 <= i < KEY_COUNT ==> (#[trigger] final(self).fields@[i]).conflict == (exists|j: int|
                    0 <= j < KEY_COUNT && j != i && old(self).fields@[j].value == old(self).fields@[i].value),
    {
        let mut i: usize = 0;
        while i < KEY_COUNT
            invariant
                i <= KEY_COUNT,
                self.is_up(),
                self.focused_field == old(self).focused_field,
                self.original_settings == old(self).original_settings,
                self.position == old(self).position,
                self.size == old(self).size,
                self.message_box == old(self).message_box,
                forall|k: int|
                    0 <= k < KEY_COUNT ==> (#[trigger] self.fields@[k]).value == old(self).fields@[k].value
                        && self.fields@[k].label == old(self).fields@[k].label,
                forall|k: int|
                    0 <= k < i ==> (#[trigger] self.fields@[k]).conflict == (exists|j: int|
                        0 <= j < KEY_COUNT && j != k && old(self).fields@[j].value == old(self).fields@[k].value),
            decreases KEY_COUNT - i,
        {
            let value = self.fields[i].value;
            let mut found = false;
            let mut j: usize = 0;
            while j < KEY_COUNT
                invariant
                    j <= KEY_COUNT,
                    i < KEY_COUNT,
                    self.fields@.len() == KEY_COUNT,
                    value == old(self).fields@[i as int].value,
                    forall|k: int| 0 <= k < KEY_COUNT ==> (#[trigger] self.fields@[k]).value == old(self).fields@[k].value,
                    found == (exists|k: int| 0 <= k < j && k != i && old(self).fields@[k].value == value),
                decreases KEY_COUNT - j,
            {
                if j != i && self.fields[j].value == value {
                    found = true;
                    assert(old(self).fields@[j as int].value == value);
                }
                j += 1;
            }
            let ghost before = self.fields@;
            self.fields[i].conflict = found;
            assert(forall|k: int| 0 <= k < KEY_COUNT && k != i ==> self.fields@[k] == before[k]);
            i += 1;
        }
    }

    /// Whether one of the fields shares its key.
    pub fn has_conflicts(&self) -> (r: bool)
        ensures
            r == (exists|i: int| 0 <= i < self.fields@.len() && (#[trigger] self.fields@[i]).conflict),
    {
        let mut i: usize = 0;
        while i < self.fields.len()
            invariant
                i <= self.fields.len(),
                forall|j: int| 0 <= j < i ==> !(#[trigger] self.fields@[j]).conflict,
            decreases self.fields.len() - i,
        {
            if self.fields[i].conflict {
                return true;
            }
            i += 1;
        }
        false
    }

    /// Whether `key` can be the key of a command: a character that
    /// prints, from the space to the tilde.
    pub open spec fn is_bindable(key: char) -> bool {
        ' ' <= key <= '~'
    }

    /// The field that a click at `cell` puts in focus, if it puts one in
    /// focus: the one in whose row, inside the dialog, the click lies.
    pub open spec fn clicked_field(&self, cell: Position) -> Option<usize> {
        if (Rectangle { position: self.position, size: self.size }).spec_contains(cell) && FIRST_ROW <= cell.y
            - self.position.y < FIRST_ROW + KEY_COUNT {
            Some((cell.y - self.position.y - FIRST_ROW) as usize)
        } else {
            None
        }
    }

    /// Shows the input to the dialog. Escape ends it and brings the
    /// settings back; Enter ends it, unless two commands share a key; a
    /// key that prints becomes the key of the command in focus; a click
    /// on a command puts it in focus.
    pub fn update(&mut self, input: &Input, settings: &mut Settings) -> (outcome: KeysDialogOutcome)
        requires
            old(self).is_up(),
        ensures
            final(self).is_up(),
            final(self).position == old(self).position,
            final(self).size == old(self).size,
            input.release_key_event.raw.code == KeyCode::Escape ==> {
                &&& outcome == KeysDialogOutcome::Discard
                &&& final(self).original_settings.is_none()
                &&& *final(settings) == (match old(self).original_settings {
                    Some(original) => original,
                    None => *old(settings),
                })
            },
            input.release_key_event.raw.code == KeyCode::Enter ==> {
                &&& *final(settings) == *old(settings)
                &&& outcome == (if exists|i: int|
                    0 <= i < old(self).fields@.len() && (#[trigger] old(self).fields@[i]).conflict {
                    KeysDialogOutcome::ShowConflicts
                } else {
                    KeysDialogOutcome::Save
                })
                &&& final(self).message_box == (old(self).message_box || outcome == KeysDialogOutcome::ShowConflicts)
            },
            input.release_key_event.raw.code != KeyCode::Escape && input.release_key_event.raw.code
                != KeyCode::Enter ==> {
                &&& outcome == KeysDialogOutcome::Stay
                &&& final(self).focused_field == (if input.mouse_event.clicked && old(self).clicked_field(
                    input.mouse_event.character_position,
                ).is_some() {
                    old(self).clicked_field(input.mouse_event.character_position).unwrap()
                } else {
                    old(self).focused_field
                })
                &&& Self::is_bindable(input.release_key_event.raw.printable) ==> {
                    &&& final(settings).key_bindings.key_at(old(self).focused_field as int)
                        == input.release_key_event.raw.printable
                    &&& final(self).fields@[old(self).focused_field as int].value
                        == input.release_key_event.raw.printable
                }
                &&& !Self::is_bindable(input.release_key_event.raw.printable) ==> *final(settings) == *old(settings)
            },
    {
        let code = input.release_key_event.raw.code;
        if code == KeyCode::Escape {
            match self.original_settings.take() {
                Some(original) => {
                    settings.restore_from(original);
                },
                None => {},
            }
            return KeysDialogOutcome::Discard;
        } else if code == KeyCode::Enter {
            if self.has_conflicts() {
                self.message_box = true;
                return KeysDialogOutcome::ShowConflicts;
            }
            return KeysDialogOutcome::Save;
        } else {
            let key = input.release_key_event.raw.printable;
            if ' ' <= key && key <= '~' {
                let focused = self.focused_field;
                let ghost before = self.fields@;
                self.fields[focused].update_value(key);
                assert(forall|k: int| 0 <= k < KEY_COUNT && k != focused ==> self.fields@[k] == before[k]);
                settings.key_bindings.update_key_map(focused, key);
                self.mark_conflicts();
            }
        }
        let mouse_event = input.mouse_event;
        if mouse_event.clicked && (Rectangle { position: self.position, size: self.size }).contains_position(
            mouse_event.character_position,
        ) {
            let row = mouse_event.character_position.y as i64 - self.position.y as i64;
            if FIRST_ROW as i64 <= row && row < FIRST_ROW as i64 + KEY_COUNT as i64 {
                self.focused_field = (row - FIRST_ROW as i64) as usize;
            }
        }
        KeysDialogOutcome::Stay
    }
}

} // verus!
