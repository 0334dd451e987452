use vstd::prelude::*;
use crate::data::base::{Position, Size};
use crate::game::Input;
use crate::ui::drawable::{covers, shown, spec_covers, Drawable, Positioned, Sized, VisibilityFn};
use crate::ui::update_result::{Answer, HitResult, RespondKind, UpdateResult};

verus! {

/// The height of a button with its frame.
pub const BUTTON_HEIGHT: i32 = 3;

/// A button with a text on it.
pub struct Button {
    pub position: Position,
    pub size: Size,
    pub visibility: Option<bool>,
    pub text: String,
    /// Whether the mouse is over the button.
    pub selected: bool,
    /// The key that presses the button.
    pub shortcut: Option<char>,
    /// Whether pressing the button ends the dialog it stands in.
    pub dismiss: bool,
}

impl Button {
    /// A button without a key that ends no dialog.
    pub fn new_with_defaults(text: &str, position: Position, width: i32) -> (r: Self)
        ensures
            r.text@ == text@,
            r.position == position,
            r.size == (Size { width, height: 0 }),
            r.visibility.is_none(),
            !r.selected,
            r.shortcut.is_none(),
            !r.dismiss,
    {
        Self::new(text, position, width, None, false)
    }

    pub fn new(text: &str, position: Position, width: i32, shortcut: Option<char>, dismiss: bool) -> (r: Self)
        ensures
            r.text@ == text@,
            r.position == position,
            r.size == (Size { width, height: 0 }),
            r.visibility.is_none(),
            !r.selected,
            r.shortcut == shortcut,
            r.dismiss == dismiss,
    {
        Self {
            position,
            size: Size { width, height: 0 },
            visibility: None,
            text: text.to_owned(),
            selected: false,
            shortcut,
            dismiss,
        }
    }

    /// Whether the key that was pressed is the key of the button.
    pub open spec fn key_matches(&self, input: &Input) -> bool {
        self.shortcut.is_some() && input.press_key_event.raw.printable == self.shortcut.unwrap()
    }

    /// Whether the mouse is over the button, frame included.
    pub open spec fn mouse_over(&self, origin: Position, input: &Input) -> bool {
        spec_covers(
            origin,
            self.position,
            Size { width: self.size.width, height: BUTTON_HEIGHT },
            input.mouse_event.character_position,
        )
    }
}

impl Positioned for Button {
    open spec fn spec_position(&self) -> Position {
        self.position
    }

    fn position(&self) -> (r: Position) {
        self.position
    }
}

impl Sized for Button {
    open spec fn spec_size(&self) -> Size {
        self.size
    }

    fn size(&self) -> (r: Size) {
        self.size
    }
}

impl VisibilityFn for Button {
    open spec fn spec_visibility(&self) -> Option<bool> {
        self.visibility
    }

    fn visibility_fn(&self) -> (r: Option<bool>) {
        self.visibility
    }
}

impl Drawable for Button {
    open spec fn spec_answer(&self, origin: Position, input: &Input) -> Answer {
        if self.key_matches(input) {
            Answer {
                hit: HitResult::Hit,
                kind: Some(RespondKind::Key(self.shortcut.unwrap())),
                dismiss: self.dismiss,
                data: Some(self.text@),
            }
        } else if self.mouse_over(origin, input) {
            if input.mouse_event.clicked {
                Answer {
                    hit: HitResult::Hit,
                    kind: Some(RespondKind::Mouse(input.mouse_event.character_position)),
                    dismiss: self.dismiss,
                    data: Some(self.text@),
                }
            } else {
                Answer { hit: HitResult::Hit, kind: None, dismiss: self.dismiss, data: None }
            }
        } else {
            Answer::plain(false)
        }
    }

    /// The key of the button presses it, wherever the mouse is. Else the
    /// button is selected while the mouse is over it, and pressed by a
    /// click.
    fn update(&mut self, relative_position: Position, input: &Input) -> (r: UpdateResult)
        ensures
            final(self).position == old(self).position,
            final(self).size == old(self).size,
            final(self).visibility == old(self).visibility,
            final(self).text == old(self).text,
            final(self).shortcut == old(self).shortcut,
            final(self).dismiss == old(self).dismiss,
            final(self).selected == (if old(self).key_matches(input) {
                old(self).selected
            } else {
                old(self).mouse_over(relative_position, input)
            }),
    {
        match self.shortcut {
            Some(shortcut) => {
                if input.press_key_event.raw.printable == shortcut {
                    return UpdateResult::new(
                        HitResult::Hit,
                        Some(RespondKind::Key(shortcut)),
                        self.dismiss,
                        Some(self.text.clone()),
                    );
                }
            },
            None => {},
        }
        let size = Size { width: self.size.width, height: BUTTON_HEIGHT };
        if covers(relative_position, self.position, size, input.mouse_event.character_position) {
            self.selected = true;
            if input.mouse_event.clicked {
                UpdateResult::new(
                    HitResult::Hit,
                    Some(RespondKind::Mouse(input.mouse_event.character_position)),
                    self.dismiss,
                    Some(self.text.clone()),
                )
            } else {
                UpdateResult::new(HitResult::Hit, None, self.dismiss, None)
            }
        } else {
            self.selected = false;
            UpdateResult::hit(HitResult::NoHit)
        }
    }

    fn visible(&self) -> (r: bool) {
        shown(self.visibility)
    }
}

} // verus!
