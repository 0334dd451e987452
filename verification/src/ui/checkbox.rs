use vstd::prelude::*;
use crate::data::base::{Position, Size};
use crate::game::Input;
use crate::ui::drawable::{shown, spec_covers, update_by_hit, Drawable, Positioned, Sized, VisibilityFn};
use crate::ui::update_result::{Answer, UpdateResult};
use crate::util::tcod::{Chars, Color};

verus! {

/// A box that is checked or not, with a text beside it.
pub struct CheckBox {
    pub position: Position,
    pub size: Size,
    pub visibility: Option<bool>,
    pub checked: bool,
    pub text: String,
    pub color: Color,
    pub checked_color: Color,
}

impl CheckBox {
    pub fn new(text: &str, position: Position, checked: bool, color: Color, checked_color: Color) -> (r: Self)
        ensures
            r.text@ == text@,
            r.position == position,
            r.size == (Size { width: 0, height: 1 }),
            r.visibility.is_none(),
            r.checked == checked,
            r.color == color,
            r.checked_color == checked_color,
    {
        Self {
            position,
            size: Size { width: 0, height: 1 },
            visibility: None,
            checked,
            text: text.to_owned(),
            color,
            checked_color,
        }
    }

    /// The glyph of the box: checked or empty.
    pub fn glyph(&self) -> (r: Chars)
        ensures
            r == (if self.checked {
                Chars::CheckboxSet
            } else {
                Chars::CheckboxUnset
            }),
    {
        if self.checked {
            Chars::CheckboxSet
        } else {
            Chars::CheckboxUnset
        }
    }

    /// The colour the box is drawn in: its own for a checked one.
    pub fn shown_color(&self) -> (r: Color)
        ensures
            r == (if self.checked {
                self.checked_color
            } else {
                self.color
            }),
    {
        if self.checked {
            self.checked_color
        } else {
            self.color
        }
    }
}

impl Positioned for CheckBox {
    open spec fn spec_position(&self) -> Position {
        self.position
    }

    fn position(&self) -> (r: Position) {
        self.position
    }
}

impl Sized for CheckBox {
    open spec fn spec_size(&self) -> Size {
        self.size
    }

    fn size(&self) -> (r: Size) {
        self.size
    }
}

impl VisibilityFn for CheckBox {
    open spec fn spec_visibility(&self) -> Option<bool> {
        self.visibility
    }

    fn visibility_fn(&self) -> (r: Option<bool>) {
        self.visibility
    }
}

impl Drawable for CheckBox {
    open spec fn spec_answer(&self, origin: Position, input: &Input) -> Answer {
        Answer::plain(spec_covers(origin, self.position, self.size, input.mouse_event.character_position))
    }

    fn update(&mut self, relative_position: Position, input: &Input) -> (r: UpdateResult)
        ensures
            *final(self) == *old(self),
    {
        update_by_hit(relative_position, self.position, self.size, input)
    }

    fn visible(&self) -> (r: bool) {
        shown(self.visibility)
    }
}

} // verus!
