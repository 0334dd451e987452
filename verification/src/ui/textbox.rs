use vstd::prelude::*;
use crate::data::base::{Position, Size};
use crate::game::Input;
use crate::ui::drawable::{shown, spec_covers, update_by_hit, Drawable, Positioned, Sized, VisibilityFn};
use crate::ui::update_result::{Answer, UpdateResult};
use crate::util::tcod::Color;

verus! {

/// A field with a text in it.
pub struct TextBox {
    pub position: Position,
    pub size: Size,
    pub visibility: Option<bool>,
    pub text: String,
    pub color: Color,
    pub background_color: Color,
}

impl TextBox {
    /// A field of the given width, white on dark grey.
    pub fn new(text: &str, position: Position, width: i32) -> (r: Self)
        ensures
            r.text@ == text@,
            r.position == position,
            r.size == (Size { width, height: 1 }),
            r.visibility.is_none(),
            r.color == (Color { r: 255, g: 255, b: 255 }),
            r.background_color == (Color { r: 95, g: 95, b: 95 }),
    {
        Self::new_with_alignment(text, position, width)
    }

    /// A field of the given width, white on dark grey.
    pub fn new_with_alignment(text: &str, position: Position, width: i32) -> (r: Self)
        ensures
            r.text@ == text@,
            r.position == position,
            r.size == (Size { width, height: 1 }),
            r.visibility.is_none(),
            r.color == (Color { r: 255, g: 255, b: 255 }),
            r.background_color == (Color { r: 95, g: 95, b: 95 }),
    {
        Self {
            position,
            size: Size { width, height: 1 },
            visibility: None,
            text: text.to_owned(),
            color: Color { r: 255, g: 255, b: 255 },
            background_color: Color { r: 95, g: 95, b: 95 },
        }
    }

    pub fn set_color(&mut self, color: Color)
        ensures
            *final(self) == (TextBox { color, ..*old(self) }),
    {
        self.color = color;
    }

    pub fn set_background_color(&mut self, color: Color)
        ensures
            *final(self) == (TextBox { background_color: color, ..*old(self) }),
    {
        self.background_color = color;
    }

    pub fn set_text(&mut self, text: &str)
        ensures
            final(self).text@ == text@,
            final(self).position == old(self).position,
            final(self).size == old(self).size,
            final(self).visibility == old(self).visibility,
            final(self).color == old(self).color,
            final(self).background_color == old(self).background_color,
    {
        self.text = text.to_owned();
    }
}

impl Positioned for TextBox {
    open spec fn spec_position(&self) -> Position {
        self.position
    }

    fn position(&self) -> (r: Position) {
        self.position
    }
}

impl Sized for TextBox {
    open spec fn spec_size(&self) -> Size {
        self.size
    }

    fn size(&self) -> (r: Size) {
        self.size
    }
}

impl VisibilityFn for TextBox {
    open spec fn spec_visibility(&self) -> Option<bool> {
        self.visibility
    }

    fn visibility_fn(&self) -> (r: Option<bool>) {
        self.visibility
    }
}

impl Drawable for TextBox {
    open spec fn spec_answer(&self, origin: Position, input: &Input) -> Answer {
        Answer::plain(spec_covers(origin, self.position, self.size, input.mouse_event.character_position))
    }

    fn update(&mut self, relative_position: Position, input: &Input) -> (r: UpdateResult)
        ensures
            *final(self) == *old(self),
    {
        update_by_hit(relative_position, self.position, self.size, input)
    }

    fn visible(&self) -> (r: bool) {
        shown(self.visibility)
    }
}

} // verus!
