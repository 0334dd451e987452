use vstd::prelude::*;
use crate::data::base::{Position, Size};
use crate::game::Input;
use crate::ui::drawable::{shown, spec_covers, update_by_hit, Drawable, Positioned, Sized, VisibilityFn};
use crate::ui::update_result::{Answer, UpdateResult};
use crate::util::tcod::{Color, TextAlignment};

verus! {

/// A line of text.
pub struct Label {
    pub position: Position,
    pub size: Size,
    pub visibility: Option<bool>,
    pub text: String,
    pub alignment: TextAlignment,
    pub color: Color,
}

impl Label {
    /// A white label that starts at `position`.
    pub fn new(text: &str, position: Position) -> (r: Self)
        ensures
            r.text@ == text@,
            r.position == position,
            r.size == (Size { width: 0, height: 1 }),
            r.visibility.is_none(),
            r.alignment == TextAlignment::Left,
            r.color == (Color { r: 255, g: 255, b: 255 }),
    {
        Self::new_with_alignment(text, position, TextAlignment::Left)
    }

    /// A white label at `position`.
    pub fn new_with_alignment(text: &str, position: Position, alignment: TextAlignment) -> (r: Self)
        ensures
            r.text@ == text@,
            r.position == position,
            r.size == (Size { width: 0, height: 1 }),
            r.visibility.is_none(),
            r.alignment == alignment,
            r.color == (Color { r: 255, g: 255, b: 255 }),
    {
        Self {
            position,
            size: Size { width: 0, height: 1 },
            visibility: None,
            text: text.to_owned(),
            alignment,
            color: Color { r: 255, g: 255, b: 255 },
        }
    }

    pub fn set_color(&mut self, color: Color)
        ensures
            *final(self) == (Label { color, ..*old(self) }),
    {
        self.color = color;
    }
}

impl Positioned for Label {
    open spec fn spec_position(&self) -> Position {
        self.position
    }

    fn position(&self) -> (r: Position) {
        self.position
    }
}

impl Sized for Label {
    open spec fn spec_size(&self) -> Size {
        self.size
    }

    fn size(&self) -> (r: Size) {
        self.size
    }
}

impl VisibilityFn for Label {
    open spec fn spec_visibility(&self) -> Option<bool> {
        self.visibility
    }

    fn visibility_fn(&self) -> (r: Option<bool>) {
        self.visibility
    }
}

impl Drawable for Label {
    open spec fn spec_answer(&self, origin: Position, input: &Input) -> Answer {
        Answer::plain(spec_covers(origin, self.position, self.size, input.mouse_event.character_position))
    }

    fn update(&mut self, relative_position: Position, input: &Input) -> (r: UpdateResult)
        ensures
            *final(self) == *old(self),
    {
        update_by_hit(relative_position, self.position, self.size, input)
    }

    fn visible(&self) -> (r: bool) {
        shown(self.visibility)
    }
}

} // verus!
