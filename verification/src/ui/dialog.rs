use vstd::prelude::*;
use crate::data::base::{quotient_towards_zero, Position, Size};
use crate::game::Input;
use crate::ui::drawable::{shown, Drawable, Positioned, Sized, VisibilityFn};
use crate::ui::update_result::{Answer, UpdateResult};

verus! {

/// A framed window in the middle of the screen, with a part in it.
pub struct Dialog<D: Drawable> {
    pub position: Position,
    pub size: Size,
    pub visibility: Option<bool>,
    pub title: Option<String>,
    pub contents: D,
}

/// Where something of the length `inner` starts that stands in the middle
/// of something of the length `outer`: at half the difference, rounded
/// towards zero.
pub open spec fn spec_centered(outer: i32, inner: i32) -> int {
    quotient_towards_zero(outer - inner, 2)
}

pub fn centered(outer: i32, inner: i32) -> (r: i32)
    ensures
        r == spec_centered(outer, inner),
{
    let difference = outer as i64 - inner as i64;
    let half = difference / 2;
    half as i32
}

/// Where something of the length `inner` starts whose middle stands at
/// the middle of something of the length `outer`, each half rounded
/// towards zero.
pub open spec fn spec_middle(outer: i32, inner: i32) -> int {
    quotient_towards_zero(outer as int, 2) - quotient_towards_zero(inner as int, 2)
}

pub fn middle(outer: i32, inner: i32) -> (r: i32)
    ensures
        r == spec_middle(outer, inner),
{
    let difference = (outer / 2) as i64 - (inner / 2) as i64;
    difference as i32
}

impl<D: Drawable> Dialog<D> {
    /// A dialog of the given size in the middle of a screen of the size
    /// `screen`.
    pub fn new(screen: Size, contents: D, title: Option<String>, size: Size) -> (r: Self)
        ensures
            r.position.x == spec_centered(screen.width, size.width),
            r.position.y == spec_centered(screen.height, size.height),
            r.size == size,
            r.visibility.is_none(),
            r.title == title,
            r.contents == contents,
    {
        Self {
            position: Position { x: centered(screen.width, size.width), y: centered(screen.height, size.height) },
            size,
            visibility: None,
            title,
            contents,
        }
    }

    /// The part in the dialog.
    pub fn get_contents(&mut self) -> (r: &mut D)
        ensures
            *r == old(self).contents,
            final(self).contents == *final(r),
            final(self).position == old(self).position,
            final(self).size == old(self).size,
            final(self).visibility == old(self).visibility,
            final(self).title == old(self).title,
    {
        &mut self.contents
    }
}

impl<D: Drawable> Positioned for Dialog<D> {
    open spec fn spec_position(&self) -> Position {
        self.position
    }

    fn position(&self) -> (r: Position) {
        self.position
    }
}

impl<D: Drawable> Sized for Dialog<D> {
    open spec fn spec_size(&self) -> Size {
        self.size
    }

    fn size(&self) -> (r: Size) {
        self.size
    }
}

impl<D: Drawable> VisibilityFn for Dialog<D> {
    open spec fn spec_visibility(&self) -> Option<bool> {
        self.visibility
    }

    fn visibility_fn(&self) -> (r: Option<bool>) {
        self.visibility
    }
}

impl<D: Drawable> Drawable for Dialog<D> {
    /// The dialog answers what the part in it answers, which stands at
    /// its position counted from the corner of the dialog.
    open spec fn spec_answer(&self, origin: Position, input: &Input) -> Answer {
        self.contents.spec_answer(self.position, input)
    }

    fn update(&mut self, relative_position: Position, input: &Input) -> (r: UpdateResult)
        ensures
            final(self).title == old(self).title,
    {
        self.contents.update(self.position, input)
    }

    fn visible(&self) -> (r: bool) {
        shown(self.visibility)
    }
}

} // verus!
