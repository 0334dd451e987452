use vstd::prelude::*;
use crate::data::base::{Position, Size};
use crate::game::Input;
use crate::ui::update_result::{Answer, HitResult, UpdateResult};

verus! {

/// Something that stands at a position.
pub trait Positioned {
    spec fn spec_position(&self) -> Position;

    fn position(&self) -> (r: Position)
        ensures
            r == self.spec_position(),
    ;
}

/// Something that has a size.
pub trait Sized {
    spec fn spec_size(&self) -> Size;

    fn size(&self) -> (r: Size)
        ensures
            r == self.spec_size(),
    ;
}

/// Something that can be hidden.
pub trait VisibilityFn {
    spec fn spec_visibility(&self) -> Option<bool>;

    /// Whether the part is to be shown; nothing where it is always shown.
    fn visibility_fn(&self) -> (r: Option<bool>)
        ensures
            r == self.spec_visibility(),
    ;
}

/// Whether `point` lies in the rectangle of the given size that stands at
/// `position`, counted from `origin`. The left and top edges belong to
/// the rectangle, the right and bottom ones do not.
pub open spec fn spec_covers(origin: Position, position: Position, size: Size, point: Position) -> bool {
    &&& origin.x + position.x <= point.x < origin.x + position.x + size.width
    &&& origin.y + position.y <= point.y < origin.y + position.y + size.height
}

pub fn covers(origin: Position, position: Position, size: Size, point: Position) -> (r: bool)
    ensures
        r == spec_covers(origin, position, size, point),
{
    let left = origin.x as i64 + position.x as i64;
    let top = origin.y as i64 + position.y as i64;
    left <= point.x as i64 && (point.x as i64) < left + size.width as i64 && top <= point.y as i64 && (point.y as i64)
        < top + size.height as i64
}

/// Whether a part with the given visibility is shown.
pub open spec fn spec_shown(visibility: Option<bool>) -> bool {
    match visibility {
        Some(shown) => shown,
        None => true,
    }
}

/// A part of a menu or dialog.
pub trait Drawable: Positioned + Sized + VisibilityFn {
    /// What the part answers to the input; the part stands at its
    /// position counted from `origin`.
    spec fn spec_answer(&self, origin: Position, input: &Input) -> Answer;

    /// Shows the input to the part, which stands at its position counted
    /// from `relative_position`.
    fn update(&mut self, relative_position: Position, input: &Input) -> (r: UpdateResult)
        ensures
            r.answer() == old(self).spec_answer(relative_position, input),
            r.kind.is_some() ==> r.hit == HitResult::Hit,
            r.data.is_some() ==> r.kind.is_some(),
            final(self).spec_position() == old(self).spec_position(),
            final(self).spec_size() == old(self).spec_size(),
            final(self).spec_visibility() == old(self).spec_visibility(),
    ;

    /// Whether the part is shown.
    fn visible(&self) -> (r: bool)
        ensures
            r == spec_shown(self.spec_visibility()),
    ;
}

/// `a + b`, held at the ends of the range.
pub open spec fn spec_held_sum(a: i32, b: i32) -> i32 {
    if a + b > i32::MAX {
        i32::MAX
    } else if a + b < i32::MIN {
        i32::MIN
    } else {
        (a + b) as i32
    }
}

/// The position `offset` counted from `origin`; a sum beyond the range of
/// positions is held at its end.
pub open spec fn spec_offset_by(origin: Position, offset: Position) -> Position {
    Position { x: spec_held_sum(origin.x, offset.x), y: spec_held_sum(origin.y, offset.y) }
}

pub fn offset_by(origin: Position, offset: Position) -> (r: Position)
    ensures
        r == spec_offset_by(origin, offset),
{
    let x = origin.x as i64 + offset.x as i64;
    let y = origin.y as i64 + offset.y as i64;
    Position {
        x: if x > i32::MAX as i64 {
            i32::MAX
        } else if x < i32::MIN as i64 {
            i32::MIN
        } else {
            x as i32
        },
        y: if y > i32::MAX as i64 {
            i32::MAX
        } else if y < i32::MIN as i64 {
            i32::MIN
        } else {
            y as i32
        },
    }
}

/// What a part answers that does no more than notice the mouse over it.
pub fn update_by_hit(origin: Position, position: Position, size: Size, input: &Input) -> (r: UpdateResult)
    ensures
        r.answer() == Answer::plain(spec_covers(origin, position, size, input.mouse_event.character_position)),
{
    if covers(origin, position, size, input.mouse_event.character_position) {
        UpdateResult::hit(HitResult::Hit)
    } else {
        UpdateResult::hit(HitResult::NoHit)
    }
}

/// Whether a part with the given visibility is shown.
pub fn shown(visibility: Option<bool>) -> (r: bool)
    ensures
        r == spec_shown(visibility),
{
    match visibility {
        Some(shown) => shown,
        None => true,
    }
}

} // verus!
