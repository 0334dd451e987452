use vstd::prelude::*;
use vstd::std_specs::convert::FromSpecImpl;
use vstd::std_specs::ops::{AddSpecImpl, SubSpecImpl};

verus! {

/// A cell of a character console, counted from the top-left corner.
#[derive(Copy, Clone, Default, Debug, PartialEq, Eq, Structural)]
pub struct Position {
    pub x: i32,
    pub y: i32,
}

impl Position {
    /// The position as it is written: both values between brackets.
    pub fn to_text(self) -> (r: String)
        ensures
            r@ == seq!['('] + crate::util::text::spec_decimal(self.x as int) + seq![',', ' ']
                + crate::util::text::spec_decimal(self.y as int) + seq![')'],
    {
        crate::util::text::bracketed(self.x, self.y)
    }

    /// The top-left corner.
    pub fn origin() -> (r: Self)
        ensures
            r == (Position { x: 0, y: 0 }),
    {
        Self { x: 0, y: 0 }
    }

    pub fn new(x: i32, y: i32) -> (r: Self)
        ensures
            r.x == x,
            r.y == y,
    {
        Self { x, y }
    }
}

/// A width and a height, in cells.
#[derive(Copy, Clone, Default, Debug, PartialEq, Eq, Structural)]
pub struct Size {
    pub width: i32,
    pub height: i32,
}

impl Size {
    pub fn new(width: i32, height: i32) -> (r: Self)
        ensures
            r.width == width,
            r.height == height,
    {
        Self { width, height }
    }

    /// The size as it is written: the width, an x, the height.
    pub fn to_text(self) -> (r: String)
        ensures
            r@ == crate::util::text::spec_decimal(self.width as int) + seq!['x'] + crate::util::text::spec_decimal(
                self.height as int,
            ),
    {
        let mut r = crate::util::text::decimal(self.width);
        r.push('x');
        crate::util::text::append(&mut r, crate::util::text::decimal(self.height).as_str());
        r
    }

    /// The number of cells, as a mathematical integer.
    pub open spec fn spec_area(self) -> int {
        self.width * self.height
    }

    /// The number of cells. The product has to fit in an `i32`.
    pub fn area(self) -> (r: i32)
        requires
            i32::MIN <= self.spec_area() <= i32::MAX,
        ensures
            r == self.spec_area(),
    {
        self.width * self.height
    }
}

/// An axis-aligned rectangle: its top-left corner and its size.
#[derive(Copy, Clone, Debug, PartialEq, Eq, Structural)]
pub struct Rectangle {
    pub position: Position,
    pub size: Size,
}

impl Rectangle {
    /// Whether `position` lies in the rectangle: the left and top edges
    /// belong to it, the right and bottom ones do not.
    pub open spec fn spec_contains(self, position: Position) -> bool {
        &&& self.position.x <= position.x < self.position.x + self.size.width
        &&& self.position.y <= position.y < self.position.y + self.size.height
    }

    pub fn contains_position(&self, position: Position) -> (r: bool)
        ensures
            r == self.spec_contains(position),
    {
        position.x >= self.position.x
            && (position.x as i64) < self.position.x as i64 + self.size.width as i64
            && position.y >= self.position.y
            && (position.y as i64) < self.position.y as i64 + self.size.height as i64
    }
}

impl FromSpecImpl<Position> for (i32, i32) {
    open spec fn obeys_from_spec() -> bool {
        true
    }

    open spec fn from_spec(p: Position) -> Self {
        (p.x, p.y)
    }
}

impl From<Position> for (i32, i32) {
    fn from(p: Position) -> (r: Self) {
        (p.x, p.y)
    }
}

impl FromSpecImpl<Size> for (i32, i32) {
    open spec fn obeys_from_spec() -> bool {
        true
    }

    open spec fn from_spec(s: Size) -> Self {
        (s.width, s.height)
    }
}

impl From<Size> for (i32, i32) {
    fn from(s: Size) -> (r: Self) {
        (s.width, s.height)
    }
}

impl AddSpecImpl<Position> for Position {
    open spec fn obeys_add_spec() -> bool {
        true
    }

    open spec fn add_req(self, rhs: Position) -> bool {
        i32::MIN <= self.x + rhs.x <= i32::MAX && i32::MIN <= self.y + rhs.y <= i32::MAX
    }

    open spec fn add_spec(self, rhs: Position) -> Position {
        Position { x: (self.x + rhs.x) as i32, y: (self.y + rhs.y) as i32 }
    }
}

impl core::ops::Add<Position> for Position {
    type Output = Position;

    fn add(self, rhs: Position) -> (r: Position) {
        Position { x: self.x + rhs.x, y: self.y + rhs.y }
    }
}

impl SubSpecImpl<Position> for Position {
    open spec fn obeys_sub_spec() -> bool {
        true
    }

    open spec fn sub_req(self, rhs: Position) -> bool {
        i32::MIN <= self.x - rhs.x <= i32::MAX && i32::MIN <= self.y - rhs.y <= i32::MAX
    }

    open spec fn sub_spec(self, rhs: Position) -> Position {
        Position { x: (self.x - rhs.x) as i32, y: (self.y - rhs.y) as i32 }
    }
}

impl core::ops::Sub<Position> for Position {
    type Output = Position;

    fn sub(self, rhs: Position) -> (r: Position) {
        Position { x: self.x - rhs.x, y: self.y - rhs.y }
    }
}

impl AddSpecImpl<Size> for Position {
    open spec fn obeys_add_spec() -> bool {
        true
    }

    open spec fn add_req(self, rhs: Size) -> bool {
        true
    }

    open spec fn add_spec(self, rhs: Size) -> Rectangle {
        Rectangle { position: self, size: rhs }
    }
}

/// A position and a size make the rectangle of that size at that
/// position.
impl core::ops::Add<Size> for Position {
    type Output = Rectangle;

    fn add(self, rhs: Size) -> (r: Rectangle) {
        Rectangle { position: self, size: rhs }
    }
}

impl AddSpecImpl<(i32, i32)> for Position {
    open spec fn obeys_add_spec() -> bool {
        true
    }

    open spec fn add_req(self, rhs: (i32, i32)) -> bool {
        i32::MIN <= self.x + rhs.0 <= i32::MAX && i32::MIN <= self.y + rhs.1 <= i32::MAX
    }

    open spec fn add_spec(self, rhs: (i32, i32)) -> Position {
        Position { x: (self.x + rhs.0) as i32, y: (self.y + rhs.1) as i32 }
    }
}

impl core::ops::Add<(i32, i32)> for Position {
    type Output = Position;

    fn add(self, rhs: (i32, i32)) -> (r: Position) {
        Position { x: self.x + rhs.0, y: self.y + rhs.1 }
    }
}

impl AddSpecImpl<(i32, i32)> for Size {
    open spec fn obeys_add_spec() -> bool {
        true
    }

    open spec fn add_req(self, rhs: (i32, i32)) -> bool {
        i32::MIN <= self.width + rhs.0 <= i32::MAX && i32::MIN <= self.height + rhs.1 <= i32::MAX
    }

    open spec fn add_spec(self, rhs: (i32, i32)) -> Size {
        Size { width: (self.width + rhs.0) as i32, height: (self.height + rhs.1) as i32 }
    }
}

impl core::ops::Add<(i32, i32)> for Size {
    type Output = Size;

    fn add(self, rhs: (i32, i32)) -> (r: Size) {
        Size { width: self.width + rhs.0, height: self.height + rhs.1 }
    }
}

/// The quotient of `a` by `b`, rounded towards zero.
pub open spec fn quotient_towards_zero(a: int, b: int) -> int {
    if a >= 0 {
        a / b
    } else {
        -((-a) / b)
    }
}

/// `a` divided by `b`, rounded towards zero.
pub fn divide(a: i32, b: i32) -> (q: i32)
    requires
        b != 0,
        !(b == -1 && a == i32::MIN),
    ensures
        q == quotient_towards_zero(a as int, b as int) as i32,
{
    a / b
}

impl core::ops::DivAssign<i32> for Position {
    fn div_assign(&mut self, rhs: i32)
        requires
            rhs != 0,
            !(rhs == -1 && (old(self).x == i32::MIN || old(self).y == i32::MIN)),
        ensures
            final(self).x == quotient_towards_zero(old(self).x as int, rhs as int) as i32,
            final(self).y == quotient_towards_zero(old(self).y as int, rhs as int) as i32,
    {
        let x = divide(self.x, rhs);
        let y = divide(self.y, rhs);
        self.x = x;
        self.y = y;
    }
}

} // verus!
