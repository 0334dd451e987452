use vstd::prelude::*;
use vstd::std_specs::ops::{AddSpecImpl, DivSpecImpl, MulSpecImpl, SubSpecImpl};
use vstd::std_specs::convert::FromSpecImpl;
use crate::data::base::{Position, Size};

verus! {

/// One of the eight compass directions, or no direction at all.
#[derive(Ord, PartialOrd, Eq, PartialEq, Structural, Copy, Clone, Debug, Hash)]
pub enum Direction {
    North,
    NorthEast,
    East,
    SouthEast,
    South,
    SouthWest,
    West,
    NorthWest,
    NoDirection,
}

impl Direction {
    pub open spec fn spec_reverse(self) -> Self {
        match self {
            Self::North => Self::South,
            Self::NorthEast => Self::SouthWest,
            Self::East => Self::West,
            Self::SouthEast => Self::NorthWest,
            Self::South => Self::North,
            Self::SouthWest => Self::NorthEast,
            Self::West => Self::East,
            Self::NorthWest => Self::SouthEast,
            Self::NoDirection => Self::NoDirection,
        }
    }

    /// The unit step of the direction: x grows to the east, y to the south.
    pub open spec fn offset(self) -> Coordinate {
        match self {
            Self::North => Coordinate { x: 0, y: -1i32 },
            Self::NorthEast => Coordinate { x: 1, y: -1i32 },
            Self::East => Coordinate { x: 1, y: 0 },
            Self::SouthEast => Coordinate { x: 1, y: 1 },
            Self::South => Coordinate { x: 0, y: 1 },
            Self::SouthWest => Coordinate { x: -1i32, y: 1 },
            Self::West => Coordinate { x: -1i32, y: 0 },
            Self::NorthWest => Coordinate { x: -1i32, y: -1i32 },
            Self::NoDirection => Coordinate { x: 0, y: 0 },
        }
    }

    /// The opposite direction; no direction stays no direction.
    pub fn reverse(self) -> (r: Self)
        ensures
            r == self.spec_reverse(),
    {
        match self {
            Self::North => Self::South,
            Self::NorthEast => Self::SouthWest,
            Self::East => Self::West,
            Self::SouthEast => Self::NorthWest,
            Self::South => Self::North,
            Self::SouthWest => Self::NorthEast,
            Self::West => Self::East,
            Self::NorthWest => Self::SouthEast,
            Self::NoDirection => Self::NoDirection,
        }
    }
}

impl Default for Direction {
    fn default() -> (r: Self)
        ensures
            r == Direction::NoDirection,
    {
        Self::NoDirection
    }
}

/// Reversing twice gives the direction back, and the reverse steps the
/// opposite way.
pub proof fn lemma_reverse_involution(d: Direction)
    ensures
        d.spec_reverse().spec_reverse() == d,
        d.spec_reverse().offset().x == -d.offset().x,
        d.spec_reverse().offset().y == -d.offset().y,
{
}

/// One of the two axes of the grid.
#[derive(Ord, PartialOrd, Eq, PartialEq, Structural, Copy, Clone, Debug, Hash)]
pub enum Axis {
    X,
    Y,
}

impl Axis {
    /// Both axes, x first.
    pub fn both() -> (r: [Axis; 2])
        ensures
            r@ == seq![Axis::X, Axis::Y],
    {
        let r = [Axis::X, Axis::Y];
        assert(r@ =~= seq![Axis::X, Axis::Y]);
        r
    }

    /// Calls `f` on the x axis, then on the y axis.
    pub fn for_both<F>(mut f: F) where F: FnMut(Self)
        requires
            forall|g: F, a: Axis| call_requires(g, (a,)),
    {
        f(Axis::X);
        f(Axis::Y);
    }
}

/// A cell of the grid, or a step between two cells.
#[derive(Ord, PartialOrd, Eq, PartialEq, Structural, Copy, Clone, Debug, Hash, Default)]
pub struct Coordinate {
    pub x: i32,
    pub y: i32,
}

pub open spec fn abs(v: int) -> int {
    if v < 0 {
        -v
    } else {
        v
    }
}

pub open spec fn min(a: int, b: int) -> int {
    if a <= b {
        a
    } else {
        b
    }
}

pub open spec fn max(a: int, b: int) -> int {
    if a >= b {
        a
    } else {
        b
    }
}

/// -1, 0 or 1, as `v` is negative, zero or positive.
pub open spec fn signum(v: int) -> int {
    if v < 0 {
        -1
    } else if v == 0 {
        0
    } else {
        1
    }
}

/// The direction whose unit step is `(sx, sy)`, each of them -1, 0 or 1.
pub open spec fn direction_of_step(sx: int, sy: int) -> Direction {
    if sx == 0 && sy < 0 {
        Direction::North
    } else if sx > 0 && sy < 0 {
        Direction::NorthEast
    } else if sx > 0 && sy == 0 {
        Direction::East
    } else if sx > 0 && sy > 0 {
        Direction::SouthEast
    } else if sx == 0 && sy > 0 {
        Direction::South
    } else if sx < 0 && sy > 0 {
        Direction::SouthWest
    } else if sx < 0 && sy == 0 {
        Direction::West
    } else if sx < 0 && sy < 0 {
        Direction::NorthWest
    } else {
        Direction::NoDirection
    }
}

/// Whether a step of `dx` and `dy` lies within 22.5 degrees of the x axis.
/// The tangent of 22.5 degrees is `sqrt(2) - 1`, so this asks whether
/// `|dy| < (sqrt(2) - 1) * |dx|`, which no pair of integers meets with
/// equality.
pub open spec fn mostly_along_x(dx: int, dy: int) -> bool {
    (abs(dx) + abs(dy)) * (abs(dx) + abs(dy)) < 2 * abs(dx) * abs(dx)
}

/// Whether a step of `dx` and `dy` lies within 22.5 degrees of the y axis.
pub open spec fn mostly_along_y(dx: int, dy: int) -> bool {
    (abs(dx) + abs(dy)) * (abs(dx) + abs(dy)) < 2 * abs(dy) * abs(dy)
}

impl Coordinate {
    /// The cell in the top-left corner; also the step that moves nowhere.
    pub fn origin() -> (r: Self)
        ensures
            r == (Coordinate { x: 0, y: 0 }),
    {
        Self { x: 0, y: 0 }
    }

    pub fn new(x: i32, y: i32) -> (r: Self)
        ensures
            r == (Coordinate { x, y }),
    {
        Self { x, y }
    }

    /// Pairs the entries of `x` and `y`, in order.
    pub fn from_slices(x: &[i32], y: &[i32]) -> (r: Vec<Self>)
        requires
            x.len() == y.len(),
        ensures
            r.len() == x.len(),
            forall|i: int| 0 <= i < r.len() ==> #[trigger] r[i] == (Coordinate { x: x[i], y: y[i] }),
    {
        let mut coordinates: Vec<Self> = Vec::new();
        let mut i: usize = 0;
        while i < x.len()
            invariant
                x.len() == y.len(),
                i <= x.len(),
                coordinates.len() == i,
                forall|j: int| 0 <= j < i ==> #[trigger] coordinates[j] == (Coordinate { x: x[j], y: y[j] }),
            decreases x.len() - i,
        {
            coordinates.push(Self::new(x[i], y[i]));
            i += 1;
        }
        coordinates
    }

    pub open spec fn spec_min(self, other: Self) -> Self {
        Coordinate {
            x: if self.x <= other.x { self.x } else { other.x },
            y: if self.y <= other.y { self.y } else { other.y },
        }
    }

    pub open spec fn spec_max(self, other: Self) -> Self {
        Coordinate {
            x: if self.x >= other.x { self.x } else { other.x },
            y: if self.y >= other.y { self.y } else { other.y },
        }
    }

    /// The smaller of the two on each axis.
    pub fn min(self, other: Self) -> (r: Self)
        ensures
            r == self.spec_min(other),
    {
        Self {
            x: if self.x <= other.x { self.x } else { other.x },
            y: if self.y <= other.y { self.y } else { other.y },
        }
    }

    /// The greater of the two on each axis.
    pub fn max(self, other: Self) -> (r: Self)
        ensures
            r == self.spec_max(other),
    {
        Self {
            x: if self.x >= other.x { self.x } else { other.x },
            y: if self.y >= other.y { self.y } else { other.y },
        }
    }

    /// Whether the cell lies in the rectangle from `low` to `high`, both
    /// corners included.
    pub open spec fn spec_inside_rectangle(self, low: Self, high: Self) -> bool {
        low.x <= self.x <= high.x && low.y <= self.y <= high.y
    }

    /// Whether the cell lies in the rectangle that starts at `origin` and
    /// is `extent` wide and high.
    pub open spec fn spec_inside_extent(self, origin: Self, extent: Self) -> bool {
        &&& origin.x <= self.x < origin.x + extent.x
        &&& origin.y <= self.y < origin.y + extent.y
    }

    pub open spec fn spec_on_rectangle_edges(self, low: Self, high: Self) -> bool {
        self.x == low.x || self.x == high.x || self.y == low.y || self.y == high.y
    }

    pub open spec fn spec_on_extent_edges(self, origin: Self, extent: Self) -> bool {
        ||| self.x == origin.x
        ||| self.x == origin.x + extent.x - 1
        ||| self.y == origin.y
        ||| self.y == origin.y + extent.y - 1
    }

    pub fn inside_rectangle(self, low: Self, high: Self) -> (r: bool)
        ensures
            r == self.spec_inside_rectangle(low, high),
    {
        self.x >= low.x && self.x <= high.x && self.y >= low.y && self.y <= high.y
    }

    pub fn inside_extent(self, origin: Self, extent: Self) -> (r: bool)
        ensures
            r == self.spec_inside_extent(origin, extent),
    {
        self.x >= origin.x && (self.x as i64) < origin.x as i64 + extent.x as i64
            && self.y >= origin.y && (self.y as i64) < origin.y as i64 + extent.y as i64
    }

    /// Whether the cell shares a column or a row with one of the two
    /// corners.
    pub fn on_rectangle_edges(self, low: Self, high: Self) -> (r: bool)
        ensures
            r == self.spec_on_rectangle_edges(low, high),
    {
        self.x == low.x || self.x == high.x || self.y == low.y || self.y == high.y
    }

    pub fn on_extent_edges(self, origin: Self, extent: Self) -> (r: bool)
        ensures
            r == self.spec_on_extent_edges(origin, extent),
    {
        self.x == origin.x || self.x as i64 == origin.x as i64 + extent.x as i64 - 1
            || self.y == origin.y || self.y as i64 == origin.y as i64 + extent.y as i64 - 1
    }

    /// The value on the given axis.
    pub open spec fn on_axis(self, axis: Axis) -> i32 {
        match axis {
            Axis::X => self.x,
            Axis::Y => self.y,
        }
    }

    /// The value on the given axis.
    pub fn get(&self, axis: Axis) -> (r: i32)
        ensures
            r == self.on_axis(axis),
    {
        match axis {
            Axis::X => self.x,
            Axis::Y => self.y,
        }
    }

    /// Replaces the value on the given axis.
    pub fn set(&mut self, axis: Axis, value: i32)
        ensures
            final(self).on_axis(axis) == value,
            axis == Axis::X ==> final(self).y == old(self).y,
            axis == Axis::Y ==> final(self).x == old(self).x,
    {
        match axis {
            Axis::X => {
                self.x = value;
            },
            Axis::Y => {
                self.y = value;
            },
        }
    }

    /// Both values for writing, x first.
    pub fn axes_mut(&mut self) -> (r: (&mut i32, &mut i32))
        ensures
            *r.0 == old(self).x,
            *r.1 == old(self).y,
            *final(self) == (Coordinate { x: *final(r.0), y: *final(r.1) }),
    {
        (&mut self.x, &mut self.y)
    }

    /// Both values, x first.
    pub fn axes(self) -> (r: [i32; 2])
        ensures
            r@ == seq![self.x, self.y],
    {
        let r = [self.x, self.y];
        assert(r@ =~= seq![self.x, self.y]);
        r
    }

    /// The cell moved, on each axis, no further than needed to be at least
    /// `low` and, where `low` allows, at most `high`.
    pub open spec fn spec_clamp_to_rectangle(self, low: Self, high: Self) -> Self {
        Coordinate {
            x: max(low.x as int, min(high.x as int, self.x as int)) as i32,
            y: max(low.y as int, min(high.y as int, self.y as int)) as i32,
        }
    }

    pub fn clamp_to_rectangle(self, low: Self, high: Self) -> (r: Self)
        ensures
            r == self.spec_clamp_to_rectangle(low, high),
            low.x <= high.x && low.y <= high.y ==> r.spec_inside_rectangle(low, high),
            self.spec_inside_rectangle(low, high) ==> r == self,
    {
        let hx = if high.x <= self.x { high.x } else { self.x };
        let hy = if high.y <= self.y { high.y } else { self.y };
        Self {
            x: if low.x >= hx { low.x } else { hx },
            y: if low.y >= hy { low.y } else { hy },
        }
    }

    /// The nearest cell of the rectangle that starts at `origin` and is
    /// `extent` wide and high.
    pub fn shrink_extent(self, origin: Self, extent: Self) -> (r: Self)
        requires
            i32::MIN <= origin.x + extent.x - 1 <= i32::MAX,
            i32::MIN <= origin.y + extent.y - 1 <= i32::MAX,
        ensures
            r == self.spec_clamp_to_rectangle(
                origin,
                Coordinate { x: (origin.x + extent.x - 1) as i32, y: (origin.y + extent.y - 1) as i32 },
            ),
            extent.x > 0 && extent.y > 0 ==> r.spec_inside_extent(origin, extent),
    {
        let high = Self {
            x: (origin.x as i64 + extent.x as i64 - 1) as i32,
            y: (origin.y as i64 + extent.y as i64 - 1) as i32,
        };
        self.clamp_to_rectangle(origin, high)
    }

    /// The number of steps between the two cells when each step moves
    /// along one axis.
    pub open spec fn spec_rectilinear_distance_to(self, other: Self) -> int {
        abs(other.x - self.x) + abs(other.y - self.y)
    }

    pub fn rectilinear_distance_to(self, other: Self) -> (r: i32)
        requires
            self.spec_rectilinear_distance_to(other) <= i32::MAX,
        ensures
            r == self.spec_rectilinear_distance_to(other),
    {
        let dx = other.x as i64 - self.x as i64;
        let dy = other.y as i64 - self.y as i64;
        let ax = if dx < 0 { -dx } else { dx };
        let ay = if dy < 0 { -dy } else { dy };
        (ax + ay) as i32
    }

    /// The square of the straight-line distance between the two cells.
    pub open spec fn spec_squared_distance_to(self, other: Self) -> int {
        (other.x - self.x) * (other.x - self.x) + (other.y - self.y) * (other.y - self.y)
    }

    pub fn squared_distance_to(self, other: Self) -> (r: u128)
        ensures
            r == self.spec_squared_distance_to(other),
    {
        let dx = other.x as i64 - self.x as i64;
        let dy = other.y as i64 - self.y as i64;
        let ax = (if dx < 0 { -dx } else { dx }) as u128;
        let ay = (if dy < 0 { -dy } else { dy }) as u128;
        assert(ax * ax <= 0xffff_ffff * 0xffff_ffff) by (nonlinear_arith)
            requires
                ax <= 0xffff_ffff,
        ;
        assert(ay * ay <= 0xffff_ffff * 0xffff_ffff) by (nonlinear_arith)
            requires
                ay <= 0xffff_ffff,
        ;
        assert(ax * ax == (other.x - self.x) * (other.x - self.x)) by (nonlinear_arith)
            requires
                ax == other.x - self.x || ax == -(other.x - self.x),
        ;
        assert(ay * ay == (other.y - self.y) * (other.y - self.y)) by (nonlinear_arith)
            requires
                ay == other.y - self.y || ay == -(other.y - self.y),
        ;
        ax * ax + ay * ay
    }

    /// How much further apart the two cells are along x than along y.
    pub open spec fn spec_xy_difference(self, other: Self) -> int {
        abs(self.x - other.x) - abs(self.y - other.y)
    }

    pub fn xy_difference(self, other: Self) -> (r: i32)
        requires
            i32::MIN <= self.spec_xy_difference(other) <= i32::MAX,
        ensures
            r == self.spec_xy_difference(other),
    {
        let dx = self.x as i64 - other.x as i64;
        let dy = self.y as i64 - other.y as i64;
        let ax = if dx < 0 { -dx } else { dx };
        let ay = if dy < 0 { -dy } else { dy };
        (ax - ay) as i32
    }

    /// The cell as it is written: both values between brackets.
    pub open spec fn spec_to_text(self) -> Seq<char> {
        seq!['('] + crate::util::text::spec_decimal(self.x as int) + seq![',', ' ']
            + crate::util::text::spec_decimal(self.y as int) + seq![')']
    }

    /// The cell as it is written.
    pub fn to_text(self) -> (r: String)
        ensures
            r@ == self.spec_to_text(),
    {
        crate::util::text::bracketed(self.x, self.y)
    }

    /// The direction of the step from this cell towards `other`, each axis
    /// judged by its sign alone.
    pub open spec fn spec_direction_to(self, other: Self) -> Direction {
        direction_of_step(signum(other.x - self.x), signum(other.y - self.y))
    }

    pub fn direction_to(self, other: Self) -> (r: Direction)
        ensures
            r == self.spec_direction_to(other),
            r == Direction::NoDirection <==> self == other,
    {
        if other.x == self.x {
            if other.y < self.y {
                Direction::North
            } else if other.y > self.y {
                Direction::South
            } else {
                Direction::NoDirection
            }
        } else if other.x > self.x {
            if other.y < self.y {
                Direction::NorthEast
            } else if other.y > self.y {
                Direction::SouthEast
            } else {
                Direction::East
            }
        } else {
            if other.y < self.y {
                Direction::NorthWest
            } else if other.y > self.y {
                Direction::SouthWest
            } else {
                Direction::West
            }
        }
    }

    /// The compass direction nearest to the straight line from this cell
    /// to `other`: the plane is cut in eight sectors of 45 degrees, each
    /// centred on one direction.
    pub open spec fn spec_direction_to_rounded(self, other: Self) -> Direction {
        let dx = other.x - self.x;
        let dy = other.y - self.y;
        if mostly_along_x(dx, dy) {
            direction_of_step(signum(dx), 0)
        } else if mostly_along_y(dx, dy) {
            direction_of_step(0, signum(dy))
        } else {
            direction_of_step(signum(dx), signum(dy))
        }
    }

    pub fn direction_to_rounded(self, other: Self) -> (r: Direction)
        ensures
            r == self.spec_direction_to_rounded(other),
            r == Direction::NoDirection <==> self == other,
    {
        let dx = other.x as i64 - self.x as i64;
        let dy = other.y as i64 - self.y as i64;
        let ax = (if dx < 0 { -dx } else { dx }) as u128;
        let ay = (if dy < 0 { -dy } else { dy }) as u128;
        assert((ax + ay) * (ax + ay) <= 0x1_ffff_fffe * 0x1_ffff_fffe) by (nonlinear_arith)
            requires
                ax + ay <= 0x1_ffff_fffe,
        ;
        assert(2 * ax * ax <= 2 * 0xffff_ffff * 0xffff_ffff) by (nonlinear_arith)
            requires
                ax <= 0xffff_ffff,
        ;
        assert(2 * ay * ay <= 2 * 0xffff_ffff * 0xffff_ffff) by (nonlinear_arith)
            requires
                ay <= 0xffff_ffff,
        ;
        let sum_sq = (ax + ay) * (ax + ay);
        assert(ax == abs(other.x - self.x) && ay == abs(other.y - self.y));
        assert(sum_sq < 2 * ax * ax ==> ax > 0) by (nonlinear_arith)
            requires
                sum_sq == (ax + ay) * (ax + ay),
        ;
        assert(sum_sq < 2 * ay * ay ==> ay > 0) by (nonlinear_arith)
            requires
                sum_sq == (ax + ay) * (ax + ay),
        ;
        if sum_sq < 2 * ax * ax {
            if dx > 0 {
                Direction::East
            } else {
                Direction::West
            }
        } else if sum_sq < 2 * ay * ay {
            if dy > 0 {
                Direction::South
            } else {
                Direction::North
            }
        } else {
            self.direction_to(other)
        }
    }
}

impl FromSpecImpl<(i32, i32)> for Coordinate {
    open spec fn obeys_from_spec() -> bool {
        true
    }

    open spec fn from_spec(tuple: (i32, i32)) -> Self {
        Coordinate { x: tuple.0, y: tuple.1 }
    }
}

impl From<(i32, i32)> for Coordinate {
    fn from(tuple: (i32, i32)) -> (r: Self) {
        Self { x: tuple.0, y: tuple.1 }
    }
}

impl FromSpecImpl<Coordinate> for (i32, i32) {
    open spec fn obeys_from_spec() -> bool {
        true
    }

    open spec fn from_spec(coordinate: Coordinate) -> Self {
        (coordinate.x, coordinate.y)
    }
}

impl From<Coordinate> for (i32, i32) {
    fn from(coordinate: Coordinate) -> (r: Self) {
        (coordinate.x, coordinate.y)
    }
}

impl FromSpecImpl<Coordinate> for Position {
    open spec fn obeys_from_spec() -> bool {
        true
    }

    open spec fn from_spec(coordinate: Coordinate) -> Self {
        Position { x: coordinate.x, y: coordinate.y }
    }
}

impl From<Coordinate> for Position {
    fn from(coordinate: Coordinate) -> (r: Self) {
        Position { x: coordinate.x, y: coordinate.y }
    }
}

impl FromSpecImpl<Size> for Coordinate {
    open spec fn obeys_from_spec() -> bool {
        true
    }

    open spec fn from_spec(size: Size) -> Self {
        Coordinate { x: size.width, y: size.height }
    }
}

impl From<Size> for Coordinate {
    fn from(size: Size) -> (r: Self) {
        Self { x: size.width, y: size.height }
    }
}

impl FromSpecImpl<Direction> for Coordinate {
    open spec fn obeys_from_spec() -> bool {
        true
    }

    open spec fn from_spec(direction: Direction) -> Self {
        direction.offset()
    }
}

impl From<Direction> for Coordinate {
    fn from(direction: Direction) -> (r: Self) {
        match direction {
            Direction::North => Self { x: 0, y: -1 },
            Direction::NorthEast => Self { x: 1, y: -1 },
            Direction::East => Self { x: 1, y: 0 },
            Direction::SouthEast => Self { x: 1, y: 1 },
            Direction::South => Self { x: 0, y: 1 },
            Direction::SouthWest => Self { x: -1, y: 1 },
            Direction::West => Self { x: -1, y: 0 },
            Direction::NorthWest => Self { x: -1, y: -1 },
            Direction::NoDirection => Self { x: 0, y: 0 },
        }
    }
}

impl AddSpecImpl<i32> for Coordinate {
    open spec fn obeys_add_spec() -> bool {
        true
    }

    open spec fn add_req(self, rhs: i32) -> bool {
        i32::MIN <= self.x + rhs <= i32::MAX && i32::MIN <= self.y + rhs <= i32::MAX
    }

    open spec fn add_spec(self, rhs: i32) -> Coordinate {
        Coordinate { x: (self.x + rhs) as i32, y: (self.y + rhs) as i32 }
    }
}

impl core::ops::Add<i32> for Coordinate {
    type Output = Coordinate;

    fn add(self, rhs: i32) -> (r: Coordinate) {
        Coordinate { x: self.x + rhs, y: self.y + rhs }
    }
}

impl AddSpecImpl<Coordinate> for Coordinate {
    open spec fn obeys_add_spec() -> bool {
        true
    }

    open spec fn add_req(self, rhs: Coordinate) -> bool {
        i32::MIN <= self.x + rhs.x <= i32::MAX && i32::MIN <= self.y + rhs.y <= i32::MAX
    }

    open spec fn add_spec(self, rhs: Coordinate) -> Coordinate {
        Coordinate { x: (self.x + rhs.x) as i32, y: (self.y + rhs.y) as i32 }
    }
}

impl core::ops::Add<Coordinate> for Coordinate {
    type Output = Coordinate;

    fn add(self, rhs: Coordinate) -> (r: Coordinate) {
        Coordinate { x: self.x + rhs.x, y: self.y + rhs.y }
    }
}

impl SubSpecImpl<i32> for Coordinate {
    open spec fn obeys_sub_spec() -> bool {
        true
    }

    open spec fn sub_req(self, rhs: i32) -> bool {
        i32::MIN <= self.x - rhs <= i32::MAX && i32::MIN <= self.y - rhs <= i32::MAX
    }

    open spec fn sub_spec(self, rhs: i32) -> Coordinate {
        Coordinate { x: (self.x - rhs) as i32, y: (self.y - rhs) as i32 }
    }
}

impl core::ops::Sub<i32> for Coordinate {
    type Output = Coordinate;

    fn sub(self, rhs: i32) -> (r: Coordinate) {
        Coordinate { x: self.x - rhs, y: self.y - rhs }
    }
}

impl SubSpecImpl<Coordinate> for Coordinate {
    open spec fn obeys_sub_spec() -> bool {
        true
    }

    open spec fn sub_req(self, rhs: Coordinate) -> bool {
        i32::MIN <= self.x - rhs.x <= i32::MAX && i32::MIN <= self.y - rhs.y <= i32::MAX
    }

    open spec fn sub_spec(self, rhs: Coordinate) -> Coordinate {
        Coordinate { x: (self.x - rhs.x) as i32, y: (self.y - rhs.y) as i32 }
    }
}

impl core::ops::Sub<Coordinate> for Coordinate {
    type Output = Coordinate;

    fn sub(self, rhs: Coordinate) -> (r: Coordinate) {
        Coordinate { x: self.x - rhs.x, y: self.y - rhs.y }
    }
}

impl MulSpecImpl<i32> for Coordinate {
    open spec fn obeys_mul_spec() -> bool {
        true
    }

    open spec fn mul_req(self, rhs: i32) -> bool {
        i32::MIN <= self.x * rhs <= i32::MAX && i32::MIN <= self.y * rhs <= i32::MAX
    }

    open spec fn mul_spec(self, rhs: i32) -> Coordinate {
        Coordinate { x: (self.x * rhs) as i32, y: (self.y * rhs) as i32 }
    }
}

impl core::ops::Mul<i32> for Coordinate {
    type Output = Coordinate;

    fn mul(self, rhs: i32) -> (r: Coordinate) {
        Coordinate { x: self.x * rhs, y: self.y * rhs }
    }
}

/// The quotient of `a` by `b`, rounded towards zero.
pub open spec fn truncated_quotient(a: int, b: int) -> int {
    if a >= 0 {
        a / b
    } else {
        -((-a) / b)
    }
}

impl DivSpecImpl<i32> for Coordinate {
    open spec fn obeys_div_spec() -> bool {
        true
    }

    open spec fn div_req(self, rhs: i32) -> bool {
        rhs != 0 && !(rhs == -1 && (self.x == i32::MIN || self.y == i32::MIN))
    }

    open spec fn div_spec(self, rhs: i32) -> Coordinate {
        Coordinate {
            x: truncated_quotient(self.x as int, rhs as int) as i32,
            y: truncated_quotient(self.y as int, rhs as int) as i32,
        }
    }
}

impl core::ops::Div<i32> for Coordinate {
    type Output = Coordinate;

    fn div(self, rhs: i32) -> (r: Coordinate) {
        Coordinate { x: self.x / rhs, y: self.y / rhs }
    }
}

impl core::ops::AddAssign<i32> for Coordinate {
    fn add_assign(&mut self, rhs: i32)
        requires
            i32::MIN <= old(self).x + rhs <= i32::MAX,
            i32::MIN <= old(self).y + rhs <= i32::MAX,
        ensures
            final(self).x == old(self).x + rhs,
            final(self).y == old(self).y + rhs,
    {
        self.x = self.x + rhs;
        self.y = self.y + rhs;
    }
}

impl core::ops::AddAssign<Coordinate> for Coordinate {
    fn add_assign(&mut self, rhs: Coordinate)
        requires
            i32::MIN <= old(self).x + rhs.x <= i32::MAX,
            i32::MIN <= old(self).y + rhs.y <= i32::MAX,
        ensures
            final(self).x == old(self).x + rhs.x,
            final(self).y == old(self).y + rhs.y,
    {
        self.x = self.x + rhs.x;
        self.y = self.y + rhs.y;
    }
}

impl core::ops::SubAssign<i32> for Coordinate {
    fn sub_assign(&mut self, rhs: i32)
        requires
            i32::MIN <= old(self).x - rhs <= i32::MAX,
            i32::MIN <= old(self).y - rhs <= i32::MAX,
        ensures
            final(self).x == old(self).x - rhs,
            final(self).y == old(self).y - rhs,
    {
        self.x = self.x - rhs;
        self.y = self.y - rhs;
    }
}

impl core::ops::SubAssign<Coordinate> for Coordinate {
    fn sub_assign(&mut self, rhs: Coordinate)
        requires
            i32::MIN <= old(self).x - rhs.x <= i32::MAX,
            i32::MIN <= old(self).y - rhs.y <= i32::MAX,
        ensures
            final(self).x == old(self).x - rhs.x,
            final(self).y == old(self).y - rhs.y,
    {
        self.x = self.x - rhs.x;
        self.y = self.y - rhs.y;
    }
}

impl core::ops::MulAssign<i32> for Coordinate {
    fn mul_assign(&mut self, rhs: i32)
        requires
            i32::MIN <= old(self).x * rhs <= i32::MAX,
            i32::MIN <= old(self).y * rhs <= i32::MAX,
        ensures
            final(self).x == old(self).x * rhs,
            final(self).y == old(self).y * rhs,
    {
        self.x = self.x * rhs;
        self.y = self.y * rhs;
    }
}

impl core::ops::DivAssign<i32> for Coordinate {
    fn div_assign(&mut self, rhs: i32)
        requires
            rhs != 0,
            !(rhs == -1 && (old(self).x == i32::MIN || old(self).y == i32::MIN)),
        ensures
            final(self).x == truncated_quotient(old(self).x as int, rhs as int) as i32,
            final(self).y == truncated_quotient(old(self).y as int, rhs as int) as i32,
    {
        let quotient = *self / rhs;
        *self = quotient;
    }
}

} // verus!
