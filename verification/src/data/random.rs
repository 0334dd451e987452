use vstd::prelude::*;
use crate::coordinate::{Coordinate, Direction};
use rand::rngs::StdRng;
use rand::{Rng, SeedableRng};

verus! {

/// A type with a fixed, non-empty list of values to draw from.
pub trait Selection: Sized + Copy {
    /// The values of the type, in a fixed order.
    spec fn choices() -> Seq<Self>;

    /// All the values a draw may give.
    fn get_choices() -> (r: Vec<Self>)
        ensures
            r@ == Self::choices(),
            0 < r.len() <= i32::MAX,
    ;
}

impl Selection for Direction {
    open spec fn choices() -> Seq<Self> {
        seq![
            Direction::North,
            Direction::NorthEast,
            Direction::East,
            Direction::SouthEast,
            Direction::South,
            Direction::SouthWest,
            Direction::West,
            Direction::NorthWest,
        ]
    }

    /// The eight compass directions, clockwise from north.
    fn get_choices() -> (r: Vec<Self>) {
        let r = vec![
            Direction::North,
            Direction::NorthEast,
            Direction::East,
            Direction::SouthEast,
            Direction::South,
            Direction::SouthWest,
            Direction::West,
            Direction::NorthWest,
        ];
        assert(r@ =~= Self::choices());
        r
    }
}

/// The sign of a number.
#[derive(Ord, PartialOrd, Eq, PartialEq, Structural, Copy, Clone, Debug, Hash)]
pub enum Sign {
    Positive,
    Negative,
}

impl Sign {
    /// The sign that a drawn truth value stands for: positive for `true`.
    pub open spec fn spec_of(positive: bool) -> Sign {
        if positive {
            Sign::Positive
        } else {
            Sign::Negative
        }
    }

    /// The sign that a drawn truth value stands for: positive for `true`.
    pub fn of(positive: bool) -> (r: Sign)
        ensures
            r == Self::spec_of(positive),
    {
        if positive {
            Sign::Positive
        } else {
            Sign::Negative
        }
    }
}

/// A source of random numbers. Nothing is promised of a draw but the range
/// it falls in: two draws with the same arguments may differ.
pub trait Generator: Sized {
    /// A number from `start` to `end`, both included.
    fn generate_integer(&mut self, start: i32, end: i32) -> (r: i32)
        requires
            start <= end,
        ensures
            start <= r <= end,
    ;

    /// A number from 0 to `end`, both included.
    fn generate_integer_up_to(&mut self, end: i32) -> (r: i32)
        requires
            0 <= end,
        ensures
            0 <= r <= end,
    {
        self.generate_integer(0, end)
    }

    /// Either truth value.
    fn generate_bool(&mut self) -> bool;

    /// Either sign: the sign of one drawn truth value.
    fn generate_sign(&mut self) -> Sign {
        let positive = self.generate_bool();
        Sign::of(positive)
    }

    /// A cell of the rectangle that starts at `origin` and is `extent`
    /// wide and high.
    fn generate_coordinate_within_extent(&mut self, origin: Coordinate, extent: Coordinate) -> (r:
        Coordinate)
        requires
            extent.x > 0,
            extent.y > 0,
            origin.x + extent.x - 1 <= i32::MAX,
            origin.y + extent.y - 1 <= i32::MAX,
        ensures
            r.spec_inside_extent(origin, extent),
    {
        let dx = self.generate_integer_up_to(extent.x - 1);
        let dy = self.generate_integer_up_to(extent.y - 1);
        Coordinate::new(origin.x + dx, origin.y + dy)
    }

    /// A cell of the rectangle that starts at the origin and is `extent`
    /// wide and high.
    fn generate_coordinate_within_origin_extent(&mut self, extent: Coordinate) -> (r: Coordinate)
        requires
            extent.x > 0,
            extent.y > 0,
        ensures
            r.spec_inside_extent(Coordinate { x: 0, y: 0 }, extent),
    {
        self.generate_coordinate_within_extent(Coordinate::origin(), extent)
    }

    /// A cell at most `distance` away from `origin` on each axis.
    fn generate_coordinate_within_distance(&mut self, origin: Coordinate, distance: i32) -> (r:
        Coordinate)
        requires
            0 <= distance,
            i32::MIN <= origin.x - distance,
            origin.x + distance <= i32::MAX,
            i32::MIN <= origin.y - distance,
            origin.y + distance <= i32::MAX,
        ensures
            origin.x - distance <= r.x <= origin.x + distance,
            origin.y - distance <= r.y <= origin.y + distance,
    {
        let dx = self.generate_integer(-distance, distance);
        let dy = self.generate_integer(-distance, distance);
        Coordinate::new(origin.x + dx, origin.y + dy)
    }

    /// A cell at most `distance` away from the origin on each axis.
    fn generate_coordinate_within_origin_distance(&mut self, distance: i32) -> (r: Coordinate)
        requires
            0 <= distance,
        ensures
            -distance <= r.x <= distance,
            -distance <= r.y <= distance,
    {
        self.generate_coordinate_within_distance(Coordinate::origin(), distance)
    }

    /// A cell of the rectangle from `low` to `high`, both corners
    /// included.
    fn generate_coordinate_within_rectangle(&mut self, low: Coordinate, high: Coordinate) -> (r:
        Coordinate)
        requires
            low.x <= high.x,
            low.y <= high.y,
        ensures
            r.spec_inside_rectangle(low, high),
    {
        let x = self.generate_integer(low.x, high.x);
        let y = self.generate_integer(low.y, high.y);
        Coordinate::new(x, y)
    }

    /// One of `choices`, copied out.
    fn select<T: Copy>(&mut self, choices: &[T]) -> (r: T)
        requires
            0 < choices.len() <= i32::MAX,
        ensures
            choices@.contains(r),
    {
        *self.select_by_ref(choices)
    }

    /// One of `choices`.
    fn select_by_ref<'c, T>(&mut self, choices: &'c [T]) -> (r: &'c T)
        requires
            0 < choices.len() <= i32::MAX,
        ensures
            choices@.contains(*r),
    {
        let end = (choices.len() - 1) as i32;
        let index = self.generate_integer(0, end) as usize;
        &choices[index]
    }

    /// One of the values of `S`.
    fn auto_select<S: Selection>(&mut self) -> (r: S)
        ensures
            S::choices().contains(r),
    {
        let choices = S::get_choices();
        self.select(choices.as_slice())
    }

    /// A byte from `start` to `end`, both included.
    fn generate_u8(&mut self, start: u8, end: u8) -> (r: u8)
        requires
            start <= end,
        ensures
            start <= r <= end,
    {
        self.generate_integer(start as i32, end as i32) as u8
    }

    /// A byte from 0 to `end`, both included.
    fn generate_up_to_u8(&mut self, end: u8) -> (r: u8)
        ensures
            r <= end,
    {
        self.generate_integer_up_to(end as i32) as u8
    }
}

#[verifier::external_type_specification]
#[verifier::external_body]
pub struct ExStdRng(StdRng);

/// `SeedableRng::seed_from_u64` on `StdRng`: a generator whose stream is
/// fixed by `seed`. Nothing is claimed of the stream.
#[verifier::external_body]
fn rng_from_seed(seed: u64) -> StdRng {
    StdRng::seed_from_u64(seed)
}

/// `Rng::gen_range` on two `i32` bounds: the draw is at least `low` and
/// less than `high`. The call panics unless `low < high`.
#[verifier::external_body]
fn rng_range(rng: &mut StdRng, low: i32, high: i32) -> (r: i32)
    requires
        low < high,
    ensures
        low <= r < high,
{
    rng.gen_range(low, high)
}

/// `Rng::gen` for an `i32`: any value of the type.
#[verifier::external_body]
fn rng_any(rng: &mut StdRng) -> i32 {
    rng.gen()
}

/// `Rng::gen` for a `bool`: either value.
#[verifier::external_body]
fn rng_bool(rng: &mut StdRng) -> bool {
    rng.gen()
}

/// A generator that draws from a seeded pseudo-random stream.
pub struct DefaultGenerator {
    rng: StdRng,
    seed: u64,
}

impl DefaultGenerator {
    /// The seed the stream was last started from.
    pub closed spec fn spec_seed(&self) -> u64 {
        self.seed
    }

    /// A generator whose stream starts from `seed`.
    pub fn new_with_seed(seed: u64) -> (r: Self)
        ensures
            r.spec_seed() == seed,
    {
        Self { rng: rng_from_seed(seed), seed }
    }

    /// A generator with the default algorithm, started from `seed`.
    pub fn default_with_seed(seed: u64) -> (r: Self)
        ensures
            r.spec_seed() == seed,
    {
        Self::new_with_seed(seed)
    }

    /// The seed the stream was last started from.
    pub fn seed(&self) -> (r: u64)
        ensures
            r == self.spec_seed(),
    {
        self.seed
    }

    /// Starts the stream anew from `seed`.
    pub fn reseed(&mut self, seed: u64)
        ensures
            final(self).spec_seed() == seed,
    {
        self.rng = rng_from_seed(seed);
        self.seed = seed;
    }
}

impl Generator for DefaultGenerator {
    /// The next number of the stream that falls from `start` to `end`.
    /// The seed stays what it was.
    fn generate_integer(&mut self, start: i32, end: i32) -> (r: i32)
        ensures
            final(self).spec_seed() == old(self).spec_seed(),
    {
        if end < i32::MAX {
            rng_range(&mut self.rng, start, end + 1)
        } else if start > i32::MIN {
            rng_range(&mut self.rng, start - 1, end) + 1
        } else {
            rng_any(&mut self.rng)
        }
    }

    /// The next truth value of the stream. The seed stays what it was.
    fn generate_bool(&mut self) -> (r: bool)
        ensures
            final(self).spec_seed() == old(self).spec_seed(),
    {
        rng_bool(&mut self.rng)
    }
}

/// A generator without chance: every draw is fixed by its arguments.
pub struct StaticGenerator;

impl Default for StaticGenerator {
    fn default() -> Self {
        StaticGenerator
    }
}

impl Generator for StaticGenerator {
    /// Always `start`.
    fn generate_integer(&mut self, start: i32, end: i32) -> (r: i32)
        ensures
            r == start,
    {
        start
    }

    /// Always `end`.
    fn generate_integer_up_to(&mut self, end: i32) -> (r: i32)
        ensures
            r == end,
    {
        end
    }

    /// Always `true`.
    fn generate_bool(&mut self) -> (r: bool)
        ensures
            r,
    {
        true
    }

    /// Always positive.
    fn generate_sign(&mut self) -> (r: Sign)
        ensures
            r == Sign::Positive,
    {
        Sign::Positive
    }

    /// Always the corner opposite to `origin`.
    fn generate_coordinate_within_extent(&mut self, origin: Coordinate, extent: Coordinate) -> (r:
        Coordinate)
        ensures
            r == (Coordinate { x: (origin.x + extent.x - 1) as i32, y: (origin.y + extent.y - 1) as i32 }),
    {
        Coordinate { x: origin.x + (extent.x - 1), y: origin.y + (extent.y - 1) }
    }

    /// Always `distance` further on both axes.
    fn generate_coordinate_within_distance(&mut self, origin: Coordinate, distance: i32) -> (r:
        Coordinate)
        ensures
            r == (Coordinate { x: (origin.x + distance) as i32, y: (origin.y + distance) as i32 }),
    {
        Coordinate { x: origin.x + distance, y: origin.y + distance }
    }
}

} // verus!
