//! The eight-way flow field: where filth drifts and what floats is
//! carried.

use vstd::prelude::*;
use vstd::set_lib::{lemma_int_range, lemma_len_subset, set_int_range};
use crate::coordinate::{Coordinate, Direction};
use crate::data::random::Generator;
use crate::game::game_data::map::tile::Tile;
use crate::game::game_data::map::WorldMap;
use crate::util::array2d::{lemma_index_in_grid, lemma_index_injective, place, Array2D};

verus! {

/// The axis along which a stretch of the river mostly runs.
#[derive(Copy, Clone, Debug, PartialEq, Eq, Structural)]
pub enum Favor {
    Neither,
    X,
    Y,
}

/// How far a stretch has to lean to one axis to favour it.
pub const FAVOR_THRESHOLD: i64 = 15;

/// The favour of a stretch that runs `leaning` cells further along x than
/// along y.
pub open spec fn spec_favor_for(leaning: int) -> Favor {
    if leaning > FAVOR_THRESHOLD {
        Favor::X
    } else if leaning < FAVOR_THRESHOLD {
        Favor::Y
    } else {
        Favor::Neither
    }
}

pub fn favor_for(leaning: i64) -> (r: Favor)
    ensures
        r == spec_favor_for(leaning as int),
{
    if leaning > FAVOR_THRESHOLD {
        Favor::X
    } else if leaning < FAVOR_THRESHOLD {
        Favor::Y
    } else {
        Favor::Neither
    }
}

/// The greatest roll of the die of an axis: 3 for the favoured one, 1
/// otherwise.
pub fn die_faces(favored: bool) -> (r: i32)
    ensures
        r == (if favored {
            3i32
        } else {
            1i32
        }),
{
    if favored {
        3
    } else {
        1
    }
}

/// The number of steps between two cells when each step moves along one
/// axis, without a limit on how far apart they are.
pub fn taxicab(a: Coordinate, b: Coordinate) -> (r: i64)
    ensures
        r == a.spec_rectilinear_distance_to(b),
{
    let dx = b.x as i64 - a.x as i64;
    let dy = b.y as i64 - a.y as i64;
    (if dx < 0 {
        -dx
    } else {
        dx
    }) + (if dy < 0 {
        -dy
    } else {
        dy
    })
}

/// How much further apart two cells are along x than along y.
pub fn leaning(a: Coordinate, b: Coordinate) -> (r: i64)
    ensures
        r == a.spec_xy_difference(b),
{
    let dx = a.x as i64 - b.x as i64;
    let dy = a.y as i64 - b.y as i64;
    (if dx < 0 {
        -dx
    } else {
        dx
    }) - (if dy < 0 {
        -dy
    } else {
        dy
    })
}

/// Whether `d` is north, east, south or west.
pub open spec fn is_cardinal(d: Direction) -> bool {
    d == Direction::North || d == Direction::East || d == Direction::South || d == Direction::West
}

/// The direction of the flow along one axis between two control points
/// with the values `from` and `to` on that axis: `rising` where the value
/// grows, `falling` where it shrinks, and on a tie `rising` if `tie` says
/// so.
pub open spec fn spec_axis_direction(from: i32, to: i32, tie: bool, rising: Direction, falling: Direction) -> Direction {
    if from < to {
        rising
    } else if from > to {
        falling
    } else if tie {
        rising
    } else {
        falling
    }
}

pub fn axis_direction(from: i32, to: i32, tie: bool, rising: Direction, falling: Direction) -> (r: Direction)
    ensures
        r == spec_axis_direction(from, to, tie, rising, falling),
{
    if from < to {
        rising
    } else if from > to {
        falling
    } else if tie {
        rising
    } else {
        falling
    }
}

/// `d`, turned round if `reverse` says so.
pub open spec fn spec_oriented(d: Direction, reverse: bool) -> Direction {
    if reverse {
        d.spec_reverse()
    } else {
        d
    }
}

/// The course of the river: its four control points and, for each of the
/// three stretches between them, the direction of the flow along each
/// axis, the length of the stretch and its leaning.
pub struct RiverCourse {
    pub points: [Coordinate; 4],
    pub x_directions: [Direction; 3],
    pub y_directions: [Direction; 3],
    pub lengths: [i64; 3],
    pub leanings: [i64; 3],
}

impl RiverCourse {
    /// The course through the control points `(px[i], py[i])`. Along x the
    /// water of a stretch flows west where x grows and east where it
    /// shrinks; along y north where y grows and south where it shrinks;
    /// `x_ties` and `y_ties` decide where it does neither. With `reverse`
    /// every direction is turned round.
    pub open spec fn laid(self, px: [i32; 4], py: [i32; 4], x_ties: [bool; 3], y_ties: [bool; 3], reverse: bool) -> bool {
        &&& forall|i: int| 0 <= i < 4 ==> #[trigger] self.points[i] == (Coordinate { x: px[i], y: py[i] })
        &&& forall|i: int|
            0 <= i < 3 ==> #[trigger] self.x_directions[i] == spec_oriented(
                spec_axis_direction(px[i], px[i + 1], x_ties[i], Direction::West, Direction::East),
                reverse,
            )
        &&& forall|i: int|
            0 <= i < 3 ==> #[trigger] self.y_directions[i] == spec_oriented(
                spec_axis_direction(py[i], py[i + 1], y_ties[i], Direction::North, Direction::South),
                reverse,
            )
        &&& forall|i: int|
            0 <= i < 3 ==> #[trigger] self.lengths[i] == self.points[i].spec_rectilinear_distance_to(
                self.points[i + 1],
            )
        &&& forall|i: int|
            0 <= i < 3 ==> #[trigger] self.leanings[i] == self.points[i].spec_xy_difference(self.points[i + 1])
    }

    /// Whether the water of every stretch flows east or west along x and
    /// north or south along y.
    pub open spec fn wf(self) -> bool {
        &&& forall|i: int|
            0 <= i < 3 ==> #[trigger] self.x_directions[i] == Direction::West || self.x_directions[i]
                == Direction::East
        &&& forall|i: int|
            0 <= i < 3 ==> #[trigger] self.y_directions[i] == Direction::North || self.y_directions[i]
                == Direction::South
    }

    /// Whether `p` lies further from the start of the stretch `i` than
    /// the stretch is long.
    pub open spec fn beyond(self, p: Coordinate, i: int) -> bool {
        p.spec_rectilinear_distance_to(self.points[i]) > self.lengths[i]
    }

    /// The first stretch that the fill can be in once it has spread from
    /// the tile at `p`: the second for a tile beyond the first stretch,
    /// and the third for one beyond the second as well.
    pub open spec fn stretch_of(self, p: Coordinate) -> int {
        if self.beyond(p, 0) {
            if self.beyond(p, 1) {
                2
            } else {
                1
            }
        } else {
            0
        }
    }

    /// Whether `p` lies more than two steps further from the start of the
    /// stretch `i` than the stretch is long: every tile next to `p` then
    /// lies beyond the stretch.
    pub open spec fn well_beyond(self, p: Coordinate, i: int) -> bool {
        p.spec_rectilinear_distance_to(self.points[i]) - 2 > self.lengths[i]
    }

    /// The first stretch that the fill can be in when it comes to the
    /// tile at `p`. It comes there from a tile next to `p`, which lies at
    /// most two steps nearer to the start of a stretch than `p`, and has
    /// by then left every stretch that this tile lies beyond.
    pub open spec fn stretch_near(self, p: Coordinate) -> int {
        if self.well_beyond(p, 0) {
            if self.well_beyond(p, 1) {
                2
            } else {
                1
            }
        } else {
            0
        }
    }

    /// A tile lies in no earlier stretch than the tiles next to it let the
    /// fill come to them in.
    pub proof fn lemma_stretch_near(self, c: Coordinate, p: Coordinate)
        requires
            adjacent(c, p),
        ensures
            self.stretch_near(p) <= self.stretch_of(c),
    {
    }

    /// Whether `d` is the direction of the flow of the stretch `i`, along
    /// x or along y.
    pub open spec fn stretch_gives(self, i: int, d: Direction) -> bool {
        0 <= i < 3 && (self.x_directions[i] == d || self.y_directions[i] == d)
    }

    /// Whether `d` is the direction of the flow of one of the stretches,
    /// along x or along y.
    pub open spec fn gives(self, d: Direction) -> bool {
        exists|i: int| 0 <= i < 3 && (#[trigger] self.x_directions[i] == d || self.y_directions[i] == d)
    }

    /// The directions of a course are north, east, south or west.
    pub proof fn lemma_gives_cardinal(self, d: Direction)
        requires
            self.wf(),
            self.gives(d),
        ensures
            is_cardinal(d),
    {
    }

    /// Lays the course through the control points `(px[i], py[i])`.
    pub fn plan(px: [i32; 4], py: [i32; 4], x_ties: [bool; 3], y_ties: [bool; 3], reverse: bool) -> (course: Self)
        ensures
            course.laid(px, py, x_ties, y_ties, reverse),
            course.wf(),
    {
        let start = Coordinate { x: px[0], y: py[0] };
        let second = Coordinate { x: px[1], y: py[1] };
        let third = Coordinate { x: px[2], y: py[2] };
        let end = Coordinate { x: px[3], y: py[3] };
        let x0 = axis_direction(px[0], px[1], x_ties[0], Direction::West, Direction::East);
        let x1 = axis_direction(px[1], px[2], x_ties[1], Direction::West, Direction::East);
        let x2 = axis_direction(px[2], px[3], x_ties[2], Direction::West, Direction::East);
        let y0 = axis_direction(py[0], py[1], y_ties[0], Direction::North, Direction::South);
        let y1 = axis_direction(py[1], py[2], y_ties[1], Direction::North, Direction::South);
        let y2 = axis_direction(py[2], py[3], y_ties[2], Direction::North, Direction::South);
        let course = if reverse {
            RiverCourse {
                points: [start, second, third, end],
                x_directions: [x0.reverse(), x1.reverse(), x2.reverse()],
                y_directions: [y0.reverse(), y1.reverse(), y2.reverse()],
                lengths: [taxicab(start, second), taxicab(second, third), taxicab(third, end)],
                leanings: [leaning(start, second), leaning(second, third), leaning(third, end)],
            }
        } else {
            RiverCourse {
                points: [start, second, third, end],
                x_directions: [x0, x1, x2],
                y_directions: [y0, y1, y2],
                lengths: [taxicab(start, second), taxicab(second, third), taxicab(third, end)],
                leanings: [leaning(start, second), leaning(second, third), leaning(third, end)],
            }
        };
        course
    }
}

/// The stretch and the favour after the fill has come to `pos`: the next
/// stretch, with its own favour, once `pos` lies further from the start of
/// the stretch than the stretch is long.
pub open spec fn spec_stage_after(stage: usize, favor: Favor, pos: Coordinate, course: RiverCourse) -> (usize, Favor) {
    if pos.spec_rectilinear_distance_to(course.points[stage as int]) > course.lengths[stage as int] {
        ((stage + 1) as usize, spec_favor_for(course.leanings[stage + 1] as int))
    } else {
        (stage, favor)
    }
}

/// Moves on to the next stretch, and says so, once `pos` lies further
/// from the start of the stretch than the stretch is long.
pub fn update_stage_favor(stage: &mut usize, favor: &mut Favor, pos: Coordinate, course: &RiverCourse) -> (moved: bool)
    requires
        *old(stage) < 2,
    ensures
        (*final(stage), *final(favor)) == spec_stage_after(*old(stage), *old(favor), pos, *course),
        moved == (*final(stage) != *old(stage)),
        *final(stage) <= 2,
{
    if taxicab(pos, course.points[*stage]) > course.lengths[*stage] {
        *stage += 1;
        *favor = favor_for(course.leanings[*stage]);
        true
    } else {
        false
    }
}

/// The flow of a tile of the river. Each axis rolled a die; on equal rolls
/// `tie` lets x win if it is `true`, y otherwise. The axis with the higher
/// roll gives the direction.
pub open spec fn spec_choose_flow(
    roll_x: i32,
    roll_y: i32,
    tie: bool,
    x_direction: Direction,
    y_direction: Direction,
) -> Direction {
    if roll_x > roll_y || (roll_x == roll_y && tie) {
        x_direction
    } else {
        y_direction
    }
}

pub fn choose_flow(roll_x: i32, roll_y: i32, tie: bool, x_direction: Direction, y_direction: Direction) -> (r:
    Direction)
    ensures
        r == spec_choose_flow(roll_x, roll_y, tie, x_direction, y_direction),
{
    if roll_x > roll_y || (roll_x == roll_y && tie) {
        x_direction
    } else {
        y_direction
    }
}

/// The flow of a tile that the fill comes to while it is in the stretch
/// `stage` of `course`: the rolls of the two axes choose between the
/// direction of that stretch along x and its direction along y.
pub open spec fn spec_step_flow(course: RiverCourse, stage: usize, roll_x: i32, roll_y: i32, tie: bool) -> Direction {
    spec_choose_flow(roll_x, roll_y, tie, course.x_directions[stage as int], course.y_directions[stage as int])
}

pub fn step_flow(course: &RiverCourse, stage: usize, roll_x: i32, roll_y: i32, tie: bool) -> (r: Direction)
    requires
        stage <= 2,
    ensures
        r == spec_step_flow(*course, stage, roll_x, roll_y, tie),
        course.stretch_gives(stage as int, r),
        course.gives(r),
{
    let r = choose_flow(roll_x, roll_y, tie, course.x_directions[stage], course.y_directions[stage]);
    assert(course.x_directions[stage as int] == r || course.y_directions[stage as int] == r);
    r
}

/// The stretch and the favour after the fill has spread from the tile at
/// `pos`. The fill moves on to the next stretch once `pos` lies further
/// from the start of the stretch than the stretch is long, and from there
/// once more if `pos` lies beyond that stretch too; the last stretch is
/// never left.
pub open spec fn spec_stage_advanced(stage: usize, favor: Favor, pos: Coordinate, course: RiverCourse) -> (usize, Favor) {
    if stage >= 2 {
        (stage, favor)
    } else {
        let first = spec_stage_after(stage, favor, pos, course);
        if first.0 != stage && first.0 < 2 {
            spec_stage_after(first.0, first.1, pos, course)
        } else {
            first
        }
    }
}

/// Moves the fill on by the stretches that the tile at `pos`, from which
/// it spreads, lies beyond.
pub fn advance_stage(stage: &mut usize, favor: &mut Favor, pos: Coordinate, course: &RiverCourse)
    requires
        *old(stage) <= 2,
    ensures
        (*final(stage), *final(favor)) == spec_stage_advanced(*old(stage), *old(favor), pos, *course),
        *old(stage) <= *final(stage) <= 2,
        course.stretch_of(pos) <= *final(stage),
        *old(stage) == 0 && *final(stage) >= 1 ==> course.beyond(pos, 0),
        *old(stage) < 2 && *final(stage) == 2 ==> course.beyond(pos, 1),
{
    if *stage < 2 {
        let moved = update_stage_favor(stage, favor, pos, course);
        if moved && *stage < 2 {
            update_stage_favor(stage, favor, pos, course);
        }
    }
}

/// Whether `b` is `a` or one of the eight cells around it.
pub open spec fn adjacent(a: Coordinate, b: Coordinate) -> bool {
    -1 <= b.x - a.x <= 1 && -1 <= b.y - a.y <= 1
}

/// Whether `p` waits in the queue of the fill.
pub open spec fn pending(queue: Seq<(i64, Coordinate)>, p: Coordinate) -> bool {
    exists|k: int| 0 <= k < queue.len() && (#[trigger] queue[k]).1 == p
}

/// A list without repeats of numbers from 0 up to, but not including,
/// `limit` is at most `limit` long.
pub proof fn lemma_distinct_numbers_bounded(numbers: Seq<int>, limit: int)
    requires
        0 <= limit,
        numbers.no_duplicates(),
        forall|i: int| 0 <= i < numbers.len() ==> 0 <= #[trigger] numbers[i] < limit,
    ensures
        numbers.len() <= limit,
{
    numbers.unique_seq_to_set();
    lemma_int_range(0, limit);
    assert(numbers.to_set().subset_of(set_int_range(0, limit))) by {
        assert forall|v: int| numbers.to_set().contains(v) implies set_int_range(0, limit).contains(v) by {
            let i = choose|i: int| 0 <= i < numbers.len() && numbers[i] == v;
            assert(0 <= numbers[i] < limit);
        }
    }
    lemma_len_subset(numbers.to_set(), set_int_range(0, limit));
}

/// Takes out of the queue the entry with the greatest priority, the
/// earliest of them where several have it, and gives it back with the
/// place it had.
fn pop_nearest(queue: &mut Vec<(i64, Coordinate)>) -> (r: (usize, i64, Coordinate))
    requires
        old(queue).len() > 0,
    ensures
        r.0 < old(queue).len(),
        (r.1, r.2) == old(queue)@[r.0 as int],
        final(queue)@ == old(queue)@.remove(r.0 as int),
        forall|k: int| 0 <= k < old(queue).len() ==> (#[trigger] old(queue)@[k]).0 <= r.1,
        forall|k: int| 0 <= k < r.0 ==> (#[trigger] old(queue)@[k]).0 < r.1,
{
    let mut best: usize = 0;
    let mut i: usize = 1;
    while i < queue.len()
        invariant
            queue@ == old(queue)@,
            0 <= best < i <= queue.len(),
            forall|k: int| 0 <= k < i ==> (#[trigger] queue@[k]).0 <= queue@[best as int].0,
            forall|k: int| 0 <= k < best ==> (#[trigger] queue@[k]).0 < queue@[best as int].0,
        decreases queue.len() - i,
    {
        if queue[i].0 > queue[best].0 {
            best = i;
        }
        i += 1;
    }
    let entry = queue.remove(best);
    (best, entry.0, entry.1)
}

impl WorldMap {
    /// Whether `p` is a tile of the map with water on it.
    pub open spec fn has_water_at(&self, p: Coordinate) -> bool {
        self.inside(p) && self.tile_at(p).water.is_some()
    }

    /// Whether `path` leads from `start` over tiles with water, each next
    /// to the one before.
    pub open spec fn is_river_path(&self, start: Coordinate, path: Seq<Coordinate>) -> bool {
        &&& path.len() > 0
        &&& path[0] == start
        &&& forall|k: int|
            0 < k < path.len() ==> adjacent(path[k - 1], #[trigger] path[k]) && self.has_water_at(path[k])
    }

    /// Whether the water connects `start` with `p`: `p` is `start`, or a
    /// tile with water that a path from `start` over tiles with water
    /// reaches.
    pub open spec fn river_reaches(&self, start: Coordinate, p: Coordinate) -> bool {
        exists|path: Seq<Coordinate>| #[trigger] self.is_river_path(start, path) && path.last() == p
    }

    /// Whether this map is `before` with, at most, other flows.
    pub open spec fn flow_only_differs(&self, before: &Self) -> bool {
        &&& self.same_frame(before)
        &&& self.same_heights(before)
        &&& self.same_cache(before)
        &&& self.same_changed(before)
        &&& self.same_contents(before)
        &&& forall|p: Coordinate|
            self.inside(p) ==> #[trigger] self.tile_at(p) == (Tile {
                flow: self.tile_at(p).flow,
                ..before.tile_at(p)
            })
    }

    /// A path that reaches `p` reaches the tiles with water next to `p`.
    pub proof fn lemma_path_extends(&self, start: Coordinate, p: Coordinate, q: Coordinate)
        requires
            self.river_reaches(start, p),
            adjacent(p, q),
            self.has_water_at(q),
        ensures
            self.river_reaches(start, q),
    {
        let path = choose|path: Seq<Coordinate>| #[trigger] self.is_river_path(start, path) && path.last() == p;
        let longer = path.push(q);
        assert(self.is_river_path(start, longer)) by {
            assert forall|k: int| 0 < k < longer.len() implies adjacent(longer[k - 1], #[trigger] longer[k])
                && self.has_water_at(longer[k]) by {
                if k < path.len() {
                    assert(longer[k] == path[k]);
                    assert(longer[k - 1] == path[k - 1]);
                }
            }
        }
        assert(longer.last() == q);
    }

    /// Every tile on a path from `start` lies in a set that holds `start`
    /// and, with a tile, the tiles with water next to it.
    pub proof fn lemma_path_stays_in(&self, start: Coordinate, path: Seq<Coordinate>, done: Set<Coordinate>, k: int)
        requires
            self.is_river_path(start, path),
            0 <= k < path.len(),
            done.contains(start),
            forall|d: Coordinate, q: Coordinate|
                done.contains(d) && adjacent(d, q) && self.has_water_at(q) ==> #[trigger] done.contains(q)
                    || !#[trigger] done.contains(d),
        ensures
            done.contains(path[k]),
        decreases k,
    {
        if k > 0 {
            self.lemma_path_stays_in(start, path, done, k - 1);
            assert(adjacent(path[k - 1], path[k]) && self.has_water_at(path[k]));
            assert(done.contains(path[k]) || !done.contains(path[k - 1]));
        }
    }

    /// What holds of the fill between two steps. `touched` marks the tiles
    /// that were ever put in the queue, `order` numbers them, and `done`
    /// holds the cells that were taken out of it.
    pub open spec fn fill_ok(
        &self,
        before: &Self,
        course: RiverCourse,
        start: Coordinate,
        queue: Seq<(i64, Coordinate)>,
        touched: &Array2D<bool>,
        order: Seq<int>,
        done: Set<Coordinate>,
    ) -> bool {
        &&& before.wf()
        &&& self.wf()
        &&& self.flow_only_differs(before)
        &&& touched.spec_rows() == self.spec_extent().width
        &&& touched.spec_columns() == self.spec_extent().height
        &&& order.no_duplicates()
        &&& forall|i: int|
            0 <= i < order.len() ==> 0 <= #[trigger] order[i] < self.spec_extent().width
                * self.spec_extent().height
        &&& forall|p: Coordinate|
            self.inside(p) ==> (#[trigger] touched.at_coordinate(p) <==> order.contains(
                place(p.x as int, p.y as int, self.spec_extent().height as int),
            ))
        &&& forall|p: Coordinate| self.inside(p) && #[trigger] touched.at_coordinate(p) ==> before.has_water_at(p)
        &&& forall|p: Coordinate| #[trigger] done.contains(p) ==> before.river_reaches(start, p)
        &&& forall|k: int| 0 <= k < queue.len() ==> before.river_reaches(start, (#[trigger] queue[k]).1)
        &&& forall|p: Coordinate|
            self.inside(p) && #[trigger] touched.at_coordinate(p) ==> done.contains(p) || pending(queue, p)
        &&& done.contains(start) || pending(queue, start)
        &&& forall|p: Coordinate| self.inside(p) && #[trigger] done.contains(p) ==> course.gives(self.tile_at(p).flow)
        &&& forall|p: Coordinate|
            self.inside(p) && !done.contains(p) ==> #[trigger] self.tile_at(p) == before.tile_at(p)
    }

    /// Whether the fill of the river of this map from `start` can come to
    /// the stretch `stretch` of `course`: it leaves the first stretch
    /// only when it spreads from a tile of the river that lies beyond it,
    /// and the second likewise.
    pub open spec fn fill_comes_to(&self, course: RiverCourse, start: Coordinate, stretch: int) -> bool {
        &&& 0 <= stretch <= 2
        &&& stretch >= 1 ==> exists|q: Coordinate| #[trigger] self.river_reaches(start, q) && course.beyond(q, 0)
        &&& stretch == 2 ==> exists|q: Coordinate| #[trigger] self.river_reaches(start, q) && course.beyond(q, 1)
    }

    /// Whether the tile at `p` flows in a direction of a stretch that the
    /// fill of the river of `before` can have been in when it came to
    /// `p`: a stretch it can come to at all, and none before the first
    /// one that it can be in when it comes to `p`.
    pub open spec fn flows_in_stretch(&self, before: &Self, course: RiverCourse, start: Coordinate, p: Coordinate) -> bool {
        exists|stretch: int|
            course.stretch_near(p) <= stretch && before.fill_comes_to(course, start, stretch)
                && #[trigger] course.stretch_gives(stretch, self.tile_at(p).flow)
    }

    /// Whether every tile of this map that the water of `before` connects
    /// with `start` flows in a direction of a stretch that the fill can
    /// have been in when it came to the tile.
    pub open spec fn flows_by_stretch(&self, before: &Self, course: RiverCourse, start: Coordinate) -> bool {
        forall|p: Coordinate|
            self.inside(p) && before.river_reaches(start, p) ==> #[trigger] self.flows_in_stretch(
                before,
                course,
                start,
                p,
            )
    }

    /// What holds of the stretch that the fill is in between two steps:
    /// the fill can have come to it, no tile in the queue lies in a later
    /// one, and every tile taken out of the queue flows by the stretch
    /// that the fill was in then.
    pub open spec fn stretch_ok(
        &self,
        before: &Self,
        course: RiverCourse,
        start: Coordinate,
        queue: Seq<(i64, Coordinate)>,
        done: Set<Coordinate>,
        stage: usize,
    ) -> bool {
        &&& before.fill_comes_to(course, start, stage as int)
        &&& forall|k: int| 0 <= k < queue.len() ==> course.stretch_near((#[trigger] queue[k]).1) <= stage
        &&& forall|p: Coordinate|
            self.inside(p) && #[trigger] done.contains(p) ==> self.flows_in_stretch(before, course, start, p)
    }

    /// A tile that flows by a stretch on one map does so on a map where
    /// it flows the same way.
    pub proof fn lemma_same_stretch(&self, other: &Self, before: &Self, course: RiverCourse, start: Coordinate, p: Coordinate)
        requires
            other.flows_in_stretch(before, course, start, p),
            self.tile_at(p).flow == other.tile_at(p).flow,
        ensures
            self.flows_in_stretch(before, course, start, p),
    {
        let stretch = choose|stretch: int|
            course.stretch_near(p) <= stretch && before.fill_comes_to(course, start, stretch)
                && #[trigger] course.stretch_gives(stretch, other.tile_at(p).flow);
        assert(course.stretch_gives(stretch, self.tile_at(p).flow));
    }

    /// Whether every tile with water next to a cell of `done` is marked
    /// in `touched`.
    pub open spec fn neighbours_touched(&self, touched: &Array2D<bool>, done: Set<Coordinate>) -> bool {
        forall|d: Coordinate, q: Coordinate|
            #![trigger done.contains(d), touched.at_coordinate(q)]
            done.contains(d) && adjacent(d, q) && self.has_water_at(q) ==> touched.at_coordinate(q)
    }

    /// Gives every tile of the river a flow. The fill starts at the first
    /// control point and spreads over the tiles with water, the nearest to
    /// the start first. Each tile it comes to rolls a die for each axis,
    /// the favoured axis of the stretch with a better die, and flows along
    /// the axis with the higher roll, in that stretch's direction. The
    /// fill is in the first stretch when it starts. With every tile that
    /// joins the queue it moves on by the stretches that the tile it
    /// spreads from lies beyond: so a tile more than two steps beyond a
    /// stretch flows by a later one, and none flows by a stretch that no
    /// tile of the river lies beyond the start of.
    #[verifier::rlimit(80)]
    #[verifier::spinoff_prover]
    pub fn set_river_flow<G: Generator>(&mut self, px: [i32; 4], py: [i32; 4], generator: &mut G)
        requires
            old(self).wf(),
        ensures
            final(self).wf(),
            final(self).flow_only_differs(old(self)),
            forall|p: Coordinate|
                final(self).inside(p) && old(self).river_reaches(Coordinate { x: px[0], y: py[0] }, p)
                    ==> is_cardinal(#[trigger] final(self).tile_at(p).flow),
            forall|p: Coordinate|
                final(self).inside(p) && !old(self).river_reaches(Coordinate { x: px[0], y: py[0] }, p)
                    ==> #[trigger] final(self).tile_at(p) == old(self).tile_at(p),
            exists|course: RiverCourse, x_ties: [bool; 3], y_ties: [bool; 3], reverse: bool|
                #![trigger course.laid(px, py, x_ties, y_ties, reverse)]
                course.laid(px, py, x_ties, y_ties, reverse) && ties_drawn(px, x_ties) && ties_drawn(
                    py,
                    y_ties,
                ) && final(self).flows_along(
                    old(self),
                    course,
                    Coordinate { x: px[0], y: py[0] },
                ) && final(self).flows_by_stretch(old(self), course, Coordinate { x: px[0], y: py[0] }),
    {
        let x_ties = draw_ties(&px, generator);
        let y_ties = draw_ties(&py, generator);
        let reverse = generator.generate_bool();
        let course = RiverCourse::plan(px, py, x_ties, y_ties, reverse);
        let start = course.points[0];
        assert(start == (Coordinate { x: px[0], y: py[0] }));

        let width = self.tile_map.rows();
        let height = self.tile_map.columns();
        let mut touched: Array2D<bool> = Array2D::new(width, height);
        let mut unfinished: Vec<(i64, Coordinate)> = Vec::new();
        unfinished.push((0, start));
        let mut favor = favor_for(course.leanings[0]);
        let mut stage: usize = 0;
        let ghost mut order: Seq<int> = Seq::empty();
        let ghost mut done: Set<Coordinate> = Set::empty();

        proof {
            assert(unfinished@[0].1 == start);
            assert(pending(unfinished@, start));
            assert(old(self).river_reaches(start, start)) by {
                let path = seq![start];
                assert(old(self).is_river_path(start, path));
                assert(path.last() == start);
            }
            assert(course.lengths[0] >= 0);
            assert(course.stretch_near(start) == 0);
            assert(self.stretch_ok(old(self), course, start, unfinished@, done, stage));
        }

        while unfinished.len() > 0
            invariant
                self.fill_ok(old(self), course, start, unfinished@, &touched, order, done),
                self.stretch_ok(old(self), course, start, unfinished@, done, stage),
                self.neighbours_touched(&touched, done),
                course.wf(),
                course.points[0] == start,
                stage <= 2,
                width == self.spec_extent().width,
                height == self.spec_extent().height,
            decreases self.spec_extent().width * self.spec_extent().height - order.len() + unfinished.len(),
        {
            proof {
                lemma_distinct_numbers_bounded(order, self.spec_extent().width * self.spec_extent().height);
            }
            let ghost queue_before = unfinished@;
            let ghost order_at_pop = order;
            let popped = pop_nearest(&mut unfinished);
            let current = popped.2;
            proof {
                let m = popped.0 as int;
                assert(queue_before[m].1 == current);
                assert forall|p: Coordinate| pending(queue_before, p) && p != current implies pending(
                    unfinished@,
                    p,
                ) by {
                    let k = choose|k: int| 0 <= k < queue_before.len() && (#[trigger] queue_before[k]).1 == p;
                    if k < m {
                        assert(unfinished@[k] == queue_before[k]);
                    } else {
                        assert(k > m);
                        assert(unfinished@[k - 1] == queue_before[k]);
                    }
                }
                assert forall|k: int| 0 <= k < unfinished@.len() implies old(self).river_reaches(
                    start,
                    (#[trigger] unfinished@[k]).1,
                ) by {
                    if k < m {
                        assert(unfinished@[k] == queue_before[k]);
                    } else {
                        assert(unfinished@[k] == queue_before[k + 1]);
                    }
                }
                assert forall|k: int| 0 <= k < unfinished@.len() implies course.stretch_near(
                    (#[trigger] unfinished@[k]).1,
                ) <= stage by {
                    if k < m {
                        assert(unfinished@[k] == queue_before[k]);
                    } else {
                        assert(unfinished@[k] == queue_before[k + 1]);
                    }
                }
                assert(course.stretch_near(current) <= stage);
            }

            let roll_x = generator.generate_integer_up_to(die_faces(favor == Favor::X));
            let roll_y = generator.generate_integer_up_to(die_faces(favor == Favor::Y));
            let tie = if roll_x == roll_y {
                generator.generate_bool()
            } else {
                false
            };
            let flow = step_flow(&course, stage, roll_x, roll_y, tie);

            let ghost map_before = *self;
            if self.is_inside(current) {
                self.tile_map.by_coordinate_mut(current).flow = flow;
                proof {
                    map_before.lemma_water_kept(&*self);
                    assert forall|p: Coordinate| self.inside(p) implies #[trigger] self.tile_at(p) == (Tile {
                        flow: self.tile_at(p).flow,
                        ..old(self).tile_at(p)
                    }) by {
                        if p != current {
                            assert(self.tile_at(p) == map_before.tile_at(p));
                        } else {
                            assert(map_before.tile_at(p) == (Tile {
                                flow: map_before.tile_at(p).flow,
                                ..old(self).tile_at(p)
                            }));
                        }
                    }
                }
            }
            let ghost done_before = done;
            proof {
                done = done.insert(current);
                assert forall|p: Coordinate| self.inside(p) && !done.contains(p) implies #[trigger] self.tile_at(
                    p,
                ) == old(self).tile_at(p) by {
                    assert(self.tile_at(p) == map_before.tile_at(p));
                }
                assert forall|p: Coordinate| self.inside(p) && #[trigger] done.contains(p) implies course.gives(
                    self.tile_at(p).flow,
                ) by {
                    if p != current {
                        assert(done_before.contains(p));
                        assert(self.tile_at(p) == map_before.tile_at(p));
                    }
                }
                assert forall|p: Coordinate| self.inside(p) && #[trigger] touched.at_coordinate(p) implies done.contains(
                    p,
                ) || pending(unfinished@, p) by {
                    if p != current {
                        assert(done_before.contains(p) || pending(queue_before, p));
                    }
                }
                assert(done.contains(start) || pending(unfinished@, start)) by {
                    if start != current {
                        assert(done_before.contains(start) || pending(queue_before, start));
                    }
                }
                assert(self.fill_ok(old(self), course, start, unfinished@, &touched, order, done));
                assert forall|p: Coordinate| self.inside(p) && #[trigger] done.contains(p) implies self.flows_in_stretch(
                    old(self),
                    course,
                    start,
                    p,
                ) by {
                    if p != current {
                        assert(done_before.contains(p));
                        assert(self.tile_at(p) == map_before.tile_at(p));
                        self.lemma_same_stretch(&map_before, old(self), course, start, p);
                    } else {
                        assert(course.stretch_gives(stage as int, self.tile_at(p).flow));
                    }
                }
                assert(self.stretch_ok(old(self), course, start, unfinished@, done, stage));
            }

            let mut k: usize = 0;
            while k < 9
                invariant
                    k <= 9,
                    self.fill_ok(old(self), course, start, unfinished@, &touched, order, done),
                    self.stretch_ok(old(self), course, start, unfinished@, done, stage),
                    self.neighbours_touched(&touched, done_before),
                    done == done_before.insert(current),
                    forall|q: Coordinate|
                        adjacent(current, q) && 3 * (q.y - current.y + 1) + (q.x - current.x + 1) < k
                            && old(self).has_water_at(q) ==> #[trigger] touched.at_coordinate(q),
                    course.wf(),
                    course.points[0] == start,
                    stage <= 2,
                    width == self.spec_extent().width,
                    height == self.spec_extent().height,
                    unfinished.len() + self.spec_extent().width * self.spec_extent().height - order.len()
                        == queue_before.len() - 1 + self.spec_extent().width * self.spec_extent().height
                        - order_at_pop.len(),
                decreases 9 - k,
            {
                let nx: i64 = current.x as i64 - 1 + (k % 3) as i64;
                let ny: i64 = current.y as i64 - 1 + (k / 3) as i64;
                if 0 <= nx && nx < width as i64 && 0 <= ny && ny < height as i64 {
                    let pos = Coordinate { x: nx as i32, y: ny as i32 };
                    if !*touched.by_coordinate(pos) && self.tile_map.by_coordinate(pos).has_water() {
                        let ghost touched_before = touched;
                        let ghost order_before = order;
                        let ghost queue_now = unfinished@;
                        touched.set(pos.x as usize, pos.y as usize, true);
                        unfinished.push((i32::MAX as i64 - taxicab(pos, start), pos));
                        proof {
                            let number = place(pos.x as int, pos.y as int, height as int);
                            order = order.push(number);
                            lemma_index_in_grid(pos.x as int, pos.y as int, width as int, height as int);
                            assert(!order_before.contains(number));
                            assert(order.no_duplicates()) by {
                                assert forall|i: int, j: int|
                                    0 <= i < order.len() && 0 <= j < order.len() && i != j implies order[i]
                                    != order[j] by {
                                    if i < order_before.len() && j < order_before.len() {
                                        assert(order[i] == order_before[i]);
                                        assert(order[j] == order_before[j]);
                                    } else if i < order_before.len() {
                                        assert(order[i] == order_before[i]);
                                        assert(order_before.contains(order_before[i]));
                                    } else {
                                        assert(order[j] == order_before[j]);
                                        assert(order_before.contains(order_before[j]));
                                    }
                                }
                            }
                            assert forall|i: int| 0 <= i < order.len() implies 0 <= #[trigger] order[i]
                                < self.spec_extent().width * self.spec_extent().height by {
                                if i < order_before.len() {
                                    assert(order[i] == order_before[i]);
                                }
                            }
                            assert forall|p: Coordinate| self.inside(p) implies (#[trigger] touched.at_coordinate(p)
                                <==> order.contains(place(p.x as int, p.y as int, height as int))) by {
                                let n = place(p.x as int, p.y as int, height as int);
                                if p == pos {
                                    assert(order[order_before.len() as int] == n);
                                } else {
                                    assert(touched.at_coordinate(p) == touched_before.at_coordinate(p));
                                    if n == number {
                                        lemma_index_injective(
                                            p.x as int,
                                            p.y as int,
                                            pos.x as int,
                                            pos.y as int,
                                            height as int,
                                        );
                                    }
                                    if order_before.contains(n) {
                                        let i = choose|i: int| 0 <= i < order_before.len() && order_before[i] == n;
                                        assert(order[i] == n);
                                    }
                                    if order.contains(n) {
                                        let i = choose|i: int| 0 <= i < order.len() && order[i] == n;
                                        assert(i < order_before.len());
                                        assert(order_before[i] == n);
                                    }
                                }
                            }
                            assert(self.tile_at(pos).water == old(self).tile_at(pos).water);
                            assert(old(self).has_water_at(pos));
                            assert forall|p: Coordinate|
                                self.inside(p) && #[trigger] touched.at_coordinate(p) implies old(
                                self,
                            ).has_water_at(p) by {
                                if p != pos {
                                    assert(touched_before.at_coordinate(p));
                                }
                            }
                            assert(done.contains(current));
                            assert(old(self).river_reaches(start, current));
                            old(self).lemma_path_extends(start, current, pos);
                            assert forall|j: int| 0 <= j < unfinished@.len() implies old(self).river_reaches(
                                start,
                                (#[trigger] unfinished@[j]).1,
                            ) by {
                                if j < queue_now.len() {
                                    assert(unfinished@[j] == queue_now[j]);
                                }
                            }
                            assert forall|p: Coordinate| pending(queue_now, p) implies pending(unfinished@, p) by {
                                let j = choose|j: int| 0 <= j < queue_now.len() && (#[trigger] queue_now[j]).1 == p;
                                assert(unfinished@[j] == queue_now[j]);
                            }
                            assert(pending(unfinished@, pos)) by {
                                assert(unfinished@[queue_now.len() as int].1 == pos);
                            }
                            assert forall|p: Coordinate|
                                self.inside(p) && #[trigger] touched.at_coordinate(p) implies done.contains(p)
                                || pending(unfinished@, p) by {
                                if p != pos {
                                    assert(touched_before.at_coordinate(p));
                                    assert(done.contains(p) || pending(queue_now, p));
                                }
                            }
                            assert(done.contains(start) || pending(unfinished@, start)) by {
                                if !done.contains(start) {
                                    assert(pending(queue_now, start));
                                }
                            }
                            assert(self.neighbours_touched(&touched, done_before)) by {
                                assert forall|d: Coordinate, q: Coordinate|
                                    #![trigger done_before.contains(d), touched.at_coordinate(q)]
                                    done_before.contains(d) && adjacent(d, q) && self.has_water_at(
                                        q,
                                    ) implies touched.at_coordinate(q) by {
                                    if q != pos {
                                        assert(touched_before.at_coordinate(q));
                                    }
                                }
                            }
                            assert forall|q: Coordinate|
                                adjacent(current, q) && 3 * (q.y - current.y + 1) + (q.x - current.x + 1) < k + 1
                                    && old(self).has_water_at(q) implies #[trigger] touched.at_coordinate(q) by {
                                if q != pos {
                                    assert(3 * (q.y - current.y + 1) + (q.x - current.x + 1) < k);
                                    assert(touched_before.at_coordinate(q));
                                }
                            }
                        }

                        let ghost stage_before = stage;
                        advance_stage(&mut stage, &mut favor, current, &course);
                        proof {
                            assert(old(self).river_reaches(start, current));
                            assert(old(self).fill_comes_to(course, start, stage_before as int));
                            assert(old(self).fill_comes_to(course, start, stage as int));
                            course.lemma_stretch_near(current, pos);
                            assert forall|j: int| 0 <= j < unfinished@.len() implies course.stretch_near(
                                (#[trigger] unfinished@[j]).1,
                            ) <= stage by {
                                if j < queue_now.len() {
                                    assert(unfinished@[j] == queue_now[j]);
                                    assert(course.stretch_near(queue_now[j].1) <= stage_before);
                                } else {
                                    assert(unfinished@[j].1 == pos);
                                }
                            }
                            assert(self.stretch_ok(old(self), course, start, unfinished@, done, stage));
                        }
                    } else {
                        proof {
                            assert(self.tile_at(pos).water == old(self).tile_at(pos).water);
                            assert forall|q: Coordinate|
                                adjacent(current, q) && 3 * (q.y - current.y + 1) + (q.x - current.x + 1) < k + 1
                                    && old(self).has_water_at(q) implies #[trigger] touched.at_coordinate(q) by {
                                if q != pos {
                                    assert(3 * (q.y - current.y + 1) + (q.x - current.x + 1) < k);
                                }
                            }
                        }
                    }
                } else {
                    proof {
                        assert forall|q: Coordinate|
                            adjacent(current, q) && 3 * (q.y - current.y + 1) + (q.x - current.x + 1) < k + 1
                                && old(self).has_water_at(q) implies #[trigger] touched.at_coordinate(q) by {
                            if 3 * (q.y - current.y + 1) + (q.x - current.x + 1) == k {
                                assert(q.x == nx && q.y == ny);
                            }
                        }
                    }
                }
                k += 1;
            }
            proof {
                assert(self.neighbours_touched(&touched, done)) by {
                    assert forall|d: Coordinate, q: Coordinate|
                        #![trigger done.contains(d), touched.at_coordinate(q)]
                        done.contains(d) && adjacent(d, q) && self.has_water_at(q) implies touched.at_coordinate(
                        q,
                    ) by {
                        assert(self.tile_at(q).water == old(self).tile_at(q).water);
                        if d == current {
                            assert(3 * (q.y - current.y + 1) + (q.x - current.x + 1) < 9);
                        } else {
                            assert(done_before.contains(d));
                        }
                    }
                }
            }
        }

        proof {
            assert forall|p: Coordinate|
                self.inside(p) && old(self).river_reaches(start, p) implies course.gives(
                #[trigger] self.tile_at(p).flow,
            ) by {
                let path = choose|path: Seq<Coordinate>| #[trigger]
                    old(self).is_river_path(start, path) && path.last() == p;
                assert(!pending(unfinished@, start));
                assert forall|d: Coordinate, q: Coordinate|
                    done.contains(d) && adjacent(d, q) && old(self).has_water_at(q) implies #[trigger] done.contains(
                    q,
                ) || !#[trigger] done.contains(d) by {
                    assert(self.tile_at(q).water == old(self).tile_at(q).water);
                    assert(touched.at_coordinate(q));
                    assert(!pending(unfinished@, q));
                }
                old(self).lemma_path_stays_in(start, path, done, path.len() - 1);
            }
            assert forall|p: Coordinate|
                self.inside(p) && old(self).river_reaches(start, p) implies is_cardinal(
                #[trigger] self.tile_at(p).flow,
            ) by {
                course.lemma_gives_cardinal(self.tile_at(p).flow);
            }
            assert(self.flows_along(old(self), course, start));
            assert forall|p: Coordinate|
                self.inside(p) && old(self).river_reaches(start, p) implies #[trigger] self.flows_in_stretch(
                old(self),
                course,
                start,
                p,
            ) by {
                let path = choose|path: Seq<Coordinate>| #[trigger]
                    old(self).is_river_path(start, path) && path.last() == p;
                assert(!pending(unfinished@, start));
                assert forall|d: Coordinate, q: Coordinate|
                    done.contains(d) && adjacent(d, q) && old(self).has_water_at(q) implies #[trigger] done.contains(
                    q,
                ) || !#[trigger] done.contains(d) by {
                    assert(self.tile_at(q).water == old(self).tile_at(q).water);
                    assert(touched.at_coordinate(q));
                    assert(!pending(unfinished@, q));
                }
                old(self).lemma_path_stays_in(start, path, done, path.len() - 1);
            }
            assert(self.flows_by_stretch(old(self), course, start));
            assert(course.laid(px, py, x_ties, y_ties, reverse));
        }
    }

    /// Whether every tile of this map that the water of `before` connects
    /// with `start` flows in a direction of `course`.
    pub open spec fn flows_along(&self, before: &Self, course: RiverCourse, start: Coordinate) -> bool {
        forall|p: Coordinate|
            self.inside(p) && before.river_reaches(start, p) ==> course.gives(#[trigger] self.tile_at(p).flow)
    }
}

impl WorldMap {
    /// The cell that a scan for the lowest ground around `p` has found
    /// after `scanned` of the nine cells: the scan goes row by row from
    /// the north-west and moves on to a cell only where the ground there
    /// is lower than at the cell it holds, so of equally low cells the
    /// first stays.
    pub open spec fn lowest_after(&self, p: Coordinate, scanned: int) -> Coordinate
        decreases scanned,
    {
        if scanned <= 0 {
            p
        } else {
            let found = self.lowest_after(p, scanned - 1);
            let cell = Coordinate {
                x: (p.x - 1 + (scanned - 1) % 3) as i32,
                y: (p.y - 1 + (scanned - 1) / 3) as i32,
            };
            if self.inside(cell) && self.height_at(cell) < self.height_at(found) {
                cell
            } else {
                found
            }
        }
    }

    /// The cell with the lowest ground among `p` and the cells around it;
    /// `p` itself where none lies lower.
    pub open spec fn lowest_neighbour(&self, p: Coordinate) -> Coordinate {
        self.lowest_after(p, 9)
    }

    /// What the scan has found lies on the map, next to `p`, and no higher
    /// than any cell scanned; it is `p` unless it lies lower than `p`.
    pub proof fn lemma_lowest_after(&self, p: Coordinate, scanned: int)
        requires
            self.inside(p),
            0 <= scanned <= 9,
        ensures
            self.inside(self.lowest_after(p, scanned)),
            adjacent(p, self.lowest_after(p, scanned)),
            self.height_at(self.lowest_after(p, scanned)) <= self.height_at(p),
            self.lowest_after(p, scanned) != p ==> self.height_at(self.lowest_after(p, scanned))
                < self.height_at(p),
            forall|q: Coordinate|
                adjacent(p, q) && self.inside(q) && 3 * (q.y - p.y + 1) + (q.x - p.x + 1) < scanned
                    ==> self.height_at(self.lowest_after(p, scanned)) <= #[trigger] self.height_at(q),
        decreases scanned,
    {
        if scanned > 0 {
            self.lemma_lowest_after(p, scanned - 1);
            let found = self.lowest_after(p, scanned - 1);
            let cell = Coordinate {
                x: (p.x - 1 + (scanned - 1) % 3) as i32,
                y: (p.y - 1 + (scanned - 1) / 3) as i32,
            };
            assert forall|q: Coordinate|
                adjacent(p, q) && self.inside(q) && 3 * (q.y - p.y + 1) + (q.x - p.x + 1) < scanned implies self.height_at(
                self.lowest_after(p, scanned),
            ) <= #[trigger] self.height_at(q) by {
                if 3 * (q.y - p.y + 1) + (q.x - p.x + 1) == scanned - 1 {
                    assert(q == cell);
                }
            }
        }
    }

    /// The lowest neighbour of `p` lies on the map, next to `p`, and no
    /// higher than `p` or any cell around it; it is `p` exactly where no
    /// cell around `p` lies lower than `p`.
    pub proof fn lemma_lowest_neighbour(&self, p: Coordinate)
        requires
            self.inside(p),
        ensures
            self.inside(self.lowest_neighbour(p)),
            adjacent(p, self.lowest_neighbour(p)),
            forall|q: Coordinate|
                adjacent(p, q) && self.inside(q) ==> self.height_at(self.lowest_neighbour(p))
                    <= #[trigger] self.height_at(q),
            self.lowest_neighbour(p) == p <==> (forall|q: Coordinate|
                adjacent(p, q) && self.inside(q) ==> self.height_at(p) <= #[trigger] self.height_at(q)),
    {
        self.lemma_lowest_after(p, 9);
        let lowest = self.lowest_neighbour(p);
        assert forall|q: Coordinate| adjacent(p, q) && self.inside(q) implies self.height_at(lowest)
            <= #[trigger] self.height_at(q) by {
            assert(3 * (q.y - p.y + 1) + (q.x - p.x + 1) < 9);
        }
        if lowest != p {
            assert(self.height_at(lowest) < self.height_at(p));
        }
    }

    /// Whether `flow` may be the flow that the ground gives the tile at
    /// `p`: towards the lowest ground around it; on level ground towards
    /// some water of the map; and nowhere where there is neither slope nor
    /// water.
    pub open spec fn is_ground_flow(&self, p: Coordinate, flow: Direction) -> bool {
        let lowest = self.lowest_neighbour(p);
        if lowest != p {
            flow == p.spec_direction_to(lowest)
        } else if self.water_nodes().len() == 0 {
            flow == Direction::NoDirection
        } else {
            exists|i: int|
                0 <= i < self.water_nodes().len() && flow == p.spec_direction_to(
                    (#[trigger] self.water_nodes()[i]).spec_position(),
                )
        }
    }

    /// No more water is listed than the map has tiles.
    pub proof fn lemma_water_count_bounded(&self)
        requires
            self.wf(),
        ensures
            self.water_nodes().len() <= self.spec_extent().width * self.spec_extent().height,
            self.water_nodes().len() <= i32::MAX,
    {
        let height = self.spec_extent().height as int;
        let width = self.spec_extent().width as int;
        let nodes = self.water_nodes();
        let numbers = Seq::new(
            nodes.len(),
            |i: int| place(nodes[i].spec_position().x as int, nodes[i].spec_position().y as int, height),
        );
        assert forall|i: int, j: int| 0 <= i < numbers.len() && 0 <= j < numbers.len() && i != j implies numbers[i]
            != numbers[j] by {
            let a = nodes[i].spec_position();
            let b = nodes[j].spec_position();
            if numbers[i] == numbers[j] {
                lemma_index_injective(a.x as int, a.y as int, b.x as int, b.y as int, height);
                assert(a == b);
                assert(self.tile_at(a).water.unwrap() == i);
                assert(self.tile_at(b).water.unwrap() == j);
            }
        }
        assert forall|i: int| 0 <= i < numbers.len() implies 0 <= #[trigger] numbers[i] < width * height by {
            let a = nodes[i].spec_position();
            assert(self.inside(a));
            lemma_index_in_grid(a.x as int, a.y as int, width, height);
        }
        self.lemma_area_fits();
        lemma_distinct_numbers_bounded(numbers, width * height);
    }

    /// Gives every tile that has no flow yet the flow of the ground: the
    /// direction of the lowest ground around it. Where the ground around a
    /// tile is level, the tile flows towards some water of the map, drawn
    /// by chance; where there is no water either, it keeps no flow.
    pub fn set_ground_flow<G: Generator>(&mut self, generator: &mut G)
        requires
            old(self).wf(),
        ensures
            final(self).wf(),
            final(self).flow_only_differs(old(self)),
            forall|p: Coordinate|
                final(self).inside(p) && old(self).tile_at(p).flow != Direction::NoDirection
                    ==> #[trigger] final(self).tile_at(p) == old(self).tile_at(p),
            forall|p: Coordinate|
                final(self).inside(p) && old(self).tile_at(p).flow == Direction::NoDirection ==> old(
                    self,
                ).is_ground_flow(p, #[trigger] final(self).tile_at(p).flow),
    {
        let width = self.extent.width;
        let height = self.extent.height;
        let mut y: i32 = 0;
        while y < height
            invariant
                0 <= y <= height,
                old(self).wf(),
                self.wf(),
                self.flow_only_differs(old(self)),
                width == self.spec_extent().width,
                height == self.spec_extent().height,
                forall|p: Coordinate|
                    self.inside(p) && (p.y >= y || old(self).tile_at(p).flow != Direction::NoDirection)
                        ==> #[trigger] self.tile_at(p) == old(self).tile_at(p),
                forall|p: Coordinate|
                    self.inside(p) && p.y < y && old(self).tile_at(p).flow == Direction::NoDirection ==> old(
                        self,
                    ).is_ground_flow(p, #[trigger] self.tile_at(p).flow),
            decreases height - y,
        {
            let mut x: i32 = 0;
            while x < width
                invariant
                    0 <= y < height,
                    0 <= x <= width,
                    old(self).wf(),
                    self.wf(),
                    self.flow_only_differs(old(self)),
                    width == self.spec_extent().width,
                    height == self.spec_extent().height,
                    forall|p: Coordinate|
                        self.inside(p) && (p.y > y || (p.y == y && p.x >= x) || old(self).tile_at(p).flow
                            != Direction::NoDirection) ==> #[trigger] self.tile_at(p) == old(self).tile_at(p),
                    forall|p: Coordinate|
                        self.inside(p) && (p.y < y || (p.y == y && p.x < x)) && old(self).tile_at(p).flow
                            == Direction::NoDirection ==> old(self).is_ground_flow(
                            p,
                            #[trigger] self.tile_at(p).flow,
                        ),
                decreases width - x,
            {
                let pos = Coordinate { x, y };
                assert(self.tile_at(pos) == old(self).tile_at(pos));
                if self.tile_map.by_coordinate(pos).flow == Direction::NoDirection {
                    let lowest = self.find_lowest(pos);
                    proof {
                        self.lemma_same_lowest(old(self), pos, 9);
                    }
                    let mut flow = pos.direction_to(lowest);
                    if flow == Direction::NoDirection && self.water_list.len() > 0 {
                        proof {
                            self.lemma_water_count_bounded();
                        }
                        let random_water = generator.select_by_ref(self.water_list.as_slice());
                        flow = pos.direction_to(random_water.position());
                        proof {
                            let i = choose|i: int|
                                0 <= i < self.water_list@.len() && self.water_list@[i] == *random_water;
                            assert(old(self).water_nodes()[i] == *random_water);
                        }
                    }
                    let ghost map_before = *self;
                    self.tile_map.by_coordinate_mut(pos).flow = flow;
                    proof {
                        map_before.lemma_water_kept(&*self);
                        assert(old(self).is_ground_flow(pos, flow));
                        assert forall|p: Coordinate| self.inside(p) implies #[trigger] self.tile_at(p) == (Tile {
                            flow: self.tile_at(p).flow,
                            ..old(self).tile_at(p)
                        }) by {
                            if p != pos {
                                assert(self.tile_at(p) == map_before.tile_at(p));
                            }
                        }
                        assert forall|p: Coordinate|
                            self.inside(p) && (p.y > y || (p.y == y && p.x >= x + 1) || old(self).tile_at(p).flow
                                != Direction::NoDirection) implies #[trigger] self.tile_at(p) == old(self).tile_at(
                            p,
                        ) by {
                            assert(self.tile_at(p) == map_before.tile_at(p));
                        }
                        assert forall|p: Coordinate|
                            self.inside(p) && (p.y < y || (p.y == y && p.x < x + 1)) && old(self).tile_at(p).flow
                                == Direction::NoDirection implies old(self).is_ground_flow(
                            p,
                            #[trigger] self.tile_at(p).flow,
                        ) by {
                            if p != pos {
                                assert(self.tile_at(p) == map_before.tile_at(p));
                            }
                        }
                    }
                }
                x += 1;
            }
            y += 1;
        }
    }

    /// Scans the ground around `p` for the lowest cell.
    fn find_lowest(&self, p: Coordinate) -> (lowest: Coordinate)
        requires
            self.wf(),
            self.inside(p),
        ensures
            lowest == self.lowest_neighbour(p),
            self.inside(lowest),
    {
        let mut lowest = p;
        let mut k: i32 = 0;
        while k < 9
            invariant
                0 <= k <= 9,
                self.wf(),
                self.inside(p),
                self.inside(lowest),
                lowest == self.lowest_after(p, k as int),
            decreases 9 - k,
        {
            let candidate = Coordinate { x: p.x - 1 + k % 3, y: p.y - 1 + k / 3 };
            if self.is_inside(candidate) && self.height_map.get_value(candidate.x, candidate.y)
                < self.height_map.get_value(lowest.x, lowest.y) {
                lowest = candidate;
            }
            k += 1;
        }
        lowest
    }

    /// Whether this map is `before` with its flows calculated for the
    /// river through the given control points. Nothing but flows differs.
    /// Every tile that the water of `before` connects with the first
    /// control point flows north, east, south or west, in a direction of
    /// one course laid through the control points. Of the other tiles,
    /// one that had a flow is as it was, and one that had none flows as
    /// the ground around it says. A tile is left without flow only if the
    /// map has no water at all, or if water stands on the tile itself.
    pub open spec fn flow_calculated(&self, before: &Self, px: [i32; 4], py: [i32; 4]) -> bool {
        let start = Coordinate { x: px[0], y: py[0] };
        &&& self.flow_only_differs(before)
        &&& forall|p: Coordinate|
            self.inside(p) && before.river_reaches(start, p) ==> is_cardinal(#[trigger] self.tile_at(p).flow)
        &&& exists|course: RiverCourse, x_ties: [bool; 3], y_ties: [bool; 3], reverse: bool|
            #![trigger course.laid(px, py, x_ties, y_ties, reverse)]
            course.laid(px, py, x_ties, y_ties, reverse) && ties_drawn(px, x_ties) && ties_drawn(py, y_ties)
                && self.flows_along(before, course, start) && self.flows_by_stretch(before, course, start)
        &&& forall|p: Coordinate|
            self.inside(p) && !before.river_reaches(start, p) && before.tile_at(p).flow != Direction::NoDirection
                ==> #[trigger] self.tile_at(p) == before.tile_at(p)
        &&& forall|p: Coordinate|
            self.inside(p) && !before.river_reaches(start, p) && before.tile_at(p).flow == Direction::NoDirection
                ==> before.is_ground_flow(p, #[trigger] self.tile_at(p).flow)
        &&& forall|p: Coordinate|
            self.inside(p) && (#[trigger] self.tile_at(p)).flow == Direction::NoDirection
                ==> self.water_nodes().len() == 0 || self.tile_at(p).water.is_some()
    }

    /// Gives every tile a flow: first the tiles of the river that runs
    /// through the given control points, then all that have none yet.
    /// After it a tile is without flow only if the map has no water at
    /// all, or if water stands on the tile itself that the river does not
    /// reach.
    pub fn calculate_flow<G: Generator>(&mut self, px: [i32; 4], py: [i32; 4], generator: &mut G)
        requires
            old(self).wf(),
        ensures
            final(self).wf(),
            final(self).flow_calculated(old(self), px, py),
    {
        self.set_river_flow(px, py, generator);
        let ghost with_river = *self;
        let ghost (course, x_ties, y_ties, reverse) = choose|
            course: RiverCourse,
            x_ties: [bool; 3],
            y_ties: [bool; 3],
            reverse: bool,
        |
            #![trigger course.laid(px, py, x_ties, y_ties, reverse)]
            course.laid(px, py, x_ties, y_ties, reverse) && ties_drawn(px, x_ties) && ties_drawn(py, y_ties)
                && with_river.flows_along(old(self), course, Coordinate { x: px[0], y: py[0] })
                && with_river.flows_by_stretch(old(self), course, Coordinate { x: px[0], y: py[0] });
        self.set_ground_flow(generator);
        proof {
            let start = Coordinate { x: px[0], y: py[0] };
            assert(self.flows_along(old(self), course, start)) by {
                assert forall|p: Coordinate| self.inside(p) && old(self).river_reaches(start, p) implies course.gives(
                    #[trigger] self.tile_at(p).flow,
                ) by {
                    assert(course.gives(with_river.tile_at(p).flow));
                    assert(is_cardinal(with_river.tile_at(p).flow));
                    assert(self.tile_at(p) == with_river.tile_at(p));
                }
            }
            assert(self.flows_by_stretch(old(self), course, start)) by {
                assert forall|p: Coordinate|
                    self.inside(p) && old(self).river_reaches(start, p) implies #[trigger] self.flows_in_stretch(
                    old(self),
                    course,
                    start,
                    p,
                ) by {
                    assert(with_river.flows_in_stretch(old(self), course, start, p));
                    assert(is_cardinal(with_river.tile_at(p).flow));
                    assert(self.tile_at(p) == with_river.tile_at(p));
                    self.lemma_same_stretch(&with_river, old(self), course, start, p);
                }
            }
            assert(course.laid(px, py, x_ties, y_ties, reverse));
            assert forall|p: Coordinate| self.inside(p) implies #[trigger] self.tile_at(p) == (Tile {
                flow: self.tile_at(p).flow,
                ..old(self).tile_at(p)
            }) by {
                assert(with_river.tile_at(p) == (Tile { flow: with_river.tile_at(p).flow, ..old(self).tile_at(p) }));
            }
            assert forall|p: Coordinate| self.inside(p) && old(self).river_reaches(start, p) implies is_cardinal(
                #[trigger] self.tile_at(p).flow,
            ) by {
                assert(is_cardinal(with_river.tile_at(p).flow));
                assert(self.tile_at(p) == with_river.tile_at(p));
            }
            assert forall|p: Coordinate|
                self.inside(p) && !old(self).river_reaches(start, p) && old(self).tile_at(p).flow
                    != Direction::NoDirection implies #[trigger] self.tile_at(p) == old(self).tile_at(p) by {
                assert(with_river.tile_at(p) == old(self).tile_at(p));
                assert(self.tile_at(p) == with_river.tile_at(p));
            }
            assert forall|p: Coordinate|
                self.inside(p) && !old(self).river_reaches(start, p) && old(self).tile_at(p).flow
                    == Direction::NoDirection implies old(self).is_ground_flow(p, #[trigger] self.tile_at(p).flow) by {
                assert(with_river.tile_at(p) == old(self).tile_at(p));
                assert(with_river.is_ground_flow(p, self.tile_at(p).flow));
                with_river.lemma_same_ground_flow(old(self), p, self.tile_at(p).flow);
            }
            assert forall|p: Coordinate|
                self.inside(p) && (#[trigger] self.tile_at(p)).flow == Direction::NoDirection implies self.water_nodes().len()
                == 0 || self.tile_at(p).water.is_some() by {
                if with_river.tile_at(p).flow != Direction::NoDirection {
                    assert(self.tile_at(p) == with_river.tile_at(p));
                } else {
                    assert(with_river.is_ground_flow(p, self.tile_at(p).flow));
                    let lowest = with_river.lowest_neighbour(p);
                    if lowest != p {
                        with_river.lemma_lowest_neighbour(p);
                    } else if with_river.water_nodes().len() > 0 {
                        let i = choose|i: int|
                            0 <= i < with_river.water_nodes().len() && self.tile_at(p).flow == p.spec_direction_to(
                                (#[trigger] with_river.water_nodes()[i]).spec_position(),
                            );
                        let at = with_river.water_nodes()[i].spec_position();
                        assert(at == p);
                        assert(with_river.tile_at(at).water.is_some());
                        assert(self.tile_at(p) == (Tile { flow: self.tile_at(p).flow, ..with_river.tile_at(p) }));
                    }
                }
            }
        }
    }

    /// The flow of the ground depends on the ground and on where the water
    /// is, not on the flows.
    pub proof fn lemma_same_ground_flow(&self, other: &Self, p: Coordinate, flow: Direction)
        requires
            self.same_frame(other),
            self.same_heights(other),
            self.water_nodes() == other.water_nodes(),
            self.is_ground_flow(p, flow),
        ensures
            other.is_ground_flow(p, flow),
    {
        self.lemma_same_lowest(other, p, 9);
    }

    /// The scan for the lowest ground depends on the ground alone.
    pub proof fn lemma_same_lowest(&self, other: &Self, p: Coordinate, scanned: int)
        requires
            self.same_frame(other),
            self.same_heights(other),
        ensures
            self.lowest_after(p, scanned) == other.lowest_after(p, scanned),
        decreases scanned,
    {
        if scanned > 0 {
            self.lemma_same_lowest(other, p, scanned - 1);
        }
    }

    /// The cells of the map are no more than an `i32` counts.
    pub proof fn lemma_area_fits(&self)
        requires
            self.wf(),
        ensures
            self.spec_extent().width * self.spec_extent().height <= i32::MAX,
            self.spec_extent().width > 0,
            self.spec_extent().height > 0,
    {
    }
}

/// Whether `ties` are draws for the four `values`: a pair of neighbours
/// that does not tie has none, which reads as `false`.
pub open spec fn ties_drawn(values: [i32; 4], ties: [bool; 3]) -> bool {
    forall|i: int| 0 <= i < 3 && values[i] != values[i + 1] ==> !#[trigger] ties[i]
}

/// Draws, for each pair of neighbours among the four values, what decides
/// a tie. Nothing is drawn for a pair that does not tie.
fn draw_ties<G: Generator>(values: &[i32; 4], generator: &mut G) -> (ties: [bool; 3])
    ensures
        ties_drawn(*values, ties),
{
    let t0 = if values[0] == values[1] {
        generator.generate_bool()
    } else {
        false
    };
    let t1 = if values[1] == values[2] {
        generator.generate_bool()
    } else {
        false
    };
    let t2 = if values[2] == values[3] {
        generator.generate_bool()
    } else {
        false
    };
    [t0, t1, t2]
}

} // verus!
