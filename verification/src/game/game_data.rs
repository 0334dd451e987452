//! The world of a game, and the stages in which its map is made.

pub mod camera;
pub mod construction;
pub mod filth_node;
pub mod height_field;
pub mod map;
pub mod water_node;

use vstd::prelude::*;
use crate::coordinate::Coordinate;
use crate::data::base::Size;
use crate::data::random::Generator;
use crate::data::settings::Settings;
use crate::game::game_data::map::tile::{Tile, TileType};
use crate::game::game_data::map::WorldMap;
use crate::game::game_data::water_node::RIVER_DEPTH;

verus! {

/// How far the search for low ground goes from a site, in cells.
pub const RIVER_SEARCH_RADIUS: i32 = 70;

/// How far from low ground a hill has to stand.
pub const HILL_RIVER_CLEARANCE: i32 = 35;

/// How far from low ground the bog has to lie.
pub const BOG_RIVER_CLEARANCE: i32 = 30;

/// How often a site is drawn before a stage gives up.
pub const MAX_ATTEMPTS: u32 = 1000;

/// The least straight distance between the two ends of a river.
pub const MIN_RIVER_SPAN: u128 = 100;

/// How far the inner control points of a river keep from the edge of a
/// map that is large enough for that.
pub const RIVER_MARGIN: i32 = 10;

/// The height, in thousandths of a level, from which ground is rock.
pub const ROCK_LEVEL: i32 = 4500;

/// One hill to raise: its centre, how far it reaches, and how high it
/// stands.
#[derive(Copy, Clone, Debug, PartialEq, Eq, Structural)]
pub struct Hill {
    pub x: i32,
    pub y: i32,
    pub radius: i32,
    pub height: i32,
}

/// How the ground is smoothed once the hills stand: rain that wears the
/// slopes down, then a kernel that evens neighbours out. Fractions are in
/// thousandths.
#[derive(Copy, Clone, Debug)]
pub struct Smoothing {
    pub rain_drops: i64,
    pub erosion: i32,
    pub sedimentation: i32,
    pub kernel_dx: [i32; 3],
    pub kernel_dy: [i32; 3],
    pub kernel_weight: [i32; 3],
    pub min_level: i32,
    pub max_level: i32,
}

/// What has to be done to the ground before the next stage runs. The
/// shaping of ground is not part of this crate: whoever drives the stages
/// does this work with routines of its own and writes the heights back
/// into the map.
#[derive(Clone, Debug)]
pub enum TerrainWork {
    /// Nothing.
    Nothing,
    /// Level the ground.
    Clear,
    /// Dig a river bed along the curve through the four control points.
    DigRiver { px: [i32; 4], py: [i32; 4], width: u32, depth: u32 },
    /// Raise the hills.
    RaiseHills { hills: Vec<Hill> },
    /// Smooth the ground.
    Smooth { smoothing: Smoothing },
}

/// A stage of making the map. The stages run in the order in which they
/// are listed, one for each call.
#[derive(Copy, Clone, Debug, PartialEq, Eq, Structural)]
pub enum MapGenerationStage {
    HeightMapClear,
    GenerateRiver,
    GenerateHills,
    GenerateSmoothing,
    GenerateTiles,
    Naturify,
    GenerateBog,
    RandomizeWind,
    CalculateFlow,
    UpdateCache,
    Done,
}

impl MapGenerationStage {
    /// Whether the stage draws from the generator on `map`. The stages
    /// that clear and smooth the ground, let a turn pass, refresh the
    /// cache or come after the last draw nothing; the hills draw nothing
    /// on a map too narrow for a site, and the bog nothing on a map
    /// without room for one.
    pub open spec fn draws(self, map: &WorldMap) -> bool {
        match self {
            MapGenerationStage::HeightMapClear => false,
            MapGenerationStage::GenerateRiver => true,
            MapGenerationStage::GenerateHills => hill_sites(map.spec_extent().width) != 0,
            MapGenerationStage::GenerateSmoothing => false,
            MapGenerationStage::GenerateTiles => true,
            MapGenerationStage::Naturify => false,
            MapGenerationStage::GenerateBog => map.has_bog_site(),
            MapGenerationStage::RandomizeWind => true,
            MapGenerationStage::CalculateFlow => true,
            MapGenerationStage::UpdateCache => false,
            MapGenerationStage::Done => false,
        }
    }

    /// The stage that runs after this one; nothing runs after the last.
    pub open spec fn spec_next(self) -> Self {
        match self {
            Self::HeightMapClear => Self::GenerateRiver,
            Self::GenerateRiver => Self::GenerateHills,
            Self::GenerateHills => Self::GenerateSmoothing,
            Self::GenerateSmoothing => Self::GenerateTiles,
            Self::GenerateTiles => Self::Naturify,
            Self::Naturify => Self::GenerateBog,
            Self::GenerateBog => Self::RandomizeWind,
            Self::RandomizeWind => Self::CalculateFlow,
            Self::CalculateFlow => Self::UpdateCache,
            Self::UpdateCache => Self::Done,
            Self::Done => Self::Done,
        }
    }

    /// The place of the stage in the order of the stages, from 0.
    pub open spec fn ordinal(self) -> nat {
        match self {
            Self::HeightMapClear => 0,
            Self::GenerateRiver => 1,
            Self::GenerateHills => 2,
            Self::GenerateSmoothing => 3,
            Self::GenerateTiles => 4,
            Self::Naturify => 5,
            Self::GenerateBog => 6,
            Self::RandomizeWind => 7,
            Self::CalculateFlow => 8,
            Self::UpdateCache => 9,
            Self::Done => 10,
        }
    }

    /// The stage after `steps` steps from this one.
    pub open spec fn after(self, steps: nat) -> Self
        decreases steps,
    {
        if steps == 0 {
            self
        } else {
            self.spec_next().after((steps - 1) as nat)
        }
    }

    /// Moves on to the next stage.
    pub fn next(&mut self)
        ensures
            *final(self) == old(self).spec_next(),
    {
        *self = match *self {
            Self::HeightMapClear => Self::GenerateRiver,
            Self::GenerateRiver => Self::GenerateHills,
            Self::GenerateHills => Self::GenerateSmoothing,
            Self::GenerateSmoothing => Self::GenerateTiles,
            Self::GenerateTiles => Self::Naturify,
            Self::Naturify => Self::GenerateBog,
            Self::GenerateBog => Self::RandomizeWind,
            Self::RandomizeWind => Self::CalculateFlow,
            Self::CalculateFlow => Self::UpdateCache,
            Self::UpdateCache => Self::Done,
            Self::Done => Self::Done,
        };
    }
}

/// Every step but the last leads to the stage with the next place in the
/// order, and the last stage leads to itself.
pub proof fn lemma_next_follows_order(stage: MapGenerationStage)
    ensures
        stage != MapGenerationStage::Done ==> stage.spec_next().ordinal() == stage.ordinal() + 1,
        stage == MapGenerationStage::Done ==> stage.spec_next() == stage,
        stage.ordinal() <= 10,
{
}

/// From a stage, `steps` steps lead to the stage that many places later in
/// the order, or to the last stage where there are not that many. So from
/// the first stage every stage runs once, in order, and ten steps end the
/// run.
pub proof fn lemma_stage_progress(stage: MapGenerationStage, steps: nat)
    ensures
        stage.after(steps).ordinal() == (if stage.ordinal() + steps <= 10 {
            stage.ordinal() + steps
        } else {
            10
        }),
        MapGenerationStage::HeightMapClear.after(10) == MapGenerationStage::Done,
    decreases steps,
{
    if steps > 0 {
        lemma_next_follows_order(stage);
        lemma_stage_progress(stage.spec_next(), (steps - 1) as nat);
    }
    lemma_ten_steps();
}

/// Ten steps from the first stage end at the last.
proof fn lemma_ten_steps()
    ensures
        MapGenerationStage::HeightMapClear.after(10) == MapGenerationStage::Done,
{
    reveal_with_fuel(MapGenerationStage::after, 11);
}

/// Where the making of a map has got to: the stage that runs next, the
/// control points of the river, the work on the ground that the last
/// stage asks for, and how the searches of the stages went.
pub struct MapGenerationState {
    stage: MapGenerationStage,
    px: [i32; 4],
    py: [i32; 4],
    work: TerrainWork,
    river_accepted: bool,
    river_attempts: u32,
    hill_attempts: u32,
    bog: BogPlacement,
}

impl MapGenerationState {
    pub closed spec fn spec_stage(&self) -> MapGenerationStage {
        self.stage
    }

    pub closed spec fn spec_px(&self) -> [i32; 4] {
        self.px
    }

    pub closed spec fn spec_py(&self) -> [i32; 4] {
        self.py
    }

    pub closed spec fn spec_work(&self) -> TerrainWork {
        self.work
    }

    /// Whether the ends of the river that was planned lie far enough
    /// apart.
    pub closed spec fn spec_river_accepted(&self) -> bool {
        self.river_accepted
    }

    /// How many courses were drawn for the river.
    pub closed spec fn spec_river_attempts(&self) -> u32 {
        self.river_attempts
    }

    /// How many sites were drawn for the hills.
    pub closed spec fn spec_hill_attempts(&self) -> u32 {
        self.hill_attempts
    }

    /// Where the bog was put, if it was, and how many sites were drawn
    /// for it.
    pub closed spec fn spec_bog(&self) -> BogPlacement {
        self.bog
    }

    /// The river as it was planned.
    pub open spec fn spec_river(&self) -> RiverPlan {
        RiverPlan {
            px: self.spec_px(),
            py: self.spec_py(),
            accepted: self.spec_river_accepted(),
            attempts: self.spec_river_attempts(),
        }
    }

    /// Whether this is the state before the first stage: no work is
    /// asked for, the control points are zero and no search has run.
    pub open spec fn is_fresh(&self) -> bool {
        &&& self.spec_stage() == MapGenerationStage::HeightMapClear
        &&& self.spec_px()@ == seq![0i32, 0, 0, 0]
        &&& self.spec_py()@ == seq![0i32, 0, 0, 0]
        &&& self.spec_work() is Nothing
        &&& !self.spec_river_accepted()
        &&& self.spec_river_attempts() == 0
        &&& self.spec_hill_attempts() == 0
        &&& self.spec_bog() == (BogPlacement { site: None, attempts: 0 })
    }

    /// The state before the first stage.
    pub fn new() -> (r: Self)
        ensures
            r.is_fresh(),
    {
        let r = Self {
            stage: MapGenerationStage::HeightMapClear,
            px: [0, 0, 0, 0],
            py: [0, 0, 0, 0],
            work: TerrainWork::Nothing,
            river_accepted: false,
            river_attempts: 0,
            hill_attempts: 0,
            bog: BogPlacement { site: None, attempts: 0 },
        };
        assert(r.px@ =~= seq![0i32, 0, 0, 0]);
        assert(r.py@ =~= seq![0i32, 0, 0, 0]);
        r
    }

    /// Whether all stages have run.
    pub fn is_done(&self) -> (r: bool)
        ensures
            r == (self.spec_stage() == MapGenerationStage::Done),
    {
        match self.stage {
            MapGenerationStage::Done => true,
            _ => false,
        }
    }

    /// The stage that runs next.
    pub fn stage(&self) -> (r: MapGenerationStage)
        ensures
            r == self.spec_stage(),
    {
        self.stage
    }

    /// The control points of the river, x values.
    pub fn px(&self) -> (r: [i32; 4])
        ensures
            r == self.spec_px(),
    {
        self.px
    }

    /// The control points of the river, y values.
    pub fn py(&self) -> (r: [i32; 4])
        ensures
            r == self.spec_py(),
    {
        self.py
    }

    /// The work on the ground that the last stage asks for.
    pub fn work(&self) -> (r: &TerrainWork)
        ensures
            *r == self.spec_work(),
    {
        &self.work
    }

    /// Whether the ends of the river that was planned lie far enough
    /// apart. Where they do not, no river is dug.
    pub fn river_accepted(&self) -> (r: bool)
        ensures
            r == self.spec_river_accepted(),
    {
        self.river_accepted
    }

    /// How many courses were drawn for the river.
    pub fn river_attempts(&self) -> (r: u32)
        ensures
            r == self.spec_river_attempts(),
    {
        self.river_attempts
    }

    /// How many sites were drawn for the hills.
    pub fn hill_attempts(&self) -> (r: u32)
        ensures
            r == self.spec_hill_attempts(),
    {
        self.hill_attempts
    }

    /// Where the bog was put, if it was, and how many sites were drawn
    /// for it.
    pub fn bog(&self) -> (r: BogPlacement)
        ensures
            r == self.spec_bog(),
    {
        self.bog
    }
}

/// How far the inner control points of a river keep from the edge along an
/// axis with `length` cells: ten cells where more than twenty are there,
/// and not at all on a shorter axis, which has no room for that.
pub open spec fn spec_river_margin(length: i32) -> i32 {
    if length > 2 * RIVER_MARGIN {
        RIVER_MARGIN
    } else {
        0
    }
}

pub fn river_margin(length: i32) -> (r: i32)
    ensures
        r == spec_river_margin(length),
{
    if length > 2 * RIVER_MARGIN {
        RIVER_MARGIN
    } else {
        0
    }
}

/// Whether the two ends of a river lie far enough apart: at least a
/// hundred cells in a straight line.
pub open spec fn spec_ends_apart(start: Coordinate, end: Coordinate) -> bool {
    start.spec_squared_distance_to(end) >= MIN_RIVER_SPAN * MIN_RIVER_SPAN
}

pub fn ends_apart(start: Coordinate, end: Coordinate) -> (r: bool)
    ensures
        r == spec_ends_apart(start, end),
{
    start.squared_distance_to(end) >= MIN_RIVER_SPAN * MIN_RIVER_SPAN
}

/// The course that was drawn for a river.
#[derive(Copy, Clone, Debug)]
pub struct RiverPlan {
    pub px: [i32; 4],
    pub py: [i32; 4],
    /// Whether the ends lie far enough apart.
    pub accepted: bool,
    /// How many courses were drawn.
    pub attempts: u32,
}

impl RiverPlan {
    /// Whether the control points lie where those of a river on a map of
    /// the given extent do: the first on the west or on the north edge,
    /// the last on the east or on the south edge, and the two between
    /// them inside the margin.
    pub open spec fn fits(self, extent: Size) -> bool {
        let w = extent.width;
        let h = extent.height;
        &&& (self.px[0] == 0 && 0 <= self.py[0] < h) || (self.py[0] == 0 && 0 <= self.px[0] < w)
        &&& spec_river_margin(w) <= self.px[1] < w - spec_river_margin(w)
        &&& spec_river_margin(h) <= self.py[1] < h - spec_river_margin(h)
        &&& spec_river_margin(w) <= self.px[2] < w - spec_river_margin(w)
        &&& spec_river_margin(h) <= self.py[2] < h - spec_river_margin(h)
        &&& (self.px[3] == w - 1 && 0 <= self.py[3] < h) || (self.py[3] == h - 1 && 0 <= self.px[3] < w)
    }

    /// Whether this is the outcome of a search for a river on a map of
    /// the given extent: the course fits the map, it is accepted where
    /// its ends lie far enough apart and only there, and a course that is
    /// not accepted is the last of a thousand.
    pub open spec fn planned(self, extent: Size) -> bool {
        &&& self.fits(extent)
        &&& 1 <= self.attempts <= MAX_ATTEMPTS
        &&& self.accepted == spec_ends_apart(self.start(), self.end())
        &&& !self.accepted ==> self.attempts == MAX_ATTEMPTS
    }

    /// The first control point.
    pub open spec fn start(self) -> Coordinate {
        Coordinate { x: self.px[0], y: self.py[0] }
    }

    /// The last control point.
    pub open spec fn end(self) -> Coordinate {
        Coordinate { x: self.px[3], y: self.py[3] }
    }
}

/// Draws the four control points of a river on a map of the given
/// extent. The river starts on the west edge if `start_west` says so, else
/// on the north edge, and ends on the east edge if `end_east` says so,
/// else on the south edge.
pub fn draw_river_course<G: Generator>(extent: Size, start_west: bool, end_east: bool, generator: &mut G) -> (plan:
    RiverPlan)
    requires
        extent.width > 0,
        extent.height > 0,
    ensures
        plan.fits(extent),
        start_west ==> plan.px[0] == 0,
        !start_west ==> plan.py[0] == 0,
        end_east ==> plan.px[3] == extent.width - 1,
        !end_east ==> plan.py[3] == extent.height - 1,
        plan.accepted == spec_ends_apart(plan.start(), plan.end()),
        plan.attempts == 1,
{
    let w = extent.width;
    let h = extent.height;
    let mx = river_margin(w);
    let my = river_margin(h);
    let (x0, y0) = if start_west {
        (0, generator.generate_integer_up_to(h - 1))
    } else {
        (generator.generate_integer_up_to(w - 1), 0)
    };
    let x1 = mx + generator.generate_integer_up_to(w - 2 * mx - 1);
    let y1 = my + generator.generate_integer_up_to(h - 2 * my - 1);
    let x2 = mx + generator.generate_integer_up_to(w - 2 * mx - 1);
    let y2 = my + generator.generate_integer_up_to(h - 2 * my - 1);
    let (x3, y3) = if end_east {
        (w - 1, generator.generate_integer_up_to(h - 1))
    } else {
        (generator.generate_integer_up_to(w - 1), h - 1)
    };
    let accepted = ends_apart(Coordinate { x: x0, y: y0 }, Coordinate { x: x3, y: y3 });
    RiverPlan { px: [x0, x1, x2, x3], py: [y0, y1, y2, y3], accepted, attempts: 1 }
}

/// Plans a river on a map of the given extent: draws courses until the
/// two ends of one lie far enough apart, a thousand at most. The plan
/// holds the last course drawn and says whether it is accepted; only an
/// accepted course is one to dig.
pub fn plan_river<G: Generator>(extent: Size, generator: &mut G) -> (plan: RiverPlan)
    requires
        extent.width > 0,
        extent.height > 0,
    ensures
        plan.planned(extent),
{
    let start_west = generator.generate_bool();
    let end_east = generator.generate_bool();
    let mut plan = draw_river_course(extent, start_west, end_east, generator);
    let mut attempts: u32 = 1;
    while !plan.accepted && attempts < MAX_ATTEMPTS
        invariant
            extent.width > 0,
            extent.height > 0,
            plan.fits(extent),
            1 <= attempts <= MAX_ATTEMPTS,
            plan.accepted == spec_ends_apart(plan.start(), plan.end()),
        decreases MAX_ATTEMPTS - attempts,
    {
        plan = draw_river_course(extent, start_west, end_east, generator);
        attempts += 1;
    }
    plan.attempts = attempts;
    plan
}

impl WorldMap {
    /// Whether the map has a cell at `x` and `y` whose ground lies under
    /// water.
    pub open spec fn low_at(&self, x: int, y: int) -> bool {
        &&& 0 <= x < self.spec_extent().width
        &&& 0 <= y < self.spec_extent().height
        &&& self.height_at(Coordinate { x: x as i32, y: y as i32 }) < self.spec_water_level()
    }

    /// Whether one of the four cells that lie `distance` cells west, east,
    /// north and south of `site` is low ground.
    pub open spec fn low_at_distance(&self, site: Coordinate, distance: int) -> bool {
        ||| self.low_at(site.x - distance, site.y as int)
        ||| self.low_at(site.x + distance, site.y as int)
        ||| self.low_at(site.x as int, site.y - distance)
        ||| self.low_at(site.x as int, site.y + distance)
    }

    /// The least distance, from `from` on, at which low ground lies west,
    /// east, north or south of `site`; 70 where there is none within 70
    /// cells.
    pub open spec fn river_distance_from(&self, site: Coordinate, from: int) -> int
        decreases RIVER_SEARCH_RADIUS - from,
    {
        if from >= RIVER_SEARCH_RADIUS {
            RIVER_SEARCH_RADIUS as int
        } else if self.low_at_distance(site, from) {
            from
        } else {
            self.river_distance_from(site, from + 1)
        }
    }

    /// Whether some cell of the map has the river at most `clearance`
    /// cells away.
    pub open spec fn has_site_within(&self, clearance: int) -> bool {
        exists|p: Coordinate| self.inside(p) && #[trigger] self.river_distance(p) <= clearance
    }

    /// How near the river is to `site`: the least distance at which low
    /// ground lies straight west, east, north or south of it, and 70
    /// where there is none within 70 cells.
    pub open spec fn river_distance(&self, site: Coordinate) -> int {
        self.river_distance_from(site, 0)
    }

    /// The distance of the river is at most 70; below 70 it is the least
    /// distance with low ground, and at 70 there is no low ground nearer.
    pub proof fn lemma_river_distance(&self, site: Coordinate, from: int)
        requires
            0 <= from,
        ensures
            from <= self.river_distance_from(site, from) || self.river_distance_from(site, from)
                == RIVER_SEARCH_RADIUS,
            self.river_distance_from(site, from) <= RIVER_SEARCH_RADIUS || self.river_distance_from(site, from)
                == from,
            forall|k: int|
                from <= k < self.river_distance_from(site, from) && k < RIVER_SEARCH_RADIUS
                    ==> !#[trigger] self.low_at_distance(site, k),
            from <= self.river_distance_from(site, from) < RIVER_SEARCH_RADIUS ==> self.low_at_distance(
                site,
                self.river_distance_from(site, from),
            ),
        decreases RIVER_SEARCH_RADIUS - from,
    {
        if from < RIVER_SEARCH_RADIUS && !self.low_at_distance(site, from) {
            self.lemma_river_distance(site, from + 1);
        }
    }

    /// Whether the ground at `x` and `y` lies under water; not so outside
    /// the map.
    pub fn is_low(&self, x: i64, y: i64) -> (r: bool)
        requires
            self.wf(),
        ensures
            r == self.low_at(x as int, y as int),
    {
        let extent = self.extent();
        if 0 <= x && x < extent.width as i64 && 0 <= y && y < extent.height as i64 {
            self.height(Coordinate { x: x as i32, y: y as i32 }) < self.water_level()
        } else {
            false
        }
    }

    /// How near the river is to `site`.
    pub fn find_river_distance(&self, site: Coordinate) -> (r: i32)
        requires
            self.wf(),
        ensures
            r == self.river_distance(site),
            0 <= r <= RIVER_SEARCH_RADIUS,
    {
        let x = site.x as i64;
        let y = site.y as i64;
        let mut distance: i32 = 0;
        while distance < RIVER_SEARCH_RADIUS
            invariant
                0 <= distance <= RIVER_SEARCH_RADIUS,
                self.wf(),
                x == site.x,
                y == site.y,
                self.river_distance(site) == self.river_distance_from(site, distance as int),
            decreases RIVER_SEARCH_RADIUS - distance,
        {
            let d = distance as i64;
            if self.is_low(x - d, y) || self.is_low(x + d, y) || self.is_low(x, y - d) || self.is_low(x, y + d) {
                return distance;
            }
            distance += 1;
        }
        distance
    }
}

/// The hills that were placed, and how many sites were drawn for them.
pub struct HillPlacement {
    /// The hills, three for each site.
    pub hills: Vec<Hill>,
    /// How many sites were drawn.
    pub attempts: u32,
}

/// How many sites of hills a map of the given width gets.
pub open spec fn hill_sites(width: i32) -> int {
    width as int / 66
}

/// The greatest height of each of the three hills of a site.
pub open spec fn hill_height_limit(i: int) -> int {
    if i % 3 == 0 {
        35
    } else {
        25
    }
}

impl HillPlacement {
    /// Whether the hills stand as they should on `map`: three at a site,
    /// the first at a cell of the map that is far enough from the river
    /// and the other two at most seven cells from it on each axis, each
    /// between 1 and 3 cells wide and at least 15 high, the first at most
    /// 35 and the other two at most 25. Every site the map asks for is
    /// there unless a thousand sites were drawn, and a site was drawn in
    /// vain only where the map has a cell too near the river: on a map
    /// without such a cell every draw is taken.
    pub open spec fn fits(&self, map: &WorldMap) -> bool {
        &&& self.hills.len() % 3 == 0
        &&& self.hills.len() / 3 <= hill_sites(map.spec_extent().width)
        &&& self.attempts <= MAX_ATTEMPTS
        &&& self.attempts < MAX_ATTEMPTS ==> self.hills.len() / 3 == hill_sites(map.spec_extent().width)
        &&& self.hills.len() / 3 <= self.attempts
        &&& self.hills.len() / 3 < self.attempts ==> map.has_site_within(HILL_RIVER_CLEARANCE as int)
        &&& forall|i: int|
            0 <= i < self.hills.len() ==> {
                let hill = #[trigger] self.hills[i];
                let site = self.hills[i - i % 3];
                &&& 1 <= hill.radius <= 3
                &&& 15 <= hill.height <= hill_height_limit(i)
                &&& -7 <= hill.x - site.x <= 7
                &&& -7 <= hill.y - site.y <= 7
                &&& map.inside(Coordinate { x: site.x, y: site.y })
                &&& map.river_distance(Coordinate { x: site.x, y: site.y }) > HILL_RIVER_CLEARANCE
            }
    }
}

/// `value` as an `i32`, held at the ends of the range.
fn held_in_range(value: i64) -> (r: i32)
    ensures
        i32::MIN <= value <= i32::MAX ==> r == value,
        value > i32::MAX ==> r == i32::MAX,
        value < i32::MIN ==> r == i32::MIN,
{
    if value > i32::MAX as i64 {
        i32::MAX
    } else if value < i32::MIN as i64 {
        i32::MIN
    } else {
        value as i32
    }
}

/// The three hills of a site: one at the site and two more nearby, each
/// with a height and a width drawn by chance.
fn draw_hills_at<G: Generator>(site: Coordinate, generator: &mut G) -> (hills: [Hill; 3])
    requires
        0 <= site.x,
        0 <= site.y,
    ensures
        hills[0].x == site.x,
        hills[0].y == site.y,
        forall|i: int|
            0 <= i < 3 ==> {
                let hill = #[trigger] hills[i];
                &&& 1 <= hill.radius <= 3
                &&& 15 <= hill.height <= hill_height_limit(i)
                &&& -7 <= hill.x - site.x <= 7
                &&& -7 <= hill.y - site.y <= 7
            },
{
    let dx1 = generator.generate_integer(-7, 7);
    let dy1 = generator.generate_integer(-7, 7);
    let dx2 = generator.generate_integer(-7, 7);
    let dy2 = generator.generate_integer(-7, 7);
    let x1 = held_in_range(site.x as i64 + dx1 as i64);
    let y1 = held_in_range(site.y as i64 + dy1 as i64);
    let x2 = held_in_range(site.x as i64 + dx2 as i64);
    let y2 = held_in_range(site.y as i64 + dy2 as i64);
    let h0 = generator.generate_integer(15, 35);
    let r0 = generator.generate_integer(1, 3);
    let h1 = generator.generate_integer(15, 25);
    let r1 = generator.generate_integer(1, 3);
    let h2 = generator.generate_integer(15, 25);
    let r2 = generator.generate_integer(1, 3);
    [
        Hill { x: site.x, y: site.y, radius: r0, height: h0 },
        Hill { x: x1, y: y1, radius: r1, height: h1 },
        Hill { x: x2, y: y2, radius: r2, height: h2 },
    ]
}

/// Places hills on `map`, one site for every 66 cells of width. A site is
/// drawn anywhere on the map and taken if the river is more than 35 cells
/// away; after a thousand sites drawn the search ends with the hills it
/// has.
pub fn place_hills<G: Generator>(map: &WorldMap, generator: &mut G) -> (placement: HillPlacement)
    requires
        map.wf(),
    ensures
        placement.fits(map),
        hill_sites(map.spec_extent().width) == 0 ==> placement.attempts == 0 && *final(generator) == *old(generator),
{
    let extent = map.extent();
    proof {
        map.lemma_area_fits();
    }
    let target = extent.width / 66;
    let mut hills: Vec<Hill> = Vec::new();
    let mut sites: i32 = 0;
    let mut attempts: u32 = 0;
    while sites < target && attempts < MAX_ATTEMPTS
        invariant
            map.wf(),
            extent == map.spec_extent(),
            extent.width > 0,
            extent.height > 0,
            target == hill_sites(extent.width),
            0 <= sites <= target,
            sites <= attempts <= MAX_ATTEMPTS,
            sites < attempts ==> map.has_site_within(HILL_RIVER_CLEARANCE as int),
            target == 0 ==> attempts == 0 && *generator == *old(generator),
            hills.len() == 3 * sites,
            forall|i: int|
                0 <= i < hills.len() ==> {
                    let hill = #[trigger] hills[i];
                    let site = hills[i - i % 3];
                    &&& 1 <= hill.radius <= 3
                    &&& 15 <= hill.height <= hill_height_limit(i)
                    &&& -7 <= hill.x - site.x <= 7
                    &&& -7 <= hill.y - site.y <= 7
                    &&& map.inside(Coordinate { x: site.x, y: site.y })
                    &&& map.river_distance(Coordinate { x: site.x, y: site.y }) > HILL_RIVER_CLEARANCE
                },
        decreases MAX_ATTEMPTS - attempts,
    {
        let candidate = generator.generate_coordinate_within_origin_extent(
            Coordinate { x: extent.width, y: extent.height },
        );
        if map.find_river_distance(candidate) > HILL_RIVER_CLEARANCE {
            let cluster = draw_hills_at(candidate, generator);
            let ghost before = hills@;
            hills.push(cluster[0]);
            hills.push(cluster[1]);
            hills.push(cluster[2]);
            proof {
                let base = before.len() as int;
                assert(base % 3 == 0);
                assert forall|i: int| 0 <= i < hills.len() implies {
                    let hill = #[trigger] hills[i];
                    let site = hills[i - i % 3];
                    &&& 1 <= hill.radius <= 3
                    &&& 15 <= hill.height <= hill_height_limit(i)
                    &&& -7 <= hill.x - site.x <= 7
                    &&& -7 <= hill.y - site.y <= 7
                    &&& map.inside(Coordinate { x: site.x, y: site.y })
                    &&& map.river_distance(Coordinate { x: site.x, y: site.y }) > HILL_RIVER_CLEARANCE
                } by {
                    if i < base {
                        assert(hills[i] == before[i]);
                        assert(hills[i - i % 3] == before[i - i % 3]);
                    } else {
                        assert(i - i % 3 == base);
                        assert(hills[base] == cluster[0]);
                        assert(hills[i] == cluster[i - base]);
                        assert(hill_height_limit(i) == hill_height_limit(i - base));
                    }
                }
            }
            sites += 1;
        } else {
            assert(map.inside(candidate) && map.river_distance(candidate) <= HILL_RIVER_CLEARANCE);
        }
        attempts += 1;
    }
    HillPlacement { hills, attempts }
}

/// The depth of water after `amount` was poured on water of the depth
/// `depth`: the sum, held at the greatest and the least depth there is.
pub open spec fn poured_depth(depth: i32, amount: i32) -> i32 {
    if depth + amount > i32::MAX {
        i32::MAX
    } else if depth + amount < i32::MIN {
        i32::MIN
    } else {
        (depth + amount) as i32
    }
}

impl WorldMap {
    /// Whether the map has a cell at `x` and `y` whose ground does not lie
    /// under water.
    pub open spec fn high_at(&self, x: int, y: int) -> bool {
        &&& 0 <= x < self.spec_extent().width
        &&& 0 <= y < self.spec_extent().height
        &&& self.height_at(Coordinate { x: x as i32, y: y as i32 }) >= self.spec_water_level()
    }

    /// Whether ground above water lies at most three cells west or east of
    /// `p`.
    pub open spec fn bank_along_x(&self, p: Coordinate) -> bool {
        ||| self.high_at(p.x - 3, p.y as int)
        ||| self.high_at(p.x - 2, p.y as int)
        ||| self.high_at(p.x - 1, p.y as int)
        ||| self.high_at(p.x as int, p.y as int)
        ||| self.high_at(p.x + 1, p.y as int)
        ||| self.high_at(p.x + 2, p.y as int)
        ||| self.high_at(p.x + 3, p.y as int)
    }

    /// Whether ground above water lies at most three cells north or south
    /// of `p`.
    pub open spec fn bank_along_y(&self, p: Coordinate) -> bool {
        ||| self.high_at(p.x as int, p.y - 3)
        ||| self.high_at(p.x as int, p.y - 2)
        ||| self.high_at(p.x as int, p.y - 1)
        ||| self.high_at(p.x as int, p.y as int)
        ||| self.high_at(p.x as int, p.y + 1)
        ||| self.high_at(p.x as int, p.y + 2)
        ||| self.high_at(p.x as int, p.y + 3)
    }

    /// The kind of ground that the height of the ground gives the tile at
    /// `p`. Ground under water is the bed of the river, or a ditch where
    /// the bank is at most three cells away along an axis; ground above
    /// water is grass, and rock from four and a half levels on.
    pub open spec fn terrain_at(&self, p: Coordinate) -> TileType {
        if self.height_at(p) < self.spec_water_level() {
            if self.bank_along_x(p) || self.bank_along_y(p) {
                TileType::Ditch
            } else {
                TileType::Riverbed
            }
        } else if self.height_at(p) < ROCK_LEVEL {
            TileType::Grass
        } else {
            TileType::Rock
        }
    }

    /// Whether the ground at `x` and `y` lies above water; not so outside
    /// the map.
    pub fn is_high(&self, x: i64, y: i64) -> (r: bool)
        requires
            self.wf(),
        ensures
            r == self.high_at(x as int, y as int),
    {
        let extent = self.extent();
        if 0 <= x && x < extent.width as i64 && 0 <= y && y < extent.height as i64 {
            self.height(Coordinate { x: x as i32, y: y as i32 }) >= self.water_level()
        } else {
            false
        }
    }

    /// The kind of ground that the height of the ground gives the tile at
    /// `p`.
    pub fn classify(&self, p: Coordinate) -> (kind: TileType)
        requires
            self.wf(),
            self.inside(p),
        ensures
            kind == self.terrain_at(p),
    {
        let height = self.height(p);
        if height < self.water_level() {
            let x = p.x as i64;
            let y = p.y as i64;
            let mut d: i64 = -3;
            while d <= 3
                invariant
                    -3 <= d <= 4,
                    self.wf(),
                    x == p.x,
                    y == p.y,
                    self.height_at(p) < self.spec_water_level(),
                    forall|e: int| -3 <= e < d ==> !#[trigger] self.high_at(p.x + e, p.y as int),
                decreases 4 - d,
            {
                if self.is_high(x + d, y) {
                    assert(self.bank_along_x(p)) by {
                        assert(d == -3 || d == -2 || d == -1 || d == 0 || d == 1 || d == 2 || d == 3);
                        assert(self.high_at(p.x + d, p.y as int));
                    }
                    return TileType::Ditch;
                }
                d += 1;
            }
            assert(!self.bank_along_x(p)) by {
                assert(!self.high_at(p.x + (-3), p.y as int));
                assert(!self.high_at(p.x + (-2), p.y as int));
                assert(!self.high_at(p.x + (-1), p.y as int));
                assert(!self.high_at(p.x + 0, p.y as int));
                assert(!self.high_at(p.x + 1, p.y as int));
                assert(!self.high_at(p.x + 2, p.y as int));
                assert(!self.high_at(p.x + 3, p.y as int));
            }
            let mut d: i64 = -3;
            while d <= 3
                invariant
                    -3 <= d <= 4,
                    self.wf(),
                    x == p.x,
                    y == p.y,
                    self.height_at(p) < self.spec_water_level(),
                    !self.bank_along_x(p),
                    forall|e: int| -3 <= e < d ==> !#[trigger] self.high_at(p.x as int, p.y + e),
                decreases 4 - d,
            {
                if self.is_high(x, y + d) {
                    assert(self.bank_along_y(p)) by {
                        assert(d == -3 || d == -2 || d == -1 || d == 0 || d == 1 || d == 2 || d == 3);
                        assert(self.high_at(p.x as int, p.y + d));
                    }
                    return TileType::Ditch;
                }
                d += 1;
            }
            assert(!self.bank_along_y(p)) by {
                assert(!self.high_at(p.x as int, p.y + (-3)));
                assert(!self.high_at(p.x as int, p.y + (-2)));
                assert(!self.high_at(p.x as int, p.y + (-1)));
                assert(!self.high_at(p.x as int, p.y + 0));
                assert(!self.high_at(p.x as int, p.y + 1));
                assert(!self.high_at(p.x as int, p.y + 2));
                assert(!self.high_at(p.x as int, p.y + 3));
            }
            TileType::Riverbed
        } else if height < ROCK_LEVEL {
            TileType::Grass
        } else {
            TileType::Rock
        }
    }

    /// The kind of ground depends on the ground alone.
    pub proof fn lemma_same_terrain(&self, other: &Self, p: Coordinate)
        requires
            self.same_frame(other),
            self.same_heights(other),
        ensures
            self.terrain_at(p) == other.terrain_at(p),
    {
    }

    /// Whether the tile at `p` of this map is the tile of `before` made
    /// into the kind of ground that its height gives it. What lay on the
    /// tile stays, but that the bed of the river is filled with water of
    /// the depth of a river, into which filth on it goes.
    pub open spec fn tile_classified(&self, before: &Self, p: Coordinate) -> bool {
        let kind = before.terrain_at(p);
        let was = before.tile_at(p);
        let is = self.tile_at(p);
        &&& was.reset_to(Tile { water: was.water, filth: was.filth, ..is }, kind)
        &&& kind != TileType::Riverbed ==> is.water == was.water && is.filth == was.filth
        &&& kind == TileType::Riverbed ==> {
            &&& is.filth.is_none()
            &&& is.water.is_some()
            &&& is.water.unwrap() < self.water_nodes().len()
            &&& self.water_nodes()[is.water.unwrap() as int].spec_position() == p
            &&& self.water_nodes()[is.water.unwrap() as int].spec_depth() == (if was.water.is_some() {
                poured_depth(before.water_nodes()[was.water.unwrap() as int].spec_depth(), RIVER_DEPTH)
            } else {
                RIVER_DEPTH
            })
        }
    }

    /// Whether this map is `before` with its tiles made: every tile is the
    /// kind of ground that the height of the ground gives it, the bed of
    /// the river holds water, and every tile counts as changed. Heights,
    /// cache, constructions and weather are as they were.
    pub open spec fn tiles_generated(&self, before: &Self) -> bool {
        &&& self.same_frame(before)
        &&& self.same_heights(before)
        &&& self.same_cache(before)
        &&& self.static_constructions() == before.static_constructions()
        &&& self.dynamic_constructions() == before.dynamic_constructions()
        &&& self.spec_weather() == before.spec_weather()
        &&& forall|p: Coordinate| self.inside(p) ==> #[trigger] self.is_changed(p)
        &&& forall|p: Coordinate|
            self.inside(p) ==> self.tile_classified(before, p) && #[trigger] self.tile_at(p).tile_type
                == before.terrain_at(p)
    }

    /// Makes every tile the kind of ground that the height of the ground
    /// gives it, and fills the bed of the river with water.
    pub fn generate_tiles<G: Generator>(&mut self, generator: &mut G)
        requires
            old(self).wf(),
        ensures
            final(self).wf(),
            final(self).tiles_generated(old(self)),
    {
        let extent = self.extent();
        proof {
            self.lemma_grid_sizes();
        }
        let mut x: i32 = 0;
        while x < extent.width
            invariant
                0 <= x <= extent.width,
                0 < extent.height,
                extent == self.spec_extent(),
                old(self).wf(),
                self.wf(),
                self.generated_up_to(old(self), x as int, 0),
            decreases extent.width - x,
        {
            let mut y: i32 = 0;
            while y < extent.height
                invariant
                    0 <= x < extent.width,
                    0 <= y <= extent.height,
                    0 < extent.height,
                    extent == self.spec_extent(),
                    old(self).wf(),
                    self.wf(),
                    self.generated_up_to(old(self), x as int, y as int),
                decreases extent.height - y,
            {
                let p = Coordinate { x, y };
                let kind = self.classify(p);
                proof {
                    self.lemma_same_terrain(old(self), p);
                    assert(self.tile_at(p) == old(self).tile_at(p));
                }
                let ghost start = *self;
                self.set_tile_type(p, kind, generator);
                let ghost typed = *self;
                if kind == TileType::Riverbed {
                    self.create_water(p, RIVER_DEPTH, 0, generator);
                }
                proof {
                    if kind == TileType::Riverbed {
                        self.lemma_wet_step(&start, &typed, p);
                    } else {
                        self.lemma_dry_step(&start, p);
                    }
                    self.lemma_generated_step(old(self), &start, p);
                }
                y += 1;
            }
            proof {
                assert(self.generated_up_to(old(self), x + 1, 0));
            }
            x += 1;
        }
        proof {
            assert forall|p: Coordinate| self.inside(p) implies self.tile_classified(old(self), p)
                && #[trigger] self.tile_at(p).tile_type == old(self).terrain_at(p) by {
                assert(self.tile_classified(old(self), p));
            }
        }
    }

    /// Whether `p` comes before the cell at `x` and `y` when the map is
    /// gone through column by column.
    pub open spec fn comes_before(p: Coordinate, x: int, y: int) -> bool {
        p.x < x || (p.x == x && p.y < y)
    }

    /// What holds while the tiles are made, once all cells before the one
    /// at `x` and `y` are done: the tiles done are classified and count as
    /// changed, the others are as they were, and so is the water on them.
    pub open spec fn generated_up_to(&self, before: &Self, x: int, y: int) -> bool {
        &&& self.same_frame(before)
        &&& self.same_heights(before)
        &&& self.same_cache(before)
        &&& self.static_constructions() == before.static_constructions()
        &&& self.dynamic_constructions() == before.dynamic_constructions()
        &&& self.spec_weather() == before.spec_weather()
        &&& self.water_nodes().len() >= before.water_nodes().len()
        &&& forall|p: Coordinate|
            self.inside(p) && Self::comes_before(p, x, y) ==> #[trigger] self.is_changed(p)
        &&& forall|p: Coordinate|
            self.inside(p) && Self::comes_before(p, x, y) ==> #[trigger] self.tile_classified(before, p)
        &&& forall|p: Coordinate|
            self.inside(p) && !Self::comes_before(p, x, y) ==> #[trigger] self.tile_at(p) == before.tile_at(p)
        &&& forall|p: Coordinate|
            self.inside(p) && !Self::comes_before(p, x, y) && (#[trigger] before.tile_at(p)).water.is_some()
                ==> self.water_nodes()[before.tile_at(p).water.unwrap() as int] == before.water_nodes()[before.tile_at(
                p,
            ).water.unwrap() as int]
    }

    /// Whether this map is `start` after the tile at `p` was made the
    /// kind of ground that its height gives it: that tile is classified
    /// and counts as changed, and every other tile, and the water on it,
    /// is as it was.
    pub open spec fn stepped_at(&self, start: &Self, p: Coordinate) -> bool {
        &&& self.same_frame(start)
        &&& self.same_heights(start)
        &&& self.same_cache(start)
        &&& self.static_constructions() == start.static_constructions()
        &&& self.dynamic_constructions() == start.dynamic_constructions()
        &&& self.spec_weather() == start.spec_weather()
        &&& self.water_nodes().len() >= start.water_nodes().len()
        &&& self.is_changed(p)
        &&& self.tile_classified(start, p)
        &&& forall|q: Coordinate| #[trigger] start.is_changed(q) ==> self.is_changed(q)
        &&& forall|q: Coordinate| self.inside(q) && q != p ==> #[trigger] self.tile_at(q) == start.tile_at(q)
        &&& forall|q: Coordinate|
            self.inside(q) && q != p && (#[trigger] start.tile_at(q)).water.is_some() ==> self.water_nodes()[start.tile_at(
                q,
            ).water.unwrap() as int] == start.water_nodes()[start.tile_at(q).water.unwrap() as int]
    }

    /// Resetting the tile at `p` to a kind of ground that holds no water
    /// is a step of making the tiles.
    pub proof fn lemma_dry_step(&self, start: &Self, p: Coordinate)
        requires
            start.wf(),
            self.wf(),
            start.inside(p),
            start.terrain_at(p) != TileType::Riverbed,
            self.tile_reset(start, p, start.terrain_at(p)),
        ensures
            self.stepped_at(start, p),
    {
        assert forall|q: Coordinate| self.inside(q) && q != p implies #[trigger] self.tile_at(q) == start.tile_at(
            q,
        ) by {
            self.lemma_tile_kept(start, p, q);
        }
    }

    /// Resetting the tile at `p` to the bed of the river and pouring the
    /// water of a river on it is a step of making the tiles.
    #[verifier::rlimit(40)]
    pub proof fn lemma_wet_step(&self, start: &Self, typed: &Self, p: Coordinate)
        requires
            start.wf(),
            typed.wf(),
            self.wf(),
            start.inside(p),
            start.terrain_at(p) == TileType::Riverbed,
            typed.tile_reset(start, p, TileType::Riverbed),
            self.same_frame(typed),
            self.same_heights(typed),
            self.same_cache(typed),
            self.watered(typed, p, RIVER_DEPTH, 0),
        ensures
            self.stepped_at(start, p),
    {
        assert(typed.water_nodes() == start.water_nodes());
        assert(start.tile_at(p).reset_to(typed.tile_at(p), TileType::Riverbed));
        assert(typed.tile_at(p).water == start.tile_at(p).water);
        assert forall|q: Coordinate| self.inside(q) && q != p implies #[trigger] self.tile_at(q) == start.tile_at(
            q,
        ) by {
            typed.lemma_tile_kept(start, p, q);
            self.lemma_tile_kept(typed, p, q);
        }
        assert forall|q: Coordinate| #[trigger] start.is_changed(q) implies self.is_changed(q) by {
            assert(typed.is_changed(q));
            if typed.tile_at(p).water.is_none() {
                assert(self.changed() == typed.changed());
            }
        }
        assert(self.is_changed(p)) by {
            assert(typed.is_changed(p));
            if typed.tile_at(p).water.is_none() {
                assert(self.changed() == typed.changed());
            }
        }
        assert forall|q: Coordinate|
            self.inside(q) && q != p && (#[trigger] start.tile_at(q)).water.is_some() implies self.water_nodes()[start.tile_at(
            q,
        ).water.unwrap() as int] == start.water_nodes()[start.tile_at(q).water.unwrap() as int] by {
            let i = start.tile_at(q).water.unwrap() as int;
            assert(start.water_nodes()[i].spec_position() == q);
            if typed.tile_at(p).water.is_some() {
                let k = typed.tile_at(p).water.unwrap() as int;
                assert(start.water_nodes()[k].spec_position() == p);
                assert(i != k);
            } else {
                assert(self.water_nodes().subrange(0, typed.water_nodes().len() as int)[i]
                    == self.water_nodes()[i]);
            }
        }
        assert(self.tile_classified(start, p)) by {
            if typed.tile_at(p).water.is_none() {
                assert(self.water_nodes().last() == self.water_nodes()[typed.water_nodes().len() as int]);
            }
        }
    }

    /// A step of making the tiles keeps what holds while they are made.
    #[verifier::rlimit(40)]
    pub proof fn lemma_generated_step(&self, before: &Self, start: &Self, p: Coordinate)
        requires
            before.wf(),
            start.wf(),
            self.wf(),
            start.inside(p),
            start.generated_up_to(before, p.x as int, p.y as int),
            self.stepped_at(start, p),
        ensures
            self.generated_up_to(before, p.x as int, p.y + 1),
            p.y + 1 == self.spec_extent().height ==> self.generated_up_to(before, p.x + 1, 0),
    {
        let x = p.x as int;
        let y = p.y as int;
        assert(start.tile_at(p) == before.tile_at(p));
        start.lemma_same_terrain(before, p);
        assert forall|q: Coordinate| self.inside(q) && Self::comes_before(q, x, y + 1) implies #[trigger] self.is_changed(
            q,
        ) by {
            if q != p {
                assert(start.is_changed(q));
            }
        }
        assert forall|q: Coordinate|
            self.inside(q) && Self::comes_before(q, x, y + 1) implies #[trigger] self.tile_classified(before, q) by {
            if q == p {
                if before.tile_at(p).water.is_some() {
                    let k = before.tile_at(p).water.unwrap() as int;
                    assert(start.water_nodes()[k] == before.water_nodes()[k]);
                }
            } else {
                assert(start.tile_classified(before, q));
                assert(self.tile_at(q) == start.tile_at(q));
                if before.terrain_at(q) == TileType::Riverbed {
                    let i = start.tile_at(q).water.unwrap() as int;
                    assert(self.water_nodes()[i] == start.water_nodes()[i]);
                }
            }
        }
        assert forall|q: Coordinate|
            self.inside(q) && !Self::comes_before(q, x, y + 1) implies #[trigger] self.tile_at(q) == before.tile_at(
            q,
        ) by {
            assert(self.tile_at(q) == start.tile_at(q));
        }
        assert forall|q: Coordinate|
            self.inside(q) && !Self::comes_before(q, x, y + 1) && (#[trigger] before.tile_at(q)).water.is_some() implies self.water_nodes()[before.tile_at(
            q,
        ).water.unwrap() as int] == before.water_nodes()[before.tile_at(q).water.unwrap() as int] by {
            assert(start.tile_at(q) == before.tile_at(q));
            let i = start.tile_at(q).water.unwrap() as int;
            assert(self.water_nodes()[i] == start.water_nodes()[i]);
        }
        assert(self.generated_up_to(before, x, y + 1));
        if p.y + 1 == self.spec_extent().height {
            assert forall|q: Coordinate| self.inside(q) implies Self::comes_before(q, x + 1, 0)
                == Self::comes_before(q, x, y + 1) by {}
            assert(self.generated_up_to(before, x + 1, 0));
        }
    }
}

/// How far the bog reaches from its site along x.
pub const BOG_RADIUS: i32 = 25;

/// How far the edge of the bog may stray from a circle.
pub const BOG_RAGGEDNESS: i32 = 5;

/// How far the site of the bog keeps from the edge of the map.
pub const BOG_INSET: i32 = 30;

/// Whether `reach` is how far a circle of 25 cells reaches along y at
/// `x_offset` cells from its centre: the whole part of the square root of
/// 625 less the square of `x_offset`.
pub open spec fn is_bog_reach(x_offset: int, reach: int) -> bool {
    &&& 0 <= reach
    &&& reach * reach <= 625 - x_offset * x_offset
    &&& 625 - x_offset * x_offset < (reach + 1) * (reach + 1)
}

/// How far a circle of 25 cells reaches along y at `x_offset` cells from
/// its centre.
pub fn bog_reach(x_offset: i32) -> (reach: i32)
    requires
        -BOG_RADIUS <= x_offset <= BOG_RADIUS,
    ensures
        is_bog_reach(x_offset as int, reach as int),
        0 <= reach <= BOG_RADIUS,
{
    assert(0 <= x_offset * x_offset <= 625) by (nonlinear_arith)
        requires
            -25 <= x_offset <= 25,
    ;
    let rest = 625 - x_offset * x_offset;
    let mut reach: i32 = 0;
    let mut searching = true;
    while searching && reach < BOG_RADIUS
        invariant
            0 <= reach <= BOG_RADIUS,
            0 <= rest <= 625,
            rest == 625 - x_offset * x_offset,
            reach * reach <= rest,
            !searching ==> rest < (reach + 1) * (reach + 1),
        decreases BOG_RADIUS - reach + (if searching {
            1int
        } else {
            0int
        }),
    {
        let next = reach + 1;
        assert(next * next <= 676) by (nonlinear_arith)
            requires
                0 <= next <= 26,
        ;
        if next * next <= rest {
            reach = next;
        } else {
            searching = false;
        }
    }
    assert(rest < (reach + 1) * (reach + 1)) by {
        if reach == BOG_RADIUS {
            assert((reach + 1) * (reach + 1) == 676) by (nonlinear_arith)
                requires
                    reach == 25,
            ;
        }
    }
    reach
}

/// There is one reach for each offset.
pub proof fn lemma_bog_reach_unique(x_offset: int, a: int, b: int)
    requires
        is_bog_reach(x_offset, a),
        is_bog_reach(x_offset, b),
    ensures
        a == b,
{
    if a < b {
        assert((a + 1) * (a + 1) <= b * b) by (nonlinear_arith)
            requires
                0 <= a,
                a + 1 <= b,
        ;
    } else if b < a {
        assert((b + 1) * (b + 1) <= a * a) by (nonlinear_arith)
            requires
                0 <= b,
                b + 1 <= a,
        ;
    }
}

/// One step of the walk of an edge of the bog: `offset` moved by `step`
/// and held between -5 and 5.
pub open spec fn spec_walk(offset: i32, step: i32) -> i32 {
    if offset + step > BOG_RAGGEDNESS {
        BOG_RAGGEDNESS
    } else if offset + step < -BOG_RAGGEDNESS {
        (-BOG_RAGGEDNESS) as i32
    } else {
        (offset + step) as i32
    }
}

pub fn walk(offset: i32, step: i32) -> (r: i32)
    requires
        -BOG_RAGGEDNESS <= offset <= BOG_RAGGEDNESS,
        -1 <= step <= 1,
    ensures
        r == spec_walk(offset, step),
        -BOG_RAGGEDNESS <= r <= BOG_RAGGEDNESS,
{
    let moved = offset + step;
    if moved > BOG_RAGGEDNESS {
        BOG_RAGGEDNESS
    } else if moved < -BOG_RAGGEDNESS {
        -BOG_RAGGEDNESS
    } else {
        moved
    }
}

/// Where the bog was put, if it was, and how many sites were drawn for
/// it.
#[derive(Copy, Clone, Debug)]
pub struct BogPlacement {
    pub site: Option<Coordinate>,
    pub attempts: u32,
}

impl BogPlacement {
    /// Whether the search for a site went as it should on `map`. No site
    /// is drawn on a map without room for one, and only there. A site
    /// that was taken keeps thirty cells from every edge and more than 30
    /// from the river. Without a site a thousand were drawn, and the map
    /// has a place for a site that is too near the river: on a map without
    /// one the first site drawn is taken.
    pub open spec fn fits(&self, map: &WorldMap) -> bool {
        &&& self.attempts <= MAX_ATTEMPTS
        &&& self.attempts == 0 <==> !map.has_bog_site()
        &&& self.site.is_none() ==> self.attempts == MAX_ATTEMPTS || self.attempts == 0
        &&& self.site.is_none() && self.attempts > 0 ==> map.has_bog_site_within(BOG_RIVER_CLEARANCE as int)
        &&& self.site.is_some() ==> {
            &&& map.bog_site(self.site.unwrap())
            &&& map.river_distance(self.site.unwrap()) > BOG_RIVER_CLEARANCE
        }
    }
}

impl WorldMap {
    /// Whether a bog may have its site at `site`: the site keeps thirty
    /// cells from every edge.
    pub open spec fn bog_site(&self, site: Coordinate) -> bool {
        &&& BOG_INSET <= site.x <= self.spec_extent().width - BOG_INSET
        &&& BOG_INSET <= site.y <= self.spec_extent().height - BOG_INSET
    }

    /// Whether the map has room for the site of a bog.
    pub open spec fn has_bog_site(&self) -> bool {
        exists|site: Coordinate| #[trigger] self.bog_site(site)
    }

    /// Whether a bog may not have its site everywhere: at some place
    /// where the edges leave room for one, the river is at most
    /// `clearance` cells away.
    pub open spec fn has_bog_site_within(&self, clearance: int) -> bool {
        exists|site: Coordinate| self.bog_site(site) && #[trigger] self.river_distance(site) <= clearance
    }

    /// Whether the tile at `p` of this map is the tile of `before`, or
    /// that tile made into bog and counted as changed.
    pub open spec fn bog_or_same(&self, before: &Self, p: Coordinate) -> bool {
        ||| self.tile_at(p) == before.tile_at(p) && self.is_changed(p) == before.is_changed(p)
        ||| before.tile_at(p).reset_to(self.tile_at(p), TileType::Bog) && self.is_changed(p)
    }

    /// Whether this map is `before` with the column of a bog stamped into
    /// it that lies `x_offset` cells east of `site`: the tiles of that
    /// column from `reach + low` cells north of the site to, but not
    /// including, `reach + high` cells south of it are made into bog, and
    /// nothing else differs.
    pub open spec fn bog_column_stamped(
        &self,
        before: &Self,
        site: Coordinate,
        x_offset: int,
        reach: int,
        low: int,
        high: int,
    ) -> bool {
        &&& self.same_frame(before)
        &&& self.same_heights(before)
        &&& self.same_cache(before)
        &&& self.same_contents(before)
        &&& forall|p: Coordinate|
            self.inside(p) ==> if p.x == site.x + x_offset && -reach - low <= p.y - site.y < reach + high {
                before.tile_at(p).reset_to(#[trigger] self.tile_at(p), TileType::Bog) && self.is_changed(p)
            } else {
                self.tile_at(p) == before.tile_at(p) && self.is_changed(p) == before.is_changed(p)
            }
    }

    /// Stamps one column of a bog into the map.
    pub fn stamp_bog_column<G: Generator>(
        &mut self,
        site: Coordinate,
        x_offset: i32,
        low: i32,
        high: i32,
        generator: &mut G,
    )
        requires
            old(self).wf(),
            old(self).bog_site(site),
            -BOG_RADIUS <= x_offset < BOG_RADIUS,
            -BOG_RAGGEDNESS <= low <= BOG_RAGGEDNESS,
            -BOG_RAGGEDNESS <= high <= BOG_RAGGEDNESS,
        ensures
            final(self).wf(),
            forall|reach: int|
                is_bog_reach(x_offset as int, reach) ==> #[trigger] final(self).bog_column_stamped(
                    old(self),
                    site,
                    x_offset as int,
                    reach,
                    low as int,
                    high as int,
                ),
    {
        let reach = bog_reach(x_offset);
        let first = -reach - low;
        let last = reach + high;
        let mut y_offset = first;
        proof {
            self.lemma_grid_sizes();
        }
        while y_offset < last
            invariant
                first <= y_offset || y_offset == first,
                y_offset <= last || y_offset == first,
                -BOG_INSET <= first,
                last <= BOG_INSET,
                old(self).wf(),
                old(self).bog_site(site),
                -BOG_RADIUS <= x_offset < BOG_RADIUS,
                self.wf(),
                self.same_frame(old(self)),
                self.same_heights(old(self)),
                self.same_cache(old(self)),
                self.same_contents(old(self)),
                forall|p: Coordinate|
                    self.inside(p) ==> if p.x == site.x + x_offset && first <= p.y - site.y < y_offset {
                        old(self).tile_at(p).reset_to(#[trigger] self.tile_at(p), TileType::Bog)
                            && self.is_changed(p)
                    } else {
                        self.tile_at(p) == old(self).tile_at(p) && self.is_changed(p) == old(self).is_changed(p)
                    },
            decreases last - y_offset,
        {
            let p = Coordinate { x: site.x + x_offset, y: site.y + y_offset };
            let ghost before = *self;
            self.set_tile_type(p, TileType::Bog, generator);
            proof {
                assert(before.inside(p));
                assert forall|q: Coordinate| self.inside(q) implies if q.x == site.x + x_offset && first <= q.y
                    - site.y < y_offset + 1 {
                    old(self).tile_at(q).reset_to(#[trigger] self.tile_at(q), TileType::Bog) && self.is_changed(q)
                } else {
                    self.tile_at(q) == old(self).tile_at(q) && self.is_changed(q) == old(self).is_changed(q)
                } by {
                    if q != p {
                        self.lemma_tile_kept(&before, p, q);
                        assert(self.is_changed(q) == before.is_changed(q));
                        assert(before.bog_kept_or_made(old(self), q, site, x_offset as int, first as int, y_offset as int));
                    } else {
                        assert(before.tile_at(p) == old(self).tile_at(p));
                    }
                }
            }
            y_offset += 1;
        }
        proof {
            assert forall|r: int| is_bog_reach(x_offset as int, r) implies #[trigger] self.bog_column_stamped(
                old(self),
                site,
                x_offset as int,
                r,
                low as int,
                high as int,
            ) by {
                lemma_bog_reach_unique(x_offset as int, r, reach as int);
            }
        }
    }

    /// What holds of the tile at `q` while a column is stamped from
    /// `first` up to, but not including, `done`.
    pub open spec fn bog_kept_or_made(
        &self,
        before: &Self,
        q: Coordinate,
        site: Coordinate,
        x_offset: int,
        first: int,
        done: int,
    ) -> bool {
        if q.x == site.x + x_offset && first <= q.y - site.y < done {
            before.tile_at(q).reset_to(self.tile_at(q), TileType::Bog) && self.is_changed(q)
        } else {
            self.tile_at(q) == before.tile_at(q) && self.is_changed(q) == before.is_changed(q)
        }
    }

    /// Whether this map is `before` with a bog stamped into it at `site`:
    /// a ragged disc of tiles of bog. A tile less than five cells inside
    /// the circle of 25 cells round the site is bog, one more than five
    /// cells outside it is as it was, and the tiles between are the one or
    /// the other.
    pub open spec fn bog_stamped(&self, before: &Self, site: Coordinate) -> bool {
        &&& self.same_frame(before)
        &&& self.same_heights(before)
        &&& self.same_cache(before)
        &&& self.same_contents(before)
        &&& forall|p: Coordinate| self.inside(p) ==> #[trigger] self.bog_or_same(before, p)
        &&& forall|p: Coordinate, reach: int|
            self.inside(p) && #[trigger] is_bog_reach(p.x - site.x, reach) && -BOG_RADIUS <= p.x - site.x < BOG_RADIUS
                && -reach + BOG_RAGGEDNESS <= p.y - site.y < reach - BOG_RAGGEDNESS ==> before.tile_at(p).reset_to(
                #[trigger] self.tile_at(p),
                TileType::Bog,
            )
        &&& forall|p: Coordinate|
            self.inside(p) && !(-BOG_RADIUS <= p.x - site.x < BOG_RADIUS) ==> #[trigger] self.tile_at(p)
                == before.tile_at(p)
        &&& forall|p: Coordinate, reach: int|
            self.inside(p) && #[trigger] is_bog_reach(p.x - site.x, reach) && !(-reach - BOG_RAGGEDNESS <= p.y
                - site.y < reach + BOG_RAGGEDNESS) ==> #[trigger] self.tile_at(p) == before.tile_at(p)
    }

    /// What holds while a bog is stamped, once the columns west of the
    /// one `done` cells east of the site are stamped.
    pub open spec fn bog_stamped_up_to(&self, before: &Self, site: Coordinate, done: int) -> bool {
        &&& self.same_frame(before)
        &&& self.same_heights(before)
        &&& self.same_cache(before)
        &&& self.same_contents(before)
        &&& forall|p: Coordinate| self.inside(p) ==> #[trigger] self.bog_or_same(before, p)
        &&& forall|p: Coordinate, reach: int|
            self.inside(p) && #[trigger] is_bog_reach(p.x - site.x, reach) && -BOG_RADIUS <= p.x - site.x < done
                && -reach + BOG_RAGGEDNESS <= p.y - site.y < reach - BOG_RAGGEDNESS ==> before.tile_at(p).reset_to(
                #[trigger] self.tile_at(p),
                TileType::Bog,
            )
        &&& forall|p: Coordinate|
            self.inside(p) && !(-BOG_RADIUS <= p.x - site.x < done) ==> #[trigger] self.tile_at(p)
                == before.tile_at(p) && self.is_changed(p) == before.is_changed(p)
        &&& forall|p: Coordinate, reach: int|
            self.inside(p) && #[trigger] is_bog_reach(p.x - site.x, reach) && !(-reach - BOG_RAGGEDNESS <= p.y
                - site.y < reach + BOG_RAGGEDNESS) ==> #[trigger] self.tile_at(p) == before.tile_at(p)
    }

    /// Stamps a bog into the map at `site`: column by column from west to
    /// east, each as high as a circle of 25 cells is there, with two edges
    /// that stray from the circle by a walk of chance.
    pub fn stamp_bog<G: Generator>(&mut self, site: Coordinate, generator: &mut G)
        requires
            old(self).wf(),
            old(self).bog_site(site),
        ensures
            final(self).wf(),
            final(self).bog_stamped(old(self), site),
    {
        let mut low = generator.generate_integer(-BOG_RAGGEDNESS, BOG_RAGGEDNESS);
        let mut high = generator.generate_integer(-BOG_RAGGEDNESS, BOG_RAGGEDNESS);
        let mut x_offset: i32 = -BOG_RADIUS;
        while x_offset < BOG_RADIUS
            invariant
                -BOG_RADIUS <= x_offset <= BOG_RADIUS,
                -BOG_RAGGEDNESS <= low <= BOG_RAGGEDNESS,
                -BOG_RAGGEDNESS <= high <= BOG_RAGGEDNESS,
                old(self).wf(),
                old(self).bog_site(site),
                self.wf(),
                self.bog_stamped_up_to(old(self), site, x_offset as int),
            decreases BOG_RADIUS - x_offset,
        {
            low = walk(low, generator.generate_integer(-1, 1));
            high = walk(high, generator.generate_integer(-1, 1));
            let ghost before = *self;
            let ghost reach = bog_reach_of(x_offset as int);
            self.stamp_bog_column(site, x_offset, low, high, generator);
            proof {
                lemma_bog_reach_exists(x_offset as int);
                assert(self.bog_column_stamped(&before, site, x_offset as int, reach, low as int, high as int));
                self.lemma_bog_column_step(old(self), &before, site, x_offset as int, reach, low as int, high as int);
            }
            x_offset += 1;
        }
    }

    /// Stamping the next column keeps what holds while a bog is stamped.
    #[verifier::rlimit(40)]
    pub proof fn lemma_bog_column_step(
        &self,
        before: &Self,
        start: &Self,
        site: Coordinate,
        x_offset: int,
        reach: int,
        low: int,
        high: int,
    )
        requires
            -BOG_RADIUS <= x_offset < BOG_RADIUS,
            -BOG_RAGGEDNESS <= low <= BOG_RAGGEDNESS,
            -BOG_RAGGEDNESS <= high <= BOG_RAGGEDNESS,
            is_bog_reach(x_offset, reach),
            start.bog_stamped_up_to(before, site, x_offset),
            self.bog_column_stamped(start, site, x_offset, reach, low, high),
        ensures
            self.bog_stamped_up_to(before, site, x_offset + 1),
    {
        assert forall|p: Coordinate| self.inside(p) implies #[trigger] self.bog_or_same(before, p) by {
            assert(start.bog_or_same(before, p));
            if p.x == site.x + x_offset {
                assert(start.tile_at(p) == before.tile_at(p));
            }
        }
        assert forall|p: Coordinate, r: int|
            self.inside(p) && #[trigger] is_bog_reach(p.x - site.x, r) && -BOG_RADIUS <= p.x - site.x < x_offset + 1
                && -r + BOG_RAGGEDNESS <= p.y - site.y < r - BOG_RAGGEDNESS implies before.tile_at(p).reset_to(
            #[trigger] self.tile_at(p),
            TileType::Bog,
        ) by {
            if p.x - site.x == x_offset {
                lemma_bog_reach_unique(x_offset, r, reach);
                assert(start.tile_at(p) == before.tile_at(p));
            } else {
                assert(before.tile_at(p).reset_to(start.tile_at(p), TileType::Bog));
            }
        }
        assert forall|p: Coordinate|
            self.inside(p) && !(-BOG_RADIUS <= p.x - site.x < x_offset + 1) implies #[trigger] self.tile_at(p)
            == before.tile_at(p) && self.is_changed(p) == before.is_changed(p) by {
            assert(start.tile_at(p) == before.tile_at(p));
        }
        assert forall|p: Coordinate, r: int|
            self.inside(p) && #[trigger] is_bog_reach(p.x - site.x, r) && !(-r - BOG_RAGGEDNESS <= p.y - site.y < r
                + BOG_RAGGEDNESS) implies #[trigger] self.tile_at(p) == before.tile_at(p) by {
            assert(start.tile_at(p) == before.tile_at(p));
            if p.x - site.x == x_offset {
                lemma_bog_reach_unique(x_offset, r, reach);
            }
        }
    }

    /// Puts a bog on the map. A site is drawn at least thirty cells from
    /// every edge and taken if the river is more than 30 cells away; after
    /// a thousand sites drawn, or on a map too small for a site, there is
    /// no bog. No site is drawn on a map too small for one, and only
    /// there; and a thousand sites are drawn in vain only on a map where
    /// some site is too near the river.
    pub fn generate_bog<G: Generator>(&mut self, generator: &mut G) -> (placement: BogPlacement)
        requires
            old(self).wf(),
        ensures
            final(self).wf(),
            placement.fits(old(self)),
            placement.attempts == 0 ==> *final(generator) == *old(generator),
            placement.site.is_none() ==> final(self).unchanged(old(self)),
            placement.site.is_some() ==> final(self).bog_stamped(old(self), placement.site.unwrap()),
    {
        let extent = self.extent();
        if extent.width < 2 * BOG_INSET || extent.height < 2 * BOG_INSET {
            return BogPlacement { site: None, attempts: 0 };
        }
        let low_corner = Coordinate { x: BOG_INSET, y: BOG_INSET };
        let high_corner = Coordinate { x: extent.width - BOG_INSET, y: extent.height - BOG_INSET };
        assert(self.bog_site(low_corner));
        let mut attempts: u32 = 0;
        while attempts < MAX_ATTEMPTS
            invariant
                attempts <= MAX_ATTEMPTS,
                attempts > 0 ==> self.has_bog_site_within(BOG_RIVER_CLEARANCE as int),
                self.has_bog_site(),
                self.wf(),
                *self == *old(self),
                extent == self.spec_extent(),
                extent.width >= 2 * BOG_INSET,
                extent.height >= 2 * BOG_INSET,
                low_corner == (Coordinate { x: BOG_INSET, y: BOG_INSET }),
                high_corner.x == extent.width - BOG_INSET,
                high_corner.y == extent.height - BOG_INSET,
            decreases MAX_ATTEMPTS - attempts,
        {
            let candidate = generator.generate_coordinate_within_rectangle(low_corner, high_corner);
            attempts += 1;
            if self.find_river_distance(candidate) > BOG_RIVER_CLEARANCE {
                self.stamp_bog(candidate, generator);
                return BogPlacement { site: Some(candidate), attempts };
            }
            assert(self.bog_site(candidate) && self.river_distance(candidate) <= BOG_RIVER_CLEARANCE);
        }
        BogPlacement { site: None, attempts }
    }

    /// Whether this map is `before` in every part.
    pub open spec fn unchanged(&self, before: &Self) -> bool {
        &&& self.same_frame(before)
        &&& self.same_tiles(before)
        &&& self.same_heights(before)
        &&& self.same_cache(before)
        &&& self.same_changed(before)
        &&& self.same_contents(before)
    }
}

/// The reach of a circle of 25 cells along y at `x_offset` cells from its
/// centre: a number that `is_bog_reach` holds of. Within the circle there
/// is one, and only one; beyond it nothing is said of this number.
pub open spec fn bog_reach_of(x_offset: int) -> int {
    choose|reach: int| is_bog_reach(x_offset, reach)
}

/// Every column of the circle has a reach.
pub proof fn lemma_bog_reach_exists(x_offset: int)
    requires
        -BOG_RADIUS <= x_offset <= BOG_RADIUS,
    ensures
        is_bog_reach(x_offset, bog_reach_of(x_offset)),
{
    assert(x_offset * x_offset <= 625) by (nonlinear_arith)
        requires
            -25 <= x_offset <= 25,
    ;
    lemma_reach_search(x_offset, 0);
}

/// The search for the reach of a column finds one.
proof fn lemma_reach_search(x_offset: int, from: int)
    requires
        -BOG_RADIUS <= x_offset <= BOG_RADIUS,
        0 <= from <= BOG_RADIUS,
        from * from <= 625 - x_offset * x_offset,
    ensures
        exists|reach: int| is_bog_reach(x_offset, reach),
    decreases BOG_RADIUS - from,
{
    assert(0 <= x_offset * x_offset) by (nonlinear_arith);
    if 625 - x_offset * x_offset < (from + 1) * (from + 1) {
        assert(is_bog_reach(x_offset, from));
    } else {
        assert(from < BOG_RADIUS) by {
            if from == BOG_RADIUS {
                assert((from + 1) * (from + 1) == 676) by (nonlinear_arith)
                    requires
                        from == 25,
                ;
            }
        }
        lemma_reach_search(x_offset, from + 1);
    }
}

/// How the ground of a map of the given extent is smoothed: five drops of
/// rain for every cell, then a kernel that takes a third each of a cell
/// and of its neighbours to the west and east.
pub fn standard_smoothing(extent: Size) -> (r: Smoothing)
    requires
        extent.width > 0,
        extent.height > 0,
        extent.width * extent.height <= i32::MAX,
    ensures
        r.rain_drops == extent.width as int * extent.height as int * 5,
        r.erosion == 5,
        r.sedimentation == 300,
        r.kernel_dx@ == seq![-1i32, 1, 0],
        r.kernel_dy@ == seq![0i32, 0, 0],
        r.kernel_weight@ == seq![330i32, 330, 330],
        r.min_level == 0,
        r.max_level == 1000,
{
    assert(0 <= extent.width as int * extent.height as int) by (nonlinear_arith)
        requires
            0 < extent.width,
            0 < extent.height,
    ;
    let area = extent.width as i64 * extent.height as i64;
    let r = Smoothing {
        rain_drops: area * 5,
        erosion: 5,
        sedimentation: 300,
        kernel_dx: [-1, 1, 0],
        kernel_dy: [0, 0, 0],
        kernel_weight: [330, 330, 330],
        min_level: 0,
        max_level: 1000,
    };
    assert(r.kernel_dx@ =~= seq![-1i32, 1, 0]);
    assert(r.kernel_dy@ =~= seq![0i32, 0, 0]);
    assert(r.kernel_weight@ =~= seq![330i32, 330, 330]);
    r
}

/// The world of a game.
pub struct GameData {
    running: bool,
    map: WorldMap,
}

impl GameData {
    /// The map.
    pub closed spec fn spec_map(&self) -> WorldMap {
        self.map
    }

    /// Whether a game runs in the world.
    pub closed spec fn spec_running(&self) -> bool {
        self.running
    }

    /// Whether the world is in order.
    pub open spec fn wf(&self) -> bool {
        self.spec_map().wf()
    }

    /// Whether a game runs in the world.
    pub fn running(&self) -> (r: bool)
        ensures
            r == self.spec_running(),
    {
        self.running
    }

    /// Says whether a game runs in the world.
    pub fn set_running(&mut self, running: bool)
        ensures
            final(self).spec_running() == running,
            final(self).spec_map() == old(self).spec_map(),
    {
        self.running = running;
    }

    /// A world with a blank map of 500 times 500 tiles, not yet running.
    pub fn new() -> (r: Self)
        ensures
            r.wf(),
            !r.spec_running(),
            r.spec_map().is_blank(),
            r.spec_map().spec_extent() == (Size { width: 500, height: 500 }),
    {
        Self { running: false, map: WorldMap::new() }
    }

    /// A world with a blank map of the given extent, not yet running.
    pub fn with_extent(extent: Size) -> (r: Self)
        requires
            extent.width > 0,
            extent.height > 0,
            extent.width * extent.height <= i32::MAX,
        ensures
            r.wf(),
            !r.spec_running(),
            r.spec_map().is_blank(),
            r.spec_map().spec_extent() == extent,
    {
        Self { running: false, map: WorldMap::with_extent(extent) }
    }

    /// Puts a blank map of the same extent in the place of the map.
    pub fn reset(&mut self)
        requires
            old(self).wf(),
        ensures
            final(self).wf(),
            final(self).spec_running() == old(self).spec_running(),
            final(self).spec_map().is_blank(),
            final(self).spec_map().spec_extent() == old(self).spec_map().spec_extent(),
    {
        proof {
            self.map.lemma_grid_sizes();
        }
        self.map = WorldMap::with_extent(self.map.extent());
    }

    /// The map.
    pub fn map(&self) -> (r: &WorldMap)
        ensures
            *r == self.spec_map(),
    {
        &self.map
    }

    /// Sets the height of the ground at `p`, in thousandths of a level. A
    /// cell that is not on the map is left out.
    pub fn set_height(&mut self, p: Coordinate, value: i32)
        requires
            old(self).wf(),
        ensures
            final(self).wf(),
            final(self).spec_running() == old(self).spec_running(),
            final(self).spec_map().same_frame(&old(self).spec_map()),
            final(self).spec_map().same_tiles(&old(self).spec_map()),
            final(self).spec_map().same_cache(&old(self).spec_map()),
            final(self).spec_map().same_changed(&old(self).spec_map()),
            final(self).spec_map().same_contents(&old(self).spec_map()),
            forall|q: Coordinate|
                final(self).spec_map().inside(q) ==> #[trigger] final(self).spec_map().height_at(q) == (if q == p {
                    value
                } else {
                    old(self).spec_map().height_at(q)
                }),
    {
        self.map.set_height(p, value);
    }

    /// How near the river is to `site`.
    pub fn find_river_distance(&self, site: Coordinate) -> (r: i32)
        requires
            self.wf(),
        ensures
            r == self.spec_map().river_distance(site),
            0 <= r <= RIVER_SEARCH_RADIUS,
    {
        self.map.find_river_distance(site)
    }

    /// Whether `after` is `before` one stage later: the stage has moved
    /// on, and what the state knows of the river, of the hills and of the
    /// bog is as it was unless the stage was the one that plans the
    /// river, places the hills or puts the bog.
    pub open spec fn state_moved(before: &MapGenerationState, after: &MapGenerationState) -> bool {
        &&& after.spec_stage() == before.spec_stage().spec_next()
        &&& before.spec_stage() != MapGenerationStage::GenerateRiver ==> after.spec_river() == before.spec_river()
        &&& before.spec_stage() != MapGenerationStage::GenerateHills ==> after.spec_hill_attempts()
            == before.spec_hill_attempts()
        &&& before.spec_stage() != MapGenerationStage::GenerateBog ==> after.spec_bog() == before.spec_bog()
    }

    /// Whether this world is `before` after the stage of `state` has run,
    /// which left `after` behind.
    pub open spec fn stage_done(
        &self,
        before: &Self,
        state: &MapGenerationState,
        after: &MapGenerationState,
        settings: &Settings,
    ) -> bool {
        let map = self.spec_map();
        let old_map = before.spec_map();
        &&& self.spec_running() == before.spec_running()
        &&& map.same_frame(&old_map)
        &&& match state.spec_stage() {
            MapGenerationStage::HeightMapClear => {
                &&& after.spec_work() is Clear
                &&& map.same_tiles(&old_map)
                &&& map.same_cache(&old_map)
                &&& map.same_changed(&old_map)
                &&& map.same_contents(&old_map)
                &&& forall|p: Coordinate| map.inside(p) ==> #[trigger] map.height_at(p) == 0
            },
            MapGenerationStage::GenerateRiver => {
                &&& map.unchanged(&old_map)
                &&& after.spec_river().planned(map.spec_extent())
                &&& after.spec_work() == (if after.spec_river_accepted() {
                    TerrainWork::DigRiver {
                        px: after.spec_px(),
                        py: after.spec_py(),
                        width: settings.river_width,
                        depth: settings.river_depth,
                    }
                } else {
                    TerrainWork::Nothing
                })
            },
            MapGenerationStage::GenerateHills => {
                &&& map.unchanged(&old_map)
                &&& after.spec_work() matches TerrainWork::RaiseHills { hills }
                &&& (HillPlacement { hills, attempts: after.spec_hill_attempts() }).fits(&map)
            },
            MapGenerationStage::GenerateSmoothing => {
                &&& map.unchanged(&old_map)
                &&& after.spec_work() matches TerrainWork::Smooth { smoothing }
                &&& smoothing.rain_drops == map.spec_extent().width as int * map.spec_extent().height as int * 5
                &&& smoothing.erosion == 5
                &&& smoothing.sedimentation == 300
                &&& smoothing.kernel_dx@ == seq![-1i32, 1, 0]
                &&& smoothing.kernel_dy@ == seq![0i32, 0, 0]
                &&& smoothing.kernel_weight@ == seq![330i32, 330, 330]
                &&& smoothing.min_level == 0
                &&& smoothing.max_level == 1000
            },
            MapGenerationStage::GenerateTiles => {
                &&& after.spec_work() is Nothing
                &&& map.tiles_generated(&old_map)
            },
            MapGenerationStage::Naturify => {
                &&& after.spec_work() is Nothing
                &&& map.same_heights(&old_map)
                &&& map.same_cache(&old_map)
                &&& map.same_changed(&old_map)
                &&& map.same_contents(&old_map)
                &&& forall|p: Coordinate| map.inside(p) ==> #[trigger] map.tile_at(p) == old_map.tile_at(p).settled()
            },
            MapGenerationStage::GenerateBog => {
                &&& after.spec_work() is Nothing
                &&& after.spec_bog().fits(&old_map)
                &&& after.spec_bog().site.is_none() ==> map.unchanged(&old_map)
                &&& after.spec_bog().site.is_some() ==> map.bog_stamped(&old_map, after.spec_bog().site.unwrap())
            },
            MapGenerationStage::RandomizeWind => {
                &&& after.spec_work() is Nothing
                &&& map.wind_drawn(&old_map)
            },
            MapGenerationStage::CalculateFlow => {
                &&& after.spec_work() is Nothing
                &&& map.flow_calculated(&old_map, state.spec_px(), state.spec_py())
            },
            MapGenerationStage::UpdateCache => {
                &&& after.spec_work() is Nothing
                &&& map.cache_refreshed(&old_map)
            },
            MapGenerationStage::Done => {
                &&& after.spec_work() is Nothing
                &&& map.unchanged(&old_map)
            },
        }
    }

    /// A river that the river stage asks to be dug is an accepted one:
    /// its ends lie a hundred cells apart or more. After a thousand
    /// courses drawn in vain the stage asks for nothing.
    pub proof fn lemma_dug_river_is_long(
        &self,
        before: &Self,
        state: &MapGenerationState,
        after: &MapGenerationState,
        settings: &Settings,
    )
        requires
            state.spec_stage() == MapGenerationStage::GenerateRiver,
            self.stage_done(before, state, after, settings),
        ensures
            after.spec_work() is DigRiver <==> after.spec_river_accepted(),
            after.spec_work() is DigRiver ==> spec_ends_apart(after.spec_river().start(), after.spec_river().end()),
            !(after.spec_work() is DigRiver) ==> after.spec_work() is Nothing && after.spec_river_attempts()
                == MAX_ATTEMPTS,
    {
    }

    /// Makes the map, one stage for each call. Without a state nothing is
    /// done but to hand out the state before the first stage. With a
    /// state, the stage of that state runs and the state moves on; the
    /// state then names the work on the ground that has to be done before
    /// the next call. After the last stage a call does nothing.
    pub fn generate_map<G: Generator>(
        &mut self,
        generator: &mut G,
        settings: &Settings,
        state: Option<&mut MapGenerationState>,
    ) -> (fresh: Option<MapGenerationState>)
        requires
            old(self).wf(),
        ensures
            final(self).wf(),
            state is None ==> {
                &&& fresh matches Some(first)
                &&& first.is_fresh()
                &&& final(self).spec_running() == old(self).spec_running()
                &&& final(self).spec_map().unchanged(&old(self).spec_map())
                &&& *final(generator) == *old(generator)
            },
            state matches Some(s) ==> {
                &&& fresh is None
                &&& Self::state_moved(s, final(s))
                &&& final(self).stage_done(old(self), s, final(s), settings)
                &&& !s.spec_stage().draws(&old(self).spec_map()) ==> *final(generator) == *old(generator)
            },
    {
        match state {
            None => Some(MapGenerationState::new()),
            Some(state) => {
                proof {
                    self.map.lemma_grid_sizes();
                }
                state.work = TerrainWork::Nothing;
                match state.stage {
                    MapGenerationStage::HeightMapClear => {
                        self.map.clear_heights();
                        state.work = TerrainWork::Clear;
                    },
                    MapGenerationStage::GenerateRiver => {
                        let plan = plan_river(self.map.extent(), generator);
                        state.px = plan.px;
                        state.py = plan.py;
                        state.river_accepted = plan.accepted;
                        state.river_attempts = plan.attempts;
                        if plan.accepted {
                            state.work = TerrainWork::DigRiver {
                                px: plan.px,
                                py: plan.py,
                                width: settings.river_width,
                                depth: settings.river_depth,
                            };
                        }
                    },
                    MapGenerationStage::GenerateHills => {
                        let placement = place_hills(&self.map, generator);
                        state.hill_attempts = placement.attempts;
                        state.work = TerrainWork::RaiseHills { hills: placement.hills };
                    },
                    MapGenerationStage::GenerateSmoothing => {
                        state.work = TerrainWork::Smooth { smoothing: standard_smoothing(self.map.extent()) };
                    },
                    MapGenerationStage::GenerateTiles => {
                        self.map.generate_tiles(generator);
                    },
                    MapGenerationStage::Naturify => {
                        self.naturify_all();
                    },
                    MapGenerationStage::GenerateBog => {
                        state.bog = self.map.generate_bog(generator);
                    },
                    MapGenerationStage::RandomizeWind => {
                        self.map.randomize_wind(generator);
                    },
                    MapGenerationStage::CalculateFlow => {
                        self.map.calculate_flow(state.px, state.py, generator);
                    },
                    MapGenerationStage::UpdateCache => {
                        self.map.update_cache();
                    },
                    MapGenerationStage::Done => {},
                }
                state.stage.next();
                None
            },
        }
    }

    /// Lets a turn pass on every tile of the map.
    pub fn naturify_all(&mut self)
        requires
            old(self).wf(),
        ensures
            final(self).wf(),
            final(self).spec_running() == old(self).spec_running(),
            final(self).spec_map().same_frame(&old(self).spec_map()),
            final(self).spec_map().same_heights(&old(self).spec_map()),
            final(self).spec_map().same_cache(&old(self).spec_map()),
            final(self).spec_map().same_changed(&old(self).spec_map()),
            final(self).spec_map().same_contents(&old(self).spec_map()),
            forall|p: Coordinate|
                final(self).spec_map().inside(p) ==> #[trigger] final(self).spec_map().tile_at(p) == old(
                    self,
                ).spec_map().tile_at(p).settled(),
    {
        let extent = self.map.extent();
        proof {
            self.map.lemma_grid_sizes();
        }
        let mut x: i32 = 0;
        while x < extent.width
            invariant
                0 <= x <= extent.width,
                0 < extent.height,
                extent == self.map.spec_extent(),
                old(self).map.wf(),
                self.map.wf(),
                self.running == old(self).running,
                self.map.same_frame(&old(self).map),
                self.map.same_heights(&old(self).map),
                self.map.same_cache(&old(self).map),
                self.map.same_changed(&old(self).map),
                self.map.same_contents(&old(self).map),
                forall|p: Coordinate|
                    self.map.inside(p) ==> #[trigger] self.map.tile_at(p) == (if p.x < x {
                        old(self).map.tile_at(p).settled()
                    } else {
                        old(self).map.tile_at(p)
                    }),
            decreases extent.width - x,
        {
            let mut y: i32 = 0;
            while y < extent.height
                invariant
                    0 <= x < extent.width,
                    0 <= y <= extent.height,
                    extent == self.map.spec_extent(),
                    old(self).map.wf(),
                    self.map.wf(),
                    self.running == old(self).running,
                    self.map.same_frame(&old(self).map),
                    self.map.same_heights(&old(self).map),
                    self.map.same_cache(&old(self).map),
                    self.map.same_changed(&old(self).map),
                    self.map.same_contents(&old(self).map),
                    forall|p: Coordinate|
                        self.map.inside(p) ==> #[trigger] self.map.tile_at(p) == (if WorldMap::comes_before(
                            p,
                            x as int,
                            y as int,
                        ) {
                            old(self).map.tile_at(p).settled()
                        } else {
                            old(self).map.tile_at(p)
                        }),
                decreases extent.height - y,
            {
                let p = Coordinate { x, y };
                let ghost before = self.map;
                self.map.naturify(p);
                proof {
                    assert forall|q: Coordinate| self.map.inside(q) implies #[trigger] self.map.tile_at(q) == (if WorldMap::comes_before(
                        q,
                        x as int,
                        y + 1,
                    ) {
                        old(self).map.tile_at(q).settled()
                    } else {
                        old(self).map.tile_at(q)
                    }) by {
                        if q != p {
                            self.map.lemma_tile_kept(&before, p, q);
                        }
                    }
                }
                y += 1;
            }
            x += 1;
        }
    }
}

} // verus!
