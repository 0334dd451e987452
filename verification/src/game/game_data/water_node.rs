use vstd::prelude::*;
use crate::coordinate::Coordinate;
use crate::data::random::Generator;
use crate::util::tcod::{Chars, Color};

verus! {

/// The depth of the water that a river bed holds.
pub const RIVER_DEPTH: i32 = 5000;

/// The greatest depth at which water still counts as shallow.
pub const SHALLOW_DEPTH: i32 = 20;

/// The glyph for water of the given depth.
pub open spec fn water_glyph(depth: i32) -> char {
    if depth == 0 {
        ' '
    } else if depth == 1 {
        '.'
    } else if depth == 2 {
        Chars::Block3.spec_code() as char
    } else {
        219u8 as char
    }
}

/// The water standing on one tile.
#[derive(Debug, Copy, Clone)]
pub struct WaterNode {
    position: Coordinate,
    depth: i32,
    time_from_river_bed: i32,
    color: Color,
    graphic: char,
    inert_counter: i32,
    inert: bool,
    filth: i32,
    coastal: bool,
}

impl WaterNode {
    pub closed spec fn spec_position(&self) -> Coordinate {
        self.position
    }

    pub closed spec fn spec_depth(&self) -> i32 {
        self.depth
    }

    pub closed spec fn spec_filth(&self) -> i32 {
        self.filth
    }

    pub closed spec fn spec_time_from_river_bed(&self) -> i32 {
        self.time_from_river_bed
    }

    pub closed spec fn spec_graphic(&self) -> char {
        self.graphic
    }

    /// Whether `other` is the same water at the same place; its looks may
    /// differ.
    pub open spec fn same_water(&self, other: &Self) -> bool {
        &&& self.spec_position() == other.spec_position()
        &&& self.spec_depth() == other.spec_depth()
        &&& self.spec_filth() == other.spec_filth()
        &&& self.spec_time_from_river_bed() == other.spec_time_from_river_bed()
    }

    /// Clean water of the given depth at `position`.
    pub fn new<G: Generator>(position: Coordinate, depth: i32, time_from_river_bed: i32, generator: &mut G) -> (r:
        Self)
        ensures
            r.spec_position() == position,
            r.spec_depth() == depth,
            r.spec_filth() == 0,
            r.spec_time_from_river_bed() == time_from_river_bed,
            r.spec_graphic() == water_glyph(depth),
    {
        let mut water = Self {
            position,
            depth,
            time_from_river_bed,
            graphic: '?',
            color: Color { r: 0, g: 128, b: 255 },
            inert_counter: 0,
            inert: false,
            filth: 0,
            coastal: false,
        };
        water.update_graphic(generator);
        water
    }

    /// Sets how much filth is mixed into the water.
    pub fn set_filth(&mut self, filth_depth: i32)
        ensures
            final(self).spec_filth() == filth_depth,
            final(self).spec_position() == old(self).spec_position(),
            final(self).spec_depth() == old(self).spec_depth(),
            final(self).spec_time_from_river_bed() == old(self).spec_time_from_river_bed(),
            final(self).spec_graphic() == old(self).spec_graphic(),
    {
        self.filth = filth_depth;
    }

    pub fn position(&self) -> (r: Coordinate)
        ensures
            r == self.spec_position(),
    {
        self.position
    }

    pub fn depth(&self) -> (r: i32)
        ensures
            r == self.spec_depth(),
    {
        self.depth
    }

    pub fn filth(&self) -> (r: i32)
        ensures
            r == self.spec_filth(),
    {
        self.filth
    }

    pub fn graphic(&self) -> (r: char)
        ensures
            r == self.spec_graphic(),
    {
        self.graphic
    }

    pub closed spec fn spec_fore_color(&self) -> Color {
        self.color
    }

    pub fn fore_color(&self) -> (r: Color)
        ensures
            r == self.spec_fore_color(),
    {
        self.color
    }

    /// Whether a change of depth from `depth` to `new_depth` changes how
    /// shallow water looks to what walks through it: both are shallow and
    /// they differ.
    pub open spec fn shallow_change(depth: i32, new_depth: i32) -> bool {
        depth <= SHALLOW_DEPTH && new_depth <= SHALLOW_DEPTH && depth != new_depth
    }

    /// Sets the depth. Gives the position back where the cached view of
    /// the tile has to be refreshed.
    pub fn set_depth<G: Generator>(&mut self, new_depth: i32, generator: &mut G) -> (r: Option<Coordinate>)
        ensures
            final(self).spec_depth() == new_depth,
            final(self).spec_position() == old(self).spec_position(),
            final(self).spec_filth() == old(self).spec_filth(),
            final(self).spec_time_from_river_bed() == old(self).spec_time_from_river_bed(),
            final(self).spec_graphic() == water_glyph(new_depth),
            r == (if Self::shallow_change(old(self).spec_depth(), new_depth) {
                Some(old(self).spec_position())
            } else {
                None::<Coordinate>
            }),
    {
        let result = if self.depth <= SHALLOW_DEPTH && new_depth <= SHALLOW_DEPTH && self.depth != new_depth {
            Some(self.position)
        } else {
            None
        };
        self.depth = new_depth;
        self.update_graphic(generator);
        result
    }

    /// Picks the glyph for the depth and lets the colour drift one step
    /// towards the colour of water this deep and this filthy, with a rare
    /// sparkle.
    fn update_graphic<G: Generator>(&mut self, generator: &mut G)
        ensures
            final(self).same_water(old(self)),
            final(self).spec_graphic() == water_glyph(old(self).spec_depth()),
    {
        self.graphic = if self.depth == 0 {
            ' '
        } else if self.depth == 1 {
            '.'
        } else if self.depth == 2 {
            Chars::Block3.into_char()
        } else {
            219u8 as char
        };
        assert(self.graphic == water_glyph(self.depth)) by {
            assert(Chars::Block3.spec_code() as char == 178u8 as char);
        }

        let by_depth: i64 = 255 - (self.depth / 25) as i64;
        let col: i64 = if by_depth < 140 { 140 } else { by_depth };
        let filth: i64 = self.filth as i64;

        let blue_aim: i64 = if col - filth * 20 < 0 { 0 } else { col - filth * 20 };
        if (self.color.b as i64) < blue_aim && self.color.b < 255 {
            self.color.b += 1;
        }
        if (self.color.b as i64) > blue_aim {
            self.color.b -= 1;
        }

        let filth_green: i64 = if filth * 10 > 150 { 150 } else { filth * 10 };
        let green_aim: i64 = if col / 4 > filth_green { col / 4 } else { filth_green };
        if (self.color.g as i64) < green_aim && self.color.g < 255 {
            self.color.g += 1;
        }
        if (self.color.g as i64) > green_aim && self.color.g > 0 {
            self.color.g -= 1;
        }

        let red_aim: i64 = if filth * 10 > 190 { 190 } else { filth * 10 };
        if (self.color.r as i64) < red_aim && self.color.r <= 245 {
            self.color.r += 10;
        }
        if (self.color.r as i64) > red_aim && self.color.r >= 10 {
            self.color.r -= 10;
        }

        if self.color.b < 200 && generator.generate_integer_up_to(39) == 0 {
            self.color.b += 20;
        }
        if self.color.g < 225 && generator.generate_integer_up_to(9999) == 0 {
            self.color.g += generator.generate_up_to_u8(24);
        }
    }
}

} // verus!
