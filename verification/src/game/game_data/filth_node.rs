use vstd::prelude::*;
use crate::coordinate::Coordinate;
use crate::util::tcod::Color;

verus! {

/// Filth lying on one tile.
#[derive(Debug, Copy, Clone)]
pub struct FilthNode {
    pos: Coordinate,
    depth: i32,
    graphic: char,
    color: Color,
}

impl FilthNode {
    pub closed spec fn spec_position(&self) -> Coordinate {
        self.pos
    }

    pub closed spec fn spec_depth(&self) -> i32 {
        self.depth
    }

    pub closed spec fn spec_graphic(&self) -> char {
        self.graphic
    }

    pub closed spec fn spec_fore_color(&self) -> Color {
        self.color
    }

    /// Filth of the given depth at `pos`, drawn as a black tilde.
    pub fn new(pos: Coordinate, depth: i32) -> (r: Self)
        ensures
            r.spec_position() == pos,
            r.spec_depth() == depth,
            r.spec_graphic() == '~',
            r.spec_fore_color() == (Color { r: 0, g: 0, b: 0 }),
    {
        Self { pos, depth, graphic: '~', color: Color { r: 0, g: 0, b: 0 } }
    }

    pub fn position(&self) -> (r: Coordinate)
        ensures
            r == self.spec_position(),
    {
        self.pos
    }

    pub fn depth(&self) -> (r: i32)
        ensures
            r == self.spec_depth(),
    {
        self.depth
    }

    pub fn graphic(&self) -> (r: char)
        ensures
            r == self.spec_graphic(),
    {
        self.graphic
    }

    pub fn fore_color(&self) -> (r: Color)
        ensures
            r == self.spec_fore_color(),
    {
        self.color
    }
}

} // verus!
