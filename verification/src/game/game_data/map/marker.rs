use vstd::prelude::*;
use crate::coordinate::Coordinate;
use crate::game::game_data::map::MapGraphicDrawable;
use crate::util::tcod::Color;

verus! {

/// How a marker on the map shows itself.
#[derive(Copy, Clone, Debug, PartialEq, Eq, Structural)]
pub enum MarkerType {
    Flashing,
}

/// A sign put on a cell of the map for a while.
#[derive(Copy, Clone, Debug)]
pub struct MapMarker {
    marker_type: MarkerType,
    color: Color,
    original_color: Color,
    duration: i32,
    graphic: char,
    pos: Coordinate,
}

impl MapMarker {
    pub closed spec fn spec_marker_type(&self) -> MarkerType {
        self.marker_type
    }

    pub closed spec fn spec_color(&self) -> Color {
        self.color
    }

    /// The colour the marker was made with.
    pub closed spec fn spec_original_color(&self) -> Color {
        self.original_color
    }

    /// For how many turns the marker stays.
    pub closed spec fn spec_duration(&self) -> i32 {
        self.duration
    }

    pub closed spec fn spec_graphic(&self) -> char {
        self.graphic
    }

    pub closed spec fn spec_position(&self) -> Coordinate {
        self.pos
    }

    /// A marker of the given kind at `pos` that shows `graphic` in
    /// `color` for `duration` turns.
    pub fn new(marker_type: MarkerType, graphic: char, pos: Coordinate, duration: i32, color: Color) -> (r: Self)
        ensures
            r.spec_marker_type() == marker_type,
            r.spec_graphic() == graphic,
            r.spec_position() == pos,
            r.spec_duration() == duration,
            r.spec_color() == color,
            r.spec_original_color() == color,
    {
        Self { marker_type, color, original_color: color, duration, graphic, pos }
    }

    pub fn marker_type(&self) -> (r: MarkerType)
        ensures
            r == self.spec_marker_type(),
    {
        self.marker_type
    }

    pub fn position(&self) -> (r: Coordinate)
        ensures
            r == self.spec_position(),
    {
        self.pos
    }

    pub fn duration(&self) -> (r: i32)
        ensures
            r == self.spec_duration(),
    {
        self.duration
    }
}

impl MapGraphicDrawable for MapMarker {
    fn graphic(&self) -> (r: char)
        ensures
            r == self.spec_graphic(),
    {
        self.graphic
    }

    fn fore_color(&self) -> (r: Color)
        ensures
            r == self.spec_color(),
    {
        self.color
    }

    /// Black: a marker has no colour of its own behind it.
    fn back_color(&self) -> (r: Color)
        ensures
            r == (Color { r: 0, g: 0, b: 0 }),
    {
        Color { r: 0, g: 0, b: 0 }
    }
}

} // verus!
