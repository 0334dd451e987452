use vstd::prelude::*;
use crate::coordinate::Direction;
use crate::data::random::{Generator, Selection};

verus! {

/// What falls from the sky.
#[derive(Copy, Clone, Debug, PartialEq, Eq, Structural)]
pub enum WeatherType {
    Normal,
    Rain,
}

/// Wind, weather and season over the map.
pub struct Weather {
    wind_direction: Direction,
    prevailing_wind_direction: Direction,
    current_weather: WeatherType,
    tile_change: bool,
    change_all: bool,
    tile_change_rate: i32,
    change_position: i32,
    current_temperature: i32,
    current_season: i32,
}

impl Weather {
    pub closed spec fn spec_wind_direction(&self) -> Direction {
        self.wind_direction
    }

    pub closed spec fn spec_prevailing_wind_direction(&self) -> Direction {
        self.prevailing_wind_direction
    }

    pub closed spec fn spec_current_weather(&self) -> WeatherType {
        self.current_weather
    }

    /// Whether the tiles are changing with the season.
    pub closed spec fn spec_tile_change(&self) -> bool {
        self.tile_change
    }

    /// Whether every tile changes at once.
    pub closed spec fn spec_change_all(&self) -> bool {
        self.change_all
    }

    /// How many tiles change in one step.
    pub closed spec fn spec_tile_change_rate(&self) -> i32 {
        self.tile_change_rate
    }

    /// How far the change of the tiles has come.
    pub closed spec fn spec_change_position(&self) -> i32 {
        self.change_position
    }

    pub closed spec fn spec_current_temperature(&self) -> i32 {
        self.current_temperature
    }

    /// The season, counted from zero; -1 before the first one.
    pub closed spec fn spec_current_season(&self) -> i32 {
        self.current_season
    }

    /// Whether the tiles and the season are in `self` as they are in
    /// `other`.
    pub open spec fn same_season(&self, other: &Self) -> bool {
        &&& self.spec_current_weather() == other.spec_current_weather()
        &&& self.spec_tile_change() == other.spec_tile_change()
        &&& self.spec_change_all() == other.spec_change_all()
        &&& self.spec_tile_change_rate() == other.spec_tile_change_rate()
        &&& self.spec_change_position() == other.spec_change_position()
        &&& self.spec_current_temperature() == other.spec_current_temperature()
        &&& self.spec_current_season() == other.spec_current_season()
    }

    /// Calm weather with a north wind, before the first season: no tile
    /// is changing, and the temperature is zero.
    pub fn new() -> (r: Self)
        ensures
            r.spec_wind_direction() == Direction::North,
            r.spec_prevailing_wind_direction() == Direction::North,
            r.spec_current_weather() == WeatherType::Normal,
            !r.spec_tile_change(),
            !r.spec_change_all(),
            r.spec_tile_change_rate() == 0,
            r.spec_change_position() == 0,
            r.spec_current_temperature() == 0,
            r.spec_current_season() == -1,
    {
        Self {
            wind_direction: Direction::North,
            prevailing_wind_direction: Direction::North,
            current_weather: WeatherType::Normal,
            tile_change: false,
            change_all: false,
            tile_change_rate: 0,
            change_position: 0,
            current_season: -1,
            current_temperature: 0,
        }
    }

    pub fn wind_direction(&self) -> (r: Direction)
        ensures
            r == self.spec_wind_direction(),
    {
        self.wind_direction
    }

    pub fn prevailing_wind_direction(&self) -> (r: Direction)
        ensures
            r == self.spec_prevailing_wind_direction(),
    {
        self.prevailing_wind_direction
    }

    pub fn current_weather(&self) -> (r: WeatherType)
        ensures
            r == self.spec_current_weather(),
    {
        self.current_weather
    }

    /// Draws a compass direction and lets the wind, and the prevailing
    /// wind, blow from it.
    pub fn randomize_wind<G: Generator>(&mut self, generator: &mut G)
        ensures
            final(self).spec_wind_direction() == final(self).spec_prevailing_wind_direction(),
            final(self).same_season(old(self)),
            final(self).spec_wind_direction() != Direction::NoDirection,
            <Direction as Selection>::choices().contains(final(self).spec_wind_direction()),
    {
        self.prevailing_wind_direction = generator.auto_select::<Direction>();
        self.wind_direction = self.prevailing_wind_direction;
    }
}

} // verus!
