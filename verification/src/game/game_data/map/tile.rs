use vstd::prelude::*;
use crate::coordinate::Direction;
use crate::data::random::Generator;
use crate::game::game_data::construction::{Construction, Tag};
use crate::game::game_data::filth_node::FilthNode;
use crate::game::game_data::water_node::WaterNode;
use crate::util::tcod::Color;

verus! {

/// The kind of ground of a tile.
#[derive(Copy, Clone, Debug, Eq, PartialEq, Structural)]
pub enum TileType {
    NoTile,
    Grass,
    Ditch,
    Riverbed,
    Bog,
    Rock,
    Mud,
    Snow,
}

impl Default for TileType {
    fn default() -> (r: Self)
        ensures
            r == TileType::Grass,
    {
        TileType::Grass
    }
}

impl TileType {
    /// Whether ground of this kind lies below its surroundings.
    pub open spec fn is_low(self) -> bool {
        self == TileType::Ditch || self == TileType::Riverbed || self == TileType::Mud
    }

    /// Whether ground of this kind counts as a channel of the river.
    pub open spec fn is_channel(self) -> bool {
        self == TileType::Ditch || self == TileType::Riverbed
    }

    /// Whether `cost` is a cost of moving over ground of this kind; `before`
    /// is what the tile cost until now.
    pub open spec fn allows_move_cost(self, cost: i32, before: i32) -> bool {
        match self {
            TileType::Ditch | TileType::Riverbed => 3 <= cost <= 5,
            TileType::Bog => 6 <= cost <= 10,
            TileType::Mud => cost == 5,
            _ => cost == before,
        }
    }
}

/// Whether `glyph` is a glyph of open ground, with `common` as the one
/// that is drawn most often.
pub open spec fn is_ground_glyph(glyph: char, common: char) -> bool {
    glyph == common || glyph == ',' || glyph == ':' || glyph == '\''
}

/// Whether a tile that looked like `before` may look like `after` once it
/// is ground of the kind `kind`: each kind has its glyphs and its range of
/// colours.
pub open spec fn looks_like(kind: TileType, before: Tile, after: Tile) -> bool {
    let fore = after.original_fore_color;
    let black = Color { r: 0, g: 0, b: 0 };
    match kind {
        TileType::Grass => {
            &&& is_ground_glyph(after.graphic, '.')
            &&& after.back_color == black
            &&& (fore.r <= 192 && fore.g == 127 && fore.b == 0) || (fore.r == 90 && 120 <= fore.g <= 150 && fore.b
                == 90)
        },
        TileType::Ditch | TileType::Riverbed => {
            &&& after.graphic == '_'
            &&& fore == (Color { r: 125, g: 50, b: 0 })
            &&& after.back_color == before.back_color
        },
        TileType::Bog => {
            &&& is_ground_glyph(after.graphic, '~')
            &&& fore.r <= 184 && fore.g == 127 && fore.b == 70
            &&& after.back_color == (Color { r: 60, g: 30, b: 20 })
        },
        TileType::Rock => {
            &&& after.graphic == ',' || after.graphic == '.'
            &&& 182 <= fore.r <= 201 && 182 <= fore.g <= 201 && 182 <= fore.b <= 201
            &&& after.back_color == black
        },
        TileType::Mud => {
            &&& after.graphic == '#' || after.graphic == '~'
            &&& 120 <= fore.r <= 130 && 80 <= fore.g <= 90 && fore.b == 0
            &&& after.back_color == before.back_color
        },
        TileType::Snow => {
            &&& is_ground_glyph(after.graphic, '.')
            &&& 190 <= fore.r && 190 <= fore.g && 190 <= fore.b
            &&& after.back_color == black
        },
        TileType::NoTile => {
            &&& after.graphic == before.graphic
            &&& fore == before.original_fore_color
            &&& after.back_color == before.back_color
        },
    }
}

/// One cell of the map.
#[derive(Copy, Clone, Debug)]
pub struct Tile {
    pub tile_type: TileType,
    pub vis: bool,
    pub walkable: bool,
    pub buildable: bool,
    pub move_cost: i32,
    /// The id of the construction on the tile, if there is one.
    pub construction: Option<isize>,
    pub low: bool,
    pub blocks_water: bool,
    /// The place, in the map's list of water, of the water on the tile.
    pub water: Option<usize>,
    pub graphic: char,
    pub fore_color: Color,
    pub original_fore_color: Color,
    pub back_color: Color,
    /// The id of the plant on the tile, if there is one.
    pub nature_object: Option<isize>,
    pub filth: Option<FilthNode>,
    pub marked: bool,
    pub walked_over: i32,
    pub corruption: i32,
    pub territory: bool,
    pub burnt: i32,
    pub flow: Direction,
}

/// `value` held between `low` and `high`.
pub open spec fn held(value: int, low: int, high: int) -> int {
    if value < low {
        low
    } else if value > high {
        high
    } else {
        value
    }
}

/// The colour of grass that burnt to the given degree, from 1 to 10.
pub open spec fn burnt_color(burnt: int) -> Color {
    if burnt < 5 {
        Color { r: (130 + (5 - burnt) * 10) as u8, g: (80 + (5 - burnt) * 5) as u8, b: 0 }
    } else {
        Color {
            r: (50 + (10 - burnt) * 12) as u8,
            g: (50 + (10 - burnt) * 6) as u8,
            b: ((burnt - 5) * 10) as u8,
        }
    }
}

impl Tile {
    /// A tile of grass with nothing on it, not yet visible.
    pub open spec fn spec_default() -> Tile {
        Tile {
            tile_type: TileType::Grass,
            vis: false,
            walkable: false,
            buildable: false,
            move_cost: 0,
            construction: None,
            low: false,
            blocks_water: false,
            water: None,
            graphic: '\0',
            fore_color: Color { r: 0, g: 0, b: 0 },
            original_fore_color: Color { r: 0, g: 0, b: 0 },
            back_color: Color { r: 0, g: 0, b: 0 },
            nature_object: None,
            filth: None,
            marked: false,
            walked_over: 0,
            corruption: 0,
            territory: false,
            burnt: 0,
            flow: Direction::NoDirection,
        }
    }

    /// Whether `after` may come out of resetting this tile to `tile_type`:
    /// what the kind of ground fixes is fixed, what is drawn lies in the
    /// kind's range, and what lies on the tile stays.
    pub open spec fn reset_to(self, after: Tile, tile_type: TileType) -> bool {
        &&& after.tile_type == tile_type
        &&& after.vis == (tile_type != TileType::NoTile)
        &&& after.walkable == (tile_type != TileType::NoTile)
        &&& after.buildable == (tile_type != TileType::NoTile)
        &&& after.low == tile_type.is_low()
        &&& tile_type.allows_move_cost(after.move_cost, self.move_cost)
        &&& after.flow == (if tile_type.is_channel() {
            Direction::NoDirection
        } else {
            self.flow
        })
        &&& after.fore_color == after.original_fore_color
        &&& looks_like(tile_type, self, after)
        &&& after.construction == self.construction
        &&& after.blocks_water == self.blocks_water
        &&& after.water == self.water
        &&& after.nature_object == self.nature_object
        &&& after.filth == self.filth
        &&& after.marked == self.marked
        &&& after.walked_over == self.walked_over
        &&& after.corruption == self.corruption
        &&& after.territory == self.territory
        &&& after.burnt == self.burnt
    }

    /// Makes the tile ground of the kind `tile_type`, `tile_height`
    /// thousandths of a level high, and draws its looks.
    pub fn reset_type_and_height<G: Generator>(&mut self, tile_type: TileType, tile_height: i32, generator: &mut G)
        ensures
            old(self).reset_to(*final(self), tile_type),
    {
        self.tile_type = tile_type;
        self.vis = true;
        self.walkable = true;
        self.buildable = true;
        self.low = false;

        match tile_type {
            TileType::Grass => {
                self.original_fore_color = Color::new(generator.generate_up_to_u8(49), 127, 0);
                if generator.generate_integer_up_to(9) < 9 {
                    if tile_height < -10 {
                        self.original_fore_color = Color::new(generator.generate_u8(100, 192), 127, 0);
                    } else if tile_height < 0 {
                        self.original_fore_color = Color::new(generator.generate_u8(20, 170), 127, 0);
                    } else if tile_height > 4000 {
                        self.original_fore_color = Color::new(90, generator.generate_u8(120, 150), 90);
                    }
                }
                self.back_color = Color::new(0, 0, 0);
                self.graphic = ground_glyph(generator.generate_integer_up_to(9), '.');
            },
            TileType::Ditch | TileType::Riverbed => {
                self.low = true;
                self.graphic = '_';
                self.original_fore_color = Color::new(125, 50, 0);
                self.move_cost = generator.generate_integer(3, 5);
                self.flow = Direction::NoDirection;
            },
            TileType::Bog => {
                self.graphic = ground_glyph(generator.generate_integer_up_to(9), '~');
                self.original_fore_color = Color::new(generator.generate_up_to_u8(184), 127, 70);
                self.back_color = Color::new(60, 30, 20);
                self.move_cost = generator.generate_integer(6, 10);
            },
            TileType::Rock => {
                self.graphic = if generator.generate_bool() {
                    ','
                } else {
                    '.'
                };
                let r = generator.generate_u8(182, 201);
                let g = generator.generate_u8(182, 201);
                let b = generator.generate_u8(182, 201);
                self.original_fore_color = Color::new(r, g, b);
                self.back_color = Color::new(0, 0, 0);
            },
            TileType::Mud => {
                self.low = true;
                self.graphic = if generator.generate_bool() {
                    '#'
                } else {
                    '~'
                };
                let r = generator.generate_u8(120, 130);
                let g = generator.generate_u8(80, 90);
                self.original_fore_color = Color::new(r, g, 0);
                self.move_cost = 5;
            },
            TileType::Snow => {
                let color_num = generator.generate_integer(195, 250);
                let r = (color_num + generator.generate_integer(-5, 5)) as u8;
                let g = (color_num + generator.generate_integer(-5, 5)) as u8;
                let b = (color_num + generator.generate_integer(-5, 5)) as u8;
                self.original_fore_color = Color::new(r, g, b);
                self.back_color = Color::new(0, 0, 0);
                self.graphic = ground_glyph(generator.generate_integer_up_to(9), '.');
            },
            TileType::NoTile => {
                self.vis = false;
                self.walkable = false;
                self.buildable = false;
            },
        }
        self.fore_color = self.original_fore_color;
    }

    /// The colour of grass that was walked over and corrupted: the redder
    /// the more it was walked over, the less green the more corrupt.
    pub open spec fn worn_color(self) -> Color {
        self.original_fore_color.spec_plus(
            Color { r: held(self.walked_over as int, 0, 255) as u8, g: 0, b: 0 },
        ).spec_minus(Color { r: 0, g: held(self.corruption as int, 0, 255) as u8, b: 0 })
    }

    /// The tile after its colour was drawn anew: grass shows how far it
    /// burnt, or, unburnt, how worn it is. Burning never goes past 10.
    pub open spec fn recolored(self) -> Tile {
        if self.tile_type != TileType::Grass {
            self
        } else if self.burnt > 0 {
            let burnt = held(self.burnt as int, 0, 10);
            Tile { burnt: burnt as i32, fore_color: burnt_color(burnt), ..self }
        } else {
            Tile { fore_color: self.worn_color(), ..self }
        }
    }

    /// The tile after burning by `magnitude`: only grass burns, to a
    /// degree from 0 to 10.
    pub open spec fn spec_burn(self, magnitude: i32) -> Tile {
        if self.tile_type != TileType::Grass {
            self
        } else {
            let burnt = held(self.burnt + magnitude, 0, 10);
            if burnt == 0 {
                Tile {
                    burnt: 0,
                    corruption: held(self.corruption as int, 0, i32::MAX as int) as i32,
                    ..self
                }.recolored()
            } else {
                Tile { burnt: burnt as i32, fore_color: burnt_color(burnt), ..self }
            }
        }
    }

    /// The tile after its corruption grew by `magnitude`; corruption never
    /// falls below 0.
    pub open spec fn spec_corrupt(self, magnitude: i32) -> Tile {
        Tile { corruption: held(self.corruption + magnitude, 0, i32::MAX as int) as i32, ..self }.recolored()
    }

    /// Burns the tile by `magnitude`, which may be negative.
    pub fn burn(&mut self, magnitude: i32)
        ensures
            *final(self) == old(self).spec_burn(magnitude),
    {
        if self.tile_type == TileType::Grass {
            let sum = self.burnt as i64 + magnitude as i64;
            self.burnt = if sum > 10 {
                10
            } else if sum < 0 {
                0
            } else {
                sum as i32
            };
            if self.burnt == 0 {
                if self.corruption < 0 {
                    self.corruption = 0;
                }
                self.recolor();
                return ;
            }
            self.paint_burnt();
        }
    }

    /// Adds `magnitude`, which may be negative, to the tile's corruption.
    pub fn corrupt(&mut self, magnitude: i32)
        requires
            old(self).corruption + magnitude <= i32::MAX,
        ensures
            *final(self) == old(self).spec_corrupt(magnitude),
    {
        let sum = self.corruption as i64 + magnitude as i64;
        self.corruption = if sum < 0 {
            0
        } else {
            sum as i32
        };
        self.recolor();
    }

    /// Draws the colour of the tile anew.
    fn recolor(&mut self)
        ensures
            *final(self) == old(self).recolored(),
    {
        if self.tile_type == TileType::Grass {
            if self.burnt > 0 {
                if self.burnt > 10 {
                    self.burnt = 10;
                }
                self.paint_burnt();
            } else {
                let walked: u8 = if self.walked_over < 0 {
                    0
                } else if self.walked_over > 255 {
                    255
                } else {
                    self.walked_over as u8
                };
                let corrupt: u8 = if self.corruption < 0 {
                    0
                } else if self.corruption > 255 {
                    255
                } else {
                    self.corruption as u8
                };
                self.fore_color = self.original_fore_color.plus(Color::new(walked, 0, 0)).minus(
                    Color::new(0, corrupt, 0),
                );
            }
        }
    }

    /// Gives burnt grass its colour.
    fn paint_burnt(&mut self)
        requires
            1 <= old(self).burnt <= 10,
        ensures
            *final(self) == (Tile { fore_color: burnt_color(old(self).burnt as int), ..*old(self) }),
    {
        if self.burnt < 5 {
            self.fore_color.r = (130 + (5 - self.burnt) * 10) as u8;
            self.fore_color.g = (80 + (5 - self.burnt) * 5) as u8;
            self.fore_color.b = 0;
        } else {
            self.fore_color.r = (50 + (10 - self.burnt) * 12) as u8;
            self.fore_color.g = (50 + (10 - self.burnt) * 6) as u8;
            self.fore_color.b = ((self.burnt - 5) * 10) as u8;
        }
    }

    /// The tile after a turn without steps on it and without fire: one
    /// step less walked over, and burnt one degree less.
    pub open spec fn settled(self) -> Tile {
        let rested = Tile {
            walked_over: if self.walked_over > 0 {
                (self.walked_over - 1) as i32
            } else {
                self.walked_over
            },
            ..self
        };
        if rested.burnt > 0 {
            rested.spec_burn(-1i32)
        } else {
            rested
        }
    }

    /// Lets a turn pass without steps on the tile and without fire.
    pub fn settle(&mut self)
        ensures
            *final(self) == old(self).settled(),
    {
        if self.walked_over > 0 {
            self.walked_over -= 1;
        }
        if self.burnt > 0 {
            self.burn(-1);
        }
    }

    /// Whether a plant may come up on the tile by itself: nobody walks
    /// over it, and neither a plant nor a construction stands on it.
    pub open spec fn lies_fallow(self) -> bool {
        self.walked_over == 0 && self.nature_object.is_none() && self.construction.is_none()
    }

    /// How many plants the land around the tile has to hold before no more
    /// come up on it: corrupted land grows less.
    pub open spec fn flora_target(self) -> int {
        if self.corruption < 100 {
            6
        } else {
            1
        }
    }

    /// Whether water stands on the tile.
    pub fn has_water(&self) -> (r: bool)
        ensures
            r == self.water.is_some(),
    {
        self.water.is_some()
    }

    pub fn graphic(&self) -> (r: char)
        ensures
            r == self.graphic,
    {
        self.graphic
    }

    pub fn fore_color(&self) -> (r: Color)
        ensures
            r == self.fore_color,
    {
        self.fore_color
    }

    pub fn back_color(&self) -> (r: Color)
        ensures
            r == self.back_color,
    {
        self.back_color
    }
}

/// The glyph of open ground for a roll from 0 to 9: `common` for the four
/// lowest rolls, then a comma for four, a colon for 8 and an apostrophe
/// for 9.
pub open spec fn spec_ground_glyph(roll: i32, common: char) -> char {
    if roll <= 3 {
        common
    } else if roll <= 7 {
        ','
    } else if roll == 8 {
        ':'
    } else {
        '\''
    }
}

pub fn ground_glyph(roll: i32, common: char) -> (r: char)
    requires
        0 <= roll <= 9,
    ensures
        r == spec_ground_glyph(roll, common),
{
    if roll <= 3 {
        common
    } else if roll <= 7 {
        ','
    } else if roll == 8 {
        ':'
    } else {
        '\''
    }
}

impl Default for Tile {
    fn default() -> (r: Self)
        ensures
            r == Tile::spec_default(),
    {
        Tile {
            tile_type: TileType::Grass,
            vis: false,
            walkable: false,
            buildable: false,
            move_cost: 0,
            construction: None,
            low: false,
            blocks_water: false,
            water: None,
            graphic: '\0',
            fore_color: Color { r: 0, g: 0, b: 0 },
            original_fore_color: Color { r: 0, g: 0, b: 0 },
            back_color: Color { r: 0, g: 0, b: 0 },
            nature_object: None,
            filth: None,
            marked: false,
            walked_over: 0,
            corruption: 0,
            territory: false,
            burnt: 0,
            flow: Direction::NoDirection,
        }
    }
}

/// What pathfinding and drawing need to know of one tile, copied out of
/// the tile and of what stands on it.
#[derive(Copy, Clone, Debug, PartialEq, Eq, Structural)]
pub struct CacheTile {
    pub walkable: bool,
    pub move_cost: i32,
    pub construction: bool,
    pub door: bool,
    pub trap: bool,
    pub bridge: bool,
    pub move_speed_modifier: i32,
    pub water_depth: i32,
    pub npc_count: i32,
    pub fire: bool,
    pub x: i32,
    pub y: i32,
}

impl CacheTile {
    /// The cached view of an empty tile in the top-left corner.
    pub open spec fn spec_default() -> CacheTile {
        CacheTile {
            walkable: false,
            move_cost: 0,
            construction: false,
            door: false,
            trap: false,
            bridge: false,
            move_speed_modifier: 0,
            water_depth: 0,
            npc_count: 0,
            fire: false,
            x: 0,
            y: 0,
        }
    }

    /// This view brought up to date with `tile`, with the construction on
    /// it, and with the water on it. The count of creatures, the fire and
    /// the place stay.
    pub open spec fn updated_from(
        self,
        tile: Tile,
        construction: Option<&Construction>,
        water: Option<&WaterNode>,
    ) -> CacheTile {
        CacheTile {
            walkable: tile.walkable,
            move_cost: tile.move_cost,
            construction: construction.is_some(),
            door: construction.is_some() && construction.unwrap().spec_tags().contains(Tag::Door),
            trap: construction.is_some() && construction.unwrap().spec_tags().contains(Tag::Trap),
            bridge: construction.is_some() && construction.unwrap().spec_tags().contains(Tag::Bridge),
            move_speed_modifier: if construction.is_some() {
                construction.unwrap().spec_move_speed_modifier()
            } else {
                0
            },
            water_depth: if water.is_some() {
                water.unwrap().spec_depth()
            } else {
                0
            },
            ..self
        }
    }

    /// Brings the view up to date with `tile`, with the construction that
    /// stands on it, and with the water that stands on it.
    pub fn update_from(&mut self, tile: &Tile, construction: Option<&Construction>, water: Option<&WaterNode>)
        ensures
            *final(self) == old(self).updated_from(*tile, construction, water),
    {
        self.walkable = tile.walkable;
        self.move_cost = tile.move_cost;
        match construction {
            Some(construction) => {
                self.construction = true;
                self.door = construction.has_tag(Tag::Door);
                self.trap = construction.has_tag(Tag::Trap);
                self.bridge = construction.has_tag(Tag::Bridge);
                self.move_speed_modifier = construction.get_move_speed_modifier();
            },
            None => {
                self.construction = false;
                self.door = false;
                self.trap = false;
                self.bridge = false;
                self.move_speed_modifier = 0;
            },
        }
        self.water_depth = match water {
            Some(water) => water.depth(),
            None => 0,
        };
    }
}

impl Default for CacheTile {
    fn default() -> (r: Self)
        ensures
            r == CacheTile::spec_default(),
    {
        CacheTile {
            walkable: false,
            move_cost: 0,
            construction: false,
            door: false,
            trap: false,
            bridge: false,
            move_speed_modifier: 0,
            water_depth: 0,
            npc_count: 0,
            fire: false,
            x: 0,
            y: 0,
        }
    }
}

} // verus!
