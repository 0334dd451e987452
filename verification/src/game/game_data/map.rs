//! The grid of tiles.

pub mod changed_tiles;
pub mod flow;
pub mod marker;
pub mod tile;
pub mod weather;

use vstd::prelude::*;
use std::collections::HashMap;
use crate::coordinate::{Coordinate, Direction};
use crate::data::base::Size;
use crate::data::random::{Generator, Selection};
use crate::game::game_data::construction::Construction;
use crate::game::game_data::filth_node::FilthNode;
use crate::game::game_data::height_field::HeightField;
use crate::game::game_data::map::changed_tiles::ChangedTiles;
use crate::game::game_data::map::tile::{CacheTile, Tile, TileType};
use crate::game::game_data::map::weather::Weather;
use crate::game::game_data::water_node::WaterNode;
use crate::util::array2d::Array2D;
use crate::util::tcod::Color;

verus! {

/// The width of a map that is made without a size.
pub const DEFAULT_WIDTH: i32 = 500;

/// The height of a map that is made without a size.
pub const DEFAULT_HEIGHT: i32 = 500;

/// The height, in thousandths of a level, below which ground lies under
/// water.
pub const WATER_LEVEL: i32 = -800;

/// What is drawn over the map.
#[derive(Debug, Ord, PartialOrd, Eq, PartialEq, Structural, Copy, Clone)]
pub enum Overlay {
    Territory,
    Terrain,
}

/// Something with a glyph and colours to draw it on the map.
pub trait MapGraphicDrawable {
    fn graphic(&self) -> char;

    fn fore_color(&self) -> Color;

    fn back_color(&self) -> Color;
}

impl MapGraphicDrawable for Tile {
    fn graphic(&self) -> (r: char)
        ensures
            r == self.graphic,
    {
        self.graphic
    }

    fn fore_color(&self) -> (r: Color)
        ensures
            r == self.fore_color,
    {
        self.fore_color
    }

    fn back_color(&self) -> (r: Color)
        ensures
            r == self.back_color,
    {
        self.back_color
    }
}

impl MapGraphicDrawable for WaterNode {
    fn graphic(&self) -> (r: char)
        ensures
            r == self.spec_graphic(),
    {
        WaterNode::graphic(self)
    }

    fn fore_color(&self) -> (r: Color)
        ensures
            r == self.spec_fore_color(),
    {
        WaterNode::fore_color(self)
    }

    fn back_color(&self) -> (r: Color)
        ensures
            r == (Color { r: 0, g: 0, b: 0 }),
    {
        Color { r: 0, g: 0, b: 0 }
    }
}

impl MapGraphicDrawable for FilthNode {
    fn graphic(&self) -> (r: char)
        ensures
            r == self.spec_graphic(),
    {
        FilthNode::graphic(self)
    }

    fn fore_color(&self) -> (r: Color)
        ensures
            r == self.spec_fore_color(),
    {
        FilthNode::fore_color(self)
    }

    fn back_color(&self) -> (r: Color)
        ensures
            r == (Color { r: 0, g: 0, b: 0 }),
    {
        Color { r: 0, g: 0, b: 0 }
    }
}

/// Questions that the extent of a map answers about a cell.
pub trait MapExtentHelper {
    spec fn spec_is_inside(&self, p: Coordinate) -> bool;

    /// Whether `p` is a cell of a map of this extent.
    fn is_inside(&self, p: Coordinate) -> (r: bool)
        ensures
            r == self.spec_is_inside(p),
    ;

    /// The cell of a map of this extent that is nearest to `p`.
    fn shrink(&self, p: Coordinate) -> (r: Coordinate)
        ensures
            self.spec_is_inside(p) ==> r == p,
    ;
}

impl MapExtentHelper for Size {
    open spec fn spec_is_inside(&self, p: Coordinate) -> bool {
        0 <= p.x < self.width && 0 <= p.y < self.height
    }

    fn is_inside(&self, p: Coordinate) -> (r: bool) {
        p.inside_extent(Coordinate::origin(), Coordinate { x: self.width, y: self.height })
    }

    fn shrink(&self, p: Coordinate) -> (r: Coordinate)
        ensures
            self.width > 0 && self.height > 0 ==> self.spec_is_inside(r) && r == p.spec_clamp_to_rectangle(
                Coordinate { x: 0, y: 0 },
                Coordinate { x: (self.width - 1) as i32, y: (self.height - 1) as i32 },
            ),
    {
        let high = Coordinate {
            x: if self.width == i32::MIN {
                i32::MAX
            } else {
                self.width - 1
            },
            y: if self.height == i32::MIN {
                i32::MAX
            } else {
                self.height - 1
            },
        };
        p.clamp_to_rectangle(Coordinate::origin(), high)
    }
}

/// Things on the map, found by their id.
pub struct EntityList<E>(HashMap<isize, E>);

impl<E> EntityList<E> {
    /// What is held, by id.
    pub closed spec fn view(&self) -> Map<isize, E> {
        self.0@
    }

    /// What is held under `id`.
    pub open spec fn spec_get(&self, id: isize) -> Option<&E> {
        if self@.contains_key(id) {
            Some(&self@[id])
        } else {
            None
        }
    }

    /// An empty list.
    pub fn new() -> (r: Self)
        ensures
            r@ == Map::<isize, E>::empty(),
    {
        Self(HashMap::new())
    }

    /// What is held under `id`.
    pub fn get(&self, id: isize) -> (r: Option<&E>)
        ensures
            r == self.spec_get(id),
    {
        self.0.get(&id)
    }

    /// Puts `entity` in under `id`, in place of what was held there.
    pub fn insert(&mut self, id: isize, entity: E)
        ensures
            final(self)@ == old(self)@.insert(id, entity),
    {
        self.0.insert(id, entity);
    }

    /// The number of things held.
    pub fn len(&self) -> (r: usize)
        ensures
            r == self@.len(),
    {
        self.0.len()
    }
}

/// Looks a construction up in several lists.
pub trait ConstructionHelper<'a> {
    /// The construction with the given id in the first list that holds
    /// one.
    fn construction(self, id: isize) -> Option<&'a Construction>;
}

/// The construction with the given id in the first of `lists`, from `from`
/// on, that holds one.
pub open spec fn first_construction(lists: Seq<&EntityList<Construction>>, id: isize, from: int) -> Option<
    &Construction,
>
    decreases lists.len() - from,
{
    if from < 0 || from >= lists.len() {
        None
    } else if lists[from]@.contains_key(id) {
        Some(&lists[from]@[id])
    } else {
        first_construction(lists, id, from + 1)
    }
}

impl<'a> ConstructionHelper<'a> for &'a [&'a EntityList<Construction>] {
    fn construction(self, id: isize) -> (r: Option<&'a Construction>)
        ensures
            r == first_construction(self@, id, 0),
    {
        let mut i: usize = 0;
        while i < self.len()
            invariant
                i <= self.len(),
                first_construction(self@, id, 0) == first_construction(self@, id, i as int),
            decreases self.len() - i,
        {
            let found = self[i].get(id);
            if found.is_some() {
                return found;
            }
            i += 1;
        }
        None
    }
}

/// The cached view of an empty tile at `x` and `y`.
fn blank_cache_tile(x: usize, y: usize) -> (tile: CacheTile)
    requires
        x <= i32::MAX,
        y <= i32::MAX,
    ensures
        tile == (CacheTile { x: x as i32, y: y as i32, ..CacheTile::spec_default() }),
{
    let mut tile = CacheTile::default();
    tile.x = x as i32;
    tile.y = y as i32;
    tile
}

/// The world: its ground, its tiles, the water on them, and a cached view
/// of every tile for those who only read.
pub struct WorldMap {
    height_map: HeightField,
    tile_map: Array2D<Tile>,
    cached_tile_map: Array2D<CacheTile>,
    extent: Size,
    water_level: i32,
    overlays: Vec<Overlay>,
    changed_tiles: ChangedTiles,
    weather: Weather,
    water_list: Vec<WaterNode>,
    static_construction_list: EntityList<Construction>,
    dynamic_construction_list: EntityList<Construction>,
}

impl WorldMap {
    /// The width and the height of the map, in cells.
    pub closed spec fn spec_extent(&self) -> Size {
        self.extent
    }

    /// The height below which ground lies under water.
    pub closed spec fn spec_water_level(&self) -> i32 {
        self.water_level
    }

    /// Whether `p` is a cell of the map.
    pub open spec fn inside(&self, p: Coordinate) -> bool {
        0 <= p.x < self.spec_extent().width && 0 <= p.y < self.spec_extent().height
    }

    /// The grid of the tiles.
    pub closed spec fn tiles(&self) -> Array2D<Tile> {
        self.tile_map
    }

    /// The grid of the cached views of the tiles.
    pub closed spec fn cache(&self) -> Array2D<CacheTile> {
        self.cached_tile_map
    }

    /// The ground.
    pub closed spec fn ground(&self) -> HeightField {
        self.height_map
    }

    /// The tiles that changed since their cached view was last refreshed.
    pub closed spec fn changed(&self) -> ChangedTiles {
        self.changed_tiles
    }

    /// The tile at `p`.
    pub open spec fn tile_at(&self, p: Coordinate) -> Tile {
        self.tiles().at_coordinate(p)
    }

    /// The cached view of the tile at `p`.
    pub open spec fn cache_at(&self, p: Coordinate) -> CacheTile {
        self.cache().at_coordinate(p)
    }

    /// The height of the ground at `p`.
    pub open spec fn height_at(&self, p: Coordinate) -> i32 {
        self.ground().value_at(p.x as int, p.y as int)
    }

    /// All the water on the map.
    pub closed spec fn water_nodes(&self) -> Seq<WaterNode> {
        self.water_list@
    }

    /// Whether the tile at `p` changed since its cached view was last
    /// refreshed.
    pub open spec fn is_changed(&self, p: Coordinate) -> bool {
        self.changed().holds(p)
    }

    /// The constructions that stay where they are, by id.
    pub closed spec fn static_constructions(&self) -> Map<isize, Construction> {
        self.static_construction_list@
    }

    /// The constructions that move, by id.
    pub closed spec fn dynamic_constructions(&self) -> Map<isize, Construction> {
        self.dynamic_construction_list@
    }

    /// The wind and the weather.
    pub closed spec fn spec_weather(&self) -> Weather {
        self.weather
    }

    /// Whether the parts of the map have the size of the map.
    pub closed spec fn structure_ok(&self) -> bool {
        &&& self.extent.width > 0
        &&& self.extent.height > 0
        &&& self.extent.width * self.extent.height <= i32::MAX
        &&& self.tile_map.spec_rows() == self.extent.width
        &&& self.tile_map.spec_columns() == self.extent.height
        &&& self.cached_tile_map.spec_rows() == self.extent.width
        &&& self.cached_tile_map.spec_columns() == self.extent.height
        &&& self.height_map.spec_width() == self.extent.width
        &&& self.height_map.spec_height() == self.extent.height
        &&& self.changed_tiles.spec_width() == self.extent.width
        &&& self.changed_tiles.spec_height() == self.extent.height
        &&& self.changed_tiles.wf()
    }

    /// Whether tiles and water agree: a tile with water names a place in
    /// the list of water, the water there lies at that tile, and all water
    /// in the list lies on the tile that names it. So no water is listed
    /// twice and none is lost.
    pub open spec fn water_consistent(&self) -> bool {
        &&& forall|p: Coordinate|
            self.inside(p) && (#[trigger] self.tile_at(p)).water.is_some() ==> {
                &&& self.tile_at(p).water.unwrap() < self.water_nodes().len()
                &&& self.water_nodes()[self.tile_at(p).water.unwrap() as int].spec_position() == p
            }
        &&& forall|i: int|
            0 <= i < self.water_nodes().len() ==> {
                &&& self.inside((#[trigger] self.water_nodes()[i]).spec_position())
                &&& self.tile_at(self.water_nodes()[i].spec_position()).water.is_some()
                &&& self.tile_at(self.water_nodes()[i].spec_position()).water.unwrap() == i
            }
    }

    /// Whether the map is in order.
    pub open spec fn wf(&self) -> bool {
        self.structure_ok() && self.water_consistent()
    }

    /// The grids of a map in order have the size of the map, and the map
    /// has cells.
    pub proof fn lemma_grid_sizes(&self)
        requires
            self.wf(),
        ensures
            self.spec_extent().width > 0,
            self.spec_extent().height > 0,
            self.spec_extent().width * self.spec_extent().height <= i32::MAX,
            self.tiles().spec_rows() == self.spec_extent().width,
            self.tiles().spec_columns() == self.spec_extent().height,
            self.cache().spec_rows() == self.spec_extent().width,
            self.cache().spec_columns() == self.spec_extent().height,
            self.ground().spec_width() == self.spec_extent().width,
            self.ground().spec_height() == self.spec_extent().height,
            self.changed().spec_width() == self.spec_extent().width,
            self.changed().spec_height() == self.spec_extent().height,
    {
    }

    /// Where two maps have the same tiles but at `at`, the tile at any
    /// other cell is the same.
    pub proof fn lemma_tile_kept(&self, other: &Self, at: Coordinate, q: Coordinate)
        requires
            self.wf(),
            self.same_tiles_but(other, at),
            self.inside(q),
            q != at,
        ensures
            self.tile_at(q) == other.tile_at(q),
    {
    }

    /// Tiles and water go on agreeing as long as every tile keeps naming
    /// the same water and all water stays where it is.
    pub proof fn lemma_water_kept(&self, after: &Self)
        requires
            self.water_consistent(),
            after.spec_extent() == self.spec_extent(),
            forall|p: Coordinate| self.inside(p) ==> (#[trigger] after.tile_at(p)).water == self.tile_at(p).water,
            after.water_nodes().len() == self.water_nodes().len(),
            forall|i: int|
                0 <= i < self.water_nodes().len() ==> (#[trigger] after.water_nodes()[i]).spec_position()
                    == self.water_nodes()[i].spec_position(),
        ensures
            after.water_consistent(),
    {
        assert forall|p: Coordinate|
            after.inside(p) && (#[trigger] after.tile_at(p)).water.is_some() implies {
            &&& after.tile_at(p).water.unwrap() < after.water_nodes().len()
            &&& after.water_nodes()[after.tile_at(p).water.unwrap() as int].spec_position() == p
        } by {
            assert(self.tile_at(p).water.is_some());
        }
        assert forall|i: int| 0 <= i < after.water_nodes().len() implies {
            &&& after.inside((#[trigger] after.water_nodes()[i]).spec_position())
            &&& after.tile_at(after.water_nodes()[i].spec_position()).water.is_some()
            &&& after.tile_at(after.water_nodes()[i].spec_position()).water.unwrap() == i
        } by {
            let q = self.water_nodes()[i].spec_position();
            assert(self.inside(q));
            assert(after.tile_at(q).water == self.tile_at(q).water);
        }
    }

    /// Whether the two maps have the same size and water level.
    pub open spec fn same_frame(&self, other: &Self) -> bool {
        &&& self.spec_extent() == other.spec_extent()
        &&& self.spec_water_level() == other.spec_water_level()
    }

    /// Whether the two maps have the same tiles.
    pub open spec fn same_tiles(&self, other: &Self) -> bool {
        self.tiles() == other.tiles()
    }

    /// Whether the two maps have the same tiles but, perhaps, at `at`.
    pub open spec fn same_tiles_but(&self, other: &Self, at: Coordinate) -> bool {
        self.tiles().same_but_at(&other.tiles(), at.x as int, at.y as int)
    }

    /// Whether the two maps have the same ground.
    pub open spec fn same_heights(&self, other: &Self) -> bool {
        self.ground() == other.ground()
    }

    /// Whether the two maps have the same cached views.
    pub open spec fn same_cache(&self, other: &Self) -> bool {
        self.cache() == other.cache()
    }

    /// Whether the same tiles count as changed on the two maps.
    pub open spec fn same_changed(&self, other: &Self) -> bool {
        self.changed() == other.changed()
    }

    /// Whether the two maps hold the same water, constructions and
    /// weather.
    pub open spec fn same_contents(&self, other: &Self) -> bool {
        &&& self.water_nodes() == other.water_nodes()
        &&& self.static_constructions() == other.static_constructions()
        &&& self.dynamic_constructions() == other.dynamic_constructions()
        &&& self.spec_weather() == other.spec_weather()
    }

    /// The construction that stands on the tile at `p`: the static one
    /// with the tile's id where there is one, else the dynamic one.
    pub open spec fn construction_on(&self, p: Coordinate) -> Option<&Construction> {
        match self.tile_at(p).construction {
            Some(id) => if self.static_constructions().contains_key(id) {
                Some(&self.static_constructions()[id])
            } else if self.dynamic_constructions().contains_key(id) {
                Some(&self.dynamic_constructions()[id])
            } else {
                None
            },
            None => None,
        }
    }

    /// The water that stands on the tile at `p`.
    pub open spec fn water_on(&self, p: Coordinate) -> Option<&WaterNode> {
        match self.tile_at(p).water {
            Some(i) => Some(&self.water_nodes()[i as int]),
            None => None,
        }
    }

    /// The cached view of the tile at `p` as it is once refreshed.
    pub open spec fn refreshed_cache_at(&self, p: Coordinate) -> CacheTile {
        self.cache_at(p).updated_from(self.tile_at(p), self.construction_on(p), self.water_on(p))
    }

    /// A map of 500 times 500 tiles of bare, level ground.
    pub fn new() -> (map: Self)
        ensures
            map.wf(),
            map.spec_extent() == (Size { width: DEFAULT_WIDTH, height: DEFAULT_HEIGHT }),
            map.is_blank(),
    {
        Self::with_extent(Size { width: DEFAULT_WIDTH, height: DEFAULT_HEIGHT })
    }

    /// Whether the map is as it was made: level ground, default tiles,
    /// no water, no constructions, nothing changed.
    pub open spec fn is_blank(&self) -> bool {
        &&& self.spec_water_level() == WATER_LEVEL
        &&& self.water_nodes().len() == 0
        &&& self.static_constructions() == Map::<isize, Construction>::empty()
        &&& self.dynamic_constructions() == Map::<isize, Construction>::empty()
        &&& forall|p: Coordinate| !self.is_changed(p)
        &&& forall|p: Coordinate| self.inside(p) ==> #[trigger] self.tile_at(p) == Tile::spec_default()
        &&& forall|p: Coordinate| self.inside(p) ==> #[trigger] self.height_at(p) == 0
        &&& forall|p: Coordinate|
            self.inside(p) ==> #[trigger] self.cache_at(p) == (CacheTile {
                x: p.x,
                y: p.y,
                ..CacheTile::spec_default()
            })
    }

    /// A map that is in every part a blank map is a blank map.
    pub proof fn lemma_blank_kept(&self, before: &Self)
        requires
            before.is_blank(),
            self.unchanged(before),
        ensures
            self.is_blank(),
    {
        assert forall|p: Coordinate| !self.is_changed(p) by {
            assert(!before.is_changed(p));
        }
        assert forall|p: Coordinate| self.inside(p) implies #[trigger] self.tile_at(p) == Tile::spec_default() by {
            assert(before.tile_at(p) == Tile::spec_default());
        }
        assert forall|p: Coordinate| self.inside(p) implies #[trigger] self.height_at(p) == 0 by {
            assert(before.height_at(p) == 0);
        }
        assert forall|p: Coordinate| self.inside(p) implies #[trigger] self.cache_at(p) == (CacheTile {
            x: p.x,
            y: p.y,
            ..CacheTile::spec_default()
        }) by {
            assert(before.cache_at(p) == (CacheTile { x: p.x, y: p.y, ..CacheTile::spec_default() }));
        }
    }

    /// A map of the given extent of bare, level ground.
    pub fn with_extent(extent: Size) -> (map: Self)
        requires
            extent.width > 0,
            extent.height > 0,
            extent.width * extent.height <= i32::MAX,
        ensures
            map.wf(),
            map.spec_extent() == extent,
            map.is_blank(),
    {
        let width = extent.width as usize;
        let height = extent.height as usize;
        assert(width * height == extent.width * extent.height) by (nonlinear_arith)
            requires
                width == extent.width,
                height == extent.height,
        ;
        let cached_tile_map = Array2D::new_with(width, height, blank_cache_tile);
        let map = Self {
            height_map: HeightField::new(width, height),
            tile_map: Array2D::new(width, height),
            cached_tile_map,
            extent,
            water_level: WATER_LEVEL,
            overlays: Vec::new(),
            changed_tiles: ChangedTiles::new(width, height),
            weather: Weather::new(),
            water_list: Vec::new(),
            static_construction_list: EntityList::new(),
            dynamic_construction_list: EntityList::new(),
        };
        assert(map.is_blank());
        map
    }

    pub fn extent(&self) -> (r: Size)
        ensures
            r == self.spec_extent(),
    {
        self.extent
    }

    pub fn water_level(&self) -> (r: i32)
        ensures
            r == self.spec_water_level(),
    {
        self.water_level
    }

    /// Whether `p` is a cell of the map.
    pub fn is_inside(&self, p: Coordinate) -> (r: bool)
        ensures
            r == self.inside(p),
    {
        self.extent.is_inside(p)
    }

    /// The tile at `p`.
    pub fn tile(&self, p: Coordinate) -> (r: &Tile)
        requires
            self.wf(),
            self.inside(p),
        ensures
            *r == self.tile_at(p),
    {
        self.tile_map.by_coordinate(p)
    }

    /// The cached view of the tile at `p`.
    pub fn cache_tile(&self, p: Coordinate) -> (r: &CacheTile)
        requires
            self.wf(),
            self.inside(p),
        ensures
            *r == self.cache_at(p),
    {
        self.cached_tile_map.by_coordinate(p)
    }

    /// The height of the ground at `p`, in thousandths of a level.
    pub fn height(&self, p: Coordinate) -> (r: i32)
        requires
            self.wf(),
            self.inside(p),
        ensures
            r == self.height_at(p),
    {
        self.height_map.get_value(p.x, p.y)
    }

    /// Sets the height of the ground at `p`. A cell that is not on the
    /// map is left out.
    pub fn set_height(&mut self, p: Coordinate, value: i32)
        requires
            old(self).wf(),
        ensures
            final(self).wf(),
            final(self).same_frame(old(self)),
            final(self).same_tiles(old(self)),
            final(self).same_cache(old(self)),
            final(self).same_changed(old(self)),
            final(self).same_contents(old(self)),
            forall|q: Coordinate|
                final(self).inside(q) ==> #[trigger] final(self).height_at(q) == (if q == p {
                    value
                } else {
                    old(self).height_at(q)
                }),
    {
        if self.extent.is_inside(p) {
            self.height_map.set_value(p.x, p.y, value);
        }
        proof {
            old(self).lemma_water_kept(&*self);
        }
    }

    /// Levels the ground: every height becomes 0.
    pub fn clear_heights(&mut self)
        requires
            old(self).wf(),
        ensures
            final(self).wf(),
            final(self).same_frame(old(self)),
            final(self).same_tiles(old(self)),
            final(self).same_cache(old(self)),
            final(self).same_changed(old(self)),
            final(self).same_contents(old(self)),
            forall|q: Coordinate| final(self).inside(q) ==> #[trigger] final(self).height_at(q) == 0,
    {
        self.height_map.clear();
        proof {
            old(self).lemma_water_kept(&*self);
        }
    }

    /// All the water on the map.
    pub fn water_list(&self) -> (r: &Vec<WaterNode>)
        ensures
            r@ == self.water_nodes(),
    {
        &self.water_list
    }

    /// The wind and the weather.
    pub fn weather(&self) -> (r: &Weather)
        ensures
            *r == self.spec_weather(),
    {
        &self.weather
    }

    /// Makes the tile at `p` ground of the kind `tile_type`.
    pub fn set_tile_type<G: Generator>(&mut self, p: Coordinate, tile_type: TileType, generator: &mut G)
        requires
            old(self).wf(),
        ensures
            final(self).wf(),
            final(self).tile_reset(old(self), p, tile_type),
    {
        self.set_tile_type_and_height(p, tile_type, 0, generator)
    }

    /// Whether this map is `before` after the tile at `p` was reset to
    /// `tile_type`: that tile is reset and counts as changed, and nothing
    /// else differs. Where `p` is no cell of the map, nothing differs.
    pub open spec fn tile_reset(&self, before: &Self, p: Coordinate, tile_type: TileType) -> bool {
        &&& self.same_frame(before)
        &&& self.same_heights(before)
        &&& self.same_cache(before)
        &&& self.same_contents(before)
        &&& self.same_tiles_but(before, p)
        &&& before.inside(p) ==> before.tile_at(p).reset_to(self.tile_at(p), tile_type)
        &&& forall|q: Coordinate|
            #[trigger] self.is_changed(q) == (before.is_changed(q) || (q == p && before.inside(p)))
    }

    /// Makes the tile at `p` ground of the kind `tile_type`, `tile_height`
    /// thousandths of a level high.
    pub fn set_tile_type_and_height<G: Generator>(
        &mut self,
        p: Coordinate,
        tile_type: TileType,
        tile_height: i32,
        generator: &mut G,
    )
        requires
            old(self).wf(),
        ensures
            final(self).wf(),
            final(self).tile_reset(old(self), p, tile_type),
    {
        if self.extent.is_inside(p) {
            self.tile_map.by_coordinate_mut(p).reset_type_and_height(tile_type, tile_height, generator);
            self.changed_tiles.insert(p);
        }
        proof {
            old(self).lemma_water_kept(&*self);
        }
    }

    /// Counts the tile at `p` as changed. A cell that is not on the map is
    /// left out.
    pub fn add_to_cache(&mut self, p: Coordinate)
        requires
            old(self).wf(),
        ensures
            final(self).wf(),
            final(self).same_frame(old(self)),
            final(self).same_tiles(old(self)),
            final(self).same_heights(old(self)),
            final(self).same_cache(old(self)),
            final(self).same_contents(old(self)),
            forall|q: Coordinate|
                #[trigger] final(self).is_changed(q) == (old(self).is_changed(q) || (q == p && old(self).inside(
                    p,
                ))),
    {
        self.changed_tiles.insert(p);
        proof {
            old(self).lemma_water_kept(&*self);
        }
    }

    /// Whether this map is `before` with the cached views of the changed
    /// tiles refreshed: the view of every tile that counted as changed
    /// shows the tile as it is, every other view is as it was, and no tile
    /// counts as changed any more.
    pub open spec fn cache_refreshed(&self, before: &Self) -> bool {
        &&& self.same_frame(before)
        &&& self.same_tiles(before)
        &&& self.same_heights(before)
        &&& self.same_contents(before)
        &&& forall|p: Coordinate| !self.is_changed(p)
        &&& forall|p: Coordinate|
            self.inside(p) ==> #[trigger] self.cache_at(p) == (if before.is_changed(p) {
                before.refreshed_cache_at(p)
            } else {
                before.cache_at(p)
            })
    }

    /// Refreshing the cache twice, with nothing changed in between, does
    /// no more than refreshing it once: the second refresh leaves every
    /// view as it is.
    pub proof fn lemma_refresh_twice(&self, once: &Self, twice: &Self)
        requires
            once.cache_refreshed(self),
            twice.cache_refreshed(once),
        ensures
            forall|p: Coordinate| twice.inside(p) ==> #[trigger] twice.cache_at(p) == once.cache_at(p),
            twice.same_tiles(once),
            twice.same_heights(once),
            twice.same_contents(once),
    {
        assert forall|p: Coordinate| twice.inside(p) implies #[trigger] twice.cache_at(p) == once.cache_at(p) by {
            assert(!once.is_changed(p));
        }
    }

    /// A tile whose cached view was refreshed is seen as it is: as
    /// walkable and as costly to cross as the tile itself.
    pub proof fn lemma_refreshed_is_fresh(&self, before: &Self, p: Coordinate)
        requires
            self.cache_refreshed(before),
            self.inside(p),
            before.is_changed(p),
        ensures
            self.cache_at(p).walkable == self.tile_at(p).walkable,
            self.cache_at(p).move_cost == self.tile_at(p).move_cost,
    {
    }

    /// Refreshes the cached view of every tile that counts as changed.
    pub fn update_cache(&mut self)
        requires
            old(self).wf(),
        ensures
            final(self).wf(),
            final(self).cache_refreshed(old(self)),
    {
        let changed = self.changed_tiles.drain();
        let ghost emptied = self.changed_tiles;
        proof {
            old(self).lemma_water_kept(&*self);
        }
        let mut i: usize = 0;
        while i < changed.len()
            invariant
                i <= changed.len(),
                old(self).wf(),
                self.wf(),
                self.same_frame(old(self)),
                self.same_tiles(old(self)),
                self.same_heights(old(self)),
                self.same_contents(old(self)),
                self.cache().spec_rows() == old(self).cache().spec_rows(),
                self.cache().spec_columns() == old(self).cache().spec_columns(),
                self.changed() == emptied,
                forall|p: Coordinate| !emptied.holds(p),
                forall|q: Coordinate| #[trigger] changed@.contains(q) == old(self).is_changed(q),
                forall|p: Coordinate|
                    self.inside(p) ==> #[trigger] self.cache_at(p) == (if exists|j: int|
                        0 <= j < i && changed@[j] == p {
                        old(self).refreshed_cache_at(p)
                    } else {
                        old(self).cache_at(p)
                    }),
            decreases changed.len() - i,
        {
            let p = changed[i];
            proof {
                assert(changed@.contains(p));
                assert(old(self).is_changed(p));
                old(self).changed_tiles.lemma_held_is_covered(p);
                assert(self.inside(p));
            }
            let tile = *self.tile_map.by_coordinate(p);
            assert(tile == self.tile_at(p));
            let construction = match tile.construction {
                Some(id) => {
                    let found = self.static_construction_list.get(id);
                    if found.is_some() {
                        found
                    } else {
                        self.dynamic_construction_list.get(id)
                    }
                },
                None => None,
            };
            let water = match tile.water {
                Some(index) => Some(&self.water_list[index]),
                None => None,
            };
            let ghost before = *self;
            self.cached_tile_map.by_coordinate_mut(p).update_from(&tile, construction, water);
            proof {
                before.lemma_water_kept(&*self);
                assert(construction == old(self).construction_on(p));
                assert(water == old(self).water_on(p));
                let refreshed = old(self).refreshed_cache_at(p);
                let prior = before.cache_at(p);
                assert(prior == refreshed || prior == old(self).cache_at(p));
                assert(tile == old(self).tile_at(p));
                assert(self.cache_at(p) == prior.updated_from(tile, construction, water));
                assert(refreshed.updated_from(tile, construction, water) == refreshed);
                assert(self.cache_at(p) == refreshed);
                assert forall|q: Coordinate| self.inside(q) implies #[trigger] self.cache_at(q) == (if exists|
                    j: int,
                | 0 <= j < i + 1 && changed@[j] == q {
                    old(self).refreshed_cache_at(q)
                } else {
                    old(self).cache_at(q)
                }) by {
                    if q == p {
                        assert(changed@[i as int] == q);
                    } else {
                        assert(self.cache_at(q) == before.cache_at(q));
                        if exists|j: int| 0 <= j < i + 1 && changed@[j] == q {
                            let j = choose|j: int| 0 <= j < i + 1 && changed@[j] == q;
                            assert(j < i);
                        }
                    }
                }
            }
            i += 1;
        }
        proof {
            assert forall|p: Coordinate| self.inside(p) implies #[trigger] self.cache_at(p) == (if old(
                self,
            ).is_changed(p) {
                old(self).refreshed_cache_at(p)
            } else {
                old(self).cache_at(p)
            }) by {
                if old(self).is_changed(p) {
                    assert(changed@.contains(p));
                    let j = choose|j: int| 0 <= j < changed.len() && changed@[j] == p;
                    assert(0 <= j < i && changed@[j] == p);
                } else {
                    if exists|j: int| 0 <= j < i && changed@[j] == p {
                        let j = choose|j: int| 0 <= j < i && changed@[j] == p;
                        assert(changed@.contains(changed@[j]));
                    }
                }
            }
        }
    }

    /// The water on a tile is listed once, at the place that the tile
    /// names, and lies at that tile.
    pub proof fn lemma_water_listed_once(&self, p: Coordinate, i: int)
        requires
            self.wf(),
            self.inside(p),
            0 <= i < self.water_nodes().len(),
            self.water_nodes()[i].spec_position() == p,
        ensures
            self.tile_at(p).water == Some(i as usize),
            forall|j: int|
                0 <= j < self.water_nodes().len() && (#[trigger] self.water_nodes()[j]).spec_position() == p ==> j
                    == i,
    {
    }

    /// The filth on the tile at `p`; none outside the map.
    pub fn filth(&self, p: Coordinate) -> (r: Option<FilthNode>)
        requires
            self.wf(),
        ensures
            r == (if self.inside(p) {
                self.tile_at(p).filth
            } else {
                None::<FilthNode>
            }),
    {
        if self.extent.is_inside(p) {
            self.tile_map.by_coordinate(p).filth
        } else {
            None
        }
    }

    /// Whether this map is `before` with another tile at `p`, which
    /// has the same water as the one before.
    pub open spec fn tile_replaced(&self, before: &Self, p: Coordinate) -> bool {
        &&& self.same_frame(before)
        &&& self.same_heights(before)
        &&& self.same_cache(before)
        &&& self.same_changed(before)
        &&& self.same_contents(before)
        &&& self.same_tiles_but(before, p)
        &&& self.tile_at(p).water == before.tile_at(p).water
    }

    /// Puts `filth` on the tile where it lies, in place of what filth was
    /// there. Filth that lies outside the map is dropped.
    pub fn add_filth(&mut self, filth: FilthNode)
        requires
            old(self).wf(),
        ensures
            final(self).wf(),
            !old(self).inside(filth.spec_position()) ==> final(self).same_tiles(old(self)) && final(self).tile_replaced(old(self), filth.spec_position()),
            old(self).inside(filth.spec_position()) ==> final(self).tile_replaced(
                old(self),
                filth.spec_position(),
            ) && final(self).tile_at(filth.spec_position()) == (Tile {
                filth: Some(filth),
                ..old(self).tile_at(filth.spec_position())
            }),
    {
        let p = filth.position();
        if self.extent.is_inside(p) {
            self.tile_map.by_coordinate_mut(p).filth = Some(filth);
        }
        proof {
            old(self).lemma_water_kept(&*self);
        }
    }

    /// Takes the filth off the tile at `p`.
    pub fn remove_filth(&mut self, p: Coordinate)
        requires
            old(self).wf(),
        ensures
            final(self).wf(),
            !old(self).inside(p) ==> final(self).same_tiles(old(self)) && final(self).tile_replaced(old(self), p),
            old(self).inside(p) ==> final(self).tile_replaced(old(self), p) && final(self).tile_at(p) == (Tile {
                filth: None,
                ..old(self).tile_at(p)
            }),
    {
        if self.extent.is_inside(p) {
            self.tile_map.by_coordinate_mut(p).filth = None;
        }
        proof {
            old(self).lemma_water_kept(&*self);
        }
    }

    /// The water on the tile at `p`; none outside the map.
    pub fn water(&self, p: Coordinate) -> (r: Option<&WaterNode>)
        requires
            self.wf(),
        ensures
            r == (if self.inside(p) {
                self.water_on(p)
            } else {
                None::<&WaterNode>
            }),
    {
        if self.extent.is_inside(p) {
            match self.tile_map.by_coordinate(p).water {
                Some(index) => {
                    assert(self.tile_at(p).water == Some(index));
                    Some(&self.water_list[index])
                },
                None => None,
            }
        } else {
            None
        }
    }

    /// Whether this map is `before` with `water` put on the dry tile where
    /// it lies: the water is listed last, the tile names it, and nothing
    /// else differs.
    pub open spec fn water_added(&self, before: &Self, water: WaterNode) -> bool {
        &&& self.same_frame(before)
        &&& self.same_heights(before)
        &&& self.same_cache(before)
        &&& self.same_changed(before)
        &&& self.static_constructions() == before.static_constructions()
        &&& self.dynamic_constructions() == before.dynamic_constructions()
        &&& self.spec_weather() == before.spec_weather()
        &&& self.same_tiles_but(before, water.spec_position())
        &&& self.tile_at(water.spec_position()) == (Tile {
            water: Some(before.water_nodes().len() as usize),
            ..before.tile_at(water.spec_position())
        })
        &&& self.water_nodes() == before.water_nodes().push(water)
    }

    /// Puts `water` on the tile where it lies. The tile has to be a tile
    /// of the map without water.
    pub fn add_water(&mut self, p: Coordinate, water: WaterNode)
        requires
            old(self).wf(),
            old(self).inside(p),
            water.spec_position() == p,
            old(self).tile_at(p).water.is_none(),
        ensures
            final(self).wf(),
            final(self).water_added(old(self), water),
    {
        let index = self.water_list.len();
        self.water_list.push(water);
        self.tile_map.by_coordinate_mut(p).water = Some(index);
        proof {
            assert forall|q: Coordinate| self.inside(q) && (#[trigger] self.tile_at(q)).water.is_some() implies {
                &&& self.tile_at(q).water.unwrap() < self.water_nodes().len()
                &&& self.water_nodes()[self.tile_at(q).water.unwrap() as int].spec_position() == q
            } by {
                if q != p {
                    assert(self.tile_at(q) == old(self).tile_at(q));
                }
            }
            assert forall|i: int| 0 <= i < self.water_nodes().len() implies {
                &&& self.inside((#[trigger] self.water_nodes()[i]).spec_position())
                &&& self.tile_at(self.water_nodes()[i].spec_position()).water.is_some()
                &&& self.tile_at(self.water_nodes()[i].spec_position()).water.unwrap() == i
            } by {
                if i < index {
                    let q = old(self).water_nodes()[i].spec_position();
                    assert(self.water_nodes()[i] == old(self).water_nodes()[i]);
                    assert(old(self).tile_at(q).water.is_some());
                    assert(q != p);
                    assert(self.tile_at(q) == old(self).tile_at(q));
                }
            }
        }
    }

    /// Whether this map is `before` with the water on the tile at `p`
    /// changed to `water`, which lies at the same place.
    pub open spec fn water_changed(&self, before: &Self, p: Coordinate, water: WaterNode) -> bool {
        &&& self.same_frame(before)
        &&& self.same_heights(before)
        &&& self.same_cache(before)
        &&& self.same_tiles(before)
        &&& self.static_constructions() == before.static_constructions()
        &&& self.dynamic_constructions() == before.dynamic_constructions()
        &&& self.spec_weather() == before.spec_weather()
        &&& self.water_nodes() == before.water_nodes().update(before.tile_at(p).water.unwrap() as int, water)
    }

    /// Pours `amount` of water on the tile at `p`. A dry tile gets water of
    /// that depth; on a wet one the water gets that much deeper, up to the
    /// greatest depth there is, and the tile counts as changed if that
    /// changes how shallow water looks. Filth on the tile goes into the
    /// water. A cell that is not on the map is left out.
    pub fn create_water<G: Generator>(&mut self, p: Coordinate, amount: i32, time: i32, generator: &mut G)
        requires
            old(self).wf(),
        ensures
            final(self).wf(),
            final(self).same_frame(old(self)),
            final(self).same_heights(old(self)),
            final(self).same_cache(old(self)),
            !old(self).inside(p) ==> final(self).same_tiles(old(self)) && final(self).same_changed(old(self))
                && final(self).same_contents(old(self)),
            old(self).inside(p) ==> final(self).watered(old(self), p, amount, time),
    {
        if !self.extent.is_inside(p) {
            return ;
        }
        let tile = *self.tile_map.by_coordinate(p);
        assert(tile == self.tile_at(p));
        match tile.water {
            None => {
                let mut new_water = WaterNode::new(p, amount, time, generator);
                match tile.filth {
                    Some(filth) => {
                        new_water.set_filth(filth.depth());
                    },
                    None => {},
                }
                self.add_water(p, new_water);
                proof {
                    assert(self.water_nodes().subrange(0, old(self).water_nodes().len() as int) =~= old(
                        self,
                    ).water_nodes());
                }
            },
            Some(index) => {
                let ghost before = *self;
                let mut water = self.water_list[index];
                match tile.filth {
                    Some(filth) => {
                        water.set_filth(filth.depth());
                    },
                    None => {},
                }
                let sum = water.depth() as i64 + amount as i64;
                let new_depth: i32 = if sum > i32::MAX as i64 {
                    i32::MAX
                } else if sum < i32::MIN as i64 {
                    i32::MIN
                } else {
                    sum as i32
                };
                let ghost was = water;
                let changed = water.set_depth(new_depth, generator);
                self.water_list[index] = water;
                proof {
                    assert(old(self).water_nodes()[index as int].spec_position() == p);
                    assert(water.spec_position() == p);
                    before.lemma_water_kept(&*self);
                }
                let ghost poured = *self;
                match changed {
                    Some(at) => {
                        assert(at == p);
                        self.add_to_cache(at);
                    },
                    None => {},
                }
                proof {
                    assert forall|q: Coordinate|
                        #[trigger] self.is_changed(q) == (old(self).is_changed(q) || (q == p
                            && WaterNode::shallow_change(
                            old(self).water_nodes()[index as int].spec_depth(),
                            new_depth,
                        ))) by {
                        assert(poured.is_changed(q) == old(self).is_changed(q));
                    }
                }
            },
        }
        let ghost poured = *self;
        if tile.filth.is_some() {
            self.remove_filth(p);
        }
        proof {
            assert forall|q: Coordinate| #[trigger] self.is_changed(q) == poured.is_changed(q) by {}
        }
    }

    /// Whether this map is `before` after `amount` of water was poured on
    /// the tile at `p`.
    pub open spec fn watered(&self, before: &Self, p: Coordinate, amount: i32, time: i32) -> bool {
        let filth = before.tile_at(p).filth;
        &&& self.same_tiles_but(before, p)
        &&& self.static_constructions() == before.static_constructions()
        &&& self.dynamic_constructions() == before.dynamic_constructions()
        &&& self.spec_weather() == before.spec_weather()
        &&& self.tile_at(p).filth.is_none()
        &&& match before.tile_at(p).water {
            None => {
                &&& self.tile_at(p) == (Tile {
                    water: Some(before.water_nodes().len() as usize),
                    filth: None,
                    ..before.tile_at(p)
                })
                &&& self.water_nodes().len() == before.water_nodes().len() + 1
                &&& self.water_nodes().subrange(0, before.water_nodes().len() as int) == before.water_nodes()
                &&& self.water_nodes().last().spec_position() == p
                &&& self.water_nodes().last().spec_depth() == amount
                &&& self.water_nodes().last().spec_time_from_river_bed() == time
                &&& self.water_nodes().last().spec_filth() == (if filth.is_some() {
                    filth.unwrap().spec_depth()
                } else {
                    0
                })
                &&& self.same_changed(before)
            },
            Some(index) => {
                let was = before.water_nodes()[index as int];
                let is = self.water_nodes()[index as int];
                let depth = if was.spec_depth() + amount > i32::MAX {
                    i32::MAX
                } else if was.spec_depth() + amount < i32::MIN {
                    i32::MIN
                } else {
                    (was.spec_depth() + amount) as i32
                };
                &&& self.tile_at(p) == (Tile { filth: None, ..before.tile_at(p) })
                &&& self.water_nodes().len() == before.water_nodes().len()
                &&& forall|i: int|
                    0 <= i < self.water_nodes().len() && i != index ==> #[trigger] self.water_nodes()[i]
                        == before.water_nodes()[i]
                &&& is.spec_position() == p
                &&& is.spec_depth() == depth
                &&& is.spec_time_from_river_bed() == was.spec_time_from_river_bed()
                &&& is.spec_filth() == (if filth.is_some() {
                    filth.unwrap().spec_depth()
                } else {
                    was.spec_filth()
                })
                &&& forall|q: Coordinate|
                    #[trigger] self.is_changed(q) == (before.is_changed(q) || (q == p && WaterNode::shallow_change(
                        was.spec_depth(),
                        depth,
                    )))
            },
        }
    }

    /// How many of the first `scanned` cells of the five times five
    /// cells around `p`, taken row by row, are tiles with a plant.
    pub open spec fn flora_around_after(&self, p: Coordinate, scanned: int) -> int
        decreases scanned,
    {
        if scanned <= 0 {
            0
        } else {
            let x = p.x - 2 + (scanned - 1) / 5;
            let y = p.y - 2 + (scanned - 1) % 5;
            let on_map = 0 <= x < self.spec_extent().width && 0 <= y < self.spec_extent().height;
            self.flora_around_after(p, scanned - 1) + (if on_map && self.tile_at(
                Coordinate { x: x as i32, y: y as i32 },
            ).nature_object.is_some() {
                1int
            } else {
                0int
            })
        }
    }

    /// How many tiles with a plant lie at most two cells away from `p`.
    pub open spec fn flora_around(&self, p: Coordinate) -> int {
        self.flora_around_after(p, 25)
    }

    /// Lets a turn pass on the tile at `p`: steps on it fade and burnt
    /// grass recovers. Says whether a plant should come up on the tile: it
    /// lies fallow and the land around it holds fewer plants than it can.
    pub fn naturify(&mut self, p: Coordinate) -> (sprouts: bool)
        requires
            old(self).wf(),
        ensures
            final(self).wf(),
            final(self).tile_replaced(old(self), p),
            !old(self).inside(p) ==> !sprouts && final(self).same_tiles(old(self)),
            old(self).inside(p) ==> final(self).tile_at(p) == old(self).tile_at(p).settled(),
            old(self).inside(p) ==> sprouts == (final(self).tile_at(p).lies_fallow() && final(self).flora_around(p)
                < final(self).tile_at(p).flora_target()),
    {
        if !self.extent.is_inside(p) {
            return false;
        }
        self.tile_map.by_coordinate_mut(p).settle();
        proof {
            assert(old(self).tile_at(p).settled().water == old(self).tile_at(p).water);
            old(self).lemma_water_kept(&*self);
        }
        let tile = *self.tile_map.by_coordinate(p);
        if tile.walked_over == 0 && tile.nature_object.is_none() && tile.construction.is_none() {
            let mut nature_objects: i32 = 0;
            let mut k: i32 = 0;
            while k < 25
                invariant
                    0 <= k <= 25,
                    self.wf(),
                    self.inside(p),
                    nature_objects == self.flora_around_after(p, k as int),
                    0 <= nature_objects <= k,
                decreases 25 - k,
            {
                let x: i64 = p.x as i64 - 2 + (k / 5) as i64;
                let y: i64 = p.y as i64 - 2 + (k % 5) as i64;
                if 0 <= x && x < self.extent.width as i64 && 0 <= y && y < self.extent.height as i64 {
                    let cell = Coordinate { x: x as i32, y: y as i32 };
                    if self.tile_map.by_coordinate(cell).nature_object.is_some() {
                        nature_objects += 1;
                    }
                }
                k += 1;
            }
            let target = if tile.corruption < 100 {
                6
            } else {
                1
            };
            nature_objects < target
        } else {
            false
        }
    }

    /// Whether this map is `before` with another wind: the wind, and the
    /// prevailing wind, blow from one of the eight compass directions,
    /// and nothing else differs.
    pub open spec fn wind_drawn(&self, before: &Self) -> bool {
        &&& self.same_frame(before)
        &&& self.same_tiles(before)
        &&& self.same_heights(before)
        &&& self.same_cache(before)
        &&& self.same_changed(before)
        &&& self.water_nodes() == before.water_nodes()
        &&& self.static_constructions() == before.static_constructions()
        &&& self.dynamic_constructions() == before.dynamic_constructions()
        &&& self.spec_weather().same_season(&before.spec_weather())
        &&& self.spec_weather().spec_wind_direction() != Direction::NoDirection
        &&& <Direction as Selection>::choices().contains(self.spec_weather().spec_wind_direction())
        &&& self.spec_weather().spec_wind_direction() == self.spec_weather().spec_prevailing_wind_direction()
    }

    /// Lets the wind blow from a direction drawn by chance.
    pub fn randomize_wind<G: Generator>(&mut self, generator: &mut G)
        requires
            old(self).wf(),
        ensures
            final(self).wf(),
            final(self).wind_drawn(old(self)),
    {
        self.weather.randomize_wind(generator);
        proof {
            old(self).lemma_water_kept(&*self);
        }
    }

    /// Puts `construction` on the map under `id`, among those that stay
    /// where they are if `permanent` says so, else among those that move,
    /// and lets the tile at `p` name it.
    pub fn add_construction(&mut self, p: Coordinate, id: isize, construction: Construction, permanent: bool)
        requires
            old(self).wf(),
            old(self).inside(p),
        ensures
            final(self).wf(),
            final(self).same_frame(old(self)),
            final(self).same_heights(old(self)),
            final(self).same_cache(old(self)),
            final(self).water_nodes() == old(self).water_nodes(),
            final(self).same_tiles_but(old(self), p),
            final(self).tile_at(p) == (Tile { construction: Some(id), ..old(self).tile_at(p) }),
            final(self).static_constructions() == (if permanent {
                old(self).static_constructions().insert(id, construction)
            } else {
                old(self).static_constructions()
            }),
            final(self).dynamic_constructions() == (if permanent {
                old(self).dynamic_constructions()
            } else {
                old(self).dynamic_constructions().insert(id, construction)
            }),
            forall|q: Coordinate| #[trigger] final(self).is_changed(q) == (old(self).is_changed(q) || q == p),
    {
        if permanent {
            self.static_construction_list.insert(id, construction);
        } else {
            self.dynamic_construction_list.insert(id, construction);
        }
        self.tile_map.by_coordinate_mut(p).construction = Some(id);
        self.changed_tiles.insert(p);
        proof {
            old(self).lemma_water_kept(&*self);
        }
    }
}

} // verus!
