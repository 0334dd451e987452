use goblin_camp::coordinate::{Coordinate, Direction};
use goblin_camp::data::base::Size;
use goblin_camp::data::random::{DefaultGenerator, StaticGenerator};
use goblin_camp::game::game_data::construction::{Construction, Tag};
use goblin_camp::game::game_data::filth_node::FilthNode;
use goblin_camp::game::game_data::height_field::HeightField;
use goblin_camp::game::game_data::map::changed_tiles::ChangedTiles;
use goblin_camp::game::game_data::map::marker::{MapMarker, MarkerType};
use goblin_camp::game::game_data::map::tile::{ground_glyph, CacheTile, Tile, TileType};
use goblin_camp::game::game_data::map::weather::Weather;
use goblin_camp::game::game_data::map::{
    ConstructionHelper, EntityList, MapExtentHelper, MapGraphicDrawable, WorldMap, WATER_LEVEL,
};
use goblin_camp::game::game_data::water_node::{WaterNode, RIVER_DEPTH};
use goblin_camp::util::tcod::Color;

fn small_map() -> WorldMap {
    WorldMap::with_extent(Size::new(12, 9))
}

#[test]
fn new_map_is_blank() {
    let map = small_map();
    assert_eq!(map.extent().width, 12);
    assert_eq!(map.extent().height, 9);
    assert_eq!(map.water_level(), WATER_LEVEL);
    assert_eq!(map.water_level(), -800);
    assert!(map.water_list().is_empty());
    for x in 0..12 {
        for y in 0..9 {
            let p = Coordinate::new(x, y);
            assert!(map.is_inside(p));
            assert_eq!(map.height(p), 0);
            assert_eq!(map.tile(p).tile_type, TileType::Grass);
            assert_eq!(map.tile(p).flow, Direction::NoDirection);
            assert!(!map.tile(p).has_water());
            assert_eq!(map.cache_tile(p).x, x);
            assert_eq!(map.cache_tile(p).y, y);
            assert!(!map.cache_tile(p).walkable);
        }
    }
    assert!(!map.is_inside(Coordinate::new(12, 0)));
    assert!(!map.is_inside(Coordinate::new(0, -1)));
}

#[test]
fn default_map_is_five_hundred_square() {
    let map = WorldMap::new();
    assert_eq!((map.extent().width, map.extent().height), (500, 500));
    assert_eq!(map.tile(Coordinate::new(499, 499)).tile_type, TileType::Grass);
}

#[test]
fn extent_answers_questions() {
    let extent = Size::new(5, 7);
    assert!(extent.is_inside(Coordinate::new(4, 6)));
    assert!(!extent.is_inside(Coordinate::new(5, 6)));
    assert_eq!(extent.shrink(Coordinate::new(9, -2)), Coordinate::new(4, 0));
    assert_eq!(extent.shrink(Coordinate::new(2, 3)), Coordinate::new(2, 3));
}

#[test]
fn setting_a_tile_type_marks_it_changed() {
    let mut map = small_map();
    let mut generator = DefaultGenerator::new_with_seed(1);
    let p = Coordinate::new(3, 4);
    map.set_tile_type(p, TileType::Bog, &mut generator);
    let tile = *map.tile(p);
    assert_eq!(tile.tile_type, TileType::Bog);
    assert!(tile.walkable && tile.buildable && tile.vis);
    assert!(!tile.low);
    assert!((6..=10).contains(&tile.move_cost));
    assert_eq!(tile.fore_color, tile.original_fore_color);
    assert_eq!(tile.back_color, Color::new(60, 30, 20));

    // Nothing is refreshed before the cache is updated.
    assert!(!map.cache_tile(p).walkable);
    map.update_cache();
    assert!(map.cache_tile(p).walkable);
    assert_eq!(map.cache_tile(p).move_cost, tile.move_cost);
    // The neighbours were never changed, so their views are as they were.
    assert!(!map.cache_tile(Coordinate::new(3, 5)).walkable);

    // A cell off the map is left out.
    map.set_tile_type(Coordinate::new(40, 40), TileType::Rock, &mut generator);
    map.set_tile_type_and_height(Coordinate::new(-1, 0), TileType::Rock, 100, &mut generator);
    map.add_to_cache(Coordinate::new(-5, 2));
    map.update_cache();
}

#[test]
fn every_kind_of_ground_resets_as_it_should() {
    let mut generator = DefaultGenerator::new_with_seed(9);
    for _ in 0..50 {
        for kind in [
            TileType::NoTile,
            TileType::Grass,
            TileType::Ditch,
            TileType::Riverbed,
            TileType::Bog,
            TileType::Rock,
            TileType::Mud,
            TileType::Snow,
        ] {
            let mut tile = Tile::default();
            tile.flow = Direction::East;
            tile.move_cost = 77;
            tile.water = Some(4);
            tile.walked_over = 3;
            tile.reset_type_and_height(kind, 0, &mut generator);
            assert_eq!(tile.tile_type, kind);
            let shown = kind != TileType::NoTile;
            assert_eq!((tile.vis, tile.walkable, tile.buildable), (shown, shown, shown));
            let low = matches!(kind, TileType::Ditch | TileType::Riverbed | TileType::Mud);
            assert_eq!(tile.low, low);
            match kind {
                TileType::Ditch | TileType::Riverbed => {
                    assert!((3..=5).contains(&tile.move_cost));
                    assert_eq!(tile.flow, Direction::NoDirection);
                    assert_eq!(tile.graphic, '_');
                    assert_eq!(tile.original_fore_color, Color::new(125, 50, 0));
                }
                TileType::Bog => {
                    assert!((6..=10).contains(&tile.move_cost));
                    assert_eq!(tile.flow, Direction::East);
                }
                TileType::Mud => {
                    assert_eq!(tile.move_cost, 5);
                    assert_eq!(tile.flow, Direction::East);
                }
                _ => {
                    assert_eq!(tile.move_cost, 77);
                    assert_eq!(tile.flow, Direction::East);
                }
            }
            assert_eq!(tile.water, Some(4));
            assert_eq!(tile.walked_over, 3);
            assert_eq!(tile.fore_color, tile.original_fore_color);
        }
    }
}

#[test]
fn ground_glyphs_by_roll() {
    assert_eq!(ground_glyph(0, '.'), '.');
    assert_eq!(ground_glyph(3, '~'), '~');
    assert_eq!(ground_glyph(4, '.'), ',');
    assert_eq!(ground_glyph(7, '.'), ',');
    assert_eq!(ground_glyph(8, '.'), ':');
    assert_eq!(ground_glyph(9, '.'), '\'');
}

#[test]
fn grass_burns_and_recovers() {
    let mut tile = Tile::default();
    tile.original_fore_color = Color::new(20, 127, 0);
    tile.fore_color = tile.original_fore_color;
    tile.burn(3);
    assert_eq!(tile.burnt, 3);
    assert_eq!(tile.fore_color, Color::new(150, 90, 0));
    tile.burn(4);
    assert_eq!(tile.burnt, 7);
    assert_eq!(tile.fore_color, Color::new(86, 68, 20));
    tile.burn(100);
    assert_eq!(tile.burnt, 10);
    assert_eq!(tile.fore_color, Color::new(50, 50, 50));
    tile.burn(-100);
    assert_eq!(tile.burnt, 0);
    assert_eq!(tile.fore_color, Color::new(20, 127, 0));
    tile.burn(i32::MAX);
    assert_eq!(tile.burnt, 10);

    let mut rock = Tile::default();
    rock.tile_type = TileType::Rock;
    rock.burn(5);
    assert_eq!(rock.burnt, 0);
}

#[test]
fn corruption_takes_the_green_away() {
    let mut tile = Tile::default();
    tile.original_fore_color = Color::new(20, 127, 0);
    tile.walked_over = 30;
    tile.corrupt(100);
    assert_eq!(tile.corruption, 100);
    assert_eq!(tile.fore_color, Color::new(50, 27, 0));
    tile.corrupt(-500);
    assert_eq!(tile.corruption, 0);
    assert_eq!(tile.fore_color, Color::new(50, 127, 0));
    tile.corrupt(1000);
    assert_eq!(tile.fore_color, Color::new(50, 0, 0));
    tile.burnt = 2;
    tile.corrupt(0);
    assert_eq!(tile.fore_color, Color::new(160, 95, 0));
}

#[test]
fn a_turn_settles_a_tile() {
    let mut tile = Tile::default();
    tile.walked_over = 2;
    tile.burnt = 1;
    tile.original_fore_color = Color::new(10, 100, 0);
    tile.settle();
    assert_eq!(tile.walked_over, 1);
    assert_eq!(tile.burnt, 0);
    assert_eq!(tile.fore_color, Color::new(11, 100, 0));
    tile.settle();
    tile.settle();
    assert_eq!(tile.walked_over, 0);
}

#[test]
fn naturify_tells_where_plants_come_up() {
    let mut map = small_map();
    let p = Coordinate::new(5, 5);
    assert!(map.naturify(p));
    assert!(!map.naturify(Coordinate::new(50, 5)));
    map.add_construction(p, 3, Construction::new(vec![Tag::Wall], 0), true);
    assert!(!map.naturify(p));
}

#[test]
fn water_and_tiles_agree() {
    let mut map = small_map();
    let mut generator = DefaultGenerator::new_with_seed(2);
    let p = Coordinate::new(2, 2);
    let q = Coordinate::new(7, 1);
    assert!(map.water(p).is_none());
    map.create_water(p, RIVER_DEPTH, 0, &mut generator);
    map.create_water(q, 7, 3, &mut generator);
    map.create_water(Coordinate::new(-1, -1), 7, 3, &mut generator);
    assert_eq!(map.water_list().len(), 2);
    assert_eq!(map.tile(p).water, Some(0));
    assert_eq!(map.tile(q).water, Some(1));
    assert_eq!(map.water(p).unwrap().depth(), 5000);
    assert_eq!(map.water(p).unwrap().position(), p);
    assert_eq!(map.water(q).unwrap().depth(), 7);
    assert_eq!(map.water(q).unwrap().position(), q);
    assert!(map.water(Coordinate::new(99, 0)).is_none());

    // More water on a wet tile deepens it and lists nothing new.
    map.create_water(q, 5, 0, &mut generator);
    assert_eq!(map.water_list().len(), 2);
    assert_eq!(map.water(q).unwrap().depth(), 12);
    map.create_water(p, i32::MAX, 0, &mut generator);
    assert_eq!(map.water(p).unwrap().depth(), i32::MAX);

    for (i, node) in map.water_list().iter().enumerate() {
        assert_eq!(map.tile(node.position()).water, Some(i));
    }
}

#[test]
fn filth_goes_into_the_water() {
    let mut map = small_map();
    let mut generator = DefaultGenerator::new_with_seed(2);
    let p = Coordinate::new(4, 4);
    map.add_filth(FilthNode::new(p, 9));
    map.add_filth(FilthNode::new(Coordinate::new(-4, 4), 9));
    assert_eq!(map.filth(p).unwrap().depth(), 9);
    assert!(map.filth(Coordinate::new(0, 0)).is_none());
    assert!(map.filth(Coordinate::new(-4, 4)).is_none());
    map.create_water(p, 10, 0, &mut generator);
    assert!(map.filth(p).is_none());
    assert_eq!(map.water(p).unwrap().filth(), 9);
    map.add_filth(FilthNode::new(p, 2));
    map.remove_filth(p);
    map.remove_filth(Coordinate::new(100, 100));
    assert!(map.filth(p).is_none());
}

#[test]
fn stale_views_stay_until_marked() {
    let mut map = small_map();
    let mut generator = DefaultGenerator::new_with_seed(2);
    let p = Coordinate::new(6, 6);
    map.create_water(p, RIVER_DEPTH, 0, &mut generator);
    map.update_cache();
    // Nothing marked the tile as changed, so its view is as it was.
    assert_eq!(map.cache_tile(p).water_depth, 0);
    map.add_to_cache(p);
    map.update_cache();
    assert_eq!(map.cache_tile(p).water_depth, 5000);

    // A second update with nothing changed in between changes nothing.
    let before: Vec<CacheTile> = all_cells(&map).iter().map(|c| *map.cache_tile(*c)).collect();
    map.update_cache();
    let after: Vec<CacheTile> = all_cells(&map).iter().map(|c| *map.cache_tile(*c)).collect();
    assert_eq!(before, after);
}

fn all_cells(map: &WorldMap) -> Vec<Coordinate> {
    let mut cells = Vec::new();
    for x in 0..map.extent().width {
        for y in 0..map.extent().height {
            cells.push(Coordinate::new(x, y));
        }
    }
    cells
}

#[test]
fn shallow_water_marks_the_tile() {
    let mut map = small_map();
    let mut generator = DefaultGenerator::new_with_seed(2);
    let p = Coordinate::new(1, 1);
    map.create_water(p, 5, 0, &mut generator);
    map.add_to_cache(p);
    map.update_cache();
    assert_eq!(map.cache_tile(p).water_depth, 5);
    map.create_water(p, 3, 0, &mut generator);
    map.update_cache();
    assert_eq!(map.cache_tile(p).water_depth, 8);
    map.create_water(p, 100, 0, &mut generator);
    map.update_cache();
    // From shallow to deep the tile is not marked.
    assert_eq!(map.cache_tile(p).water_depth, 8);
}

#[test]
fn water_node_depth_changes() {
    let mut generator = DefaultGenerator::new_with_seed(2);
    let p = Coordinate::new(3, 3);
    let mut water = WaterNode::new(p, 10, 4, &mut generator);
    assert_eq!(water.depth(), 10);
    assert_eq!(water.filth(), 0);
    assert_eq!(water.position(), p);
    assert_eq!(water.set_depth(12, &mut generator), Some(p));
    assert_eq!(water.set_depth(12, &mut generator), None);
    assert_eq!(water.set_depth(21, &mut generator), None);
    assert_eq!(water.set_depth(20, &mut generator), None);
    assert_eq!(water.set_depth(0, &mut generator), Some(p));
    assert_eq!(MapGraphicDrawable::graphic(&water), ' ');
    water.set_depth(1, &mut generator);
    assert_eq!(water.graphic(), '.');
    water.set_depth(2, &mut generator);
    assert_eq!(water.graphic(), 178 as char);
    water.set_depth(3, &mut generator);
    assert_eq!(water.graphic(), 219 as char);
    water.set_filth(6);
    assert_eq!(water.filth(), 6);
    assert_eq!(RIVER_DEPTH, 5000);
    for depth in [-100_000, -1, 0, 20, 5000, i32::MAX, i32::MIN] {
        water.set_filth(depth / 3);
        for _ in 0..300 {
            water.set_depth(depth, &mut generator);
        }
    }
}

#[test]
fn constructions_show_in_the_cache() {
    let mut map = small_map();
    let p = Coordinate::new(2, 3);
    let q = Coordinate::new(4, 4);
    map.add_construction(p, 7, Construction::new(vec![Tag::Door, Tag::Wall], 3), true);
    map.add_construction(q, 8, Construction::new(vec![Tag::Bridge, Tag::Trap], -2), false);
    map.update_cache();
    let door = *map.cache_tile(p);
    assert!(door.construction && door.door && !door.trap && !door.bridge);
    assert_eq!(door.move_speed_modifier, 3);
    let bridge = *map.cache_tile(q);
    assert!(bridge.construction && !bridge.door && bridge.trap && bridge.bridge);
    assert_eq!(bridge.move_speed_modifier, -2);
    assert!(!map.cache_tile(Coordinate::new(0, 0)).construction);

    // A static construction comes before a dynamic one with the same id.
    map.add_construction(q, 7, Construction::new(vec![Tag::Trap], 9), false);
    map.update_cache();
    let shadowed = *map.cache_tile(q);
    assert!(shadowed.door && !shadowed.trap);
    assert_eq!(shadowed.move_speed_modifier, 3);
}

#[test]
fn cache_tile_follows_the_tile() {
    let mut generator = DefaultGenerator::new_with_seed(2);
    let mut view = CacheTile::default();
    view.x = 4;
    view.npc_count = 2;
    let mut tile = Tile::default();
    tile.walkable = true;
    tile.move_cost = 6;
    let door = Construction::new(vec![Tag::Door], 1);
    let water = WaterNode::new(Coordinate::new(4, 0), 30, 0, &mut generator);
    view.update_from(&tile, Some(&door), Some(&water));
    assert!(view.walkable && view.construction && view.door);
    assert_eq!((view.move_cost, view.move_speed_modifier, view.water_depth), (6, 1, 30));
    assert_eq!((view.x, view.npc_count), (4, 2));
    view.update_from(&tile, None, None);
    assert!(!view.construction && !view.door);
    assert_eq!((view.move_speed_modifier, view.water_depth), (0, 0));
}

#[test]
fn entity_lists_find_by_id() {
    let mut first: EntityList<Construction> = EntityList::new();
    let mut second: EntityList<Construction> = EntityList::new();
    assert_eq!(first.len(), 0);
    first.insert(1, Construction::new(vec![Tag::Bed], 1));
    second.insert(1, Construction::new(vec![Tag::Wall], 2));
    second.insert(2, Construction::new(vec![Tag::Wall], 3));
    assert_eq!(first.len(), 1);
    assert!(first.get(2).is_none());
    let lists = [&first, &second];
    assert_eq!(lists.as_slice().construction(1).unwrap().get_move_speed_modifier(), 1);
    assert_eq!(lists.as_slice().construction(2).unwrap().get_move_speed_modifier(), 3);
    assert!(lists.as_slice().construction(3).is_none());
    assert!(first.get(1).unwrap().has_tag(Tag::Bed));
    assert!(!first.get(1).unwrap().has_tag(Tag::Door));
}

#[test]
fn wind_blows_from_a_compass_direction() {
    let mut generator = DefaultGenerator::new_with_seed(2);
    let mut weather = Weather::new();
    assert_eq!(weather.wind_direction(), Direction::North);
    for _ in 0..100 {
        weather.randomize_wind(&mut generator);
        assert_ne!(weather.wind_direction(), Direction::NoDirection);
        assert_eq!(weather.wind_direction(), weather.prevailing_wind_direction());
    }
    let mut map = small_map();
    map.randomize_wind(&mut StaticGenerator::default());
    assert_eq!(map.weather().wind_direction(), Direction::North);
}

#[test]
fn height_field_keeps_heights() {
    let mut field = HeightField::new(4, 3);
    assert_eq!((field.width(), field.height()), (4, 3));
    field.set_value(3, 2, -900);
    field.set_value(0, 0, 4500);
    assert_eq!(field.get_value(3, 2), -900);
    assert_eq!(field.get_value(0, 0), 4500);
    assert_eq!(field.get_value(1, 1), 0);
    field.clear();
    assert_eq!(field.get_value(3, 2), 0);
    assert_eq!(field.get_value(0, 0), 0);
}

#[test]
fn changed_tiles_hold_each_cell_once() {
    let mut changed = ChangedTiles::new(4, 4);
    assert!(changed.is_empty());
    changed.insert(Coordinate::new(1, 2));
    changed.insert(Coordinate::new(1, 2));
    changed.insert(Coordinate::new(3, 3));
    changed.insert(Coordinate::new(4, 0));
    changed.insert(Coordinate::new(0, -1));
    assert!(changed.contains(Coordinate::new(1, 2)));
    assert!(!changed.contains(Coordinate::new(2, 1)));
    assert!(!changed.contains(Coordinate::new(4, 0)));
    let taken = changed.drain();
    assert_eq!(taken, vec![Coordinate::new(1, 2), Coordinate::new(3, 3)]);
    assert!(changed.is_empty());
    assert!(!changed.contains(Coordinate::new(1, 2)));
    assert!(changed.drain().is_empty());
}

#[test]
fn marker_shows_its_glyph() {
    let pink = Color { r: 255, g: 0, b: 255 };
    let marker = MapMarker::new(MarkerType::Flashing, '?', Coordinate::new(3, 4), 10, pink);
    assert_eq!(marker.marker_type(), MarkerType::Flashing);
    assert_eq!(marker.position(), Coordinate::new(3, 4));
    assert_eq!(marker.duration(), 10);
    assert_eq!(marker.graphic(), '?');
    assert_eq!(marker.fore_color(), pink);
    assert_eq!(marker.back_color(), Color { r: 0, g: 0, b: 0 });
}
