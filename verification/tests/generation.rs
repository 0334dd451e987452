use goblin_camp::coordinate::{Coordinate, Direction};
use goblin_camp::data::base::Size;
use goblin_camp::data::random::{DefaultGenerator, Generator, StaticGenerator};
use goblin_camp::data::settings::{Display, Settings};
use goblin_camp::game::game_data::map::tile::TileType;
use goblin_camp::game::game_data::map::WorldMap;
use goblin_camp::game::game_data::{
    bog_reach, draw_river_course, ends_apart, place_hills, plan_river, river_margin, standard_smoothing, walk,
    GameData, Hill, MapGenerationStage, MapGenerationState, TerrainWork,
};

fn settings(river_width: u32, river_depth: u32) -> Settings {
    let mut settings = Settings::new(Display { fullscreen: false, resolution: Size::new(800, 600) });
    settings.river_width = river_width;
    settings.river_depth = river_depth;
    settings
}

/// Lowers the ground in a band round the line through the control points.
fn dig(data: &mut GameData, px: &[i32; 4], py: &[i32; 4], width: u32, depth: u32) {
    let reach = width as i32 + 2;
    for i in 0..3 {
        let steps = (px[i + 1] - px[i]).abs().max((py[i + 1] - py[i]).abs()).max(1);
        for s in 0..=steps {
            let cx = px[i] + (px[i + 1] - px[i]) * s / steps;
            let cy = py[i] + (py[i + 1] - py[i]) * s / steps;
            for x in cx - reach..=cx + reach {
                for y in cy - reach..=cy + reach {
                    data.set_height(Coordinate::new(x, y), -(depth as i32) * 1000);
                }
            }
        }
    }
}

/// Raises the ground round the centre of each hill.
fn raise(data: &mut GameData, hills: &[Hill]) {
    for hill in hills {
        for x in hill.x - hill.radius..=hill.x + hill.radius {
            for y in hill.y - hill.radius..=hill.y + hill.radius {
                let p = Coordinate::new(x, y);
                if data.map().is_inside(p) {
                    let risen = data.map().height(p) + hill.height * 1000;
                    data.set_height(p, risen);
                }
            }
        }
    }
}

fn perform(data: &mut GameData, work: &TerrainWork) {
    match work {
        TerrainWork::Nothing | TerrainWork::Clear | TerrainWork::Smooth { .. } => {}
        TerrainWork::DigRiver { px, py, width, depth } => dig(data, px, py, *width, *depth),
        TerrainWork::RaiseHills { hills } => raise(data, hills),
    }
}

/// Runs all stages and gives back the world and the stages that ran.
fn run<G: Generator>(extent: Size, generator: &mut G, settings: &Settings) -> (GameData, Vec<MapGenerationStage>) {
    let mut data = GameData::with_extent(extent);
    let mut state = data.generate_map(generator, settings, None).unwrap();
    let mut stages = Vec::new();
    while !state.is_done() {
        stages.push(state.stage());
        assert!(data.generate_map(generator, settings, Some(&mut state)).is_none());
        perform(&mut data, state.work());
    }
    stages.push(state.stage());
    (data, stages)
}

fn picture(map: &WorldMap) -> Vec<String> {
    let mut rows = Vec::new();
    for x in 0..map.extent().width {
        for y in 0..map.extent().height {
            let p = Coordinate::new(x, y);
            rows.push(format!("{:?} {:?} {}", map.tile(p), map.cache_tile(p), map.height(p)));
        }
    }
    for node in map.water_list() {
        rows.push(format!("{:?}", node));
    }
    rows
}

#[test]
fn stages_run_once_in_order() {
    let mut generator = DefaultGenerator::new_with_seed(1);
    let settings = settings(3, 1);
    let mut data = GameData::with_extent(Size::new(24, 24));
    let blank = picture(data.map());
    let mut state = data.generate_map(&mut generator, &settings, None).unwrap();
    // The first call does nothing but hand out the state.
    assert_eq!(state.stage(), MapGenerationStage::HeightMapClear);
    assert!(matches!(state.work(), TerrainWork::Nothing));
    assert_eq!(picture(data.map()), blank);
    assert!(!state.is_done());

    let order = [
        MapGenerationStage::HeightMapClear,
        MapGenerationStage::GenerateRiver,
        MapGenerationStage::GenerateHills,
        MapGenerationStage::GenerateSmoothing,
        MapGenerationStage::GenerateTiles,
        MapGenerationStage::Naturify,
        MapGenerationStage::GenerateBog,
        MapGenerationStage::RandomizeWind,
        MapGenerationStage::CalculateFlow,
        MapGenerationStage::UpdateCache,
    ];
    for stage in order {
        assert_eq!(state.stage(), stage);
        assert!(!state.is_done());
        assert!(data.generate_map(&mut generator, &settings, Some(&mut state)).is_none());
        perform(&mut data, state.work());
    }
    assert_eq!(state.stage(), MapGenerationStage::Done);
    assert!(state.is_done());

    // A step after the last stage does nothing.
    let finished = picture(data.map());
    assert!(data.generate_map(&mut generator, &settings, Some(&mut state)).is_none());
    assert_eq!(state.stage(), MapGenerationStage::Done);
    assert!(matches!(state.work(), TerrainWork::Nothing));
    assert_eq!(picture(data.map()), finished);
}

#[test]
fn each_stage_asks_for_its_work() {
    let mut generator = DefaultGenerator::new_with_seed(8);
    let settings = settings(4, 2);
    let mut data = GameData::with_extent(Size::new(140, 40));
    let mut state = MapGenerationState::new();
    data.set_height(Coordinate::new(3, 3), 900);
    data.generate_map(&mut generator, &settings, Some(&mut state));
    assert!(matches!(state.work(), TerrainWork::Clear));
    assert_eq!(data.map().height(Coordinate::new(3, 3)), 0);

    data.generate_map(&mut generator, &settings, Some(&mut state));
    match state.work() {
        TerrainWork::DigRiver { px, py, width, depth } => {
            assert_eq!((*width, *depth), (4, 2));
            assert_eq!(*px, state.px());
            assert_eq!(*py, state.py());
            assert!(px[0] == 0 || py[0] == 0);
            assert!(px[3] == 139 || py[3] == 39);
            for i in 1..3 {
                assert!((10..130).contains(&px[i]));
                assert!((10..30).contains(&py[i]));
            }
        }
        _ => panic!("the river stage asks for a river"),
    }

    data.generate_map(&mut generator, &settings, Some(&mut state));
    match state.work() {
        TerrainWork::RaiseHills { hills } => {
            assert_eq!(hills.len(), 6);
            for (i, hill) in hills.iter().enumerate() {
                assert!((1..=3).contains(&hill.radius));
                let limit = if i % 3 == 0 { 35 } else { 25 };
                assert!((15..=limit).contains(&hill.height));
                let site = hills[i - i % 3];
                assert!((hill.x - site.x).abs() <= 7 && (hill.y - site.y).abs() <= 7);
                assert!(data.map().is_inside(Coordinate::new(site.x, site.y)));
            }
        }
        _ => panic!("the hill stage asks for hills"),
    }

    data.generate_map(&mut generator, &settings, Some(&mut state));
    match state.work() {
        TerrainWork::Smooth { smoothing } => {
            assert_eq!(smoothing.rain_drops, 140 * 40 * 5);
            assert_eq!((smoothing.erosion, smoothing.sedimentation), (5, 300));
            assert_eq!(smoothing.kernel_dx, [-1, 1, 0]);
            assert_eq!(smoothing.kernel_dy, [0, 0, 0]);
            assert_eq!(smoothing.kernel_weight, [330, 330, 330]);
            assert_eq!((smoothing.min_level, smoothing.max_level), (0, 1000));
        }
        _ => panic!("the smoothing stage asks for smoothing"),
    }
    assert_eq!(standard_smoothing(Size::new(500, 500)).rain_drops, 1_250_000);
}

#[test]
fn small_map_with_seed_42() {
    // On sixteen cells by sixteen no river has its ends a hundred cells
    // apart: a thousand courses are drawn in vain and none is dug.
    let settings = settings(2, 1);
    let mut generator = DefaultGenerator::new_with_seed(42);
    let mut data = GameData::with_extent(Size::new(16, 16));
    let mut state = data.generate_map(&mut generator, &settings, None).unwrap();
    let mut stages = 0;
    while !state.is_done() {
        let stage = state.stage();
        assert!(data.generate_map(&mut generator, &settings, Some(&mut state)).is_none());
        if stage == MapGenerationStage::GenerateRiver {
            assert!(!state.river_accepted());
            assert_eq!(state.river_attempts(), 1000);
            assert!(matches!(state.work(), TerrainWork::Nothing));
        }
        perform(&mut data, state.work());
        stages += 1;
    }
    assert_eq!(stages, 10);
    let map = data.map();
    assert!(map.water_list().is_empty());
    let start = Coordinate::new(state.px()[0], state.py()[0]);
    for x in 0..16 {
        for y in 0..16 {
            let p = Coordinate::new(x, y);
            let tile = map.tile(p);
            assert_eq!(tile.tile_type, TileType::Grass, "{} {}", x, y);
            assert!(tile.water.is_none());
            // Without water, level ground has no flow; the fill of the
            // river gives one to the cell it starts at.
            if p == start {
                assert!(matches!(
                    tile.flow,
                    Direction::North | Direction::East | Direction::South | Direction::West
                ));
            } else {
                assert_eq!(tile.flow, Direction::NoDirection, "{} {}", x, y);
            }
        }
    }

    let mut again = DefaultGenerator::new_with_seed(42);
    let (second, _) = run(Size::new(16, 16), &mut again, &settings);
    assert_eq!(picture(data.map()), picture(second.map()));
}

#[test]
fn same_seed_same_world() {
    let settings = settings(3, 2);
    for seed in [0, 1, 99] {
        let mut a = DefaultGenerator::new_with_seed(seed);
        let mut b = DefaultGenerator::new_with_seed(seed);
        let (first, _) = run(Size::new(150, 130), &mut a, &settings);
        let (second, _) = run(Size::new(150, 130), &mut b, &settings);
        assert_eq!(picture(first.map()), picture(second.map()));
    }
    let mut a = DefaultGenerator::new_with_seed(5);
    let mut b = DefaultGenerator::new_with_seed(6);
    let (first, _) = run(Size::new(150, 130), &mut a, &settings);
    let (second, _) = run(Size::new(150, 130), &mut b, &settings);
    assert_ne!(picture(first.map()), picture(second.map()));
}

#[test]
fn finished_world_is_consistent() {
    let settings = settings(3, 2);
    let mut generator = DefaultGenerator::new_with_seed(77);
    let (data, _) = run(Size::new(200, 160), &mut generator, &settings);
    let map = data.map();
    let mut wet = 0;
    for x in 0..200 {
        for y in 0..160 {
            let p = Coordinate::new(x, y);
            let tile = map.tile(p);
            let view = map.cache_tile(p);
            // The views are fresh after the last stage.
            assert_eq!(view.walkable, tile.walkable);
            assert_eq!(view.move_cost, tile.move_cost);
            assert_eq!((view.x, view.y), (x, y));
            // Water and tiles agree.
            match tile.water {
                Some(index) => {
                    wet += 1;
                    assert_eq!(map.water_list()[index].position(), p);
                    assert_eq!(view.water_depth, map.water_list()[index].depth());
                }
                None => {
                    assert_eq!(view.water_depth, 0);
                    // Every dry tile flows somewhere once there is water.
                    assert_ne!(tile.flow, Direction::NoDirection);
                }
            }
            if tile.tile_type == TileType::Riverbed {
                assert!(tile.has_water());
                assert!(map.height(p) < map.water_level());
            }
            if tile.tile_type == TileType::Ditch {
                assert!(map.height(p) < map.water_level());
            }
            if tile.tile_type == TileType::Rock {
                assert!(map.height(p) >= 4500);
            }
        }
    }
    assert_eq!(wet, map.water_list().len());
    assert!(wet > 0);
}

#[test]
fn river_ends_lie_apart() {
    assert!(ends_apart(Coordinate::new(0, 0), Coordinate::new(100, 0)));
    assert!(ends_apart(Coordinate::new(0, 0), Coordinate::new(60, 80)));
    assert!(!ends_apart(Coordinate::new(0, 0), Coordinate::new(60, 79)));
    assert!(!ends_apart(Coordinate::new(0, 0), Coordinate::new(99, 0)));
    assert!(ends_apart(Coordinate::new(i32::MIN, 0), Coordinate::new(i32::MAX, 0)));
    assert_eq!(river_margin(21), 10);
    assert_eq!(river_margin(20), 0);
    assert_eq!(river_margin(500), 10);

    let mut generator = DefaultGenerator::new_with_seed(12);
    for _ in 0..200 {
        let plan = plan_river(Size::new(500, 500), &mut generator);
        assert!(plan.attempts >= 1 && plan.attempts <= 1000);
        let start = Coordinate::new(plan.px[0], plan.py[0]);
        let end = Coordinate::new(plan.px[3], plan.py[3]);
        assert_eq!(plan.accepted, start.squared_distance_to(end) >= 10_000);
        if plan.attempts < 1000 {
            assert!(plan.accepted);
        }
        assert!(plan.px[0] == 0 || plan.py[0] == 0);
        assert!(plan.px[3] == 499 || plan.py[3] == 499);
        for i in 1..3 {
            assert!((10..490).contains(&plan.px[i]));
            assert!((10..490).contains(&plan.py[i]));
        }
    }
}

#[test]
fn river_on_a_small_map_is_never_accepted() {
    let mut generator = DefaultGenerator::new_with_seed(12);
    let plan = plan_river(Size::new(16, 16), &mut generator);
    assert!(!plan.accepted);
    assert_eq!(plan.attempts, 1000);
    for i in 0..4 {
        assert!((0..16).contains(&plan.px[i]));
        assert!((0..16).contains(&plan.py[i]));
    }
    let one = plan_river(Size::new(1, 1), &mut generator);
    assert_eq!((one.px, one.py), ([0, 0, 0, 0], [0, 0, 0, 0]));
}

#[test]
fn river_course_without_chance() {
    let mut generator = StaticGenerator::default();
    let plan = draw_river_course(Size::new(200, 120), true, true, &mut generator);
    assert_eq!(plan.px, [0, 189, 189, 199]);
    assert_eq!(plan.py, [119, 109, 109, 119]);
    assert!(plan.accepted);
    assert_eq!(plan.attempts, 1);
    let plan = draw_river_course(Size::new(200, 120), false, false, &mut generator);
    assert_eq!(plan.px, [199, 189, 189, 199]);
    assert_eq!(plan.py, [0, 109, 109, 119]);
    assert!(plan.accepted);
    let plan = plan_river(Size::new(60, 60), &mut generator);
    assert!(!plan.accepted);
    assert_eq!(plan.attempts, 1000);
    assert_eq!(plan.px, [0, 49, 49, 59]);
}

#[test]
fn river_distance_is_the_nearest_low_ground() {
    let mut data = GameData::with_extent(Size::new(200, 200));
    let site = Coordinate::new(100, 100);
    assert_eq!(data.find_river_distance(site), 70);
    data.set_height(Coordinate::new(100, 169), -900);
    assert_eq!(data.find_river_distance(site), 69);
    data.set_height(Coordinate::new(100, 170), -900);
    assert_eq!(data.find_river_distance(site), 69);
    data.set_height(Coordinate::new(60, 100), -801);
    assert_eq!(data.find_river_distance(site), 40);
    data.set_height(Coordinate::new(110, 90), -5000);
    assert_eq!(data.find_river_distance(site), 40);
    data.set_height(Coordinate::new(100, 95), -800);
    assert_eq!(data.find_river_distance(site), 40);
    data.set_height(Coordinate::new(100, 95), -801);
    assert_eq!(data.find_river_distance(site), 5);
    data.set_height(site, -801);
    assert_eq!(data.find_river_distance(site), 0);
    assert_eq!(data.find_river_distance(Coordinate::new(-30, 100)), 70);
    assert_eq!(data.find_river_distance(Coordinate::new(30, 100)), 30);
    assert_eq!(data.find_river_distance(Coordinate::new(i32::MAX, i32::MIN)), 70);
}

#[test]
fn hills_keep_away_from_the_river() {
    let mut generator = DefaultGenerator::new_with_seed(4);
    let mut data = GameData::with_extent(Size::new(300, 200));
    for y in 0..200 {
        data.set_height(Coordinate::new(150, y), -1000);
    }
    let placement = place_hills(data.map(), &mut generator);
    assert!(placement.attempts <= 1000);
    assert_eq!(placement.hills.len(), 12);
    for (i, hill) in placement.hills.iter().enumerate() {
        let site = placement.hills[i - i % 3];
        assert!(data.find_river_distance(Coordinate::new(site.x, site.y)) > 35);
        assert!((site.x - 150).abs() > 35);
        assert!((hill.x - site.x).abs() <= 7);
    }

    // Without a site far from the river the search gives up.
    let mut wet = GameData::with_extent(Size::new(132, 20));
    for x in 0..132 {
        for y in 0..20 {
            wet.set_height(Coordinate::new(x, y), -1000);
        }
    }
    let none = place_hills(wet.map(), &mut generator);
    assert_eq!(none.attempts, 1000);
    assert!(none.hills.is_empty());

    let narrow = place_hills(GameData::with_extent(Size::new(65, 65)).map(), &mut generator);
    assert_eq!(narrow.attempts, 0);
    assert!(narrow.hills.is_empty());
}

#[test]
fn hills_without_chance() {
    let mut generator = StaticGenerator::default();
    let data = GameData::with_extent(Size::new(132, 80));
    let placement = place_hills(data.map(), &mut generator);
    assert_eq!(placement.attempts, 2);
    let site = Hill { x: 131, y: 79, radius: 1, height: 15 };
    let near = Hill { x: 124, y: 72, radius: 1, height: 15 };
    assert_eq!(placement.hills, vec![site, near, near, site, near, near]);
}

#[test]
fn tiles_follow_the_ground() {
    let mut generator = DefaultGenerator::new_with_seed(4);
    let mut map = WorldMap::with_extent(Size::new(30, 30));
    for x in 5..20 {
        for y in 5..20 {
            map.set_height(Coordinate::new(x, y), -801);
        }
    }
    map.set_height(Coordinate::new(25, 25), 4499);
    map.set_height(Coordinate::new(26, 25), 4500);
    map.set_height(Coordinate::new(27, 25), -800);
    // A single low cell in the corner has a bank beside it.
    map.set_height(Coordinate::new(0, 0), -2000);
    map.generate_tiles(&mut generator);
    assert_eq!(map.classify(Coordinate::new(12, 12)), TileType::Riverbed);
    for x in 0..30 {
        for y in 0..30 {
            let p = Coordinate::new(x, y);
            let tile = map.tile(p);
            let expected = if (5..20).contains(&x) && (5..20).contains(&y) {
                if (8..17).contains(&x) && (8..17).contains(&y) {
                    TileType::Riverbed
                } else {
                    TileType::Ditch
                }
            } else if p == Coordinate::new(26, 25) {
                TileType::Rock
            } else if p == Coordinate::new(0, 0) {
                TileType::Ditch
            } else {
                TileType::Grass
            };
            assert_eq!(tile.tile_type, expected, "{} {}", x, y);
            assert_eq!(tile.has_water(), expected == TileType::Riverbed);
            if tile.has_water() {
                assert_eq!(map.water(p).unwrap().depth(), 5000);
                assert_eq!(map.water(p).unwrap().position(), p);
            }
        }
    }
    assert_eq!(map.water_list().len(), 81);
    // The whole map counts as changed.
    map.update_cache();
    assert!(map.cache_tile(Coordinate::new(29, 29)).walkable);
    assert_eq!(map.cache_tile(Coordinate::new(12, 12)).water_depth, 5000);

    // A river that fills a narrow map from edge to edge has no bank.
    let mut channel = WorldMap::with_extent(Size::new(3, 3));
    for x in 0..3 {
        for y in 0..3 {
            channel.set_height(Coordinate::new(x, y), -900);
        }
    }
    channel.generate_tiles(&mut generator);
    assert_eq!(channel.tile(Coordinate::new(1, 1)).tile_type, TileType::Riverbed);
    assert_eq!(channel.water_list().len(), 9);
}

#[test]
fn bog_reach_is_a_whole_root() {
    assert_eq!(bog_reach(0), 25);
    assert_eq!(bog_reach(-25), 0);
    assert_eq!(bog_reach(25), 0);
    assert_eq!(bog_reach(24), 7);
    assert_eq!(bog_reach(-7), 24);
    assert_eq!(bog_reach(15), 20);
    assert_eq!(bog_reach(20), 15);
    assert_eq!(bog_reach(1), 24);
    assert_eq!(walk(5, 1), 5);
    assert_eq!(walk(-5, -1), -5);
    assert_eq!(walk(0, 1), 1);
    assert_eq!(walk(4, -1), 3);
    assert_eq!(walk(2, 0), 2);
}

#[test]
fn bog_without_chance() {
    let mut generator = StaticGenerator::default();
    let mut map = WorldMap::with_extent(Size::new(100, 90));
    let placement = map.generate_bog(&mut generator);
    assert_eq!(placement.site, Some(Coordinate::new(30, 30)));
    assert_eq!(placement.attempts, 1);
    // Both edges sit five cells inside the circle.
    for x in 0..100 {
        for y in 0..90 {
            let dx = x - 30;
            let dy = y - 30;
            let bog = (-25..25).contains(&dx) && {
                let reach = bog_reach(dx);
                -reach + 5 <= dy && dy < reach - 5
            };
            let tile = map.tile(Coordinate::new(x, y));
            assert_eq!(tile.tile_type == TileType::Bog, bog, "{} {}", x, y);
            if bog {
                assert_eq!(tile.move_cost, 6);
            }
        }
    }
    assert_eq!(map.tile(Coordinate::new(30, 30)).tile_type, TileType::Bog);
    assert_eq!(map.tile(Coordinate::new(30, 49)).tile_type, TileType::Bog);
    assert_eq!(map.tile(Coordinate::new(30, 50)).tile_type, TileType::Grass);
    assert_eq!(map.tile(Coordinate::new(30, 10)).tile_type, TileType::Bog);
    assert_eq!(map.tile(Coordinate::new(30, 9)).tile_type, TileType::Grass);
}

#[test]
fn bog_is_one_ragged_disc() {
    let mut generator = DefaultGenerator::new_with_seed(21);
    for _ in 0..20 {
        let mut map = WorldMap::with_extent(Size::new(120, 100));
        let placement = map.generate_bog(&mut generator);
        let site = placement.site.unwrap();
        assert_eq!(placement.attempts, 1);
        assert!((30..=90).contains(&site.x) && (30..=70).contains(&site.y));
        for x in 0..120 {
            for y in 0..100 {
                let dx = x - site.x;
                let dy = y - site.y;
                let kind = map.tile(Coordinate::new(x, y)).tile_type;
                if !(-25..25).contains(&dx) {
                    assert_eq!(kind, TileType::Grass);
                } else {
                    let reach = bog_reach(dx);
                    if -reach + 5 <= dy && dy < reach - 5 {
                        assert_eq!(kind, TileType::Bog);
                    }
                    if dy < -reach - 5 || dy >= reach + 5 {
                        assert_eq!(kind, TileType::Grass);
                    }
                }
            }
        }
    }
}

#[test]
fn bog_needs_room_and_distance() {
    let mut generator = DefaultGenerator::new_with_seed(21);
    let mut small = WorldMap::with_extent(Size::new(59, 200));
    let placement = small.generate_bog(&mut generator);
    assert_eq!(placement.site, None);
    assert_eq!(placement.attempts, 0);

    let mut wet = WorldMap::with_extent(Size::new(80, 80));
    for x in 0..80 {
        for y in 0..80 {
            wet.set_height(Coordinate::new(x, y), -1000);
        }
    }
    let placement = wet.generate_bog(&mut generator);
    assert_eq!(placement.site, None);
    assert_eq!(placement.attempts, 1000);
    assert_eq!(wet.tile(Coordinate::new(40, 40)).tile_type, TileType::Grass);

    // A single site, just large enough.
    let mut tight = WorldMap::with_extent(Size::new(60, 60));
    let placement = tight.generate_bog(&mut generator);
    assert_eq!(placement.site, Some(Coordinate::new(30, 30)));
}

/// A generator that counts its draws and always gives the least value.
struct Counting {
    draws: u32,
}

impl Generator for Counting {
    fn generate_integer(&mut self, start: i32, _end: i32) -> i32 {
        self.draws += 1;
        start
    }

    fn generate_bool(&mut self) -> bool {
        self.draws += 1;
        false
    }
}

#[test]
fn dry_land_takes_every_site() {
    // No ground lies under water: no site is near a river.
    for seed in 0..20 {
        let mut generator = DefaultGenerator::new_with_seed(seed);
        let map = WorldMap::with_extent(Size::new(200, 90));
        let placement = place_hills(&map, &mut generator);
        assert_eq!(placement.hills.len(), 9);
        assert_eq!(placement.attempts, 3);

        let mut map = WorldMap::with_extent(Size::new(90, 70));
        let placement = map.generate_bog(&mut generator);
        assert!(placement.site.is_some());
        assert_eq!(placement.attempts, 1);
    }
}

#[test]
fn searches_without_room_draw_nothing() {
    let mut generator = Counting { draws: 0 };
    let narrow = WorldMap::with_extent(Size::new(65, 300));
    let placement = place_hills(&narrow, &mut generator);
    assert!(placement.hills.is_empty());
    assert_eq!(placement.attempts, 0);
    assert_eq!(generator.draws, 0);

    let mut small = WorldMap::with_extent(Size::new(300, 59));
    let placement = small.generate_bog(&mut generator);
    assert_eq!((placement.site, placement.attempts), (None, 0));
    assert_eq!(generator.draws, 0);
}

#[test]
fn fresh_state_knows_nothing() {
    let mut generator = Counting { draws: 0 };
    let settings = settings(2, 1);
    let mut data = GameData::with_extent(Size::new(16, 16));
    let state = data.generate_map(&mut generator, &settings, None).unwrap();
    assert_eq!(generator.draws, 0);
    assert_eq!(state.stage(), MapGenerationStage::HeightMapClear);
    assert_eq!(state.px(), [0; 4]);
    assert_eq!(state.py(), [0; 4]);
    assert!(matches!(state.work(), TerrainWork::Nothing));
    assert!(!state.river_accepted());
    assert_eq!(state.river_attempts(), 0);
    assert_eq!(state.hill_attempts(), 0);
    assert_eq!((state.bog().site, state.bog().attempts), (None, 0));
}

#[test]
fn stages_draw_only_where_they_search() {
    let mut generator = Counting { draws: 0 };
    let settings = settings(2, 1);
    let mut data = GameData::with_extent(Size::new(16, 16));
    let mut state = data.generate_map(&mut generator, &settings, None).unwrap();
    let mut drawing = Vec::new();
    while !state.is_done() {
        let stage = state.stage();
        let before = generator.draws;
        data.generate_map(&mut generator, &settings, Some(&mut state));
        perform(&mut data, state.work());
        if generator.draws != before {
            drawing.push(stage);
        }
    }
    // The map is too narrow for hills and too small for a bog.
    assert_eq!(
        drawing,
        vec![
            MapGenerationStage::GenerateRiver,
            MapGenerationStage::GenerateTiles,
            MapGenerationStage::RandomizeWind,
            MapGenerationStage::CalculateFlow,
        ]
    );
    let before = generator.draws;
    assert!(data.generate_map(&mut generator, &settings, Some(&mut state)).is_none());
    assert!(state.is_done());
    assert_eq!(generator.draws, before);
}

#[test]
fn state_tells_how_the_searches_went() {
    let settings = settings(2, 1);
    // On a small map no two ends lie a hundred cells apart.
    let mut generator = DefaultGenerator::new_with_seed(3);
    let mut data = GameData::with_extent(Size::new(16, 16));
    let mut state = data.generate_map(&mut generator, &settings, None).unwrap();
    data.generate_map(&mut generator, &settings, Some(&mut state));
    data.generate_map(&mut generator, &settings, Some(&mut state));
    assert!(!state.river_accepted());
    assert_eq!(state.river_attempts(), 1000);
    assert!(matches!(state.work(), TerrainWork::Nothing));

    // On a large map with level ground every search ends at once.
    let mut data = GameData::with_extent(Size::new(200, 200));
    let mut state = data.generate_map(&mut generator, &settings, None).unwrap();
    while state.stage() != MapGenerationStage::RandomizeWind {
        let stage = state.stage();
        data.generate_map(&mut generator, &settings, Some(&mut state));
        match stage {
            MapGenerationStage::GenerateRiver => {
                let start = Coordinate::new(state.px()[0], state.py()[0]);
                let end = Coordinate::new(state.px()[3], state.py()[3]);
                assert_eq!(state.river_accepted(), ends_apart(start, end));
                assert!(state.river_accepted() || state.river_attempts() == 1000);
                assert!(state.river_attempts() >= 1);
            }
            MapGenerationStage::GenerateHills => {
                assert_eq!(state.hill_attempts(), 3);
                match state.work() {
                    TerrainWork::RaiseHills { hills } => assert_eq!(hills.len(), 9),
                    _ => panic!("the hills stage asks for hills"),
                }
            }
            MapGenerationStage::GenerateBog => {
                let bog = state.bog();
                assert_eq!(bog.attempts, 1);
                let site = bog.site.unwrap();
                assert_eq!(data.map().tile(site).tile_type, TileType::Bog);
            }
            _ => {}
        }
    }
}

#[test]
fn only_an_accepted_river_is_dug() {
    let settings = settings(3, 2);
    for seed in 0..30 {
        let mut generator = DefaultGenerator::new_with_seed(seed);
        let mut data = GameData::with_extent(Size::new(120, 90));
        let mut state = data.generate_map(&mut generator, &settings, None).unwrap();
        data.generate_map(&mut generator, &settings, Some(&mut state));
        data.generate_map(&mut generator, &settings, Some(&mut state));
        let start = Coordinate::new(state.px()[0], state.py()[0]);
        let end = Coordinate::new(state.px()[3], state.py()[3]);
        assert_eq!(state.river_accepted(), ends_apart(start, end));
        match state.work() {
            TerrainWork::DigRiver { px, py, width, depth } => {
                assert!(state.river_accepted());
                assert!(start.squared_distance_to(end) >= 10_000);
                assert_eq!((*px, *py), (state.px(), state.py()));
                assert_eq!((*width, *depth), (3, 2));
            }
            TerrainWork::Nothing => {
                assert!(!state.river_accepted());
                assert_eq!(state.river_attempts(), 1000);
                assert!(start.squared_distance_to(end) < 10_000);
            }
            _ => panic!("the river stage asks for a river or for nothing"),
        }
    }
}
