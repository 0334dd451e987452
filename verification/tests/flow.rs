use goblin_camp::coordinate::{Coordinate, Direction};
use goblin_camp::data::base::Size;
use goblin_camp::data::random::{DefaultGenerator, StaticGenerator};
use goblin_camp::game::game_data::map::flow::{
    advance_stage, axis_direction, choose_flow, die_faces, favor_for, leaning, step_flow, taxicab, update_stage_favor,
    Favor, RiverCourse,
};
use goblin_camp::game::game_data::map::WorldMap;

#[test]
fn favour_follows_the_leaning() {
    assert_eq!(favor_for(16), Favor::X);
    assert_eq!(favor_for(15), Favor::Neither);
    assert_eq!(favor_for(14), Favor::Y);
    assert_eq!(favor_for(-40), Favor::Y);
    assert_eq!(die_faces(true), 3);
    assert_eq!(die_faces(false), 1);
}

#[test]
fn distances_without_limits() {
    assert_eq!(taxicab(Coordinate::new(0, 0), Coordinate::new(3, -4)), 7);
    assert_eq!(
        taxicab(Coordinate::new(i32::MIN, i32::MIN), Coordinate::new(i32::MAX, i32::MAX)),
        2 * (u32::MAX as i64)
    );
    assert_eq!(leaning(Coordinate::new(0, 0), Coordinate::new(20, 3)), 17);
    assert_eq!(leaning(Coordinate::new(0, 0), Coordinate::new(3, -20)), -17);
}

#[test]
fn flow_goes_with_the_higher_roll() {
    assert_eq!(choose_flow(3, 1, false, Direction::West, Direction::North), Direction::West);
    assert_eq!(choose_flow(0, 1, true, Direction::West, Direction::North), Direction::North);
    assert_eq!(choose_flow(1, 1, true, Direction::West, Direction::North), Direction::West);
    assert_eq!(choose_flow(1, 1, false, Direction::West, Direction::North), Direction::North);
}

#[test]
fn axis_direction_by_slope() {
    assert_eq!(axis_direction(1, 5, false, Direction::West, Direction::East), Direction::West);
    assert_eq!(axis_direction(5, 1, true, Direction::West, Direction::East), Direction::East);
    assert_eq!(axis_direction(5, 5, true, Direction::West, Direction::East), Direction::West);
    assert_eq!(axis_direction(5, 5, false, Direction::West, Direction::East), Direction::East);
}

#[test]
fn course_through_the_control_points() {
    let px = [0, 50, 50, 10];
    let py = [40, 10, 30, 30];
    let course = RiverCourse::plan(px, py, [false, true, false], [false, false, true], false);
    assert_eq!(course.points[2], Coordinate::new(50, 30));
    assert_eq!(course.x_directions, [Direction::West, Direction::West, Direction::East]);
    assert_eq!(course.y_directions, [Direction::South, Direction::North, Direction::North]);
    assert_eq!(course.lengths, [80, 20, 40]);
    assert_eq!(course.leanings, [20, -20, 40]);
    let back = RiverCourse::plan(px, py, [false, true, false], [false, false, true], true);
    assert_eq!(back.x_directions, [Direction::East, Direction::East, Direction::West]);
    assert_eq!(back.y_directions, [Direction::North, Direction::South, Direction::South]);
    assert_eq!(back.lengths, course.lengths);
}

#[test]
fn stretches_follow_each_other() {
    let course = RiverCourse::plan([0, 50, 50, 10], [40, 10, 30, 30], [false; 3], [false; 3], false);
    let mut stage = 0;
    let mut favor = Favor::X;
    assert!(!update_stage_favor(&mut stage, &mut favor, Coordinate::new(40, 0), &course));
    assert_eq!((stage, favor), (0, Favor::X));
    assert!(update_stage_favor(&mut stage, &mut favor, Coordinate::new(41, 0), &course));
    assert_eq!((stage, favor), (1, Favor::Y));
    assert!(update_stage_favor(&mut stage, &mut favor, Coordinate::new(50, 31), &course));
    assert_eq!((stage, favor), (2, Favor::X));
}

fn channel() -> WorldMap {
    // A river of three cells width from the west edge to the east edge,
    // and a pond that the river does not reach.
    let mut map = WorldMap::with_extent(Size::new(40, 20));
    let mut generator = DefaultGenerator::new_with_seed(1);
    for x in 0..40 {
        for y in 8..11 {
            map.create_water(Coordinate::new(x, y), 5000, 0, &mut generator);
        }
    }
    map.create_water(Coordinate::new(20, 2), 5000, 0, &mut generator);
    map
}

#[test]
fn river_flow_reaches_all_connected_water() {
    let mut generator = DefaultGenerator::new_with_seed(3);
    let mut map = channel();
    map.set_river_flow([0, 12, 25, 39], [9, 9, 9, 9], &mut generator);
    for x in 0..40 {
        for y in 0..20 {
            let tile = map.tile(Coordinate::new(x, y));
            if (8..11).contains(&y) {
                assert!(
                    matches!(tile.flow, Direction::North | Direction::East | Direction::South | Direction::West),
                    "{} {}",
                    x,
                    y
                );
            } else {
                assert_eq!(tile.flow, Direction::NoDirection, "{} {}", x, y);
            }
        }
    }
}

#[test]
fn river_flow_without_chance() {
    let mut generator = StaticGenerator::default();
    let mut map = channel();
    // Every stretch runs less than sixteen cells further along x than
    // along y, so y is favoured and rolls its greatest, 3 against 1. The
    // control points tie along y, the tie is broken towards north, and
    // every direction is turned round: the water flows south.
    map.set_river_flow([0, 12, 25, 39], [9, 9, 9, 9], &mut generator);
    for x in 0..40 {
        for y in 8..11 {
            assert_eq!(map.tile(Coordinate::new(x, y)).flow, Direction::South);
        }
    }
    // A first stretch that leans to x favours x: west, turned round. The
    // fill leaves the stretch when it spreads from a tile beyond it, and
    // from the last column it spreads no further.
    let mut long = channel();
    long.set_river_flow([0, 39, 39, 39], [9, 9, 9, 9], &mut generator);
    for x in 0..40 {
        for y in 8..11 {
            assert_eq!(long.tile(Coordinate::new(x, y)).flow, Direction::East);
        }
    }
}

#[test]
fn river_flow_starts_off_the_map_too() {
    let mut generator = DefaultGenerator::new_with_seed(3);
    let mut map = channel();
    map.set_river_flow([-1, 12, 25, 39], [9, 9, 9, 9], &mut generator);
    assert_ne!(map.tile(Coordinate::new(0, 9)).flow, Direction::NoDirection);
    assert_ne!(map.tile(Coordinate::new(39, 10)).flow, Direction::NoDirection);
    let mut far = channel();
    far.set_river_flow([i32::MIN, 0, 0, i32::MAX], [i32::MAX, 0, 0, i32::MIN], &mut generator);
    assert_eq!(far.tile(Coordinate::new(0, 9)).flow, Direction::NoDirection);
    let mut dry = WorldMap::with_extent(Size::new(5, 5));
    dry.set_river_flow([2, 2, 2, 2], [2, 2, 2, 2], &mut generator);
    assert_ne!(dry.tile(Coordinate::new(2, 2)).flow, Direction::NoDirection);
    assert_eq!(dry.tile(Coordinate::new(2, 3)).flow, Direction::NoDirection);
}

#[test]
fn ground_flows_downhill() {
    let mut generator = DefaultGenerator::new_with_seed(3);
    let mut map = WorldMap::with_extent(Size::new(5, 5));
    map.set_height(Coordinate::new(3, 3), -10);
    map.set_height(Coordinate::new(1, 1), -10);
    map.set_height(Coordinate::new(0, 4), -5);
    map.set_ground_flow(&mut generator);
    assert_eq!(map.tile(Coordinate::new(2, 2)).flow, Direction::NorthWest);
    assert_eq!(map.tile(Coordinate::new(2, 3)).flow, Direction::East);
    assert_eq!(map.tile(Coordinate::new(4, 4)).flow, Direction::NorthWest);
    assert_eq!(map.tile(Coordinate::new(3, 2)).flow, Direction::South);
    assert_eq!(map.tile(Coordinate::new(1, 4)).flow, Direction::West);
    assert_eq!(map.tile(Coordinate::new(0, 3)).flow, Direction::South);
    // Level ground without water flows nowhere.
    assert_eq!(map.tile(Coordinate::new(3, 3)).flow, Direction::NoDirection);
    assert_eq!(map.tile(Coordinate::new(4, 0)).flow, Direction::NoDirection);
}

#[test]
fn level_ground_flows_to_the_water() {
    let mut generator = DefaultGenerator::new_with_seed(3);
    let mut map = WorldMap::with_extent(Size::new(9, 9));
    let pond = Coordinate::new(4, 4);
    map.create_water(pond, 5000, 0, &mut generator);
    map.set_ground_flow(&mut generator);
    for x in 0..9 {
        for y in 0..9 {
            let p = Coordinate::new(x, y);
            assert_eq!(map.tile(p).flow, p.direction_to(pond));
        }
    }
}

#[test]
fn flows_that_are_there_stay() {
    let mut generator = DefaultGenerator::new_with_seed(3);
    let mut map = channel();
    map.calculate_flow([0, 12, 25, 39], [9, 9, 9, 9], &mut generator);
    let before: Vec<Direction> = cells(&map).iter().map(|p| map.tile(*p).flow).collect();
    for p in cells(&map) {
        if !map.tile(p).has_water() {
            assert_ne!(map.tile(p).flow, Direction::NoDirection);
        }
    }
    map.set_ground_flow(&mut generator);
    let after: Vec<Direction> = cells(&map).iter().map(|p| map.tile(*p).flow).collect();
    // Only the pond, which flows nowhere unless it draws other water,
    // may have changed.
    for (i, p) in cells(&map).iter().enumerate() {
        if *p != Coordinate::new(20, 2) {
            assert_eq!(before[i], after[i]);
        }
    }
}

fn cells(map: &WorldMap) -> Vec<Coordinate> {
    let mut all = Vec::new();
    for x in 0..map.extent().width {
        for y in 0..map.extent().height {
            all.push(Coordinate::new(x, y));
        }
    }
    all
}

#[test]
fn a_step_of_the_fill() {
    let course = RiverCourse::plan([0, 50, 50, 10], [40, 10, 30, 30], [false; 3], [false; 3], false);
    // The flow is a direction of the stretch the fill is in.
    assert_eq!(step_flow(&course, 0, 3, 1, false), Direction::West);
    assert_eq!(step_flow(&course, 0, 0, 1, false), Direction::South);
    assert_eq!(step_flow(&course, 1, 1, 1, true), Direction::East);
    assert_eq!(step_flow(&course, 1, 1, 1, false), Direction::North);
    assert_eq!(step_flow(&course, 2, 2, 0, false), Direction::East);

    // A tile within the stretch leaves the fill where it is.
    let (mut stage, mut favor) = (0, Favor::X);
    advance_stage(&mut stage, &mut favor, Coordinate::new(40, 0), &course);
    assert_eq!((stage, favor), (0, Favor::X));
    // A tile beyond the first stretch moves it on by one stretch,
    advance_stage(&mut stage, &mut favor, Coordinate::new(41, 0), &course);
    assert_eq!((stage, favor), (1, Favor::Y));
    // one beyond the first two by two at once,
    let (mut stage, mut favor) = (0, Favor::Neither);
    advance_stage(&mut stage, &mut favor, Coordinate::new(100, 100), &course);
    assert_eq!((stage, favor), (2, Favor::X));
    // and the last stretch is never left.
    advance_stage(&mut stage, &mut favor, Coordinate::new(1000, 1000), &course);
    assert_eq!((stage, favor), (2, Favor::X));
}

#[test]
fn river_flows_by_the_stretch_it_is_in() {
    // The three stretches differ in their directions, and no two control
    // points tie: the course is known but for its turning round.
    let px = [0, 20, 10, 39];
    let py = [8, 10, 9, 10];
    for seed in 0..40 {
        let mut generator = DefaultGenerator::new_with_seed(seed);
        let mut map = channel();
        map.set_river_flow(px, py, &mut generator);
        // The fill comes to a tile from one next to it, which lies at most
        // two steps nearer to the start of a stretch.
        let fits = |course: &RiverCourse| {
            cells(&map).into_iter().filter(|p| (8..11).contains(&p.y)).all(|p| {
                let beyond = |i: usize| taxicab(p, course.points[i]) - 2 > course.lengths[i];
                let least = if beyond(0) {
                    if beyond(1) {
                        2
                    } else {
                        1
                    }
                } else {
                    0
                };
                let flow = map.tile(p).flow;
                (least..3).any(|s| course.x_directions[s] == flow || course.y_directions[s] == flow)
            })
        };
        let forth = RiverCourse::plan(px, py, [false; 3], [false; 3], false);
        let back = RiverCourse::plan(px, py, [false; 3], [false; 3], true);
        assert!(fits(&forth) || fits(&back), "seed {}", seed);
        // The start flows by the first stretch, the far end by the last.
        let first = map.tile(Coordinate::new(0, 8)).flow;
        let last = map.tile(Coordinate::new(39, 10)).flow;
        if fits(&forth) {
            assert!(first == Direction::West || first == Direction::North);
            assert!(last == Direction::West || last == Direction::North);
        } else {
            assert!(first == Direction::East || first == Direction::South);
            assert!(last == Direction::East || last == Direction::South);
        }
    }
}

#[test]
fn the_stretch_moves_on_by_the_tile_the_fill_spreads_from() {
    // Without chance the favoured axis wins, or x on a tie, and every
    // direction is turned round. The first stretch is three cells long
    // and leans to neither axis much: y is favoured and the water flows
    // south. The second stretch leans to x: the water flows east there.
    let mut generator = StaticGenerator::default();
    let mut map = channel();
    map.set_river_flow([0, 3, 39, 39], [9, 9, 9, 9], &mut generator);
    // The fill is in the first stretch until it spreads from a tile
    // that lies more than three steps from the start. The first such
    // tile to reach new ones is the middle one of the fifth column.
    for x in 0..4 {
        for y in 8..11 {
            assert_eq!(map.tile(Coordinate::new(x, y)).flow, Direction::South, "{} {}", x, y);
        }
    }
    assert_eq!(map.tile(Coordinate::new(4, 9)).flow, Direction::South);
    assert_eq!(map.tile(Coordinate::new(4, 8)).flow, Direction::East);
    assert_eq!(map.tile(Coordinate::new(4, 10)).flow, Direction::East);
    // From there on every tile flows by the second stretch: from the
    // last column, which lies beyond it, the fill spreads no further.
    for x in 5..40 {
        for y in 8..11 {
            assert_eq!(map.tile(Coordinate::new(x, y)).flow, Direction::East, "{} {}", x, y);
        }
    }
}
