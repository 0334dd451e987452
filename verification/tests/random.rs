use goblin_camp::coordinate::{Coordinate, Direction};
use goblin_camp::data::random::{DefaultGenerator, Generator, Selection, Sign, StaticGenerator};

#[test]
fn seeded_draws_stay_in_range() {
    let mut generator = DefaultGenerator::new_with_seed(7);
    for _ in 0..2000 {
        let v = generator.generate_integer(-5, 5);
        assert!((-5..=5).contains(&v));
        let w = generator.generate_integer_up_to(3);
        assert!((0..=3).contains(&w));
        let b = generator.generate_u8(100, 192);
        assert!((100..=192).contains(&b));
        assert!(generator.generate_up_to_u8(49) <= 49);
    }
    assert_eq!(generator.generate_integer(9, 9), 9);
    assert_eq!(generator.generate_integer(i32::MAX, i32::MAX), i32::MAX);
    assert_eq!(generator.generate_integer(i32::MIN, i32::MIN), i32::MIN);
    let top = generator.generate_integer(i32::MAX - 1, i32::MAX);
    assert!(top >= i32::MAX - 1);
    let _any = generator.generate_integer(i32::MIN, i32::MAX);
}

#[test]
fn seeded_draws_cover_their_range() {
    let mut generator = DefaultGenerator::new_with_seed(11);
    let mut seen = [false; 11];
    let mut truths = 0;
    for _ in 0..2000 {
        seen[(generator.generate_integer(-5, 5) + 5) as usize] = true;
        if generator.generate_bool() {
            truths += 1;
        }
    }
    assert!(seen.iter().all(|s| *s));
    assert!(truths > 0 && truths < 2000);
}

#[test]
fn same_seed_same_stream() {
    let mut a = DefaultGenerator::new_with_seed(42);
    let mut b = DefaultGenerator::default_with_seed(42);
    let mut c = DefaultGenerator::new_with_seed(43);
    assert_eq!(a.seed(), 42);
    assert_eq!(c.seed(), 43);
    let xs: Vec<i32> = (0..64).map(|_| a.generate_integer(0, 1_000_000)).collect();
    let ys: Vec<i32> = (0..64).map(|_| b.generate_integer(0, 1_000_000)).collect();
    let zs: Vec<i32> = (0..64).map(|_| c.generate_integer(0, 1_000_000)).collect();
    assert_eq!(xs, ys);
    assert_ne!(xs, zs);
    c.reseed(42);
    assert_eq!(c.seed(), 42);
    let ws: Vec<i32> = (0..64).map(|_| c.generate_integer(0, 1_000_000)).collect();
    assert_eq!(xs, ws);
}

#[test]
fn coordinates_are_drawn_inside() {
    let mut generator = DefaultGenerator::new_with_seed(3);
    for _ in 0..500 {
        let c = generator.generate_coordinate_within_extent(Coordinate::new(10, 20), Coordinate::new(5, 2));
        assert!(c.inside_extent(Coordinate::new(10, 20), Coordinate::new(5, 2)));
        let c = generator.generate_coordinate_within_origin_extent(Coordinate::new(16, 16));
        assert!(c.inside_extent(Coordinate::origin(), Coordinate::new(16, 16)));
        let c = generator.generate_coordinate_within_distance(Coordinate::new(100, 100), 7);
        assert!((93..=107).contains(&c.x) && (93..=107).contains(&c.y));
        let c = generator.generate_coordinate_within_origin_distance(2);
        assert!((-2..=2).contains(&c.x) && (-2..=2).contains(&c.y));
        let c = generator.generate_coordinate_within_rectangle(Coordinate::new(30, 30), Coordinate::new(34, 30));
        assert!(c.inside_rectangle(Coordinate::new(30, 30), Coordinate::new(34, 30)));
    }
}

#[test]
fn selection_picks_one_of_the_choices() {
    let mut generator = DefaultGenerator::new_with_seed(5);
    let choices = [3, 5, 8];
    let mut seen = [false; 3];
    for _ in 0..300 {
        let v = generator.select(&choices);
        let w = *generator.select_by_ref(&choices);
        assert!(choices.contains(&v) && choices.contains(&w));
        seen[choices.iter().position(|c| *c == v).unwrap()] = true;
        let d: Direction = generator.auto_select();
        assert_ne!(d, Direction::NoDirection);
    }
    assert!(seen.iter().all(|s| *s));
    assert_eq!(Direction::get_choices().len(), 8);
    assert_eq!(Direction::get_choices()[0], Direction::North);
    assert_eq!(Direction::get_choices()[7], Direction::NorthWest);
}

#[test]
fn static_generator_has_no_chance() {
    let mut generator = StaticGenerator::default();
    assert_eq!(generator.generate_integer(3, 9), 3);
    assert_eq!(generator.generate_integer_up_to(9), 9);
    assert!(generator.generate_bool());
    assert_eq!(generator.generate_sign(), Sign::Positive);
    assert_eq!(
        generator.generate_coordinate_within_extent(Coordinate::new(2, 3), Coordinate::new(10, 10)),
        Coordinate::new(11, 12)
    );
    assert_eq!(
        generator.generate_coordinate_within_origin_extent(Coordinate::new(10, 10)),
        Coordinate::new(9, 9)
    );
    assert_eq!(
        generator.generate_coordinate_within_distance(Coordinate::new(2, 3), 4),
        Coordinate::new(6, 7)
    );
    assert_eq!(
        generator.generate_coordinate_within_rectangle(Coordinate::new(2, 3), Coordinate::new(8, 9)),
        Coordinate::new(2, 3)
    );
    assert_eq!(generator.select(&[7, 8, 9]), 7);
    assert_eq!(generator.generate_u8(4, 9), 4);
    assert_eq!(generator.generate_up_to_u8(9), 9);
}

#[test]
fn signs_come_from_coins() {
    let mut generator = DefaultGenerator::new_with_seed(1);
    let mut positive = 0;
    for _ in 0..200 {
        if generator.generate_sign() == Sign::Positive {
            positive += 1;
        }
    }
    assert!(positive > 0 && positive < 200);
}

#[test]
fn sign_of_a_draw() {
    assert_eq!(Sign::of(true), Sign::Positive);
    assert_eq!(Sign::of(false), Sign::Negative);
}

#[test]
fn draws_keep_the_seed() {
    let mut generator = DefaultGenerator::new_with_seed(11);
    for _ in 0..50 {
        generator.generate_integer(i32::MIN, i32::MAX);
        generator.generate_integer(-3, i32::MAX);
        generator.generate_integer(0, 9);
        generator.generate_bool();
        generator.generate_sign();
    }
    assert_eq!(generator.seed(), 11);
}

#[test]
fn drawn_cells_move_from_their_origin() {
    let mut generator = DefaultGenerator::new_with_seed(5);
    let origin = Coordinate::new(100, -40);
    let mut moved = false;
    for _ in 0..200 {
        let c = generator.generate_coordinate_within_extent(origin, Coordinate::new(8, 8));
        assert!(c.inside_extent(origin, Coordinate::new(8, 8)));
        let d = generator.generate_coordinate_within_distance(origin, 3);
        assert!((97..=103).contains(&d.x) && (-43..=-37).contains(&d.y));
        let e = generator.generate_coordinate_within_rectangle(origin, Coordinate::new(104, -36));
        assert!(e.inside_rectangle(origin, Coordinate::new(104, -36)));
        moved = moved || c != origin || d != origin || e != origin;
    }
    assert!(moved);
}
