use goblin_camp::coordinate::Coordinate;
use goblin_camp::util::array2d::Array2D;
use goblin_camp::util::tcod::{black, Chars, Color};
use goblin_camp::util::{clamp, compare_and_pick, dual_map, find_largest_fit, Flip, OptionExt};

#[test]
fn flip_turns_a_bool_round() {
    let mut b = false;
    b.flip();
    assert!(b);
    b.flip();
    assert!(!b);
}

#[test]
fn option_is_filled_once() {
    let mut o: Option<i32> = None;
    assert_eq!(o.get_or_maybe_insert(None), None);
    assert_eq!(o.get_or_maybe_insert(Some(3)).copied(), Some(3));
    assert_eq!(o.get_or_maybe_insert(Some(4)).copied(), Some(3));
}

#[test]
fn option_asks_only_when_empty() {
    let mut asked = 0;
    let mut o: Option<i32> = None;
    assert_eq!(
        o.get_or_maybe_insert_with(|| {
            asked += 1;
            None
        }),
        None
    );
    assert_eq!(
        o.get_or_maybe_insert_with(|| {
            asked += 1;
            Some(3)
        })
        .copied(),
        Some(3)
    );
    assert_eq!(
        o.get_or_maybe_insert_with(|| {
            asked += 1;
            Some(4)
        })
        .copied(),
        Some(3)
    );
    assert_eq!(asked, 2);
    if let Some(held) = o.get_or_maybe_insert(None) {
        *held = 8;
    }
    assert_eq!(o, Some(8));
}

#[test]
fn largest_fit_picks_the_entry_before() {
    let widths = [800, 1024, 1280, 1366];
    let mut v = 1100;
    find_largest_fit(&mut v, &widths);
    assert_eq!(v, 1024);
    let mut v = 1024;
    find_largest_fit(&mut v, &widths);
    assert_eq!(v, 800);
    let mut v = 10;
    find_largest_fit(&mut v, &widths);
    assert_eq!(v, 800);
    let mut v = 5000;
    find_largest_fit(&mut v, &widths);
    assert_eq!(v, 1366);
    let mut v = 7;
    find_largest_fit(&mut v, &[3]);
    assert_eq!(v, 3);
}

#[test]
fn compare_and_pick_names_the_winner() {
    let picked = compare_and_pick(&[1, 5, 5, 2], 'l', 'r', || true);
    assert_eq!(picked, vec!['r', 'r', 'l']);
    let picked = compare_and_pick(&[1, 5, 5, 2], 'l', 'r', || false);
    assert_eq!(picked, vec!['r', 'l', 'l']);
    let none: Vec<char> = compare_and_pick(&[1], 'l', 'r', || true);
    assert!(none.is_empty());
    let none: Vec<char> = compare_and_pick::<i32, char, _>(&[], 'l', 'r', || true);
    assert!(none.is_empty());
}

#[test]
fn compare_and_pick_asks_only_on_ties() {
    let mut asked = 0;
    let picked = compare_and_pick(&[3, 3, 4, 4, 1], 0, 1, || {
        asked += 1;
        asked % 2 == 0
    });
    assert_eq!(picked, vec![0, 1, 1, 0]);
    assert_eq!(asked, 2);
}

#[test]
fn dual_map_walks_the_neighbours() {
    let points = [Coordinate::new(0, 0), Coordinate::new(3, 4), Coordinate::new(3, 10)];
    let d = dual_map(&points, |a: Coordinate, b: Coordinate| a.rectilinear_distance_to(b));
    assert_eq!(d, vec![7, 6]);
    let l = dual_map(&points, |a: Coordinate, b: Coordinate| a.xy_difference(b));
    assert_eq!(l, vec![-1, -6]);
    let none: Vec<i32> = dual_map(&[1], |a: i32, b: i32| a + b);
    assert!(none.is_empty());
}

#[test]
fn clamp_holds_between() {
    assert_eq!(clamp(7, 0, 5), 5);
    assert_eq!(clamp(-7, 0, 5), 0);
    assert_eq!(clamp(3, 0, 5), 3);
    assert_eq!(clamp(3, 3, 3), 3);
}

#[test]
fn grid_keeps_what_is_put_in() {
    let mut grid: Array2D<i32> = Array2D::new(3, 4);
    assert_eq!(grid.rows(), 3);
    assert_eq!(grid.columns(), 4);
    for r in 0..3 {
        for c in 0..4 {
            assert_eq!(*grid.get(r, c), 0);
        }
    }
    grid.set(2, 3, 9);
    grid.set(0, 0, 1);
    *grid.get_mut(1, 2) = 5;
    assert_eq!(*grid.get(2, 3), 9);
    assert_eq!(*grid.get(0, 0), 1);
    assert_eq!(*grid.get(1, 2), 5);
    assert_eq!(*grid.get(1, 3), 0);
    assert_eq!(*grid.by_coordinate(Coordinate::new(2, 3)), 9);
    *grid.by_coordinate_mut(Coordinate::new(2, 0)) = 7;
    assert_eq!(*grid.get(2, 0), 7);
}

#[test]
fn grid_is_filled_row_after_row() {
    let grid = Array2D::new_with(2, 3, |r, c| r * 10 + c);
    assert_eq!(*grid.get(0, 0), 0);
    assert_eq!(*grid.get(0, 2), 2);
    assert_eq!(*grid.get(1, 0), 10);
    assert_eq!(*grid.get(1, 2), 12);
    let empty: Array2D<u8> = Array2D::new(0, 5);
    assert_eq!(empty.rows(), 0);
}

#[test]
fn colours_stop_at_the_ends() {
    let a = Color::new(200, 100, 0);
    let b = Color::new(100, 100, 1);
    assert_eq!(a.plus(b), Color::new(255, 200, 1));
    assert_eq!(a.minus(b), Color::new(100, 0, 0));
    assert_eq!(black(), Color::new(0, 0, 0));
}

#[test]
fn glyphs_have_their_codes() {
    assert_eq!(Chars::HLine.code(), 196);
    assert_eq!(Chars::Block3.code(), 178);
    assert_eq!(Chars::CheckboxSet.code(), 225);
    assert_eq!(Chars::BulletSquare.code(), 254);
    assert_eq!(Chars::Smilie.code(), 1);
    assert_eq!(Chars::Block3.into_char(), 178 as char);
    assert_eq!(Chars::ArrowN.into_char(), 24 as char);
    assert_eq!(Chars::HLine.into_string(), (196 as char).to_string());
}
