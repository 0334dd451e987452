//! Small helpers used across the crate.

pub mod array2d;
pub mod tcod;
pub mod text;

use vstd::prelude::*;
use vstd::std_specs::cmp::{PartialOrdIs, PartialOrdSpec};

verus! {

/// A value that can be turned into its opposite in place.
pub trait Flip: Sized {
    spec fn flipped(&self) -> Self;

    fn flip(&mut self)
        ensures
            *final(self) == old(self).flipped(),
    ;
}

impl Flip for bool {
    open spec fn flipped(&self) -> bool {
        !*self
    }

    fn flip(&mut self) {
        *self = !*self;
    }
}

/// The position `i` as a mathematical integer.
pub open spec fn position(i: usize) -> int {
    i as int
}

/// The entry before the first one, from the second on, that `value` does
/// not exceed; the last entry where `value` exceeds them all. The search
/// starts at `from`.
pub open spec fn largest_fit_from<T: PartialOrd>(value: T, values: Seq<T>, from: int) -> T
    decreases values.len() - from,
{
    if from < 0 || from + 1 >= values.len() {
        values[values.len() - 1]
    } else if value.is_le(&values[from + 1]) {
        values[from]
    } else {
        largest_fit_from(value, values, from + 1)
    }
}

/// Replaces `value` by the entry of `values` that stands before the first
/// one, from the second on, that `value` does not exceed, or by the last
/// entry where there is none.
pub fn find_largest_fit<T: PartialOrd + Copy>(value: &mut T, values: &[T])
    requires
        values.len() > 0,
    ensures
        T::obeys_partial_cmp_spec() ==> *final(value) == largest_fit_from(*old(value), values@, 0),
        values@.contains(*final(value)),
{
    let mut i: usize = 0;
    while i + 1 < values.len()
        invariant
            values.len() > 0,
            i < values.len(),
            *value == *old(value),
            T::obeys_partial_cmp_spec() ==> largest_fit_from(*old(value), values@, 0)
                == largest_fit_from(*old(value), values@, position(i)),
        decreases values.len() - i,
    {
        if *value <= values[i + 1] {
            *value = values[i];
            return ;
        }
        i += 1;
    }
    *value = values[values.len() - 1];
}

/// What an answer of the tie breaker picks: `right_winner` for `true`.
pub open spec fn tie_pick<R>(answer: bool, left_winner: R, right_winner: R) -> R {
    if answer {
        right_winner
    } else {
        left_winner
    }
}

/// Whether `picked` is what some answer that `tie_breaker` may give
/// picks.
pub open spec fn tie_broken<R, F: FnMut() -> bool>(tie_breaker: F, picked: R, left_winner: R, right_winner: R) -> bool {
    exists|answer: bool| #[trigger]
        call_ensures(tie_breaker, (), answer) && picked == tie_pick(answer, left_winner, right_winner)
}

/// Compares each entry of `data` with its right neighbour and puts out
/// `right_winner` where the right one is greater and `left_winner` where
/// the left one is. Where neither is, `tie_breaker` is asked: `true` picks
/// `right_winner`.
pub fn compare_and_pick<T: PartialOrd, R: Copy, F: FnMut() -> bool>(
    data: &[T],
    left_winner: R,
    right_winner: R,
    mut tie_breaker: F,
) -> (results: Vec<R>)
    requires
        call_requires(tie_breaker, ()),
    ensures
        data.len() == 0 ==> results.len() == 0,
        data.len() > 0 ==> results.len() == data.len() - 1,
        forall|i: int|
            0 <= i < results.len() ==> #[trigger] results[i] == left_winner || results[i]
                == right_winner,
        T::obeys_partial_cmp_spec() ==> forall|i: int|
            0 <= i < results.len() ==> (data[i].is_lt(&data[i + 1]) ==> #[trigger] results[i]
                == right_winner) && (data[i].is_gt(&data[i + 1]) ==> results[i] == left_winner),
        T::obeys_partial_cmp_spec() ==> forall|i: int|
            0 <= i < results.len() && !data[i].is_lt(&data[i + 1]) && !data[i].is_gt(&data[i + 1]) ==> tie_broken(
                tie_breaker,
                #[trigger] results[i],
                left_winner,
                right_winner,
            ),
{
    let ghost asked = tie_breaker;
    let mut results: Vec<R> = Vec::new();
    if data.len() == 0 {
        return results;
    }
    let mut i: usize = 0;
    while i + 1 < data.len()
        invariant
            data.len() > 0,
            i < data.len(),
            results.len() == i,
            call_requires(tie_breaker, ()),
            forall|j: int|
                0 <= j < results.len() ==> #[trigger] results[j] == left_winner || results[j]
                    == right_winner,
            T::obeys_partial_cmp_spec() ==> forall|j: int|
                0 <= j < results.len() ==> (data[j].is_lt(&data[j + 1]) ==> #[trigger] results[j]
                    == right_winner) && (data[j].is_gt(&data[j + 1]) ==> results[j] == left_winner),
            T::obeys_partial_cmp_spec() ==> forall|j: int|
                0 <= j < results.len() && !data[j].is_lt(&data[j + 1]) && !data[j].is_gt(&data[j + 1])
                    ==> tie_broken(asked, #[trigger] results[j], left_winner, right_winner),
            tie_breaker == asked,
        decreases data.len() - i,
    {
        if data[i] < data[i + 1] {
            results.push(right_winner);
        } else if data[i] > data[i + 1] {
            results.push(left_winner);
        } else {
            let answer = tie_breaker();
            assert(call_ensures(asked, (), answer));
            if answer {
                results.push(right_winner);
            } else {
                results.push(left_winner);
            }
            assert(tie_broken(asked, results[position(i)], left_winner, right_winner)) by {
                assert(results[position(i)] == tie_pick(answer, left_winner, right_winner));
            }
        }
        i += 1;
    }
    results
}

/// The entry at `i` and its right neighbour.
pub open spec fn neighbours<T>(data: Seq<T>, i: int) -> (T, T) {
    (data[i], data[i + 1])
}

/// Applies `map` to each entry of `data` and its right neighbour.
pub fn dual_map<T: Copy, R, F: Fn(T, T) -> R>(data: &[T], map: F) -> (results: Vec<R>)
    requires
        forall|i: int| 0 <= i < data.len() - 1 ==> call_requires(map, #[trigger] neighbours(data@, i)),
    ensures
        data.len() == 0 ==> results.len() == 0,
        data.len() > 0 ==> results.len() == data.len() - 1,
        forall|i: int|
            0 <= i < results.len() ==> call_ensures(map, neighbours(data@, i), #[trigger] results[i]),
{
    let mut results: Vec<R> = Vec::new();
    if data.len() == 0 {
        return results;
    }
    let mut i: usize = 0;
    while i + 1 < data.len()
        invariant
            data.len() > 0,
            i < data.len(),
            results.len() == i,
            forall|j: int| 0 <= j < data.len() - 1 ==> call_requires(map, #[trigger] neighbours(data@, j)),
            forall|j: int|
                0 <= j < results.len() ==> call_ensures(map, neighbours(data@, j), #[trigger] results[j]),
        decreases data.len() - i,
    {
        assert(neighbours(data@, i as int) == (data[i as int], data[i + 1]));
        results.push(map(data[i], data[i + 1]));
        i += 1;
    }
    results
}

/// `value` held between `min` and `max`.
pub open spec fn clamped<T: PartialOrd>(value: T, min: T, max: T) -> T {
    if value.is_lt(&min) {
        min
    } else if value.is_gt(&max) {
        max
    } else {
        value
    }
}

/// `min` where `value` is below it, `max` where `value` is above it, and
/// `value` otherwise.
pub fn clamp<T: PartialOrd>(value: T, min: T, max: T) -> (r: T)
    requires
        min.is_le(&max),
    ensures
        T::obeys_partial_cmp_spec() ==> r == clamped(value, min, max),
        r == value || r == min || r == max,
{
    if value < min {
        min
    } else if value > max {
        max
    } else {
        value
    }
}

/// What an `Option` holds once `v` was offered to it: what it held, or `v`
/// where it held nothing.
pub open spec fn filled<T>(held: Option<T>, v: Option<T>) -> Option<T> {
    if held.is_none() {
        v
    } else {
        held
    }
}

/// An `Option` that is filled on demand.
pub trait OptionExt<T> {
    /// Puts `v` in where nothing is held yet, and hands out what is held
    /// then.
    fn get_or_maybe_insert(&mut self, v: Option<T>) -> (r: Option<&mut T>);

    /// Asks `f` for a value where nothing is held yet, and only then, puts
    /// it in, and hands out what is held then.
    fn get_or_maybe_insert_with<F: FnOnce() -> Option<T>>(&mut self, f: F) -> (r: Option<&mut T>)
        requires
            f.requires(()),
    ;
}

impl<T> OptionExt<T> for Option<T> {
    fn get_or_maybe_insert(&mut self, v: Option<T>) -> (r: Option<&mut T>)
        ensures
            (match filled(*old(self), v) {
                None => final(self).is_none() && r.is_none(),
                Some(x) => final(self).is_some() && r.is_some() && *r.unwrap() == x
                    && *final(r.unwrap()) == final(self).unwrap(),
            }),
    {
        if self.is_none() {
            *self = v;
        }
        self.as_mut()
    }

    fn get_or_maybe_insert_with<F: FnOnce() -> Option<T>>(&mut self, f: F) -> (r: Option<&mut T>)
        ensures
            old(self).is_some() ==> r.is_some() && *r.unwrap() == old(self).unwrap()
                && final(self).is_some() && *final(r.unwrap()) == final(self).unwrap(),
            old(self).is_none() ==> exists|v: Option<T>| #[trigger]
                f.ensures((), v) && (match v {
                    None => final(self).is_none() && r.is_none(),
                    Some(x) => final(self).is_some() && r.is_some() && *r.unwrap() == x
                        && *final(r.unwrap()) == final(self).unwrap(),
                }),
    {
        if self.is_none() {
            *self = f();
        }
        self.as_mut()
    }
}

} // verus!
