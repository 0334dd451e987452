use vstd::prelude::*;
use crate::game::{Key, KeyCode};

verus! {

/// How far an arrow key moves the camera.
pub const SMALL_MOVEMENT: i32 = 1;

/// How far an arrow key moves the camera while shift is held.
pub const LARGE_MOVEMENT: i32 = 10;

/// How far the key `key` moves the camera, along x and along y: an arrow
/// key moves it one cell in its direction, ten with shift, and no other
/// key moves it.
pub open spec fn spec_camera_step(key: Key) -> (i32, i32) {
    let step = if key.shift {
        LARGE_MOVEMENT
    } else {
        SMALL_MOVEMENT
    };
    match key.code {
        KeyCode::Up => (0, (-step) as i32),
        KeyCode::Down => (0, step),
        KeyCode::Left => ((-step) as i32, 0),
        KeyCode::Right => (step, 0),
        _ => (0, 0),
    }
}

pub fn camera_step(key: Key) -> (r: (i32, i32))
    ensures
        r == spec_camera_step(key),
{
    let step = if key.shift {
        LARGE_MOVEMENT
    } else {
        SMALL_MOVEMENT
    };
    match key.code {
        KeyCode::Up => (0, -step),
        KeyCode::Down => (0, step),
        KeyCode::Left => (-step, 0),
        KeyCode::Right => (step, 0),
        _ => (0, 0),
    }
}

} // verus!
