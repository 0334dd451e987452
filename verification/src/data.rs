//! Plain data shared by the whole crate.

pub mod base;
pub mod paths;
pub mod random;
pub mod settings;
pub mod tile_sets;

use vstd::prelude::*;

verus! {

/// What can go wrong while the data of the game is set up.
#[derive(Copy, Clone, Debug, PartialEq, Eq, Structural)]
pub enum DataError {
    PathInitialization,
    SettingsLoad,
}

} // verus!
