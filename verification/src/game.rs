//! The phases of the program and the opening of a game.

use vstd::prelude::*;
use crate::asteroid::MeteorType;
use crate::spaceship::{fresh_ship, new_ship, ShipBundle};

verus! {

/// Phase of the program.
#[derive(Clone, Copy, Debug, PartialEq, Eq, Structural, Hash)]
pub enum GameState {
    AssetLoading,
    Menu,
    Playing,
}

impl Default for GameState {
    fn default() -> (state: GameState)
        ensures
            state == GameState::AssetLoading,
    {
        GameState::AssetLoading
    }
}

/// What stands in the arena when play begins.
#[derive(Clone, Copy, Debug, PartialEq, Eq, Structural)]
pub struct GameStart {
    /// The craft, at the origin.
    pub ship: ShipBundle,
    /// Size of the first meteor.
    pub meteor_type: MeteorType,
    /// Place of the first meteor, in whole units.
    pub meteor_x: i32,
    pub meteor_y: i32,
    pub meteor_z: i32,
}

/// The opening: a craft of the first level that wraps round the edges, and
/// one big meteor up and to the right of it.
pub open spec fn opening() -> GameStart {
    GameStart {
        ship: fresh_ship(true),
        meteor_type: MeteorType::Big,
        meteor_x: 50,
        meteor_y: 100,
        meteor_z: 1,
    }
}

/// Lays out the opening of a game.
pub fn test_game_start() -> (start: GameStart)
    ensures
        start == opening(),
{
    GameStart {
        ship: new_ship(true),
        meteor_type: MeteorType::Big,
        meteor_x: 50,
        meteor_y: 100,
        meteor_z: 1,
    }
}

} // verus!
