use vstd::prelude::*;

verus! {

/// Width of the game area, in game units.
pub const GAME_WIDTH: u32 = 800;

/// Height of the game area, in game units.
pub const GAME_HEIGHT: u32 = 480;

} // verus!
