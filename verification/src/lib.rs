//! Game rules of the camera and UFO plugins: how the game's viewport is fitted
//! into the window, when a UFO appears, how hits wear a UFO or the ship down.

mod arith;
pub mod camera;
pub mod constants;
mod random;
pub mod ufo;
