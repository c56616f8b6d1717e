//! Compile-time configuration.
//!
//! Speeds and accelerations are fixed-point numbers: an integer `n` stands
//! for `n / SPEED_SCALE` pixels per millisecond (or per millisecond squared).

use vstd::prelude::*;

verus! {

/// Width of the window in pixels.
pub const SCREEN_WIDTH: u32 = 640;

/// Height of the window in pixels.
pub const SCREEN_HEIGHT: u32 = 480;

/// Target frame rate, in frames per second.
pub const FPS: u32 = 60;

/// Edge length of one sprite-sheet tile in pixels.
pub const TILE_SIZE: u32 = 32;

/// Number of fixed-point units in one pixel per millisecond.
pub const SPEED_SCALE: i64 = 1_000_000;

/// Horizontal acceleration while walking: 0.0012 pixels per ms squared.
pub const WALKING_ACCELERATION: i64 = 1_200;

/// Largest horizontal speed: 0.325 pixels per ms.
pub const MAX_SPEED: i64 = 325_000;

/// Factor applied to the horizontal velocity on each tick spent on the
/// ground without acceleration: 0.8.
pub const SLOW_DOWN: i64 = 800_000;

/// Upward speed at the start of a jump: 0.325 pixels per ms.
pub const JUMP_SPEED: i64 = 325_000;

/// Length of the jump window in milliseconds.
pub const JUMP_TIME: u32 = 275;

/// Downward acceleration: 0.0012 pixels per ms squared.
pub const GRAVITY: i64 = 1_200;

/// Largest downward speed: 0.325 pixels per ms.
pub const MAX_SPEED_Y: i64 = 325_000;

/// The y coordinate of the ground line.
pub const GROUND_Y: i32 = 320;

/// Where the player is created.
pub const SPAWN_X: i32 = 320;

/// Where the player is created.
pub const SPAWN_Y: i32 = 240;

} // verus!
