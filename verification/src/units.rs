//! The fixed numbers of the game.
//!
//! Lengths are in thousandths of a pixel and time is in milliseconds, so a
//! speed in thousandths of a pixel per millisecond reads as pixels per second
//! and every update of the simulation is exact integer arithmetic.

use vstd::prelude::*;

verus! {

/// Half the side of the square that stands for the bird in every test of
/// overlap.
pub const BIRD_SIZE: i64 = 17_000;

/// Height of the opening between the upper and the lower segment of a pipe.
pub const PIPE_GAP: i64 = 170_000;

/// Horizontal spacing kept between the two pipes.
pub const PIPE_DISTANCE: i64 = 250_000;

/// Where the first pipe starts a round.
pub const PIPE1_START: i64 = 532_000;

/// Lowest position that the lower edge of a pipe's gap can take.
pub const GAP_EDGE_MIN: i64 = 240_000;

/// Highest position that the lower edge of a pipe's gap can take.
pub const GAP_EDGE_MAX: i64 = 560_000;

/// Leftmost position at which a pipe is ever moved.
pub const PIPE_LEFT_LIMIT: i64 = -1_000_300_000;

/// Rightmost position that a pipe ever has.
pub const PIPE_RIGHT_LIMIT: i64 = 782_000;

/// Longest way that pipes and ground scroll in one frame.
pub const MAX_SCROLL: i64 = 150_000;

/// Gain of downward speed per millisecond.
pub const GRAVITY: i64 = 2;

/// Upward speed that a jump gives.
pub const JUMP_FORCE: i64 = 600;

/// Speed at which pipes and ground scroll to the left.
pub const GAME_SPEED: i64 = 150;

/// Half the width of the window around the bird's centre in which a pipe's
/// trailing edge counts as passed.
pub const SCORE_WINDOW: i64 = 1_000;

/// How far above the middle of the screen the bird starts a round.
pub const SPAWN_RISE: i64 = 100_000;

/// Longest frame, in milliseconds, that one update accepts. Within it the
/// scroll of one frame is shorter than the spacing of the pipes, which keeps
/// every coordinate bounded however long the game runs.
pub const MAX_FRAME_MS: u32 = 1_000;

/// Largest width or height that a screen or a texture may have.
pub const MAX_EXTENT: i64 = 1_000_000_000;

/// Time, in milliseconds, that gravity takes to use up the speed of a jump.
pub const RISE_TIME: i64 = 300;

/// Greatest downward speed of a bird that is still above the ground.
pub const AIR_SPEED_LIMIT: i64 = 1_000_300_000;

/// Greatest downward speed that the bird ever has.
pub const SPEED_LIMIT: i64 = 1_000_304_000;

/// Greatest height coordinate that the bird ever has.
pub const DEPTH_LIMIT: i64 = 1_001_304_000_000;

/// Least value of a bird's height once the rise that its upward speed still
/// promises is taken off.
pub const RISE_FLOOR: i64 = -280_000;

} // verus!
