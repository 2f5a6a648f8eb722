//! Frame-by-frame simulation of a one-button arcade game: a bird that falls
//! under gravity and jumps on input, two pipes that scroll and are recycled,
//! a tiled ground, collision, scoring and the start / play / game-over cycle.
//!
//! All quantities are integers. Lengths are in thousandths of a pixel, time in
//! milliseconds, speeds in thousandths of a pixel per millisecond (which is the
//! same number as pixels per second).

pub mod bird;
pub mod clock;
pub mod ground;
pub mod icon;
pub mod laws;
pub mod pipe;
pub mod random;
pub mod screen;
pub mod step;
pub mod units;
pub mod window;
pub mod world;
