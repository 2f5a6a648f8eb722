//! A pipe: an obstacle with a gap, scrolling to the left.

use vstd::prelude::*;
use crate::bird::Bird;
use crate::random::{gap_edge_in_range, is_gap_edge};
use crate::units::{
    BIRD_SIZE, GAME_SPEED, MAX_EXTENT, MAX_FRAME_MS, PIPE_DISTANCE, PIPE_GAP, PIPE_LEFT_LIMIT,
    PIPE_RIGHT_LIMIT, SCORE_WINDOW,
};

verus! {

/// A pipe. `x` is its left edge and `y` the lower edge of its gap; the gap
/// reaches `PIPE_GAP` upwards from there.
#[derive(Clone, Copy, Debug, PartialEq, Eq, Structural)]
pub struct Pipe {
    pub x: i64,
    pub y: i64,
}

impl Pipe {
    /// Limits within which a pipe is moved and tested without overflow.
    pub open spec fn in_limits(self) -> bool {
        &&& PIPE_LEFT_LIMIT <= self.x <= PIPE_RIGHT_LIMIT
        &&& gap_edge_in_range(self.y as int)
    }

    /// The pipe after scrolling for `dt` milliseconds.
    pub open spec fn spec_scroll(self, dt: int) -> Pipe {
        Pipe { x: (self.x - GAME_SPEED * dt) as i64, y: self.y }
    }

    /// Whether a pipe of the given width has left the screen on the left.
    pub open spec fn spec_off_screen(self, width: int) -> bool {
        self.x + width < 0
    }

    /// The pipe that follows `partner` at the fixed spacing, with its gap's
    /// lower edge at `y`.
    pub open spec fn spec_following(partner: Pipe, y: i64) -> Pipe {
        Pipe { x: (partner.x + PIPE_DISTANCE) as i64, y }
    }

    /// Whether the bird's centre is within `SCORE_WINDOW` of the pipe's right
    /// edge, on either side and not at the window's ends.
    pub open spec fn spec_passed_by(self, width: int, bird: Bird) -> bool {
        bird.x - SCORE_WINDOW < self.x + width && bird.x + SCORE_WINDOW > self.x + width
    }

    /// Whether the bird's square overlaps the pipe's width without lying
    /// wholly inside the gap.
    pub open spec fn spec_hits(self, width: int, bird: Bird) -> bool {
        &&& self.x < bird.x + BIRD_SIZE
        &&& self.x + width > bird.x - BIRD_SIZE
        &&& !(self.y > bird.y + BIRD_SIZE && self.y - PIPE_GAP < bird.y - BIRD_SIZE)
    }

    /// Tests the pipe against its limits.
    pub fn is_in_limits(self) -> (r: bool)
        ensures
            r == self.in_limits(),
    {
        PIPE_LEFT_LIMIT <= self.x && self.x <= PIPE_RIGHT_LIMIT && is_gap_edge(self.y)
    }

    /// Scrolls the pipe for `dt` milliseconds.
    pub fn scroll(self, dt: u32) -> (r: Pipe)
        requires
            dt <= MAX_FRAME_MS,
            self.in_limits(),
        ensures
            r == self.spec_scroll(dt as int),
            r.x == self.x - GAME_SPEED * dt,
            r.y == self.y,
    {
        Pipe { x: self.x - GAME_SPEED * (dt as i64), y: self.y }
    }

    /// Tests whether the pipe has left the screen on the left.
    pub fn off_screen(self, width: i64) -> (r: bool)
        requires
            0 <= width <= MAX_EXTENT,
            self.x >= PIPE_LEFT_LIMIT - MAX_EXTENT,
            self.x <= PIPE_RIGHT_LIMIT,
        ensures
            r == self.spec_off_screen(width as int),
    {
        self.x + width < 0
    }

    /// Makes the pipe that follows `partner`.
    pub fn following(partner: Pipe, y: i64) -> (r: Pipe)
        requires
            partner.x >= PIPE_LEFT_LIMIT - MAX_EXTENT,
            partner.x <= PIPE_RIGHT_LIMIT,
        ensures
            r == Pipe::spec_following(partner, y),
            r.x == partner.x + PIPE_DISTANCE,
            r.y == y,
    {
        Pipe { x: partner.x + PIPE_DISTANCE, y }
    }

    /// Tests whether the bird is just passing the pipe's right edge.
    pub fn passed_by(self, width: i64, bird: Bird) -> (r: bool)
        requires
            0 <= width <= MAX_EXTENT,
            0 <= bird.x <= MAX_EXTENT,
            self.in_limits(),
        ensures
            r == self.spec_passed_by(width as int, bird),
    {
        bird.x - SCORE_WINDOW < self.x + width && bird.x + SCORE_WINDOW > self.x + width
    }

    /// Tests whether the bird has run into the pipe.
    pub fn hits(self, width: i64, bird: Bird) -> (r: bool)
        requires
            0 <= width <= MAX_EXTENT,
            0 <= bird.x <= MAX_EXTENT,
            bird.in_limits(),
            self.in_limits(),
        ensures
            r == self.spec_hits(width as int, bird),
    {
        self.x < bird.x + BIRD_SIZE && self.x + width > bird.x - BIRD_SIZE && !(self.y > bird.y
            + BIRD_SIZE && self.y - PIPE_GAP < bird.y - BIRD_SIZE)
    }
}

} // verus!
