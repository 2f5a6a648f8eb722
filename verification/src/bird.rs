//! The bird: a point with a vertical speed.

use vstd::prelude::*;
use crate::units::{
    BIRD_SIZE, DEPTH_LIMIT, GRAVITY, JUMP_FORCE, MAX_FRAME_MS, RISE_FLOOR, RISE_TIME, SPEED_LIMIT,
};

verus! {

/// Position of the bird's centre and its vertical speed, positive downwards.
#[derive(Clone, Copy, Debug, PartialEq, Eq, Structural)]
pub struct Bird {
    pub x: i64,
    pub y: i64,
    pub vy: i64,
}

impl Bird {
    /// Limits within which the bird's motion is computed without overflow:
    /// it never rises faster than a jump throws it, and its height, lowered
    /// by the rise that its upward speed still promises, stays above a fixed
    /// floor.
    pub open spec fn in_limits(self) -> bool {
        &&& -JUMP_FORCE <= self.vy <= SPEED_LIMIT
        &&& self.y <= DEPTH_LIMIT
        &&& self.y + RISE_TIME * self.upward() >= RISE_FLOOR
    }

    /// The bird's speed where it rises (a negative number), zero where it
    /// falls.
    pub open spec fn upward(self) -> int {
        if self.vy < 0 {
            self.vy as int
        } else {
            0
        }
    }

    /// The bird after a jump: the speed is the fixed impulse, whatever it was.
    pub open spec fn spec_jump(self) -> Bird {
        Bird { vy: (-JUMP_FORCE) as i64, ..self }
    }

    /// The bird after `dt` milliseconds of free fall: gravity first changes
    /// the speed, and the new speed then moves the bird.
    pub open spec fn spec_fall(self, dt: int) -> Bird {
        let vy = self.vy + GRAVITY * dt;
        Bird { x: self.x, y: (self.y + vy * dt) as i64, vy: vy as i64 }
    }

    /// Whether the bird's square reaches above the top of the screen or below
    /// the line `floor`.
    pub open spec fn spec_out_of_bounds(self, floor: int) -> bool {
        self.y - BIRD_SIZE < 0 || self.y + BIRD_SIZE > floor
    }

    /// Whether the bird's lower edge is still above the line `floor`.
    pub open spec fn spec_above(self, floor: int) -> bool {
        self.y + BIRD_SIZE < floor
    }

    /// The angle at which the bird is drawn, in thousandths of a degree: nose
    /// down in proportion to a falling speed, up to a right angle, and nose up
    /// in proportion to a rising speed.
    pub open spec fn spec_rotation(self) -> int {
        if self.vy > 1000 {
            90_000
        } else if self.vy >= 0 {
            self.vy * 90
        } else {
            self.vy * 60
        }
    }

    /// Gives the bird the jump impulse.
    pub fn jump(self) -> (r: Bird)
        ensures
            r == self.spec_jump(),
            r.vy == -JUMP_FORCE,
            r.x == self.x,
            r.y == self.y,
    {
        Bird { x: self.x, y: self.y, vy: -JUMP_FORCE }
    }

    /// Lets the bird fall for `dt` milliseconds.
    pub fn fall(self, dt: u32) -> (r: Bird)
        requires
            dt <= MAX_FRAME_MS,
            self.in_limits(),
        ensures
            r == self.spec_fall(dt as int),
            r.x == self.x,
            r.vy == self.vy + GRAVITY * dt,
            r.y == self.y + r.vy * dt,
            r.vy >= 0 ==> r.y <= self.y + MAX_FRAME_MS * r.vy,
            r.vy >= 0 ==> r.y >= self.y,
            r.vy <= 0 ==> r.y <= self.y,
            r.vy > 0 && dt > 0 ==> r.y - self.y >= r.vy,
            r.y + RISE_TIME * r.upward() >= self.y + RISE_TIME * self.upward(),
    {
        proof {
            law_gravity_raises_speed(self, dt as int);
        }
        let t: i64 = dt as i64;
        let vy: i64 = self.vy + GRAVITY * t;
        Bird { x: self.x, y: self.y + vy * t, vy }
    }

    /// Tests the bird against its limits.
    pub fn is_in_limits(self) -> (r: bool)
        ensures
            r == self.in_limits(),
    {
        -JUMP_FORCE <= self.vy && self.vy <= SPEED_LIMIT && self.y <= DEPTH_LIMIT && self.y
            >= RISE_FLOOR && (if self.vy < 0 {
            self.y + RISE_TIME * self.vy >= RISE_FLOOR
        } else {
            true
        })
    }

    /// Tests the bird against the top of the screen and the line `floor`.
    pub fn out_of_bounds(self, floor: i64) -> (r: bool)
        requires
            self.in_limits(),
        ensures
            r == self.spec_out_of_bounds(floor as int),
    {
        self.y - BIRD_SIZE < 0 || self.y + BIRD_SIZE > floor
    }

    /// Tests whether the bird has yet to come down to the line `floor`.
    pub fn above(self, floor: i64) -> (r: bool)
        requires
            self.in_limits(),
        ensures
            r == self.spec_above(floor as int),
    {
        self.y + BIRD_SIZE < floor
    }

    /// Computes the angle at which the bird is drawn.
    pub fn rotation(self) -> (r: i64)
        requires
            self.in_limits(),
        ensures
            r == self.spec_rotation(),
            -36_000 <= r <= 90_000,
    {
        if self.vy > 1000 {
            90_000
        } else if self.vy >= 0 {
            self.vy * 90
        } else {
            self.vy * 60
        }
    }
}

/// Gravity acts one way. Over a frame of `dt` milliseconds without a jump the
/// bird's speed grows by exactly `GRAVITY * dt`, so it grows strictly whenever
/// time passes, and the bird moves by exactly the new speed times `dt`: a bird
/// that falls does not rise, one that rises does not fall, and a falling bird
/// covers at least its speed in any frame that lasts. The height that the
/// bird can still lose to its upward speed is never regained: its height less
/// that rise does not go down.
pub proof fn law_gravity_raises_speed(bird: Bird, dt: int)
    requires
        0 <= dt <= MAX_FRAME_MS,
        bird.in_limits(),
    ensures
        bird.spec_fall(dt).x == bird.x,
        bird.spec_fall(dt).vy == bird.vy + GRAVITY * dt,
        bird.spec_fall(dt).y == bird.y + (bird.vy + GRAVITY * dt) * dt,
        bird.spec_fall(dt).vy >= bird.vy,
        dt > 0 ==> bird.spec_fall(dt).vy > bird.vy,
        bird.spec_fall(dt).vy >= 0 ==> bird.spec_fall(dt).y >= bird.y,
        bird.spec_fall(dt).vy <= 0 ==> bird.spec_fall(dt).y <= bird.y,
        bird.spec_fall(dt).vy > 0 && dt > 0 ==> bird.spec_fall(dt).y - bird.y >= bird.spec_fall(
            dt,
        ).vy,
        bird.spec_fall(dt).vy >= 0 ==> bird.spec_fall(dt).y <= bird.y + MAX_FRAME_MS
            * bird.spec_fall(dt).vy,
        bird.spec_fall(dt).y + RISE_TIME * bird.spec_fall(dt).upward() >= bird.y + RISE_TIME
            * bird.upward(),
{
    let vy = bird.vy + GRAVITY * dt;
    assert(vy >= 0 ==> 0 <= vy * dt <= 1000 * vy) by (nonlinear_arith)
        requires
            0 <= dt <= 1000,
    ;
    assert(vy < 0 ==> -600_000 <= vy * dt <= 0) by (nonlinear_arith)
        requires
            0 <= dt <= 1000,
            -600 <= vy,
    ;
    assert(vy > 0 && dt > 0 ==> vy * dt >= vy) by (nonlinear_arith);
    assert(vy * dt + 600 * dt >= 0) by (nonlinear_arith)
        requires
            0 <= dt,
            -600 <= vy,
    ;
}

/// A jump fixes the speed: whatever the bird's speed was, after the jump it
/// is the impulse, upwards, and the bird has not moved.
pub proof fn law_jump_sets_speed(bird: Bird)
    ensures
        bird.spec_jump().vy == -JUMP_FORCE,
        bird.spec_jump().x == bird.x,
        bird.spec_jump().y == bird.y,
{
}

} // verus!
