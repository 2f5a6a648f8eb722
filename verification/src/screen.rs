//! The sizes that the simulation takes from its surroundings.

use vstd::prelude::*;
use crate::bird::Bird;
use crate::units::{MAX_EXTENT, SPAWN_RISE};

verus! {

/// Sizes of the screen and of the textures that the rules depend on.
#[derive(Clone, Copy, Debug, PartialEq, Eq, Structural)]
pub struct Screen {
    pub width: i64,
    pub height: i64,
    pub ground_width: i64,
    pub ground_height: i64,
    pub pipe_width: i64,
}

impl Screen {
    /// Every size is at least zero and at most `MAX_EXTENT`.
    pub open spec fn wf(self) -> bool {
        &&& 0 <= self.width <= MAX_EXTENT
        &&& 0 <= self.height <= MAX_EXTENT
        &&& 0 <= self.ground_width <= MAX_EXTENT
        &&& 0 <= self.ground_height <= MAX_EXTENT
        &&& 0 <= self.pipe_width <= MAX_EXTENT
    }

    /// Height coordinate of the upper edge of the ground.
    pub open spec fn spec_ground_top(self) -> int {
        self.height - self.ground_height
    }

    /// The bird as it starts a round: in the middle of the screen's width,
    /// `SPAWN_RISE` above the middle of its height, at rest.
    pub open spec fn spec_spawn(self) -> Bird {
        Bird { x: (self.width / 2) as i64, y: (self.height / 2 - SPAWN_RISE) as i64, vy: 0 }
    }

    /// Tests the sizes against their limits.
    pub fn is_wf(&self) -> (r: bool)
        ensures
            r == self.wf(),
    {
        0 <= self.width && self.width <= MAX_EXTENT && 0 <= self.height && self.height
            <= MAX_EXTENT && 0 <= self.ground_width && self.ground_width <= MAX_EXTENT && 0
            <= self.ground_height && self.ground_height <= MAX_EXTENT && 0 <= self.pipe_width
            && self.pipe_width <= MAX_EXTENT
    }

    /// Computes the height coordinate of the upper edge of the ground.
    pub fn ground_top(&self) -> (r: i64)
        requires
            self.wf(),
        ensures
            r == self.spec_ground_top(),
    {
        self.height - self.ground_height
    }

    /// Places the bird where a round starts.
    pub fn spawn(&self) -> (r: Bird)
        requires
            self.wf(),
        ensures
            r == self.spec_spawn(),
            r.x == self.width / 2,
            r.y == self.height / 2 - SPAWN_RISE,
            r.vy == 0,
            r.in_limits(),
    {
        Bird { x: self.width / 2, y: self.height / 2 - SPAWN_RISE, vy: 0 }
    }
}

} // verus!
