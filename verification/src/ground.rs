//! The ground: two tiles that scroll to the left, each placed behind the
//! other in turn.

use vstd::prelude::*;
use crate::units::{GAME_SPEED, MAX_EXTENT, MAX_FRAME_MS, MAX_SCROLL};

verus! {

/// One tile of the ground, by its upper left corner.
#[derive(Clone, Copy, Debug, PartialEq, Eq, Structural)]
pub struct Ground {
    pub x: i64,
    pub y: i64,
}

impl Ground {
    /// Limits within which a tile of the given width is kept.
    pub open spec fn in_limits(self, width: int) -> bool {
        -(width + MAX_SCROLL) <= self.x <= width
    }

    /// Whether the tile covers the left edge of the screen: it starts at or
    /// left of that edge and has not wholly left the screen.
    pub open spec fn spec_leads(self, width: int) -> bool {
        self.x <= 0 && self.x > -width
    }

    /// The two tiles after `dt` milliseconds in which `front` is the one to
    /// move: where `front` leads it scrolls and `back` is put right behind it;
    /// where it does not, both stay.
    pub open spec fn spec_drag(front: Ground, back: Ground, width: int, dt: int) -> (Ground, Ground) {
        if front.spec_leads(width) {
            let x = front.x - GAME_SPEED * dt;
            (Ground { x: x as i64, y: front.y }, Ground { x: (x + width) as i64, y: back.y })
        } else {
            (front, back)
        }
    }

    /// Tests the tile against its limits.
    pub fn is_in_limits(self, width: i64) -> (r: bool)
        requires
            0 <= width <= MAX_EXTENT,
        ensures
            r == self.in_limits(width as int),
    {
        -(width + MAX_SCROLL) <= self.x && self.x <= width
    }

    /// Tests whether the tile covers the left edge of the screen.
    pub fn leads(self, width: i64) -> (r: bool)
        requires
            0 <= width <= MAX_EXTENT,
        ensures
            r == self.spec_leads(width as int),
    {
        self.x <= 0 && self.x > -width
    }

    /// Scrolls `front` where it leads and puts `back` behind it.
    pub fn drag(front: Ground, back: Ground, width: i64, dt: u32) -> (r: (Ground, Ground))
        requires
            0 <= width <= MAX_EXTENT,
            dt <= MAX_FRAME_MS,
        ensures
            r == Ground::spec_drag(front, back, width as int, dt as int),
            r.0.y == front.y,
            r.1.y == back.y,
            front.in_limits(width as int) && back.in_limits(width as int) ==> r.0.in_limits(
                width as int,
            ) && r.1.in_limits(width as int),
    {
        if front.leads(width) {
            let x: i64 = front.x - GAME_SPEED * (dt as i64);
            (Ground { x, y: front.y }, Ground { x: x + width, y: back.y })
        } else {
            (front, back)
        }
    }
}

} // verus!
