//! The clock: elapsed time in microseconds, handed to the simulation in whole
//! milliseconds.

use vstd::prelude::*;
use crate::units::MAX_FRAME_MS;

verus! {

/// Microseconds in a millisecond.
pub const MICROS_PER_MS: u64 = 1_000;

/// What is left of a millisecond after the frames so far, in microseconds.
#[derive(Clone, Copy, Debug, PartialEq, Eq, Structural)]
pub struct Clock {
    pub carry: u64,
}

impl Clock {
    /// Less than a millisecond is carried.
    pub open spec fn wf(self) -> bool {
        self.carry < MICROS_PER_MS
    }

    /// The time that a frame of `micros` microseconds brings up, with what was
    /// carried.
    pub open spec fn spec_due(self, micros: u64) -> int {
        self.carry + micros
    }

    /// The length of the frame in whole milliseconds, at most `MAX_FRAME_MS`.
    pub open spec fn spec_frame_ms(self, micros: u64) -> int {
        if self.spec_due(micros) / (MICROS_PER_MS as int) >= MAX_FRAME_MS {
            MAX_FRAME_MS as int
        } else {
            self.spec_due(micros) / (MICROS_PER_MS as int)
        }
    }

    /// The clock after the frame: it carries the rest of the last millisecond,
    /// or nothing where the frame was cut to `MAX_FRAME_MS`.
    pub open spec fn spec_tick(self, micros: u64) -> Clock {
        if self.spec_due(micros) / (MICROS_PER_MS as int) >= MAX_FRAME_MS {
            Clock { carry: 0 }
        } else {
            Clock { carry: (self.spec_due(micros) % (MICROS_PER_MS as int)) as u64 }
        }
    }

    /// A clock that carries nothing.
    pub fn new() -> (clock: Clock)
        ensures
            clock.carry == 0,
            clock.wf(),
    {
        Clock { carry: 0 }
    }

    /// Tests whether less than a millisecond is carried.
    pub fn is_wf(&self) -> (r: bool)
        ensures
            r == self.wf(),
    {
        self.carry < MICROS_PER_MS
    }

    /// Takes the `micros` microseconds that a frame lasted and gives the
    /// length of the frame in whole milliseconds. A frame longer than
    /// `MAX_FRAME_MS` counts as one of that length.
    pub fn tick(&mut self, micros: u64) -> (ms: u32)
        requires
            old(self).wf(),
        ensures
            ms == old(self).spec_frame_ms(micros),
            *final(self) == old(self).spec_tick(micros),
            final(self).wf(),
            ms <= MAX_FRAME_MS,
            ms < MAX_FRAME_MS ==> ms * MICROS_PER_MS + final(self).carry == old(self).carry
                + micros,
    {
        let limit: u64 = 1_000_000;
        if micros >= limit {
            self.carry = 0;
            MAX_FRAME_MS
        } else {
            let due: u64 = self.carry + micros;
            if due >= limit {
                self.carry = 0;
                MAX_FRAME_MS
            } else {
                self.carry = due % MICROS_PER_MS;
                (due / MICROS_PER_MS) as u32
            }
        }
    }
}

} // verus!
