//! The source of randomness for pipe placement.

use vstd::prelude::*;
use crate::units::{GAP_EDGE_MAX, GAP_EDGE_MIN};

verus! {

/// Whether `y` is a position that the lower edge of a pipe's gap may take.
pub open spec fn gap_edge_in_range(y: int) -> bool {
    GAP_EDGE_MIN <= y <= GAP_EDGE_MAX
}

/// Draws an integer from the process-wide generator of `macroquad::rand`.
///
/// Calls `macroquad::rand::gen_range`, which scales a 32-bit draw into the
/// interval from `low` to `high` in double precision and truncates. The
/// contract claims only that the result lies between the two bounds, both
/// included; which value comes is left open. The bounds are kept small enough
/// to be exact in double precision.
#[verifier::external_body]
fn gen_range(low: i64, high: i64) -> (r: i64)
    requires
        -0x1_0000_0000 <= low <= high <= 0x1_0000_0000,
    ensures
        low <= r <= high,
{
    macroquad::rand::gen_range(low, high)
}

/// Draws a fresh position for the lower edge of a pipe's gap.
pub fn random_gap_edge() -> (y: i64)
    ensures
        gap_edge_in_range(y as int),
{
    gen_range(GAP_EDGE_MIN, GAP_EDGE_MAX)
}

/// Tests whether `y` is a position that the lower edge of a gap may take.
pub fn is_gap_edge(y: i64) -> (r: bool)
    ensures
        r == gap_edge_in_range(y as int),
{
    GAP_EDGE_MIN <= y && y <= GAP_EDGE_MAX
}

} // verus!
