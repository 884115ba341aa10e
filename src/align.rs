//! Address alignment.

use vstd::prelude::*;

verus! {

/// The granularity of every region boundary, in bytes.
pub const REGION_ALIGN: u32 = 32;

/// `x` rounded up to the nearest multiple of `y`.
pub open spec fn round_up(x: int, y: int) -> int {
    if x % y == 0 {
        x
    } else {
        x + y - x % y
    }
}

/// Whether `x` is a multiple of the region granularity.
pub open spec fn aligned(x: int) -> bool {
    x % 32 == 0
}

/// Rounds `x` up to the nearest multiple of `y`.
pub fn round_up_to_nearest_multiple(x: u32, y: u32) -> (r: u32)
    requires
        y > 0,
        round_up(x as int, y as int) <= u32::MAX,
    ensures
        r == round_up(x as int, y as int),
{
    if x % y == 0 {
        x
    } else {
        x + (y - x % y)
    }
}

/// Rounding up lands on a multiple of `y`, never below `x`, and less than
/// `y` above it.
pub proof fn lemma_round_up(x: int, y: int)
    requires
        x >= 0,
        y > 0,
    ensures
        round_up(x, y) % y == 0,
        round_up(x, y) >= x,
        round_up(x, y) - x < y,
{
    if x % y != 0 {
        assert((x + y - x % y) % y == 0) by (nonlinear_arith)
            requires y > 0, x >= 0;
    }
}

} // verus!
