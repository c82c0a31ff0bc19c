//! Movement along one axis of the canvas.
//!
//! Coordinates are whole numbers between `-COORD_MAX` and `COORD_MAX`, the
//! range in which a double-precision float holds every whole number exactly,
//! so that drawing code can hand them to a canvas of doubles without loss.

use vstd::prelude::*;

verus! {

/// The largest magnitude of a coordinate, a speed or an extent: two to the
/// power of 53.
pub const COORD_MAX: i64 = 9_007_199_254_740_992;

/// Whether `v` lies on the coordinate line.
pub open spec fn in_range(v: int) -> bool {
    -COORD_MAX <= v <= COORD_MAX
}

/// Whether a piece that starts at `pos` and is `extent` long reaches past
/// either wall of a track from `low` to `high`.
pub open spec fn crosses(pos: int, extent: int, low: int, high: int) -> bool {
    pos < low || pos + extent > high
}

/// The direction flag after the wall check of one tick: turned round if the
/// piece reaches past a wall, kept otherwise.
pub open spec fn reflected(forward: bool, hit: bool) -> bool {
    if hit {
        !forward
    } else {
        forward
    }
}

/// Where a piece at `pos` stands after one move of `speed` in the direction
/// of the flag. A move that would leave the coordinate line is not made; at
/// unit speed this is what adding one to a double at the end of its exact
/// range gives.
pub open spec fn shifted(pos: i64, speed: i64, forward: bool) -> i64 {
    let target: int = if forward {
        pos + speed
    } else {
        pos - speed
    };
    if in_range(target) {
        target as i64
    } else {
        pos
    }
}

/// Tests a piece against the walls of its track.
pub fn crossing(pos: i64, extent: i64, low: u16, high: u16) -> (hit: bool)
    ensures
        hit == crosses(pos as int, extent as int, low as int, high as int),
{
    let far_end: i128 = pos as i128 + extent as i128;
    pos < low as i64 || far_end > high as i128
}

/// Moves a piece once along its axis.
pub fn shift(pos: i64, speed: i64, forward: bool) -> (next: i64)
    ensures
        next == shifted(pos, speed, forward),
        in_range(pos as int) ==> in_range(next as int),
{
    let target: i128 = if forward {
        pos as i128 + speed as i128
    } else {
        pos as i128 - speed as i128
    };
    if -(COORD_MAX as i128) <= target && target <= COORD_MAX as i128 {
        target as i64
    } else {
        pos
    }
}

} // verus!
