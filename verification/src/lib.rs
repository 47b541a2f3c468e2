//! Compass bearings in whole degrees.
//!
//! A bearing is an angle measured clockwise from true north. It is written
//! either in signed form, in the half-open range (-180, 180], where negative
//! values lie west of north, or in absolute form, in [0, 360), the range of
//! the compass rose. This crate turns any whole-degree angle into its
//! absolute form and proves what that form is.
use vstd::prelude::*;

pub mod laws;

verus! {

/// Degrees in a full turn.
pub const FULL_TURN: i64 = 360;

/// The absolute form of `bearing`: the one angle in [0, 360) that lies a
/// whole number of turns away from it.
pub open spec fn absolute(bearing: int) -> int {
    bearing % (FULL_TURN as int)
}

/// Maps a bearing, signed or not and of any size, to its absolute form.
///
/// The remainder of the division by a full turn keeps the sign of `bearing`;
/// a negative remainder is then moved up by one turn. So 30 stays 30, -30
/// becomes 330, 710 becomes 350 and -180 becomes 180.
pub fn abs_bearing(bearing: i64) -> (r: i64)
    ensures
        r == absolute(bearing as int),
        0 <= r < FULL_TURN,
{
    let mut r: i64 = bearing % FULL_TURN;
    if r < 0 {
        r = r + FULL_TURN;
    }
    r
}

} // verus!
