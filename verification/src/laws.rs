//! What holds of the absolute form of every bearing.
use vstd::prelude::*;
use crate::absolute;

verus! {

/// The absolute form of any bearing lies in [0, 360), and taking the absolute
/// form of an absolute form changes nothing.
pub proof fn lemma_absolute_idempotent(bearing: int)
    ensures
        0 <= absolute(bearing) < 360,
        absolute(absolute(bearing)) == absolute(bearing),
{
}

/// A signed bearing in (-180, 180] keeps its value where it is not negative
/// and gains one full turn where it is.
pub proof fn lemma_absolute_of_signed(bearing: int)
    requires
        -180 < bearing <= 180,
    ensures
        absolute(bearing) == if bearing < 0 { bearing + 360 } else { bearing },
{
}

/// Whole turns, forward or backward, do not change the absolute form.
pub proof fn lemma_absolute_ignores_turns(bearing: int, turns: int)
    ensures
        absolute(bearing + 360 * turns) == absolute(bearing),
{
}

/// The absolute form is the only angle in [0, 360) that lies a whole number
/// of turns away from the bearing.
pub proof fn lemma_absolute_unique(bearing: int, angle: int, turns: int)
    requires
        0 <= angle < 360,
        bearing == angle + 360 * turns,
    ensures
        absolute(bearing) == angle,
{
}

} // verus!
