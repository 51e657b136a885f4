//! Rules of the media controls.

use vstd::prelude::*;

verus! {

/// A level held to the range of a percentage.
pub open spec fn clamped(level: int) -> int {
    if level < 0 {
        0
    } else if level > 100 {
        100
    } else {
        level
    }
}

/// Holds a requested output level to 0 through 100.
pub fn clamp_percent(level: i32) -> (held: i32)
    ensures
        held == clamped(level as int),
{
    if level < 0 {
        0
    } else if level > 100 {
        100
    } else {
        level
    }
}

} // verus!
