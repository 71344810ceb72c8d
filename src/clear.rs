//! Clearing the screen.
use vstd::prelude::*;

use crate::rect::outline_seq;
use crate::screen::{appends, csi, Screen};
use crate::NonOrthogonal;

verus! {

/// Clear the screen (full clear, not scroll).
pub fn all(s: &mut Screen)
    ensures
        appends(old(s), final(s), csi("2J"@)),
{
    s.emit("2J");
}

/// Clear the current line.
pub fn line(s: &mut Screen)
    ensures
        appends(old(s), final(s), csi("2K"@)),
{
    s.emit("2K");
}

/// Clear the outline of a rectangle, by drawing it with spaces. *Note:*
/// will clear using the current background color.
pub fn rect(s: &mut Screen, x1: u32, y1: u32, x2: u32, y2: u32) -> (r: Result<(), NonOrthogonal>)
    ensures
        r is Ok,
        appends(old(s), final(s), outline_seq(' ', x1, y1, x2, y2)),
{
    crate::rect::line(s, ' ', x1, y1, x2, y2)
}

} // verus!
