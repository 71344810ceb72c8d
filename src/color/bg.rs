//! The background color stack.
use vstd::prelude::*;

use crate::color::{pop_color, popped, restacked, show_seq};
use crate::screen::Screen;

verus! {

/// Pops a color off of the background color stack, and emits the color
/// below it, or the default background when none is left. Popping an empty
/// stack leaves it empty.
pub fn pop(s: &mut Screen)
    ensures
        restacked(old(s), final(s), false, popped(old(s).bg@), show_seq(false, popped(old(s).bg@))),
{
    pop_color(s, false);
}

} // verus!
