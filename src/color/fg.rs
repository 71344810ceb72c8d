//! The foreground color stack.
use vstd::prelude::*;

use crate::color::{pop_color, popped, restacked, show_seq};
use crate::screen::Screen;

verus! {

/// Pops a color off of the foreground color stack, and emits the color
/// below it, or the default foreground when none is left. Popping an empty
/// stack leaves it empty.
pub fn pop(s: &mut Screen)
    ensures
        restacked(old(s), final(s), true, popped(old(s).fg@), show_seq(true, popped(old(s).fg@))),
{
    pop_color(s, true);
}

} // verus!
