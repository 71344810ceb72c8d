//! Decolor your text.
use vstd::prelude::*;

use crate::color::{popped, restacked, show_seq};
use crate::screen::Screen;

verus! {

/// Reset the foreground color: pops the most recent color off.
pub fn fg(s: &mut Screen)
    ensures
        restacked(old(s), final(s), true, popped(old(s).fg@), show_seq(true, popped(old(s).fg@))),
{
    crate::color::fg::pop(s);
}

/// Reset the background color: pops the most recent color off.
pub fn bg(s: &mut Screen)
    ensures
        restacked(old(s), final(s), false, popped(old(s).bg@), show_seq(false, popped(old(s).bg@))),
{
    crate::color::bg::pop(s);
}

/// Reset all color: pops the most recent foreground, then background,
/// color off.
pub fn all(s: &mut Screen)
    ensures
        final(s).fg@ == popped(old(s).fg@),
        final(s).bg@ == popped(old(s).bg@),
        final(s).style == old(s).style,
        final(s).out@ == old(s).out@ + show_seq(true, popped(old(s).fg@)) + show_seq(
            false,
            popped(old(s).bg@),
        ),
{
    fg(s);
    bg(s);
}

} // verus!
