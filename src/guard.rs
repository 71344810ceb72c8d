//! [`Reset`], which resets the terminal's styles and colors.
use vstd::prelude::*;

use crate::color::{popped, show_seq};
use crate::screen::{csi, Color, Screen, Style};

verus! {

/// Resets all style and color attributes: a value to hold until the
/// terminal must be put back as it was, such as before exiting.
#[derive(Clone, Copy, Debug, PartialEq, Eq, Structural)]
pub struct Reset;

/// What [`Reset::apply`] emits for a screen whose stacks are `fg` and `bg`.
pub open spec fn reset_all_seq(fg: Seq<Color>, bg: Seq<Color>) -> Seq<char> {
    csi(seq!['2', '3', 'm']) + csi(seq!['2', '4', 'm']) + csi(seq!['2', '9', 'm']) + csi(
        seq!['2', '2', 'm'],
    ) + show_seq(true, popped(fg)) + show_seq(false, popped(bg))
}

impl Reset {
    /// Disables every style, then pops one color off each stack.
    pub fn apply(&self, s: &mut Screen)
        ensures
            final(s).out@ == old(s).out@ + reset_all_seq(old(s).fg@, old(s).bg@),
            final(s).style == Style::plain(),
            final(s).fg@ == popped(old(s).fg@),
            final(s).bg@ == popped(old(s).bg@),
    {
        let ghost start = s.out@;
        crate::style::de::all(s);
        crate::color::de::all(s);
        assert(s.out@ =~= start + reset_all_seq(old(s).fg@, old(s).bg@));
    }
}

} // verus!
