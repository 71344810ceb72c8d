//! Reset styling.
use vstd::prelude::*;

use crate::screen::{csi, Screen, Style};
use crate::style::{cleared, off_code, off_str, restyled, Attr};

verus! {

/// Disable a style. Bold and faint both emit the shared weight reset, which
/// disables both of them.
pub fn disable(s: &mut Screen, a: Attr)
    ensures
        restyled(old(s), final(s), cleared(old(s).style, a), csi(off_code(a))),
{
    s.emit(off_str(a));
    match a {
        Attr::Bold | Attr::Faint => {
            s.style.bold = false;
            s.style.faint = false;
        },
        Attr::Italic => s.style.italic = false,
        Attr::Underline => s.style.underline = false,
        Attr::Strike => s.style.strike = false,
    }
}

/// Disables both bold and faint styling.
///
/// No standard code resets only one of them.
pub fn weight(s: &mut Screen)
    ensures
        restyled(
            old(s),
            final(s),
            Style { bold: false, faint: false, ..old(s).style },
            csi(seq!['2', '2', 'm']),
        ),
{
    disable(s, Attr::Bold);
}

/// Disable all style attributes: italic, underline and strike, then the
/// weight.
pub fn all(s: &mut Screen)
    ensures
        restyled(
            old(s),
            final(s),
            Style::plain(),
            csi(seq!['2', '3', 'm']) + csi(seq!['2', '4', 'm']) + csi(seq!['2', '9', 'm']) + csi(
                seq!['2', '2', 'm'],
            ),
        ),
{
    let ghost start = s.out@;
    disable(s, Attr::Italic);
    disable(s, Attr::Underline);
    disable(s, Attr::Strike);
    weight(s);
    assert(s.out@ =~= start + (csi(seq!['2', '3', 'm']) + csi(seq!['2', '4', 'm']) + csi(
        seq!['2', '9', 'm'],
    ) + csi(seq!['2', '2', 'm'])));
}

} // verus!
