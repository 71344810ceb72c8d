//! Modifying the look of the text.
//!
//! Styles do not stack: enabling one twice and disabling it once leaves it
//! off. Bold and faint share a single reset code on real terminals, so
//! disabling either one disables both (see [`de::weight`]).
use vstd::prelude::*;

pub mod de;
pub mod with;

use crate::screen::{csi, Screen, Style};

verus! {

/// One of the text styles.
#[derive(Clone, Copy, Debug, PartialEq, Eq, Structural)]
pub enum Attr {
    Bold,
    Faint,
    Italic,
    Underline,
    Strike,
}

/// The parameters that switch `a` on.
pub open spec fn on_code(a: Attr) -> Seq<char> {
    match a {
        Attr::Bold => seq!['1', 'm'],
        Attr::Faint => seq!['2', 'm'],
        Attr::Italic => seq!['3', 'm'],
        Attr::Underline => seq!['4', 'm'],
        Attr::Strike => seq!['9', 'm'],
    }
}

/// The parameters that switch `a` off; bold and faint share theirs.
pub open spec fn off_code(a: Attr) -> Seq<char> {
    match a {
        Attr::Bold | Attr::Faint => seq!['2', '2', 'm'],
        Attr::Italic => seq!['2', '3', 'm'],
        Attr::Underline => seq!['2', '4', 'm'],
        Attr::Strike => seq!['2', '9', 'm'],
    }
}

/// `st` with `a` set to `on`.
pub open spec fn set_attr(st: Style, a: Attr, on: bool) -> Style {
    match a {
        Attr::Bold => Style { bold: on, ..st },
        Attr::Faint => Style { faint: on, ..st },
        Attr::Italic => Style { italic: on, ..st },
        Attr::Underline => Style { underline: on, ..st },
        Attr::Strike => Style { strike: on, ..st },
    }
}

/// `st` after `a` is disabled: disabling bold or faint clears the weight,
/// that is both of them.
pub open spec fn cleared(st: Style, a: Attr) -> Style {
    match a {
        Attr::Bold | Attr::Faint => Style { bold: false, faint: false, ..st },
        _ => set_attr(st, a, false),
    }
}

/// `after` is `before` with its styles now `st` and `text` emitted.
pub open spec fn restyled(before: &Screen, after: &Screen, st: Style, text: Seq<char>) -> bool {
    &&& after.out@ == before.out@ + text
    &&& after.fg@ == before.fg@
    &&& after.bg@ == before.bg@
    &&& after.style == st
}

/// The code that switches `a` on.
fn on_str(a: Attr) -> (r: &'static str)
    ensures
        r@ == on_code(a),
{
    proof {
        reveal_strlit("1m");
        reveal_strlit("2m");
        reveal_strlit("3m");
        reveal_strlit("4m");
        reveal_strlit("9m");
    }
    match a {
        Attr::Bold => {
            assert("1m"@ =~= on_code(a));
            "1m"
        },
        Attr::Faint => {
            assert("2m"@ =~= on_code(a));
            "2m"
        },
        Attr::Italic => {
            assert("3m"@ =~= on_code(a));
            "3m"
        },
        Attr::Underline => {
            assert("4m"@ =~= on_code(a));
            "4m"
        },
        Attr::Strike => {
            assert("9m"@ =~= on_code(a));
            "9m"
        },
    }
}

/// The code that switches `a` off.
pub(crate) fn off_str(a: Attr) -> (r: &'static str)
    ensures
        r@ == off_code(a),
{
    proof {
        reveal_strlit("22m");
        reveal_strlit("23m");
        reveal_strlit("24m");
        reveal_strlit("29m");
    }
    match a {
        Attr::Bold | Attr::Faint => {
            assert("22m"@ =~= off_code(a));
            "22m"
        },
        Attr::Italic => {
            assert("23m"@ =~= off_code(a));
            "23m"
        },
        Attr::Underline => {
            assert("24m"@ =~= off_code(a));
            "24m"
        },
        Attr::Strike => {
            assert("29m"@ =~= off_code(a));
            "29m"
        },
    }
}

/// Enable a style. Enabling one that is already on changes nothing but
/// the output.
pub fn enable(s: &mut Screen, a: Attr)
    ensures
        restyled(old(s), final(s), set_attr(old(s).style, a, true), csi(on_code(a))),
{
    s.emit(on_str(a));
    match a {
        Attr::Bold => s.style.bold = true,
        Attr::Faint => s.style.faint = true,
        Attr::Italic => s.style.italic = true,
        Attr::Underline => s.style.underline = true,
        Attr::Strike => s.style.strike = true,
    }
}

} // verus!
