//! Color your text for the span of a function.
//!
//! Each of these pushes a color, hands the screen to the function, and
//! afterwards puts the channel's stack back exactly as it was, whatever the
//! function returned (an error included) and whatever it pushed or popped.
//!
//! If `f` panics, the screen does not come back: while `f` runs it owns
//! the screen, and the caller's `&mut Screen` holds a fresh, empty one in
//! its place. After unwinding, that empty screen is what the caller has,
//! with the output, stacks and styles from before the call gone.
use vstd::prelude::*;

use crate::color::{color_seq, restacked, show_seq, with_color};
use crate::screen::{Color, Screen};

verus! {

/// Set the foreground color, then run the function, then reset it.
pub fn fg<R, F: FnOnce(Screen) -> (Screen, R)>(s: &mut Screen, color: u8, f: F) -> (r: R)
    requires
        forall|t: Screen| call_requires(f, (t,)),
    ensures
        final(s).fg@ == old(s).fg@,
        exists|t: Screen, m: Screen|
            #![trigger call_ensures(f, (t,), (m, r))]
            call_ensures(f, (t,), (m, r)) && restacked(
                old(s),
                &t,
                true,
                old(s).fg@.push(Color::Indexed(color)),
                color_seq(true, Color::Indexed(color)),
            ) && restacked(&m, final(s), true, old(s).fg@, show_seq(true, old(s).fg@)),
{
    with_color(s, true, Color::Indexed(color), f)
}

/// Set the background color, then run the function, then reset it.
pub fn bg<R, F: FnOnce(Screen) -> (Screen, R)>(s: &mut Screen, color: u8, f: F) -> (r: R)
    requires
        forall|t: Screen| call_requires(f, (t,)),
    ensures
        final(s).bg@ == old(s).bg@,
        exists|t: Screen, m: Screen|
            #![trigger call_ensures(f, (t,), (m, r))]
            call_ensures(f, (t,), (m, r)) && restacked(
                old(s),
                &t,
                false,
                old(s).bg@.push(Color::Indexed(color)),
                color_seq(false, Color::Indexed(color)),
            ) && restacked(&m, final(s), false, old(s).bg@, show_seq(false, old(s).bg@)),
{
    with_color(s, false, Color::Indexed(color), f)
}

/// Set the foreground color (using true-color), then run the function,
/// then reset it.
pub fn tc_fg<R, F: FnOnce(Screen) -> (Screen, R)>(
    s: &mut Screen,
    r: u8,
    g: u8,
    b: u8,
    f: F,
) -> (res: R)
    requires
        forall|t: Screen| call_requires(f, (t,)),
    ensures
        final(s).fg@ == old(s).fg@,
        exists|t: Screen, m: Screen|
            #![trigger call_ensures(f, (t,), (m, res))]
            call_ensures(f, (t,), (m, res)) && restacked(
                old(s),
                &t,
                true,
                old(s).fg@.push(Color::TrueColor(r, g, b)),
                color_seq(true, Color::TrueColor(r, g, b)),
            ) && restacked(&m, final(s), true, old(s).fg@, show_seq(true, old(s).fg@)),
{
    with_color(s, true, Color::TrueColor(r, g, b), f)
}

/// Set the background color (using true-color), then run the function,
/// then reset it.
pub fn tc_bg<R, F: FnOnce(Screen) -> (Screen, R)>(
    s: &mut Screen,
    r: u8,
    g: u8,
    b: u8,
    f: F,
) -> (res: R)
    requires
        forall|t: Screen| call_requires(f, (t,)),
    ensures
        final(s).bg@ == old(s).bg@,
        exists|t: Screen, m: Screen|
            #![trigger call_ensures(f, (t,), (m, res))]
            call_ensures(f, (t,), (m, res)) && restacked(
                old(s),
                &t,
                false,
                old(s).bg@.push(Color::TrueColor(r, g, b)),
                color_seq(false, Color::TrueColor(r, g, b)),
            ) && restacked(&m, final(s), false, old(s).bg@, show_seq(false, old(s).bg@)),
{
    with_color(s, false, Color::TrueColor(r, g, b), f)
}

} // verus!
