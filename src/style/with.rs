//! Style your text for the span of a function.
//!
//! The function hands the screen back with its result; the style is
//! disabled whatever that result is.
//!
//! If `f` panics, the screen does not come back: while `f` runs it owns
//! the screen, and the caller's `&mut Screen` holds a fresh, empty one in
//! its place. After unwinding, that empty screen is what the caller has,
//! with the output, stacks and styles from before the call gone.
use vstd::prelude::*;

use crate::screen::{csi, Screen};
use crate::style::{cleared, off_code, on_code, restyled, set_attr, Attr};

verus! {

/// Enable the style, then run the function, then disable it again, whatever
/// the function returned. Styles do not stack: an inner use on the same
/// style (or, for bold and faint, on the weight) turns it off for the rest
/// of an outer one.
pub fn attr<R, F: FnOnce(Screen) -> (Screen, R)>(s: &mut Screen, a: Attr, f: F) -> (r: R)
    requires
        forall|t: Screen| call_requires(f, (t,)),
    ensures
        exists|t: Screen, m: Screen|
            #![trigger call_ensures(f, (t,), (m, r))]
            call_ensures(f, (t,), (m, r)) && restyled(
                old(s),
                &t,
                set_attr(old(s).style, a, true),
                csi(on_code(a)),
            ) && restyled(&m, final(s), cleared(m.style, a), csi(off_code(a))),
{
    crate::style::enable(s, a);
    let mut given = Screen::new();
    std::mem::swap(s, &mut given);
    let ghost t = given;
    let (back, r) = f(given);
    let ghost m = back;
    *s = back;
    crate::style::de::disable(s, a);
    assert(call_ensures(f, (t,), (m, r)));
    r
}

} // verus!
