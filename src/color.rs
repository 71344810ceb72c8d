//! Setting and resetting color.
//!
//! Each of the two channels, foreground and background, has a stack of
//! colors. Setting a color pushes it and emits it; popping emits the color
//! below it, or resets the channel to the terminal's default when none is
//! left. So nested uses restore the outer color, not the default.
use vstd::prelude::*;

pub mod bg;
pub mod de;
pub mod fg;
pub mod with;

pub use bg::pop as pop_bg;
pub use fg::pop as pop_fg;
pub use self::bg as push_bg;
pub use self::fg as push_fg;
pub use self::tc_bg as push_tc_bg;
pub use self::tc_fg as push_tc_fg;

use crate::screen::{csi, decimal, push_decimal, Color, Screen, ESC};

verus! {

/// The parameters that select the color `c` for the foreground (`fore`) or
/// the background.
pub open spec fn color_code(fore: bool, c: Color) -> Seq<char> {
    let lead = if fore {
        seq!['3', '8']
    } else {
        seq!['4', '8']
    };
    match c {
        Color::Indexed(n) => lead + seq![';', '5', ';'] + decimal(n as nat) + seq!['m'],
        Color::TrueColor(r, g, b) => lead + seq![';', '2', ';'] + decimal(r as nat) + seq![';']
            + decimal(g as nat) + seq![';'] + decimal(b as nat) + seq!['m'],
    }
}

/// The sequence that sets the color `c`.
pub open spec fn color_seq(fore: bool, c: Color) -> Seq<char> {
    csi(color_code(fore, c))
}

/// The sequence that resets a channel to the terminal's default.
pub open spec fn reset_seq(fore: bool) -> Seq<char> {
    if fore {
        csi(seq!['3', '9', 'm'])
    } else {
        csi(seq!['4', '9', 'm'])
    }
}

/// The sequence that displays the top of `stack`: its last color, or the
/// default when it is empty.
pub open spec fn show_seq(fore: bool, stack: Seq<Color>) -> Seq<char> {
    if stack.len() == 0 {
        reset_seq(fore)
    } else {
        color_seq(fore, stack.last())
    }
}

/// A stack after one pop: its last color removed; an empty stack stays
/// empty.
pub open spec fn popped(stack: Seq<Color>) -> Seq<Color> {
    if stack.len() == 0 {
        stack
    } else {
        stack.drop_last()
    }
}

/// The color stack of one channel.
pub open spec fn stack_of(s: &Screen, fore: bool) -> Seq<Color> {
    if fore {
        s.fg@
    } else {
        s.bg@
    }
}

/// `after` differs from `before` only in the stack of one channel, which is
/// now `stack`, and in the output, which has grown by `text`.
pub open spec fn restacked(
    before: &Screen,
    after: &Screen,
    fore: bool,
    stack: Seq<Color>,
    text: Seq<char>,
) -> bool {
    &&& after.out@ == before.out@ + text
    &&& stack_of(after, fore) == stack
    &&& stack_of(after, !fore) == stack_of(before, !fore)
    &&& after.style == before.style
}

/// Pushing a color and then popping it puts the stack back as it was and
/// shows again what was on display before: the color below, or the
/// default.
pub proof fn push_then_pop_restores(stack: Seq<Color>, fore: bool, c: Color)
    ensures
        popped(stack.push(c)) == stack,
        show_seq(fore, popped(stack.push(c))) == show_seq(fore, stack),
{
    assert(stack.push(c).drop_last() =~= stack);
}

/// Popping an empty stack leaves it empty and shows the default again,
/// however often it is done.
pub proof fn pop_of_empty_is_reset(fore: bool)
    ensures
        popped(Seq::<Color>::empty()) == Seq::<Color>::empty(),
        show_seq(fore, popped(Seq::<Color>::empty())) == reset_seq(fore),
{
}

/// Emits the sequence that sets `c`, without touching the stacks.
fn show(s: &mut Screen, fore: bool, c: Color)
    ensures
        crate::screen::appends(old(s), final(s), color_seq(fore, c)),
{
    let ghost start = s.out@;
    s.out.push(ESC);
    s.out.push('[');
    if fore {
        s.out.push('3');
    } else {
        s.out.push('4');
    }
    s.out.push('8');
    s.out.push(';');
    match c {
        Color::Indexed(n) => {
            s.out.push('5');
            s.out.push(';');
            push_decimal(&mut s.out, n as u128);
        },
        Color::TrueColor(r, g, b) => {
            s.out.push('2');
            s.out.push(';');
            push_decimal(&mut s.out, r as u128);
            s.out.push(';');
            push_decimal(&mut s.out, g as u128);
            s.out.push(';');
            push_decimal(&mut s.out, b as u128);
        },
    }
    s.out.push('m');
    assert(s.out@ =~= start + color_seq(fore, c));
}

/// Emits the sequence that displays the top of the channel's stack.
pub(crate) fn show_top(s: &mut Screen, fore: bool)
    ensures
        crate::screen::appends(old(s), final(s), show_seq(fore, stack_of(old(s), fore))),
{
    let n = if fore {
        s.fg.len()
    } else {
        s.bg.len()
    };
    if n > 0 {
        let c = if fore {
            s.fg[n - 1]
        } else {
            s.bg[n - 1]
        };
        show(s, fore, c);
    } else if fore {
        s.emit("39m");
        proof {
            reveal_strlit("39m");
            assert("39m"@ =~= seq!['3', '9', 'm']);
        }
    } else {
        s.emit("49m");
        proof {
            reveal_strlit("49m");
            assert("49m"@ =~= seq!['4', '9', 'm']);
        }
    }
}

/// Pushes `c` onto the channel's stack and emits it.
pub(crate) fn push_color(s: &mut Screen, fore: bool, c: Color)
    ensures
        restacked(old(s), final(s), fore, stack_of(old(s), fore).push(c), color_seq(fore, c)),
{
    show(s, fore, c);
    if fore {
        s.fg.push(c);
    } else {
        s.bg.push(c);
    }
}

/// Pops the channel's stack and emits what is then on top.
pub(crate) fn pop_color(s: &mut Screen, fore: bool)
    ensures
        restacked(
            old(s),
            final(s),
            fore,
            popped(stack_of(old(s), fore)),
            show_seq(fore, popped(stack_of(old(s), fore))),
        ),
{
    if fore {
        s.fg.pop();
    } else {
        s.bg.pop();
    }
    show_top(s, fore);
}

/// A copy of a color stack.
fn copy_stack(v: &Vec<Color>) -> (r: Vec<Color>)
    ensures
        r@ == v@,
{
    let mut r: Vec<Color> = Vec::new();
    let mut i: usize = 0;
    while i < v.len()
        invariant
            i <= v@.len(),
            r@ == v@.take(i as int),
        decreases v@.len() - i,
    {
        r.push(v[i]);
        i += 1;
        assert(r@ =~= v@.take(i as int));
    }
    assert(v@.take(v@.len() as int) =~= v@);
    r
}

/// Pushes `c` on the channel, hands the screen to `f`, and then, whatever
/// `f` returned and whatever it did to that channel, puts the channel's
/// stack back as it was before and emits its top.
pub(crate) fn with_color<R, F: FnOnce(Screen) -> (Screen, R)>(
    s: &mut Screen,
    fore: bool,
    c: Color,
    f: F,
) -> (r: R)
    requires
        forall|t: Screen| call_requires(f, (t,)),
    ensures
        stack_of(final(s), fore) == stack_of(old(s), fore),
        exists|t: Screen, m: Screen|
            #![trigger call_ensures(f, (t,), (m, r))]
            call_ensures(f, (t,), (m, r)) && restacked(
                old(s),
                &t,
                fore,
                stack_of(old(s), fore).push(c),
                color_seq(fore, c),
            ) && restacked(
                &m,
                final(s),
                fore,
                stack_of(old(s), fore),
                show_seq(fore, stack_of(old(s), fore)),
            ),
{
    let saved = if fore {
        copy_stack(&s.fg)
    } else {
        copy_stack(&s.bg)
    };
    push_color(s, fore, c);
    let mut given = Screen::new();
    std::mem::swap(s, &mut given);
    let ghost t = given;
    let (back, r) = f(given);
    let ghost m = back;
    *s = back;
    if fore {
        s.fg = saved;
    } else {
        s.bg = saved;
    }
    show_top(s, fore);
    assert(call_ensures(f, (t,), (m, r)));
    r
}

/// Set the foreground color.
pub fn fg(s: &mut Screen, color: u8)
    ensures
        restacked(
            old(s),
            final(s),
            true,
            old(s).fg@.push(Color::Indexed(color)),
            color_seq(true, Color::Indexed(color)),
        ),
{
    push_color(s, true, Color::Indexed(color));
}

/// Set the background color.
pub fn bg(s: &mut Screen, color: u8)
    ensures
        restacked(
            old(s),
            final(s),
            false,
            old(s).bg@.push(Color::Indexed(color)),
            color_seq(false, Color::Indexed(color)),
        ),
{
    push_color(s, false, Color::Indexed(color));
}

/// Set the foreground color, using true-color.
pub fn tc_fg(s: &mut Screen, r: u8, g: u8, b: u8)
    ensures
        restacked(
            old(s),
            final(s),
            true,
            old(s).fg@.push(Color::TrueColor(r, g, b)),
            color_seq(true, Color::TrueColor(r, g, b)),
        ),
{
    push_color(s, true, Color::TrueColor(r, g, b));
}

/// Set the background color, using true-color.
pub fn tc_bg(s: &mut Screen, r: u8, g: u8, b: u8)
    ensures
        restacked(
            old(s),
            final(s),
            false,
            old(s).bg@.push(Color::TrueColor(r, g, b)),
            color_seq(false, Color::TrueColor(r, g, b)),
        ),
{
    push_color(s, false, Color::TrueColor(r, g, b));
}

} // verus!
