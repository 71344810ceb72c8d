//! Moving the cursor.
use vstd::prelude::*;

use crate::screen::{appends, csi, decimal, push_decimal, Screen, ESC};

verus! {

/// The sequence that moves the cursor `n` cells in the direction that
/// `dir` names (`A` up, `B` down, `C` right, `D` left); nothing for zero.
pub open spec fn step_seq(n: nat, dir: char) -> Seq<char> {
    if n == 0 {
        Seq::empty()
    } else {
        csi(decimal(n) + seq![dir])
    }
}

/// The sequence that puts the cursor at column `x`, row `y` (both from zero).
pub open spec fn pos_seq(x: nat, y: nat) -> Seq<char> {
    csi(decimal(y + 1) + seq![';'] + decimal(x + 1) + seq!['H'])
}

/// The row that [`bot`] moves to, far below any real screen's last row.
pub const BOTTOM_ROW: u32 = 9998;

fn step(s: &mut Screen, n: u32, dir: char)
    ensures
        appends(old(s), final(s), step_seq(n as nat, dir)),
{
    if n == 0 {
        assert(s.out@ =~= s.out@ + step_seq(0, dir));
        return;
    }
    let ghost start = s.out@;
    s.out.push(ESC);
    s.out.push('[');
    push_decimal(&mut s.out, n as u128);
    s.out.push(dir);
    assert(s.out@ =~= start + step_seq(n as nat, dir));
}

/// Move the cursor up.
pub fn up(s: &mut Screen, y: u32)
    ensures
        appends(old(s), final(s), step_seq(y as nat, 'A')),
{
    step(s, y, 'A');
}

/// Move the cursor down.
pub fn down(s: &mut Screen, y: u32)
    ensures
        appends(old(s), final(s), step_seq(y as nat, 'B')),
{
    step(s, y, 'B');
}

/// Move the cursor left.
pub fn left(s: &mut Screen, x: u32)
    ensures
        appends(old(s), final(s), step_seq(x as nat, 'D')),
{
    step(s, x, 'D');
}

/// Move the cursor right.
pub fn right(s: &mut Screen, x: u32)
    ensures
        appends(old(s), final(s), step_seq(x as nat, 'C')),
{
    step(s, x, 'C');
}

/// Set cursor to a specific position.
pub fn pos(s: &mut Screen, x: u32, y: u32)
    ensures
        appends(old(s), final(s), pos_seq(x as nat, y as nat)),
{
    let ghost start = s.out@;
    s.out.push(ESC);
    s.out.push('[');
    push_decimal(&mut s.out, y as u128 + 1);
    s.out.push(';');
    push_decimal(&mut s.out, x as u128 + 1);
    s.out.push('H');
    assert(s.out@ =~= start + pos_seq(x as nat, y as nat));
}

/// Move the cursor to the top left of screen.
pub fn home(s: &mut Screen)
    ensures
        appends(old(s), final(s), pos_seq(0, 0)),
{
    pos(s, 0, 0);
}

/// Move the cursor to the bottom left of the screen.
pub fn bot(s: &mut Screen)
    ensures
        appends(old(s), final(s), pos_seq(0, BOTTOM_ROW as nat)),
{
    pos(s, 0, BOTTOM_ROW);
}

/// Move the cursor to the start of the line.
pub fn start(s: &mut Screen)
    ensures
        appends(old(s), final(s), csi("G"@)),
{
    s.emit("G");
}

} // verus!
