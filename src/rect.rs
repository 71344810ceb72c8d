//! Drawing rectangles and boxes.
use vstd::prelude::*;

use crate::screen::{appends, Screen};
use crate::{cell, cells, orth_line, orth_points, pixel, NonOrthogonal};

verus! {

/// The characters of a box drawn with [`ascii`].
#[derive(Clone, Copy, Debug, PartialEq, Eq, Structural)]
enum BoxDrawingChar {
    Horizontal,
    Vertical,
    TopLeftCorner,
    TopRightCorner,
    BottomLeftCorner,
    BottomRightCorner,
}

/// The glyph of a horizontal edge (double line).
pub open spec fn horizontal_glyph() -> char {
    '\u{2550}'
}

/// The glyph of a vertical edge (double line).
pub open spec fn vertical_glyph() -> char {
    '\u{2551}'
}

/// The four corner glyphs: top left, top right, bottom left, bottom right.
pub open spec fn corner_glyphs() -> (char, char, char, char) {
    ('\u{2554}', '\u{2557}', '\u{255A}', '\u{255D}')
}

impl BoxDrawingChar {
    /// The character that draws this part of a box.
    fn glyph(self) -> (r: char)
        ensures
            self == BoxDrawingChar::Horizontal ==> r == horizontal_glyph(),
            self == BoxDrawingChar::Vertical ==> r == vertical_glyph(),
            self == BoxDrawingChar::TopLeftCorner ==> r == corner_glyphs().0,
            self == BoxDrawingChar::TopRightCorner ==> r == corner_glyphs().1,
            self == BoxDrawingChar::BottomLeftCorner ==> r == corner_glyphs().2,
            self == BoxDrawingChar::BottomRightCorner ==> r == corner_glyphs().3,
    {
        match self {
            BoxDrawingChar::Horizontal => '\u{2550}',
            BoxDrawingChar::Vertical => '\u{2551}',
            BoxDrawingChar::TopLeftCorner => '\u{2554}',
            BoxDrawingChar::TopRightCorner => '\u{2557}',
            BoxDrawingChar::BottomLeftCorner => '\u{255A}',
            BoxDrawingChar::BottomRightCorner => '\u{255D}',
        }
    }
}

/// Characters to use when calling [`with`].
///
/// Note that `corner` will be used on all four corners.
#[derive(Clone, Copy, Debug, PartialEq, Eq, Structural)]
pub struct Chars {
    /// Horizontal lines.
    pub horizontal: char,
    /// Vertical lines.
    pub vertical: char,
    /// Corner pixels.
    pub corner: char,
}

/// The segment from `(x1, y1)` to `(x2, y2)` drawn with `c`, as
/// [`orth_line`] draws it.
pub open spec fn seg(c: char, x1: u32, y1: u32, x2: u32, y2: u32) -> Seq<char> {
    cells(c, orth_points(x1, y1, x2, y2))
}

/// What [`line`] emits: the left, top, bottom and right edges, in that
/// order.
pub open spec fn outline_seq(c: char, x1: u32, y1: u32, x2: u32, y2: u32) -> Seq<char> {
    seg(c, x1, y1, x1, y2) + seg(c, x1, y1, x2, y1) + seg(c, x2, y2, x1, y2) + seg(
        c,
        x2,
        y2,
        x2,
        y1,
    )
}

/// What [`with`] emits: top, bottom, left and right edges, then the four
/// corners.
pub open spec fn framed_seq(ch: Chars, x1: u32, y1: u32, x2: u32, y2: u32) -> Seq<char> {
    seg(ch.horizontal, x1, y1, x2, y1) + seg(ch.horizontal, x1, y2, x2, y2) + seg(
        ch.vertical,
        x1,
        y1,
        x1,
        y2,
    ) + seg(ch.vertical, x2, y1, x2, y2) + cell(ch.corner, x1 as nat, y1 as nat) + cell(
        ch.corner,
        x1 as nat,
        y2 as nat,
    ) + cell(ch.corner, x2 as nat, y1 as nat) + cell(ch.corner, x2 as nat, y2 as nat)
}

/// What [`ascii`] emits: the edges between the corners, then the corners.
pub open spec fn ascii_seq(x1: u32, y1: u32, x2: u32, y2: u32) -> Seq<char>
    recommends
        x1 < u32::MAX,
        y1 < u32::MAX,
        x2 > 0,
        y2 > 0,
{
    let h = horizontal_glyph();
    let v = vertical_glyph();
    let (tl, tr, bl, br) = corner_glyphs();
    seg(h, (x1 + 1) as u32, y1, (x2 - 1) as u32, y1) + seg(h, (x1 + 1) as u32, y2, (x2 - 1) as u32, y2)
        + seg(v, x1, (y1 + 1) as u32, x1, (y2 - 1) as u32) + seg(
        v,
        x2,
        (y1 + 1) as u32,
        x2,
        (y2 - 1) as u32,
    ) + cell(tl, x1 as nat, y1 as nat) + cell(tr, x2 as nat, y1 as nat) + cell(
        bl,
        x1 as nat,
        y2 as nat,
    ) + cell(br, x2 as nat, y2 as nat)
}

/// What [`fill`] emits for `n` rows from `y1`: one horizontal line from
/// `x1` to `x2` per row, top row first.
pub open spec fn fill_seq(c: char, x1: u32, x2: u32, y1: u32, n: nat) -> Seq<char>
    decreases n,
{
    if n == 0 {
        Seq::empty()
    } else {
        let y = (y1 + n - 1) as u32;
        fill_seq(c, x1, x2, y1, (n - 1) as nat) + seg(c, x1, y, x2, y)
    }
}

/// Draw a rectangle onto the screen using just the given character.
///
/// Every edge is horizontal or vertical, so this always succeeds; the
/// result is kept for callers that treat it as [`orth_line`]'s.
pub fn line(s: &mut Screen, c: char, x1: u32, y1: u32, x2: u32, y2: u32) -> (r: Result<
    (),
    NonOrthogonal,
>)
    ensures
        r is Ok,
        appends(old(s), final(s), outline_seq(c, x1, y1, x2, y2)),
{
    let ghost start = s.out@;
    orth_line(s, c, x1, y1, x1, y2)?;
    orth_line(s, c, x1, y1, x2, y1)?;
    orth_line(s, c, x2, y2, x1, y2)?;
    orth_line(s, c, x2, y2, x2, y1)?;
    assert(s.out@ =~= start + outline_seq(c, x1, y1, x2, y2));
    Ok(())
}

/// Draw a rectangle using a given set of characters, via [`Chars`].
///
/// Always succeeds, as [`line`] does.
pub fn with(s: &mut Screen, chars: Chars, x1: u32, y1: u32, x2: u32, y2: u32) -> (r: Result<
    (),
    NonOrthogonal,
>)
    ensures
        r is Ok,
        appends(old(s), final(s), framed_seq(chars, x1, y1, x2, y2)),
{
    let ghost start = s.out@;
    orth_line(s, chars.horizontal, x1, y1, x2, y1)?;
    orth_line(s, chars.horizontal, x1, y2, x2, y2)?;
    orth_line(s, chars.vertical, x1, y1, x1, y2)?;
    orth_line(s, chars.vertical, x2, y1, x2, y2)?;
    pixel(s, chars.corner, x1, y1);
    pixel(s, chars.corner, x1, y2);
    pixel(s, chars.corner, x2, y1);
    pixel(s, chars.corner, x2, y2);
    assert(s.out@ =~= start + framed_seq(chars, x1, y1, x2, y2));
    Ok(())
}

/// Draw a box using box-drawing characters (double lines).
///
/// The corners must leave room for the edges between them: `x1` and `y1`
/// below the largest coordinate, `x2` and `y2` above zero.
pub fn ascii(s: &mut Screen, x1: u32, y1: u32, x2: u32, y2: u32) -> (r: Result<
    (),
    NonOrthogonal,
>)
    requires
        x1 < u32::MAX,
        y1 < u32::MAX,
        x2 > 0,
        y2 > 0,
    ensures
        r is Ok,
        appends(old(s), final(s), ascii_seq(x1, y1, x2, y2)),
{
    let ghost start = s.out@;
    let h = BoxDrawingChar::Horizontal.glyph();
    let v = BoxDrawingChar::Vertical.glyph();
    orth_line(s, h, x1 + 1, y1, x2 - 1, y1)?;
    orth_line(s, h, x1 + 1, y2, x2 - 1, y2)?;
    orth_line(s, v, x1, y1 + 1, x1, y2 - 1)?;
    orth_line(s, v, x2, y1 + 1, x2, y2 - 1)?;
    pixel(s, BoxDrawingChar::TopLeftCorner.glyph(), x1, y1);
    pixel(s, BoxDrawingChar::TopRightCorner.glyph(), x2, y1);
    pixel(s, BoxDrawingChar::BottomLeftCorner.glyph(), x1, y2);
    pixel(s, BoxDrawingChar::BottomRightCorner.glyph(), x2, y2);
    assert(s.out@ =~= start + ascii_seq(x1, y1, x2, y2));
    Ok(())
}

/// Draw a filled rectangle onto the screen: one horizontal line from `x1`
/// to `x2` on every row from `y1` up to, but not including, `y2`. Nothing is
/// drawn when `y2` is not above `y1`.
pub fn fill(s: &mut Screen, c: char, x1: u32, y1: u32, x2: u32, y2: u32) -> (r: Result<
    (),
    NonOrthogonal,
>)
    ensures
        r is Ok,
        appends(
            old(s),
            final(s),
            fill_seq(c, x1, x2, y1, if y1 < y2 { (y2 - y1) as nat } else { 0 }),
        ),
{
    let mut y = y1;
    while y < y2
        invariant
            y1 <= y,
            y1 < y2 ==> y <= y2,
            y1 >= y2 ==> y == y1,
            appends(old(s), s, fill_seq(c, x1, x2, y1, (y - y1) as nat)),
        decreases y2 - y,
    {
        orth_line(s, c, x1, y, x2, y)?;
        assert(s.out@ =~= old(s).out@ + fill_seq(c, x1, x2, y1, (y + 1 - y1) as nat));
        y += 1;
    }
    Ok(())
}

} // verus!
