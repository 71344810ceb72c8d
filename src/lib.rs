//! A small library for command-line drawing.
//!
//! Every operation appends ANSI escape sequences to the output buffer of a
//! [`Screen`], which also tracks the color stacks and the active text styles.
//! Writing the buffer to a terminal is left to the caller.
use vstd::prelude::*;

pub mod clear;
pub mod color;
pub mod goto;
pub mod guard;
pub mod line;
pub mod read;
pub mod rect;
pub mod screen;
pub mod style;
pub mod term;

pub use screen::{Color, Screen, Style};

use line::{line_points, span, Iter};
use goto::step_seq;
use screen::{appends, csi, decimal, push_decimal, ESC};

verus! {

/// The user attempted to draw a non-orthogonal line through an orthogonal
/// function, such as [`orth_line`].
#[derive(Clone, Copy, Debug, PartialEq, Eq, Structural)]
pub struct NonOrthogonal;

/// The sequence that draws `c` at column `x`, row `y` (both from zero).
pub open spec fn cell(c: char, x: nat, y: nat) -> Seq<char> {
    csi(decimal(y + 1) + seq![';'] + decimal(x + 1) + seq!['H', c])
}

/// The sequences that draw `c` at each of `pts`, in order.
pub open spec fn cells(c: char, pts: Seq<(u32, u32)>) -> Seq<char>
    decreases pts.len(),
{
    if pts.len() == 0 {
        Seq::empty()
    } else {
        cells(c, pts.drop_last()) + cell(c, pts.last().0 as nat, pts.last().1 as nat)
    }
}

/// Whether the segment is horizontal or vertical.
pub open spec fn is_orthogonal(x1: u32, y1: u32, x2: u32, y2: u32) -> bool {
    x1 == x2 || y1 == y2
}

/// The cells of an orthogonal segment, from its lower end to its higher end.
pub open spec fn orth_points(x1: u32, y1: u32, x2: u32, y2: u32) -> Seq<(u32, u32)> {
    if x1 == x2 {
        let lo = if y1 <= y2 { y1 } else { y2 };
        Seq::new(span(y1, y2) + 1, |i: int| (x1, (lo + i) as u32))
    } else {
        let lo = if x1 <= x2 { x1 } else { x2 };
        Seq::new(span(x1, x2) + 1, |i: int| ((lo + i) as u32, y1))
    }
}

/// The cells that [`line`] draws: the straight span for an orthogonal
/// segment, the rasterized line otherwise.
pub open spec fn drawn_points(x1: u32, y1: u32, x2: u32, y2: u32) -> Seq<(u32, u32)> {
    if is_orthogonal(x1, y1, x2, y2) {
        orth_points(x1, y1, x2, y2)
    } else {
        line_points(x1, y1, x2, y2)
    }
}

proof fn lemma_cells_step(c: char, pts: Seq<(u32, u32)>, i: int)
    requires
        0 <= i < pts.len(),
    ensures
        cells(c, pts.take(i + 1)) == cells(c, pts.take(i)) + cell(
            c,
            pts[i].0 as nat,
            pts[i].1 as nat,
        ),
{
    assert(pts.take(i + 1).drop_last() =~= pts.take(i));
}

/// How many line breaks `src` holds: the row, counted from the first, at
/// which its next character stands.
pub open spec fn row_of(src: Seq<char>) -> nat
    decreases src.len(),
{
    if src.len() == 0 {
        0
    } else if src.last() == '\n' {
        row_of(src.drop_last()) + 1
    } else {
        row_of(src.drop_last())
    }
}

/// How many characters `src` holds after its last line break: the column
/// at which its next character stands.
pub open spec fn column_of(src: Seq<char>) -> nat
    decreases src.len(),
{
    if src.len() == 0 {
        0
    } else if src.last() == '\n' {
        0
    } else {
        column_of(src.drop_last()) + 1
    }
}

/// What a blit emits for the character `ch` at `(x, y)`. Without a
/// `blank`, it draws `ch`. With one, a space only moves the cursor right,
/// `blank` draws a space, and any other character draws itself.
pub open spec fn blit_piece(ch: char, blank: Option<char>, x: nat, y: nat) -> Seq<char> {
    match blank {
        None => cell(ch, x, y),
        Some(b) => if ch == ' ' {
            step_seq(1, 'C')
        } else if ch == b {
            cell(' ', x, y)
        } else {
            cell(ch, x, y)
        },
    }
}

/// What a blit of `src` at `(x, y)` emits: each line of `src` goes to its
/// own row, starting at column `x`; the line breaks themselves emit nothing.
pub open spec fn blit_seq(src: Seq<char>, blank: Option<char>, x: nat, y: nat) -> Seq<char>
    decreases src.len(),
{
    if src.len() == 0 {
        Seq::empty()
    } else {
        let pre = src.drop_last();
        let ch = src.last();
        blit_seq(pre, blank, x, y) + if ch == '\n' {
            Seq::empty()
        } else {
            blit_piece(ch, blank, x + column_of(pre), y + row_of(pre))
        }
    }
}

/// Draws `c` at `(x, y)`, with coordinates wide enough for any offset.
fn put(s: &mut Screen, c: char, x: u128, y: u128)
    requires
        x < u128::MAX,
        y < u128::MAX,
    ensures
        appends(old(s), final(s), cell(c, x as nat, y as nat)),
{
    let ghost start = s.out@;
    s.out.push(ESC);
    s.out.push('[');
    push_decimal(&mut s.out, y + 1);
    s.out.push(';');
    push_decimal(&mut s.out, x + 1);
    s.out.push('H');
    s.out.push(c);
    assert(s.out@ =~= start + cell(c, x as nat, y as nat));
}

/// Disable all style and color attributes.
pub fn normal(s: &mut Screen)
    ensures
        appends(old(s), final(s), csi("0m"@)),
{
    s.emit("0m");
}

/// Draw a single character onto the screen.
pub fn pixel(s: &mut Screen, c: char, x: u32, y: u32)
    ensures
        appends(old(s), final(s), cell(c, x as nat, y as nat)),
{
    put(s, c, x as u128, y as u128);
}

/// Draw an orthogonal line to the screen, from its lower end to its higher
/// end.
///
/// Fails, drawing nothing, if the line is neither horizontal nor vertical.
pub fn orth_line(s: &mut Screen, c: char, x1: u32, y1: u32, x2: u32, y2: u32) -> (r: Result<
    (),
    NonOrthogonal,
>)
    ensures
        r is Ok <==> is_orthogonal(x1, y1, x2, y2),
        r is Ok ==> appends(old(s), final(s), cells(c, orth_points(x1, y1, x2, y2))),
        r is Err ==> *final(s) == *old(s),
{
    if x1 != x2 && y1 != y2 {
        return Err(NonOrthogonal);
    }
    let ghost pts = orth_points(x1, y1, x2, y2);
    let (lo, hi) = if x1 == x2 {
        if y1 <= y2 {
            (y1, y2)
        } else {
            (y2, y1)
        }
    } else {
        if x1 <= x2 {
            (x1, x2)
        } else {
            (x2, x1)
        }
    };
    let n: u64 = (hi - lo) as u64 + 1;
    assert(n == pts.len());
    let mut i: u64 = 0;
    while i < n
        invariant
            n == pts.len(),
            pts == orth_points(x1, y1, x2, y2),
            lo as int + n - 1 == hi,
            x1 == x2 ==> lo == (if y1 <= y2 { y1 } else { y2 }),
            x1 != x2 ==> lo == (if x1 <= x2 { x1 } else { x2 }),
            i <= n,
            appends(old(s), s, cells(c, pts.take(i as int))),
        decreases n - i,
    {
        let v = (lo as u64 + i) as u32;
        assert(x1 == x2 ==> pts[i as int] == (x1, v));
        assert(x1 != x2 ==> pts[i as int] == (v, y1));
        if x1 == x2 {
            pixel(s, c, x1, v);
        } else {
            pixel(s, c, v, y1);
        }
        proof {
            lemma_cells_step(c, pts, i as int);
            assert(s.out@ =~= old(s).out@ + cells(c, pts.take(i + 1)));
        }
        i += 1;
    }
    assert(pts.take(n as int) =~= pts);
    Ok(())
}

/// Draw a line onto the screen.
///
/// An orthogonal line is drawn as [`orth_line`] draws it; any other is
/// rasterized from `(x1, y1)` to `(x2, y2)`.
pub fn line(s: &mut Screen, c: char, x1: u32, y1: u32, x2: u32, y2: u32)
    ensures
        appends(old(s), final(s), cells(c, drawn_points(x1, y1, x2, y2))),
{
    if x1 == x2 || y1 == y2 {
        let _ = orth_line(s, c, x1, y1, x2, y2);
        return;
    }
    let ghost pts = line_points(x1, y1, x2, y2);
    let mut it = Iter::new(x1, y1, x2, y2);
    let mut done = false;
    while !done
        invariant
            it.wf(),
            it.points() == pts,
            it.pos() <= pts.len(),
            done ==> it.pos() == pts.len(),
            appends(old(s), s, cells(c, pts.take(it.pos() as int))),
        decreases pts.len() - it.pos() + (if done { 0int } else { 1int }),
    {
        let ghost k = it.pos() as int;
        match it.next() {
            Some(p) => {
                pixel(s, c, p.0, p.1);
                proof {
                    lemma_cells_step(c, pts, k);
                    assert(s.out@ =~= old(s).out@ + cells(c, pts.take(k + 1)));
                }
            },
            None => {
                done = true;
            },
        }
    }
    assert(pts.take(pts.len() as int) =~= pts);
}

/// On an orthogonal segment, [`line`] emits exactly what [`orth_line`]
/// emits: the same cells in the same order.
pub proof fn line_agrees_with_orth_line(c: char, x1: u32, y1: u32, x2: u32, y2: u32)
    requires
        is_orthogonal(x1, y1, x2, y2),
    ensures
        cells(c, drawn_points(x1, y1, x2, y2)) == cells(c, orth_points(x1, y1, x2, y2)),
{
}

/// Draws every character of `src` but the line breaks, each line on its
/// own row from column `x`; with a `blank`, as [`blit_transparent`] does.
fn blit_with(s: &mut Screen, src: &str, blank: Option<char>, x: u32, y: u32)
    ensures
        appends(old(s), final(s), blit_seq(src@, blank, x as nat, y as nat)),
{
    let n = src.unicode_len();
    let mut i: usize = 0;
    let mut col: u128 = 0;
    let mut row: u128 = 0;
    while i < n
        invariant
            n == src@.len(),
            i <= n,
            col == column_of(src@.take(i as int)),
            row == row_of(src@.take(i as int)),
            col <= i,
            row <= i,
            appends(old(s), s, blit_seq(src@.take(i as int), blank, x as nat, y as nat)),
        decreases n - i,
    {
        let ch = src.get_char(i);
        let ghost pre = src@.take(i as int);
        assert(src@.take(i + 1).drop_last() =~= pre);
        if ch == '\n' {
            col = 0;
            row = row + 1;
        } else {
            let px = x as u128 + col;
            let py = y as u128 + row;
            match blank {
                None => put(s, ch, px, py),
                Some(b) => {
                    if ch == ' ' {
                        goto::right(s, 1);
                    } else if ch == b {
                        put(s, ' ', px, py);
                    } else {
                        put(s, ch, px, py);
                    }
                },
            }
            col = col + 1;
        }
        assert(s.out@ =~= old(s).out@ + blit_seq(src@.take(i + 1), blank, x as nat, y as nat));
        i += 1;
    }
    assert(src@.take(n as int) =~= src@);
}

/// Draw a "texture" onto the screen: each line of `src` on its own row,
/// starting at column `x`.
pub fn blit(s: &mut Screen, src: &str, x: u32, y: u32)
    ensures
        appends(old(s), final(s), blit_seq(src@, None, x as nat, y as nat)),
{
    blit_with(s, src, None, x, y);
}

/// Draw a "texture" onto the screen, skipping over spaces.
/// Replaces all `blank`s with actual spaces.
pub fn blit_transparent(s: &mut Screen, src: &str, blank: char, x: u32, y: u32)
    ensures
        appends(old(s), final(s), blit_seq(src@, Some(blank), x as nat, y as nat)),
{
    blit_with(s, src, Some(blank), x, y);
}

/// Draw a triangle onto the screen: its three sides, with no fill.
pub fn triangle(s: &mut Screen, c: char, x1: u32, y1: u32, x2: u32, y2: u32, x3: u32, y3: u32)
    ensures
        appends(
            old(s),
            final(s),
            cells(c, drawn_points(x1, y1, x2, y2)) + cells(c, drawn_points(x2, y2, x3, y3))
                + cells(c, drawn_points(x1, y1, x3, y3)),
        ),
{
    let ghost start = s.out@;
    line(s, c, x1, y1, x2, y2);
    line(s, c, x2, y2, x3, y3);
    line(s, c, x1, y1, x3, y3);
    assert(s.out@ =~= start + (cells(c, drawn_points(x1, y1, x2, y2)) + cells(
        c,
        drawn_points(x2, y2, x3, y3),
    ) + cells(c, drawn_points(x1, y1, x3, y3))));
}

/// Draw text onto the screen (non-wrapping, but respects linebreaks): the
/// characters go left to right from `(x, y)`, and each line break draws
/// nothing but moves the next character back to column `x`, one row down.
/// This places every character exactly where [`blit`] places it.
pub fn text(s: &mut Screen, src: &str, x: u32, y: u32)
    ensures
        appends(old(s), final(s), blit_seq(src@, None, x as nat, y as nat)),
{
    blit_with(s, src, None, x, y);
}

} // verus!
