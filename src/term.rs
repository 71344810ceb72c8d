//! Handling the terminal: the cursor's shape, the alternate screen, and the
//! fallback for its size.
use vstd::prelude::*;

use crate::screen::{appends, csi, decimal, push_decimal, Screen, ESC};

verus! {

/// The style of the cursor, used with [`set_cursor_style`].
#[derive(Clone, Copy, Debug, Default, PartialEq, Eq, Structural)]
pub enum CursorStyle {
    /// Default cursor shape configured by the user.
    #[default]
    DefaultUserShape,
    /// A blinking block cursor shape.
    BlinkingBlock,
    /// A non blinking block cursor shape (inverse of `BlinkingBlock`).
    SteadyBlock,
    /// A blinking underscore cursor shape.
    BlinkingUnderScore,
    /// A non blinking underscore cursor shape (inverse of `BlinkingUnderScore`).
    SteadyUnderScore,
    /// A blinking cursor bar shape.
    BlinkingBar,
    /// A steady cursor bar shape (inverse of `BlinkingBar`).
    SteadyBar,
}

/// The number that selects each cursor shape.
pub open spec fn shape_number(style: CursorStyle) -> nat {
    match style {
        CursorStyle::DefaultUserShape => 0,
        CursorStyle::BlinkingBlock => 1,
        CursorStyle::SteadyBlock => 2,
        CursorStyle::BlinkingUnderScore => 3,
        CursorStyle::SteadyUnderScore => 4,
        CursorStyle::BlinkingBar => 5,
        CursorStyle::SteadyBar => 6,
    }
}

/// The columns assumed when the terminal's size is unknown.
pub const FALLBACK_COLS: u32 = 80;

/// The rows assumed when the terminal's size is unknown.
pub const FALLBACK_ROWS: u32 = 24;

/// Changes the cursor style.
pub fn set_cursor_style(s: &mut Screen, style: CursorStyle)
    ensures
        appends(old(s), final(s), csi(decimal(shape_number(style)) + seq![' ', 'q'])),
{
    let n: u8 = match style {
        CursorStyle::DefaultUserShape => 0,
        CursorStyle::BlinkingBlock => 1,
        CursorStyle::SteadyBlock => 2,
        CursorStyle::BlinkingUnderScore => 3,
        CursorStyle::SteadyUnderScore => 4,
        CursorStyle::BlinkingBar => 5,
        CursorStyle::SteadyBar => 6,
    };
    let ghost start = s.out@;
    s.out.push(ESC);
    s.out.push('[');
    push_decimal(&mut s.out, n as u128);
    s.out.push(' ');
    s.out.push('q');
    assert(s.out@ =~= start + csi(decimal(shape_number(style)) + seq![' ', 'q']));
}

/// Switch to the secondary screen.
///
/// Use [`primary_screen`] to swap back.
pub fn secondary_screen(s: &mut Screen)
    ensures
        appends(old(s), final(s), csi("?1049h"@)),
{
    s.emit("?1049h");
}

/// Switch to the primary (default) screen.
///
/// Use [`secondary_screen`] to swap back.
pub fn primary_screen(s: &mut Screen)
    ensures
        appends(old(s), final(s), csi("?1049l"@)),
{
    s.emit("?1049l");
}

/// The terminal's size in columns and rows as measured, or 80 by 24 when it
/// could not be measured.
pub fn size_or_fallback(measured: Option<(u32, u32)>) -> (r: (u32, u32))
    ensures
        measured is Some ==> r == measured->0,
        measured is None ==> r == (FALLBACK_COLS, FALLBACK_ROWS),
{
    match measured {
        Some(size) => size,
        None => (FALLBACK_COLS, FALLBACK_ROWS),
    }
}

} // verus!
