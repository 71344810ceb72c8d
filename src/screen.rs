//! The drawing state: the emitted output, the color stacks and the styles.
use vstd::prelude::*;

verus! {

/// The escape character that starts every control sequence.
pub const ESC: char = '\x1b';

/// The character of a decimal digit `d` (below ten).
pub open spec fn digit_char(d: nat) -> char {
    ((48 + d) as u32) as char
}

/// The decimal digits of `n`, most significant first, without leading zeros.
pub open spec fn decimal(n: nat) -> Seq<char>
    decreases n,
{
    if n < 10 {
        seq![digit_char(n)]
    } else {
        decimal(n / 10).push(digit_char(n % 10))
    }
}

/// A control sequence introducer followed by `code`.
pub open spec fn csi(code: Seq<char>) -> Seq<char> {
    seq![ESC, '['] + code
}

/// A color value: an index into the terminal's palette, or a 24-bit color.
#[derive(Clone, Copy, Debug, PartialEq, Eq, Structural)]
pub enum Color {
    Indexed(u8),
    TrueColor(u8, u8, u8),
}

/// The five text styles that a terminal can switch on and off.
#[derive(Clone, Copy, Debug, PartialEq, Eq, Structural)]
pub struct Style {
    pub bold: bool,
    pub faint: bool,
    pub italic: bool,
    pub underline: bool,
    pub strike: bool,
}

impl Style {
    /// No style enabled.
    pub open spec fn plain() -> Style {
        Style { bold: false, faint: false, italic: false, underline: false, strike: false }
    }
}

/// The drawing state.
///
/// `out` holds every character emitted so far; `fg` and `bg` are the
/// foreground and background color stacks, whose last element is the color
/// on display (the terminal's default when empty); `style` is the set of
/// text styles on display.
pub struct Screen {
    pub out: Vec<char>,
    pub fg: Vec<Color>,
    pub bg: Vec<Color>,
    pub style: Style,
}

/// `after` is `before` with `text` emitted: the output grows by exactly
/// `text`, and the colors and styles stay as they were.
pub open spec fn appends(before: &Screen, after: &Screen, text: Seq<char>) -> bool {
    &&& after.out@ == before.out@ + text
    &&& after.fg@ == before.fg@
    &&& after.bg@ == before.bg@
    &&& after.style == before.style
}

impl Screen {
    /// A screen with nothing emitted, empty color stacks and no style.
    pub fn new() -> (r: Screen)
        ensures
            r.out@ == Seq::<char>::empty(),
            r.fg@ == Seq::<Color>::empty(),
            r.bg@ == Seq::<Color>::empty(),
            r.style == Style::plain(),
    {
        Screen {
            out: Vec::new(),
            fg: Vec::new(),
            bg: Vec::new(),
            style: Style { bold: false, faint: false, italic: false, underline: false, strike: false },
        }
    }

    /// Emits the control sequence `ESC [ code`.
    pub fn emit(&mut self, code: &str)
        ensures
            appends(old(self), final(self), csi(code@)),
    {
        let ghost start = self.out@;
        self.out.push(ESC);
        self.out.push('[');
        push_str(&mut self.out, code);
        assert(self.out@ =~= start + csi(code@));
    }
}

/// Appends the characters of `s` to `out`.
pub fn push_str(out: &mut Vec<char>, s: &str)
    ensures
        final(out)@ == old(out)@ + s@,
{
    let n = s.unicode_len();
    let mut i: usize = 0;
    while i < n
        invariant
            n == s@.len(),
            i <= n,
            out@ == old(out)@ + s@.subrange(0, i as int),
        decreases n - i,
    {
        let c = s.get_char(i);
        out.push(c);
        i += 1;
        assert(s@.subrange(0, i as int) == s@.subrange(0, i - 1).push(c));
    }
    assert(s@.subrange(0, n as int) == s@);
}

/// Appends the decimal digits of `n` to `out`.
pub fn push_decimal(out: &mut Vec<char>, n: u128)
    ensures
        final(out)@ == old(out)@ + decimal(n as nat),
    decreases n,
{
    if n >= 10 {
        push_decimal(out, n / 10);
    }
    let d = (n % 10) as u8;
    let c = (48 + d) as char;
    out.push(c);
}

} // verus!
