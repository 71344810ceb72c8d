use cod::guard::Reset;
use cod::style::{self, Attr};
use cod::{color, Screen};

fn out(s: &Screen) -> String {
    s.out.iter().collect()
}

#[test]
fn disabling_faint_clears_bold() {
    let mut s = Screen::new();
    style::enable(&mut s, Attr::Bold);
    assert!(s.style.bold);
    s.out.clear();
    style::de::disable(&mut s, Attr::Faint);
    assert_eq!(out(&s), "\x1b[22m");
    assert!(!s.style.bold && !s.style.faint);
}

#[test]
fn enable_codes() {
    let mut s = Screen::new();
    for a in [Attr::Bold, Attr::Faint, Attr::Italic, Attr::Underline, Attr::Strike] {
        style::enable(&mut s, a);
    }
    assert_eq!(out(&s), "\x1b[1m\x1b[2m\x1b[3m\x1b[4m\x1b[9m");
    assert!(s.style.bold && s.style.faint && s.style.italic && s.style.underline && s.style.strike);
}

#[test]
fn disable_codes() {
    let mut s = Screen::new();
    style::enable(&mut s, Attr::Italic);
    style::enable(&mut s, Attr::Strike);
    s.out.clear();
    style::de::disable(&mut s, Attr::Italic);
    style::de::disable(&mut s, Attr::Underline);
    style::de::disable(&mut s, Attr::Strike);
    style::de::disable(&mut s, Attr::Bold);
    assert_eq!(out(&s), "\x1b[23m\x1b[24m\x1b[29m\x1b[22m");
    assert!(!s.style.italic && !s.style.strike);
}

#[test]
fn weight_clears_bold_and_faint_only() {
    let mut s = Screen::new();
    style::enable(&mut s, Attr::Faint);
    style::enable(&mut s, Attr::Underline);
    s.out.clear();
    style::de::weight(&mut s);
    assert_eq!(out(&s), "\x1b[22m");
    assert!(!s.style.faint && s.style.underline);
}

#[test]
fn de_all_disables_every_style() {
    let mut s = Screen::new();
    style::enable(&mut s, Attr::Bold);
    style::enable(&mut s, Attr::Underline);
    s.out.clear();
    style::de::all(&mut s);
    assert_eq!(out(&s), "\x1b[23m\x1b[24m\x1b[29m\x1b[22m");
    assert!(!s.style.bold && !s.style.underline);
}

#[test]
fn with_style_disables_after_action() {
    let mut s = Screen::new();
    let r: Result<u8, u8> = style::with::attr(&mut s, Attr::Italic, |t| {
        assert!(t.style.italic);
        (t, Err(1))
    });
    assert_eq!(r, Err(1));
    assert!(!s.style.italic);
    assert_eq!(out(&s), "\x1b[3m\x1b[23m");
}

#[test]
fn nested_weight_does_not_stack() {
    let mut s = Screen::new();
    style::with::attr(&mut s, Attr::Bold, |t| {
        let mut t = t;
        style::with::attr(&mut t, Attr::Faint, |u| (u, ()));
        assert!(!t.style.bold);
        (t, ())
    });
    assert_eq!(out(&s), "\x1b[1m\x1b[2m\x1b[22m\x1b[22m");
}

#[test]
fn reset_clears_styles_and_pops_colors() {
    let mut s = Screen::new();
    style::enable(&mut s, Attr::Bold);
    color::fg(&mut s, 1);
    s.out.clear();
    Reset.apply(&mut s);
    assert_eq!(out(&s), "\x1b[23m\x1b[24m\x1b[29m\x1b[22m\x1b[39m\x1b[49m");
    assert!(s.fg.is_empty() && !s.style.bold);
}
