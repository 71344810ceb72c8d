use cod::color;
use cod::{Color, Screen};

fn out(s: &Screen) -> String {
    s.out.iter().collect()
}

#[test]
fn color_stack_restores_previous_color() {
    let mut s = Screen::new();
    color::fg(&mut s, 1);
    color::fg(&mut s, 4);
    s.out.clear();
    color::fg::pop(&mut s);
    assert_eq!(out(&s), "\x1b[38;5;1m");
    assert_eq!(s.fg, vec![Color::Indexed(1)]);
    s.out.clear();
    color::fg::pop(&mut s);
    assert_eq!(out(&s), "\x1b[39m");
    assert!(s.fg.is_empty());
    s.out.clear();
    color::fg::pop(&mut s);
    assert_eq!(out(&s), "\x1b[39m");
    assert!(s.fg.is_empty());
}

#[test]
fn push_emits_color() {
    let mut s = Screen::new();
    color::fg(&mut s, 1);
    color::bg(&mut s, 200);
    color::tc_fg(&mut s, 1, 2, 3);
    color::tc_bg(&mut s, 255, 0, 10);
    assert_eq!(out(&s), "\x1b[38;5;1m\x1b[48;5;200m\x1b[38;2;1;2;3m\x1b[48;2;255;0;10m");
    assert_eq!(s.fg, vec![Color::Indexed(1), Color::TrueColor(1, 2, 3)]);
    assert_eq!(s.bg, vec![Color::Indexed(200), Color::TrueColor(255, 0, 10)]);
}

#[test]
fn background_stack_is_separate() {
    let mut s = Screen::new();
    color::fg(&mut s, 2);
    color::bg(&mut s, 3);
    s.out.clear();
    color::bg::pop(&mut s);
    assert_eq!(out(&s), "\x1b[49m");
    assert_eq!(s.fg, vec![Color::Indexed(2)]);
    assert!(s.bg.is_empty());
}

#[test]
fn true_color_is_restored_after_pop() {
    let mut s = Screen::new();
    color::tc_bg(&mut s, 9, 8, 7);
    color::bg(&mut s, 0);
    s.out.clear();
    color::pop_bg(&mut s);
    assert_eq!(out(&s), "\x1b[48;2;9;8;7m");
}

#[test]
fn de_all_pops_both_channels() {
    let mut s = Screen::new();
    color::fg(&mut s, 1);
    color::fg(&mut s, 2);
    color::bg(&mut s, 3);
    s.out.clear();
    color::de::all(&mut s);
    assert_eq!(out(&s), "\x1b[38;5;1m\x1b[49m");
    assert_eq!(s.fg, vec![Color::Indexed(1)]);
    assert!(s.bg.is_empty());
    color::de::fg(&mut s);
    color::de::bg(&mut s);
    assert!(s.fg.is_empty() && s.bg.is_empty());
}

#[test]
fn with_fg_restores_after_failing_action() {
    let mut s = Screen::new();
    let r: Result<(), &str> = color::with::fg(&mut s, 2, |t| {
        assert_eq!(t.fg, vec![Color::Indexed(2)]);
        (t, Err("failed"))
    });
    assert_eq!(r, Err("failed"));
    assert!(s.fg.is_empty());
    assert_eq!(out(&s), "\x1b[38;5;2m\x1b[39m");
}

#[test]
fn with_fg_restores_after_unbalanced_action() {
    let mut s = Screen::new();
    color::fg(&mut s, 7);
    let r = color::with::fg(&mut s, 2, |mut t| {
        color::fg(&mut t, 3);
        color::fg(&mut t, 4);
        (t, 5)
    });
    assert_eq!(r, 5);
    assert_eq!(s.fg, vec![Color::Indexed(7)]);
    assert!(out(&s).ends_with("\x1b[38;5;7m"));
}

#[test]
fn with_nests() {
    let mut s = Screen::new();
    color::with::bg(&mut s, 4, |t| {
        let mut t = t;
        let ((), ) = color::with::tc_bg(&mut t, 1, 1, 1, |u| (u, ((),)));
        assert_eq!(t.bg, vec![Color::Indexed(4)]);
        (t, ())
    });
    assert!(s.bg.is_empty());
    assert_eq!(out(&s), "\x1b[48;5;4m\x1b[48;2;1;1;1m\x1b[48;5;4m\x1b[49m");
}

#[test]
fn with_tc_fg_draws_in_color() {
    let mut s = Screen::new();
    color::with::tc_fg(&mut s, 10, 20, 30, |mut t| {
        cod::pixel(&mut t, 'a', 0, 0);
        (t, ())
    });
    assert_eq!(out(&s), "\x1b[38;2;10;20;30m\x1b[1;1Ha\x1b[39m");
}

#[test]
fn push_aliases_push() {
    let mut s = Screen::new();
    color::push_fg(&mut s, 5);
    color::push_bg(&mut s, 6);
    color::push_tc_fg(&mut s, 1, 2, 3);
    color::push_tc_bg(&mut s, 4, 5, 6);
    color::pop_fg(&mut s);
    assert_eq!(s.fg, vec![Color::Indexed(5)]);
    assert_eq!(s.bg, vec![Color::Indexed(6), Color::TrueColor(4, 5, 6)]);
}
