use cod::line::Iter;
use cod::{blit, blit_transparent, goto, normal, orth_line, pixel, text, triangle};
use cod::{NonOrthogonal, Screen};

fn out(s: &Screen) -> String {
    s.out.iter().collect()
}

fn points(x1: u32, y1: u32, x2: u32, y2: u32) -> Vec<(u32, u32)> {
    let mut it = Iter::new(x1, y1, x2, y2);
    let mut v = Vec::new();
    while let Some(p) = it.next() {
        v.push(p);
    }
    v
}

#[test]
fn cursor_position_is_one_based() {
    let mut s = Screen::new();
    goto::pos(&mut s, 2, 0);
    assert_eq!(out(&s), "\x1b[1;3H");
    let mut s = Screen::new();
    goto::pos(&mut s, 9, 41);
    assert_eq!(out(&s), "\x1b[42;10H");
}

#[test]
fn cursor_position_at_largest_coordinate() {
    let mut s = Screen::new();
    goto::pos(&mut s, u32::MAX, u32::MAX);
    assert_eq!(out(&s), "\x1b[4294967296;4294967296H");
}

#[test]
fn cursor_moves() {
    let mut s = Screen::new();
    goto::up(&mut s, 3);
    goto::down(&mut s, 12);
    goto::left(&mut s, 1);
    goto::right(&mut s, 7);
    goto::start(&mut s);
    assert_eq!(out(&s), "\x1b[3A\x1b[12B\x1b[1D\x1b[7C\x1b[G");
}

#[test]
fn cursor_moves_by_zero_emit_nothing() {
    let mut s = Screen::new();
    goto::up(&mut s, 0);
    goto::down(&mut s, 0);
    goto::left(&mut s, 0);
    goto::right(&mut s, 0);
    assert_eq!(out(&s), "");
}

#[test]
fn cursor_home_and_bottom() {
    let mut s = Screen::new();
    goto::home(&mut s);
    goto::bot(&mut s);
    assert_eq!(out(&s), "\x1b[1;1H\x1b[9999;1H");
}

#[test]
fn normal_resets_everything() {
    let mut s = Screen::new();
    normal(&mut s);
    assert_eq!(out(&s), "\x1b[0m");
}

#[test]
fn pixel_draws_one_cell() {
    let mut s = Screen::new();
    pixel(&mut s, 'x', 1, 2);
    assert_eq!(out(&s), "\x1b[3;2Hx");
}

#[test]
fn orth_line_walks_from_low_to_high() {
    let mut s = Screen::new();
    assert_eq!(orth_line(&mut s, '#', 3, 5, 1, 5), Ok(()));
    assert_eq!(out(&s), "\x1b[6;2H#\x1b[6;3H#\x1b[6;4H#");
    let mut s = Screen::new();
    assert_eq!(orth_line(&mut s, '|', 0, 2, 0, 0), Ok(()));
    assert_eq!(out(&s), "\x1b[1;1H|\x1b[2;1H|\x1b[3;1H|");
}

#[test]
fn orth_line_of_one_cell() {
    let mut s = Screen::new();
    assert_eq!(orth_line(&mut s, '*', 4, 4, 4, 4), Ok(()));
    assert_eq!(out(&s), "\x1b[5;5H*");
}

#[test]
fn orth_line_rejects_diagonal() {
    let mut s = Screen::new();
    assert_eq!(orth_line(&mut s, '#', 0, 0, 2, 3), Err(NonOrthogonal));
    assert_eq!(out(&s), "");
}

#[test]
fn orth_line_reaches_largest_coordinate() {
    let mut s = Screen::new();
    assert_eq!(orth_line(&mut s, '-', u32::MAX - 1, 0, u32::MAX, 0), Ok(()));
    assert_eq!(out(&s), "\x1b[1;4294967295H-\x1b[1;4294967296H-");
}

#[test]
fn line_matches_orth_line_when_orthogonal() {
    for (x1, y1, x2, y2) in [(0, 0, 3, 0), (5, 1, 2, 1), (2, 7, 2, 3), (4, 4, 4, 4)] {
        let mut a = Screen::new();
        let mut b = Screen::new();
        cod::line(&mut a, 'o', x1, y1, x2, y2);
        assert_eq!(orth_line(&mut b, 'o', x1, y1, x2, y2), Ok(()));
        assert_eq!(out(&a), out(&b));
    }
}

#[test]
fn line_vertical_with_distinct_rows() {
    let mut s = Screen::new();
    cod::line(&mut s, 'v', 0, 1, 0, 2);
    assert_eq!(out(&s), "\x1b[2;1Hv\x1b[3;1Hv");
}

#[test]
fn line_diagonal_draws_rasterized_cells() {
    let mut s = Screen::new();
    cod::line(&mut s, '\\', 0, 0, 2, 2);
    assert_eq!(out(&s), "\x1b[1;1H\\\x1b[2;2H\\\x1b[3;3H\\");
}

#[test]
fn rasterize_horizontal_line() {
    assert_eq!(points(0, 0, 3, 0), vec![(0, 0), (1, 0), (2, 0), (3, 0)]);
}

#[test]
fn rasterize_diagonal_line() {
    let pts = points(0, 0, 3, 3);
    assert_eq!(pts.len(), 4);
    assert_eq!(pts, vec![(0, 0), (1, 1), (2, 2), (3, 3)]);
    for w in pts.windows(2) {
        assert!(w[1].0 > w[0].0 && w[1].1 > w[0].1);
    }
}

#[test]
fn rasterize_every_direction() {
    assert_eq!(points(3, 0, 0, 3), vec![(3, 0), (2, 1), (1, 2), (0, 3)]);
    assert_eq!(points(0, 0, 1, 3), vec![(0, 0), (0, 1), (1, 2), (1, 3)]);
    assert_eq!(points(1, 3, 0, 0), vec![(1, 3), (1, 2), (0, 1), (0, 0)]);
    assert_eq!(points(0, 0, 5, 2), vec![(0, 0), (1, 0), (2, 1), (3, 1), (4, 2), (5, 2)]);
    assert_eq!(points(5, 2, 0, 0), vec![(5, 2), (4, 2), (3, 1), (2, 1), (1, 0), (0, 0)]);
    assert_eq!(points(3, 0, 0, 0), vec![(3, 0), (2, 0), (1, 0), (0, 0)]);
}

#[test]
fn rasterize_single_point() {
    assert_eq!(points(7, 7, 7, 7), vec![(7, 7)]);
}

#[test]
fn rasterize_at_coordinate_limits() {
    assert_eq!(points(u32::MAX, 0, u32::MAX - 2, 2), vec![(u32::MAX, 0), (u32::MAX - 1, 1), (u32::MAX - 2, 2)]);
    let mut it = Iter::new(0, 0, u32::MAX, 1);
    assert_eq!(it.next(), Some((0, 0)));
    assert_eq!(it.next(), Some((1, 0)));
    let mut it = Iter::new(u32::MAX, 1, 0, 0);
    assert_eq!(it.next(), Some((u32::MAX, 1)));
    assert_eq!(it.next(), Some((u32::MAX - 1, 1)));
}

#[test]
fn rasterizer_stays_exhausted() {
    let mut it = Iter::new(0, 0, 1, 1);
    assert_eq!(it.next(), Some((0, 0)));
    assert_eq!(it.next(), Some((1, 1)));
    assert_eq!(it.next(), None);
    assert_eq!(it.next(), None);
}

#[test]
fn blit_puts_each_line_on_its_row() {
    let mut s = Screen::new();
    blit(&mut s, "ab\ncd", 1, 1);
    assert_eq!(out(&s), "\x1b[2;2Ha\x1b[2;3Hb\x1b[3;2Hc\x1b[3;3Hd");
}

#[test]
fn blit_of_empty_lines() {
    let mut s = Screen::new();
    blit(&mut s, "\n\nx", 0, 0);
    assert_eq!(out(&s), "\x1b[3;1Hx");
}

#[test]
fn blit_transparent_skips_spaces() {
    let mut s = Screen::new();
    blit_transparent(&mut s, "t _  n", '_', 0, 0);
    assert_eq!(out(&s), "\x1b[1;1Ht\x1b[1C\x1b[1;3H \x1b[1C\x1b[1C\x1b[1;6Hn");
}

#[test]
fn blit_transparent_over_two_rows() {
    let mut s = Screen::new();
    blit_transparent(&mut s, "a\n.b", '.', 2, 0);
    assert_eq!(out(&s), "\x1b[1;3Ha\x1b[2;3H \x1b[2;4Hb");
}

#[test]
fn text_draws_line_breaks_on_the_next_row() {
    let mut s = Screen::new();
    text(&mut s, "ab\nc", 3, 1);
    assert_eq!(out(&s), "\x1b[2;4Ha\x1b[2;5Hb\x1b[3;4Hc");
}

#[test]
fn text_matches_blit() {
    let mut a = Screen::new();
    let mut b = Screen::new();
    text(&mut a, "ab\ncd", 0, 0);
    blit(&mut b, "ab\ncd", 0, 0);
    assert_eq!(out(&a), "\x1b[1;1Ha\x1b[1;2Hb\x1b[2;1Hc\x1b[2;2Hd");
    assert_eq!(out(&a), out(&b));
}

#[test]
fn triangle_draws_three_sides() {
    let mut s = Screen::new();
    triangle(&mut s, '*', 0, 0, 2, 0, 0, 2);
    let mut expected = Screen::new();
    cod::line(&mut expected, '*', 0, 0, 2, 0);
    cod::line(&mut expected, '*', 2, 0, 0, 2);
    cod::line(&mut expected, '*', 0, 0, 0, 2);
    assert_eq!(out(&s), out(&expected));
    assert_eq!(
        out(&s),
        "\x1b[1;1H*\x1b[1;2H*\x1b[1;3H*\x1b[1;3H*\x1b[2;2H*\x1b[3;1H*\x1b[1;1H*\x1b[2;1H*\x1b[3;1H*"
    );
}

#[test]
fn rasterized_cells_are_adjacent_and_end_at_endpoints() {
    for (x1, y1, x2, y2) in [(0, 0, 17, 5), (17, 5, 0, 0), (3, 20, 9, 1), (10, 10, 0, 13)] {
        let pts = points(x1, y1, x2, y2);
        let dx = (x2 as i64 - x1 as i64).abs();
        let dy = (y2 as i64 - y1 as i64).abs();
        assert_eq!(pts.len() as i64, dx.max(dy) + 1);
        assert_eq!(pts[0], (x1, y1));
        assert_eq!(pts[pts.len() - 1], (x2, y2));
        for w in pts.windows(2) {
            let sx = (w[1].0 as i64 - w[0].0 as i64).abs();
            let sy = (w[1].1 as i64 - w[0].1 as i64).abs();
            assert!(sx <= 1 && sy <= 1);
            assert_eq!(sx.max(sy), 1);
        }
    }
}
