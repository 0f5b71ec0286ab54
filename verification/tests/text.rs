use termide::renderer::{Color, Renderer, Screen, Style};
use termide::text::{append_chars, blank, chars_of, decimal_of, fit};

fn text(v: &[char]) -> String {
    v.iter().collect()
}

#[test]
fn fit_cuts_and_fills() {
    assert_eq!(text(&fit("abcdef".chars().collect(), 3)), "abc");
    assert_eq!(text(&fit("ab".chars().collect(), 5)), "ab   ");
    assert_eq!(text(&fit("abc".chars().collect(), 3)), "abc");
    assert_eq!(text(&fit(Vec::new(), 2)), "  ");
    assert_eq!(text(&fit("abc".chars().collect(), 0)), "");
}

#[test]
fn blank_rows() {
    assert_eq!(text(&blank(0)), "");
    assert_eq!(text(&blank(4)), "    ");
}

#[test]
fn decimal_digits() {
    assert_eq!(text(&decimal_of(0)), "0");
    assert_eq!(text(&decimal_of(9)), "9");
    assert_eq!(text(&decimal_of(10)), "10");
    assert_eq!(text(&decimal_of(4096)), "4096");
    assert_eq!(text(&decimal_of(usize::MAX)), usize::MAX.to_string());
}

#[test]
fn characters_of_a_string() {
    assert_eq!(chars_of("añ日"), vec!['a', 'ñ', '日']);
    assert_eq!(chars_of(""), Vec::<char>::new());
    let mut v = chars_of("ab");
    append_chars(&mut v, &chars_of("cd"));
    assert_eq!(text(&v), "abcd");
}

#[test]
fn renderer_offsets_and_clips() {
    let r = Renderer::new(10, 20, 5, 3);
    assert_eq!(r.get_size(), (5, 3));
    assert_eq!(r.get_origin(), (10, 20));
    let mut screen = Screen::new();
    r.set(1, 2, 'x', Style::plain(), &mut screen);
    r.set_section(5, 3, vec!['a', 'b'], Style::on(Color::Grey), &mut screen);
    // One past the last column or row is still written, beyond that nothing.
    r.set(6, 0, 'y', Style::plain(), &mut screen);
    r.set_section(0, 4, vec!['z'], Style::plain(), &mut screen);
    assert_eq!(screen.len(), 2);
    assert_eq!((screen.command(0).x, screen.command(0).y), (11, 22));
    assert_eq!(screen.command(0).text, vec!['x']);
    assert_eq!(screen.command(0).style, Style::plain());
    assert_eq!((screen.command(1).x, screen.command(1).y), (15, 23));
    assert_eq!(screen.command(1).text, vec!['a', 'b']);
}

#[test]
fn renderer_offsets_do_not_overflow() {
    let r = Renderer::new(usize::MAX - 1, usize::MAX, 5, 5);
    let mut screen = Screen::new();
    r.set(3, 3, 'x', Style::plain(), &mut screen);
    assert_eq!((screen.command(0).x, screen.command(0).y), (usize::MAX, usize::MAX));
    let inner = r.sub((4, 4), (1, 1));
    assert_eq!(inner.get_origin(), (usize::MAX, usize::MAX));
    assert_eq!(inner.get_size(), (1, 1));
}

#[test]
fn sub_renderer_stands_inside() {
    let r = Renderer::new(2, 3, 50, 20);
    let inner = r.sub((10, 5), (7, 8));
    assert_eq!(inner.get_origin(), (12, 8));
    assert_eq!(inner.get_size(), (7, 8));
}

#[test]
fn column_and_cleared_rows() {
    let r = Renderer::new(1, 1, 3, 2);
    let mut screen = Screen::new();
    r.set_column(&vec!['a', 'b', 'c', 'd'], Style::title(false), &mut screen);
    // rows 0, 1 and 2: the row just below the rectangle is still written
    assert_eq!(screen.len(), 3);
    assert_eq!((screen.command(2).x, screen.command(2).y), (1, 3));
    let mut screen = Screen::new();
    r.clear_rows(1, 4, Style::cleared(), &mut screen);
    assert_eq!(screen.len(), 2);
    assert_eq!(screen.command(0).text, vec![' ', ' ', ' ']);
    assert_eq!(screen.command(1).y, 3);
    let mut screen = Screen::new();
    r.clear_rows(3, 1, Style::cleared(), &mut screen);
    assert_eq!(screen.len(), 0);
}

#[test]
fn styles() {
    assert_eq!(Style::title(true), Style::colored(Color::DarkRed, Color::DarkBlue));
    assert_eq!(Style::title(false), Style::colored(Color::White, Color::DarkGrey));
    assert_eq!(Style::text(true), Style::on(Color::Rgb { r: 0x38, g: 0x38, b: 0x58 }));
    assert_eq!(Style::text(false), Style::on(Color::Rgb { r: 0x10, g: 0x10, b: 0x20 }));
    assert_eq!(Style::entry(true), Style::colored(Color::Black, Color::Grey));
    assert_eq!(Style::entry(false), Style::cleared());
    assert!(Style::cleared().reset);
    assert!(!Style::plain().reset);
}
