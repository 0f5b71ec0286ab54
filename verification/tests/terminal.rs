use termide::components::terminal::Terminal;
use termide::renderer::{Color, Renderer, Screen, Style};

fn text(v: &[char]) -> String {
    v.iter().collect()
}

#[test]
fn unfocused_terminal_draws_its_title() {
    let t = Terminal::new("/bin/zsh".to_string());
    assert_eq!(t.get_shell(), "/bin/zsh");
    let mut screen = Screen::new();
    let r = t.render(&Renderer::new(0, 39, 24, 1), false, &mut screen);
    assert_eq!(r, (false, (0, 0)));
    assert_eq!(screen.len(), 1);
    let c = screen.command(0);
    assert_eq!((c.x, c.y), (0, 39));
    assert_eq!(text(&c.text), "Terminal /bin/zsh       ");
    assert_eq!(c.style, Style::colored(Color::White, Color::DarkGrey));
}

#[test]
fn focused_terminal_clears_its_rows() {
    let t = Terminal::new("sh".to_string());
    let mut screen = Screen::new();
    t.render(&Renderer::new(1, 2, 6, 3), true, &mut screen);
    let got: Vec<(usize, usize, String, Style)> = (0..screen.len())
        .map(|i| {
            let c = screen.command(i);
            (c.x, c.y, text(&c.text), c.style)
        })
        .collect();
    assert_eq!(
        got,
        vec![
            (1, 2, "Termin".to_string(), Style::colored(Color::DarkRed, Color::DarkBlue)),
            (1, 3, "      ".to_string(), Style::cleared()),
            (1, 4, "      ".to_string(), Style::cleared()),
        ]
    );
}

#[test]
fn terminal_without_size_draws_an_empty_title() {
    let t = Terminal::new("sh".to_string());
    let mut screen = Screen::new();
    t.render(&Renderer::new(0, 0, 0, 0), true, &mut screen);
    assert_eq!(screen.len(), 1);
    assert_eq!(text(&screen.command(0).text), "");
}
