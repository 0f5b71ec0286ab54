//! The drawing surface: panes do not write to the terminal, they say what is
//! to be written where, and whoever owns the terminal writes it.

use vstd::prelude::*;
use crate::text::{blank, spaces};

verus! {

/// A colour of the terminal.
#[derive(Clone, Copy, Debug, PartialEq, Eq, Structural)]
pub enum Color {
    Black,
    DarkGrey,
    Grey,
    White,
    DarkRed,
    DarkBlue,
    Rgb { r: u8, g: u8, b: u8 },
}

/// How a piece of text looks.
#[derive(Clone, Copy, Debug, PartialEq, Eq, Structural)]
pub struct Style {
    pub foreground: Option<Color>,
    pub background: Option<Color>,
    /// Whether the text is written with all attributes reset.
    pub reset: bool,
}

/// A piece of text to be written at a cell of the screen.
#[derive(Debug)]
pub struct DrawCommand {
    pub x: usize,
    pub y: usize,
    pub text: Vec<char>,
    pub style: Style,
}

/// A draw command as contracts see it.
pub struct Drawn {
    pub x: usize,
    pub y: usize,
    pub text: Seq<char>,
    pub style: Style,
}

impl View for DrawCommand {
    type V = Drawn;

    open spec fn view(&self) -> Drawn {
        Drawn { x: self.x, y: self.y, text: self.text@, style: self.style }
    }
}

/// What one frame writes, in the order in which it is written.
pub struct Screen {
    commands: Vec<DrawCommand>,
}

impl View for Screen {
    type V = Seq<Drawn>;

    closed spec fn view(&self) -> Seq<Drawn> {
        Seq::new(self.commands@.len(), |i: int| self.commands@[i]@)
    }
}

impl Screen {
    /// A frame in which nothing is written yet.
    pub fn new() -> (r: Screen)
        ensures
            r@ == Seq::<Drawn>::empty(),
    {
        let r = Screen { commands: Vec::new() };
        assert(r@ =~= Seq::<Drawn>::empty());
        r
    }

    /// How many commands the frame holds.
    pub fn len(&self) -> (n: usize)
        ensures
            n == self@.len(),
    {
        self.commands.len()
    }

    /// The command at `index`.
    pub fn command(&self, index: usize) -> (c: &DrawCommand)
        requires
            index < self@.len(),
        ensures
            c@ == self@[index as int],
    {
        &self.commands[index]
    }

    fn push(&mut self, command: DrawCommand)
        ensures
            final(self)@ == old(self)@.push(command@),
    {
        self.commands.push(command);
        assert(self@ =~= old(self)@.push(command@));
    }
}

impl Style {
    /// Text on the terminal's own colours.
    pub fn plain() -> (r: Style)
        ensures
            r == (Style { foreground: None, background: None, reset: false }),
    {
        Style { foreground: None, background: None, reset: false }
    }

    /// `foreground` text on a `background`.
    pub fn colored(foreground: Color, background: Color) -> (r: Style)
        ensures
            r == (Style {
                foreground: Some(foreground),
                background: Some(background),
                reset: false,
            }),
    {
        Style { foreground: Some(foreground), background: Some(background), reset: false }
    }

    /// Text on a `background`.
    pub fn on(background: Color) -> (r: Style)
        ensures
            r == (Style { foreground: None, background: Some(background), reset: false }),
    {
        Style { foreground: None, background: Some(background), reset: false }
    }

    /// The style of a title row.
    pub fn title(focused: bool) -> (r: Style)
        ensures
            r == title_style(focused),
    {
        if focused {
            Style::colored(Color::DarkRed, Color::DarkBlue)
        } else {
            Style::colored(Color::White, Color::DarkGrey)
        }
    }

    /// The style of a row of text in an editor.
    pub fn text(cursor_row: bool) -> (r: Style)
        ensures
            r == text_style(cursor_row),
    {
        if cursor_row {
            Style::on(Color::Rgb { r: 0x38, g: 0x38, b: 0x58 })
        } else {
            Style::on(Color::Rgb { r: 0x10, g: 0x10, b: 0x20 })
        }
    }

    /// The style of an entry of the project tree.
    pub fn entry(selected: bool) -> (r: Style)
        ensures
            r == entry_style(selected),
    {
        if selected {
            Style::colored(Color::Black, Color::Grey)
        } else {
            Style::cleared()
        }
    }

    /// Text with all attributes reset.
    pub fn cleared() -> (r: Style)
        ensures
            r == cleared_style(),
    {
        Style { foreground: None, background: None, reset: true }
    }
}

/// How the title row of a pane looks: dark red on dark blue where the pane is
/// focused, white on dark grey where it is not.
pub open spec fn title_style(focused: bool) -> Style {
    if focused {
        Style {
            foreground: Some(Color::DarkRed),
            background: Some(Color::DarkBlue),
            reset: false,
        }
    } else {
        Style {
            foreground: Some(Color::White),
            background: Some(Color::DarkGrey),
            reset: false,
        }
    }
}

/// How a row of text in an editor looks: the row of the cursor is lighter than
/// the others.
pub open spec fn text_style(cursor_row: bool) -> Style {
    if cursor_row {
        Style { foreground: None, background: Some(Color::Rgb { r: 0x38, g: 0x38, b: 0x58 }), reset: false }
    } else {
        Style { foreground: None, background: Some(Color::Rgb { r: 0x10, g: 0x10, b: 0x20 }), reset: false }
    }
}

/// How text looks that is written with all attributes reset.
pub open spec fn cleared_style() -> Style {
    Style { foreground: None, background: None, reset: true }
}

/// How an entry of the project tree looks: black on grey where it is selected,
/// reset where it is not.
pub open spec fn entry_style(selected: bool) -> Style {
    if selected {
        Style { foreground: Some(Color::Black), background: Some(Color::Grey), reset: false }
    } else {
        cleared_style()
    }
}

/// `a + b`, or the largest number where the sum is larger.
pub open spec fn clamped_add(a: usize, b: usize) -> usize {
    if a + b > usize::MAX {
        usize::MAX
    } else {
        (a + b) as usize
    }
}

/// A rectangle of the screen that a pane draws into, in its own coordinates.
#[derive(Clone, Copy, Debug, PartialEq, Eq, Structural)]
pub struct Renderer {
    pub(crate) x: usize,
    pub(crate) y: usize,
    pub(crate) width: usize,
    pub(crate) height: usize,
}

impl Renderer {
    /// Column and row of the top left corner on the screen.
    pub open(crate) spec fn origin(self) -> (usize, usize) {
        (self.x, self.y)
    }

    /// Width and height.
    pub open(crate) spec fn size(self) -> (usize, usize) {
        (self.width, self.height)
    }

    /// The rectangle of a whole screen of size `size`.
    pub open(crate) spec fn whole(size: (usize, usize)) -> Renderer {
        Renderer { x: 0, y: 0, width: size.0, height: size.1 }
    }

    /// What writing `text` at column `x` and row `y` of the rectangle adds to
    /// a frame: the text at that cell of the screen, or nothing where the cell
    /// lies beyond the rectangle.
    pub open(crate) spec fn written(self, x: usize, y: usize, text: Seq<char>, style: Style) -> Seq<
        Drawn,
    > {
        if x > self.width || y > self.height {
            Seq::empty()
        } else {
            seq![Drawn { x: clamped_add(self.x, x), y: clamped_add(self.y, y), text, style }]
        }
    }

    /// The rectangle of a pane that stands at `location` in this rectangle
    /// and is `size` large.
    pub open(crate) spec fn inner(self, location: (usize, usize), size: (usize, usize)) -> Renderer {
        Renderer {
            x: clamped_add(self.x, location.0),
            y: clamped_add(self.y, location.1),
            width: size.0,
            height: size.1,
        }
    }

    /// What writing `text` downwards from the top left cell adds to a frame:
    /// one character in each row.
    pub open(crate) spec fn column_written(self, text: Seq<char>, style: Style) -> Seq<Drawn>
        decreases text.len(),
    {
        if text.len() == 0 {
            Seq::empty()
        } else {
            self.column_written(text.drop_last(), style) + self.written(
                0,
                (text.len() - 1) as usize,
                seq![text.last()],
                style,
            )
        }
    }

    /// What filling the rows from `from` up to, not including, `to` with blanks
    /// adds to a frame.
    pub open(crate) spec fn rows_cleared(self, from: usize, to: usize, style: Style) -> Seq<Drawn>
        decreases to,
    {
        if from >= to {
            Seq::empty()
        } else {
            self.rows_cleared(from, (to - 1) as usize, style) + self.written(
                0,
                (to - 1) as usize,
                spaces(self.width as nat),
                style,
            )
        }
    }

    pub fn new(x: usize, y: usize, width: usize, height: usize) -> (r: Renderer)
        ensures
            r.origin() == (x, y),
            r.size() == (width, height),
            x == 0 && y == 0 ==> r == Renderer::whole((width, height)),
    {
        Renderer { x, y, width, height }
    }

    pub fn get_size(&self) -> (r: (usize, usize))
        ensures
            r == self.size(),
    {
        (self.width, self.height)
    }

    /// Column and row of the top left corner on the screen.
    pub fn get_origin(&self) -> (r: (usize, usize))
        ensures
            r == self.origin(),
    {
        (self.x, self.y)
    }

    /// The rectangle of a pane that stands at `location` in this rectangle
    /// and is `size` large.
    pub fn sub(&self, location: (usize, usize), size: (usize, usize)) -> (r: Renderer)
        ensures
            r == self.inner(location, size),
    {
        Renderer {
            x: self.x.saturating_add(location.0),
            y: self.y.saturating_add(location.1),
            width: size.0,
            height: size.1,
        }
    }

    /// Writes one character at column `x` and row `y` of the rectangle.
    pub fn set(&self, x: usize, y: usize, ch: char, style: Style, screen: &mut Screen)
        ensures
            final(screen)@ == old(screen)@ + self.written(x, y, seq![ch], style),
    {
        let mut text: Vec<char> = Vec::new();
        text.push(ch);
        assert(text@ =~= seq![ch]);
        self.set_section(x, y, text, style, screen);
    }

    /// Writes `text` downwards from the top left cell, one character in each
    /// row.
    pub fn set_column(&self, text: &Vec<char>, style: Style, screen: &mut Screen)
        ensures
            final(screen)@ == old(screen)@ + self.column_written(text@, style),
    {
        let mut i: usize = 0;
        assert(screen@ + self.column_written(text@.take(0), style) =~= screen@);
        while i < text.len()
            invariant
                i <= text@.len(),
                screen@ == old(screen)@ + self.column_written(text@.take(i as int), style),
            decreases text@.len() - i,
        {
            self.set(0, i, text[i], style, screen);
            proof {
                let next = text@.take(i + 1);
                assert(next.drop_last() =~= text@.take(i as int));
                assert(screen@ =~= old(screen)@ + self.column_written(next, style));
            }
            i += 1;
        }
        assert(text@.take(text@.len() as int) =~= text@);
    }

    /// Fills the rows from `from` up to, not including, `to` with blanks.
    pub fn clear_rows(&self, from: usize, to: usize, style: Style, screen: &mut Screen)
        ensures
            final(screen)@ == old(screen)@ + self.rows_cleared(from, to, style),
    {
        let mut row: usize = from;
        assert(screen@ + self.rows_cleared(from, from, style) =~= screen@);
        if from >= to {
            return ;
        }
        while row < to
            invariant
                from <= row <= to,
                screen@ == old(screen)@ + self.rows_cleared(from, row, style),
            decreases to - row,
        {
            self.set_section(0, row, blank(self.width), style, screen);
            assert(screen@ =~= old(screen)@ + self.rows_cleared(from, (row + 1) as usize, style));
            row += 1;
        }
    }

    /// Writes `st` from column `x` of row `y` of the rectangle on.
    pub fn set_section(&self, x: usize, y: usize, st: Vec<char>, style: Style, screen: &mut Screen)
        ensures
            final(screen)@ == old(screen)@ + self.written(x, y, st@, style),
    {
        if x > self.width || y > self.height {
            assert(screen@ + Seq::<Drawn>::empty() =~= screen@);
            return ;
        }
        let command = DrawCommand {
            x: self.x.saturating_add(x),
            y: self.y.saturating_add(y),
            text: st,
            style,
        };
        screen.push(command);
        assert(old(screen)@.push(command@) =~= old(screen)@ + seq![command@]);
    }
}

} // verus!
