//! The editor pane and the buffers of open files that it shows.

use vstd::prelude::*;
use vstd::slice::{slice_subrange, slice_to_vec};
use unicode_width::{UnicodeWidthChar, UnicodeWidthStr};
use crate::named_pipe::{
    front,
    opened,
    polled,
    EditingHandle,
    Mailbox,
    NamedPipe,
    PipeObject,
    ReceiverHandle,
};
use crate::renderer::{clamped_add, text_style, title_style, Drawn, Renderer, Screen, Style};
use crate::text::{
    append_chars,
    blank,
    chars_of,
    decimal,
    decimal_of,
    fit,
    fitted,
    minus,
    rows_of,
    spaces,
    text_of,
};
use crate::components::{Components, ComponentsView};
use crate::ui::container::{clamped_sub, Container, ContainerType, InsertError};
use crate::ui::framework::Framework;
use crate::ui::{InputEvent, KeyCode};

verus! {

/// The number of columns that a character takes on the screen, or nothing
/// for a control character, as the Unicode width tables have it.
pub uninterp spec fn unicode_char_width(c: char) -> Option<usize>;

/// The number of columns that a text takes on the screen, as the Unicode
/// width tables have it.
pub uninterp spec fn unicode_str_width(text: Seq<char>) -> usize;

/// `UnicodeWidthChar::width`: the width of one character by the tables.
#[verifier::external_body]
fn char_width(c: char) -> (w: Option<usize>)
    ensures
        w == unicode_char_width(c),
{
    UnicodeWidthChar::width(c)
}

/// `UnicodeWidthStr::width` on the string of the characters of `text`: the
/// width of the text by the tables.
#[verifier::external_body]
fn str_width(text: &Vec<char>) -> (w: usize)
    ensures
        w == unicode_str_width(text@),
{
    UnicodeWidthStr::width(String::from_iter(text).as_str())
}

/// The length of the first line of `text`, its line feed included.
pub open spec fn line_len(text: Seq<char>) -> nat
    decreases text.len(),
{
    if text.len() == 0 {
        0
    } else if text[0] == '\n' {
        1
    } else {
        1 + line_len(text.skip(1))
    }
}

/// The lines of `text`. A line ends with its line feed; the last one ends
/// with the text where no line feed closes it.
pub open spec fn lines(text: Seq<char>) -> Seq<Seq<char>>
    decreases text.len(),
    via lines_decreases
{
    if text.len() == 0 {
        Seq::empty()
    } else {
        seq![text.take(line_len(text) as int)] + lines(text.skip(line_len(text) as int))
    }
}

#[via_fn]
proof fn lines_decreases(text: Seq<char>) {
    lemma_line_len_bounds(text);
}

/// A line is not longer than the text, and not empty unless the text is.
proof fn lemma_line_len_bounds(text: Seq<char>)
    ensures
        line_len(text) <= text.len(),
        text.len() > 0 ==> line_len(text) > 0,
    decreases text.len(),
{
    if text.len() > 0 && text[0] != '\n' {
        lemma_line_len_bounds(text.skip(1));
    }
}

/// A stretch that holds no line feed but at its end, and ends with one or
/// with the text, is the first line of what is left.
proof fn lemma_line_len(text: Seq<char>, from: int, to: int)
    requires
        0 <= from <= to <= text.len(),
        forall|k: int| from <= k < to - 1 ==> text[k] != '\n',
        to == text.len() || (from < to && text[to - 1] == '\n'),
    ensures
        line_len(text.skip(from)) == to - from,
    decreases to - from,
{
    if from < to {
        if text[from] == '\n' {
            assert(from == to - 1);
        } else {
            assert(text.skip(from).skip(1) =~= text.skip(from + 1));
            if from + 1 == to {
                assert(to == text.len());
            }
            lemma_line_len(text, from + 1, to);
        }
    }
}

/// The buffer of an open file: its lines, and which part of them is shown.
pub struct Editing {
    path: Vec<String>,
    buffer: Vec<Vec<char>>,
    showing_start: usize,
    showing_length: usize,
    line_start: usize,
}

/// A buffer as contracts see it.
pub struct EditingView {
    /// The segments of the file's path.
    pub path: Seq<Seq<char>>,
    /// The lines. The file's first line is at 1; at 0 stands an empty line.
    pub buffer: Seq<Seq<char>>,
    /// The line shown in the first row.
    pub showing_start: usize,
    /// How many lines are shown at most.
    pub showing_length: usize,
    /// How many columns are scrolled out to the left.
    pub line_start: usize,
}

impl View for Editing {
    type V = EditingView;

    closed spec fn view(&self) -> EditingView {
        EditingView {
            path: self.path.deep_view(),
            buffer: rows_of(self.buffer@),
            showing_start: self.showing_start,
            showing_length: self.showing_length,
            line_start: self.line_start,
        }
    }
}

impl EditingView {
    /// The lines that are shown: at most `showing_length` lines from
    /// `showing_start` on, as far as the buffer has them.
    pub open spec fn shown(self) -> Seq<Seq<char>> {
        let from = if self.showing_start <= self.buffer.len() {
            self.showing_start as int
        } else {
            self.buffer.len() as int
        };
        let to = if self.showing_start + self.showing_length <= self.buffer.len() {
            self.showing_start + self.showing_length
        } else {
            self.buffer.len() as int
        };
        self.buffer.subrange(from, to)
    }

    /// Whether the line `cursor` rows below the first shown one lies behind
    /// the last line.
    pub open spec fn past_end(self, cursor: usize) -> bool {
        self.showing_start + cursor > self.buffer.len()
    }

    /// The width on the screen of line `line`, or zero where there is none.
    pub open spec fn line_width(self, line: usize) -> usize {
        if line < self.buffer.len() {
            unicode_str_width(self.buffer[line as int])
        } else {
            0
        }
    }

    /// The buffer of a file that is not read yet.
    pub open spec fn fresh(path: Seq<Seq<char>>) -> EditingView {
        EditingView {
            path,
            buffer: seq![Seq::<char>::empty()],
            showing_start: 1,
            showing_length: 0,
            line_start: 0,
        }
    }
}

impl Editing {
    /// The buffer for the file at `path`, before the file is read: one empty
    /// line at 0, the first row showing line 1.
    pub fn new(path: Vec<String>) -> (r: Editing)
        ensures
            r@ == EditingView::fresh(path.deep_view()),
    {
        let mut buffer: Vec<Vec<char>> = Vec::new();
        buffer.push(Vec::new());
        let r = Editing { path, buffer, showing_start: 1, showing_length: 0, line_start: 0 };
        assert(r@.buffer =~= seq![Seq::<char>::empty()]);
        r
    }

    /// Appends the lines of `text`, the content of the file, to the buffer.
    pub fn load(&mut self, text: &Vec<char>)
        ensures
            final(self)@ == (EditingView {
                buffer: old(self)@.buffer + lines(text@),
                ..old(self)@
            }),
    {
        let n = text.len();
        let mut start: usize = 0;
        proof {
            assert(text@.skip(0) =~= text@);
            assert(self@.buffer + lines(text@) =~= old(self)@.buffer + lines(text@));
        }
        while start < n
            invariant
                n == text@.len(),
                start <= n,
                self@.path == old(self)@.path,
                self@.showing_start == old(self)@.showing_start,
                self@.showing_length == old(self)@.showing_length,
                self@.line_start == old(self)@.line_start,
                self@.buffer + lines(text@.skip(start as int)) == old(self)@.buffer + lines(text@),
            decreases n - start,
        {
            let mut end: usize = start;
            while end < n && text[end] != '\n'
                invariant
                    n == text@.len(),
                    start <= end <= n,
                    forall|k: int| start <= k < end ==> text@[k] != '\n',
                decreases n - end,
            {
                end += 1;
            }
            if end < n {
                end += 1;
            }
            let line = slice_to_vec(slice_subrange(text.as_slice(), start, end));
            proof {
                let rest = text@.skip(start as int);
                lemma_line_len(text@, start as int, end as int);
                assert(rest.take(end - start) =~= text@.subrange(start as int, end as int));
                assert(rest.skip(end - start) =~= text@.skip(end as int));
                assert(self@.buffer.push(line@) + lines(text@.skip(end as int)) =~= self@.buffer
                    + lines(rest));
            }
            let ghost before = self@.buffer;
            self.buffer.push(line);
            assert(self@.buffer =~= before.push(line@));
            start = end;
        }
        assert(self@.buffer + Seq::<Seq<char>>::empty() =~= self@.buffer);
    }

    /// The width on the screen of line `line`, or zero where there is none.
    pub fn len_of_line(&self, line: usize) -> (r: usize)
        ensures
            r == self@.line_width(line),
    {
        if line < self.buffer.len() {
            str_width(&self.buffer[line])
        } else {
            0
        }
    }

    /// The lines that are shown.
    pub fn get(&self) -> (r: Vec<Vec<char>>)
        ensures
            rows_of(r@) == self@.shown(),
    {
        let len = self.buffer.len();
        let from = if self.showing_start <= len {
            self.showing_start
        } else {
            len
        };
        let to = if self.showing_length <= len - from && self.showing_start <= len {
            from + self.showing_length
        } else {
            len
        };
        let mut res: Vec<Vec<char>> = Vec::new();
        let mut i: usize = from;
        while i < to
            invariant
                from <= i <= to <= len,
                len == self.buffer@.len(),
                rows_of(res@) == self@.buffer.subrange(from as int, i as int),
            decreases to - i,
        {
            let line = self.buffer[i].clone();
            let ghost before = rows_of(res@);
            res.push(line);
            assert(rows_of(res@) =~= before.push(line@));
            assert(before.push(line@) =~= self@.buffer.subrange(from as int, i + 1));
            i += 1;
        }
        res
    }

    /// The line shown in the first row.
    pub fn get_showing_start(&self) -> (r: usize)
        ensures
            r == self@.showing_start,
    {
        self.showing_start
    }

    /// How many lines are shown at most.
    pub fn get_showing_length(&self) -> (r: usize)
        ensures
            r == self@.showing_length,
    {
        self.showing_length
    }

    /// How many columns are scrolled out to the left.
    pub fn get_line_start(&self) -> (r: usize)
        ensures
            r == self@.line_start,
    {
        self.line_start
    }

    /// How many lines the buffer holds, the empty one at 0 included.
    pub fn line_count(&self) -> (r: usize)
        ensures
            r == self@.buffer.len(),
    {
        self.buffer.len()
    }

    /// The segments of the file's path.
    pub fn path(&self) -> (r: &Vec<String>)
        ensures
            r.deep_view() == self@.path,
    {
        &self.path
    }

    /// Whether the line `cursor` rows below the first shown one lies behind
    /// the last line.
    pub fn eof(&self, cursor: usize) -> (r: bool)
        ensures
            r == self@.past_end(cursor),
    {
        if self.showing_start > self.buffer.len() {
            true
        } else {
            cursor > self.buffer.len() - self.showing_start
        }
    }
}

/// A direction to scroll a buffer in.
#[derive(Clone, Copy, Debug, PartialEq, Eq, Structural)]
pub enum Scroll {
    Up,
    Down,
    Left,
    Right,
}

impl EditingView {
    /// The buffer scrolled one step: a line up, unless it shows its first
    /// line; a line down, unless the line as far below the first shown one as
    /// that is below the top lies behind the last line; two columns to the
    /// left, as far as there are any; or two columns to the right.
    pub open spec fn scrolled(self, direction: Scroll) -> EditingView {
        match direction {
            Scroll::Up => if self.showing_start > 1 {
                EditingView { showing_start: (self.showing_start - 1) as usize, ..self }
            } else {
                self
            },
            Scroll::Down => if !self.past_end(self.showing_start) {
                EditingView { showing_start: (self.showing_start + 1) as usize, ..self }
            } else {
                self
            },
            Scroll::Left => EditingView { line_start: clamped_sub(self.line_start, 2), ..self },
            Scroll::Right => EditingView {
                line_start: if self.line_start + 2 <= usize::MAX {
                    (self.line_start + 2) as usize
                } else {
                    usize::MAX
                },
                ..self
            },
        }
    }
}

/// All buffers of open files. A buffer is named by its place in here, and
/// keeps that place.
pub struct Buffers {
    files: Vec<Editing>,
}

impl View for Buffers {
    type V = Seq<EditingView>;

    closed spec fn view(&self) -> Seq<EditingView> {
        Seq::new(self.files@.len(), |i: int| self.files@[i]@)
    }
}

impl Buffers {
    /// No buffers.
    pub fn new() -> (r: Buffers)
        ensures
            r@ == Seq::<EditingView>::empty(),
    {
        let r = Buffers { files: Vec::new() };
        assert(r@ =~= Seq::<EditingView>::empty());
        r
    }

    /// How many buffers there are.
    pub fn len(&self) -> (n: usize)
        ensures
            n == self@.len(),
    {
        self.files.len()
    }

    /// Takes a buffer in and names it.
    pub fn add(&mut self, editing: Editing) -> (handle: EditingHandle)
        ensures
            final(self)@ == old(self)@.push(editing@),
            handle.index == old(self)@.len(),
    {
        let index = self.files.len();
        self.files.push(editing);
        assert(self@ =~= old(self)@.push(editing@));
        EditingHandle { index }
    }

    /// The buffer that `handle` names, if it names one.
    pub fn get(&self, handle: EditingHandle) -> (r: Option<&Editing>)
        ensures
            match r {
                Some(e) => handle.index < self@.len() && e@ == self@[handle.index as int],
                None => handle.index >= self@.len(),
            },
    {
        if handle.index < self.files.len() {
            Some(&self.files[handle.index])
        } else {
            None
        }
    }

    /// Appends the lines of `text` to the buffer that `handle` names. Without
    /// such a buffer nothing happens.
    pub fn load(&mut self, handle: EditingHandle, text: &Vec<char>)
        ensures
            final(self)@ == if handle.index < old(self)@.len() {
                old(self)@.update(
                    handle.index as int,
                    EditingView {
                        buffer: old(self)@[handle.index as int].buffer + lines(text@),
                        ..old(self)@[handle.index as int]
                    },
                )
            } else {
                old(self)@
            },
    {
        if handle.index < self.files.len() {
            self.files[handle.index].load(text);
            assert(self@ =~= old(self)@.update(
                handle.index as int,
                EditingView {
                    buffer: old(self)@[handle.index as int].buffer + lines(text@),
                    ..old(self)@[handle.index as int]
                },
            ));
        }
    }

    /// Scrolls the buffer that `handle` names by one step. Without such a
    /// buffer nothing happens.
    pub fn scroll(&mut self, handle: EditingHandle, direction: Scroll)
        ensures
            final(self)@ == if handle.index < old(self)@.len() {
                old(self)@.update(
                    handle.index as int,
                    old(self)@[handle.index as int].scrolled(direction),
                )
            } else {
                old(self)@
            },
    {
        if handle.index >= self.files.len() {
            return ;
        }
        let file = &mut self.files[handle.index];
        match direction {
            Scroll::Up => {
                if file.showing_start > 1 {
                    file.showing_start -= 1;
                }
            },
            Scroll::Down => {
                let start = file.showing_start;
                let len = file.buffer.len();
                if !file.eof(start) {
                    assert(start + start <= len);
                    file.showing_start += 1;
                }
            },
            Scroll::Left => {
                file.line_start = file.line_start.saturating_sub(2);
            },
            Scroll::Right => {
                file.line_start = file.line_start.saturating_add(2);
            },
        }
        assert(self@ =~= old(self)@.update(
            handle.index as int,
            old(self)@[handle.index as int].scrolled(direction),
        ));
    }

    /// Says how many lines the buffer that `handle` names shows at most.
    /// Without such a buffer nothing happens.
    pub fn set_showing_length(&mut self, handle: EditingHandle, rows: usize)
        ensures
            final(self)@ == if handle.index < old(self)@.len() {
                old(self)@.update(
                    handle.index as int,
                    EditingView { showing_length: rows, ..old(self)@[handle.index as int] },
                )
            } else {
                old(self)@
            },
    {
        if handle.index < self.files.len() {
            self.files[handle.index].showing_length = rows;
            assert(self@ =~= old(self)@.update(
                handle.index as int,
                EditingView { showing_length: rows, ..old(self)@[handle.index as int] },
            ));
        }
    }
}

/// What the arrow keys do in an editor pane.
#[derive(Clone, Copy, Debug, PartialEq, Eq, Structural)]
pub enum EditorMode {
    /// The arrow keys scroll the text.
    Command,
    /// The arrow keys move the cursor.
    Edit,
}

/// An editor pane: which file it shows, and where its cursor is.
#[derive(Clone, Copy, Debug)]
pub struct Editor {
    pub(crate) id: usize,
    pub(crate) file: Option<EditingHandle>,
    pub(crate) mode: EditorMode,
    /// Where the files to show arrive. The editor shows the one that it
    /// received last.
    pub(crate) file_open_receiver: ReceiverHandle,
    /// The row below the last line of text in the frame drawn last.
    pub(crate) last_rh: usize,
    /// Column and row of the cursor in the pane.
    pub(crate) cursor: (usize, usize),
}

/// The name of the mailbox in which editor `id` receives files.
pub open spec fn file_open_name(id: usize) -> Seq<char> {
    "FileOpen"@ + decimal(id as nat)
}

/// The name of the pane of editor `id`.
pub open spec fn editor_name(id: usize) -> Seq<char> {
    "Editor"@ + decimal(id as nat)
}

/// Writes `prefix` and the number `id` behind it.
pub fn numbered(prefix: &str, id: usize) -> (r: String)
    ensures
        r@ == prefix@ + decimal(id as nat),
{
    let mut chars = chars_of(prefix);
    let digits = decimal_of(id);
    append_chars(&mut chars, &digits);
    text_of(&chars)
}

impl Editor {
    /// An editor that shows no file and takes commands, its cursor in the
    /// first row below the title.
    pub open(crate) spec fn fresh(id: usize, receiver: ReceiverHandle) -> Editor {
        Editor {
            id,
            file: None,
            mode: EditorMode::Command,
            file_open_receiver: receiver,
            last_rh: 0,
            cursor: (0, 1),
        }
    }

    /// Where the editor receives the files to show.
    pub open(crate) spec fn receiver(self) -> ReceiverHandle {
        self.file_open_receiver
    }

    /// The place of the buffer that the editor shows, if it shows one.
    pub open(crate) spec fn shown_file(self, files: Seq<EditingView>) -> Option<int> {
        match self.file {
            Some(h) => if h.index < files.len() {
                Some(h.index as int)
            } else {
                None
            },
            None => None,
        }
    }

    /// The buffers after the shown one was scrolled `count` steps.
    pub open(crate) spec fn scrolled(
        self,
        files: Seq<EditingView>,
        direction: Scroll,
        count: nat,
    ) -> Seq<EditingView>
        decreases count,
    {
        if count == 0 {
            files
        } else {
            match self.shown_file(files) {
                Some(i) => self.scrolled(
                    files.update(i, files[i].scrolled(direction)),
                    direction,
                    (count - 1) as nat,
                ),
                None => files,
            }
        }
    }

    /// The same editor with its cursor elsewhere.
    pub open(crate) spec fn with_cursor(self, column: usize, row: usize) -> Editor {
        Editor { cursor: (column, row), ..self }
    }

    /// The same editor in another mode.
    pub open(crate) spec fn with_mode(self, mode: EditorMode) -> Editor {
        Editor { mode, ..self }
    }

    /// The line of the buffer that the cursor is in.
    pub open(crate) spec fn cursor_line(self, file: EditingView) -> usize {
        clamped_sub(
            if file.showing_start + self.cursor.1 > usize::MAX {
                usize::MAX
            } else {
                (file.showing_start + self.cursor.1) as usize
            },
            1,
        )
    }

    /// How many columns of the cursor's line are left of what is scrolled out:
    /// the width of the line less the columns scrolled out, zero without a
    /// file.
    pub open(crate) spec fn room(self, files: Seq<EditingView>) -> usize {
        match self.shown_file(files) {
            Some(i) => clamped_sub(
                files[i].line_width(self.cursor_line(files[i])),
                files[i].line_start,
            ),
            None => 0,
        }
    }

    /// Editor and buffers after the up key.
    pub open(crate) spec fn moved_up(self, files: Seq<EditingView>) -> (Editor, Seq<EditingView>) {
        if self.mode == EditorMode::Edit && self.cursor.1 > 1 {
            (self.with_cursor(self.cursor.0, (self.cursor.1 - 1) as usize), files)
        } else {
            (self, self.scrolled(files, Scroll::Up, 1))
        }
    }

    /// Editor and buffers after the down key in a pane of size `contsize`.
    pub open(crate) spec fn moved_down(self, contsize: (usize, usize), files: Seq<EditingView>) -> (
        Editor,
        Seq<EditingView>,
    ) {
        if self.mode == EditorMode::Edit && self.cursor.1 < clamped_sub(contsize.1, 1) {
            if self.cursor.1 < self.last_rh {
                (self.with_cursor(self.cursor.0, (self.cursor.1 + 1) as usize), files)
            } else {
                (self, files)
            }
        } else {
            (self, self.scrolled(files, Scroll::Down, 1))
        }
    }

    /// Editor and buffers after the left key in a pane of size `contsize`,
    /// where `room` columns of the cursor's line are left of what is scrolled
    /// out.
    pub open(crate) spec fn stepped_left(
        self,
        contsize: (usize, usize),
        room: usize,
        files: Seq<EditingView>,
    ) -> (Editor, Seq<EditingView>) {
        match self.mode {
            EditorMode::Command => (
                if self.cursor.0 < contsize.0 {
                    self.with_cursor(
                        if self.cursor.0 + 1 == contsize.0 {
                            (self.cursor.0 + 1) as usize
                        } else {
                            (self.cursor.0 + 2) as usize
                        },
                        self.cursor.1,
                    )
                } else {
                    self
                },
                self.scrolled(files, Scroll::Left, 1),
            ),
            EditorMode::Edit => if self.cursor.0 > 0 {
                (
                    self.with_cursor(
                        if self.cursor.0 > room {
                            room
                        } else {
                            (self.cursor.0 - 1) as usize
                        },
                        self.cursor.1,
                    ),
                    files,
                )
            } else {
                (self, self.scrolled(files, Scroll::Left, 1))
            },
        }
    }

    /// Editor and buffers after the right key in a pane of size `contsize`,
    /// where `room` columns of the cursor's line are left of what is scrolled
    /// out.
    pub open(crate) spec fn stepped_right(
        self,
        contsize: (usize, usize),
        room: usize,
        files: Seq<EditingView>,
    ) -> (Editor, Seq<EditingView>) {
        match self.mode {
            EditorMode::Command => (
                if self.cursor.0 > 0 {
                    self.with_cursor(
                        if self.cursor.0 == 1 {
                            0
                        } else {
                            (self.cursor.0 - 2) as usize
                        },
                        self.cursor.1,
                    )
                } else {
                    self
                },
                self.scrolled(files, Scroll::Right, 1),
            ),
            EditorMode::Edit => if self.cursor.0 < clamped_sub(contsize.0, 1) {
                if self.cursor.0 < room {
                    (self.with_cursor((self.cursor.0 + 1) as usize, self.cursor.1), files)
                } else {
                    (self, files)
                }
            } else if self.shown_file(files) is Some && self.cursor.0 < clamped_sub(room, 1) {
                (self, self.scrolled(files, Scroll::Right, 1))
            } else {
                (self, files)
            },
        }
    }

    /// Editor and buffers after `event` arrived at the pane, `contsize` large.
    /// A key without modifiers counts: the arrows move or scroll, escape
    /// leaves the edit mode and `e` enters it.
    pub open(crate) spec fn handled(
        self,
        event: InputEvent,
        contsize: (usize, usize),
        files: Seq<EditingView>,
    ) -> (Editor, Seq<EditingView>) {
        match event {
            InputEvent::Key(key) => if key.modifiers.is_none() {
                match key.code {
                    KeyCode::Up => self.moved_up(files),
                    KeyCode::Down => self.moved_down(contsize, files),
                    KeyCode::Left => self.stepped_left(contsize, self.room(files), files),
                    KeyCode::Right => self.stepped_right(contsize, self.room(files), files),
                    KeyCode::Esc => (self.with_mode(EditorMode::Command), files),
                    KeyCode::Char(c) => if c == 'e' {
                        (self.with_mode(EditorMode::Edit), files)
                    } else {
                        (self, files)
                    },
                    _ => (self, files),
                }
            } else {
                (self, files)
            },
            _ => (self, files),
        }
    }

    /// Editor number `id`: it shows no file, takes commands, and receives
    /// files in the mailbox [`file_open_name`]`(id)`, which is made where it is
    /// not there yet.
    pub fn new(id: usize, pipes: &mut NamedPipe) -> (r: Editor)
        requires
            old(pipes).wf(),
        ensures
            final(pipes).wf(),
            final(pipes)@ == opened(old(pipes)@, file_open_name(id)),
            r.receiver().index < final(pipes)@.len(),
            final(pipes)@[r.receiver().index as int].name == file_open_name(id),
            r == Editor::fresh(id, r.receiver()),
    {
        let receiver = pipes.open_receiver(numbered("FileOpen", id));
        Editor {
            id,
            file: None,
            mode: EditorMode::Command,
            file_open_receiver: receiver,
            last_rh: 0,
            cursor: (0, 1),
        }
    }

    /// The editor's number.
    pub open(crate) spec fn number(self) -> usize {
        self.id
    }

    /// The editor's number.
    pub fn get_id(&self) -> (r: usize)
        ensures
            r == self.number(),
    {
        self.id
    }

    /// Column and row of the cursor in the pane.
    pub open(crate) spec fn cursor_place(self) -> (usize, usize) {
        self.cursor
    }

    /// Column and row of the cursor in the pane.
    pub fn get_cursor(&self) -> (r: (usize, usize))
        ensures
            r == self.cursor_place(),
    {
        self.cursor
    }

    /// What the arrow keys do.
    pub open(crate) spec fn current_mode(self) -> EditorMode {
        self.mode
    }

    /// What the arrow keys do.
    pub fn get_mode(&self) -> (r: EditorMode)
        ensures
            r == self.current_mode(),
    {
        self.mode
    }

    /// The buffer that the editor shows, if it shows one.
    pub open(crate) spec fn shown_buffer(self) -> Option<EditingHandle> {
        self.file
    }

    /// The buffer that the editor shows, if it shows one.
    pub fn get_file(&self) -> (r: Option<EditingHandle>)
        ensures
            r == self.shown_buffer(),
    {
        self.file
    }

    /// Where the editor receives the files to show.
    pub fn get_receiver(&self) -> (r: ReceiverHandle)
        ensures
            r == self.receiver(),
    {
        self.file_open_receiver
    }

    /// Binds the editor to a new leaf, called by [`editor_name`], in the
    /// editor area of the tree. Where the tree takes the leaf, the editor
    /// joins the views.
    pub fn bind_to(self, framework: &mut Framework, views: &mut Components) -> (r: Result<
        (),
        InsertError,
    >)
        ensures
            r == match old(framework)@.bind_error("/WorkArea/EditorArea"@) {
                Some(e) => Err::<(), InsertError>(e),
                None => Ok::<(), InsertError>(()),
            },
            final(views).wf() == old(views).wf(),
            r is Err ==> final(framework)@ == old(framework)@ && final(views)@ == old(views)@,
            r is Ok ==> old(framework)@.gained(
                final(framework)@,
                "/WorkArea/EditorArea"@,
                editor_name(self.number()),
                ContainerType::Editor(old(views)@.editors.len() as usize),
                false,
            ) && final(views)@ == if old(framework)@.tree is Some {
                ComponentsView { editors: old(views)@.editors.push(self), ..old(views)@ }
            } else {
                old(views)@
            },
    {
        let kind = ContainerType::Editor(views.editors.len());
        let name = numbered("Editor", self.id);
        let container = Container::with_type(name.as_str(), kind, false);
        let bound = framework.has_container();
        match framework.add_container("/WorkArea/EditorArea", container) {
            Ok(()) => {
                if bound {
                    views.editors.push(self);
                    assert(views@.terminals =~= old(views)@.terminals);
                    assert(views@.viewers =~= old(views)@.viewers);
                }
                Ok(())
            },
            Err(e) => Err(e),
        }
    }

    /// The number of columns of the cursor's line that are left of what is
    /// scrolled out.
    fn line_room(&self, files: &Buffers) -> (r: usize)
        ensures
            r == self.room(files@),
    {
        match self.file {
            Some(h) => match files.get(h) {
                Some(f) => {
                    let line = f.showing_start.saturating_add(self.cursor.1).saturating_sub(1);
                    f.len_of_line(line).saturating_sub(f.line_start)
                },
                None => 0,
            },
            None => 0,
        }
    }

    /// Scrolls the shown buffer `count` steps.
    fn scroll(&self, direction: Scroll, count: usize, files: &mut Buffers)
        ensures
            final(files)@ == self.scrolled(old(files)@, direction, count as nat),
    {
        let mut i: usize = 0;
        while i < count
            invariant
                i <= count,
                self.scrolled(files@, direction, (count - i) as nat) == self.scrolled(
                    old(files)@,
                    direction,
                    count as nat,
                ),
            decreases count - i,
        {
            match self.file {
                Some(h) => {
                    files.scroll(h, direction);
                },
                None => {},
            }
            i += 1;
        }
    }

    fn scroll_up(&self, count: usize, files: &mut Buffers)
        ensures
            final(files)@ == self.scrolled(old(files)@, Scroll::Up, count as nat),
    {
        self.scroll(Scroll::Up, count, files)
    }

    fn scroll_down(&self, count: usize, files: &mut Buffers)
        ensures
            final(files)@ == self.scrolled(old(files)@, Scroll::Down, count as nat),
    {
        self.scroll(Scroll::Down, count, files)
    }

    fn scroll_left(&self, count: usize, files: &mut Buffers)
        ensures
            final(files)@ == self.scrolled(old(files)@, Scroll::Left, count as nat),
    {
        self.scroll(Scroll::Left, count, files)
    }

    fn scroll_right(&self, count: usize, files: &mut Buffers)
        ensures
            final(files)@ == self.scrolled(old(files)@, Scroll::Right, count as nat),
    {
        self.scroll(Scroll::Right, count, files)
    }

    /// The up key: in edit mode the cursor goes up a row, from the first row
    /// on the text scrolls; in command mode the text scrolls.
    pub fn cursor_up(&mut self, _contsize: (usize, usize), files: &mut Buffers)
        ensures
            (*final(self), final(files)@) == old(self).moved_up(old(files)@),
    {
        match self.mode {
            EditorMode::Command => {
                self.scroll_up(1, files);
            },
            EditorMode::Edit => {
                if self.cursor.1 > 1 {
                    self.cursor.1 -= 1;
                } else {
                    self.scroll_up(1, files);
                }
            },
        }
    }

    /// The down key: in edit mode the cursor goes down a row as far as there
    /// is text, from the last row on the text scrolls; in command mode the
    /// text scrolls.
    pub fn cursor_down(&mut self, contsize: (usize, usize), files: &mut Buffers)
        ensures
            (*final(self), final(files)@) == old(self).moved_down(contsize, old(files)@),
    {
        match self.mode {
            EditorMode::Command => {
                self.scroll_down(1, files);
            },
            EditorMode::Edit => {
                if self.cursor.1 < contsize.1.saturating_sub(1) {
                    if self.cursor.1 < self.last_rh {
                        self.cursor.1 += 1;
                    }
                } else {
                    self.scroll_down(1, files);
                }
            },
        }
    }

    /// The left key, where `room` columns of the cursor's line are left of
    /// what is scrolled out.
    pub fn step_left(&mut self, contsize: (usize, usize), room: usize, files: &mut Buffers)
        ensures
            (*final(self), final(files)@) == old(self).stepped_left(contsize, room, old(files)@),
    {
        match self.mode {
            EditorMode::Command => {
                self.scroll_left(1, files);
                if self.cursor.0 < contsize.0 {
                    self.cursor.0 += if self.cursor.0 + 1 == contsize.0 {
                        1
                    } else {
                        2
                    };
                }
            },
            EditorMode::Edit => {
                if self.cursor.0 > 0 {
                    if self.cursor.0 > room {
                        self.cursor.0 = room;
                    } else {
                        self.cursor.0 -= 1;
                    }
                } else {
                    self.scroll_left(1, files);
                }
            },
        }
    }

    /// The right key, where `room` columns of the cursor's line are left of
    /// what is scrolled out.
    pub fn step_right(&mut self, contsize: (usize, usize), room: usize, files: &mut Buffers)
        ensures
            (*final(self), final(files)@) == old(self).stepped_right(contsize, room, old(files)@),
    {
        match self.mode {
            EditorMode::Command => {
                self.scroll_right(1, files);
                if self.cursor.0 > 0 {
                    self.cursor.0 -= if self.cursor.0 == 1 {
                        1
                    } else {
                        2
                    };
                }
            },
            EditorMode::Edit => {
                if self.cursor.0 < contsize.0.saturating_sub(1) {
                    if self.cursor.0 < room {
                        self.cursor.0 += 1;
                    }
                } else {
                    let present = match self.file {
                        Some(h) => h.index < files.len(),
                        None => false,
                    };
                    if present && self.cursor.0 < room.saturating_sub(1) {
                        self.scroll_right(1, files);
                    }
                }
            },
        }
    }

    /// The left key: in edit mode the cursor goes a column to the left, or to
    /// the end of its line where it stands behind that, and from the first
    /// column on the text scrolls; in command mode the text scrolls.
    pub fn cursor_left(&mut self, contsize: (usize, usize), files: &mut Buffers)
        ensures
            (*final(self), final(files)@) == old(self).stepped_left(
                contsize,
                old(self).room(old(files)@),
                old(files)@,
            ),
    {
        let room = self.line_room(files);
        self.step_left(contsize, room, files);
    }

    /// The right key: in edit mode the cursor goes a column to the right as
    /// far as its line goes, and from the last column on the text scrolls; in
    /// command mode the text scrolls.
    pub fn cursor_right(&mut self, contsize: (usize, usize), files: &mut Buffers)
        ensures
            (*final(self), final(files)@) == old(self).stepped_right(
                contsize,
                old(self).room(old(files)@),
                old(files)@,
            ),
    {
        let room = self.line_room(files);
        self.step_right(contsize, room, files);
    }

    /// Takes an input event for the pane, which is `contsize` large.
    pub fn handle(&mut self, event: InputEvent, contsize: (usize, usize), files: &mut Buffers)
        ensures
            (*final(self), final(files)@) == old(self).handled(event, contsize, old(files)@),
    {
        match event {
            InputEvent::Key(key) => {
                if key.modifiers.is_empty() {
                    match key.code {
                        KeyCode::Up => {
                            self.cursor_up(contsize, files);
                        },
                        KeyCode::Down => {
                            self.cursor_down(contsize, files);
                        },
                        KeyCode::Left => {
                            self.cursor_left(contsize, files);
                        },
                        KeyCode::Right => {
                            self.cursor_right(contsize, files);
                        },
                        KeyCode::Esc => {
                            self.mode = EditorMode::Command;
                        },
                        KeyCode::Char(c) => {
                            if c == 'e' {
                                self.mode = EditorMode::Edit;
                            }
                        },
                        _ => {},
                    }
                }
            },
            _ => {},
        }
    }
}

/// The number of columns that a character takes in a row of text: its width
/// by the tables, none for a control character.
pub open spec fn cell(c: char) -> usize {
    match unicode_char_width(c) {
        Some(w) => w,
        None => 0,
    }
}

/// The columns that each character of `line` takes.
pub open spec fn cells_of(line: Seq<char>) -> Seq<usize> {
    Seq::new(line.len(), |i: int| cell(line[i]))
}

/// How many characters at the start of a line are scrolled out where
/// `line_start` columns are: as many as it takes to fill those columns,
/// `filled` of which are filled already.
pub open spec fn skipped(cells: Seq<usize>, line_start: usize, filled: usize) -> nat
    decreases cells.len(),
{
    if cells.len() == 0 || filled >= line_start {
        0
    } else {
        1 + skipped(cells.skip(1), line_start, clamped_add(filled, cells[0]))
    }
}

/// What a row `width` columns wide shows of `line`, `filled` columns being
/// filled already: the characters up to the one that fills the row, and
/// blanks where the line ends before the row does.
pub open spec fn visible(line: Seq<char>, cells: Seq<usize>, width: usize, filled: usize) -> Seq<
    char,
>
    decreases line.len(),
{
    if filled >= width {
        Seq::empty()
    } else if line.len() == 0 || cells.len() == 0 {
        spaces((width - filled) as nat)
    } else {
        seq![line[0]] + visible(line.skip(1), cells.skip(1), width, clamped_add(filled, cells[0]))
    }
}

/// What a row `width` columns wide shows of `line` where `line_start` columns
/// are scrolled out, the characters taking the columns that `cells` says.
pub open spec fn clipped(line: Seq<char>, cells: Seq<usize>, line_start: usize, width: usize) -> Seq<
    char,
> {
    let n = skipped(cells, line_start, 0) as int;
    visible(line.skip(n), cells.skip(n), width, 0)
}

/// A line without the line feed at its end.
pub open spec fn without_feed(line: Seq<char>) -> Seq<char> {
    if line.len() > 0 && line.last() == '\n' {
        line.drop_last()
    } else {
        line
    }
}

/// What a row `width` columns wide shows of a line of a buffer where
/// `line_start` columns are scrolled out.
pub open spec fn displayed(line: Seq<char>, line_start: usize, width: usize) -> Seq<char> {
    clipped(without_feed(line), cells_of(without_feed(line)), line_start, width)
}

/// The word that the title row shows for a mode.
pub open spec fn mode_name(mode: EditorMode) -> Seq<char> {
    match mode {
        EditorMode::Command => "Command"@,
        EditorMode::Edit => "Editing"@,
    }
}

/// The title row of an editor `size` large: the title, and the mode's name at
/// the end of the row. A title that leaves no room for the mode's name and a
/// blank before it is cut to as many characters as the pane has rows, less
/// the length of the mode's name and one; a title that leaves more room is
/// filled up with blanks.
pub open spec fn title_bar(title: Seq<char>, mode: Seq<char>, size: (usize, usize)) -> Seq<char> {
    let room = minus(minus(size.0 as nat, mode.len()), 1);
    let kept = minus(minus(size.1 as nat, mode.len()), 1);
    let cut = if title.len() > room {
        if kept < title.len() {
            title.take(kept as int)
        } else {
            title
        }
    } else {
        title
    };
    let filled = if cut.len() < room {
        cut + spaces(minus(minus(size.0 as nat, cut.len()), mode.len()))
    } else {
        cut
    };
    filled + mode
}

/// What drawing the title adds to a frame. An unfocused pane one column wide
/// writes the title downwards; any other writes the title row.
pub open spec fn title_drawn(
    renderer: Renderer,
    focused: bool,
    title: Seq<char>,
    mode: Seq<char>,
) -> Seq<Drawn> {
    if !focused && renderer.size().0 == 1 {
        renderer.column_written(fitted(title, renderer.size().1 as nat), title_style(false))
    } else {
        renderer.written(0, 0, title_bar(title, mode, renderer.size()), title_style(focused))
    }
}

/// What drawing the lines `rows` below the title adds to a frame, where
/// `line_start` columns are scrolled out and the cursor is in row
/// `cursor_row`.
pub open spec fn text_rows(
    renderer: Renderer,
    rows: Seq<Seq<char>>,
    line_start: usize,
    cursor_row: usize,
) -> Seq<Drawn>
    decreases rows.len(),
{
    if rows.len() == 0 {
        Seq::empty()
    } else {
        text_rows(renderer, rows.drop_last(), line_start, cursor_row) + renderer.written(
            0,
            rows.len() as usize,
            displayed(rows.last(), line_start, renderer.size().0),
            text_style(rows.len() == cursor_row),
        )
    }
}

/// The column that the cursor is shown in: its own, but not behind the end of
/// the line that it is in.
pub open spec fn settled_column(
    column: usize,
    rows: Seq<Seq<char>>,
    line_start: usize,
    cursor_row: usize,
) -> usize {
    if 1 <= cursor_row <= rows.len() {
        let len = rows[cursor_row - 1].len();
        if len > line_start && column > len - line_start {
            (len - line_start) as usize
        } else if len <= line_start && column > 0 {
            0
        } else {
            column
        }
    } else {
        column
    }
}

/// The last of `path`, or nothing where there is none.
pub open spec fn last_or_empty(path: Seq<Seq<char>>) -> Seq<char> {
    if path.len() > 0 {
        path.last()
    } else {
        Seq::empty()
    }
}

/// What drawing the text of an editor leaves behind and gives.
pub struct TextFrame {
    pub editor: Editor,
    pub files: Seq<EditingView>,
    /// What the text adds to the screen.
    pub drawn: Seq<Drawn>,
    /// The column of the pane that the cursor is shown in.
    pub column: usize,
}

/// What a frame of an editor leaves behind and gives.
pub struct EditorFrame {
    pub editor: Editor,
    pub boxes: Seq<Mailbox>,
    pub files: Seq<EditingView>,
    /// What the frame adds to the screen.
    pub drawn: Seq<Drawn>,
    /// Whether the cursor is shown, and where on the screen.
    pub cursor: (bool, (usize, usize)),
}

/// What the row shows of `line` where `line_start` columns are scrolled out,
/// the characters taking the columns that `cells` says.
pub fn clip_cells(line: &Vec<char>, cells: &Vec<usize>, line_start: usize, width: usize) -> (r: Vec<
    char,
>)
    requires
        cells@.len() == line@.len(),
    ensures
        r@ == clipped(line@, cells@, line_start, width),
{
    let n = line.len();
    let mut i: usize = 0;
    let mut filled: usize = 0;
    assert(cells@.skip(0) =~= cells@);
    while i < n && filled < line_start
        invariant
            n == line@.len(),
            n == cells@.len(),
            i <= n,
            skipped(cells@, line_start, 0) == i + skipped(cells@.skip(i as int), line_start, filled),
        decreases n - i,
    {
        assert(cells@.skip(i as int).skip(1) =~= cells@.skip(i + 1));
        filled = filled.saturating_add(cells[i]);
        i += 1;
    }
    let mut out: Vec<char> = Vec::new();
    let mut j: usize = i;
    let mut taken: usize = 0;
    let ghost whole = visible(line@.skip(i as int), cells@.skip(i as int), width, 0);
    assert(out@ + whole =~= whole);
    while taken < width && j < n
        invariant
            n == line@.len(),
            n == cells@.len(),
            i <= j <= n,
            whole == out@ + visible(line@.skip(j as int), cells@.skip(j as int), width, taken),
        decreases n - j,
    {
        proof {
            assert(line@.skip(j as int).skip(1) =~= line@.skip(j + 1));
            assert(cells@.skip(j as int).skip(1) =~= cells@.skip(j + 1));
            let rest = visible(
                line@.skip(j + 1),
                cells@.skip(j + 1),
                width,
                clamped_add(taken, cells@[j as int]),
            );
            assert(out@.push(line@[j as int]) + rest =~= out@ + (seq![line@[j as int]] + rest));
        }
        taken = taken.saturating_add(cells[j]);
        out.push(line[j]);
        j += 1;
    }
    if taken < width {
        let fill = blank(width - taken);
        append_chars(&mut out, &fill);
    } else {
        assert(out@ + Seq::<char>::empty() =~= out@);
    }
    out
}

/// What a row `width` columns wide shows of a line of a buffer where
/// `line_start` columns are scrolled out.
pub fn display_line(line: &Vec<char>, line_start: usize, width: usize) -> (r: Vec<char>)
    ensures
        r@ == displayed(line@, line_start, width),
{
    let mut text: Vec<char> = Vec::new();
    append_chars(&mut text, line);
    assert(text@ =~= line@);
    if text.len() > 0 && text[text.len() - 1] == '\n' {
        text.pop();
    }
    let mut cells: Vec<usize> = Vec::new();
    let mut i: usize = 0;
    while i < text.len()
        invariant
            i <= text@.len(),
            cells@ == cells_of(text@).take(i as int),
        decreases text@.len() - i,
    {
        let w = match char_width(text[i]) {
            Some(w) => w,
            None => 0,
        };
        cells.push(w);
        assert(cells@ =~= cells_of(text@).take(i + 1));
        i += 1;
    }
    assert(cells@ =~= cells_of(text@));
    clip_cells(&text, &cells, line_start, width)
}

/// The characters of the word that the title row shows for a mode.
pub fn mode_text(mode: EditorMode) -> (r: Vec<char>)
    ensures
        r@ == mode_name(mode),
{
    match mode {
        EditorMode::Command => chars_of("Command"),
        EditorMode::Edit => chars_of("Editing"),
    }
}

/// Composes the title row of an editor `size` large.
pub fn compose_title_bar(title: Vec<char>, mode: &Vec<char>, size: (usize, usize)) -> (r: Vec<char>)
    ensures
        r@ == title_bar(title@, mode@, size),
{
    let room = size.0.saturating_sub(mode.len()).saturating_sub(1);
    let kept = size.1.saturating_sub(mode.len()).saturating_sub(1);
    let mut out = title;
    if out.len() > room {
        if kept < out.len() {
            out.truncate(kept);
            assert(out@ =~= title@.take(kept as int));
        }
    }
    if out.len() < room {
        let fill = blank(size.0.saturating_sub(out.len()).saturating_sub(mode.len()));
        append_chars(&mut out, &fill);
    }
    append_chars(&mut out, mode);
    out
}

/// Draws the title of an editor pane.
pub fn draw_title(
    renderer: &Renderer,
    focused: bool,
    title: Vec<char>,
    mode: &Vec<char>,
    screen: &mut Screen,
)
    ensures
        final(screen)@ == old(screen)@ + title_drawn(*renderer, focused, title@, mode@),
{
    let size = renderer.get_size();
    if !focused && size.0 == 1 {
        let text = fit(title, size.1);
        renderer.set_column(&text, Style::title(false), screen);
    } else {
        let text = compose_title_bar(title, mode, size);
        renderer.set_section(0, 0, text, Style::title(focused), screen);
    }
}

/// Draws the lines `rows` below the title.
pub fn draw_text(
    renderer: &Renderer,
    rows: &Vec<Vec<char>>,
    line_start: usize,
    cursor_row: usize,
    screen: &mut Screen,
)
    ensures
        final(screen)@ == old(screen)@ + text_rows(*renderer, rows_of(rows@), line_start, cursor_row),
{
    let width = renderer.get_size().0;
    let mut k: usize = 0;
    assert(screen@ + text_rows(*renderer, rows_of(rows@).take(0), line_start, cursor_row)
        =~= screen@);
    while k < rows.len()
        invariant
            k <= rows@.len(),
            width == renderer.size().0,
            screen@ == old(screen)@ + text_rows(
                *renderer,
                rows_of(rows@).take(k as int),
                line_start,
                cursor_row,
            ),
        decreases rows@.len() - k,
    {
        let text = display_line(&rows[k], line_start, width);
        let linen: usize = k + 1;
        renderer.set_section(0, linen, text, Style::text(linen == cursor_row), screen);
        proof {
            let next = rows_of(rows@).take(k + 1);
            assert(next.drop_last() =~= rows_of(rows@).take(k as int));
            assert(next.last() == rows@[k as int]@);
            assert(screen@ =~= old(screen)@ + text_rows(*renderer, next, line_start, cursor_row));
        }
        k += 1;
    }
    assert(rows_of(rows@).take(rows@.len() as int) =~= rows_of(rows@));
}

/// The column that the cursor is shown in.
pub fn settle_column(column: usize, rows: &Vec<Vec<char>>, line_start: usize, cursor_row: usize) -> (r:
    usize)
    ensures
        r == settled_column(column, rows_of(rows@), line_start, cursor_row),
{
    if 1 <= cursor_row && cursor_row <= rows.len() {
        let len = rows[cursor_row - 1].len();
        if len > line_start && column > len - line_start {
            len - line_start
        } else if len <= line_start && column > 0 {
            0
        } else {
            column
        }
    } else {
        column
    }
}

impl Editor {
    /// The editor after looking into its mailbox: it shows the file that
    /// waited there the longest, if one waited there.
    pub open(crate) spec fn received(self, boxes: Seq<Mailbox>) -> Editor {
        match front(boxes, self.file_open_receiver.index as int) {
            Some(PipeObject::Editing(h)) => Editor { file: Some(h), ..self },
            _ => self,
        }
    }

    /// The title of the pane: the name of the shown file behind a blank, or
    /// the editor's number.
    pub open(crate) spec fn title(self, files: Seq<EditingView>) -> Seq<char> {
        match self.shown_file(files) {
            Some(i) => seq![' '] + last_or_empty(files[i].path),
            None => " Editor "@ + decimal(self.id as nat),
        }
    }

    /// What drawing the text below the title leaves behind and gives. In a
    /// pane of more than one row and column the file shows its lines in as
    /// many rows as the pane has, blank rows follow them, and the editor
    /// remembers the row below the last line. A smaller pane shows no text.
    pub open(crate) spec fn text_frame(self, renderer: Renderer, files: Seq<EditingView>) -> TextFrame {
        let size = renderer.size();
        let shown = self.shown_file(files);
        if size.0 > 1 && size.1 > 1 {
            let after = match shown {
                Some(i) => files.update(i, EditingView { showing_length: size.1, ..files[i] }),
                None => files,
            };
            let rows = match shown {
                Some(i) => after[i].shown(),
                None => Seq::empty(),
            };
            let line_start = match shown {
                Some(i) => files[i].line_start,
                None => 0,
            };
            let below = clamped_add(rows.len() as usize, 1);
            TextFrame {
                editor: Editor { last_rh: below, ..self },
                files: after,
                drawn: text_rows(renderer, rows, line_start, self.cursor.1) + renderer.rows_cleared(
                    below,
                    size.1,
                    text_style(false),
                ),
                column: settled_column(self.cursor.0, rows, line_start, self.cursor.1),
            }
        } else {
            TextFrame { editor: self, files, drawn: Seq::empty(), column: self.cursor.0 }
        }
    }

    /// What a frame leaves behind and gives, drawn into `renderer`.
    ///
    /// The editor first looks into its mailbox. It draws its title and then
    /// its text. The cursor is shown at its place in the pane.
    pub open(crate) spec fn rendered(
        self,
        renderer: Renderer,
        focused: bool,
        boxes: Seq<Mailbox>,
        files: Seq<EditingView>,
    ) -> EditorFrame {
        let editor = self.received(boxes);
        let body = editor.text_frame(renderer, files);
        EditorFrame {
            editor: body.editor,
            boxes: polled(boxes, self.file_open_receiver.index as int),
            files: body.files,
            drawn: title_drawn(renderer, focused, editor.title(files), mode_name(editor.mode))
                + body.drawn,
            cursor: (
                true,
                (
                    clamped_add(body.column, renderer.origin().0),
                    clamped_add(editor.cursor.1, renderer.origin().1),
                ),
            ),
        }
    }

    /// The characters of the pane's title.
    fn title_text(&self, files: &Buffers) -> (r: Vec<char>)
        ensures
            r@ == self.title(files@),
    {
        let shown = match self.file {
            Some(h) => files.get(h),
            None => None,
        };
        match shown {
            Some(f) => {
                let mut out: Vec<char> = Vec::new();
                out.push(' ');
                let path = f.path();
                if path.len() > 0 {
                    let name = chars_of(path[path.len() - 1].as_str());
                    assert(name@ == path.deep_view().last());
                    append_chars(&mut out, &name);
                } else {
                    assert(out@ + Seq::<char>::empty() =~= out@);
                }
                assert(out@ =~= seq![' '] + last_or_empty(f@.path));
                out
            },
            None => {
                let mut out = chars_of(" Editor ");
                let digits = decimal_of(self.id);
                append_chars(&mut out, &digits);
                out
            },
        }
    }

    /// Looks into the mailbox and takes the file that waited there the
    /// longest, if one waited there.
    fn receive(&mut self, pipes: &mut NamedPipe)
        requires
            old(pipes).wf(),
        ensures
            final(pipes).wf(),
            *final(self) == old(self).received(old(pipes)@),
            final(pipes)@ == polled(old(pipes)@, old(self).file_open_receiver.index as int),
    {
        match pipes.try_recv(self.file_open_receiver) {
            Some(PipeObject::Editing(h)) => {
                self.file = Some(h);
            },
            _ => {},
        }
    }

    /// Draws the text below the title and tells the column that the cursor is
    /// shown in.
    fn draw_body(&mut self, renderer: &Renderer, files: &mut Buffers, screen: &mut Screen) -> (column:
        usize)
        ensures
            ({
                let frame = old(self).text_frame(*renderer, old(files)@);
                &&& *final(self) == frame.editor
                &&& final(files)@ == frame.files
                &&& final(screen)@ == old(screen)@ + frame.drawn
                &&& column == frame.column
            }),
    {
        let size = renderer.get_size();
        if !(size.0 > 1 && size.1 > 1) {
            assert(screen@ + Seq::<Drawn>::empty() =~= screen@);
            return self.cursor.0;
        }
        let shown = match self.file {
            Some(h) => if h.index < files.len() {
                Some(h)
            } else {
                None
            },
            None => None,
        };
        let mut column = self.cursor.0;
        let mut linen: usize = 1;
        let ghost mut drawn: Seq<Drawn> = Seq::empty();
        match shown {
            Some(h) => {
                files.set_showing_length(h, size.1);
                match files.get(h) {
                    Some(f) => {
                        let line_start = f.line_start;
                        let rows = f.get();
                        column = settle_column(column, &rows, line_start, self.cursor.1);
                        draw_text(renderer, &rows, line_start, self.cursor.1, screen);
                        linen = rows.len().saturating_add(1);
                        proof {
                            drawn = text_rows(*renderer, rows_of(rows@), line_start, self.cursor.1);
                        }
                    },
                    None => {},
                }
            },
            None => {
                assert(screen@ + Seq::<Drawn>::empty() =~= screen@);
                assert(text_rows(*renderer, Seq::empty(), 0, self.cursor.1) =~= Seq::<
                    Drawn,
                >::empty());
            },
        }
        assert(screen@ == old(screen)@ + drawn);
        self.last_rh = linen;
        renderer.clear_rows(linen, size.1, Style::text(false), screen);
        assert(screen@ =~= old(screen)@ + (drawn + renderer.rows_cleared(
            linen,
            size.1,
            text_style(false),
        )));
        column
    }

    /// Draws a frame of the pane into `renderer` and tells where the cursor is.
    pub fn render(
        &mut self,
        renderer: &Renderer,
        focused: bool,
        pipes: &mut NamedPipe,
        files: &mut Buffers,
        screen: &mut Screen,
    ) -> (r: (bool, (usize, usize)))
        requires
            old(pipes).wf(),
        ensures
            final(pipes).wf(),
            ({
                let frame = old(self).rendered(*renderer, focused, old(pipes)@, old(files)@);
                &&& *final(self) == frame.editor
                &&& final(pipes)@ == frame.boxes
                &&& final(files)@ == frame.files
                &&& final(screen)@ == old(screen)@ + frame.drawn
                &&& r == frame.cursor
            }),
    {
        self.receive(pipes);
        let title = self.title_text(files);
        let mode = mode_text(self.mode);
        draw_title(renderer, focused, title, &mode, screen);
        let row = self.cursor.1;
        let column = self.draw_body(renderer, files, screen);
        let origin = renderer.get_origin();
        assert(screen@ =~= old(screen)@ + old(self).rendered(
            *renderer,
            focused,
            old(pipes)@,
            old(files)@,
        ).drawn);
        (true, (column.saturating_add(origin.0), row.saturating_add(origin.1)))
    }
}

} // verus!
