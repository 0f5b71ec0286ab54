//! The shell pane.

use vstd::prelude::*;
use crate::components::{Components, ComponentsView};
use crate::ui::container::{Container, ContainerType, InsertError};
use crate::ui::framework::Framework;
use crate::renderer::{cleared_style, title_style, Drawn, Renderer, Screen, Style};
use crate::text::{append_chars, chars_of, fit, fitted};

verus! {

/// The shell pane. It shows which shell it stands for.
pub struct Terminal {
    shell: String,
}

impl View for Terminal {
    type V = Seq<char>;

    /// The name of the shell.
    closed spec fn view(&self) -> Seq<char> {
        self.shell@
    }
}

/// What a frame of the pane of the shell `shell` adds to the screen: the
/// title in a row as wide as the pane, and, where the pane is focused, blank
/// rows below it.
pub open spec fn terminal_drawn(shell: Seq<char>, renderer: Renderer, focused: bool) -> Seq<Drawn> {
    let size = renderer.size();
    renderer.written(0, 0, fitted("Terminal "@ + shell, size.0 as nat), title_style(focused)) + (
    if focused {
        renderer.rows_cleared(1, size.1, cleared_style())
    } else {
        Seq::empty()
    })
}

impl Terminal {
    /// The pane for the shell `shell`.
    pub fn new(shell: String) -> (r: Terminal)
        ensures
            r@ == shell@,
    {
        Terminal { shell }
    }

    /// The name of the shell.
    pub fn get_shell(&self) -> (r: &String)
        ensures
            r@ == self@,
    {
        &self.shell
    }

    /// Binds the pane to a new leaf `Terminal` directly under the root of the
    /// tree. Where the tree takes the leaf, the pane joins the views.
    pub fn bind_to(self, framework: &mut Framework, views: &mut Components) -> (r: Result<
        (),
        InsertError,
    >)
        ensures
            r == match old(framework)@.bind_error("/"@) {
                Some(e) => Err::<(), InsertError>(e),
                None => Ok::<(), InsertError>(()),
            },
            final(views).wf() == old(views).wf(),
            r is Err ==> final(framework)@ == old(framework)@ && final(views)@ == old(views)@,
            r is Ok ==> old(framework)@.gained(
                final(framework)@,
                "/"@,
                "Terminal"@,
                ContainerType::Terminal(old(views)@.terminals.len() as usize),
                false,
            ) && final(views)@ == if old(framework)@.tree is Some {
                ComponentsView { terminals: old(views)@.terminals.push(self@), ..old(views)@ }
            } else {
                old(views)@
            },
    {
        let kind = ContainerType::Terminal(views.terminals.len());
        let container = Container::with_type("Terminal", kind, false);
        let bound = framework.has_container();
        match framework.add_container("/", container) {
            Ok(()) => {
                if bound {
                    views.terminals.push(self);
                    assert(views@.terminals =~= old(views)@.terminals.push(self@));
                    assert(views@.viewers =~= old(views)@.viewers);
                }
                Ok(())
            },
            Err(e) => Err(e),
        }
    }

    /// Draws a frame of the pane into `renderer`. The pane shows no cursor.
    pub fn render(&self, renderer: &Renderer, focused: bool, screen: &mut Screen) -> (r: (
        bool,
        (usize, usize),
    ))
        ensures
            final(screen)@ == old(screen)@ + terminal_drawn(self@, *renderer, focused),
            r == (false, (0usize, 0usize)),
    {
        let size = renderer.get_size();
        let mut title = chars_of("Terminal ");
        let shell = chars_of(self.shell.as_str());
        append_chars(&mut title, &shell);
        let title = fit(title, size.0);
        renderer.set_section(0, 0, title, Style::title(focused), screen);
        if focused {
            renderer.clear_rows(1, size.1, Style::cleared(), screen);
        }
        assert(screen@ =~= old(screen)@ + terminal_drawn(self@, *renderer, focused));
        (false, (0, 0))
    }
}

} // verus!
