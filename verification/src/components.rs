//! The views that can be bound to the leaves of the pane tree, and what they
//! share.

use vstd::prelude::*;
use crate::components::editor::{Buffers, Editor, EditingView};
use crate::components::project_viewer::{ProjectViewer, ProjectViewerView};
use crate::components::terminal::{terminal_drawn, Terminal};
use crate::named_pipe::{Mailbox, NamedPipe};
use crate::renderer::{Drawn, Renderer, Screen};
use crate::ui::container::ContainerType;
use crate::ui::InputEvent;

pub mod areas;
pub mod editor;
pub mod handoff_laws;
pub mod project_viewer;
pub mod terminal;

verus! {

/// All views, by kind, with the mailboxes and the buffers that they share. A
/// leaf of the pane tree names its view by kind and place.
pub struct Components {
    pub pipes: NamedPipe,
    pub files: Buffers,
    pub viewers: Vec<ProjectViewer>,
    pub terminals: Vec<Terminal>,
    pub editors: Vec<Editor>,
}

/// The views as contracts see them.
pub struct ComponentsView {
    pub boxes: Seq<Mailbox>,
    pub files: Seq<EditingView>,
    pub viewers: Seq<ProjectViewerView>,
    /// The shell of each terminal.
    pub terminals: Seq<Seq<char>>,
    pub editors: Seq<Editor>,
}

/// What a frame leaves behind and gives.
pub struct Frame {
    pub views: ComponentsView,
    /// What the frame adds to the screen.
    pub drawn: Seq<Drawn>,
    /// Whether the cursor is shown, and where on the screen.
    pub cursor: (bool, (usize, usize)),
}

/// No cursor.
pub open spec fn hidden() -> (bool, (usize, usize)) {
    (false, (0, 0))
}

/// The low sixteen bits of `n`, which is what a terminal reports of a size.
pub open spec fn low16(n: usize) -> u16 {
    (n % 0x10000) as u16
}

impl View for Components {
    type V = ComponentsView;

    open spec fn view(&self) -> ComponentsView {
        ComponentsView {
            boxes: self.pipes@,
            files: self.files@,
            viewers: Seq::new(self.viewers@.len(), |i: int| self.viewers@[i]@),
            terminals: Seq::new(self.terminals@.len(), |i: int| self.terminals@[i]@),
            editors: self.editors@,
        }
    }
}

impl ComponentsView {
    /// The views after `event` arrived at the view that a leaf of kind
    /// `kind` and of size `size` is bound to. A terminal takes no input, and
    /// a leaf that names no view has none to take it.
    pub open spec fn handled(self, kind: ContainerType, event: InputEvent, size: (usize, usize)) -> ComponentsView {
        match kind {
            ContainerType::Editor(i) => if i < self.editors.len() {
                let step = self.editors[i as int].handled(event, size, self.files);
                ComponentsView {
                    editors: self.editors.update(i as int, step.0),
                    files: step.1,
                    ..self
                }
            } else {
                self
            },
            ContainerType::ProjectViewer(i) => if i < self.viewers.len() {
                let step = self.viewers[i as int].handled(event, size, self.boxes, self.files);
                ComponentsView {
                    viewers: self.viewers.update(i as int, step.viewer),
                    boxes: step.boxes,
                    files: step.files,
                    ..self
                }
            } else {
                self
            },
            _ => self,
        }
    }

    /// What a frame of the view that a leaf of kind `kind` is bound to leaves
    /// behind and gives, drawn into `renderer`. A leaf that names no view
    /// draws nothing.
    pub open spec fn rendered(self, kind: ContainerType, renderer: Renderer, focused: bool) -> Frame {
        match kind {
            ContainerType::Editor(i) => if i < self.editors.len() {
                let frame = self.editors[i as int].rendered(
                    renderer,
                    focused,
                    self.boxes,
                    self.files,
                );
                Frame {
                    views: ComponentsView {
                        editors: self.editors.update(i as int, frame.editor),
                        boxes: frame.boxes,
                        files: frame.files,
                        ..self
                    },
                    drawn: frame.drawn,
                    cursor: frame.cursor,
                }
            } else {
                Frame { views: self, drawn: Seq::empty(), cursor: hidden() }
            },
            ContainerType::ProjectViewer(i) => if i < self.viewers.len() {
                Frame {
                    views: ComponentsView {
                        viewers: self.viewers.update(
                            i as int,
                            self.viewers[i as int].rendered(renderer, focused),
                        ),
                        ..self
                    },
                    drawn: self.viewers[i as int].drawn(renderer, focused),
                    cursor: hidden(),
                }
            } else {
                Frame { views: self, drawn: Seq::empty(), cursor: hidden() }
            },
            ContainerType::Terminal(i) => if i < self.terminals.len() {
                Frame {
                    views: self,
                    drawn: terminal_drawn(self.terminals[i as int], renderer, focused),
                    cursor: hidden(),
                }
            } else {
                Frame { views: self, drawn: Seq::empty(), cursor: hidden() }
            },
            _ => Frame { views: self, drawn: Seq::empty(), cursor: hidden() },
        }
    }
}

impl Components {
    /// The mailboxes are in order.
    pub open spec fn wf(self) -> bool {
        self.pipes.wf()
    }

    /// No views, no mailboxes, no buffers.
    pub fn new() -> (r: Components)
        ensures
            r.wf(),
            r@ == (ComponentsView {
                boxes: Seq::empty(),
                files: Seq::empty(),
                viewers: Seq::empty(),
                terminals: Seq::empty(),
                editors: Seq::empty(),
            }),
    {
        let r = Components {
            pipes: NamedPipe::new(),
            files: Buffers::new(),
            viewers: Vec::new(),
            terminals: Vec::new(),
            editors: Vec::new(),
        };
        assert(r@.viewers =~= Seq::empty());
        assert(r@.terminals =~= Seq::empty());
        r
    }

    /// Hands `event` to the view that a leaf of kind `kind` and of size
    /// `size` is bound to.
    pub fn handle(&mut self, kind: &ContainerType, event: InputEvent, size: (usize, usize))
        requires
            old(self).wf(),
        ensures
            final(self).wf(),
            final(self)@ == old(self)@.handled(*kind, event, size),
    {
        match kind {
            ContainerType::Editor(i) => {
                if *i < self.editors.len() {
                    let mut editor = self.editors[*i];
                    editor.handle(event, size, &mut self.files);
                    self.editors.set(*i, editor);
                    assert(self@.viewers =~= old(self)@.viewers);
                    assert(self@.terminals =~= old(self)@.terminals);
                }
            },
            ContainerType::ProjectViewer(i) => {
                if *i < self.viewers.len() {
                    self.viewers[*i].handle(event, size, &mut self.pipes, &mut self.files);
                    assert(self@.viewers =~= old(self)@.viewers.update(
                        *i as int,
                        self.viewers@[*i as int]@,
                    ));
                    assert(self@.terminals =~= old(self)@.terminals);
                }
            },
            _ => {},
        }
    }

    /// Draws a frame of the view that a leaf of kind `kind` is bound to into
    /// `renderer`, and tells where the view shows the cursor.
    pub fn render(
        &mut self,
        kind: &ContainerType,
        renderer: &Renderer,
        focused: bool,
        screen: &mut Screen,
    ) -> (r: (bool, (usize, usize)))
        requires
            old(self).wf(),
        ensures
            final(self).wf(),
            ({
                let frame = old(self)@.rendered(*kind, *renderer, focused);
                &&& final(self)@ == frame.views
                &&& final(screen)@ == old(screen)@ + frame.drawn
                &&& r == frame.cursor
            }),
    {
        match kind {
            ContainerType::Editor(i) => {
                if *i < self.editors.len() {
                    let mut editor = self.editors[*i];
                    let r = editor.render(
                        renderer,
                        focused,
                        &mut self.pipes,
                        &mut self.files,
                        screen,
                    );
                    self.editors.set(*i, editor);
                    assert(self@.viewers =~= old(self)@.viewers);
                    assert(self@.terminals =~= old(self)@.terminals);
                    return r;
                }
            },
            ContainerType::ProjectViewer(i) => {
                if *i < self.viewers.len() {
                    let r = self.viewers[*i].render(renderer, focused, screen);
                    assert(self@.viewers =~= old(self)@.viewers.update(
                        *i as int,
                        self.viewers@[*i as int]@,
                    ));
                    assert(self@.terminals =~= old(self)@.terminals);
                    return r;
                }
            },
            ContainerType::Terminal(i) => {
                if *i < self.terminals.len() {
                    return self.terminals[*i].render(renderer, focused, screen);
                }
            },
            _ => {},
        }
        assert(screen@ + Seq::<Drawn>::empty() =~= screen@);
        (false, (0, 0))
    }
}

} // verus!
