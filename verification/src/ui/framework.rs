//! The framework: the pane tree on its screen, the path of the focused leaf,
//! and the table that says which pane lies in which direction of which.

use vstd::prelude::*;
use crate::components::{Components, ComponentsView};
use crate::named_pipe::{front, polled, PipeObject, ReceiverHandle};
use crate::renderer::{Drawn, Renderer, Screen};
use crate::ui::container::{Container, ContainerType, InsertError};
use crate::ui::path::{segments, split_path};
use crate::ui::{ChangeFocusEvent, Event, InputEvent};

verus! {

/// The paths of the panes above, below, left and right of a pane, in this
/// order, where there is one.
pub type Adjacency = (Option<String>, Option<String>, Option<String>, Option<String>);

/// The least width that a tree is laid out in.
pub const MIN_WIDTH: usize = 11;

/// The path that the focus starts at.
pub const INITIAL_FOCUS: &'static str = "/WorkArea/ProjectViewer";

/// The neighbours of a pane as contracts see them.
pub struct Neighbors {
    pub up: Option<Seq<char>>,
    pub down: Option<Seq<char>>,
    pub left: Option<Seq<char>>,
    pub right: Option<Seq<char>>,
}

/// A framework as contracts see it.
pub struct FrameworkView {
    pub size: (usize, usize),
    pub tree: Option<Container>,
    pub focused_path: Seq<char>,
    pub adjacency: Map<Seq<char>, Neighbors>,
}

/// The characters of a path that may be missing.
pub open spec fn text(path: Option<String>) -> Option<Seq<char>> {
    match path {
        Some(s) => Some(s@),
        None => None,
    }
}

/// The neighbours that an entry of the table names.
pub open spec fn neighbors_of(val: Adjacency) -> Neighbors {
    Neighbors { up: text(val.0), down: text(val.1), left: text(val.2), right: text(val.3) }
}

/// The table that a list of entries stands for: a later entry replaces an
/// earlier one for the same path.
pub open spec fn table_of(entries: Seq<(String, Adjacency)>) -> Map<Seq<char>, Neighbors>
    decreases entries.len(),
{
    if entries.len() == 0 {
        Map::empty()
    } else {
        table_of(entries.drop_last()).insert(entries.last().0@, neighbors_of(entries.last().1))
    }
}

/// The neighbour in one direction.
pub open spec fn neighbor(of: Neighbors, direction: ChangeFocusEvent) -> Option<Seq<char>> {
    match direction {
        ChangeFocusEvent::Up => of.up,
        ChangeFocusEvent::Down => of.down,
        ChangeFocusEvent::Left => of.left,
        ChangeFocusEvent::Right => of.right,
    }
}

impl FrameworkView {
    /// Where the focus goes from the focused pane in `direction`: nowhere
    /// without a tree, without an entry for the focused path, or without a
    /// neighbour on that side.
    pub open spec fn target(self, direction: ChangeFocusEvent) -> Option<Seq<char>> {
        if self.tree is Some && self.adjacency.contains_key(self.focused_path) {
            neighbor(self.adjacency[self.focused_path], direction)
        } else {
            None
        }
    }

    /// The framework after the focus went to the pane at `to`: the focus flags
    /// are cleared along the old path and set along the new one, which is
    /// remembered. The layout is as it was.
    pub open spec fn refocused(self, to: Seq<char>) -> FrameworkView {
        FrameworkView {
            tree: match self.tree {
                Some(t) => Some(
                    t.with_focus(segments(self.focused_path), false).with_focus(segments(to), true),
                ),
                None => None,
            },
            focused_path: to,
            ..self
        }
    }

    /// The framework with its tree laid out on the screen that it has.
    pub open spec fn laid_out(self) -> FrameworkView {
        FrameworkView {
            tree: match self.tree {
                Some(t) => Some(t.resized(self.size.0, self.size.1)),
                None => None,
            },
            ..self
        }
    }

    /// The framework with its tree laid out on a screen of `width` by `height`
    /// cells. A width under [`MIN_WIDTH`] counts as that.
    pub open spec fn resized(self, width: usize, height: usize) -> FrameworkView {
        FrameworkView {
            size: (
                if width < MIN_WIDTH {
                    MIN_WIDTH
                } else {
                    width
                },
                height,
            ),
            ..self
        }.laid_out()
    }

    /// Why no pane can be put under the split at `path`, if none can. Without
    /// a tree nothing is put anywhere, and nothing fails.
    pub open spec fn bind_error(self, path: Seq<char>) -> Option<InsertError> {
        match self.tree {
            Some(t) => t.insert_error(segments(path)),
            None => None,
        }
    }

    /// `after` is this framework with one more pane under the split at
    /// `path`: a new pane called `name` that is what `kind` says, focused or
    /// not as `focused` says. Without a tree, `after` is this framework.
    pub open spec fn gained(
        self,
        after: FrameworkView,
        path: Seq<char>,
        name: Seq<char>,
        kind: ContainerType,
        focused: bool,
    ) -> bool {
        match self.tree {
            Some(t) => {
                &&& after.tree is Some
                &&& after == (FrameworkView { tree: after.tree, ..self })
                &&& exists|pane: Container| #[trigger]
                    pane.is_pane(name, kind, focused) && t.inserted(segments(path), pane) == Ok::<
                        Container,
                        InsertError,
                    >(after.tree.unwrap())
            },
            None => after == self,
        }
    }

    /// The views after every leaf of the tree told its view its size.
    pub open spec fn announced(self, views: ComponentsView) -> ComponentsView {
        match self.tree {
            Some(t) => t.announced(views),
            None => views,
        }
    }

    /// The views after `event` went down the tree to the focused leaf.
    pub open spec fn forwarded(self, event: InputEvent, views: ComponentsView) -> ComponentsView {
        match self.tree {
            Some(t) => t.dispatched(event, views),
            None => views,
        }
    }

    /// The framework after `event`: a request to move the focus is followed,
    /// terminal input leaves the framework as it is.
    pub open spec fn dispatched(self, event: Event) -> FrameworkView {
        match event {
            Event::ChangeFocus(direction) => self.focus_changed(direction),
            Event::Input(_) => self,
        }
    }

    /// The views after `event`: after a move of the focus every view is told
    /// its size; terminal input goes to the view of the focused leaf.
    pub open spec fn served(self, event: Event, views: ComponentsView) -> ComponentsView {
        match event {
            Event::ChangeFocus(direction) => if self.target(direction) is Some {
                self.focus_changed(direction).announced(views)
            } else {
                views
            },
            Event::Input(input) => self.forwarded(input, views),
        }
    }

    /// The framework after a request to move the focus in `direction`: where
    /// there is a neighbour the focus goes there and the tree is laid out
    /// again, else nothing changes.
    pub open spec fn focus_changed(self, direction: ChangeFocusEvent) -> FrameworkView {
        match self.target(direction) {
            Some(to) => self.refocused(to).laid_out(),
            None => self,
        }
    }

    /// The focus flags of the tree mark the way to one leaf, and the focused
    /// path is the path of that leaf.
    pub open spec fn single_focus(self) -> bool {
        self.tree matches Some(t) && t.focused_along(segments(self.focused_path))
    }
}

/// The pane tree on its screen.
pub struct Framework {
    width: usize,
    height: usize,
    container: Option<Container>,
    focused_path: String,
    path_ajac_table: Vec<(String, Adjacency)>,
}

impl View for Framework {
    type V = FrameworkView;

    closed spec fn view(&self) -> FrameworkView {
        FrameworkView {
            size: (self.width, self.height),
            tree: self.container,
            focused_path: self.focused_path@,
            adjacency: table_of(self.path_ajac_table@),
        }
    }
}

/// An entry that no later entry replaces is what the table holds for its path.
proof fn lemma_table_holds(entries: Seq<(String, Adjacency)>, i: int)
    requires
        0 <= i < entries.len(),
        forall|j: int| i < j < entries.len() ==> (#[trigger] entries[j]).0@ != entries[i].0@,
    ensures
        table_of(entries).contains_key(entries[i].0@),
        table_of(entries)[entries[i].0@] == neighbors_of(entries[i].1),
    decreases entries.len(),
{
    if i < entries.len() - 1 {
        assert(entries.last().0@ != entries[i].0@);
        lemma_table_holds(entries.drop_last(), i);
    }
}

/// A path that no entry is for has no place in the table.
proof fn lemma_table_lacks(entries: Seq<(String, Adjacency)>, key: Seq<char>)
    requires
        forall|j: int| 0 <= j < entries.len() ==> (#[trigger] entries[j]).0@ != key,
    ensures
        !table_of(entries).contains_key(key),
    decreases entries.len(),
{
    if entries.len() > 0 {
        assert(entries.last().0@ != key);
        lemma_table_lacks(entries.drop_last(), key);
    }
}

fn copy_of(path: &Option<String>) -> (r: Option<String>)
    ensures
        text(r) == text(*path),
{
    match path {
        Some(s) => Some(s.clone()),
        None => None,
    }
}

impl Framework {
    /// A framework for a screen of `width` by `height` cells. Its tree is an
    /// empty root, its table is empty, and the focus is expected at
    /// [`INITIAL_FOCUS`].
    pub fn new(width: usize, height: usize) -> (r: Framework)
        ensures
            r@.size == (width, height),
            r@.tree matches Some(t) && t.is_root(width, height),
            r@.focused_path == INITIAL_FOCUS@,
            r@.adjacency == Map::<Seq<char>, Neighbors>::empty(),
    {
        let mut framework = Framework {
            width,
            height,
            container: None,
            focused_path: String::new(),
            path_ajac_table: Vec::new(),
        };
        let size = framework.get_size();
        let root = Container::new_root(size.0, size.1);
        framework.set_container(root);
        framework.set_focused_path(INITIAL_FOCUS);
        framework
    }

    /// Remembers `path` as the path of the focused leaf. The tree is not touched.
    pub fn set_focused_path(&mut self, path: &str)
        ensures
            final(self)@ == (FrameworkView { focused_path: path@, ..old(self)@ }),
    {
        self.focused_path = path.to_owned();
    }

    /// Takes a new screen size, lays the tree out in it and tells every view
    /// its size. A width under [`MIN_WIDTH`] counts as that.
    pub fn set_size(&mut self, width: usize, height: usize, views: &mut Components)
        requires
            old(views).wf(),
        ensures
            final(views).wf(),
            final(self)@ == old(self)@.resized(width, height),
            final(views)@ == final(self)@.announced(old(views)@),
    {
        let width = if width < MIN_WIDTH {
            MIN_WIDTH
        } else {
            width
        };
        self.width = width;
        self.height = height;
        self.lay_out(views);
    }

    /// Lays the tree out on the screen that the framework has and tells every
    /// view its size.
    fn lay_out(&mut self, views: &mut Components)
        requires
            old(views).wf(),
        ensures
            final(views).wf(),
            final(self)@ == old(self)@.laid_out(),
            final(views)@ == final(self)@.announced(old(views)@),
    {
        let (width, height) = (self.width, self.height);
        match &mut self.container {
            Some(container) => {
                container.set_size(width, height);
                container.announce_size(views);
            },
            None => {},
        }
    }

    /// The tree, if the framework has one.
    pub fn get_container(&self) -> (r: Option<&Container>)
        ensures
            match r {
                Some(c) => self@.tree == Some(*c),
                None => self@.tree is None,
            },
    {
        self.container.as_ref()
    }

    /// The path that is remembered as that of the focused leaf.
    pub fn get_focused_path(&self) -> (r: &String)
        ensures
            r@ == self@.focused_path,
    {
        &self.focused_path
    }

    /// Whether the framework has a tree.
    pub fn has_container(&self) -> (r: bool)
        ensures
            r == self@.tree is Some,
    {
        self.container.is_some()
    }

    pub fn get_size(&self) -> (r: (usize, usize))
        ensures
            r == self@.size,
    {
        (self.width, self.height)
    }

    /// Makes `container` the tree.
    pub fn set_container(&mut self, container: Container)
        ensures
            final(self)@ == (FrameworkView { tree: Some(container), ..old(self)@ }),
    {
        self.container = Some(container);
    }

    /// Puts `container` under the split at `path`. Without a tree nothing
    /// happens.
    pub fn add_container(&mut self, path: &str, container: Container) -> (r: Result<
        (),
        InsertError,
    >)
        ensures
            r == match old(self)@.bind_error(path@) {
                Some(e) => Err::<(), InsertError>(e),
                None => Ok::<(), InsertError>(()),
            },
            match old(self)@.tree {
                Some(t) => match r {
                    Ok(()) => t.inserted(segments(path@), container) == Ok::<
                        Container,
                        InsertError,
                    >(final(self)@.tree.unwrap()) && final(self)@ == (FrameworkView {
                        tree: final(self)@.tree,
                        ..old(self)@
                    }) && final(self)@.tree is Some,
                    Err(e) => t.inserted(segments(path@), container) == Err::<
                        Container,
                        InsertError,
                    >(e) && final(self)@ == old(self)@,
                },
                None => r is Ok && final(self)@ == old(self)@,
            },
    {
        match &mut self.container {
            Some(cont) => {
                let path = split_path(path);
                cont.add_container(path.as_slice(), container)
            },
            None => Ok(()),
        }
    }

    /// Says which panes lie around the pane at `key`, in place of what was
    /// said of it before.
    pub fn set_adjacy(&mut self, key: String, val: Adjacency)
        ensures
            final(self)@ == (FrameworkView {
                adjacency: old(self)@.adjacency.insert(key@, neighbors_of(val)),
                ..old(self)@
            }),
    {
        let ghost before = self.path_ajac_table@;
        self.path_ajac_table.push((key, val));
        assert(self.path_ajac_table@.drop_last() =~= before);
    }

    /// The path of the neighbour of the focused pane in `direction`.
    fn target(&self, direction: ChangeFocusEvent) -> (r: Option<String>)
        ensures
            text(r) == (if self@.adjacency.contains_key(self@.focused_path) {
                neighbor(self@.adjacency[self@.focused_path], direction)
            } else {
                None
            }),
    {
        let mut i: usize = self.path_ajac_table.len();
        while i > 0
            invariant
                i <= self.path_ajac_table@.len(),
                forall|j: int|
                    i <= j < self.path_ajac_table@.len() ==> (#[trigger] self.path_ajac_table@[j]).0@
                        != self.focused_path@,
            decreases i,
        {
            i -= 1;
            if self.path_ajac_table[i].0 == self.focused_path {
                proof {
                    lemma_table_holds(self.path_ajac_table@, i as int);
                }
                let entry = &self.path_ajac_table[i].1;
                return match direction {
                    ChangeFocusEvent::Up => copy_of(&entry.0),
                    ChangeFocusEvent::Down => copy_of(&entry.1),
                    ChangeFocusEvent::Left => copy_of(&entry.2),
                    ChangeFocusEvent::Right => copy_of(&entry.3),
                };
            }
        }
        proof {
            lemma_table_lacks(self.path_ajac_table@, self.focused_path@);
        }
        None
    }

    /// Moves the focus to the pane at `path`: clears the focus flags along the
    /// focused path, sets them along `path`, and remembers `path`. The layout
    /// is left as it is.
    pub fn move_focus(&mut self, path: String)
        ensures
            final(self)@ == old(self)@.refocused(path@),
    {
        match &mut self.container {
            Some(container) => {
                let from = split_path(self.focused_path.as_str());
                let to = split_path(path.as_str());
                container.disfocus_path(from.as_slice());
                container.focus_path(to.as_slice());
            },
            None => {},
        }
        self.focused_path = path;
    }

    /// Moves the focus to the neighbour of the focused pane in `direction`,
    /// if the table names one. Tells whether it did. The layout is left as it
    /// is: lay the tree out again after a move.
    pub fn transfer(&mut self, direction: ChangeFocusEvent) -> (moved: bool)
        ensures
            moved == old(self)@.target(direction) is Some,
            final(self)@ == match old(self)@.target(direction) {
                Some(to) => old(self)@.refocused(to),
                None => old(self)@,
            },
    {
        if self.container.is_none() {
            return false;
        }
        match self.target(direction) {
            Some(to) => {
                self.move_focus(to);
                true
            },
            None => false,
        }
    }

    /// Follows a request to move the focus: moves it, lays the tree out again
    /// and tells every view its size where the focused pane has a neighbour
    /// in that direction, and does nothing where it has none.
    pub fn change_focus(&mut self, direction: ChangeFocusEvent, views: &mut Components)
        requires
            old(views).wf(),
        ensures
            final(views).wf(),
            final(self)@ == old(self)@.focus_changed(direction),
            final(views)@ == old(self)@.served(Event::ChangeFocus(direction), old(views)@),
    {
        if self.transfer(direction) {
            self.lay_out(views);
        }
    }

    /// Moves the focus or hands terminal input to the focused leaf.
    pub fn dispatch(&mut self, event: Event, views: &mut Components)
        requires
            old(views).wf(),
        ensures
            final(views).wf(),
            final(self)@ == old(self)@.dispatched(event),
            final(views)@ == old(self)@.served(event, old(views)@),
    {
        match event {
            Event::ChangeFocus(which) => {
                self.change_focus(which, views);
            },
            Event::Input(e) => {
                match &self.container {
                    Some(container) => {
                        container.dispatch(e, views);
                    },
                    None => {},
                }
            },
        }
    }

    /// Follows a request that waits in the mailbox of `requests`, if one
    /// does: takes it out, and where it asks for the focus, moves the focus to
    /// the pane at `to`, lays the tree out again and tells every view its
    /// size.
    pub fn serve_focus_request(&mut self, requests: ReceiverHandle, to: &str, views: &mut Components) -> (moved:
        bool)
        requires
            old(views).wf(),
        ensures
            final(views).wf(),
            moved == (front(old(views)@.boxes, requests.index as int) == Some(PipeObject::MoveFocus)),
            final(self)@ == if moved {
                old(self)@.refocused(to@).laid_out()
            } else {
                old(self)@
            },
            final(views)@ == ({
                let polled = ComponentsView {
                    boxes: polled(old(views)@.boxes, requests.index as int),
                    ..old(views)@
                };
                if moved {
                    final(self)@.announced(polled)
                } else {
                    polled
                }
            }),
    {
        match views.pipes.try_recv(requests) {
            Some(PipeObject::MoveFocus) => {
                self.move_focus(to.to_owned());
                self.lay_out(views);
                true
            },
            _ => false,
        }
    }

    /// Draws a frame: the whole tree on the whole screen. Returns what is to
    /// be written, and where the cursor is to be shown, if anywhere.
    pub fn render(&self, views: &mut Components) -> (r: (Screen, Option<(usize, usize)>))
        requires
            old(views).wf(),
        ensures
            final(views).wf(),
            match self@.tree {
                Some(t) => {
                    let frame = t.rendered(Renderer::whole(self@.size), old(views)@);
                    &&& final(views)@ == frame.views
                    &&& r.0@ == frame.drawn
                    &&& r.1 == if frame.cursor.0 {
                        Some(frame.cursor.1)
                    } else {
                        None
                    }
                },
                None => final(views)@ == old(views)@ && r.0@ == Seq::<Drawn>::empty() && r.1 is None,
            },
    {
        let mut screen = Screen::new();
        match &self.container {
            Some(container) => {
                let renderer = Renderer::new(0, 0, self.width, self.height);
                let location = container.render(&renderer, views, &mut screen);
                assert(Seq::<Drawn>::empty() + screen@ =~= screen@);
                if location.0 {
                    (screen, Some(location.1))
                } else {
                    (screen, None)
                }
            },
            None => (screen, None),
        }
    }
}

} // verus!
