//! The pane tree: a binary tree whose inner nodes split their rectangle between
//! two children and whose leaves are bound to views.

use vstd::prelude::*;
use vstd::slice::slice_subrange;
use crate::components::{hidden, low16, Components, ComponentsView, Frame};
use crate::renderer::{Drawn, Renderer, Screen};
use crate::ui::InputEvent;

verus! {

/// Why a pane could not be put into the tree.
#[derive(Clone, Copy, Debug, PartialEq, Eq, Structural)]
pub enum InsertError {
    /// A segment of the path names no child of the split reached so far.
    PathNotFound,
    /// The path leads to, or through, a pane that is no split.
    NotASplit,
    /// Both slots of the split at the end of the path are taken.
    SlotsFull,
}

/// One of the two places of a split.
#[derive(Clone, Copy, Debug, PartialEq, Eq, Structural)]
pub enum Slot {
    Primary,
    Secondary,
}

/// What a pane is: a split of two panes, a leaf bound to a view, or nothing yet.
/// A leaf does not own its view: it holds the view's place among the views of
/// its kind.
pub enum ContainerType {
    /// A split. `primary` comes first along the split axis, `secondary` after it.
    /// `vert_layout` stacks the two on top of each other, otherwise they stand
    /// side by side. With `all_own` the unfocused side of the split shrinks to
    /// one cell, otherwise to a third.
    Father {
        primary: Option<Box<Container>>,
        secondary: Option<Box<Container>>,
        vert_layout: bool,
        all_own: bool,
    },
    ProjectViewer(usize),
    Terminal(usize),
    Editor(usize),
    /// No view is bound yet.
    Empty,
}

/// A rectangular region of the screen, and what fills it.
pub struct Container {
    pub(crate) name: String,
    pub(crate) x: usize,
    pub(crate) y: usize,
    pub(crate) width: usize,
    pub(crate) height: usize,
    pub(crate) focused: bool,
    pub(crate) cont_type: ContainerType,
}

/// `a - b`, or zero where `b` is the larger.
pub open spec fn clamped_sub(a: usize, b: usize) -> usize {
    if a >= b {
        (a - b) as usize
    } else {
        0
    }
}

/// How many of the `total` cells along the axis of a full split go to its
/// secondary pane. The focused side grows: an exclusive split leaves the other
/// side a single cell, any other split leaves it a third.
pub open spec fn secondary_share(total: usize, exclusive: bool, secondary_focused: bool) -> usize {
    if secondary_focused {
        if exclusive {
            clamped_sub(total, 1)
        } else {
            (total * 2 / 3) as usize
        }
    } else {
        if exclusive {
            1
        } else {
            total / 3
        }
    }
}

/// Divides the `total` cells along the axis of a full split. Returns the
/// secondary pane's share and what is left of `total` for the primary pane.
pub fn split_shares(total: usize, exclusive: bool, secondary_focused: bool) -> (r: (usize, usize))
    ensures
        r.0 == secondary_share(total, exclusive, secondary_focused),
        r.1 == clamped_sub(total, r.0),
{
    let share: usize = if secondary_focused {
        if exclusive {
            total.saturating_sub(1)
        } else {
            total / 3 * 2 + (total % 3) * 2 / 3
        }
    } else {
        if exclusive {
            1
        } else {
            total / 3
        }
    };
    (share, total.saturating_sub(share))
}

/// Whether `child` is a pane called `name`.
pub open(crate) spec fn is_named(child: Option<Box<Container>>, name: Seq<char>) -> bool {
    child matches Some(c) && c.name@ == name
}

fn has_name(child: &Option<Box<Container>>, name: &String) -> (r: bool)
    ensures
        r == is_named(*child, name@),
{
    match child {
        Some(c) => c.name == *name,
        None => false,
    }
}

impl Container {
    /// The pane's name.
    pub open(crate) spec fn label(self) -> Seq<char> {
        self.name@
    }

    /// Whether the pane lies on the way to the focused leaf.
    pub open(crate) spec fn is_focused(self) -> bool {
        self.focused
    }

    /// Width and height.
    pub open(crate) spec fn size(self) -> (usize, usize) {
        (self.width, self.height)
    }

    /// Column and row of the top left corner, counted from that of the parent.
    pub open(crate) spec fn location(self) -> (usize, usize) {
        (self.x, self.y)
    }

    /// What the pane is.
    pub open(crate) spec fn kind(self) -> ContainerType {
        self.cont_type
    }

    /// The pane is the root that a tree starts from: a focused, empty,
    /// exclusive split called `RootContainer` that stacks its children.
    pub open(crate) spec fn is_root(self, width: usize, height: usize) -> bool {
        &&& self.name@ == "RootContainer"@
        &&& self.x == 0
        &&& self.y == 0
        &&& self.width == width
        &&& self.height == height
        &&& self.focused
        &&& self.cont_type == (ContainerType::Father {
            primary: None,
            secondary: None,
            vert_layout: true,
            all_own: true,
        })
    }

    /// The same pane with another content.
    pub open(crate) spec fn with_kind(self, kind: ContainerType) -> Container {
        Container { cont_type: kind, ..self }
    }

    /// The same pane at another place.
    pub open(crate) spec fn placed(self, x: usize, y: usize) -> Container {
        Container { x, y, ..self }
    }

    /// The pane in `slot`, where this is a split and the slot is taken.
    pub open(crate) spec fn child(self, slot: Slot) -> Option<Container> {
        match self.cont_type {
            ContainerType::Father { primary, secondary, .. } => match slot {
                Slot::Primary => match primary {
                    Some(p) => Some(*p),
                    None => None,
                },
                Slot::Secondary => match secondary {
                    Some(s) => Some(*s),
                    None => None,
                },
            },
            _ => None,
        }
    }

    /// The pane reached by going down slot by slot.
    pub open(crate) spec fn at(self, position: Seq<Slot>) -> Option<Container>
        decreases position.len(),
    {
        if position.len() == 0 {
            Some(self)
        } else {
            match self.child(position[0]) {
                Some(c) => c.at(position.skip(1)),
                None => None,
            }
        }
    }

    /// The slot that a walk down a path takes for the segment `name`: that of
    /// the child called so, the secondary slot being looked at first.
    pub open(crate) spec fn slot_of(self, name: Seq<char>) -> Option<Slot> {
        match self.cont_type {
            ContainerType::Father { primary, secondary, .. } => {
                if is_named(secondary, name) {
                    Some(Slot::Secondary)
                } else if is_named(primary, name) {
                    Some(Slot::Primary)
                } else {
                    None
                }
            },
            _ => None,
        }
    }

    /// The slots that a walk down `path` goes through, up to where the path
    /// ends or a segment names no child.
    pub open(crate) spec fn route(self, path: Seq<Seq<char>>) -> Seq<Slot>
        decreases path.len(),
    {
        if path.len() == 0 {
            Seq::empty()
        } else {
            match self.slot_of(path[0]) {
                Some(slot) => seq![slot] + self.child(slot).unwrap().route(path.skip(1)),
                None => Seq::empty(),
            }
        }
    }

    /// Whether the two panes differ in nothing but their focus flags and their
    /// children.
    pub open(crate) spec fn same_but_focus(self, other: Container) -> bool {
        &&& self.name == other.name
        &&& self.x == other.x
        &&& self.y == other.y
        &&& self.width == other.width
        &&& self.height == other.height
        &&& match self.cont_type {
            ContainerType::Father { primary, secondary, vert_layout, all_own } => {
                &&& other.cont_type is Father
                &&& other.cont_type->vert_layout == vert_layout
                &&& other.cont_type->all_own == all_own
                &&& (other.cont_type->primary is Some) == (primary is Some)
                &&& (other.cont_type->secondary is Some) == (secondary is Some)
            },
            kind => other.cont_type == kind,
        }
    }

    /// No pane of the tree is focused.
    pub open(crate) spec fn unfocused(self) -> bool
        decreases self,
    {
        &&& !self.focused
        &&& match self.cont_type {
            ContainerType::Father { primary, secondary, .. } => {
                &&& primary matches Some(p) ==> p.unfocused()
                &&& secondary matches Some(s) ==> s.unfocused()
            },
            _ => true,
        }
    }

    /// The walk down `path` ends at a pane that is no split, and the focused
    /// panes of the tree are those on the way, this one included, and no
    /// others.
    pub open(crate) spec fn focused_along(self, path: Seq<Seq<char>>) -> bool
        decreases self,
    {
        &&& self.focused
        &&& match self.cont_type {
            ContainerType::Father { primary, secondary, .. } => {
                &&& path.len() > 0
                &&& if is_named(secondary, path[0]) {
                    &&& secondary.unwrap().focused_along(path.skip(1))
                    &&& primary matches Some(p) ==> p.unfocused()
                } else if is_named(primary, path[0]) {
                    &&& primary.unwrap().focused_along(path.skip(1))
                    &&& secondary matches Some(s) ==> s.unfocused()
                } else {
                    false
                }
            },
            _ => path.len() == 0,
        }
    }

    /// How many panes of the tree are focused and no split.
    pub open(crate) spec fn focused_leaves(self) -> nat
        decreases self,
    {
        match self.cont_type {
            ContainerType::Father { primary, secondary, .. } => {
                (match primary {
                    Some(p) => p.focused_leaves(),
                    None => 0,
                }) + (match secondary {
                    Some(s) => s.focused_leaves(),
                    None => 0,
                })
            },
            _ => if self.focused {
                1
            } else {
                0
            },
        }
    }

    /// The walk down `path` ends, with the path, at a pane that is no split.
    pub open(crate) spec fn leads_to_leaf(self, path: Seq<Seq<char>>) -> bool {
        self.lookup(path) matches Some(c) && !(c.cont_type is Father)
    }

    /// The pane `path` leads to. Each segment names a child of the split
    /// reached so far; the secondary slot is looked at first.
    pub open(crate) spec fn lookup(self, path: Seq<Seq<char>>) -> Option<Container>
        decreases self,
    {
        if path.len() == 0 {
            Some(self)
        } else {
            match self.cont_type {
                ContainerType::Father { primary, secondary, .. } => {
                    if is_named(secondary, path[0]) {
                        secondary.unwrap().lookup(path.skip(1))
                    } else if is_named(primary, path[0]) {
                        primary.unwrap().lookup(path.skip(1))
                    } else {
                        None
                    }
                },
                _ => None,
            }
        }
    }

    /// The tree after walking down `path` and setting the focus flag of every
    /// pane met on the way to `value`, this one included. The walk ends where
    /// the path ends or where a segment names no child; the secondary slot is
    /// looked at first.
    pub open(crate) spec fn with_focus(self, path: Seq<Seq<char>>, value: bool) -> Container
        decreases self,
    {
        if path.len() == 0 {
            Container { focused: value, ..self }
        } else {
            match self.cont_type {
                ContainerType::Father { primary, secondary, vert_layout, all_own } => {
                    if is_named(secondary, path[0]) {
                        Container {
                            focused: value,
                            cont_type: ContainerType::Father {
                                primary,
                                secondary: Some(
                                    Box::new(secondary.unwrap().with_focus(path.skip(1), value)),
                                ),
                                vert_layout,
                                all_own,
                            },
                            ..self
                        }
                    } else if is_named(primary, path[0]) {
                        Container {
                            focused: value,
                            cont_type: ContainerType::Father {
                                primary: Some(
                                    Box::new(primary.unwrap().with_focus(path.skip(1), value)),
                                ),
                                secondary,
                                vert_layout,
                                all_own,
                            },
                            ..self
                        }
                    } else {
                        Container { focused: value, ..self }
                    }
                },
                _ => Container { focused: value, ..self },
            }
        }
    }

    /// The tree laid out in a rectangle of `width` by `height` cells.
    ///
    /// A split with one child hands it the whole rectangle. A full split cuts
    /// the rectangle along its axis by [`secondary_share`]: the primary pane
    /// comes first and the secondary pane fills the rest.
    pub open(crate) spec fn resized(self, width: usize, height: usize) -> Container
        decreases self,
    {
        Container {
            width,
            height,
            cont_type: match self.cont_type {
                ContainerType::Father { primary, secondary, vert_layout, all_own } => {
                    let total = if vert_layout { height } else { width };
                    let share = secondary_share(
                        total,
                        all_own,
                        secondary matches Some(s) && s.focused,
                    );
                    let rest = clamped_sub(total, share);
                    ContainerType::Father {
                        primary: match primary {
                            Some(p) => Some(
                                Box::new(
                                    if secondary is None {
                                        p.resized(width, height).placed(0, 0)
                                    } else if vert_layout {
                                        p.resized(width, rest).placed(0, 0)
                                    } else {
                                        p.resized(rest, height).placed(0, 0)
                                    },
                                ),
                            ),
                            None => None,
                        },
                        secondary: match secondary {
                            Some(s) => Some(
                                Box::new(
                                    if primary is None {
                                        s.resized(width, height).placed(0, 0)
                                    } else if vert_layout {
                                        s.resized(width, share).placed(0, rest)
                                    } else {
                                        s.resized(share, height).placed(rest, 0)
                                    },
                                ),
                            ),
                            None => None,
                        },
                        vert_layout,
                        all_own,
                    }
                },
                other => other,
            },
            ..self
        }
    }

    /// What putting `pane` under the split at `path` gives: the new tree, or
    /// the reason why the tree stays as it is.
    ///
    /// Each segment names a child of the split reached so far, the primary
    /// slot being looked at first. At the end of the path the pane takes the
    /// secondary slot if that is free, else the primary slot.
    pub open(crate) spec fn inserted(self, path: Seq<Seq<char>>, pane: Container) -> Result<
        Container,
        InsertError,
    >
        decreases self,
    {
        match self.cont_type {
            ContainerType::Father { primary, secondary, vert_layout, all_own } => {
                if path.len() == 0 {
                    if secondary is None {
                        Ok(
                            Container {
                                cont_type: ContainerType::Father {
                                    primary,
                                    secondary: Some(Box::new(pane)),
                                    vert_layout,
                                    all_own,
                                },
                                ..self
                            },
                        )
                    } else if primary is None {
                        Ok(
                            Container {
                                cont_type: ContainerType::Father {
                                    primary: Some(Box::new(pane)),
                                    secondary,
                                    vert_layout,
                                    all_own,
                                },
                                ..self
                            },
                        )
                    } else {
                        Err(InsertError::SlotsFull)
                    }
                } else if is_named(primary, path[0]) {
                    match primary.unwrap().inserted(path.skip(1), pane) {
                        Ok(p) => Ok(
                            Container {
                                cont_type: ContainerType::Father {
                                    primary: Some(Box::new(p)),
                                    secondary,
                                    vert_layout,
                                    all_own,
                                },
                                ..self
                            },
                        ),
                        Err(e) => Err(e),
                    }
                } else if is_named(secondary, path[0]) {
                    match secondary.unwrap().inserted(path.skip(1), pane) {
                        Ok(s) => Ok(
                            Container {
                                cont_type: ContainerType::Father {
                                    primary,
                                    secondary: Some(Box::new(s)),
                                    vert_layout,
                                    all_own,
                                },
                                ..self
                            },
                        ),
                        Err(e) => Err(e),
                    }
                } else {
                    Err(InsertError::PathNotFound)
                }
            },
            _ => Err(InsertError::NotASplit),
        }
    }

    /// The views after `event` went down the tree. A split hands the event to
    /// both of its panes, the primary one first; a leaf hands it to its view
    /// if the leaf is focused, with the leaf's size.
    pub open(crate) spec fn dispatched(self, event: InputEvent, views: ComponentsView) -> ComponentsView
        decreases self,
    {
        match self.cont_type {
            ContainerType::Father { primary, secondary, .. } => {
                let after = match primary {
                    Some(p) => p.dispatched(event, views),
                    None => views,
                };
                match secondary {
                    Some(s) => s.dispatched(event, after),
                    None => after,
                }
            },
            kind => if self.focused {
                views.handled(kind, event, (self.width, self.height))
            } else {
                views
            },
        }
    }

    /// The views after every leaf told its view the size that it has, focused
    /// or not, the secondary pane of a split before the primary one.
    pub open(crate) spec fn announced(self, views: ComponentsView) -> ComponentsView
        decreases self,
    {
        match self.cont_type {
            ContainerType::Father { primary, secondary, .. } => {
                let after = match secondary {
                    Some(s) => s.announced(views),
                    None => views,
                };
                match primary {
                    Some(p) => p.announced(after),
                    None => after,
                }
            },
            kind => views.handled(
                kind,
                InputEvent::Resize(low16(self.width), low16(self.height)),
                (self.width, self.height),
            ),
        }
    }

    /// What a frame of the tree leaves behind and gives, drawn into
    /// `renderer`. A split draws each of its panes, the primary one first,
    /// into the part of `renderer` where the pane stands, and shows the
    /// cursor of the pane that is focused, or none. A leaf draws its view.
    pub open(crate) spec fn rendered(self, renderer: Renderer, views: ComponentsView) -> Frame
        decreases self,
    {
        match self.cont_type {
            ContainerType::Father { primary, secondary, .. } => {
                let first = match primary {
                    Some(p) => p.rendered(renderer.inner((p.x, p.y), (p.width, p.height)), views),
                    None => Frame { views, drawn: Seq::empty(), cursor: hidden() },
                };
                let second = match secondary {
                    Some(s) => s.rendered(
                        renderer.inner((s.x, s.y), (s.width, s.height)),
                        first.views,
                    ),
                    None => Frame { views: first.views, drawn: Seq::empty(), cursor: hidden() },
                };
                Frame {
                    views: second.views,
                    drawn: first.drawn + second.drawn,
                    cursor: if secondary matches Some(s) && s.focused {
                        second.cursor
                    } else if primary matches Some(p) && p.focused {
                        first.cursor
                    } else {
                        hidden()
                    },
                }
            },
            kind => views.rendered(kind, renderer, self.focused),
        }
    }

    /// The pane that putting a pane under `path` would put it into: each
    /// segment names a child of the split reached so far, the primary slot
    /// being looked at first.
    pub open(crate) spec fn insert_target(self, path: Seq<Seq<char>>) -> Option<Container>
        decreases self,
    {
        if path.len() == 0 {
            Some(self)
        } else {
            match self.cont_type {
                ContainerType::Father { primary, secondary, .. } => {
                    if is_named(primary, path[0]) {
                        primary.unwrap().insert_target(path.skip(1))
                    } else if is_named(secondary, path[0]) {
                        secondary.unwrap().insert_target(path.skip(1))
                    } else {
                        None
                    }
                },
                _ => None,
            }
        }
    }

    /// Why no pane can be put under the split at `path`, if none can:
    /// the path names no pane, it leads to or through a pane that is no
    /// split, or the split that it leads to has both slots taken.
    pub open(crate) spec fn insert_error(self, path: Seq<Seq<char>>) -> Option<InsertError>
        decreases self,
    {
        match self.cont_type {
            ContainerType::Father { primary, secondary, .. } => {
                if path.len() == 0 {
                    if primary is Some && secondary is Some {
                        Some(InsertError::SlotsFull)
                    } else {
                        None
                    }
                } else if is_named(primary, path[0]) {
                    primary.unwrap().insert_error(path.skip(1))
                } else if is_named(secondary, path[0]) {
                    secondary.unwrap().insert_error(path.skip(1))
                } else {
                    Some(InsertError::PathNotFound)
                }
            },
            _ => Some(InsertError::NotASplit),
        }
    }

    /// The pane is a new one: it is called `name`, has no size, stands at the
    /// origin, and is what `kind` says, focused or not as `focused` says.
    pub open(crate) spec fn is_pane(self, name: Seq<char>, kind: ContainerType, focused: bool) -> bool {
        &&& self.name@ == name
        &&& self.x == 0
        &&& self.y == 0
        &&& self.width == 0
        &&& self.height == 0
        &&& self.focused == focused
        &&& self.cont_type == kind
    }

    /// An unfocused pane of no size, with nothing bound to it.
    pub fn new(name: &str) -> (r: Container)
        ensures
            r.label() == name@,
            r.size() == (0usize, 0usize),
            r.location() == (0usize, 0usize),
            !r.is_focused(),
            r.kind() is Empty,
    {
        Container {
            name: name.to_owned(),
            x: 0,
            y: 0,
            width: 0,
            height: 0,
            focused: false,
            cont_type: ContainerType::Empty,
        }
    }

    /// A pane of no size that is what `kind` says.
    pub fn with_type(name: &str, kind: ContainerType, focused: bool) -> (r: Container)
        ensures
            r.is_pane(name@, kind, focused),
    {
        Container {
            name: name.to_owned(),
            x: 0,
            y: 0,
            width: 0,
            height: 0,
            focused,
            cont_type: kind,
        }
    }

    /// The root of a tree, `width` by `height` cells large.
    pub fn new_root(width: usize, height: usize) -> (r: Container)
        ensures
            r.is_root(width, height),
    {
        Container {
            name: "RootContainer".to_owned(),
            x: 0,
            y: 0,
            width,
            height,
            focused: true,
            cont_type: ContainerType::Father {
                primary: None,
                secondary: None,
                vert_layout: true,
                all_own: true,
            },
        }
    }

    /// The pane's name.
    pub fn get_name(&self) -> (r: &String)
        ensures
            r@ == self.label(),
    {
        &self.name
    }

    /// What the pane is.
    pub fn get_type(&self) -> (r: &ContainerType)
        ensures
            *r == self.kind(),
    {
        &self.cont_type
    }

    pub fn focused(&self) -> (r: bool)
        ensures
            r == self.is_focused(),
    {
        self.focused
    }

    pub fn get_size(&self) -> (r: (usize, usize))
        ensures
            r == self.size(),
    {
        (self.width, self.height)
    }

    pub fn get_location(&self) -> (r: (usize, usize))
        ensures
            r == self.location(),
    {
        (self.x, self.y)
    }

    /// The pane at `path`, if there is one.
    pub fn get_by_path(&self, path: &[String]) -> (r: Option<&Container>)
        ensures
            match r {
                Some(c) => self.lookup(path.deep_view()) == Some(*c),
                None => self.lookup(path.deep_view()) is None,
            },
        decreases self,
    {
        if path.len() == 0 {
            return Some(self);
        }
        match &self.cont_type {
            ContainerType::Father { primary, secondary, .. } => {
                let rest = slice_subrange(path, 1, path.len());
                proof {
                    assert(rest.deep_view() =~= path.deep_view().skip(1));
                }
                if has_name(secondary, &path[0]) {
                    match secondary {
                        Some(c) => c.get_by_path(rest),
                        None => None,
                    }
                } else if has_name(primary, &path[0]) {
                    match primary {
                        Some(c) => c.get_by_path(rest),
                        None => None,
                    }
                } else {
                    None
                }
            },
            _ => None,
        }
    }

    /// Marks this pane as lying on the way to the focused leaf.
    pub fn focus(&mut self)
        ensures
            *final(self) == old(self).with_focus(Seq::empty(), true),
    {
        self.focused = true;
    }

    /// Sets the focus flag of every pane on the way down `path`.
    pub fn focus_path(&mut self, path: &[String])
        ensures
            *final(self) == old(self).with_focus(path.deep_view(), true),
    {
        self.mark_path(path, true);
    }

    /// Clears the focus flag of every pane on the way down `path`.
    pub fn disfocus_path(&mut self, path: &[String])
        ensures
            *final(self) == old(self).with_focus(path.deep_view(), false),
    {
        self.mark_path(path, false);
    }

    fn mark_path(&mut self, path: &[String], value: bool)
        ensures
            *final(self) == old(self).with_focus(path.deep_view(), value),
        decreases *old(self),
    {
        self.focused = value;
        if path.len() == 0 {
            return ;
        }
        match &mut self.cont_type {
            ContainerType::Father { primary, secondary, .. } => {
                let rest = slice_subrange(path, 1, path.len());
                proof {
                    assert(rest.deep_view() =~= path.deep_view().skip(1));
                }
                if has_name(secondary, &path[0]) {
                    match secondary {
                        Some(c) => {
                            c.mark_path(rest, value);
                        },
                        None => {},
                    }
                } else if has_name(primary, &path[0]) {
                    match primary {
                        Some(c) => {
                            c.mark_path(rest, value);
                        },
                        None => {},
                    }
                }
            },
            _ => {},
        }
    }

    /// Makes the pane a split or binds a view to it, and lays it out again in
    /// the rectangle it has.
    pub fn set_type(&mut self, _type: ContainerType)
        ensures
            *final(self) == old(self).with_kind(_type).resized(
                old(self).size().0,
                old(self).size().1,
            ),
    {
        self.cont_type = _type;
        let (w, h) = (self.width, self.height);
        self.set_size(w, h);
    }

    /// Lays the tree out in a rectangle of `width` by `height` cells.
    pub fn set_size(&mut self, width: usize, height: usize)
        ensures
            *final(self) == old(self).resized(width, height),
        decreases *old(self),
    {
        self.width = width;
        self.height = height;
        match &mut self.cont_type {
            ContainerType::Father { primary, secondary, vert_layout, all_own } => {
                let vert = *vert_layout;
                let total = if vert { height } else { width };
                let secondary_focused = match secondary {
                    Some(s) => s.focused,
                    None => false,
                };
                let (share, rest) = split_shares(total, *all_own, secondary_focused);
                let full = primary.is_some() && secondary.is_some();
                match primary {
                    Some(p) => {
                        if !full {
                            p.set_size(width, height);
                        } else if vert {
                            p.set_size(width, rest);
                        } else {
                            p.set_size(rest, height);
                        }
                        p.set_location(0, 0);
                    },
                    None => {},
                }
                match secondary {
                    Some(s) => {
                        if !full {
                            s.set_size(width, height);
                            s.set_location(0, 0);
                        } else if vert {
                            s.set_size(width, share);
                            s.set_location(0, rest);
                        } else {
                            s.set_size(share, height);
                            s.set_location(rest, 0);
                        }
                    },
                    None => {},
                }
            },
            _ => {},
        }
    }

    /// Moves the pane inside its parent.
    pub fn set_location(&mut self, x: usize, y: usize)
        ensures
            *final(self) == old(self).placed(x, y),
    {
        self.x = x;
        self.y = y;
    }

    /// Puts `container` under the split at `path`.
    ///
    /// Fails, and leaves the tree as it is, where the path names no pane, where
    /// it leads to or through a pane that is no split, and where the split it
    /// leads to has no free slot.
    pub fn add_container(&mut self, path: &[String], container: Container) -> (r: Result<
        (),
        InsertError,
    >)
        ensures
            r == match old(self).insert_error(path.deep_view()) {
                Some(e) => Err::<(), InsertError>(e),
                None => Ok::<(), InsertError>(()),
            },
            match r {
                Ok(()) => old(self).inserted(path.deep_view(), container) == Ok::<
                    Container,
                    InsertError,
                >(*final(self)),
                Err(e) => old(self).inserted(path.deep_view(), container) == Err::<
                    Container,
                    InsertError,
                >(e) && *final(self) == *old(self),
            },
        decreases *old(self),
    {
        match &mut self.cont_type {
            ContainerType::Father { primary, secondary, .. } => {
                if path.len() == 0 {
                    if secondary.is_none() {
                        *secondary = Some(Box::new(container));
                        Ok(())
                    } else if primary.is_none() {
                        *primary = Some(Box::new(container));
                        Ok(())
                    } else {
                        Err(InsertError::SlotsFull)
                    }
                } else {
                    let rest = slice_subrange(path, 1, path.len());
                    proof {
                        assert(rest.deep_view() =~= path.deep_view().skip(1));
                    }
                    if has_name(primary, &path[0]) {
                        match primary {
                            Some(c) => c.add_container(rest, container),
                            None => Err(InsertError::PathNotFound),
                        }
                    } else if has_name(secondary, &path[0]) {
                        match secondary {
                            Some(c) => c.add_container(rest, container),
                            None => Err(InsertError::PathNotFound),
                        }
                    } else {
                        Err(InsertError::PathNotFound)
                    }
                }
            },
            _ => Err(InsertError::NotASplit),
        }
    }

    /// Sends `event` down the tree, to the view of the focused leaf.
    pub fn dispatch(&self, event: InputEvent, views: &mut Components)
        requires
            old(views).wf(),
        ensures
            final(views).wf(),
            final(views)@ == self.dispatched(event, old(views)@),
        decreases self,
    {
        match &self.cont_type {
            ContainerType::Father { primary, secondary, .. } => {
                match primary {
                    Some(p) => {
                        p.dispatch(event, views);
                    },
                    None => {},
                }
                match secondary {
                    Some(s) => {
                        s.dispatch(event, views);
                    },
                    None => {},
                }
            },
            kind => {
                if self.focused {
                    views.handle(kind, event, (self.width, self.height));
                }
            },
        }
    }

    /// Tells the view of every leaf the size that the leaf has.
    pub fn announce_size(&self, views: &mut Components)
        requires
            old(views).wf(),
        ensures
            final(views).wf(),
            final(views)@ == self.announced(old(views)@),
        decreases self,
    {
        match &self.cont_type {
            ContainerType::Father { primary, secondary, .. } => {
                match secondary {
                    Some(s) => {
                        s.announce_size(views);
                    },
                    None => {},
                }
                match primary {
                    Some(p) => {
                        p.announce_size(views);
                    },
                    None => {},
                }
            },
            kind => {
                let event = InputEvent::Resize(
                    (self.width % 0x10000) as u16,
                    (self.height % 0x10000) as u16,
                );
                views.handle(kind, event, (self.width, self.height));
            },
        }
    }

    /// Draws a frame of the tree into `renderer` and tells where the focused
    /// leaf shows the cursor.
    pub fn render(&self, renderer: &Renderer, views: &mut Components, screen: &mut Screen) -> (r: (
        bool,
        (usize, usize),
    ))
        requires
            old(views).wf(),
        ensures
            final(views).wf(),
            ({
                let frame = self.rendered(*renderer, old(views)@);
                &&& final(views)@ == frame.views
                &&& final(screen)@ == old(screen)@ + frame.drawn
                &&& r == frame.cursor
            }),
        decreases self,
    {
        match &self.cont_type {
            ContainerType::Father { primary, secondary, .. } => {
                let mut res: (bool, (usize, usize)) = (false, (0, 0));
                let ghost mut first: Seq<Drawn> = Seq::empty();
                match primary {
                    Some(p) => {
                        let subrend = renderer.sub(p.get_location(), p.get_size());
                        let r = p.render(&subrend, views, screen);
                        proof {
                            first = p.rendered(subrend, old(views)@).drawn;
                        }
                        if p.focused {
                            res = r;
                        }
                    },
                    None => {
                        assert(screen@ + Seq::<Drawn>::empty() =~= screen@);
                    },
                }
                let ghost between = views@;
                let ghost mut second: Seq<Drawn> = Seq::empty();
                match secondary {
                    Some(s) => {
                        let subrend = renderer.sub(s.get_location(), s.get_size());
                        let r = s.render(&subrend, views, screen);
                        proof {
                            second = s.rendered(subrend, between).drawn;
                        }
                        if s.focused {
                            res = r;
                        }
                    },
                    None => {
                        assert(screen@ + Seq::<Drawn>::empty() =~= screen@);
                    },
                }
                assert(screen@ =~= old(screen)@ + (first + second));
                res
            },
            kind => views.render(kind, renderer, self.focused, screen),
        }
    }
}

} // verus!
