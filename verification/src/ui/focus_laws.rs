//! What holds of the focus flags whatever the tree looks like.

use vstd::prelude::*;
use crate::ui::container::{clamped_sub, is_named, secondary_share, Container, ContainerType, Slot};

verus! {

/// Two sequences that start alike are prefix and whole where their rests are.
proof fn lemma_prefix_step<A>(first: A, rest: Seq<A>, way: Seq<A>)
    ensures
        (seq![first] + rest).is_prefix_of(seq![first] + way) <==> rest.is_prefix_of(way),
{
    let short = seq![first] + rest;
    let whole = seq![first] + way;
    if rest.is_prefix_of(way) {
        assert(short =~= whole.subrange(0, short.len() as int)) by {
            assert forall|i: int| 0 <= i < short.len() implies short[i] == whole[i] by {
                if i > 0 {
                    assert(rest[i - 1] == way.subrange(0, rest.len() as int)[i - 1]);
                }
            }
        }
    }
    if short.is_prefix_of(whole) {
        assert(rest =~= way.subrange(0, rest.len() as int)) by {
            assert forall|i: int| 0 <= i < rest.len() implies rest[i] == way[i] by {
                assert(short[i + 1] == whole.subrange(0, short.len() as int)[i + 1]);
            }
        }
    }
}

/// Walking down a path to set or clear the focus touches the focus flags of
/// the panes on the way and nothing else: no pane appears or goes, and a pane
/// at any `position` keeps its name, its rectangle and its content, and, off
/// the way, its focus flag.
pub proof fn lemma_focus_walk_exact(
    c: Container,
    path: Seq<Seq<char>>,
    value: bool,
    position: Seq<Slot>,
)
    ensures
        c.with_focus(path, value).at(position) is Some <==> c.at(position) is Some,
        c.at(position) matches Some(before) ==> {
            let after = c.with_focus(path, value).at(position).unwrap();
            &&& before.same_but_focus(after)
            &&& after.is_focused() == if position.is_prefix_of(c.route(path)) {
                value
            } else {
                before.is_focused()
            }
        },
    decreases c,
{
    let after = c.with_focus(path, value);
    if position.len() == 0 {
        assert(position.is_prefix_of(c.route(path)));
    } else {
        let rest = position.skip(1);
        if path.len() > 0 && c.slot_of(path[0]) is Some {
            let slot = c.slot_of(path[0]).unwrap();
            let sub = c.child(slot).unwrap();
            let way = sub.route(path.skip(1));
            assert(c.route(path) == seq![slot] + way);
            assert(after.child(slot) == Some(sub.with_focus(path.skip(1), value)));
            if position[0] == slot {
                lemma_focus_walk_exact(sub, path.skip(1), value, rest);
                assert(position =~= seq![slot] + rest);
                lemma_prefix_step(slot, rest, way);
            } else {
                assert(after.child(position[0]) == c.child(position[0]));
                assert(!position.is_prefix_of(seq![slot] + way)) by {
                    let whole = seq![slot] + way;
                    if position.is_prefix_of(whole) {
                        assert(position[0] == whole.subrange(0, position.len() as int)[0]);
                    }
                }
            }
        } else {
            assert(c.route(path) =~= Seq::<Slot>::empty());
            assert(after.child(position[0]) == c.child(position[0]));
        }
    }
}

/// A tree without a focused pane has no focused leaf.
pub proof fn lemma_unfocused_has_no_focused_leaf(c: Container)
    requires
        c.unfocused(),
    ensures
        c.focused_leaves() == 0,
    decreases c,
{
    match c.kind() {
        ContainerType::Father { primary, secondary, .. } => {
            if let Some(p) = primary {
                lemma_unfocused_has_no_focused_leaf(*p);
            }
            if let Some(s) = secondary {
                lemma_unfocused_has_no_focused_leaf(*s);
            }
        },
        _ => {},
    }
}

/// Where the focus flags mark the way to one leaf, exactly one leaf of the
/// tree is focused, and the root is.
pub proof fn lemma_single_focus(c: Container, path: Seq<Seq<char>>)
    requires
        c.focused_along(path),
    ensures
        c.focused_leaves() == 1,
        c.is_focused(),
    decreases c,
{
    match c.kind() {
        ContainerType::Father { primary, secondary, .. } => {
            if is_named(secondary, path[0]) {
                lemma_single_focus(*secondary.unwrap(), path.skip(1));
                if let Some(p) = primary {
                    lemma_unfocused_has_no_focused_leaf(*p);
                }
            } else {
                lemma_single_focus(*primary.unwrap(), path.skip(1));
                if let Some(s) = secondary {
                    lemma_unfocused_has_no_focused_leaf(*s);
                }
            }
        },
        _ => {},
    }
}

/// Clearing the focus along the way that the focus flags mark leaves no pane
/// focused.
pub proof fn lemma_disfocus_clears(c: Container, path: Seq<Seq<char>>)
    requires
        c.focused_along(path),
    ensures
        c.with_focus(path, false).unfocused(),
    decreases c,
{
    match c.kind() {
        ContainerType::Father { primary, secondary, .. } => {
            if is_named(secondary, path[0]) {
                lemma_disfocus_clears(*secondary.unwrap(), path.skip(1));
            } else {
                lemma_disfocus_clears(*primary.unwrap(), path.skip(1));
            }
        },
        _ => {},
    }
}

/// Setting the focus along a path that leads to a leaf, in a tree without a
/// focused pane, makes the focus flags mark the way to that leaf.
pub proof fn lemma_focus_marks(c: Container, path: Seq<Seq<char>>)
    requires
        c.unfocused(),
        c.leads_to_leaf(path),
    ensures
        c.with_focus(path, true).focused_along(path),
    decreases c,
{
    match c.kind() {
        ContainerType::Father { primary, secondary, .. } => {
            if is_named(secondary, path[0]) {
                lemma_focus_marks(*secondary.unwrap(), path.skip(1));
            } else {
                lemma_focus_marks(*primary.unwrap(), path.skip(1));
            }
        },
        _ => {},
    }
}

/// Setting or clearing the focus along one path does not change where any
/// path leads: the pane found is the same but for focus flags.
pub proof fn lemma_focus_keeps_leaves(
    c: Container,
    marked: Seq<Seq<char>>,
    value: bool,
    path: Seq<Seq<char>>,
)
    ensures
        c.with_focus(marked, value).leads_to_leaf(path) == c.leads_to_leaf(path),
    decreases c,
{
    if path.len() > 0 && marked.len() > 0 {
        match c.kind() {
            ContainerType::Father { primary, secondary, .. } => {
                if let Some(p) = primary {
                    lemma_focus_keeps_leaves(*p, marked.skip(1), value, path.skip(1));
                }
                if let Some(s) = secondary {
                    lemma_focus_keeps_leaves(*s, marked.skip(1), value, path.skip(1));
                }
            },
            _ => {},
        }
    }
}

/// Setting or clearing the focus along one path does not change which way
/// any path takes through the tree.
pub proof fn lemma_focus_keeps_routes(
    c: Container,
    marked: Seq<Seq<char>>,
    value: bool,
    path: Seq<Seq<char>>,
)
    ensures
        c.with_focus(marked, value).route(path) == c.route(path),
    decreases c,
{
    if path.len() > 0 && marked.len() > 0 {
        match c.kind() {
            ContainerType::Father { primary, secondary, .. } => {
                if let Some(p) = primary {
                    lemma_focus_keeps_routes(*p, marked.skip(1), value, path.skip(1));
                }
                if let Some(s) = secondary {
                    lemma_focus_keeps_routes(*s, marked.skip(1), value, path.skip(1));
                }
            },
            _ => {},
        }
    }
}

/// Moving the focus from one path to another touches the focus flags of the
/// panes on the two ways and nothing else: no pane appears or goes, a pane at
/// any `position` keeps its name, its rectangle and its content, and it is
/// focused afterwards if it lies on the new way, unfocused if it lies on the
/// old way only, and as it was if it lies on neither.
pub proof fn lemma_transfer_exact(
    c: Container,
    from: Seq<Seq<char>>,
    to: Seq<Seq<char>>,
    position: Seq<Slot>,
)
    ensures
        c.with_focus(from, false).with_focus(to, true).at(position) is Some <==> c.at(position)
            is Some,
        c.at(position) matches Some(before) ==> {
            let after = c.with_focus(from, false).with_focus(to, true).at(position).unwrap();
            &&& before.same_but_focus(after)
            &&& after.is_focused() == if position.is_prefix_of(c.route(to)) {
                true
            } else if position.is_prefix_of(c.route(from)) {
                false
            } else {
                before.is_focused()
            }
        },
{
    let cleared = c.with_focus(from, false);
    lemma_focus_walk_exact(c, from, false, position);
    lemma_focus_walk_exact(cleared, to, true, position);
    lemma_focus_keeps_routes(c, from, false, to);
}

/// Moving the focus keeps a single focus: where the focus flags mark the way
/// to one leaf and `to` leads to a leaf, then after clearing the focus along
/// the old way and setting it along the new one the flags mark the way to the
/// new leaf.
pub proof fn lemma_transfer_keeps_single_focus(
    c: Container,
    from: Seq<Seq<char>>,
    to: Seq<Seq<char>>,
)
    requires
        c.focused_along(from),
        c.leads_to_leaf(to),
    ensures
        c.with_focus(from, false).with_focus(to, true).focused_along(to),
        c.with_focus(from, false).with_focus(to, true).focused_leaves() == 1,
{
    lemma_disfocus_clears(c, from);
    lemma_focus_keeps_leaves(c, from, false, to);
    lemma_focus_marks(c.with_focus(from, false), to);
    lemma_single_focus(c.with_focus(from, false).with_focus(to, true), to);
}

/// Where a pane stands has no part in which panes are focused.
pub proof fn lemma_place_keeps_focus(c: Container, path: Seq<Seq<char>>, x: usize, y: usize)
    ensures
        c.placed(x, y).unfocused() == c.unfocused(),
        c.placed(x, y).focused_along(path) == c.focused_along(path),
{
}

/// Laying a tree out leaves the focus where it is.
pub proof fn lemma_resize_keeps_single_focus(
    c: Container,
    path: Seq<Seq<char>>,
    width: usize,
    height: usize,
)
    ensures
        c.unfocused() ==> c.resized(width, height).unfocused(),
        c.focused_along(path) ==> c.resized(width, height).focused_along(path),
    decreases c,
{
    match c.kind() {
        ContainerType::Father { primary, secondary, vert_layout, all_own } => {
            let total = if vert_layout { height } else { width };
            let share = secondary_share(total, all_own, secondary matches Some(s) && s.is_focused());
            let rest = clamped_sub(total, share);
            if let Some(p) = primary {
                let (w, h) = if secondary is None {
                    (width, height)
                } else if vert_layout {
                    (width, rest)
                } else {
                    (rest, height)
                };
                lemma_resize_keeps_single_focus(*p, path.skip(1), w, h);
                lemma_place_keeps_focus(p.resized(w, h), path.skip(1), 0, 0);
            }
            if let Some(s) = secondary {
                let (w, h) = if primary is None {
                    (width, height)
                } else if vert_layout {
                    (width, share)
                } else {
                    (share, height)
                };
                let (x, y) = if primary is None {
                    (0usize, 0usize)
                } else if vert_layout {
                    (0usize, rest)
                } else {
                    (rest, 0usize)
                };
                lemma_resize_keeps_single_focus(*s, path.skip(1), w, h);
                lemma_place_keeps_focus(s.resized(w, h), path.skip(1), x, y);
            }
        },
        _ => {},
    }
}

} // verus!
