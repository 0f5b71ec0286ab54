//! What holds of every framework when the focus is asked to move.

use vstd::prelude::*;
use crate::ui::focus_laws::{
    lemma_resize_keeps_single_focus,
    lemma_single_focus,
    lemma_transfer_keeps_single_focus,
};
use crate::ui::framework::FrameworkView;
use crate::ui::layout_laws::lemma_resize_idempotent;
use crate::ui::path::segments;
use crate::ui::{ChangeFocusEvent, Event, InputEvent};

verus! {

/// A request to move the focus where the focused pane has no entry in the
/// table, or no neighbour on that side, changes nothing: neither the focus
/// nor any rectangle.
pub proof fn lemma_no_neighbor_no_change(v: FrameworkView, direction: ChangeFocusEvent)
    requires
        !v.adjacency.contains_key(v.focused_path) || crate::ui::framework::neighbor(
            v.adjacency[v.focused_path],
            direction,
        ) is None,
    ensures
        v.focus_changed(direction) == v,
{
}

/// With a single focus, exactly one leaf of the tree is focused, and the root
/// is.
pub proof fn lemma_single_focus_one_leaf(v: FrameworkView)
    requires
        v.single_focus(),
    ensures
        v.tree.unwrap().focused_leaves() == 1,
        v.tree.unwrap().is_focused(),
{
    lemma_single_focus(v.tree.unwrap(), segments(v.focused_path));
}

/// A request to move the focus keeps a single focus, as long as the table
/// sends the focus to a leaf of the tree.
pub proof fn lemma_focus_change_keeps_single_focus(v: FrameworkView, direction: ChangeFocusEvent)
    requires
        v.single_focus(),
        v.target(direction) matches Some(to) ==> v.tree.unwrap().leads_to_leaf(segments(to)),
    ensures
        v.focus_changed(direction).single_focus(),
{
    match v.target(direction) {
        Some(to) => {
            let t = v.tree.unwrap();
            lemma_transfer_keeps_single_focus(t, segments(v.focused_path), segments(to));
            lemma_resize_keeps_single_focus(
                t.with_focus(segments(v.focused_path), false).with_focus(segments(to), true),
                segments(to),
                v.size.0,
                v.size.1,
            );
        },
        None => {},
    }
}

/// Terminal input leaves the framework as it is: the tree, its layout and its
/// focus are changed by nothing but a move of the focus and a new size.
pub proof fn lemma_input_keeps_framework(v: FrameworkView, input: InputEvent)
    ensures
        v.dispatched(Event::Input(input)) == v,
{
}

/// Every event keeps a single focus, as long as the table sends the focus to
/// leaves of the tree only.
pub proof fn lemma_event_keeps_single_focus(v: FrameworkView, event: Event)
    requires
        v.single_focus(),
        forall|direction: ChangeFocusEvent| #[trigger]
            v.target(direction) matches Some(to) ==> v.tree.unwrap().leads_to_leaf(segments(to)),
    ensures
        v.dispatched(event).single_focus(),
{
    match event {
        Event::ChangeFocus(direction) => {
            lemma_focus_change_keeps_single_focus(v, direction);
        },
        Event::Input(_) => {},
    }
}

/// Every event of the terminal keeps a single focus, as long as the table
/// sends the focus to leaves of the tree only.
pub proof fn lemma_step_keeps_single_focus(v: FrameworkView, event: InputEvent)
    requires
        v.single_focus(),
        forall|direction: ChangeFocusEvent| #[trigger]
            v.target(direction) matches Some(to) ==> v.tree.unwrap().leads_to_leaf(segments(to)),
    ensures
        crate::stepped(v, event).single_focus(),
{
    match crate::routed(event) {
        crate::Command::Dispatch(e) => {
            lemma_event_keeps_single_focus(v, e);
        },
        crate::Command::Resize(width, height) => {
            lemma_resize_keeps_focus(v, width, height);
        },
        _ => {},
    }
}

/// Moving the focus to a leaf on request keeps a single focus.
pub proof fn lemma_focus_request_keeps_single_focus(v: FrameworkView, to: Seq<char>)
    requires
        v.single_focus(),
        v.tree.unwrap().leads_to_leaf(segments(to)),
    ensures
        v.refocused(to).laid_out().single_focus(),
{
    let t = v.tree.unwrap();
    lemma_transfer_keeps_single_focus(t, segments(v.focused_path), segments(to));
    lemma_resize_keeps_single_focus(
        t.with_focus(segments(v.focused_path), false).with_focus(segments(to), true),
        segments(to),
        v.size.0,
        v.size.1,
    );
}

/// A new screen size keeps a single focus.
pub proof fn lemma_resize_keeps_focus(v: FrameworkView, width: usize, height: usize)
    requires
        v.single_focus(),
    ensures
        v.resized(width, height).single_focus(),
{
    let laid = v.resized(width, height);
    lemma_resize_keeps_single_focus(
        v.tree.unwrap(),
        segments(v.focused_path),
        laid.size.0,
        laid.size.1,
    );
}

/// Taking the same screen size twice gives the same layout as taking it once.
pub proof fn lemma_resize_twice(v: FrameworkView, width: usize, height: usize)
    ensures
        v.resized(width, height).resized(width, height) == v.resized(width, height),
{
    let once = v.resized(width, height);
    if let Some(t) = v.tree {
        lemma_resize_idempotent(t, once.size.0, once.size.1);
    }
}

} // verus!
