//! What holds of putting panes into the tree.

use vstd::prelude::*;
use crate::ui::container::{is_named, Container, ContainerType, InsertError, Slot};

verus! {

/// Whether a pane can be put under a path, and why not, depends on the tree
/// and the path alone, not on the pane.
pub proof fn lemma_insert_error(c: Container, path: Seq<Seq<char>>, pane: Container)
    ensures
        match c.inserted(path, pane) {
            Ok(_) => c.insert_error(path) is None,
            Err(e) => c.insert_error(path) == Some(e),
        },
    decreases c,
{
    match c.kind() {
        ContainerType::Father { primary, secondary, .. } => {
            if path.len() > 0 {
                if is_named(primary, path[0]) {
                    lemma_insert_error(*primary.unwrap(), path.skip(1), pane);
                } else if is_named(secondary, path[0]) {
                    lemma_insert_error(*secondary.unwrap(), path.skip(1), pane);
                }
            }
        },
        _ => {},
    }
}

/// A path that leads to a split with both slots taken takes no pane: the
/// attempt fails for want of a slot.
pub proof fn lemma_full_split_rejects(c: Container, path: Seq<Seq<char>>, pane: Container)
    requires
        c.insert_target(path) matches Some(t) && t.child(Slot::Primary)
            is Some && t.child(Slot::Secondary) is Some,
    ensures
        c.insert_error(path) == Some(InsertError::SlotsFull),
        c.inserted(path, pane) == Err::<Container, InsertError>(InsertError::SlotsFull),
    decreases c,
{
    match c.kind() {
        ContainerType::Father { primary, secondary, .. } => {
            if path.len() > 0 {
                if is_named(primary, path[0]) {
                    lemma_full_split_rejects(*primary.unwrap(), path.skip(1), pane);
                } else if is_named(secondary, path[0]) {
                    lemma_full_split_rejects(*secondary.unwrap(), path.skip(1), pane);
                }
            }
        },
        _ => {},
    }
}

/// A pane that was put into the tree is found there: it fills the slot that
/// was free, the secondary one before the primary one, of the split that the
/// path leads to, and every pane that was there before is still there.
pub proof fn lemma_inserted_is_there(c: Container, path: Seq<Seq<char>>, pane: Container)
    requires
        c.inserted(path, pane) is Ok,
    ensures
        c.insert_target(path) matches Some(t) && ({
            let after = c.inserted(path, pane).unwrap().insert_target(path);
            &&& after matches Some(a)
            &&& a.child(Slot::Secondary) == if t.child(
                Slot::Secondary,
            ) is None {
                Some(pane)
            } else {
                t.child(Slot::Secondary)
            }
            &&& a.child(Slot::Primary) == if t.child(
                Slot::Secondary,
            ) is None {
                t.child(Slot::Primary)
            } else {
                Some(pane)
            }
        }),
    decreases c,
{
    match c.kind() {
        ContainerType::Father { primary, secondary, .. } => {
            if path.len() > 0 {
                if is_named(primary, path[0]) {
                    lemma_inserted_is_there(*primary.unwrap(), path.skip(1), pane);
                    lemma_insert_keeps_name(*primary.unwrap(), path.skip(1), pane);
                } else if is_named(secondary, path[0]) {
                    lemma_inserted_is_there(*secondary.unwrap(), path.skip(1), pane);
                    lemma_insert_keeps_name(*secondary.unwrap(), path.skip(1), pane);
                }
            }
        },
        _ => {},
    }
}

/// Putting a pane into a tree leaves the root its name.
pub proof fn lemma_insert_keeps_name(c: Container, path: Seq<Seq<char>>, pane: Container)
    requires
        c.inserted(path, pane) is Ok,
    ensures
        c.inserted(path, pane).unwrap().label() == c.label(),
{
}

} // verus!
