//! What holds of the layout whatever the tree looks like.

use vstd::prelude::*;
use crate::ui::container::{clamped_sub, secondary_share, Container, ContainerType};

verus! {

/// The two shares of a full split never add up to more than there is to share,
/// unless the split is exclusive and too small to leave the unfocused side
/// its one cell.
pub proof fn lemma_shares_fit(total: usize, exclusive: bool, secondary_focused: bool)
    requires
        total >= 1 || !exclusive || secondary_focused,
    ensures
        secondary_share(total, exclusive, secondary_focused) + clamped_sub(
            total,
            secondary_share(total, exclusive, secondary_focused),
        ) == total,
{
}

/// Laying a tree out changes neither names nor focus flags, and keeps a split
/// a split with the same slots taken.
pub proof fn lemma_resize_keeps_focus(c: Container, width: usize, height: usize)
    ensures
        c.resized(width, height).label() == c.label(),
        c.resized(width, height).is_focused() == c.is_focused(),
        c.resized(width, height).size() == (width, height),
        c.resized(width, height).location() == c.location(),
{
}

/// Where a pane stands has no part in how it is laid out.
pub proof fn lemma_resize_ignores_place(c: Container, x: usize, y: usize, width: usize, height: usize)
    ensures
        c.placed(x, y).resized(width, height) == c.resized(width, height).placed(x, y),
{
}

/// Laying a tree out twice in the same rectangle gives the same tree as
/// laying it out once.
pub proof fn lemma_resize_idempotent(c: Container, width: usize, height: usize)
    ensures
        c.resized(width, height).resized(width, height) == c.resized(width, height),
    decreases c,
{
    match c.kind() {
        ContainerType::Father { primary, secondary, vert_layout, all_own } => {
            let total = if vert_layout { height } else { width };
            let share = secondary_share(total, all_own, secondary matches Some(s) && s.is_focused());
            let rest = clamped_sub(total, share);
            let (pw, ph) = if secondary is None {
                (width, height)
            } else if vert_layout {
                (width, rest)
            } else {
                (rest, height)
            };
            let (sw, sh) = if primary is None {
                (width, height)
            } else if vert_layout {
                (width, share)
            } else {
                (share, height)
            };
            let (sx, sy) = if primary is None {
                (0usize, 0usize)
            } else if vert_layout {
                (0usize, rest)
            } else {
                (rest, 0usize)
            };
            match primary {
                Some(p) => {
                    lemma_resize_idempotent(*p, pw, ph);
                    lemma_resize_ignores_place(p.resized(pw, ph), 0, 0, pw, ph);
                },
                None => {},
            }
            match secondary {
                Some(s) => {
                    lemma_resize_idempotent(*s, sw, sh);
                    lemma_resize_ignores_place(s.resized(sw, sh), sx, sy, sw, sh);
                },
                None => {},
            }
        },
        _ => {},
    }
}

} // verus!
