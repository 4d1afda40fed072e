use vstd::prelude::*;

use crate::edges::{Anchor, AnchorPoint, SelectedEdges};

verus! {

/// The comparisons of a cursor, in the box's local space, against the box's
/// normalized bounds and the per-axis hit thresholds.
#[derive(Clone, Copy, Debug, PartialEq, Eq, Structural)]
pub struct EdgeHitSample {
    /// The cursor lies in the box grown by the thresholds.
    pub inside_extended: bool,
    /// The cursor lies within the threshold of each edge.
    pub near_top: bool,
    pub near_bottom: bool,
    pub near_left: bool,
    pub near_right: bool,
    /// The box's extent on the axis is below twice the axis's threshold.
    pub narrow_x: bool,
    pub narrow_y: bool,
    /// The box's extent on the axis is below the near-zero epsilon.
    pub flat_x: bool,
    pub flat_y: bool,
}

/// The edges hit by a sample. On a box too narrow along one axis, a hit on
/// an edge of the other axis drops that axis's edges (y is settled first); a
/// flat axis cannot be grabbed at all. No edge left means no hit.
pub open spec fn edge_hits(s: EdgeHitSample) -> Option<SelectedEdges> {
    if !s.inside_extended {
        None
    } else {
        let drop_y = s.narrow_y && (s.near_left || s.near_right);
        let top0 = s.near_top && !drop_y;
        let bottom0 = s.near_bottom && !drop_y;
        let drop_x = s.narrow_x && (top0 || bottom0);
        let left = s.near_left && !drop_x && !s.flat_x;
        let right = s.near_right && !drop_x && !s.flat_x;
        let top = top0 && !s.flat_y;
        let bottom = bottom0 && !s.flat_y;
        if top || bottom || left || right {
            Some(SelectedEdges { top, bottom, left, right })
        } else {
            None
        }
    }
}

/// Which edges the cursor grabs, if any.
pub fn check_selected_edges(sample: &EdgeHitSample) -> (r: Option<SelectedEdges>)
    ensures
        r == edge_hits(*sample),
        !sample.inside_extended ==> r is None,
        sample.flat_x ==> match r {
            Some(e) => !e.left && !e.right,
            None => true,
        },
        sample.flat_y ==> match r {
            Some(e) => !e.top && !e.bottom,
            None => true,
        },
        r matches Some(e) ==> e.top || e.bottom || e.left || e.right,
{
    if sample.inside_extended {
        let mut top = sample.near_top;
        let mut bottom = sample.near_bottom;
        let mut left = sample.near_left;
        let mut right = sample.near_right;

        // Prefer a single-axis resize on very small bounds
        if sample.narrow_y && (left || right) {
            top = false;
            bottom = false;
        }
        if sample.narrow_x && (top || bottom) {
            left = false;
            right = false;
        }
        // An axis without extent cannot be resized by its edges
        if sample.flat_x {
            left = false;
            right = false;
        }
        if sample.flat_y {
            top = false;
            bottom = false;
        }
        if top || bottom || left || right {
            return Some(SelectedEdges { top, bottom, left, right });
        }
    }
    None
}

/// The cursor is in the rotation ring: outside the box but inside the box
/// grown by the rotation thresholds.
pub fn check_rotate(outside_bounds: bool, inside_extended: bool) -> (r: bool)
    ensures
        r == (outside_bounds && inside_extended),
{
    outside_bounds && inside_extended
}

/// The cursor icons the cage asks for.
#[derive(Clone, Copy, Debug, PartialEq, Eq, Structural)]
pub enum MouseCursorIcon {
    Default,
    NSResize,
    EWResize,
    NWSEResize,
    NESWResize,
    Rotate,
}

/// The resize icon for a set of grabbed edges: straight for one axis,
/// diagonal along the grabbed corner for two.
pub open spec fn resize_icon(e: SelectedEdges) -> MouseCursorIcon {
    if (e.top || e.bottom) && !e.left && !e.right {
        MouseCursorIcon::NSResize
    } else if !e.top && !e.bottom && (e.left || e.right) {
        MouseCursorIcon::EWResize
    } else if (e.top && e.left) || (e.bottom && e.right) {
        MouseCursorIcon::NWSEResize
    } else if (e.top && e.right) || (e.bottom && e.left) {
        MouseCursorIcon::NESWResize
    } else {
        MouseCursorIcon::Default
    }
}

/// Edge hits first, then the rotation ring when rotation is enabled, else
/// the default pointer.
pub open spec fn cursor_for(edges: Option<SelectedEdges>, rotate: bool, rotate_hit: bool) -> MouseCursorIcon {
    match edges {
        Some(e) => resize_icon(e),
        None => if rotate && rotate_hit {
            MouseCursorIcon::Rotate
        } else {
            MouseCursorIcon::Default
        },
    }
}

/// The cursor icon for the edges the cursor grabs (`edges`, as
/// `check_selected_edges` gives them), whether rotation is enabled and
/// whether the cursor is in the rotation ring.
pub fn get_cursor(edges: Option<SelectedEdges>, rotate: bool, rotate_hit: bool) -> (r: MouseCursorIcon)
    ensures
        r == cursor_for(edges, rotate, rotate_hit),
{
    match edges {
        Some(e) => {
            if (e.top || e.bottom) && !e.left && !e.right {
                MouseCursorIcon::NSResize
            } else if !e.top && !e.bottom && (e.left || e.right) {
                MouseCursorIcon::EWResize
            } else if (e.top && e.left) || (e.bottom && e.right) {
                MouseCursorIcon::NWSEResize
            } else if (e.top && e.right) || (e.bottom && e.left) {
                MouseCursorIcon::NESWResize
            } else {
                MouseCursorIcon::Default
            }
        },
        None => {
            if rotate && rotate_hit {
                MouseCursorIcon::Rotate
            } else {
                MouseCursorIcon::Default
            }
        },
    }
}

/// A resize grab takes priority over rotation: whenever the cursor grabs an
/// edge, the icon is a resize icon and never the rotation one, even where
/// the edge band and the rotation ring overlap.
pub proof fn lemma_resize_wins_over_rotate(sample: EdgeHitSample, rotate: bool, rotate_hit: bool)
    ensures
        edge_hits(sample) is Some ==> ({
            let icon = cursor_for(edge_hits(sample), rotate, rotate_hit);
            icon != MouseCursorIcon::Rotate && icon != MouseCursorIcon::Default
        }),
{
}

/// The interaction a pointer press starts.
#[derive(Clone, Copy, Debug, PartialEq, Eq, Structural)]
pub enum Interaction {
    /// Nothing of the cage is under the pointer.
    Idle,
    /// The pointer grabs these edges.
    Resizing(SelectedEdges),
    /// The pointer is in the rotation ring, with rotation enabled.
    Rotating,
    /// The pointer is inside the box, on no edge.
    Dragging,
}

/// Resizing takes priority, then rotating, then dragging the whole box.
pub open spec fn interaction_for(
    edges: Option<SelectedEdges>,
    rotate: bool,
    rotate_hit: bool,
    inside_box: bool,
) -> Interaction {
    match edges {
        Some(e) => Interaction::Resizing(e),
        None => if rotate && rotate_hit {
            Interaction::Rotating
        } else if inside_box {
            Interaction::Dragging
        } else {
            Interaction::Idle
        },
    }
}

/// Classifies a pointer press from the edges it grabs, whether rotation is
/// enabled, whether it is in the rotation ring and whether it is inside the box.
pub fn classify_interaction(edges: Option<SelectedEdges>, rotate: bool, rotate_hit: bool, inside_box: bool) -> (r:
    Interaction)
    ensures
        r == interaction_for(edges, rotate, rotate_hit, inside_box),
{
    match edges {
        Some(e) => Interaction::Resizing(e),
        None => {
            if rotate && rotate_hit {
                Interaction::Rotating
            } else if inside_box {
                Interaction::Dragging
            } else {
                Interaction::Idle
            }
        },
    }
}

/// The eight handles in their fixed order: top-left, left-middle,
/// bottom-left, top-middle, bottom-middle, top-right, right-middle,
/// bottom-right (top and left are the `Min` bounds).
pub open spec fn handle_layout() -> Seq<AnchorPoint> {
    seq![
        AnchorPoint { x: Anchor::Min, y: Anchor::Min },
        AnchorPoint { x: Anchor::Min, y: Anchor::Mid },
        AnchorPoint { x: Anchor::Min, y: Anchor::Max },
        AnchorPoint { x: Anchor::Mid, y: Anchor::Min },
        AnchorPoint { x: Anchor::Mid, y: Anchor::Max },
        AnchorPoint { x: Anchor::Max, y: Anchor::Min },
        AnchorPoint { x: Anchor::Max, y: Anchor::Mid },
        AnchorPoint { x: Anchor::Max, y: Anchor::Max },
    ]
}

/// The points of the box at which the transform handles stand, in order.
pub fn transform_handle_anchors() -> (r: Vec<AnchorPoint>)
    ensures
        r@ == handle_layout(),
{
    let mut r: Vec<AnchorPoint> = Vec::new();
    r.push(AnchorPoint { x: Anchor::Min, y: Anchor::Min });
    r.push(AnchorPoint { x: Anchor::Min, y: Anchor::Mid });
    r.push(AnchorPoint { x: Anchor::Min, y: Anchor::Max });
    r.push(AnchorPoint { x: Anchor::Mid, y: Anchor::Min });
    r.push(AnchorPoint { x: Anchor::Mid, y: Anchor::Max });
    r.push(AnchorPoint { x: Anchor::Max, y: Anchor::Min });
    r.push(AnchorPoint { x: Anchor::Max, y: Anchor::Mid });
    r.push(AnchorPoint { x: Anchor::Max, y: Anchor::Max });
    assert(r@ =~= handle_layout());
    r
}

} // verus!
