use vstd::prelude::*;

use crate::snap::SnapProbe;

verus! {

/// One of the two bounds of an axis: `Min` is `bounds[0]`, `Max` is `bounds[1]`.
#[derive(Clone, Copy, Debug, PartialEq, Eq, Structural)]
pub enum Bound {
    Min,
    Max,
}

/// A coordinate on one axis of the box: on one of its bounds or halfway between.
#[derive(Clone, Copy, Debug, PartialEq, Eq, Structural)]
pub enum Anchor {
    Min,
    Mid,
    Max,
}

/// A point of the box given by its anchor on each axis.
#[derive(Clone, Copy, Debug, PartialEq, Eq, Structural)]
pub struct AnchorPoint {
    pub x: Anchor,
    pub y: Anchor,
}

/// The edges of the box that a resize drags. `top` and `left` are the low
/// edges (`bounds[0]`), `bottom` and `right` the high ones (`bounds[1]`).
#[derive(Clone, Copy, Debug, PartialEq, Eq, Structural)]
pub struct SelectedEdges {
    pub top: bool,
    pub bottom: bool,
    pub left: bool,
    pub right: bool,
}

/// The fixed coordinate of an axis: the high bound when the low edge is
/// grabbed, the low bound when the high edge is, the midpoint otherwise.
pub open spec fn anchor_for(low: bool, high: bool) -> Anchor {
    if low {
        Anchor::Max
    } else if high {
        Anchor::Min
    } else {
        Anchor::Mid
    }
}

/// The bound of an axis that follows the mouse (the low edge wins a tie).
pub open spec fn moved_for(low: bool, high: bool) -> Option<Bound> {
    if low {
        Some(Bound::Min)
    } else if high {
        Some(Bound::Max)
    } else {
        None
    }
}

pub open spec fn opposite(b: Bound) -> Bound {
    match b {
        Bound::Min => Bound::Max,
        Bound::Max => Bound::Min,
    }
}

pub open spec fn anchor_of(b: Bound) -> Anchor {
    match b {
        Bound::Min => Anchor::Min,
        Bound::Max => Anchor::Max,
    }
}

/// Where the pivot of one axis comes from during a resize.
#[derive(Clone, Copy, Debug, PartialEq, Eq, Structural)]
pub enum AxisPivot {
    /// From the updated bounds.
    Anchor(Anchor),
    /// From the fixed center of a centered resize.
    Center,
}

/// How one axis of the box changes for one resize sample.
#[derive(Clone, Copy, Debug, PartialEq, Eq, Structural)]
pub struct AxisPlan {
    /// The bound set to the mouse coordinate.
    pub moved: Option<Bound>,
    /// The bound set to the reflection of the moved one across the center.
    pub mirrored: Option<Bound>,
    /// Where the pivot comes from.
    pub pivot: AxisPivot,
    /// Whether a snap's scale factor applies on this axis (else it is 1).
    pub scaled: bool,
}

/// How an aspect-locked resize derives its size from the dragged one.
#[derive(Clone, Copy, Debug, PartialEq, Eq, Structural)]
pub enum AspectFit {
    /// Both axes move: per axis the larger magnitude of the fit by width and
    /// the fit by height, with the dragged size's sign.
    Corner,
    /// Only a vertical edge moves (top or bottom): the width follows the height.
    WidthFromHeight,
    /// Only a horizontal edge moves (left or right): the height follows the width.
    HeightFromWidth,
    /// No edge moves: the size is kept.
    Keep,
}

/// Everything a resize sample decides before any arithmetic.
#[derive(Clone, Copy, Debug, PartialEq, Eq, Structural)]
pub struct ResizePlan {
    pub x: AxisPlan,
    pub y: AxisPlan,
    /// The aspect fit, when the aspect ratio is locked.
    pub fit: Option<AspectFit>,
    /// The snap search made for each candidate point.
    pub probe: SnapProbe,
}

pub open spec fn mirror_of(m: Option<Bound>) -> Option<Bound> {
    match m {
        Some(b) => Some(opposite(b)),
        None => None,
    }
}

pub open spec fn axis_plan_spec(low: bool, high: bool, centered: bool, constrain: bool) -> AxisPlan {
    AxisPlan {
        moved: moved_for(low, high),
        mirrored: if centered {
            mirror_of(moved_for(low, high))
        } else {
            None
        },
        pivot: if centered && (low || high) {
            AxisPivot::Center
        } else {
            AxisPivot::Anchor(anchor_for(low, high))
        },
        scaled: low || high || constrain,
    }
}

pub open spec fn fit_spec(vertical: bool, horizontal: bool) -> AspectFit {
    if vertical && horizontal {
        AspectFit::Corner
    } else if vertical {
        AspectFit::WidthFromHeight
    } else if horizontal {
        AspectFit::HeightFromWidth
    } else {
        AspectFit::Keep
    }
}

pub open spec fn probe_spec(vertical: bool, horizontal: bool, constrain: bool) -> SnapProbe {
    if constrain {
        SnapProbe::TowardPivot
    } else if !vertical {
        SnapProbe::AlongX
    } else if !horizontal {
        SnapProbe::AlongY
    } else {
        SnapProbe::Free
    }
}

impl SelectedEdges {
    /// Some edge moves along y.
    pub open spec fn vertical(self) -> bool {
        self.top || self.bottom
    }

    /// Some edge moves along x.
    pub open spec fn horizontal(self) -> bool {
        self.left || self.right
    }

    pub open spec fn pivot_spec(self) -> AnchorPoint {
        AnchorPoint { x: anchor_for(self.left, self.right), y: anchor_for(self.top, self.bottom) }
    }

    pub open spec fn plan_spec(self, centered: bool, constrain: bool) -> ResizePlan {
        ResizePlan {
            x: axis_plan_spec(self.left, self.right, centered, constrain),
            y: axis_plan_spec(self.top, self.bottom, centered, constrain),
            fit: if constrain {
                Some(fit_spec(self.vertical(), self.horizontal()))
            } else {
                None
            },
            probe: probe_spec(self.vertical(), self.horizontal(), constrain),
        }
    }

    pub fn new(top: bool, bottom: bool, left: bool, right: bool) -> (r: Self)
        ensures
            r == (SelectedEdges { top, bottom, left, right }),
    {
        SelectedEdges { top, bottom, left, right }
    }

    /// The pivot of the operation: the point opposite the dragged edges.
    pub fn calculate_pivot(&self) -> (r: AnchorPoint)
        ensures
            r == self.pivot_spec(),
    {
        AnchorPoint { x: axis_anchor(self.left, self.right), y: axis_anchor(self.top, self.bottom) }
    }

    /// Decides how a resize sample changes the bounds: which bound of each
    /// axis follows the mouse, which one is mirrored about a fixed center
    /// (`centered`), where each pivot coordinate comes from, how a locked
    /// aspect ratio (`constrain`) fits the size, and how snapping probes and
    /// scales.
    pub fn resize_plan(&self, centered: bool, constrain: bool) -> (r: ResizePlan)
        ensures
            r == self.plan_spec(centered, constrain),
    {
        let vertical = self.top || self.bottom;
        let horizontal = self.left || self.right;
        let fit = if constrain {
            Some(aspect_fit(vertical, horizontal))
        } else {
            None
        };
        ResizePlan {
            x: axis_plan(self.left, self.right, centered, constrain),
            y: axis_plan(self.top, self.bottom, centered, constrain),
            fit,
            probe: resize_probe(vertical, horizontal, constrain),
        }
    }
}

fn axis_anchor(low: bool, high: bool) -> (r: Anchor)
    ensures
        r == anchor_for(low, high),
{
    if low {
        Anchor::Max
    } else if high {
        Anchor::Min
    } else {
        Anchor::Mid
    }
}

fn axis_plan(low: bool, high: bool, centered: bool, constrain: bool) -> (r: AxisPlan)
    ensures
        r == axis_plan_spec(low, high, centered, constrain),
{
    let moved = if low {
        Some(Bound::Min)
    } else if high {
        Some(Bound::Max)
    } else {
        None
    };
    let mut mirrored: Option<Bound> = None;
    let mut pivot = AxisPivot::Anchor(axis_anchor(low, high));
    if centered {
        if low {
            pivot = AxisPivot::Center;
            mirrored = Some(Bound::Max);
        } else if high {
            pivot = AxisPivot::Center;
            mirrored = Some(Bound::Min);
        }
    }
    AxisPlan { moved, mirrored, pivot, scaled: low || high || constrain }
}

fn aspect_fit(vertical: bool, horizontal: bool) -> (r: AspectFit)
    ensures
        r == fit_spec(vertical, horizontal),
{
    match (vertical, horizontal) {
        (true, true) => AspectFit::Corner,
        (true, false) => AspectFit::WidthFromHeight,
        (false, true) => AspectFit::HeightFromWidth,
        _ => AspectFit::Keep,
    }
}

fn resize_probe(vertical: bool, horizontal: bool, constrain: bool) -> (r: SnapProbe)
    ensures
        r == probe_spec(vertical, horizontal, constrain),
{
    if constrain {
        SnapProbe::TowardPivot
    } else if !vertical {
        SnapProbe::AlongX
    } else if !horizontal {
        SnapProbe::AlongY
    } else {
        SnapProbe::Free
    }
}

/// The pivot keeps still along an axis: when a bound of the axis moves, the
/// pivot sits on the other bound.
pub open spec fn pivot_untouched(a: Anchor, moved: Option<Bound>) -> bool {
    match moved {
        Some(b) => a == anchor_of(opposite(b)),
        None => true,
    }
}

/// The pivot of a resize never moves. Without a center, on each axis whose
/// edge is dragged the pivot is the bound that the drag leaves alone, and on
/// an axis with no dragged edge nothing moves at all. With a center, the
/// pivot of every dragged axis is that fixed center.
pub proof fn lemma_pivot_never_moves(edges: SelectedEdges, constrain: bool)
    ensures
        pivot_untouched(edges.pivot_spec().x, edges.plan_spec(false, constrain).x.moved),
        pivot_untouched(edges.pivot_spec().y, edges.plan_spec(false, constrain).y.moved),
        edges.plan_spec(false, constrain).x.pivot == AxisPivot::Anchor(edges.pivot_spec().x),
        edges.plan_spec(false, constrain).y.pivot == AxisPivot::Anchor(edges.pivot_spec().y),
        edges.plan_spec(false, constrain).x.mirrored is None,
        edges.plan_spec(false, constrain).y.mirrored is None,
        edges.plan_spec(true, constrain).x.moved is Some ==> edges.plan_spec(true, constrain).x.pivot
            == AxisPivot::Center,
        edges.plan_spec(true, constrain).y.moved is Some ==> edges.plan_spec(true, constrain).y.pivot
            == AxisPivot::Center,
{
}

/// With no edge selected, a resize sample moves and mirrors no bound and
/// keeps the size under an aspect lock; without the lock, a snap's scale
/// factor applies on neither axis. So the bounds come back unchanged,
/// wherever the mouse is.
pub proof fn lemma_no_edges_keeps_bounds(centered: bool, constrain: bool)
    ensures
        ({
            let p = SelectedEdges { top: false, bottom: false, left: false, right: false }.plan_spec(
                centered,
                constrain,
            );
            &&& p.x.moved is None && p.y.moved is None
            &&& p.x.mirrored is None && p.y.mirrored is None
            &&& constrain ==> p.fit == Some(AspectFit::Keep)
            &&& !constrain ==> p.fit is None && !p.x.scaled && !p.y.scaled
        }),
{
}

} // verus!
