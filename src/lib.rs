//! Decision core of an interactive transformation cage: which bounds a resize
//! moves, where its pivot sits, how aspect locking fits the new size, which
//! snap probe each sample uses, how a cursor hit is classified, and how the
//! best snap of a pass is chosen.

pub mod edges;
pub mod hit;
pub mod snap;

pub use edges::{Anchor, AnchorPoint, AspectFit, AxisPivot, AxisPlan, Bound, ResizePlan, SelectedEdges};
pub use hit::{check_rotate, check_selected_edges, classify_interaction, get_cursor, transform_handle_anchors, EdgeHitSample, Interaction, MouseCursorIcon};
pub use snap::{drag_probe, ProbeOutcome, SizeSnapData, SnapProbe};
