use transformation_cage::{
    check_rotate, check_selected_edges, classify_interaction, drag_probe, get_cursor, transform_handle_anchors,
    Anchor, AnchorPoint, AspectFit, AxisPivot, Bound, EdgeHitSample, Interaction, MouseCursorIcon, ProbeOutcome,
    SelectedEdges, SizeSnapData, SnapProbe,
};

fn sample() -> EdgeHitSample {
    EdgeHitSample {
        inside_extended: true,
        near_top: false,
        near_bottom: false,
        near_left: false,
        near_right: false,
        narrow_x: false,
        narrow_y: false,
        flat_x: false,
        flat_y: false,
    }
}

fn all_edge_subsets() -> Vec<SelectedEdges> {
    let mut v = Vec::new();
    for bits in 0u8..16 {
        v.push(SelectedEdges::new(bits & 1 != 0, bits & 2 != 0, bits & 4 != 0, bits & 8 != 0));
    }
    v
}

#[test]
fn pivot_opposite_single_edges() {
    let top = SelectedEdges::new(true, false, false, false);
    assert_eq!(top.calculate_pivot(), AnchorPoint { x: Anchor::Mid, y: Anchor::Max });
    let bottom = SelectedEdges::new(false, true, false, false);
    assert_eq!(bottom.calculate_pivot(), AnchorPoint { x: Anchor::Mid, y: Anchor::Min });
    let left = SelectedEdges::new(false, false, true, false);
    assert_eq!(left.calculate_pivot(), AnchorPoint { x: Anchor::Max, y: Anchor::Mid });
    let right = SelectedEdges::new(false, false, false, true);
    assert_eq!(right.calculate_pivot(), AnchorPoint { x: Anchor::Min, y: Anchor::Mid });
    let none = SelectedEdges::new(false, false, false, false);
    assert_eq!(none.calculate_pivot(), AnchorPoint { x: Anchor::Mid, y: Anchor::Mid });
}

#[test]
fn pivot_never_on_moved_bound() {
    for e in all_edge_subsets() {
        let pivot = e.calculate_pivot();
        let plan = e.resize_plan(false, false);
        for (anchor, moved) in [(pivot.x, plan.x.moved), (pivot.y, plan.y.moved)] {
            match moved {
                Some(Bound::Min) => assert_eq!(anchor, Anchor::Max),
                Some(Bound::Max) => assert_eq!(anchor, Anchor::Min),
                None => assert_eq!(anchor, Anchor::Mid),
            }
        }
        assert_eq!(plan.x.pivot, AxisPivot::Anchor(pivot.x));
        assert_eq!(plan.y.pivot, AxisPivot::Anchor(pivot.y));
    }
}

#[test]
fn top_right_corner_aspect_locked() {
    // bounds [(0,0),(10,10)]: the pivot is (min.x, max.y) = (0, 10)
    let e = SelectedEdges::new(true, false, false, true);
    assert_eq!(e.calculate_pivot(), AnchorPoint { x: Anchor::Min, y: Anchor::Max });
    let plan = e.resize_plan(false, true);
    assert_eq!(plan.x.moved, Some(Bound::Max));
    assert_eq!(plan.y.moved, Some(Bound::Min));
    assert_eq!(plan.fit, Some(AspectFit::Corner));
    assert_eq!(plan.probe, SnapProbe::TowardPivot);
    assert!(plan.x.scaled && plan.y.scaled);
}

#[test]
fn no_edges_keep_bounds() {
    let e = SelectedEdges::new(false, false, false, false);
    for centered in [false, true] {
        let plan = e.resize_plan(centered, false);
        assert_eq!(plan.x.moved, None);
        assert_eq!(plan.y.moved, None);
        assert_eq!(plan.x.mirrored, None);
        assert_eq!(plan.y.mirrored, None);
        assert_eq!(plan.fit, None);
        assert!(!plan.x.scaled && !plan.y.scaled);
        assert_eq!(e.resize_plan(centered, true).fit, Some(AspectFit::Keep));
    }
}

#[test]
fn centered_resize_mirrors_opposite_bound() {
    let e = SelectedEdges::new(false, true, true, false);
    let plan = e.resize_plan(true, false);
    assert_eq!(plan.x.moved, Some(Bound::Min));
    assert_eq!(plan.x.mirrored, Some(Bound::Max));
    assert_eq!(plan.x.pivot, AxisPivot::Center);
    assert_eq!(plan.y.moved, Some(Bound::Max));
    assert_eq!(plan.y.mirrored, Some(Bound::Min));
    assert_eq!(plan.y.pivot, AxisPivot::Center);
    assert_eq!(plan.probe, SnapProbe::Free);
    assert_eq!(plan.fit, None);
}

#[test]
fn low_edge_wins_when_both_grabbed() {
    let e = SelectedEdges::new(true, true, false, false);
    let plan = e.resize_plan(false, false);
    assert_eq!(plan.y.moved, Some(Bound::Min));
    assert_eq!(e.calculate_pivot().y, Anchor::Max);
}

#[test]
fn aspect_fit_modes_and_probes() {
    let vertical = SelectedEdges::new(true, false, false, false);
    assert_eq!(vertical.resize_plan(false, true).fit, Some(AspectFit::WidthFromHeight));
    assert_eq!(vertical.resize_plan(false, false).probe, SnapProbe::AlongY);
    let p = vertical.resize_plan(false, false);
    assert!(!p.x.scaled && p.y.scaled);
    let horizontal = SelectedEdges::new(false, false, false, true);
    assert_eq!(horizontal.resize_plan(false, true).fit, Some(AspectFit::HeightFromWidth));
    assert_eq!(horizontal.resize_plan(false, false).probe, SnapProbe::AlongX);
    let none = SelectedEdges::new(false, false, false, false);
    assert_eq!(none.resize_plan(false, false).probe, SnapProbe::AlongX);
}

#[test]
fn hit_outside_extended_region() {
    let s = EdgeHitSample { inside_extended: false, near_top: true, near_left: true, ..sample() };
    assert_eq!(check_selected_edges(&s), None);
}

#[test]
fn hit_inside_box_away_from_edges() {
    assert_eq!(check_selected_edges(&sample()), None);
}

#[test]
fn hit_corner_reports_two_edges() {
    let s = EdgeHitSample { near_top: true, near_left: true, ..sample() };
    assert_eq!(check_selected_edges(&s), Some(SelectedEdges::new(true, false, true, false)));
}

#[test]
fn hit_small_box_prefers_single_axis() {
    // narrow along y with a left hit: top and bottom drop out
    let s = EdgeHitSample { near_top: true, near_bottom: true, near_left: true, narrow_y: true, ..sample() };
    assert_eq!(check_selected_edges(&s), Some(SelectedEdges::new(false, false, true, false)));
    // narrow along x with a top hit: left and right drop out
    let s = EdgeHitSample { near_top: true, near_left: true, near_right: true, narrow_x: true, ..sample() };
    assert_eq!(check_selected_edges(&s), Some(SelectedEdges::new(true, false, false, false)));
}

#[test]
fn hit_flat_width_disables_left_right() {
    let s = EdgeHitSample { near_left: true, near_right: true, flat_x: true, ..sample() };
    assert_eq!(check_selected_edges(&s), None);
    let s = EdgeHitSample { near_top: true, near_left: true, near_right: true, flat_x: true, ..sample() };
    assert_eq!(check_selected_edges(&s), Some(SelectedEdges::new(true, false, false, false)));
    let s = EdgeHitSample { near_top: true, near_bottom: true, near_left: true, flat_y: true, ..sample() };
    assert_eq!(check_selected_edges(&s), Some(SelectedEdges::new(false, false, true, false)));
}

#[test]
fn rotate_ring() {
    assert!(check_rotate(true, true));
    assert!(!check_rotate(false, true));
    assert!(!check_rotate(true, false));
    assert!(!check_rotate(false, false));
}

#[test]
fn cursor_icons() {
    let e = |t, b, l, r| Some(SelectedEdges::new(t, b, l, r));
    assert_eq!(get_cursor(e(true, false, false, false), false, false), MouseCursorIcon::NSResize);
    assert_eq!(get_cursor(e(false, true, false, false), false, false), MouseCursorIcon::NSResize);
    assert_eq!(get_cursor(e(false, false, true, false), false, false), MouseCursorIcon::EWResize);
    assert_eq!(get_cursor(e(false, false, false, true), false, false), MouseCursorIcon::EWResize);
    assert_eq!(get_cursor(e(true, false, true, false), false, false), MouseCursorIcon::NWSEResize);
    assert_eq!(get_cursor(e(false, true, false, true), false, false), MouseCursorIcon::NWSEResize);
    assert_eq!(get_cursor(e(true, false, false, true), false, false), MouseCursorIcon::NESWResize);
    assert_eq!(get_cursor(e(false, true, true, false), false, false), MouseCursorIcon::NESWResize);
    assert_eq!(get_cursor(None, true, true), MouseCursorIcon::Rotate);
    assert_eq!(get_cursor(None, false, true), MouseCursorIcon::Default);
    assert_eq!(get_cursor(None, true, false), MouseCursorIcon::Default);
}

#[test]
fn resize_wins_over_rotate() {
    let s = EdgeHitSample { near_right: true, ..sample() };
    let edges = check_selected_edges(&s);
    assert_eq!(get_cursor(edges, true, true), MouseCursorIcon::EWResize);
    assert_eq!(classify_interaction(edges, true, true, false), Interaction::Resizing(SelectedEdges::new(false, false, false, true)));
}

#[test]
fn interaction_classes() {
    assert_eq!(classify_interaction(None, true, true, false), Interaction::Rotating);
    assert_eq!(classify_interaction(None, false, true, false), Interaction::Idle);
    assert_eq!(classify_interaction(None, true, false, true), Interaction::Dragging);
    assert_eq!(classify_interaction(None, true, false, false), Interaction::Idle);
}

#[test]
fn handle_order() {
    let h = transform_handle_anchors();
    let p = |x, y| AnchorPoint { x, y };
    assert_eq!(
        h,
        vec![
            p(Anchor::Min, Anchor::Min),
            p(Anchor::Min, Anchor::Mid),
            p(Anchor::Min, Anchor::Max),
            p(Anchor::Mid, Anchor::Min),
            p(Anchor::Mid, Anchor::Max),
            p(Anchor::Max, Anchor::Min),
            p(Anchor::Max, Anchor::Mid),
            p(Anchor::Max, Anchor::Max),
        ]
    );
}

#[test]
fn drag_probes() {
    assert_eq!(drag_probe(true), SnapProbe::AlongDrag);
    assert_eq!(drag_probe(false), SnapProbe::Free);
}

#[test]
fn snap_pass_keeps_last_improvement() {
    let mut pass = SizeSnapData::new(5);
    assert!(!pass.use_existing_candidates());
    assert_eq!(pass.best(), None);
    pass.record(ProbeOutcome::Missed);
    assert!(pass.use_existing_candidates());
    pass.record(ProbeOutcome::Snapped { better: true });
    pass.record(ProbeOutcome::OutOfTolerance);
    pass.record(ProbeOutcome::Snapped { better: false });
    assert_eq!(pass.best(), Some(1));
    assert!(pass.has_pending());
    pass.record(ProbeOutcome::Snapped { better: true });
    assert_eq!(pass.best(), Some(4));
    assert!(!pass.has_pending());
}

#[test]
fn snap_pass_all_miss_falls_back() {
    let mut pass = SizeSnapData::new(3);
    pass.record(ProbeOutcome::Missed);
    pass.record(ProbeOutcome::OutOfTolerance);
    pass.record(ProbeOutcome::Snapped { better: false });
    assert_eq!(pass.best(), None);
}

#[test]
fn snap_pass_empty() {
    let pass = SizeSnapData::new(0);
    assert!(!pass.has_pending());
    assert_eq!(pass.best(), None);
}
