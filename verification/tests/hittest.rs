//! Hit-testing: resize bands, corner priority, and no-drag precedence.

use lotus_core::geometry::Rect;
use lotus_core::hittest::{
    classify_press, motion_decision, resize_direction, CursorDecision, PressOutcome,
    ResizeDirection,
};

fn rect(x: i32, y: i32, w: i32, h: i32) -> Rect {
    Rect { x, y, width: w, height: h }
}

#[test]
fn corner_directions_win_over_edges() {
    assert_eq!(resize_direction(3, 3, 800, 600), Some(ResizeDirection::NorthWest));
    assert_eq!(resize_direction(797, 3, 800, 600), Some(ResizeDirection::NorthEast));
    assert_eq!(resize_direction(3, 597, 800, 600), Some(ResizeDirection::SouthWest));
    assert_eq!(resize_direction(797, 597, 800, 600), Some(ResizeDirection::SouthEast));
}

#[test]
fn edge_directions() {
    assert_eq!(resize_direction(3, 300, 800, 600), Some(ResizeDirection::West));
    assert_eq!(resize_direction(797, 300, 800, 600), Some(ResizeDirection::East));
    assert_eq!(resize_direction(300, 3, 800, 600), Some(ResizeDirection::North));
    assert_eq!(resize_direction(300, 597, 800, 600), Some(ResizeDirection::South));
}

#[test]
fn interior_is_outside_every_band() {
    assert_eq!(resize_direction(400, 300, 800, 600), None);
    assert_eq!(resize_direction(8, 8, 800, 600), None);
}

#[test]
fn press_in_band_begins_resize() {
    let outcome = classify_press(true, &vec![], &vec![], 3, 3, 800, 600);
    assert_eq!(outcome, PressOutcome::BeginResize(ResizeDirection::NorthWest));
}

#[test]
fn press_in_drag_region_begins_move() {
    let drag = vec![rect(0, 0, 800, 30)];
    let outcome = classify_press(true, &drag, &vec![], 400, 15, 800, 600);
    assert_eq!(outcome, PressOutcome::BeginMove);
}

#[test]
fn no_drag_wins_over_band_and_drag() {
    // The no-drag rectangle covers both a border-band point and a drag
    // rectangle point: neither resize nor move may begin there.
    let drag = vec![rect(0, 0, 800, 30)];
    let no_drag = vec![rect(0, 0, 100, 100)];
    assert_eq!(classify_press(true, &drag, &no_drag, 3, 3, 800, 600), PressOutcome::Forward);
    assert_eq!(classify_press(true, &drag, &no_drag, 50, 15, 800, 600), PressOutcome::Forward);
    // The same drag point outside the no-drag rectangle still moves.
    assert_eq!(classify_press(true, &drag, &no_drag, 400, 15, 800, 600), PressOutcome::BeginMove);
}

#[test]
fn decorated_window_forwards_everything() {
    let drag = vec![rect(0, 0, 800, 600)];
    assert_eq!(classify_press(false, &drag, &vec![], 3, 3, 800, 600), PressOutcome::Forward);
}

#[test]
fn motion_enters_and_leaves_the_band() {
    // Entering the band overrides the cursor and sets the flag.
    let (flag, decision) = motion_decision(true, &vec![], false, 3, 300, 800, 600);
    assert!(flag);
    assert_eq!(decision, CursorDecision::SetResize(ResizeDirection::West));
    // Leaving it resets the cursor once.
    let (flag, decision) = motion_decision(true, &vec![], true, 400, 300, 800, 600);
    assert!(!flag);
    assert_eq!(decision, CursorDecision::SetDefault);
    // Staying outside yields cursor control to the engine.
    let (flag, decision) = motion_decision(true, &vec![], false, 400, 300, 800, 600);
    assert!(!flag);
    assert_eq!(decision, CursorDecision::Yield);
}

#[test]
fn motion_in_no_drag_region_never_overrides() {
    let no_drag = vec![rect(0, 0, 100, 100)];
    // In a no-drag rectangle over the band: no resize cursor; the stale
    // flag is cleared with one reset.
    let (flag, decision) = motion_decision(true, &no_drag, true, 3, 3, 800, 600);
    assert!(!flag);
    assert_eq!(decision, CursorDecision::SetDefault);
    let (flag, decision) = motion_decision(true, &no_drag, false, 3, 3, 800, 600);
    assert!(!flag);
    assert_eq!(decision, CursorDecision::Yield);
}
