use parasite_protocol::camera::{
    drag_world_delta, keyboard_pan_delta, CameraBounds, CameraState, DragState,
};

#[test]
fn new_camera_at_origin_zoom_one() {
    let c = CameraState::new();
    assert_eq!((c.x_milli, c.y_milli, c.zoom_milli), (0, 0, 1000));
}

#[test]
fn scroll_moves_zoom_by_tenth_per_line() {
    let mut c = CameraState::new();
    // one line up: zoom 1.0 - 0.1 = 0.9
    c.handle_scroll(1_000);
    assert_eq!(c.zoom_milli, 900);
    // one line down: back to 1.0
    c.handle_scroll(-1_000);
    assert_eq!(c.zoom_milli, 1000);
}

#[test]
fn zoom_clamps_to_bounds() {
    let mut c = CameraState::new();
    c.handle_scroll(1_000_000);
    assert_eq!(c.zoom_milli, 100);
    c.handle_scroll(-1_000_000);
    assert_eq!(c.zoom_milli, 5000);
}

#[test]
fn scroll_sequence_folds_each_event_in_order() {
    let mut c = CameraState::new();
    // 1.0 -> 0.9 -> clamp(0.9 + 0.3) = 1.2 -> 1.15
    let events: Vec<i64> = vec![1_000, -3_000, 500];
    c.handle_scroll_events(&events);
    assert_eq!(c.zoom_milli, 1_150);
    // an empty sequence leaves the scale unchanged
    c.handle_scroll_events(&Vec::new());
    assert_eq!(c.zoom_milli, 1_150);
}

#[test]
fn pan_sequence_folds_each_frame_in_order() {
    let bounds = CameraBounds::default();
    let mut c = CameraState::new();
    // x: clamp(250) = 100, then 100 - 50 = 50; y: 0, then 30
    let deltas: Vec<(i64, i64)> = vec![(250_000, 0), (-50_000, 30_000)];
    c.apply_pan_frames(&deltas, &bounds);
    assert_eq!((c.x_milli, c.y_milli), (50_000, 30_000));
    // an empty sequence leaves the position unchanged
    c.apply_pan_frames(&Vec::new(), &bounds);
    assert_eq!((c.x_milli, c.y_milli), (50_000, 30_000));
}

#[test]
fn zoom_stays_in_range_over_any_scroll_sequence() {
    let mut c = CameraState::new();
    let events: Vec<i64> = vec![500, -40_000, 123, 999_999_999, -999_999_999, 7, -7, 0];
    c.handle_scroll_events(&events);
    assert!(c.zoom_milli >= 100 && c.zoom_milli <= 5000);
    let more: Vec<i64> = (0..1000).map(|i: i64| (i - 500) * 1_000).collect();
    c.handle_scroll_events(&more);
    assert!(c.zoom_milli >= 100 && c.zoom_milli <= 5000);
}

#[test]
fn pan_clamps_to_bounds_rectangle() {
    let bounds = CameraBounds::default();
    let mut c = CameraState::new();
    c.step_frame(300_000, -50_000, 0, 0, &bounds);
    assert_eq!((c.x_milli, c.y_milli), (100_000, -50_000));
    c.step_frame(0, -300_000, 0, 0, &bounds);
    assert_eq!((c.x_milli, c.y_milli), (100_000, -100_000));
}

#[test]
fn position_stays_in_bounds_over_any_pan_sequence() {
    let bounds = CameraBounds::default();
    let mut c = CameraState::new();
    let deltas: Vec<(i64, i64)> = vec![
        (250_000, 0),
        (-900_000, 123_456),
        (33, -33),
        (999_999_999, 999_999_999),
        (-1, -1),
    ];
    c.apply_pan_frames(&deltas, &bounds);
    assert!(c.x_milli >= -100_000 && c.x_milli <= 100_000);
    assert!(c.y_milli >= -100_000 && c.y_milli <= 100_000);
}

#[test]
fn keyboard_pan_single_axis() {
    // 200 units/sec for 16 ms: 3.2 units
    let (dx, dy) = keyboard_pan_delta(false, false, false, true, 16);
    assert_eq!((dx, dy), (3_200, 0));
    let (dx, dy) = keyboard_pan_delta(true, false, false, false, 16);
    assert_eq!((dx, dy), (0, 3_200));
}

#[test]
fn keyboard_pan_diagonal_normalized() {
    // both axes held: each component scaled by cos(45 deg)
    let (dx, dy) = keyboard_pan_delta(true, false, false, true, 16);
    assert_eq!((dx, dy), (2_262, 2_262));
}

#[test]
fn keyboard_pan_opposite_keys_cancel() {
    let (dx, dy) = keyboard_pan_delta(true, true, true, true, 16);
    assert_eq!((dx, dy), (0, 0));
}

#[test]
fn drag_delta_converts_screen_to_world() {
    // 128 px right, 72 px down on a 1280x720 view at zoom 1.0:
    // x flips sign, y does not
    let (dx, dy) = drag_world_delta(128_000, 72_000, 1_000, 1_280_000, 720_000);
    assert_eq!((dx, dy), (-100, 100));
}

#[test]
fn drag_gesture_tracks_press_move_release() {
    let mut d = DragState::new();
    // press over the cursor: drag begins, no motion yet
    let delta = d.update(true, false, Some((10_000, 20_000)), 1_000, 1_280_000, 720_000);
    assert!(d.is_dragging);
    assert_eq!(delta, (0, 0));
    // cursor moves 128 px right, 72 px down
    let delta = d.update(false, false, Some((138_000, 92_000)), 1_000, 1_280_000, 720_000);
    assert_eq!(delta, (-100, 100));
    assert_eq!((d.last_x_milli, d.last_y_milli), (138_000, 92_000));
    // release: drag ends, later motion moves nothing
    let delta = d.update(false, true, Some((150_000, 92_000)), 1_000, 1_280_000, 720_000);
    assert!(!d.is_dragging);
    assert_eq!(delta, (0, 0));
    let delta = d.update(false, false, Some((999_000, 92_000)), 1_000, 1_280_000, 720_000);
    assert_eq!(delta, (0, 0));
}

#[test]
fn drag_without_cursor_does_not_begin() {
    let mut d = DragState::new();
    let delta = d.update(true, false, None, 1_000, 1_280_000, 720_000);
    assert!(!d.is_dragging);
    assert_eq!(delta, (0, 0));
}
