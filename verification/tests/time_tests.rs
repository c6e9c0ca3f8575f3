use parasite_protocol::time_scale::TimeScale;

#[test]
fn new_time_scale_runs_at_normal_speed() {
    let t = TimeScale::new();
    assert_eq!(t.scale_milli, 1000);
    assert!(!t.is_paused);
    assert_eq!(t.effective_scale(), 1000);
}

#[test]
fn paused_effective_scale_is_zero() {
    let mut t = TimeScale::new();
    t.handle_pause_input(true);
    assert!(t.is_paused);
    assert_eq!(t.effective_scale(), 0);
    // the selected speed is remembered underneath
    assert_eq!(t.scale_milli, 1000);
}

#[test]
fn toggling_pause_twice_restores_state() {
    let mut t = TimeScale::new();
    let was_paused = t.is_paused;
    t.handle_pause_input(true);
    t.handle_pause_input(true);
    assert_eq!(t.is_paused, was_paused);
    assert_eq!(t.effective_scale(), 1000);
}

#[test]
fn pause_key_not_pressed_changes_nothing() {
    let mut t = TimeScale::new();
    t.handle_pause_input(false);
    assert!(!t.is_paused);
    assert_eq!(t.scale_milli, 1000);
}

#[test]
fn speed_keys_select_half_normal_double() {
    let mut t = TimeScale::new();
    t.handle_speed_input(true, false, false);
    assert_eq!(t.scale_milli, 500);
    t.handle_speed_input(false, false, true);
    assert_eq!(t.scale_milli, 2000);
    t.handle_speed_input(false, true, false);
    assert_eq!(t.scale_milli, 1000);
}

#[test]
fn speed_key_two_while_unpaused_sets_exactly_one() {
    let mut t = TimeScale::new();
    t.handle_speed_input(true, false, false);
    t.handle_speed_input(false, true, false);
    assert_eq!(t.scale_milli, 1000);
}

#[test]
fn speed_keys_ignored_while_paused() {
    let mut t = TimeScale::new();
    t.handle_pause_input(true);
    t.handle_speed_input(false, true, false);
    assert_eq!(t.scale_milli, 1000);
    t.handle_speed_input(true, false, false);
    assert_eq!(t.scale_milli, 1000);
    // unpause: the scale is as it was
    t.handle_pause_input(true);
    assert_eq!(t.effective_scale(), 1000);
}

#[test]
fn first_pressed_speed_key_wins() {
    let mut t = TimeScale::new();
    t.handle_speed_input(true, true, true);
    assert_eq!(t.scale_milli, 500);
}
