use pusillanipous::input::{
    directional_velocity, horizontal_velocity, vertical_velocity, DirectionState, InputMode,
    MILLISECOND,
};

const MS: u64 = MILLISECOND;

#[test]
fn press_keeps_start_of_hold() {
    let mut key = DirectionState::idle();
    key.press(100);
    key.press(200);
    assert_eq!(key.held_since, Some(100));
    assert_eq!(key.last_seen, Some(200));
    key.release();
    assert_eq!(key, DirectionState::idle());
    assert!(!key.is_active(300, true));
    assert!(!key.is_active(300, false));
}

#[test]
fn hold_window_without_release_events() {
    let mut key = DirectionState::idle();
    key.press(0);
    assert!(key.is_active(220 * MS, false));
    assert!(!key.is_active(220 * MS + 1, false));
    assert!(key.is_active(10_000 * MS, true));
    assert!(key.is_active(0, false));
}

#[test]
fn boost_after_delay() {
    let mut key = DirectionState::idle();
    key.press(100);
    assert!(!key.boosted(100 + 180 * MS - 1, true));
    assert!(key.boosted(100 + 180 * MS, true));
    assert!(!key.boosted(100 + 300 * MS, false));
}

#[test]
fn opposite_keys_cancel() {
    let mut left = DirectionState::idle();
    let mut right = DirectionState::idle();
    left.press(0);
    right.press(0);
    assert_eq!(horizontal_velocity(left, right, 10, true), 0);
    assert_eq!(horizontal_velocity(DirectionState::idle(), DirectionState::idle(), 10, true), 0);
    assert_eq!(horizontal_velocity(DirectionState::idle(), right, 10, true), 2);
    assert_eq!(horizontal_velocity(left, DirectionState::idle(), 10, true), -2);
    assert_eq!(horizontal_velocity(DirectionState::idle(), right, 200 * MS, true), 4);
    assert_eq!(vertical_velocity(left, DirectionState::idle(), 200 * MS, true), -2);
    assert_eq!(vertical_velocity(DirectionState::idle(), right, 10, true), 1);
    assert_eq!(directional_velocity(DirectionState::idle(), right, 200 * MS, true, 5), 10);
}

#[test]
fn enhanced_axis_follows_press_and_release() {
    let mut mode = InputMode::new(true);
    assert_eq!(mode.axis(0), (0, 0));
    mode.press_right(0);
    assert_eq!(mode.axis(1), (2, 0));
    assert_eq!(mode.axis(180 * MS), (4, 0));
    mode.press_up(180 * MS);
    assert_eq!(mode.axis(200 * MS), (4, -1));
    mode.release_right();
    mode.release_up();
    assert_eq!(mode.axis(200 * MS), (0, 0));
}

#[test]
fn fallback_axis_uses_hold_window() {
    let mut mode = InputMode::new(false);
    mode.press_left(0);
    assert_eq!(mode.axis(100 * MS), (-2, 0));
    assert_eq!(mode.axis(200 * MS), (-4, 0));
    assert_eq!(mode.axis(221 * MS), (0, 0));
    mode.press_down(300 * MS);
    mode.press_down(400 * MS);
    assert_eq!(mode.axis(500 * MS), (0, 2));
    mode.release_down();
    mode.release_left();
    assert_eq!(mode.axis(500 * MS), (0, 0));
}
