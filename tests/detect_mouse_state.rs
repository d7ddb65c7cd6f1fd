use motion_minute::countdown_timer::{PauseOrigin, TimerStatus};
use motion_minute::detect_idling::MonitorAction;
use motion_minute::detect_mouse_state::{
    is_mouse_shaking, pointer_mode_action, max_pairwise_dist2, IdleDetector, Mode, MouseState, ShakeDetector,
    MAX_SHAKE_WINDOW, SHAKE_MIN_DIRECTION_CHANGES, SHAKE_MIN_DISTANCE,
};

#[test]
pub fn test_vec() {
    let mut vec = Vec::with_capacity(5);
    vec.push(1);
    vec.push(2);
    vec.push(3);
    vec.push(4);
    vec.push(5);
    vec.push(6);
    vec.truncate(5);
    println!("{:?}", vec);
}

#[test]
fn shake_on_back_and_forth() {
    assert!(is_mouse_shaking(&[0, 0, 10, 0, 10, 0], 5, 3));
}

#[test]
fn no_shake_on_monotonic_motion() {
    assert!(!is_mouse_shaking(&[0, 1, 2, 3, 4, 5], 5, 3));
}

#[test]
fn shake_needs_three_samples() {
    assert!(!is_mouse_shaking(&[0, 10], 5, 0));
    assert!(is_mouse_shaking(&[0, 0, 0], 5, 0));
}

#[test]
fn shake_ignores_small_moves() {
    assert!(!is_mouse_shaking(&[0, 4, 0, 4, 0, 4, 0], 5, 1));
    assert!(!is_mouse_shaking(&[0, 10, 0, 10], 5, 3));
    assert!(is_mouse_shaking(&[i32::MIN, i32::MAX, i32::MIN, i32::MAX], 5, 2));
}

#[test]
fn shake_detector_clears_after_shake() {
    let mut d = ShakeDetector::new(MAX_SHAKE_WINDOW, SHAKE_MIN_DISTANCE, SHAKE_MIN_DIRECTION_CHANGES);
    assert_eq!(d.push(0), None);
    assert_eq!(d.push(20), None);
    assert_eq!(d.push(0), None);
    assert_eq!(d.push(20), None);
    assert_eq!(d.push(0), Some(MouseState::SHAKE));
    assert_eq!(d.push(20), None);
    assert_eq!(d.push(0), None);
}

#[test]
fn shake_detector_evicts_oldest() {
    let mut d = ShakeDetector::new(3, 5, 1);
    assert_eq!(d.push(0), None);
    assert_eq!(d.push(10), None);
    assert_eq!(d.push(10), None);
    assert_eq!(d.push(10), None);
    assert_eq!(d.push(0), None);
    assert_eq!(d.push(10), Some(MouseState::SHAKE));
}

#[test]
fn max_distance_of_points() {
    let pts = vec![(0, 0), (3, 4), (1, 1)];
    assert_eq!(max_pairwise_dist2(&pts, 0), 25);
    assert_eq!(max_pairwise_dist2(&pts, 1), 13);
    assert_eq!(max_pairwise_dist2(&pts, 2), 0);
    let far = vec![(i32::MIN, i32::MIN), (i32::MAX, i32::MAX)];
    assert_eq!(max_pairwise_dist2(&far, 0), 2 * (u32::MAX as u128) * (u32::MAX as u128));
}

#[test]
fn idle_detector_switches_modes() {
    let mut d = IdleDetector::new(3, 2, 5);
    assert_eq!(d.mode(), Mode::Working);
    assert_eq!(d.push((0, 0)), None);
    assert_eq!(d.push((1, 1)), None);
    assert_eq!(d.push((2, 0)), Some(Mode::Idle));
    assert_eq!(d.mode(), Mode::Idle);
    assert_eq!(d.push((3, 1)), None);
    assert_eq!(d.push((30, 1)), Some(Mode::Working));
    assert_eq!(d.push((30, 2)), None);
    assert_eq!(d.push((31, 2)), Some(Mode::Idle));
}

#[test]
fn idle_detector_exact_threshold() {
    let mut d = IdleDetector::new(2, 2, 5);
    assert_eq!(d.push((0, 0)), None);
    assert_eq!(d.push((3, 4)), None);
    assert_eq!(d.push((3, 5)), Some(Mode::Idle));
    assert_eq!(d.push((6, 9)), None);
    assert_eq!(d.push((6, 15)), Some(Mode::Working));
}

#[test]
fn pointer_modes_leave_user_pause_alone() {
    let user = TimerStatus::Paused(PauseOrigin::User, 5);
    assert_eq!(pointer_mode_action(Mode::Idle, &user), MonitorAction::Nothing);
    assert_eq!(pointer_mode_action(Mode::Working, &user), MonitorAction::Nothing);
    assert_eq!(pointer_mode_action(Mode::Idle, &TimerStatus::Active(5)), MonitorAction::Pause(PauseOrigin::Idle));
    assert_eq!(pointer_mode_action(Mode::Working, &TimerStatus::Paused(PauseOrigin::Idle, 5)), MonitorAction::Resume);
    assert_eq!(pointer_mode_action(Mode::Working, &TimerStatus::Active(5)), MonitorAction::Nothing);
    assert_eq!(pointer_mode_action(Mode::Idle, &TimerStatus::Finished), MonitorAction::Nothing);
}
