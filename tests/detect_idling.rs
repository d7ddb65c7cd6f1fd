use motion_minute::countdown_timer::{CountdownTimer, PauseOrigin, TimerStatus};
use motion_minute::detect_idling::{
    apply_action, ActivityMonitor, ActivitySample, Mode, MonitorAction, MIN_ACTIVE_DURATION_S,
};

fn sample(idle: u64, status: TimerStatus) -> ActivitySample {
    ActivitySample { idle_seconds: Some(idle), blocking_app: None, enabled: true, timer_status: status }
}

fn run(m: &mut ActivityMonitor, t: &mut CountdownTimer, idle: u64) -> MonitorAction {
    let s = sample(idle, t.timer_status());
    let a = m.step(&s);
    apply_action(t, a.clone());
    a
}

#[test]
fn idle_pauses_then_streak_resumes() {
    let mut t = CountdownTimer::new();
    t.start(900);
    let mut m = ActivityMonitor::new();
    assert_eq!(run(&mut m, &mut t, 60), MonitorAction::Nothing);
    assert_eq!(run(&mut m, &mut t, 61), MonitorAction::Pause(PauseOrigin::Idle));
    assert_eq!(m.mode, Mode::Pause);
    assert_eq!(t.timer_status(), TimerStatus::Paused(PauseOrigin::Idle, 900));
    assert_eq!(run(&mut m, &mut t, 0), MonitorAction::Nothing);
    assert_eq!(m.active_streak_seconds, 1);
    for _ in 1..(MIN_ACTIVE_DURATION_S - 1) {
        assert_eq!(run(&mut m, &mut t, 0), MonitorAction::Nothing);
    }
    assert_eq!(t.timer_status(), TimerStatus::Paused(PauseOrigin::Idle, 900));
    assert_eq!(run(&mut m, &mut t, 0), MonitorAction::Resume);
    assert_eq!(m.mode, Mode::Working);
    assert_eq!(t.timer_status(), TimerStatus::Active(900));
}

#[test]
fn idle_sample_resets_streak() {
    let mut t = CountdownTimer::new();
    t.start(900);
    let mut m = ActivityMonitor::new();
    run(&mut m, &mut t, 100);
    for _ in 0..10 {
        run(&mut m, &mut t, 0);
    }
    assert_eq!(m.active_streak_seconds, 10);
    assert_eq!(run(&mut m, &mut t, 70), MonitorAction::Nothing);
    assert_eq!(m.active_streak_seconds, 0);
    for _ in 0..(MIN_ACTIVE_DURATION_S - 1) {
        assert_eq!(run(&mut m, &mut t, 0), MonitorAction::Nothing);
    }
    assert_eq!(run(&mut m, &mut t, 0), MonitorAction::Resume);
}

#[test]
fn user_pause_is_never_lifted() {
    let mut t = CountdownTimer::new();
    t.start(900);
    let mut m = ActivityMonitor { mode: Mode::Pause, active_streak_seconds: 0 };
    t.pause(PauseOrigin::User);
    for _ in 0..100 {
        assert_eq!(run(&mut m, &mut t, 0), MonitorAction::Nothing);
    }
    assert_eq!(t.timer_status(), TimerStatus::Paused(PauseOrigin::User, 900));
    t.toggle(PauseOrigin::User);
    assert_eq!(t.timer_status(), TimerStatus::Active(900));
}

#[test]
fn failed_idle_query_counts_as_active() {
    let mut m = ActivityMonitor { mode: Mode::Pause, active_streak_seconds: 5 };
    let s = ActivitySample {
        idle_seconds: None,
        blocking_app: None,
        enabled: true,
        timer_status: TimerStatus::Paused(PauseOrigin::Idle, 10),
    };
    assert_eq!(m.step(&s), MonitorAction::Nothing);
    assert_eq!(m.active_streak_seconds, 6);
}

#[test]
fn disabled_monitor_keeps_counting_without_calls() {
    let mut m = ActivityMonitor::new();
    let s = ActivitySample {
        idle_seconds: Some(500),
        blocking_app: None,
        enabled: false,
        timer_status: TimerStatus::Active(10),
    };
    assert_eq!(m.step(&s), MonitorAction::Nothing);
    assert_eq!(m.mode, Mode::Working);
    assert_eq!(m.active_streak_seconds, 0);
}

#[test]
fn blocking_app_pauses_near_the_end() {
    let mut m = ActivityMonitor::new();
    let far = ActivitySample {
        idle_seconds: Some(0),
        blocking_app: Some("Keynote".to_string()),
        enabled: true,
        timer_status: TimerStatus::Active(10),
    };
    assert_eq!(m.step(&far), MonitorAction::Nothing);
    let near = ActivitySample { timer_status: TimerStatus::Active(9), ..far.clone() };
    assert_eq!(m.step(&near), MonitorAction::Pause(PauseOrigin::PreventSleep("Keynote".to_string())));
    assert_eq!(m.mode, Mode::Pause);
    let still = ActivitySample {
        timer_status: TimerStatus::Paused(PauseOrigin::PreventSleep("Keynote".to_string()), 9),
        ..far.clone()
    };
    assert_eq!(m.active_streak_seconds, 2);
    for _ in 0..(MIN_ACTIVE_DURATION_S - 3) {
        assert_eq!(m.step(&still), MonitorAction::Nothing);
    }
    assert_eq!(m.step(&still), MonitorAction::Resume);
    assert_eq!(m.mode, Mode::Working);
}

#[test]
fn idle_sample_keeps_user_pause_in_working_mode() {
    let mut t = CountdownTimer::new();
    t.start(100);
    t.pause(PauseOrigin::User);
    let mut m = ActivityMonitor::new();
    assert_eq!(run(&mut m, &mut t, 61), MonitorAction::Nothing);
    assert_eq!(m.mode, Mode::Working);
    assert_eq!(t.timer_status(), TimerStatus::Paused(PauseOrigin::User, 100));
    for _ in 0..(2 * MIN_ACTIVE_DURATION_S) {
        run(&mut m, &mut t, 0);
    }
    assert_eq!(t.timer_status(), TimerStatus::Paused(PauseOrigin::User, 100));
}
