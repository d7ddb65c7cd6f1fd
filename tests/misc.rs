use motion_minute::app_config::AppConfig;
use motion_minute::countdown_timer::{PauseOrigin, TimerStatus};
use motion_minute::license_manager::{LicenseStatus, PaidDetails, TrialDetails, ValidTypes};
use motion_minute::model::device::DeviceId;
use motion_minute::model::settings::{default_feedback_provided, default_session_count, SettingsSystemDetails};
use motion_minute::session_repository::{SessionRepository, EXERCISE_COUNT};
use motion_minute::session_timer::SessionTimer;
use motion_minute::countdown_timer::CountdownTimer;
use motion_minute::model::session::{DrinkCharacter, GenderType, SipSize};
use motion_minute::model::welcome::WelcomeUserSettings;
use motion_minute::settings_manager::{apply_user_settings, merge_welcome, update_user, UserSettingsStore};
use motion_minute::settings_system::{FeedbackDisplay, SettingsSystem};
use motion_minute::tracking::{to_license_status_name, Event};
use motion_minute::tray::{should_show_countdown, tray_title};

#[test]
fn event_names() {
    assert_eq!(Event::Install.name(), "install");
    assert_eq!(Event::ResetSettings.name(), "reset_settings");
    assert_eq!(Event::DrinkReminder.name(), "start_session");
    assert_eq!(Event::WelcomeQuit("step2".to_string()).name(), "welcome_quit_step2");
}

#[test]
fn license_names_and_activity() {
    let trial = LicenseStatus::Valid(ValidTypes::Trial(TrialDetails { expired_at: 0 }));
    let paid = LicenseStatus::Valid(ValidTypes::Paid(PaidDetails { license_key: "k".to_string() }));
    assert_eq!(to_license_status_name(&trial), "trial");
    assert_eq!(to_license_status_name(&paid), "paid");
    assert_eq!(to_license_status_name(&LicenseStatus::Valid(ValidTypes::Full)), "full");
    assert_eq!(to_license_status_name(&LicenseStatus::Expired("x".to_string())), "expired");
    assert_eq!(to_license_status_name(&LicenseStatus::Invalid("offline".to_string())), "invalid_offline");
    assert!(trial.is_active());
    assert!(!LicenseStatus::Expired("x".to_string()).is_active());
}

#[test]
fn tray_titles() {
    assert_eq!(tray_title(&TimerStatus::NotStarted(0)), None);
    assert_eq!(tray_title(&TimerStatus::Active(125)), Some("2m".to_string()));
    assert_eq!(tray_title(&TimerStatus::Paused(PauseOrigin::Idle, 1)), Some("Idle".to_string()));
    assert_eq!(tray_title(&TimerStatus::Paused(PauseOrigin::PreventSleep("V".to_string()), 1)), Some("Busy".to_string()));
    assert_eq!(tray_title(&TimerStatus::Paused(PauseOrigin::User, 1)), Some("Paused".to_string()));
    assert_eq!(tray_title(&TimerStatus::Finished), None);
}

#[test]
fn start_soon_notice() {
    assert!(should_show_countdown(&TimerStatus::Active(5), false));
    assert!(!should_show_countdown(&TimerStatus::Active(6), false));
    assert!(!should_show_countdown(&TimerStatus::Active(0), false));
    assert!(!should_show_countdown(&TimerStatus::Active(3), true));
    assert!(!should_show_countdown(&TimerStatus::Finished, false));
}

#[test]
fn device_hash_is_sha256_hex() {
    let d = DeviceId::new("abc".to_string());
    assert_eq!(
        d.get_hash_hex_id(),
        "ba7816bf8f01cfea414140de5dae2223b00361a396177a9cb410ff61f20015ad"
    );
}

#[test]
fn app_config_url() {
    assert_eq!(AppConfig::build().get_url(), "https://just-drink.app");
}

#[test]
fn settings_defaults_and_update() {
    let d = UserSettingsStore::default();
    assert_eq!(d.version, "0.0.0");
    assert_eq!(d.user.next_break_duration_minutes, 15);
    assert_eq!(d.user.drink_amount_ml, 3000);
    assert!(d.user.enable_idle_detection);
    let mut user = d.user;
    user.active = false;
    let fresh = update_user(None, "1.2.3".to_string(), user);
    assert_eq!(fresh.version, "1.2.3");
    assert!(!fresh.user.active);
    let kept = update_user(Some(d.clone()), "9.9.9".to_string(), user);
    assert_eq!(kept.version, "0.0.0");
    assert_eq!(default_session_count(), 0);
    assert!(!default_feedback_provided());
}

#[test]
fn feedback_is_asked_at_listed_counts() {
    let mut s = SettingsSystem::new(0);
    assert!(!s.should_show_feedback());
    s.increase_session_count();
    s.increase_session_count();
    s.increase_session_count();
    assert!(s.should_show_feedback());
    s.feedback_given();
    assert!(!s.should_show_feedback());
    let t = SettingsSystem {
        settings: SettingsSystemDetails { session_count: 233, feedback_provided: false, last_update_check_date: 0 },
    };
    assert!(t.should_show_feedback());
}

#[test]
fn update_check_after_two_days() {
    let mut s = SettingsSystem::new(1_000);
    assert!(!s.updater_check_needed(1_000 + 172_800));
    assert!(s.updater_check_needed(1_000 + 172_801));
    s.set_last_check_date(i64::MAX);
    assert!(!s.updater_check_needed(i64::MAX));
}

#[test]
fn session_timer_counts_down() {
    let mut t = SessionTimer::new();
    assert_eq!(t.remaining_time(5), None);
    assert!(t.start(30_000, 1_000));
    assert!(t.is_running());
    assert_eq!(t.remaining_time(11_000), Some(20_000));
    assert_eq!(t.remaining_time(500), Some(30_000));
    assert_eq!(t.remaining_time(40_000), Some(0));
    assert!(!t.start(10_000, 2_000));
    t.finish();
    assert!(!t.is_running());
    t.stop();
    assert_eq!(t.remaining_time(2_000), None);
}

#[test]
fn repository_shows_each_exercise_once_per_round() {
    let mut r = SessionRepository::new();
    let mut seen = Vec::new();
    for _ in 0..EXERCISE_COUNT {
        let i = r.pick_session(0).unwrap();
        assert!(!seen.contains(&i));
        seen.push(i);
    }
    assert_eq!(seen, (0..EXERCISE_COUNT).collect::<Vec<_>>());
    assert_eq!(r.pick_session(3), Some(3));
    assert_eq!(r.pick_session(3), Some(4));
    assert_eq!(r.pick_session(25), Some(7));
    assert_eq!(r.exercise(0).id.0, "rotate-your-head");
    assert_eq!(r.exercise(11).id.0, "elbow-to-knee");
}

#[test]
fn repository_random_pick_covers_catalogue() {
    let mut r = SessionRepository::new();
    let mut ids = Vec::new();
    for _ in 0..EXERCISE_COUNT {
        let e = r.pick_random_session().unwrap();
        assert!(!ids.contains(&e.id));
        ids.push(e.id.clone());
    }
    assert_eq!(ids.len(), EXERCISE_COUNT);
    assert!(r.pick_random_session().is_some());
}

#[test]
fn welcome_choices_replace_user_settings() {
    let current = UserSettingsStore::default().user;
    let welcome = WelcomeUserSettings {
        next_break_duration_minutes: 25,
        drink_amount_ml: 2000,
        sip_size: SipSize::HalfCup,
        character: DrinkCharacter::YoungWoman,
        gender_type: GenderType::Other,
    };
    let merged = merge_welcome(current, &welcome, None);
    assert_eq!(merged.next_break_duration_minutes, 25);
    assert_eq!(merged.drink_amount_ml, 2000);
    assert_eq!(merged.sip_size, SipSize::HalfCup);
    assert_eq!(merged.character, DrinkCharacter::YoungWoman);
    assert!(!merged.consent);
    assert!(merged.enable_idle_detection);
    assert!(merge_welcome(current, &welcome, Some(true)).consent);
}

#[test]
fn settings_start_or_stop_the_countdown() {
    let mut t = CountdownTimer::new();
    let mut user = UserSettingsStore::default().user;
    apply_user_settings(&mut t, &user);
    assert_eq!(t.timer_status(), TimerStatus::Active(900));
    assert_eq!(t.remaining_ms(), 900_000);
    user.active = false;
    apply_user_settings(&mut t, &user);
    assert!(!t.is_ticking());
    assert_eq!(t.remaining_ms(), 0);
}
