use vstd::prelude::*;
use vstd::string::StringExecFns;
use crate::countdown_timer::{PauseOrigin, TimerStatus};
use crate::pretty_time::{pretty_seconds, pretty_seconds_spec};

verus! {

/// The tray title for a status; none while no countdown runs.
pub open spec fn tray_title_spec(status: TimerStatus) -> Option<Seq<char>> {
    match status {
        TimerStatus::NotStarted(_) => None,
        TimerStatus::Active(d) => Some(pretty_seconds_spec(d as nat)),
        TimerStatus::Paused(PauseOrigin::Idle, _) => Some("Idle"@),
        TimerStatus::Paused(PauseOrigin::PreventSleep(_), _) => Some("Busy"@),
        TimerStatus::Paused(PauseOrigin::User, _) => Some("Paused"@),
        TimerStatus::Finished => None,
    }
}

pub fn tray_title(status: &TimerStatus) -> (r: Option<String>)
    ensures
        r matches Some(t) ==> tray_title_spec(*status) == Some(t@),
        r is None ==> tray_title_spec(*status) is None,
{
    match status {
        TimerStatus::NotStarted(_) => None,
        TimerStatus::Active(duration) => Some(pretty_seconds(*duration as u64)),
        TimerStatus::Paused(origin, _) => match origin {
            PauseOrigin::Idle => Some(String::from_str("Idle")),
            PauseOrigin::PreventSleep(_) => Some(String::from_str("Busy")),
            PauseOrigin::User => Some(String::from_str("Paused")),
        },
        TimerStatus::Finished => None,
    }
}

/// Seconds before the break from which the "starting soon" notice shows.
pub const START_SOON_S: u32 = 6;

/// Whether the "starting soon" notice shows: the countdown is in its last
/// seconds and the settings window is not open.
pub fn should_show_countdown(status: &TimerStatus, settings_visible: bool) -> (r: bool)
    ensures
        r == (*status matches TimerStatus::Active(c) && 0 < c < START_SOON_S && !settings_visible),
{
    match status {
        TimerStatus::Active(countdown) => *countdown > 0 && *countdown < START_SOON_S && !settings_visible,
        _ => false,
    }
}

} // verus!
