use vstd::prelude::*;
use crate::model::settings::SettingsSystemDetails;

verus! {

/// Seconds between two checks for updates.
pub const UPDATE_CHECK_INTERVAL_S: i64 = 172800;

/// Session counts after which the user is asked for feedback.
pub open spec fn ask_interval(n: u32) -> bool {
    n == 3 || n == 13 || n == 21 || n == 34 || n == 55 || n == 89 || n == 100 || n == 144 || n == 233
}

/// The counters kept between runs.
#[derive(Debug, Clone, Copy, PartialEq, Eq, Structural)]
pub struct SettingsSystem {
    pub settings: SettingsSystemDetails,
}

impl SettingsSystem {
    /// Counters of a first run, the update check dated `now`.
    pub fn new(now: i64) -> (r: SettingsSystem)
        ensures
            r.settings == (SettingsSystemDetails { session_count: 0, feedback_provided: false, last_update_check_date: now }),
    {
        SettingsSystem {
            settings: SettingsSystemDetails { session_count: 0, feedback_provided: false, last_update_check_date: now },
        }
    }

    pub fn settings(&self) -> (r: SettingsSystemDetails)
        ensures
            r == self.settings,
    {
        self.settings
    }

    pub fn feedback_given(&mut self)
        ensures
            final(self).settings == (SettingsSystemDetails { feedback_provided: true, ..old(self).settings }),
    {
        self.settings.feedback_provided = true;
    }

    pub fn increase_session_count(&mut self)
        requires
            old(self).settings.session_count < u32::MAX,
        ensures
            final(self).settings == (SettingsSystemDetails {
                session_count: (old(self).settings.session_count + 1) as u32,
                ..old(self).settings
            }),
    {
        self.settings.session_count = self.settings.session_count + 1;
    }

    pub fn set_last_check_date(&mut self, now: i64)
        ensures
            final(self).settings == (SettingsSystemDetails { last_update_check_date: now, ..old(self).settings }),
    {
        self.settings.last_update_check_date = now;
    }

    /// Whether the last check for updates is more than two days before `now`.
    pub fn updater_check_needed(&self, now: i64) -> (r: bool)
        ensures
            r == (self.settings.last_update_check_date + UPDATE_CHECK_INTERVAL_S < now),
    {
        (self.settings.last_update_check_date as i128) + (UPDATE_CHECK_INTERVAL_S as i128) < now as i128
    }
}

/// Whether to ask the user for feedback.
pub trait FeedbackDisplay {
    fn should_show_feedback(&self) -> bool;
}

impl FeedbackDisplay for SettingsSystem {
    fn should_show_feedback(&self) -> bool {
        self.feedback_due()
    }
}

impl SettingsSystem {
    /// Feedback is asked for at the listed session counts, until given.
    pub fn feedback_due(&self) -> (r: bool)
        ensures
            r == (!self.settings.feedback_provided && ask_interval(self.settings.session_count)),
    {
        let n = self.settings.session_count;
        !self.settings.feedback_provided
            && (n == 3 || n == 13 || n == 21 || n == 34 || n == 55 || n == 89 || n == 100 || n == 144 || n == 233)
    }
}

} // verus!
