use vstd::prelude::*;
use crate::model::license::LicenseInfo;
use crate::model::session::{DrinkCharacter, SipSize};

verus! {

#[derive(Debug, Clone, Copy, PartialEq, Eq, Structural)]
pub enum WelcomeMode {
    Complete,
    OnlySipSettings,
}

#[derive(Debug, Clone, Copy, PartialEq, Eq, Structural)]
pub enum SettingsTabs {
    Session,
    Tracking,
    License,
    About,
}

#[derive(Debug, Clone, PartialEq, Eq)]
pub struct Settings {
    pub app: AppDetails,
    pub user: SettingsUserDetails,
    pub selected_tab: SettingsTabs,
}

#[derive(Debug, Clone, PartialEq, Eq)]
pub struct AppDetails {
    pub version: String,
    pub license_info: LicenseInfo,
}

#[derive(Debug, Clone, Copy, PartialEq, Eq, Structural)]
pub struct SettingsUserDetails {
    pub next_break_duration_minutes: u32,
    pub drink_amount_ml: u32,
    pub sip_size: SipSize,
    pub character: DrinkCharacter,
    pub consent: bool,
    pub active: bool,
    pub allow_tracking: bool,
    pub enable_on_startup: bool,
    pub beta_version: bool,
    pub enable_idle_detection: bool,
}

/// Counters kept between runs; `last_update_check_date` is in seconds since
/// the Unix epoch.
#[derive(Debug, Clone, Copy, PartialEq, Eq, Structural)]
pub struct SettingsSystemDetails {
    pub session_count: u32,
    pub feedback_provided: bool,
    pub last_update_check_date: i64,
}

pub fn default_session_count() -> (r: u32)
    ensures
        r == 0,
{
    0
}

pub fn default_feedback_provided() -> (r: bool)
    ensures
        !r,
{
    false
}

} // verus!
