use vstd::prelude::*;
use crate::model::session::{DrinkCharacter, GenderType, SipSize};
use crate::model::settings::SettingsUserDetails;

verus! {

#[derive(Debug, Clone, Copy, PartialEq, Eq, Structural)]
pub struct WelcomeUserSettings {
    pub next_break_duration_minutes: u32,
    pub drink_amount_ml: u32,
    pub sip_size: SipSize,
    pub character: DrinkCharacter,
    pub gender_type: GenderType,
}

#[derive(Debug, Clone, PartialEq, Eq)]
pub struct WelcomeLoadSettings {
    pub user: Option<SettingsUserDetails>,
    pub device_id: String,
    pub backend_url: String,
}

} // verus!
