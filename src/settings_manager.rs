use vstd::prelude::*;
use vstd::string::StringExecFns;
use crate::model::session::{DrinkCharacter, SipSize};
use crate::countdown_timer::CountdownTimer;
use crate::model::settings::SettingsUserDetails;
use crate::model::welcome::WelcomeUserSettings;

verus! {

/// The user's settings as stored, with the version that wrote them.
#[derive(Debug, Clone, PartialEq, Eq)]
pub struct UserSettingsStore {
    pub version: String,
    pub user: SettingsUserDetails,
}

/// The settings of a fresh installation.
pub open spec fn default_user() -> SettingsUserDetails {
    SettingsUserDetails {
        next_break_duration_minutes: 15,
        drink_amount_ml: 3000,
        sip_size: SipSize::FullCup,
        character: DrinkCharacter::YoungMan,
        consent: false,
        active: true,
        allow_tracking: true,
        enable_on_startup: true,
        beta_version: false,
        enable_idle_detection: true,
    }
}

impl Default for UserSettingsStore {
    fn default() -> (r: Self)
        ensures
            r.version@ == "0.0.0"@,
            r.user == default_user(),
    {
        UserSettingsStore {
            version: String::from_str("0.0.0"),
            user: SettingsUserDetails {
                next_break_duration_minutes: 15,
                drink_amount_ml: 3000,
                sip_size: SipSize::FullCup,
                character: DrinkCharacter::YoungMan,
                consent: false,
                active: true,
                allow_tracking: true,
                enable_on_startup: true,
                beta_version: false,
                enable_idle_detection: true,
            },
        }
    }
}

/// The stored settings after the user's part is replaced; a store that was
/// never written takes `version`.
pub fn update_user(current: Option<UserSettingsStore>, version: String, user: SettingsUserDetails) -> (r: UserSettingsStore)
    ensures
        r.user == user,
        r.version == (match current { Some(c) => c.version, None => version }),
{
    match current {
        Some(c) => UserSettingsStore { version: c.version, user },
        None => UserSettingsStore { version, user },
    }
}

/// The user's settings once the welcome wizard is saved: its choices replace
/// the break interval, amount, sip size and character, and the consent when
/// one was given; the rest is kept.
pub fn merge_welcome(current: SettingsUserDetails, settings: &WelcomeUserSettings, consent: Option<bool>) -> (r: SettingsUserDetails)
    ensures
        r == (SettingsUserDetails {
            next_break_duration_minutes: settings.next_break_duration_minutes,
            drink_amount_ml: settings.drink_amount_ml,
            sip_size: settings.sip_size,
            character: settings.character,
            consent: match consent { Some(c) => c, None => current.consent },
            ..current
        }),
{
    SettingsUserDetails {
        next_break_duration_minutes: settings.next_break_duration_minutes,
        drink_amount_ml: settings.drink_amount_ml,
        sip_size: settings.sip_size,
        character: settings.character,
        consent: match consent {
            Some(c) => c,
            None => current.consent,
        },
        ..current
    }
}

/// Applies changed settings to the countdown: an active user gets a fresh
/// countdown of the configured interval, otherwise the countdown stops.
pub fn apply_user_settings(timer: &mut CountdownTimer, settings: &SettingsUserDetails)
    requires
        settings.next_break_duration_minutes as int * 60 <= u32::MAX,
    ensures
        final(timer)@ == if settings.active {
            old(timer)@.start((settings.next_break_duration_minutes * 60) as u32)
        } else {
            old(timer)@.stop()
        },
{
    if settings.active {
        timer.start(settings.next_break_duration_minutes * 60);
    } else {
        timer.stop();
    }
}

} // verus!
