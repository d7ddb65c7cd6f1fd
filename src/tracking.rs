use vstd::prelude::*;
use vstd::string::StringExecFns;
use crate::license_manager::{LicenseStatus, ValidTypes};

verus! {

/// A usage event reported to analytics.
#[derive(Debug, Clone, PartialEq, Eq)]
pub enum Event {
    Install,
    ResetSettings,
    DrinkReminder,
    WelcomeQuit(String),
}

pub open spec fn event_name(e: Event) -> Seq<char> {
    match e {
        Event::Install => "install"@,
        Event::ResetSettings => "reset_settings"@,
        Event::DrinkReminder => "start_session"@,
        Event::WelcomeQuit(state) => "welcome_quit_"@ + state@,
    }
}

impl Event {
    /// The name under which the event is reported.
    pub fn name(&self) -> (r: String)
        ensures
            r@ == event_name(*self),
    {
        match self {
            Event::Install => String::from_str("install"),
            Event::ResetSettings => String::from_str("reset_settings"),
            Event::DrinkReminder => String::from_str("start_session"),
            Event::WelcomeQuit(state) => String::from_str("welcome_quit_").concat(state.as_str()),
        }
    }
}

pub open spec fn license_status_name(s: LicenseStatus) -> Seq<char> {
    match s {
        LicenseStatus::Valid(ValidTypes::Trial(_)) => "trial"@,
        LicenseStatus::Valid(ValidTypes::Paid(_)) => "paid"@,
        LicenseStatus::Valid(ValidTypes::Full) => "full"@,
        LicenseStatus::Expired(_) => "expired"@,
        LicenseStatus::Invalid(reason) => "invalid_"@ + reason@,
    }
}

/// The license state as reported with each event.
pub fn to_license_status_name(s: &LicenseStatus) -> (r: String)
    ensures
        r@ == license_status_name(*s),
{
    match s {
        LicenseStatus::Valid(types) => match types {
            ValidTypes::Trial(_) => String::from_str("trial"),
            ValidTypes::Paid(_) => String::from_str("paid"),
            ValidTypes::Full => String::from_str("full"),
        },
        LicenseStatus::Expired(_) => String::from_str("expired"),
        LicenseStatus::Invalid(reason) => String::from_str("invalid_").concat(reason.as_str()),
    }
}

} // verus!
