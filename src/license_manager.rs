use vstd::prelude::*;
use vstd::string::StringExecFns;
use crate::model::license::{LicenseInfo, LicenseInfoStatus, LicensePaymentStatus};
use crate::pretty_time::{decimal, push_decimal};

verus! {

/// A running trial; `expired_at` is in seconds since the Unix epoch.
#[derive(Debug, Clone, PartialEq, Eq)]
pub struct TrialDetails {
    pub expired_at: i64,
}

#[derive(Debug, Clone, PartialEq, Eq)]
pub struct PaidDetails {
    pub license_key: String,
}

#[derive(Debug, Clone, PartialEq, Eq)]
pub enum ValidTypes {
    Trial(TrialDetails),
    Paid(PaidDetails),
    Full,
}

#[derive(Debug, Clone, PartialEq, Eq)]
pub enum LicenseStatus {
    Valid(ValidTypes),
    Expired(String),
    Invalid(String),
}

#[derive(Debug, Clone, Copy, PartialEq, Eq, Structural)]
pub enum LicenseResultStatus {
    Success,
    Error,
}

#[derive(Debug, Clone, PartialEq, Eq)]
pub struct LicenseResult {
    pub status: LicenseResultStatus,
    pub error: Option<String>,
}

impl LicenseStatus {
    pub fn is_active(&self) -> (r: bool)
        ensures
            r == (*self is Valid),
    {
        match self {
            LicenseStatus::Valid(_) => true,
            LicenseStatus::Expired(_) => false,
            LicenseStatus::Invalid(_) => false,
        }
    }
}

/// The license state named by the license server.
#[derive(Debug, Clone, Copy, PartialEq, Eq, Structural)]
pub enum ResponseStatus {
    ActiveTrial,
    ActivePaid,
    ActiveAppleAppStore,
    Expired,
}

/// Where a purchase stands, as the license server names it.
#[derive(Debug, Clone, Copy, PartialEq, Eq, Structural)]
pub enum PaymentStatus {
    Start,
    RequireInfo,
    ReadyToCapture,
    Paid,
    Canceled,
}

impl PaymentStatus {
    pub fn to_model(&self) -> (r: LicensePaymentStatus)
        ensures
            r == (match *self {
                PaymentStatus::Start => LicensePaymentStatus::Start,
                PaymentStatus::RequireInfo => LicensePaymentStatus::RequireInfo,
                PaymentStatus::ReadyToCapture => LicensePaymentStatus::ReadyToCapture,
                PaymentStatus::Paid => LicensePaymentStatus::Paid,
                PaymentStatus::Canceled => LicensePaymentStatus::Canceled,
            }),
    {
        match self {
            PaymentStatus::Start => LicensePaymentStatus::Start,
            PaymentStatus::RequireInfo => LicensePaymentStatus::RequireInfo,
            PaymentStatus::ReadyToCapture => LicensePaymentStatus::ReadyToCapture,
            PaymentStatus::Paid => LicensePaymentStatus::Paid,
            PaymentStatus::Canceled => LicensePaymentStatus::Canceled,
        }
    }
}

/// The parts of the server's answer that decide the license state.
#[derive(Debug, Clone, PartialEq, Eq)]
pub struct LicenseResponse {
    pub status: ResponseStatus,
    /// End of the trial, in seconds since the Unix epoch, when one is sent.
    pub trial_expires_at: Option<i64>,
    /// The license key, when paid details are sent.
    pub paid_license_key: Option<String>,
}

/// An answer that names a state without the details it needs.
#[derive(Debug, Clone, Copy, PartialEq, Eq, Structural)]
pub enum LicenseResponseError {
    MissingTrial,
    MissingPaid,
}

pub open spec fn expired_message() -> Seq<char> {
    "You trial expired"@
}

pub open spec fn app_store_only_message() -> Seq<char> {
    "This license only works with the Apple App Store Version."@
}

/// The license state an answer stands for. A license of the App Store version
/// is refused by this build.
pub fn license_status_from_response(response: &LicenseResponse) -> (r: Result<LicenseStatus, LicenseResponseError>)
    ensures
        response.status == ResponseStatus::ActiveTrial ==> match response.trial_expires_at {
            Some(t) => r == Ok::<LicenseStatus, LicenseResponseError>(LicenseStatus::Valid(ValidTypes::Trial(TrialDetails { expired_at: t }))),
            None => r == Err::<LicenseStatus, LicenseResponseError>(LicenseResponseError::MissingTrial),
        },
        response.status == ResponseStatus::ActivePaid ==> match response.paid_license_key {
            Some(k) => r matches Ok(LicenseStatus::Valid(ValidTypes::Paid(d))) && d.license_key@ == k@,
            None => r == Err::<LicenseStatus, LicenseResponseError>(LicenseResponseError::MissingPaid),
        },
        response.status == ResponseStatus::Expired ==> (r matches Ok(LicenseStatus::Expired(m)) && m@ == expired_message()),
        response.status == ResponseStatus::ActiveAppleAppStore ==> (r matches Ok(LicenseStatus::Invalid(m)) && m@ == app_store_only_message()),
{
    match response.status {
        ResponseStatus::ActiveTrial => match response.trial_expires_at {
            Some(t) => Ok(LicenseStatus::Valid(ValidTypes::Trial(TrialDetails { expired_at: t }))),
            None => Err(LicenseResponseError::MissingTrial),
        },
        ResponseStatus::ActivePaid => match &response.paid_license_key {
            Some(k) => Ok(LicenseStatus::Valid(ValidTypes::Paid(PaidDetails { license_key: k.clone() }))),
            None => Err(LicenseResponseError::MissingPaid),
        },
        ResponseStatus::Expired => Ok(LicenseStatus::Expired(String::from_str("You trial expired"))),
        ResponseStatus::ActiveAppleAppStore => Ok(LicenseStatus::Invalid(
            String::from_str("This license only works with the Apple App Store Version."),
        )),
    }
}

/// Seconds in a day.
pub const SECONDS_PER_DAY: i64 = 86400;

/// Whole days from `start` to `end` (seconds since the Unix epoch), rounded
/// toward zero.
pub open spec fn days_between_spec(start: i64, end: i64) -> int {
    let d = end - start;
    if d >= 0 { d / SECONDS_PER_DAY as int } else { -((-d) / SECONDS_PER_DAY as int) }
}

pub fn days_between(start: i64, end: i64) -> (r: i64)
    ensures
        r == days_between_spec(start, end),
{
    let d: i128 = end as i128 - start as i128;
    if d >= 0 {
        (d / 86400) as i64
    } else {
        (-((-d) / 86400)) as i64
    }
}

/// Decimal notation of a signed number.
pub open spec fn signed_decimal(n: int) -> Seq<char> {
    if n >= 0 { decimal(n as nat) } else { seq!['-'] + decimal((-n) as nat) }
}

pub open spec fn opt_view(o: Option<String>) -> Option<Seq<char>> {
    match o {
        Some(s) => Some(s@),
        None => None,
    }
}

/// The status, key and message shown for a license state, a trial having
/// `days_left` days left.
pub open spec fn license_info_spec(s: LicenseStatus, days_left: i64) -> (LicenseInfoStatus, Option<Seq<char>>, Option<Seq<char>>) {
    match s {
        LicenseStatus::Valid(ValidTypes::Trial(_)) => (
            LicenseInfoStatus::Trial,
            None,
            Some("Your trial has "@ + signed_decimal(days_left as int) + " days remaining"@),
        ),
        LicenseStatus::Valid(ValidTypes::Paid(d)) => (LicenseInfoStatus::Paid, Some(d.license_key@), Some("Your license is valid"@)),
        LicenseStatus::Valid(ValidTypes::Full) => (LicenseInfoStatus::Full, None, Some("Full-Version"@)),
        LicenseStatus::Expired(_) => (LicenseInfoStatus::Invalid, None, Some("Your license has expired"@)),
        LicenseStatus::Invalid(e) => (LicenseInfoStatus::Invalid, None, Some(e@)),
    }
}

/// What the settings view shows of a license state.
pub fn license_info(s: &LicenseStatus, days_left: i64) -> (r: LicenseInfo)
    ensures
        (r.status, opt_view(r.license_key), opt_view(r.message)) == license_info_spec(*s, days_left),
{
    match s {
        LicenseStatus::Valid(ValidTypes::Trial(_)) => {
            let mut m = String::from_str("Your trial has ");
            if days_left < 0 {
                m.append("-");
                let magnitude: u64 = if days_left == i64::MIN { 9223372036854775808u64 } else { (-days_left) as u64 };
                push_decimal(&mut m, magnitude);
            } else {
                push_decimal(&mut m, days_left as u64);
            }
            m.append(" days remaining");
            proof { reveal_strlit("-"); }
            assert(m@ =~= "Your trial has "@ + signed_decimal(days_left as int) + " days remaining"@);
            LicenseInfo { status: LicenseInfoStatus::Trial, license_key: None, message: Some(m) }
        },
        LicenseStatus::Valid(ValidTypes::Paid(d)) => LicenseInfo {
            status: LicenseInfoStatus::Paid,
            license_key: Some(d.license_key.clone()),
            message: Some(String::from_str("Your license is valid")),
        },
        LicenseStatus::Valid(ValidTypes::Full) => LicenseInfo {
            status: LicenseInfoStatus::Full,
            license_key: None,
            message: Some(String::from_str("Full-Version")),
        },
        LicenseStatus::Expired(_) => LicenseInfo {
            status: LicenseInfoStatus::Invalid,
            license_key: None,
            message: Some(String::from_str("Your license has expired")),
        },
        LicenseStatus::Invalid(e) => LicenseInfo {
            status: LicenseInfoStatus::Invalid,
            license_key: None,
            message: Some(e.clone()),
        },
    }
}

/// Whether the server must be asked: a paid or full license, once known, is
/// kept without asking again.
pub fn refresh_needed(cached: &Option<LicenseStatus>) -> (r: bool)
    ensures
        r == !(*cached matches Some(LicenseStatus::Valid(v)) && (v is Paid || v is Full)),
{
    match cached {
        Some(LicenseStatus::Valid(ValidTypes::Paid(_))) => false,
        Some(LicenseStatus::Valid(ValidTypes::Full)) => false,
        _ => true,
    }
}

/// Whether a status query goes to the server: when nothing is known yet or a
/// request is forced, unless requests are held back.
pub fn should_request(has_cached: bool, prevent_server_request: bool, force_request: bool) -> (r: bool)
    ensures
        r == ((!has_cached || force_request) && !prevent_server_request),
{
    (!has_cached || force_request) && !prevent_server_request
}

} // verus!
