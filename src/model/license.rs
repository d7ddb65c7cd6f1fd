use vstd::prelude::*;

verus! {

#[derive(Debug, Clone, Copy, PartialEq, Eq, Structural)]
pub enum LicenseInfoStatus {
    Trial,
    Paid,
    Full,
    Invalid,
}

/// Where a purchase stands, as shown to the user.
#[derive(Debug, Clone, Copy, PartialEq, Eq, Structural)]
pub enum LicensePaymentStatus {
    Start,
    RequireInfo,
    GoToCheckout,
    ReadyToCapture,
    Paid,
    Canceled,
    Error,
}

#[derive(Debug, Clone, PartialEq, Eq)]
pub struct LicenseInfo {
    pub status: LicenseInfoStatus,
    pub license_key: Option<String>,
    pub message: Option<String>,
}

} // verus!
