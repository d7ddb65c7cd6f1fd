use motion_minute::feedback_window::{FeedbackRate, FeedbackRequest};
use motion_minute::license_manager::{
    days_between, license_info, license_status_from_response, refresh_needed, should_request, LicenseResponse,
    LicenseResponseError, LicenseStatus, PaidDetails, ResponseStatus, TrialDetails, ValidTypes,
};
use motion_minute::model::device::DeviceId;
use motion_minute::license_manager::PaymentStatus;
use motion_minute::model::license::{LicenseInfoStatus, LicensePaymentStatus};

fn response(status: ResponseStatus) -> LicenseResponse {
    LicenseResponse { status, trial_expires_at: None, paid_license_key: None }
}

#[test]
fn response_to_status() {
    let trial = LicenseResponse { trial_expires_at: Some(77), ..response(ResponseStatus::ActiveTrial) };
    assert_eq!(
        license_status_from_response(&trial),
        Ok(LicenseStatus::Valid(ValidTypes::Trial(TrialDetails { expired_at: 77 })))
    );
    assert_eq!(
        license_status_from_response(&response(ResponseStatus::ActiveTrial)),
        Err(LicenseResponseError::MissingTrial)
    );
    let paid = LicenseResponse { paid_license_key: Some("KEY-1".to_string()), ..response(ResponseStatus::ActivePaid) };
    assert_eq!(
        license_status_from_response(&paid),
        Ok(LicenseStatus::Valid(ValidTypes::Paid(PaidDetails { license_key: "KEY-1".to_string() })))
    );
    assert_eq!(
        license_status_from_response(&response(ResponseStatus::ActivePaid)),
        Err(LicenseResponseError::MissingPaid)
    );
    assert_eq!(
        license_status_from_response(&response(ResponseStatus::Expired)),
        Ok(LicenseStatus::Expired("You trial expired".to_string()))
    );
    assert_eq!(
        license_status_from_response(&response(ResponseStatus::ActiveAppleAppStore)),
        Ok(LicenseStatus::Invalid("This license only works with the Apple App Store Version.".to_string()))
    );
}

#[test]
fn whole_days_round_toward_zero() {
    assert_eq!(days_between(0, 86_400 * 3 + 5), 3);
    assert_eq!(days_between(0, 86_399), 0);
    assert_eq!(days_between(86_400 * 2, 0), -2);
    assert_eq!(days_between(86_399, 0), 0);
    assert_eq!(days_between(i64::MIN, i64::MAX), 213_503_982_334_601);
}

#[test]
fn info_for_each_state() {
    let trial = LicenseStatus::Valid(ValidTypes::Trial(TrialDetails { expired_at: 0 }));
    let info = license_info(&trial, 12);
    assert_eq!(info.status, LicenseInfoStatus::Trial);
    assert_eq!(info.license_key, None);
    assert_eq!(info.message, Some("Your trial has 12 days remaining".to_string()));
    assert_eq!(license_info(&trial, -1).message, Some("Your trial has -1 days remaining".to_string()));
    assert_eq!(
        license_info(&trial, i64::MIN).message,
        Some("Your trial has -9223372036854775808 days remaining".to_string())
    );
    let paid = license_info(&LicenseStatus::Valid(ValidTypes::Paid(PaidDetails { license_key: "K".to_string() })), 0);
    assert_eq!(paid.status, LicenseInfoStatus::Paid);
    assert_eq!(paid.license_key, Some("K".to_string()));
    assert_eq!(paid.message, Some("Your license is valid".to_string()));
    assert_eq!(license_info(&LicenseStatus::Valid(ValidTypes::Full), 0).message, Some("Full-Version".to_string()));
    let expired = license_info(&LicenseStatus::Expired("x".to_string()), 0);
    assert_eq!(expired.status, LicenseInfoStatus::Invalid);
    assert_eq!(expired.message, Some("Your license has expired".to_string()));
    let invalid = license_info(&LicenseStatus::Invalid("server down".to_string()), 0);
    assert_eq!(invalid.message, Some("server down".to_string()));
}

#[test]
fn refresh_decisions() {
    assert!(refresh_needed(&None));
    assert!(refresh_needed(&Some(LicenseStatus::Valid(ValidTypes::Trial(TrialDetails { expired_at: 0 })))));
    assert!(!refresh_needed(&Some(LicenseStatus::Valid(ValidTypes::Full))));
    assert!(!refresh_needed(&Some(LicenseStatus::Valid(ValidTypes::Paid(PaidDetails { license_key: "k".to_string() })))));
    assert!(refresh_needed(&Some(LicenseStatus::Expired("e".to_string()))));
    assert!(should_request(false, false, false));
    assert!(!should_request(true, false, false));
    assert!(should_request(true, false, true));
    assert!(!should_request(false, true, true));
}

#[test]
fn feedback_request_carries_hashed_id() {
    let r = FeedbackRequest::new(&DeviceId::new("".to_string()), "great".to_string(), FeedbackRate::AWESOME);
    assert_eq!(r.device_id, "e3b0c44298fc1c149afbf4c8996fb92427ae41e4649b934ca495991b7852b855");
    assert_eq!(r.feedback, "great");
    assert_eq!(r.rating, FeedbackRate::AWESOME);
}

#[test]
fn payment_status_maps_to_model() {
    assert_eq!(PaymentStatus::Start.to_model(), LicensePaymentStatus::Start);
    assert_eq!(PaymentStatus::RequireInfo.to_model(), LicensePaymentStatus::RequireInfo);
    assert_eq!(PaymentStatus::ReadyToCapture.to_model(), LicensePaymentStatus::ReadyToCapture);
    assert_eq!(PaymentStatus::Paid.to_model(), LicensePaymentStatus::Paid);
    assert_eq!(PaymentStatus::Canceled.to_model(), LicensePaymentStatus::Canceled);
}
