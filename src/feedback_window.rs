use vstd::prelude::*;
use crate::model::device::{sha256_hex, DeviceId};

verus! {

#[derive(Debug, Clone, Copy, PartialEq, Eq, Structural)]
pub enum FeedbackRate {
    UNKNOWN,
    BAD,
    OK,
    AWESOME,
}

/// Feedback as sent to the backend, signed with the anonymised device id.
#[derive(Debug, Clone, PartialEq, Eq)]
pub struct FeedbackRequest {
    pub device_id: String,
    pub feedback: String,
    pub rating: FeedbackRate,
}

impl FeedbackRequest {
    pub fn new(device: &DeviceId, feedback: String, rating: FeedbackRate) -> (r: FeedbackRequest)
        ensures
            r.device_id@ == sha256_hex(device@),
            r.feedback == feedback,
            r.rating == rating,
    {
        FeedbackRequest { device_id: device.get_hash_hex_id(), feedback, rating }
    }
}

} // verus!
