//! OTP challenge records.

use vstd::prelude::*;

verus! {

/// One OTP challenge for a phone number.  Several rows may exist per
/// number; only the most recently created one is consulted when a code is
/// validated.  A row is usable while it is not verified, has fewer than
/// three attempts, and has not expired; once consumed, `verified` is
/// permanently true.
#[derive(Debug, Clone)]
pub struct PhoneVerification {
    pub id: String,
    pub phone_number: String,
    pub otp_code: String,
    pub expires_at: i64,
    pub verified: bool,
    pub attempts: u32,
    pub created_at: i64,
}

/// A request to (re)issue an OTP for a phone number.
#[derive(Debug, Clone)]
pub struct SendOtpRequest {
    pub phone_number: String,
}

} // verus!
