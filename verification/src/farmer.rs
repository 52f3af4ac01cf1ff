//! Farmer identity records, the farm attached at registration time, and
//! the request/response shapes of the registration and login workflows.

use vstd::prelude::*;

verus! {

/// Phone-verification state of a farmer.  The only transition is
/// `Pending` to `PhoneVerified`, made by a successful OTP validation.
#[derive(Debug, Clone, Copy, PartialEq, Eq, Structural)]
pub enum VerificationStatus {
    Pending,
    PhoneVerified,
}

/// A registered farmer.  Timestamps are seconds since the Unix epoch.
#[derive(Debug, Clone)]
pub struct Farmer {
    pub id: String,
    pub phone_number: String,
    pub email: Option<String>,
    pub first_name: String,
    pub last_name: String,
    pub registration_channel: String,
    pub verification_status: VerificationStatus,
    pub profile_completed: bool,
    pub created_at: i64,
    pub updated_at: i64,
}

/// A geographic point in microdegrees (degrees scaled by one million).
/// The boundary layer converts to the decimal form its storage expects.
#[derive(Debug, Clone, Copy, PartialEq, Eq, Structural)]
pub struct GeoPoint {
    pub latitude_microdeg: i64,
    pub longitude_microdeg: i64,
}

/// The farm optionally created together with a farmer.  The size is in
/// square metres, a whole-number stand-in for fractional hectares.
#[derive(Debug, Clone)]
pub struct Farm {
    pub id: String,
    pub farmer_id: String,
    pub farm_name: Option<String>,
    pub location: Option<GeoPoint>,
    pub address_text: Option<String>,
    pub farm_size_sq_m: Option<i64>,
    pub farm_type: String,
    pub primary_crops: Vec<String>,
}

/// Farm details embedded in a registration request.
#[derive(Debug, Clone)]
pub struct CreateFarmRequest {
    pub farm_name: Option<String>,
    pub latitude_microdeg: Option<i64>,
    pub longitude_microdeg: Option<i64>,
    pub address_text: Option<String>,
    pub farm_size_sq_m: Option<i64>,
    pub farm_type: Option<String>,
    pub primary_crops: Option<Vec<String>>,
}

/// A registration request.
#[derive(Debug, Clone)]
pub struct CreateFarmerRequest {
    pub phone_number: String,
    pub email: Option<String>,
    pub first_name: String,
    pub last_name: String,
    pub registration_channel: Option<String>,
    pub farm_data: Option<CreateFarmRequest>,
}

/// A phone-verification request: the phone number and the submitted code.
#[derive(Debug, Clone)]
pub struct VerifyPhoneRequest {
    pub phone_number: String,
    pub otp_code: String,
}

/// A login request; login is by phone number and OTP only.
#[derive(Debug, Clone)]
pub struct FarmerLogin {
    pub phone_number: String,
}

/// The public summary of a farmer returned on registration.
#[derive(Debug, Clone)]
pub struct FarmerResponse {
    pub id: String,
    pub phone_number: String,
    pub email: Option<String>,
    pub first_name: String,
    pub last_name: String,
    pub verification_status: VerificationStatus,
    pub profile_completed: bool,
}

/// The summary returned on a completed login.
#[derive(Debug, Clone)]
pub struct LoginResponse {
    pub id: String,
    pub phone_number: String,
    pub email: Option<String>,
    pub first_name: String,
    pub last_name: String,
}

/// The value handed to the session layer after a successful phone
/// verification; the session layer encodes, signs and persists it.
#[derive(Debug, Clone)]
pub struct FarmerSession {
    pub farmer_id: String,
    pub farm_id: Option<String>,
    pub name: String,
}

} // verus!
