use agrilink::errors::AppError;
use agrilink::farmer::{Farmer, FarmerLogin, VerificationStatus, VerifyPhoneRequest};
use agrilink::farmer_service::{
    send_login_otp, send_login_otp_at, send_otp, send_otp_at, verify_phone_number,
    OTP_VALIDITY_SECS,
};
use agrilink::sms::tweak_phone_number;
use agrilink::store::Store;
use agrilink::util::generate_otp;
use agrilink::verification::{PhoneVerification, SendOtpRequest};

fn farmer(id: &str, phone: &str) -> Farmer {
    Farmer {
        id: id.to_string(),
        phone_number: phone.to_string(),
        email: None,
        first_name: "Ada".to_string(),
        last_name: "Obi".to_string(),
        registration_channel: "Web".to_string(),
        verification_status: VerificationStatus::Pending,
        profile_completed: false,
        created_at: 0,
        updated_at: 0,
    }
}

fn request(phone: &str, code: &str) -> VerifyPhoneRequest {
    VerifyPhoneRequest { phone_number: phone.to_string(), otp_code: code.to_string() }
}

fn issue(store: &mut Store, phone: &str, code: &str, now: i64) {
    let _ = send_otp_at(store, &phone.to_string(), format!("v-{}", now), code.to_string(), now);
}

#[test]
fn validate_accepts_correct_code_within_window() {
    let mut store = Store::new();
    store.farmers.push(farmer("f1", "08012345678"));
    issue(&mut store, "08012345678", "123456", 1000);
    let ok = verify_phone_number(&mut store, &request("08012345678", "123456"), 1001);
    assert!(ok);
    assert!(store.verifications[0].verified);
    assert!(matches!(store.farmers[0].verification_status, VerificationStatus::PhoneVerified));
}

#[test]
fn validate_rejects_wrong_code() {
    let mut store = Store::new();
    issue(&mut store, "08012345678", "123456", 1000);
    let ok = verify_phone_number(&mut store, &request("08012345678", "999999"), 1001);
    assert!(!ok);
    assert!(!store.verifications[0].verified);
    // The failed match was charged to the attempt counter.
    assert_eq!(store.verifications[0].attempts, 1);
}

#[test]
fn validate_rejects_expired_record() {
    let mut store = Store::new();
    issue(&mut store, "08012345678", "123456", 1000);
    // now == expires_at counts as expired.
    let at_expiry = 1000 + OTP_VALIDITY_SECS;
    assert!(!verify_phone_number(&mut store, &request("08012345678", "123456"), at_expiry));
    // One second before expiry the code still works.
    let mut store2 = Store::new();
    issue(&mut store2, "08012345678", "123456", 1000);
    assert!(verify_phone_number(&mut store2, &request("08012345678", "123456"), at_expiry - 1));
}

#[test]
fn validate_rejects_already_verified_record() {
    let mut store = Store::new();
    issue(&mut store, "08012345678", "123456", 1000);
    assert!(verify_phone_number(&mut store, &request("08012345678", "123456"), 1001));
    // Single use: the very same code is refused afterwards.
    assert!(!verify_phone_number(&mut store, &request("08012345678", "123456"), 1002));
}

#[test]
fn validate_rejects_after_three_attempts() {
    let mut store = Store::new();
    issue(&mut store, "08012345678", "123456", 1000);
    for _ in 0..3 {
        assert!(!verify_phone_number(&mut store, &request("08012345678", "000000"), 1001));
    }
    assert_eq!(store.verifications[0].attempts, 3);
    // Even the correct code is now refused: the limit bounds brute force.
    assert!(!verify_phone_number(&mut store, &request("08012345678", "123456"), 1001));
}

#[test]
fn validate_rejects_unknown_phone() {
    let mut store = Store::new();
    assert!(!verify_phone_number(&mut store, &request("08012345678", "123456"), 1001));
}

#[test]
fn validate_consults_only_latest_record() {
    let mut store = Store::new();
    issue(&mut store, "08012345678", "111111", 1000);
    issue(&mut store, "08012345678", "222222", 1010);
    // The older code no longer matches the record under consultation.
    assert!(!verify_phone_number(&mut store, &request("08012345678", "111111"), 1020));
    assert!(verify_phone_number(&mut store, &request("08012345678", "222222"), 1021));
}

#[test]
fn issuance_purges_expired_rows_of_that_phone() {
    let mut store = Store::new();
    issue(&mut store, "08012345678", "111111", 0);
    issue(&mut store, "08099999999", "333333", 0);
    // Far in the future, the first phone's old row is expired.
    issue(&mut store, "08012345678", "222222", 100_000);
    let of_phone: Vec<&PhoneVerification> = store
        .verifications
        .iter()
        .filter(|v| v.phone_number == "08012345678")
        .collect();
    assert_eq!(of_phone.len(), 1);
    assert_eq!(of_phone[0].otp_code, "222222");
    // The other phone's (also expired) row was left alone.
    assert!(store.verifications.iter().any(|v| v.phone_number == "08099999999"));
}

#[test]
fn issuance_records_fresh_unverified_row() {
    let mut store = Store::new();
    let msg = send_otp_at(
        &mut store,
        &"08012345678".to_string(),
        "v1".to_string(),
        "123456".to_string(),
        1000,
    )
    .expect("normalizable number");
    assert_eq!(msg.to, "+2348012345678");
    assert_eq!(msg.body, "Your otp code is 123456");
    let v = &store.verifications[0];
    assert_eq!(v.phone_number, "08012345678");
    assert_eq!(v.otp_code, "123456");
    assert!(!v.verified);
    assert_eq!(v.attempts, 0);
    assert_eq!(v.created_at, 1000);
    assert_eq!(v.expires_at, 1000 + OTP_VALIDITY_SECS);
}

#[test]
fn issuance_fails_closed_on_unnormalizable_number() {
    let mut store = Store::new();
    let r = send_otp_at(
        &mut store,
        &"12345".to_string(),
        "v1".to_string(),
        "123456".to_string(),
        1000,
    );
    assert!(matches!(r, Err(AppError::InternalError(_))));
    // The challenge is still recorded, so a resend can be asked for.
    assert_eq!(store.verifications.len(), 1);
}

#[test]
fn live_issuance_sends_the_recorded_code() {
    let mut store = Store::new();
    let msg = send_otp(&mut store, &"08012345678".to_string()).expect("normalizable number");
    let v = store.verifications.last().unwrap();
    assert_eq!(v.otp_code.len(), 6);
    assert!(v.otp_code.chars().all(|c| c.is_ascii_digit()));
    assert_eq!(msg.body, format!("Your otp code is {}", v.otp_code));
    assert_eq!(msg.to, "+2348012345678");
    assert_eq!(v.expires_at - v.created_at, OTP_VALIDITY_SECS);
}

#[test]
fn generated_otp_is_six_digits_in_range() {
    for _ in 0..50 {
        let code = generate_otp();
        assert_eq!(code.len(), 6);
        let n: u32 = code.parse().expect("all digits");
        assert!((100000..=999999).contains(&n));
    }
}

#[test]
fn phone_normalization_cases() {
    assert_eq!(tweak_phone_number("08012345678").as_deref(), Some("+2348012345678"));
    assert_eq!(tweak_phone_number("+2348012345678").as_deref(), Some("+2348012345678"));
    assert_eq!(tweak_phone_number("12345"), None);
    assert_eq!(tweak_phone_number("18012345678"), None);
    assert_eq!(tweak_phone_number("+1348012345678"), None);
    assert_eq!(tweak_phone_number(""), None);
}

#[test]
fn login_otp_requires_registered_farmer() {
    let mut store = Store::new();
    let r = send_login_otp_at(
        &mut store,
        &FarmerLogin { phone_number: "08012345678".to_string() },
        "v1".to_string(),
        "123456".to_string(),
        1000,
    );
    assert!(matches!(r, Err(AppError::ValidationError(m)) if m == "Farmer is not registered"));
    assert!(store.verifications.is_empty());

    let r = send_login_otp_at(
        &mut store,
        &FarmerLogin { phone_number: "".to_string() },
        "v1".to_string(),
        "123456".to_string(),
        1000,
    );
    assert!(matches!(r, Err(AppError::ValidationError(m)) if m == "No phone number provided"));

    store.farmers.push(farmer("f1", "08012345678"));
    let msg = send_login_otp_at(
        &mut store,
        &FarmerLogin { phone_number: "08012345678".to_string() },
        "v1".to_string(),
        "123456".to_string(),
        1000,
    )
    .expect("registered farmer");
    assert_eq!(msg.to, "+2348012345678");
    assert_eq!(store.verifications.len(), 1);
}

#[test]
fn resend_reissues_for_requested_phone() {
    let mut store = Store::new();
    issue(&mut store, "08012345678", "111111", 1000);
    let req = SendOtpRequest { phone_number: "08012345678".to_string() };
    let msg = send_otp(&mut store, &req.phone_number).expect("normalizable number");
    assert_eq!(msg.to, "+2348012345678");
    let latest = store.verifications.last().unwrap();
    // A fresh challenge replaces the old code for future validations.
    assert_ne!(latest.otp_code, "111111");
    assert!(!verify_phone_number(&mut store, &request("08012345678", "111111"), 1001));
}

#[test]
fn live_login_otp_for_registered_farmer() {
    let mut store = Store::new();
    store.farmers.push(farmer("f1", "08012345678"));
    let msg = send_login_otp(&mut store, &FarmerLogin { phone_number: "08012345678".to_string() })
        .expect("registered farmer with normalizable number");
    let v = store.verifications.last().unwrap();
    assert_eq!(v.otp_code.len(), 6);
    assert!(!v.otp_code.starts_with('0'));
    assert_eq!(msg.body, format!("Your otp code is {}", v.otp_code));
}
