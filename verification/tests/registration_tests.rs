use agrilink::errors::AppError;
use agrilink::farmer::{
    CreateFarmRequest, CreateFarmerRequest, FarmerSession, VerificationStatus, VerifyPhoneRequest,
};
use agrilink::farmer_service::{create_farmer, create_farmer_at, login_farmer_after_otp};
use agrilink::session::{dashboard_greeting, verify_phone};
use agrilink::store::Store;

fn registration(phone: &str, with_farm: bool) -> CreateFarmerRequest {
    CreateFarmerRequest {
        phone_number: phone.to_string(),
        email: Some("ada@example.com".to_string()),
        first_name: "Ada".to_string(),
        last_name: "Obi".to_string(),
        registration_channel: None,
        farm_data: if with_farm {
            Some(CreateFarmRequest {
                farm_name: Some("Green Acres".to_string()),
                latitude_microdeg: Some(6_500_000),
                longitude_microdeg: Some(3_350_000),
                address_text: Some("Ikorodu Road".to_string()),
                farm_size_sq_m: Some(25_000),
                farm_type: None,
                primary_crops: Some(vec!["maize".to_string(), "cassava".to_string()]),
            })
        } else {
            None
        },
    }
}

fn register(store: &mut Store, phone: &str, with_farm: bool, now: i64, code: &str) {
    create_farmer_at(
        store,
        registration(phone, with_farm),
        now,
        format!("farmer-{}", phone),
        format!("farm-{}", phone),
        format!("verif-{}", phone),
        code.to_string(),
    )
    .expect("registration should succeed");
}

#[test]
fn registration_creates_farmer_and_farm_atomically() {
    let mut store = Store::new();
    register(&mut store, "08012345678", true, 1000, "123456");
    assert_eq!(store.farmers.len(), 1);
    assert_eq!(store.farms.len(), 1);
    let f = &store.farmers[0];
    assert_eq!(f.phone_number, "08012345678");
    assert_eq!(f.registration_channel, "Web");
    assert!(matches!(f.verification_status, VerificationStatus::Pending));
    assert!(!f.profile_completed);
    let farm = &store.farms[0];
    assert_eq!(farm.farmer_id, f.id);
    assert_eq!(farm.farm_type, "subsistence");
    let loc = farm.location.expect("both coordinates were present");
    assert_eq!(loc.latitude_microdeg, 6_500_000);
    assert_eq!(loc.longitude_microdeg, 3_350_000);
    assert_eq!(farm.primary_crops, vec!["maize".to_string(), "cassava".to_string()]);
    // Registration issued an OTP for the new phone number.
    assert_eq!(store.verifications.len(), 1);
    assert_eq!(store.verifications[0].phone_number, "08012345678");
}

#[test]
fn registration_without_farm_creates_no_farm_row() {
    let mut store = Store::new();
    register(&mut store, "08012345678", false, 1000, "123456");
    assert_eq!(store.farmers.len(), 1);
    assert_eq!(store.farms.len(), 0);
}

#[test]
fn location_absent_unless_both_coordinates_present() {
    let mut store = Store::new();
    let mut req = registration("08012345678", true);
    if let Some(fd) = req.farm_data.as_mut() {
        fd.longitude_microdeg = None;
    }
    create_farmer_at(
        &mut store,
        req,
        1000,
        "f1".to_string(),
        "fm1".to_string(),
        "v1".to_string(),
        "123456".to_string(),
    )
    .unwrap();
    assert!(store.farms[0].location.is_none());
}

#[test]
fn duplicate_phone_registration_fails_and_writes_nothing() {
    let mut store = Store::new();
    register(&mut store, "08012345678", true, 1000, "123456");
    let r = create_farmer_at(
        &mut store,
        registration("08012345678", true),
        2000,
        "f2".to_string(),
        "fm2".to_string(),
        "v2".to_string(),
        "654321".to_string(),
    );
    match r {
        Err(AppError::ValidationError(m)) => assert_eq!(m, "Phone number already registered"),
        _ => panic!("expected a validation error"),
    }
    assert_eq!(store.farmers.len(), 1);
    assert_eq!(store.farms.len(), 1);
    assert_eq!(store.verifications.len(), 1);
}

#[test]
fn empty_phone_registration_fails() {
    let mut store = Store::new();
    let r = create_farmer_at(
        &mut store,
        registration("", false),
        1000,
        "f1".to_string(),
        "fm1".to_string(),
        "v1".to_string(),
        "123456".to_string(),
    );
    assert!(matches!(r, Err(AppError::ValidationError(m)) if m == "Phone number cannot be empty"));
    assert_eq!(store.farmers.len(), 0);
}

#[test]
fn registration_response_summarizes_new_farmer() {
    let mut store = Store::new();
    let out = create_farmer_at(
        &mut store,
        registration("08012345678", false),
        1000,
        "f1".to_string(),
        "fm1".to_string(),
        "v1".to_string(),
        "123456".to_string(),
    )
    .unwrap();
    assert_eq!(out.farmer.id, "f1");
    assert_eq!(out.farmer.phone_number, "08012345678");
    assert_eq!(out.farmer.email.as_deref(), Some("ada@example.com"));
    assert_eq!(out.farmer.first_name, "Ada");
    assert!(matches!(out.farmer.verification_status, VerificationStatus::Pending));
    let sms = out.sms.expect("normalizable number");
    assert_eq!(sms.to, "+2348012345678");
    assert_eq!(sms.body, "Your otp code is 123456");
}

#[test]
fn registration_with_unnormalizable_phone_is_partial_success() {
    let mut store = Store::new();
    let out = create_farmer_at(
        &mut store,
        registration("12345", false),
        1000,
        "f1".to_string(),
        "fm1".to_string(),
        "v1".to_string(),
        "123456".to_string(),
    )
    .unwrap();
    // The farmer and the challenge exist; only the send could not be made.
    assert!(out.sms.is_none());
    assert_eq!(store.farmers.len(), 1);
    assert_eq!(store.verifications.len(), 1);
}

#[test]
fn live_registration_issues_six_digit_code() {
    let mut store = Store::new();
    let out = create_farmer(&mut store, registration("08012345678", true)).unwrap();
    assert_eq!(store.farmers.len(), 1);
    assert_eq!(store.farms.len(), 1);
    let v = store.verifications.last().unwrap();
    assert_eq!(v.otp_code.len(), 6);
    assert!(v.otp_code.chars().all(|c| c.is_ascii_digit()));
    let sms = out.sms.expect("normalizable number");
    assert_eq!(sms.body, format!("Your otp code is {}", v.otp_code));
}

#[test]
fn end_to_end_register_verify_and_session() {
    let mut store = Store::new();
    register(&mut store, "08012345678", true, 1000, "123456");
    let req = VerifyPhoneRequest {
        phone_number: "08012345678".to_string(),
        otp_code: "123456".to_string(),
    };
    let session = verify_phone(&mut store, &req, 1500).expect("verification should succeed");
    assert!(matches!(
        store.farmers[0].verification_status,
        VerificationStatus::PhoneVerified
    ));
    assert_eq!(session.farmer_id, store.farmers[0].id);
    assert_eq!(session.name, "Ada");
    assert_eq!(session.farm_id.as_deref(), Some("farm-08012345678"));
    // The session value yields the dashboard greeting.
    let greeting = dashboard_greeting(&Some(session)).unwrap();
    assert_eq!(greeting, "Welcome back Ada");
}

#[test]
fn verify_phone_rejects_bad_code() {
    let mut store = Store::new();
    register(&mut store, "08012345678", false, 1000, "123456");
    let req = VerifyPhoneRequest {
        phone_number: "08012345678".to_string(),
        otp_code: "000000".to_string(),
    };
    let r = verify_phone(&mut store, &req, 1500);
    assert!(matches!(r, Err(AppError::ValidationError(m)) if m == "Phone verified failed"));
    assert!(matches!(store.farmers[0].verification_status, VerificationStatus::Pending));
}

#[test]
fn session_farm_id_absent_without_farm() {
    let mut store = Store::new();
    register(&mut store, "08012345678", false, 1000, "123456");
    let req = VerifyPhoneRequest {
        phone_number: "08012345678".to_string(),
        otp_code: "123456".to_string(),
    };
    let session = verify_phone(&mut store, &req, 1500).unwrap();
    assert!(session.farm_id.is_none());
}

#[test]
fn login_completes_with_correct_code() {
    let mut store = Store::new();
    register(&mut store, "08012345678", false, 1000, "123456");
    let req = VerifyPhoneRequest {
        phone_number: "08012345678".to_string(),
        otp_code: "123456".to_string(),
    };
    let resp = login_farmer_after_otp(&mut store, &req, 1500).expect("login should succeed");
    assert_eq!(resp.phone_number, "08012345678");
    assert_eq!(resp.first_name, "Ada");
    assert_eq!(resp.last_name, "Obi");
    assert_eq!(resp.email.as_deref(), Some("ada@example.com"));
    assert_eq!(resp.id, store.farmers[0].id);
}

#[test]
fn login_fails_coarsely_on_any_otp_problem() {
    let mut store = Store::new();
    register(&mut store, "08012345678", false, 1000, "123456");
    let wrong = VerifyPhoneRequest {
        phone_number: "08012345678".to_string(),
        otp_code: "999999".to_string(),
    };
    let r = login_farmer_after_otp(&mut store, &wrong, 1500);
    assert!(matches!(r, Err(AppError::ValidationError(m)) if m == "Otp Error"));
}

#[test]
fn dashboard_requires_session() {
    let r = dashboard_greeting(&None);
    match r {
        Err(e) => {
            assert_eq!(e.status_code(), 401);
            assert_eq!(e.error_code(), "UNAUTHORIZED");
            assert_eq!(e.public_message(), "Not logged in");
        }
        Ok(_) => panic!("expected an unauthorized error"),
    }
    let sess = FarmerSession {
        farmer_id: "f1".to_string(),
        farm_id: None,
        name: "Ngozi".to_string(),
    };
    assert_eq!(dashboard_greeting(&Some(sess)).unwrap(), "Welcome back Ngozi");
}

#[test]
fn error_mapping_by_kind() {
    assert_eq!(AppError::ValidationError("x".to_string()).status_code(), 400);
    assert_eq!(AppError::NotFound("x".to_string()).status_code(), 404);
    assert_eq!(AppError::Unauthorized("x".to_string()).status_code(), 401);
    assert_eq!(AppError::DatabaseError("secret detail".to_string()).status_code(), 500);
    assert_eq!(AppError::InternalError("x".to_string()).status_code(), 500);
    assert_eq!(AppError::ValidationError("x".to_string()).error_code(), "VALIDATION_ERROR");
    assert_eq!(AppError::DatabaseError("x".to_string()).error_code(), "DATABASE_ERROR");
    // Storage failure text is never exposed.
    assert_eq!(
        AppError::DatabaseError("secret detail".to_string()).public_message(),
        "Database error occurred"
    );
    assert_eq!(AppError::ValidationError("bad input".to_string()).public_message(), "bad input");
}
