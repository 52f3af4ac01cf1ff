//! The farmer-facing workflows: OTP issuance and validation, farmer
//! registration, and login.  Each function states exactly how it changes
//! the store and what it returns; the boundary layer performs the SMS
//! dispatch described by the returned [`SmsMessage`].

use vstd::prelude::*;
use vstd::pervasive::VecAdditionalExecFns;
use crate::errors::AppError;
use crate::farmer::{
    CreateFarmRequest, CreateFarmerRequest, Farm, Farmer, FarmerLogin, FarmerResponse, GeoPoint,
    LoginResponse, VerificationStatus, VerifyPhoneRequest,
};
use crate::sms::{e164_of, otp_sms_body, sms_message_for, SmsMessage};
use crate::store::{
    farmer_index, find_farmer_index, find_latest_verification, has_farmer_phone, latest_for,
    lemma_farmer_index, lemma_farmer_index_unique, lemma_latest_for, lemma_latest_for_unique,
    purge_expired, purge_expired_rows, Store,
};
use crate::text::clone_opt_string;
use crate::util::{generate_otp, is_otp_code, new_uuid_string, now_unix};
use crate::verification::PhoneVerification;

verus! {

/// How long an issued OTP stays valid, in seconds: thirty minutes.  (The
/// validity window is fixed; thirty minutes is the documented choice.)
pub const OTP_VALIDITY_SECS: i64 = 1800;

/// When an OTP issued at `now` expires (saturating at the largest
/// representable time).
pub open spec fn otp_expiry(now: int) -> int {
    if now + (OTP_VALIDITY_SECS as int) <= i64::MAX {
        now + (OTP_VALIDITY_SECS as int)
    } else {
        i64::MAX as int
    }
}

/// When an OTP issued now expires.
pub fn otp_expires_at(now: i64) -> (e: i64)
    ensures
        e as int == otp_expiry(now as int),
{
    if now <= i64::MAX - OTP_VALIDITY_SECS {
        now + OTP_VALIDITY_SECS
    } else {
        i64::MAX
    }
}

/// The OTP row that issuance appends: unverified, no attempts, expiring
/// one validity window after `now`.
pub open spec fn is_fresh_otp_row(
    v: PhoneVerification,
    phone: Seq<char>,
    id: Seq<char>,
    code: Seq<char>,
    now: int,
) -> bool {
    &&& v.id@ == id
    &&& v.phone_number@ == phone
    &&& v.otp_code@ == code
    &&& v.expires_at == otp_expiry(now)
    &&& !v.verified
    &&& v.attempts == 0
    &&& v.created_at == now
}

/// How issuance changes the OTP table: the phone's expired rows go, and
/// one fresh row is appended.
pub open spec fn send_otp_transition(
    pre: Seq<PhoneVerification>,
    post: Seq<PhoneVerification>,
    phone: Seq<char>,
    id: Seq<char>,
    code: Seq<char>,
    now: int,
) -> bool {
    &&& post.len() == purge_expired(pre, phone, now).len() + 1
    &&& post.drop_last() == purge_expired(pre, phone, now)
    &&& is_fresh_otp_row(post.last(), phone, id, code, now)
}

/// Issues the given OTP for `phone_number` at time `now`: deletes the
/// phone's expired rows, records the fresh challenge, and hands back the
/// text to send.  A phone number that cannot be normalized fails the send
/// (the challenge is still recorded, as a resend can be asked for).
pub fn send_otp_at(
    store: &mut Store,
    phone_number: &String,
    id: String,
    code: String,
    now: i64,
) -> (r: Result<SmsMessage, AppError>)
    ensures
        final(store).farmers@ == old(store).farmers@,
        final(store).farms@ == old(store).farms@,
        final(store).products@ == old(store).products@,
        send_otp_transition(
            old(store).verifications@,
            final(store).verifications@,
            phone_number@,
            id@,
            code@,
            now as int,
        ),
        r is Ok <==> e164_of(phone_number@) is Some,
        r matches Ok(m) ==> e164_of(phone_number@) == Some(m.to@) && m.body@ == otp_sms_body(
            code@,
        ),
        r matches Err(e) ==> e matches AppError::InternalError(_),
{
    purge_expired_rows(&mut store.verifications, phone_number, now);
    let expires_at = otp_expires_at(now);
    let msg = sms_message_for(phone_number.as_str(), &code);
    let row = PhoneVerification {
        id,
        phone_number: phone_number.clone(),
        otp_code: code,
        expires_at,
        verified: false,
        attempts: 0,
        created_at: now,
    };
    store.verifications.push(row);
    proof {
        assert(final(store).verifications@.drop_last() =~= purge_expired(
            old(store).verifications@,
            phone_number@,
            now as int,
        ));
    }
    msg
}

/// Issues a fresh random OTP for `phone_number` now.  The recorded code is
/// always six decimal digits; the message carries exactly that code.
pub fn send_otp(store: &mut Store, phone_number: &String) -> (r: Result<SmsMessage, AppError>)
    ensures
        final(store).farmers@ == old(store).farmers@,
        final(store).farms@ == old(store).farms@,
        final(store).products@ == old(store).products@,
        final(store).verifications@.len() >= 1,
        ({
            let last = final(store).verifications@.last();
            send_otp_transition(
                old(store).verifications@,
                final(store).verifications@,
                phone_number@,
                last.id@,
                last.otp_code@,
                last.created_at as int,
            ) && is_otp_code(last.otp_code@)
        }),
        r is Ok <==> e164_of(phone_number@) is Some,
        r matches Ok(m) ==> e164_of(phone_number@) == Some(m.to@) && m.body@ == otp_sms_body(
            final(store).verifications@.last().otp_code@,
        ),
        r matches Err(e) ==> e matches AppError::InternalError(_),
{
    let id = new_uuid_string();
    let code = generate_otp();
    let now = now_unix();
    send_otp_at(store, phone_number, id, code, now)
}

/// A stored challenge accepts `code` at time `now`: the code matches, the
/// row was never consumed, fewer than three attempts were made, and the
/// expiry has not been reached.
pub open spec fn otp_usable(v: PhoneVerification, code: Seq<char>, now: int) -> bool {
    &&& v.otp_code@ == code
    &&& !v.verified
    &&& v.attempts < 3
    &&& now < v.expires_at
}

/// Decides whether a stored challenge accepts the submitted code now.
pub fn otp_row_usable(v: &PhoneVerification, code: &String, now: i64) -> (b: bool)
    ensures
        b == otp_usable(*v, code@, now as int),
{
    v.otp_code == *code && !v.verified && v.attempts < 3 && now < v.expires_at
}

/// Whether validating `code` for `phone` at `now` succeeds: only the most
/// recently created row for the phone is consulted, and it must accept the
/// code.
pub open spec fn validate_ok(
    vs: Seq<PhoneVerification>,
    phone: Seq<char>,
    code: Seq<char>,
    now: int,
) -> bool {
    let i = latest_for(vs, phone);
    i >= 0 && otp_usable(vs[i], code, now)
}

/// The row after consumption: `verified` becomes permanently true.
pub open spec fn row_consumed(v: PhoneVerification) -> PhoneVerification {
    PhoneVerification {
        id: v.id,
        phone_number: v.phone_number,
        otp_code: v.otp_code,
        expires_at: v.expires_at,
        verified: true,
        attempts: v.attempts,
        created_at: v.created_at,
    }
}

/// The row after a counted failed attempt.
pub open spec fn row_attempt_counted(v: PhoneVerification) -> PhoneVerification {
    PhoneVerification {
        id: v.id,
        phone_number: v.phone_number,
        otp_code: v.otp_code,
        expires_at: v.expires_at,
        verified: v.verified,
        attempts: (v.attempts + 1) as u32,
        created_at: v.created_at,
    }
}

/// A failed validation counts against the attempt limit when the row was
/// still live (not consumed, still under the limit); counting it bounds
/// brute-force guessing.
pub open spec fn counts_failed_attempt(v: PhoneVerification, code: Seq<char>, now: int) -> bool {
    !v.verified && v.attempts < 3 && !otp_usable(v, code, now)
}

/// The OTP table after a validation: untouched when no row matches the
/// phone; the latest row is consumed on success, or charged one attempt on
/// a counted failure.
pub open spec fn validate_post(
    vs: Seq<PhoneVerification>,
    phone: Seq<char>,
    code: Seq<char>,
    now: int,
) -> Seq<PhoneVerification> {
    let i = latest_for(vs, phone);
    if i < 0 {
        vs
    } else if otp_usable(vs[i], code, now) {
        vs.update(i, row_consumed(vs[i]))
    } else if counts_failed_attempt(vs[i], code, now) {
        vs.update(i, row_attempt_counted(vs[i]))
    } else {
        vs
    }
}

/// The farmer with their phone marked verified.
pub open spec fn farmer_phone_verified(f: Farmer) -> Farmer {
    Farmer {
        id: f.id,
        phone_number: f.phone_number,
        email: f.email,
        first_name: f.first_name,
        last_name: f.last_name,
        registration_channel: f.registration_channel,
        verification_status: VerificationStatus::PhoneVerified,
        profile_completed: f.profile_completed,
        created_at: f.created_at,
        updated_at: f.updated_at,
    }
}

/// The farmer table after a validation: on success the phone's farmer, if
/// registered, advances to `PhoneVerified`.
pub open spec fn farmers_post(fs: Seq<Farmer>, phone: Seq<char>, ok: bool) -> Seq<Farmer> {
    let i = farmer_index(fs, phone);
    if ok && i >= 0 {
        fs.update(i, farmer_phone_verified(fs[i]))
    } else {
        fs
    }
}

/// Validates a submitted OTP.  Returns true exactly when the latest
/// challenge for the phone accepts the code; in that case the challenge is
/// consumed and the farmer's status advances, both in the same step.  A
/// failed check against a live challenge is charged to its attempt
/// counter.
pub fn verify_phone_number(store: &mut Store, request: &VerifyPhoneRequest, now: i64) -> (r: bool)
    requires
        old(store).wf(),
    ensures
        final(store).wf(),
        r == validate_ok(
            old(store).verifications@,
            request.phone_number@,
            request.otp_code@,
            now as int,
        ),
        final(store).verifications@ == validate_post(
            old(store).verifications@,
            request.phone_number@,
            request.otp_code@,
            now as int,
        ),
        final(store).farmers@ == farmers_post(old(store).farmers@, request.phone_number@, r),
        final(store).farms@ == old(store).farms@,
        final(store).products@ == old(store).products@,
{
    let idx_opt = find_latest_verification(&store.verifications, &request.phone_number);
    match idx_opt {
        None => false,
        Some(i) => {
            proof {
                lemma_latest_for(store.verifications@, request.phone_number@);
            }
            let usable = store.verifications[i].otp_code == request.otp_code
                && !store.verifications[i].verified && store.verifications[i].attempts < 3
                && now < store.verifications[i].expires_at;
            if usable {
                let consumed = PhoneVerification {
                    id: store.verifications[i].id.clone(),
                    phone_number: store.verifications[i].phone_number.clone(),
                    otp_code: store.verifications[i].otp_code.clone(),
                    expires_at: store.verifications[i].expires_at,
                    verified: true,
                    attempts: store.verifications[i].attempts,
                    created_at: store.verifications[i].created_at,
                };
                proof {
                    assert(consumed == row_consumed(old(store).verifications@[i as int]));
                }
                store.verifications.set(i, consumed);
                match find_farmer_index(&store.farmers, &request.phone_number) {
                    Some(j) => {
                        proof {
                            lemma_farmer_index_unique(
                                store.farmers@,
                                request.phone_number@,
                                j as int,
                            );
                        }
                        let advanced = Farmer {
                            id: store.farmers[j].id.clone(),
                            phone_number: store.farmers[j].phone_number.clone(),
                            email: clone_opt_string(&store.farmers[j].email),
                            first_name: store.farmers[j].first_name.clone(),
                            last_name: store.farmers[j].last_name.clone(),
                            registration_channel: store.farmers[j].registration_channel.clone(),
                            verification_status: VerificationStatus::PhoneVerified,
                            profile_completed: store.farmers[j].profile_completed,
                            created_at: store.farmers[j].created_at,
                            updated_at: store.farmers[j].updated_at,
                        };
                        proof {
                            assert(advanced == farmer_phone_verified(
                                old(store).farmers@[j as int],
                            ));
                        }
                        store.farmers.set(j, advanced);
                        proof {
                            assert(forall|k: int|
                                0 <= k < final(store).farmers@.len()
                                    ==> #[trigger] final(store).farmers@[k].phone_number@ == old(
                                    store,
                                ).farmers@[k].phone_number@);
                        }
                    },
                    None => {
                        proof {
                            lemma_farmer_index(store.farmers@, request.phone_number@);
                        }
                    },
                }
                true
            } else {
                if !store.verifications[i].verified && store.verifications[i].attempts < 3 {
                    let counted = PhoneVerification {
                        id: store.verifications[i].id.clone(),
                        phone_number: store.verifications[i].phone_number.clone(),
                        otp_code: store.verifications[i].otp_code.clone(),
                        expires_at: store.verifications[i].expires_at,
                        verified: store.verifications[i].verified,
                        attempts: store.verifications[i].attempts + 1,
                        created_at: store.verifications[i].created_at,
                    };
                    proof {
                        assert(counted == row_attempt_counted(
                            old(store).verifications@[i as int],
                        ));
                    }
                    store.verifications.set(i, counted);
                }
                false
            }
        },
    }
}

/// Validation returns false for a wrong code, an expired record, an
/// already-verified record, and an exhausted attempt limit — and true only
/// when the code matches the most recently issued record for the phone and
/// none of those holds.
pub proof fn lemma_validate_conditions(
    vs: Seq<PhoneVerification>,
    phone: Seq<char>,
    code: Seq<char>,
    now: int,
)
    ensures
        validate_ok(vs, phone, code, now) <==> ({
            let i = latest_for(vs, phone);
            &&& i >= 0
            &&& vs[i].otp_code@ == code
            &&& !vs[i].verified
            &&& vs[i].attempts < 3
            &&& now < vs[i].expires_at
        }),
{
}

/// A consumed challenge stays consumed: no validation ever clears a row's
/// `verified` flag.
pub proof fn lemma_verified_is_terminal(
    vs: Seq<PhoneVerification>,
    phone: Seq<char>,
    code: Seq<char>,
    now: int,
    j: int,
)
    requires
        0 <= j < vs.len(),
        vs[j].verified,
    ensures
        validate_post(vs, phone, code, now)[j].verified,
{
    lemma_latest_for(vs, phone);
}

/// An OTP is single-use: once a validation has consumed a code, validating
/// the same code for the same phone again fails, whatever the later time.
pub proof fn lemma_otp_single_use(
    vs: Seq<PhoneVerification>,
    phone: Seq<char>,
    code: Seq<char>,
    now1: int,
    now2: int,
)
    requires
        validate_ok(vs, phone, code, now1),
    ensures
        !validate_ok(validate_post(vs, phone, code, now1), phone, code, now2),
{
    let i = latest_for(vs, phone);
    lemma_latest_for(vs, phone);
    let post = vs.update(i, row_consumed(vs[i]));
    assert(post[i].phone_number@ == phone);
    assert(forall|j: int| i < j < post.len() ==> #[trigger] post[j].phone_number@ != phone);
    lemma_latest_for_unique(post, phone, i);
    assert(post[i].verified);
}

/// What registration returns: the new farmer's public summary, and the
/// OTP text to dispatch — absent when the phone number could not be
/// normalized, in which case the farmer still exists and a resend can be
/// asked for.
pub struct RegistrationOutcome {
    pub farmer: FarmerResponse,
    pub sms: Option<SmsMessage>,
}

/// The farmer row registration appends for `req`: the given id, the
/// request's identity fields, the channel defaulting to `Web`, a pending
/// status, an incomplete profile, and both timestamps at `now`.
pub open spec fn spec_registered_farmer(
    f: Farmer,
    req: CreateFarmerRequest,
    id: Seq<char>,
    now: int,
) -> bool {
    &&& f.id@ == id
    &&& f.phone_number@ == req.phone_number@
    &&& f.email == req.email
    &&& f.first_name@ == req.first_name@
    &&& f.last_name@ == req.last_name@
    &&& f.registration_channel@ == (match req.registration_channel {
        Some(c) => c@,
        None => "Web"@,
    })
    &&& f.verification_status == VerificationStatus::Pending
    &&& !f.profile_completed
    &&& f.created_at == now
    &&& f.updated_at == now
}

/// The farm row registration appends for farm data `fd`: the location is
/// present only when both coordinates are, and the farm type defaults to
/// subsistence farming.
pub open spec fn spec_farm_row(
    fm: Farm,
    fd: CreateFarmRequest,
    id: Seq<char>,
    farmer_id: Seq<char>,
) -> bool {
    &&& fm.id@ == id
    &&& fm.farmer_id@ == farmer_id
    &&& fm.farm_name == fd.farm_name
    &&& fm.location == (match (fd.latitude_microdeg, fd.longitude_microdeg) {
        (Some(la), Some(lo)) => Some(GeoPoint { latitude_microdeg: la, longitude_microdeg: lo }),
        _ => None::<GeoPoint>,
    })
    &&& fm.address_text == fd.address_text
    &&& fm.farm_size_sq_m == fd.farm_size_sq_m
    &&& fm.farm_type@ == (match fd.farm_type {
        Some(t) => t@,
        None => "subsistence"@,
    })
    &&& fm.primary_crops@ == (match fd.primary_crops {
        Some(c) => c@,
        None => Seq::<String>::empty(),
    })
}

/// The summary registration returns: the new farmer's id and identity,
/// pending status, incomplete profile.
pub open spec fn spec_registration_response(
    resp: FarmerResponse,
    req: CreateFarmerRequest,
    id: Seq<char>,
) -> bool {
    &&& resp.id@ == id
    &&& resp.phone_number@ == req.phone_number@
    &&& resp.email == req.email
    &&& resp.first_name@ == req.first_name@
    &&& resp.last_name@ == req.last_name@
    &&& resp.verification_status == VerificationStatus::Pending
    &&& !resp.profile_completed
}

/// Registers a farmer with the given fresh ids, OTP code and time: rejects
/// an empty or already-registered phone number before any change; appends
/// the farmer row and, when farm data is present, the farm row — the two
/// stand or fall together — and then issues the OTP.
pub fn create_farmer_at(
    store: &mut Store,
    request: CreateFarmerRequest,
    now: i64,
    farmer_id: String,
    farm_id: String,
    verification_id: String,
    otp_code: String,
) -> (r: Result<RegistrationOutcome, AppError>)
    requires
        old(store).wf(),
    ensures
        final(store).wf(),
        r is Err <==> request.phone_number@.len() == 0 || has_farmer_phone(
            old(store).farmers@,
            request.phone_number@,
        ),
        r matches Err(e) ==> final(store).farmers@ == old(store).farmers@ && final(store).farms@
            == old(store).farms@ && final(store).verifications@ == old(store).verifications@
            && final(store).products@ == old(store).products@ && (e matches
        AppError::ValidationError(m) && m@ == (if request.phone_number@.len() == 0 {
            "Phone number cannot be empty"@
        } else {
            "Phone number already registered"@
        })),
        r matches Ok(out) ==> ({
            &&& final(store).farmers@.len() == old(store).farmers@.len() + 1
            &&& final(store).farmers@.drop_last() == old(store).farmers@
            &&& spec_registered_farmer(
                final(store).farmers@.last(),
                request,
                farmer_id@,
                now as int,
            )
            &&& (match request.farm_data {
                Some(fd) => final(store).farms@.len() == old(store).farms@.len() + 1
                    && final(store).farms@.drop_last() == old(store).farms@ && spec_farm_row(
                    final(store).farms@.last(),
                    fd,
                    farm_id@,
                    farmer_id@,
                ),
                None => final(store).farms@ == old(store).farms@,
            })
            &&& send_otp_transition(
                old(store).verifications@,
                final(store).verifications@,
                request.phone_number@,
                verification_id@,
                otp_code@,
                now as int,
            )
            &&& final(store).products@ == old(store).products@
            &&& spec_registration_response(out.farmer, request, farmer_id@)
            &&& (out.sms is Some <==> e164_of(request.phone_number@) is Some)
            &&& (out.sms matches Some(m) ==> e164_of(request.phone_number@) == Some(m.to@)
                && m.body@ == otp_sms_body(otp_code@))
        }),
{
    let CreateFarmerRequest {
        phone_number,
        email,
        first_name,
        last_name,
        registration_channel,
        farm_data,
    } = request;
    if phone_number.as_str().is_empty() {
        return Err(AppError::ValidationError("Phone number cannot be empty".to_owned()));
    }
    match find_farmer_index(&store.farmers, &phone_number) {
        Some(_) => Err(AppError::ValidationError("Phone number already registered".to_owned())),
        None => {
            let farmer = Farmer {
                id: farmer_id.clone(),
                phone_number: phone_number.clone(),
                email: clone_opt_string(&email),
                first_name: first_name.clone(),
                last_name: last_name.clone(),
                registration_channel: match registration_channel {
                    Some(c) => c,
                    None => "Web".to_owned(),
                },
                verification_status: VerificationStatus::Pending,
                profile_completed: false,
                created_at: now,
                updated_at: now,
            };
            store.farmers.push(farmer);
            proof {
                assert(store.farmers@.drop_last() =~= old(store).farmers@);
                assert forall|a: int, b: int| 0 <= a < b < store.farmers@.len() implies #[trigger] store.farmers@[a].phone_number@
                    != #[trigger] store.farmers@[b].phone_number@ by {
                    if b == store.farmers@.len() - 1 {
                        assert(old(store).farmers@[a].phone_number@ != phone_number@);
                    }
                }
            }
            if let Some(fd) = farm_data {
                let CreateFarmRequest {
                    farm_name,
                    latitude_microdeg,
                    longitude_microdeg,
                    address_text,
                    farm_size_sq_m,
                    farm_type,
                    primary_crops,
                } = fd;
                let location = match (latitude_microdeg, longitude_microdeg) {
                    (Some(la), Some(lo)) => Some(
                        GeoPoint { latitude_microdeg: la, longitude_microdeg: lo },
                    ),
                    _ => None,
                };
                let farm = Farm {
                    id: farm_id,
                    farmer_id: farmer_id.clone(),
                    farm_name,
                    location,
                    address_text,
                    farm_size_sq_m,
                    farm_type: match farm_type {
                        Some(t) => t,
                        None => "subsistence".to_owned(),
                    },
                    primary_crops: match primary_crops {
                        Some(c) => c,
                        None => Vec::new(),
                    },
                };
                store.farms.push(farm);
                proof {
                    assert(store.farms@.drop_last() =~= old(store).farms@);
                }
            }
            let sms_result = send_otp_at(store, &phone_number, verification_id, otp_code, now);
            let response = FarmerResponse {
                id: farmer_id,
                phone_number,
                email,
                first_name,
                last_name,
                verification_status: VerificationStatus::Pending,
                profile_completed: false,
            };
            Ok(
                RegistrationOutcome {
                    farmer: response,
                    sms: match sms_result {
                        Ok(m) => Some(m),
                        Err(_) => None,
                    },
                },
            )
        },
    }
}

/// Registers a farmer: fresh ids and OTP are drawn, the time is read, and
/// the work is done as `create_farmer_at` describes.  The new rows carry
/// the drawn values; the recorded OTP is always six decimal digits.
pub fn create_farmer(store: &mut Store, request: CreateFarmerRequest) -> (r: Result<
    RegistrationOutcome,
    AppError,
>)
    requires
        old(store).wf(),
    ensures
        final(store).wf(),
        r is Err <==> request.phone_number@.len() == 0 || has_farmer_phone(
            old(store).farmers@,
            request.phone_number@,
        ),
        r matches Err(e) ==> final(store).farmers@ == old(store).farmers@ && final(store).farms@
            == old(store).farms@ && final(store).verifications@ == old(store).verifications@
            && final(store).products@ == old(store).products@ && (e matches
        AppError::ValidationError(m) && m@ == (if request.phone_number@.len() == 0 {
            "Phone number cannot be empty"@
        } else {
            "Phone number already registered"@
        })),
        r matches Ok(out) ==> ({
            let nf = final(store).farmers@.last();
            let nv = final(store).verifications@.last();
            &&& final(store).farmers@.len() == old(store).farmers@.len() + 1
            &&& final(store).farmers@.drop_last() == old(store).farmers@
            &&& spec_registered_farmer(nf, request, nf.id@, nf.created_at as int)
            &&& (match request.farm_data {
                Some(fd) => final(store).farms@.len() == old(store).farms@.len() + 1
                    && final(store).farms@.drop_last() == old(store).farms@ && spec_farm_row(
                    final(store).farms@.last(),
                    fd,
                    final(store).farms@.last().id@,
                    nf.id@,
                ),
                None => final(store).farms@ == old(store).farms@,
            })
            &&& final(store).verifications@.len() >= 1
            &&& send_otp_transition(
                old(store).verifications@,
                final(store).verifications@,
                request.phone_number@,
                nv.id@,
                nv.otp_code@,
                nv.created_at as int,
            )
            &&& is_otp_code(nv.otp_code@)
            &&& nv.created_at == nf.created_at
            &&& final(store).products@ == old(store).products@
            &&& spec_registration_response(out.farmer, request, nf.id@)
            &&& (out.sms is Some <==> e164_of(request.phone_number@) is Some)
            &&& (out.sms matches Some(m) ==> e164_of(request.phone_number@) == Some(m.to@)
                && m.body@ == otp_sms_body(nv.otp_code@))
        }),
{
    let farmer_id = new_uuid_string();
    let farm_id = new_uuid_string();
    let verification_id = new_uuid_string();
    let otp_code = generate_otp();
    let now = now_unix();
    create_farmer_at(store, request, now, farmer_id, farm_id, verification_id, otp_code)
}

/// Sends a login OTP with the given fresh id, code and time.  Login is
/// for existing farmers only: an empty or unregistered phone number is
/// rejected before any change; otherwise the OTP is issued exactly as
/// `send_otp_at` describes.
pub fn send_login_otp_at(
    store: &mut Store,
    request: &FarmerLogin,
    id: String,
    code: String,
    now: i64,
) -> (r: Result<SmsMessage, AppError>)
    requires
        old(store).wf(),
    ensures
        final(store).wf(),
        final(store).farmers@ == old(store).farmers@,
        final(store).farms@ == old(store).farms@,
        final(store).products@ == old(store).products@,
        request.phone_number@.len() > 0 && has_farmer_phone(
            old(store).farmers@,
            request.phone_number@,
        ) ==> send_otp_transition(
            old(store).verifications@,
            final(store).verifications@,
            request.phone_number@,
            id@,
            code@,
            now as int,
        ),
        !(request.phone_number@.len() > 0 && has_farmer_phone(
            old(store).farmers@,
            request.phone_number@,
        )) ==> final(store).verifications@ == old(store).verifications@,
        r is Ok <==> request.phone_number@.len() > 0 && has_farmer_phone(
            old(store).farmers@,
            request.phone_number@,
        ) && e164_of(request.phone_number@) is Some,
        r matches Ok(m) ==> e164_of(request.phone_number@) == Some(m.to@) && m.body@
            == otp_sms_body(code@),
        r matches Err(e) ==> (if request.phone_number@.len() == 0 {
            e matches AppError::ValidationError(msg) && msg@ == "No phone number provided"@
        } else if !has_farmer_phone(old(store).farmers@, request.phone_number@) {
            e matches AppError::ValidationError(msg) && msg@ == "Farmer is not registered"@
        } else {
            e matches AppError::InternalError(_)
        }),
{
    if request.phone_number.as_str().is_empty() {
        return Err(AppError::ValidationError("No phone number provided".to_owned()));
    }
    match find_farmer_index(&store.farmers, &request.phone_number) {
        None => Err(AppError::ValidationError("Farmer is not registered".to_owned())),
        Some(_) => send_otp_at(store, &request.phone_number, id, code, now),
    }
}

/// Sends a login OTP now, with a fresh id and a fresh six-digit code.
pub fn send_login_otp(store: &mut Store, request: &FarmerLogin) -> (r: Result<
    SmsMessage,
    AppError,
>)
    requires
        old(store).wf(),
    ensures
        final(store).wf(),
        final(store).farmers@ == old(store).farmers@,
        final(store).farms@ == old(store).farms@,
        final(store).products@ == old(store).products@,
        request.phone_number@.len() > 0 && has_farmer_phone(
            old(store).farmers@,
            request.phone_number@,
        ) ==> ({
            let last = final(store).verifications@.last();
            final(store).verifications@.len() >= 1 && send_otp_transition(
                old(store).verifications@,
                final(store).verifications@,
                request.phone_number@,
                last.id@,
                last.otp_code@,
                last.created_at as int,
            ) && is_otp_code(last.otp_code@)
        }),
        !(request.phone_number@.len() > 0 && has_farmer_phone(
            old(store).farmers@,
            request.phone_number@,
        )) ==> final(store).verifications@ == old(store).verifications@,
        r is Ok <==> request.phone_number@.len() > 0 && has_farmer_phone(
            old(store).farmers@,
            request.phone_number@,
        ) && e164_of(request.phone_number@) is Some,
        r matches Ok(m) ==> e164_of(request.phone_number@) == Some(m.to@) && m.body@
            == otp_sms_body(final(store).verifications@.last().otp_code@),
        r matches Err(e) ==> (if request.phone_number@.len() == 0 {
            e matches AppError::ValidationError(msg) && msg@ == "No phone number provided"@
        } else if !has_farmer_phone(old(store).farmers@, request.phone_number@) {
            e matches AppError::ValidationError(msg) && msg@ == "Farmer is not registered"@
        } else {
            e matches AppError::InternalError(_)
        }),
{
    let id = new_uuid_string();
    let code = generate_otp();
    let now = now_unix();
    send_login_otp_at(store, request, id, code, now)
}

/// The summary a completed login returns: the farmer's id and identity.
pub open spec fn spec_login_response(resp: LoginResponse, f: Farmer) -> bool {
    &&& resp.id@ == f.id@
    &&& resp.phone_number@ == f.phone_number@
    &&& resp.email == f.email
    &&& resp.first_name@ == f.first_name@
    &&& resp.last_name@ == f.last_name@
}

/// Completes a login: validates the submitted OTP as `verify_phone_number`
/// does, and on success returns the farmer's summary.  A failed
/// validation is reported as one coarse validation error, so that the
/// caller learns nothing about which check failed.
pub fn login_farmer_after_otp(store: &mut Store, request: &VerifyPhoneRequest, now: i64) -> (r:
    Result<LoginResponse, AppError>)
    requires
        old(store).wf(),
    ensures
        final(store).wf(),
        final(store).verifications@ == validate_post(
            old(store).verifications@,
            request.phone_number@,
            request.otp_code@,
            now as int,
        ),
        final(store).farmers@ == farmers_post(
            old(store).farmers@,
            request.phone_number@,
            validate_ok(
                old(store).verifications@,
                request.phone_number@,
                request.otp_code@,
                now as int,
            ),
        ),
        final(store).farms@ == old(store).farms@,
        final(store).products@ == old(store).products@,
        r is Ok <==> validate_ok(
            old(store).verifications@,
            request.phone_number@,
            request.otp_code@,
            now as int,
        ) && has_farmer_phone(old(store).farmers@, request.phone_number@),
        r matches Ok(resp) ==> ({
            let i = farmer_index(old(store).farmers@, request.phone_number@);
            i >= 0 && spec_login_response(resp, old(store).farmers@[i])
        }),
        r matches Err(e) ==> (if !validate_ok(
            old(store).verifications@,
            request.phone_number@,
            request.otp_code@,
            now as int,
        ) {
            e matches AppError::ValidationError(m) && m@ == "Otp Error"@
        } else {
            e matches AppError::DatabaseError(_)
        }),
{
    let ok = verify_phone_number(store, request, now);
    if ok {
        match find_farmer_index(&store.farmers, &request.phone_number) {
            Some(j) => {
                proof {
                    let phone = request.phone_number@;
                    lemma_farmer_index(old(store).farmers@, phone);
                    let fi = farmer_index(old(store).farmers@, phone);
                    assert(store.farmers@ == farmers_post(old(store).farmers@, phone, true));
                    assert forall|k: int| 0 <= k < store.farmers@.len() implies #[trigger] store.farmers@[k].phone_number@
                        == old(store).farmers@[k].phone_number@ by {
                        if fi >= 0 {
                            assert(store.farmers@ == old(store).farmers@.update(
                                fi,
                                farmer_phone_verified(old(store).farmers@[fi]),
                            ));
                        }
                    }
                    lemma_farmer_index_unique(old(store).farmers@, phone, j as int);
                }
                let resp = LoginResponse {
                    id: store.farmers[j].id.clone(),
                    phone_number: store.farmers[j].phone_number.clone(),
                    email: clone_opt_string(&store.farmers[j].email),
                    first_name: store.farmers[j].first_name.clone(),
                    last_name: store.farmers[j].last_name.clone(),
                };
                Ok(resp)
            },
            None => {
                proof {
                    let phone = request.phone_number@;
                    lemma_farmer_index(old(store).farmers@, phone);
                    let fi = farmer_index(old(store).farmers@, phone);
                    if has_farmer_phone(old(store).farmers@, phone) {
                        let w = choose|w: int|
                            0 <= w < old(store).farmers@.len()
                                && #[trigger] old(store).farmers@[w].phone_number@ == phone;
                        if fi >= 0 {
                            assert(store.farmers@ == old(store).farmers@.update(
                                fi,
                                farmer_phone_verified(old(store).farmers@[fi]),
                            ));
                        }
                        assert(store.farmers@[w].phone_number@ == phone);
                    }
                }
                Err(AppError::DatabaseError("Farmer row not found".to_owned()))
            },
        }
    } else {
        Err(AppError::ValidationError("Otp Error".to_owned()))
    }
}

} // verus!
