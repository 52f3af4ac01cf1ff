//! Session establishment after phone verification, and the
//! session-guarded dashboard greeting.  The session layer itself (cookie
//! encoding, signing, persistence) lives in the boundary layer; these
//! functions only build and read the plain session value.

use vstd::prelude::*;
use crate::errors::AppError;
use crate::farmer::{Farm, Farmer, FarmerSession, VerifyPhoneRequest};
use crate::farmer_service::{
    farmer_phone_verified, farmers_post, validate_ok, validate_post, verify_phone_number,
};
use crate::store::{
    farm_index_for, farmer_index, find_farm_index, find_farmer_index, has_farm_for,
    has_farmer_phone, lemma_farm_index_for, lemma_farmer_index, lemma_farmer_index_unique, Store,
};

verus! {

/// The session payload for farmer `f`: the farmer's id and first name,
/// and the id of the farmer's farm when one exists.
pub open spec fn spec_session(sess: FarmerSession, f: Farmer, farms: Seq<Farm>) -> bool {
    &&& sess.farmer_id@ == f.id@
    &&& sess.name@ == f.first_name@
    &&& (has_farm_for(farms, f.id@) ==> (sess.farm_id matches Some(fid) && fid@ == farms[
        farm_index_for(farms, f.id@)
    ].id@))
    &&& (!has_farm_for(farms, f.id@) ==> sess.farm_id is None)
}

/// Verifies a submitted OTP exactly as `verify_phone_number` does and, on
/// success, builds the session value for the verified farmer.
pub fn verify_phone(store: &mut Store, request: &VerifyPhoneRequest, now: i64) -> (r: Result<
    FarmerSession,
    AppError,
>)
    requires
        old(store).wf(),
    ensures
        final(store).wf(),
        final(store).verifications@ == validate_post(
            old(store).verifications@,
            request.phone_number@,
            request.otp_code@,
            now as int,
        ),
        final(store).farmers@ == farmers_post(
            old(store).farmers@,
            request.phone_number@,
            validate_ok(
                old(store).verifications@,
                request.phone_number@,
                request.otp_code@,
                now as int,
            ),
        ),
        final(store).farms@ == old(store).farms@,
        final(store).products@ == old(store).products@,
        r is Ok <==> validate_ok(
            old(store).verifications@,
            request.phone_number@,
            request.otp_code@,
            now as int,
        ) && has_farmer_phone(old(store).farmers@, request.phone_number@),
        r matches Ok(sess) ==> ({
            let i = farmer_index(old(store).farmers@, request.phone_number@);
            i >= 0 && spec_session(sess, old(store).farmers@[i], old(store).farms@)
        }),
        r matches Err(e) ==> (if !validate_ok(
            old(store).verifications@,
            request.phone_number@,
            request.otp_code@,
            now as int,
        ) {
            e matches AppError::ValidationError(m) && m@ == "Phone verified failed"@
        } else {
            e matches AppError::DatabaseError(_)
        }),
{
    let ok = verify_phone_number(store, request, now);
    if ok {
        match find_farmer_index(&store.farmers, &request.phone_number) {
            Some(j) => {
                proof {
                    let phone = request.phone_number@;
                    lemma_farmer_index(old(store).farmers@, phone);
                    let fi = farmer_index(old(store).farmers@, phone);
                    assert(store.farmers@ == farmers_post(old(store).farmers@, phone, true));
                    assert forall|k: int| 0 <= k < store.farmers@.len() implies #[trigger] store.farmers@[k].phone_number@
                        == old(store).farmers@[k].phone_number@ by {
                        if fi >= 0 {
                            assert(store.farmers@ == old(store).farmers@.update(
                                fi,
                                farmer_phone_verified(old(store).farmers@[fi]),
                            ));
                        }
                    }
                    lemma_farmer_index_unique(old(store).farmers@, phone, j as int);
                    assert(store.farmers@ == old(store).farmers@.update(
                        j as int,
                        farmer_phone_verified(old(store).farmers@[j as int]),
                    ));
                    assert(store.farmers@[j as int].id@ == old(store).farmers@[j as int].id@);
                    assert(store.farmers@[j as int].first_name@ == old(store).farmers@[
                        j as int
                    ].first_name@);
                }
                let farmer_id = store.farmers[j].id.clone();
                let name = store.farmers[j].first_name.clone();
                let farm_id = match find_farm_index(&store.farms, &farmer_id) {
                    Some(k) => {
                        proof {
                            lemma_farm_index_for(store.farms@, farmer_id@);
                        }
                        Some(store.farms[k].id.clone())
                    },
                    None => {
                        proof {
                            lemma_farm_index_for(store.farms@, farmer_id@);
                        }
                        None
                    },
                };
                Ok(FarmerSession { farmer_id, farm_id, name })
            },
            None => {
                proof {
                    let phone = request.phone_number@;
                    lemma_farmer_index(old(store).farmers@, phone);
                    let fi = farmer_index(old(store).farmers@, phone);
                    if has_farmer_phone(old(store).farmers@, phone) {
                        let w = choose|w: int|
                            0 <= w < old(store).farmers@.len()
                                && #[trigger] old(store).farmers@[w].phone_number@ == phone;
                        if fi >= 0 {
                            assert(store.farmers@ == old(store).farmers@.update(
                                fi,
                                farmer_phone_verified(old(store).farmers@[fi]),
                            ));
                        }
                        assert(store.farmers@[w].phone_number@ == phone);
                    }
                }
                Err(AppError::DatabaseError("Farmer row not found".to_owned()))
            },
        }
    } else {
        Err(AppError::ValidationError("Phone verified failed".to_owned()))
    }
}

/// The dashboard greets an authenticated farmer by name and turns away a
/// request without a session.
pub fn dashboard_greeting(session: &Option<FarmerSession>) -> (r: Result<String, AppError>)
    ensures
        r is Ok <==> session is Some,
        r matches Ok(g) ==> session matches Some(s) && g@ == "Welcome back "@ + s.name@,
        r matches Err(e) ==> e matches AppError::Unauthorized(m) && m@ == "Not logged in"@,
{
    match session {
        Some(s) => Ok(String::from_str("Welcome back ").concat(s.name.as_str())),
        None => Err(AppError::Unauthorized("Not logged in".to_owned())),
    }
}

} // verus!
