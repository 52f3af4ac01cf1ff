//! SMS delivery support: E.164 phone-number normalization and the text of
//! the OTP message.  The actual gateway call is made by the boundary layer,
//! which receives a ready [`SmsMessage`] from the workflows.

use vstd::prelude::*;
use crate::errors::AppError;

verus! {

/// A text message ready for dispatch: an E.164 destination and a body.
#[derive(Debug, Clone)]
pub struct SmsMessage {
    pub to: String,
    pub body: String,
}

/// E.164 normalization for Nigerian numbers: a leading `0` followed by ten
/// more characters becomes `+234` plus the remainder; a fourteen-character
/// number already starting with `+234` passes through; anything else is
/// rejected.
pub open spec fn e164_of(s: Seq<char>) -> Option<Seq<char>> {
    if s.len() == 11 && s[0] == '0' {
        Some("+234"@ + s.skip(1))
    } else if s.len() == 14 && s.take(4) == "+234"@ {
        Some(s)
    } else {
        None
    }
}

/// Normalizes a phone number to E.164, or reports that it cannot be.
pub fn tweak_phone_number(phone_number: &str) -> (r: Option<String>)
    ensures
        r matches Some(t) ==> e164_of(phone_number@) == Some(t@),
        r is Some <==> e164_of(phone_number@) is Some,
{
    let n = phone_number.unicode_len();
    if n == 11 && phone_number.get_char(0) == '0' {
        let rest = phone_number.substring_char(1, 11);
        let out = String::from_str("+234").concat(rest);
        proof {
            assert(rest@ =~= phone_number@.skip(1));
        }
        Some(out)
    } else if n == 14 && phone_number.get_char(0) == '+' && phone_number.get_char(1) == '2'
        && phone_number.get_char(2) == '3' && phone_number.get_char(3) == '4' {
        proof {
            reveal_strlit("+234");
            assert(phone_number@.take(4) =~= "+234"@);
        }
        Some(phone_number.to_owned())
    } else {
        proof {
            if phone_number@.len() == 14 {
                reveal_strlit("+234");
                assert(phone_number@.take(4) != "+234"@) by {
                    if phone_number@.take(4) == "+234"@ {
                        assert(phone_number@.take(4)[0] == "+234"@[0]);
                        assert(phone_number@.take(4)[1] == "+234"@[1]);
                        assert(phone_number@.take(4)[2] == "+234"@[2]);
                        assert(phone_number@.take(4)[3] == "+234"@[3]);
                        assert(phone_number@[0] == '+' && phone_number@[1] == '2'
                            && phone_number@[2] == '3' && phone_number@[3] == '4');
                    }
                }
            }
        }
        None
    }
}

/// The body of the OTP text for a given code.
pub open spec fn otp_sms_body(code: Seq<char>) -> Seq<char> {
    "Your otp code is "@ + code
}

/// Builds the OTP text message for a phone number, failing (rather than
/// silently skipping the send) when the number cannot be normalized.
pub fn sms_message_for(phone_number: &str, code: &String) -> (r: Result<SmsMessage, AppError>)
    ensures
        r is Ok <==> e164_of(phone_number@) is Some,
        r matches Ok(msg) ==> e164_of(phone_number@) == Some(msg.to@) && msg.body@ == otp_sms_body(
            code@,
        ),
        r matches Err(e) ==> e matches AppError::InternalError(m) && m@
            == "Phone number cannot be normalized"@,
{
    match tweak_phone_number(phone_number) {
        Some(to) => {
            let body = String::from_str("Your otp code is ").concat(code.as_str());
            Ok(SmsMessage { to, body })
        },
        None => Err(AppError::InternalError("Phone number cannot be normalized".to_owned())),
    }
}

} // verus!
