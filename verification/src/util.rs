//! The workflows' sources of randomness and time.  Each outside call sits
//! behind a small trusted wrapper; everything derived from the raw values
//! is computed and proved here.

use vstd::prelude::*;
use rand::Rng;
use crate::text::{dec_rep, decimal_string, is_ascii_digit_char, lemma_dec_rep_six_digits};

verus! {

/// Relies on `rand::thread_rng` and `Rng::gen_range`: a uniformly random
/// number drawn from the given non-empty range.
#[verifier::external_body]
fn random_otp_number() -> (code: u64)
    ensures
        100000 <= code <= 999999,
{
    rand::thread_rng().gen_range(100000..=999999)
}

/// A six-digit decimal string.
pub open spec fn is_otp_code(code: Seq<char>) -> bool {
    code.len() == 6 && forall|i: int| 0 <= i < 6 ==> is_ascii_digit_char(#[trigger] code[i])
}

/// Draws a fresh OTP: six decimal digits, never starting with a zero.
pub fn generate_otp() -> (code: String)
    ensures
        is_otp_code(code@),
        code@[0] != '0',
        exists|n: int| 100000 <= n <= 999999 && code@ == dec_rep(n),
{
    let n = random_otp_number();
    let code = decimal_string(n);
    proof {
        lemma_dec_rep_six_digits(n as int);
        assert(100000 <= n as int <= 999999 && code@ == dec_rep(n as int));
    }
    code
}

pub open spec fn is_lower_hex_char(c: char) -> bool {
    ('0' <= c && c <= '9') || ('a' <= c && c <= 'f')
}

/// Relies on `uuid::Uuid::new_v4` and its `Display` form: 36 characters of
/// lowercase hexadecimal in five groups separated by hyphens at positions
/// 8, 13, 18 and 23.
#[verifier::external_body]
pub(crate) fn new_uuid_string() -> (r: String)
    ensures
        r@.len() == 36,
        forall|i: int|
            0 <= i < 36 && !(i == 8 || i == 13 || i == 18 || i == 23) ==> is_lower_hex_char(
                #[trigger] r@[i],
            ),
        forall|i: int| i == 8 || i == 13 || i == 18 || i == 23 ==> #[trigger] r@[i] == '-',
{
    uuid::Uuid::new_v4().to_string()
}

/// Relies on `chrono::Utc::now`: the current time as whole seconds since
/// the Unix epoch.  Nothing is promised of the value.
#[verifier::external_body]
pub(crate) fn now_unix() -> i64 {
    chrono::Utc::now().timestamp()
}

/// The tail of a fresh unique identifier, used to de-collide slugs: the
/// last six characters of a new hyphenated UUID.
pub fn fresh_slug_suffix() -> (r: String)
    ensures
        r@.len() == 6,
{
    let u = new_uuid_string();
    let tail = u.as_str().substring_char(30, 36);
    tail.to_owned()
}

} // verus!
