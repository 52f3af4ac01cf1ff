//! Character and string helpers shared by the workflows: ASCII character
//! classes, blank-string detection, and decimal formatting of integers.

use vstd::prelude::*;

verus! {

/// ASCII whitespace, the class `is_blank` strips.  The full Unicode
/// whitespace class is wider; inputs are expected to be ASCII here.
pub open spec fn is_space_char(c: char) -> bool {
    c == ' ' || c == '\t' || c == '\n' || c == '\r' || c == '\u{b}' || c == '\u{c}'
}

/// A string is blank when every character is whitespace.
pub open spec fn spec_is_blank(s: Seq<char>) -> bool {
    forall|i: int| 0 <= i < s.len() ==> is_space_char(#[trigger] s[i])
}

/// Whether `s` trims to the empty string.
pub fn is_blank(s: &str) -> (r: bool)
    ensures
        r == spec_is_blank(s@),
{
    let n = s.unicode_len();
    let mut i: usize = 0;
    while i < n
        invariant
            0 <= i <= n,
            n == s@.len(),
            forall|j: int| 0 <= j < i ==> is_space_char(#[trigger] s@[j]),
        decreases n - i,
    {
        let c = s.get_char(i);
        if !(c == ' ' || c == '\t' || c == '\n' || c == '\r' || c == '\u{b}' || c == '\u{c}') {
            return false;
        }
        i = i + 1;
    }
    true
}

pub open spec fn is_ascii_digit_char(c: char) -> bool {
    '0' <= c && c <= '9'
}

/// The digit character for a value below ten.
pub open spec fn digit_char(d: int) -> char {
    if d == 0 { '0' }
    else if d == 1 { '1' }
    else if d == 2 { '2' }
    else if d == 3 { '3' }
    else if d == 4 { '4' }
    else if d == 5 { '5' }
    else if d == 6 { '6' }
    else if d == 7 { '7' }
    else if d == 8 { '8' }
    else { '9' }
}

/// The decimal representation of a non-negative integer, most significant
/// digit first, with no leading zeros (except for zero itself).
pub open spec fn dec_rep(n: int) -> Seq<char>
    decreases n,
{
    if n < 10 {
        seq![digit_char(n)]
    } else {
        dec_rep(n / 10).push(digit_char(n % 10))
    }
}

/// Duplicates an optional string.
pub(crate) fn clone_opt_string(o: &Option<String>) -> (r: Option<String>)
    ensures
        r == *o,
{
    match o {
        Some(s) => Some(s.clone()),
        None => None,
    }
}

/// Duplicates a vector of strings.
pub(crate) fn clone_string_vec(v: &Vec<String>) -> (r: Vec<String>)
    ensures
        r@ == v@,
{
    let mut r: Vec<String> = Vec::new();
    let n = v.len();
    let mut i: usize = 0;
    while i < n
        invariant
            0 <= i <= n,
            n == v@.len(),
            r@ == v@.take(i as int),
        decreases n - i,
    {
        r.push(v[i].clone());
        proof {
            assert(r@ =~= v@.take(i as int + 1));
        }
        i = i + 1;
    }
    proof {
        assert(v@.take(n as int) =~= v@);
    }
    r
}

/// Relies on `String::push`: appends the given character to the string.
#[verifier::external_body]
pub(crate) fn push_char(s: &mut String, c: char)
    ensures
        final(s)@ == old(s)@.push(c),
{
    s.push(c)
}

fn digit_of(d: u64) -> (c: char)
    requires
        d < 10,
    ensures
        c == digit_char(d as int),
{
    if d == 0 { '0' }
    else if d == 1 { '1' }
    else if d == 2 { '2' }
    else if d == 3 { '3' }
    else if d == 4 { '4' }
    else if d == 5 { '5' }
    else if d == 6 { '6' }
    else if d == 7 { '7' }
    else if d == 8 { '8' }
    else { '9' }
}

fn push_dec(s: &mut String, n: u64)
    ensures
        final(s)@ == old(s)@ + dec_rep(n as int),
    decreases n,
{
    if n >= 10 {
        push_dec(s, n / 10);
    }
    push_char(s, digit_of(n % 10));
    proof {
        if n < 10 {
            assert(final(s)@ =~= old(s)@ + dec_rep(n as int));
        } else {
            assert(final(s)@ =~= old(s)@ + dec_rep(n as int));
        }
    }
}

/// The decimal rendering of `n`, e.g. `407` becomes `"407"`.
pub fn decimal_string(n: u64) -> (s: String)
    ensures
        s@ == dec_rep(n as int),
{
    let mut s = String::new();
    push_dec(&mut s, n);
    proof {
        assert(s@ =~= dec_rep(n as int));
    }
    s
}

/// A six-digit number renders as exactly six digit characters, the first
/// of them never a zero.
pub proof fn lemma_dec_rep_six_digits(n: int)
    requires
        100000 <= n <= 999999,
    ensures
        dec_rep(n).len() == 6,
        forall|i: int| 0 <= i < 6 ==> is_ascii_digit_char(#[trigger] dec_rep(n)[i]),
        dec_rep(n)[0] != '0',
{
    let n1 = n / 10;
    let n2 = n1 / 10;
    let n3 = n2 / 10;
    let n4 = n3 / 10;
    let n5 = n4 / 10;
    assert(10000 <= n1 <= 99999);
    assert(1000 <= n2 <= 9999);
    assert(100 <= n3 <= 999);
    assert(10 <= n4 <= 99);
    assert(1 <= n5 <= 9);
    assert(dec_rep(n5) =~= seq![digit_char(n5)]);
    assert(dec_rep(n4) =~= seq![digit_char(n5), digit_char(n4 % 10)]);
    assert(dec_rep(n3) =~= seq![digit_char(n5), digit_char(n4 % 10), digit_char(n3 % 10)]);
    assert(dec_rep(n2) =~= seq![
        digit_char(n5),
        digit_char(n4 % 10),
        digit_char(n3 % 10),
        digit_char(n2 % 10),
    ]);
    assert(dec_rep(n1) =~= seq![
        digit_char(n5),
        digit_char(n4 % 10),
        digit_char(n3 % 10),
        digit_char(n2 % 10),
        digit_char(n1 % 10),
    ]);
    assert(dec_rep(n) =~= seq![
        digit_char(n5),
        digit_char(n4 % 10),
        digit_char(n3 % 10),
        digit_char(n2 % 10),
        digit_char(n1 % 10),
        digit_char(n % 10),
    ]);
}

} // verus!
