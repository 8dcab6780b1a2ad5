//! The password policy enforced on registration, password change and
//! password reset: at least 10 characters, with an uppercase letter, a
//! lowercase letter and a digit.
use vstd::prelude::*;

use crate::text::{chars_of, is_ascii_digit, is_ascii_lower, is_ascii_upper};

verus! {

/// Whether a non-ASCII character is uppercase (Unicode `Uppercase`).
pub uninterp spec fn non_ascii_uppercase(c: char) -> bool;

/// Whether a non-ASCII character is lowercase (Unicode `Lowercase`).
pub uninterp spec fn non_ascii_lowercase(c: char) -> bool;

/// Whether a non-ASCII character is numeric (Unicode numeric categories).
pub uninterp spec fn non_ascii_numeric(c: char) -> bool;

/// Whether a character is uppercase (Unicode `Uppercase`): on ASCII
/// exactly `A`-`Z`.
pub open spec fn unicode_uppercase(c: char) -> bool {
    if (c as u32) < 128 { is_ascii_upper(c) } else { non_ascii_uppercase(c) }
}

/// Whether a character is lowercase (Unicode `Lowercase`): on ASCII
/// exactly `a`-`z`.
pub open spec fn unicode_lowercase_char(c: char) -> bool {
    if (c as u32) < 128 { is_ascii_lower(c) } else { non_ascii_lowercase(c) }
}

/// Whether a character is numeric (Unicode numeric categories): on ASCII
/// exactly `0`-`9`.
pub open spec fn unicode_numeric(c: char) -> bool {
    if (c as u32) < 128 { is_ascii_digit(c) } else { non_ascii_numeric(c) }
}

/// `char::is_uppercase`. On ASCII it is exactly `A`-`Z` (std documents the
/// ASCII range as a subset of `Uppercase`, and no other ASCII character has
/// that property); beyond ASCII the result is named.
#[verifier::external_body]
fn char_is_uppercase(c: char) -> (b: bool)
    ensures
        b == unicode_uppercase(c),
        (c as u32) >= 128 ==> b == non_ascii_uppercase(c),
{
    c.is_uppercase()
}

/// `char::is_lowercase`. On ASCII it is exactly `a`-`z`; beyond ASCII the
/// result is named.
#[verifier::external_body]
fn char_is_lowercase(c: char) -> (b: bool)
    ensures
        b == unicode_lowercase_char(c),
        (c as u32) >= 128 ==> b == non_ascii_lowercase(c),
{
    c.is_lowercase()
}

/// `char::is_numeric`. On ASCII it is exactly `0`-`9`; beyond ASCII the
/// result is named.
#[verifier::external_body]
fn char_is_numeric(c: char) -> (b: bool)
    ensures
        b == unicode_numeric(c),
        (c as u32) >= 128 ==> b == non_ascii_numeric(c),
{
    c.is_numeric()
}

/// The minimum password length, in characters.
pub const MIN_PASSWORD_LEN: usize = 10;

/// What a password lacks: enough characters, or the required mix of an
/// uppercase letter, a lowercase letter and a digit. Both are reported.
#[derive(Debug, Clone, Copy, PartialEq, Eq, Structural)]
pub struct PasswordPolicyErrors {
    pub too_short: bool,
    pub lacks_complexity: bool,
}

pub open spec fn has_where(s: Seq<char>, p: spec_fn(char) -> bool) -> bool {
    exists|i: int| 0 <= i < s.len() && p(s[i])
}

/// An uppercase letter, a lowercase letter and a numeric character.
pub open spec fn complex_enough(s: Seq<char>) -> bool {
    has_where(s, |c: char| unicode_uppercase(c)) && has_where(s, |c: char| unicode_lowercase_char(c))
        && has_where(s, |c: char| unicode_numeric(c))
}

/// The policy's verdict on a password.
pub open spec fn policy_verdict(s: Seq<char>) -> Result<(), PasswordPolicyErrors> {
    if s.len() >= 10 && complex_enough(s) {
        Ok(())
    } else {
        Err(PasswordPolicyErrors { too_short: s.len() < 10, lacks_complexity: !complex_enough(s) })
    }
}

/// Whether a password has an uppercase letter, a lowercase letter and a
/// digit.
fn is_complex(password: &str) -> (b: bool)
    ensures
        b == complex_enough(password@),
{
    let v = chars_of(password);
    let mut up = false;
    let mut low = false;
    let mut digit = false;
    let mut i: usize = 0;
    while i < v.len()
        invariant
            i <= v@.len(),
            v@ == password@,
            up == has_where(v@.take(i as int), |c: char| unicode_uppercase(c)),
            low == has_where(v@.take(i as int), |c: char| unicode_lowercase_char(c)),
            digit == has_where(v@.take(i as int), |c: char| unicode_numeric(c)),
        decreases v.len() - i,
    {
        let c = v[i];
        let u = char_is_uppercase(c);
        let l = char_is_lowercase(c);
        let d = char_is_numeric(c);
        proof {
            let t = v@.take(i as int);
            let t1 = v@.take(i + 1);
            assert(t1[i as int] == c);
            assert forall|k: int| 0 <= k < t.len() implies t1[k] == t[k] by {}
            if has_where(t, |c: char| unicode_uppercase(c)) {
                let k = choose|k: int| 0 <= k < t.len() && unicode_uppercase(t[k]);
                assert(t1[k] == t[k]);
            }
            if has_where(t1, |c: char| unicode_uppercase(c)) && !u {
                let k = choose|k: int| 0 <= k < t1.len() && unicode_uppercase(t1[k]);
                assert(k < i);
                assert(t[k] == t1[k]);
            }
            if has_where(t, |c: char| unicode_lowercase_char(c)) {
                let k = choose|k: int| 0 <= k < t.len() && unicode_lowercase_char(t[k]);
                assert(t1[k] == t[k]);
            }
            if has_where(t1, |c: char| unicode_lowercase_char(c)) && !l {
                let k = choose|k: int| 0 <= k < t1.len() && unicode_lowercase_char(t1[k]);
                assert(k < i);
                assert(t[k] == t1[k]);
            }
            if has_where(t, |c: char| unicode_numeric(c)) {
                let k = choose|k: int| 0 <= k < t.len() && unicode_numeric(t[k]);
                assert(t1[k] == t[k]);
            }
            if has_where(t1, |c: char| unicode_numeric(c)) && !d {
                let k = choose|k: int| 0 <= k < t1.len() && unicode_numeric(t1[k]);
                assert(k < i);
                assert(t[k] == t1[k]);
            }
        }
        up = up || u;
        low = low || l;
        digit = digit || d;
        i = i + 1;
    }
    assert(v@.take(v@.len() as int) =~= v@);
    up && low && digit
}

/// Checks a password against the policy, reporting every rule it breaks.
pub fn check_password_policy(password: &str) -> (r: Result<(), PasswordPolicyErrors>)
    ensures
        r == policy_verdict(password@),
{
    let n = chars_of(password).len();
    let complex = is_complex(password);
    if n >= MIN_PASSWORD_LEN && complex {
        Ok(())
    } else {
        Err(PasswordPolicyErrors { too_short: n < MIN_PASSWORD_LEN, lacks_complexity: !complex })
    }
}

/// Why a password fails the complexity rule: a validation code and the
/// message shown to the user.
#[derive(Debug, Clone, Copy, PartialEq, Eq)]
pub struct PasswordComplexityError {
    pub code: &'static str,
    pub message: &'static str,
}

/// The complexity rule alone: a password needs an uppercase letter, a
/// lowercase letter and a digit; one that lacks any fails with the code
/// `password_complexity`.
pub fn validate_password_complexity(password: &str) -> (r: Result<(), PasswordComplexityError>)
    ensures
        r is Ok <==> complex_enough(password@),
        r matches Err(e) ==> e.code@ == "password_complexity"@
            && e.message@ == "Password must contain uppercase, lowercase, and number"@,
{
    if is_complex(password) {
        Ok(())
    } else {
        Err(PasswordComplexityError {
            code: "password_complexity",
            message: "Password must contain uppercase, lowercase, and number",
        })
    }
}

} // verus!
