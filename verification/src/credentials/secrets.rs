//! Secret values: how they are shown (redacted unless exposure is on),
//! compared and normalized.
use vstd::prelude::*;

use crate::text::{is_ascii_alphanumeric, str_equal};

verus! {

broadcast use vstd::string::group_string_axioms;

/// Shown in place of a secret when secrets are not exposed.
pub const REDACTED_SECRET_SENTINEL: &'static str = "********";

/// While alive, secrets are exposed. Created by swapping the exposure flag
/// to on and remembering its previous value; finishing it puts that value
/// back, so guards nest.
pub struct ExposeSecretsGuard {
    prev: bool,
}

impl ExposeSecretsGuard {
    /// The flag this guard restores.
    pub closed spec fn restores(&self) -> bool {
        self.prev
    }

    /// Turns exposure on, remembering the previous state.
    pub fn new(exposing: &mut bool) -> (g: ExposeSecretsGuard)
        ensures
            *final(exposing),
            g.restores() == *old(exposing),
    {
        let prev = *exposing;
        *exposing = true;
        ExposeSecretsGuard { prev }
    }

    /// Puts the exposure flag back as it was before this guard.
    pub fn finish(self, exposing: &mut bool)
        ensures
            *final(exposing) == self.restores(),
    {
        *exposing = self.prev;
    }
}

/// Nested guards restore the original state once both are finished, inner
/// first.
pub proof fn lemma_guards_nest(start: bool, outer: ExposeSecretsGuard, after_outer: bool, inner: ExposeSecretsGuard, after_inner_finish: bool)
    requires
        outer.restores() == start,
        after_outer,
        inner.restores() == after_outer,
        after_inner_finish == inner.restores(),
    ensures
        after_inner_finish,
        outer.restores() == start,
{
}

/// What a secret is written as: its value while secrets are exposed,
/// otherwise the sentinel.
pub fn secret_output<'a>(exposing: bool, secret: &'a str) -> (r: &'a str)
    ensures
        r@ == (if exposing { secret@ } else { REDACTED_SECRET_SENTINEL@ }),
{
    if exposing { secret } else { REDACTED_SECRET_SENTINEL }
}

/// A secret, inline or as a path to a file on the daemon's host.
pub enum SecretValue {
    Inline { value: String },
    FilePath { path: String },
}

/// Inline secrets compare by value, file secrets by path.
pub open spec fn same_secret(a: SecretValue, b: SecretValue) -> bool {
    match (a, b) {
        (SecretValue::Inline { value: x }, SecretValue::Inline { value: y }) => x@ == y@,
        (SecretValue::FilePath { path: x }, SecretValue::FilePath { path: y }) => x@ == y@,
        _ => false,
    }
}

impl SecretValue {
    /// Whether this is an inline secret holding the sentinel (a redacted
    /// value sent back unchanged).
    pub fn is_redacted_sentinel(&self) -> (b: bool)
        ensures
            b == (match *self {
                SecretValue::Inline { value } => value@ == REDACTED_SECRET_SENTINEL@,
                SecretValue::FilePath { .. } => false,
            }),
    {
        match self {
            SecretValue::Inline { value } => str_equal(value.as_str(), REDACTED_SECRET_SENTINEL),
            SecretValue::FilePath { .. } => false,
        }
    }

    /// Whether two secrets are the same.
    pub fn same_as(&self, other: &SecretValue) -> (b: bool)
        ensures
            b == same_secret(*self, *other),
    {
        match (self, other) {
            (SecretValue::Inline { value: x }, SecretValue::Inline { value: y }) => str_equal(x.as_str(), y.as_str()),
            (SecretValue::FilePath { path: x }, SecretValue::FilePath { path: y }) => str_equal(x.as_str(), y.as_str()),
            _ => false,
        }
    }
}

/// A non-secret value, inline or as a path to a file on the daemon's host.
pub enum FileOrInline {
    Inline { value: String },
    FilePath { path: String },
}

/// Whether a text is empty once surrounding whitespace is trimmed: every
/// character of it is Unicode `White_Space`.
pub open spec fn blank_after_trim(s: Seq<char>) -> bool {
    forall|i: int| 0 <= i < s.len() ==> crate::text::unicode_white_space(#[trigger] s[i])
}

/// Whether every character is Unicode `White_Space` (what
/// `s.trim().is_empty()` tells); so an empty text is blank and one holding
/// an ASCII letter or digit is not.
fn is_blank(s: &str) -> (b: bool)
    ensures
        b == blank_after_trim(s@),
        s@.len() == 0 ==> b,
        (exists|i: int| 0 <= i < s@.len() && is_ascii_alphanumeric(#[trigger] s@[i])) ==> !b,
{
    let v = crate::text::chars_of(s);
    let mut i: usize = 0;
    while i < v.len()
        invariant
            i <= v@.len(),
            v@ == s@,
            forall|k: int| 0 <= k < i ==> crate::text::unicode_white_space(#[trigger] v@[k]),
        decreases v.len() - i,
    {
        if !crate::text::is_white_space(v[i]) {
            return false;
        }
        i = i + 1;
    }
    true
}

/// An optional value with a blank value or path read as absent.
pub fn normalize_file_or_inline(v: Option<FileOrInline>) -> (r: Option<FileOrInline>)
    ensures
        match v {
            Some(FileOrInline::Inline { value }) => if blank_after_trim(value@) { r is None } else { r == v },
            Some(FileOrInline::FilePath { path }) => if blank_after_trim(path@) { r is None } else { r == v },
            None => r is None,
        },
{
    match v {
        Some(x) => {
            let blank = match &x {
                FileOrInline::Inline { value } => is_blank(value.as_str()),
                FileOrInline::FilePath { path } => is_blank(path.as_str()),
            };
            if blank { None } else { Some(x) }
        },
        None => None,
    }
}

/// An optional secret with a blank value or path read as absent.
pub fn normalize_secret_value(v: Option<SecretValue>) -> (r: Option<SecretValue>)
    ensures
        match v {
            Some(SecretValue::Inline { value }) => if blank_after_trim(value@) { r is None } else { r == v },
            Some(SecretValue::FilePath { path }) => if blank_after_trim(path@) { r is None } else { r == v },
            None => r is None,
        },
{
    match v {
        Some(x) => {
            let blank = match &x {
                SecretValue::Inline { value } => is_blank(value.as_str()),
                SecretValue::FilePath { path } => is_blank(path.as_str()),
            };
            if blank { None } else { Some(x) }
        },
        None => None,
    }
}

} // verus!
