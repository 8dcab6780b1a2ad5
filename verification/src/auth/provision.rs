//! What a new account is provisioned into, and the error redirects of the
//! sign-in flows.
use vstd::prelude::*;

use crate::auth::requests::UseCase;
use crate::daemons::install::{percent_bytes, push_percent_utf8, utf8_bytes};
use crate::text::{chars_of, is_ascii_alphanumeric, push_char};

verus! {

broadcast use vstd::string::group_string_axioms;

/// A network set up before registration.
pub struct PendingNetworkSetup {
    pub name: String,
    pub network_id: u128,
}

/// The organization setup collected before registration.
pub struct PendingSetup {
    pub org_name: String,
    pub network: PendingNetworkSetup,
    pub use_case: UseCase,
}

/// The organization a registering user joins: a new one from the pending
/// setup, or the one an invite names.
pub enum ProvisionOrg {
    New(PendingSetup),
    Existing(u128),
}

impl ProvisionOrg {
    pub fn is_new(&self) -> (b: bool)
        ensures
            b == (*self is New),
    {
        match self {
            ProvisionOrg::New(_) => true,
            ProvisionOrg::Existing(_) => false,
        }
    }

    pub fn is_existing(&self) -> (b: bool)
        ensures
            b == (*self is Existing),
    {
        match self {
            ProvisionOrg::New(_) => false,
            ProvisionOrg::Existing(_) => true,
        }
    }
}

/// The organization a registration provisions: the invited organization
/// when there is an invite; else a new one from the pending setup, with the
/// use case picked during onboarding (when one was) in place of the one the
/// setup recorded; `None` when there is neither (the setup information is
/// missing).
pub fn choose_provision_org(invited_org: Option<u128>, pending: Option<PendingSetup>, onboarding_use_case: Option<UseCase>) -> (r: Option<ProvisionOrg>)
    ensures
        match invited_org {
            Some(id) => r == Some(ProvisionOrg::Existing(id)),
            None => match pending {
                Some(p) => r matches Some(ProvisionOrg::New(s)) && s.org_name == p.org_name
                    && s.network == p.network
                    && s.use_case == (match onboarding_use_case { Some(u) => u, None => p.use_case }),
                None => r is None,
            },
        },
{
    match invited_org {
        Some(id) => Some(ProvisionOrg::Existing(id)),
        None => match pending {
            Some(mut p) => {
                match onboarding_use_case {
                    Some(u) => { p.use_case = u; },
                    None => {},
                }
                Some(ProvisionOrg::New(p))
            },
            None => None,
        },
    }
}

/// The characters a url query value keeps as they are.
pub open spec fn url_unreserved(c: char) -> bool {
    is_ascii_alphanumeric(c) || c == '-' || c == '_' || c == '.' || c == '~'
}

/// A text percent-encoded for a url: letters, digits and `-_.~` are kept,
/// every other character is written as the `%XX` escapes (uppercase hex) of
/// its UTF-8 bytes. This is the encoding of `urlencoding::encode`.
pub open spec fn url_encoded(s: Seq<char>) -> Seq<char>
    decreases s.len(),
{
    if s.len() == 0 {
        Seq::empty()
    } else {
        url_encoded(s.drop_last()) + if url_unreserved(s.last()) {
            seq![s.last()]
        } else {
            percent_bytes(utf8_bytes(s.last()))
        }
    }
}

/// Percent-encodes a text for a url query (see `url_encoded`).
pub fn url_encode(s: &str) -> (r: String)
    ensures
        r@ == url_encoded(s@),
{
    let v = chars_of(s);
    let mut r = String::new();
    let mut i: usize = 0;
    while i < v.len()
        invariant
            i <= v@.len(),
            v@ == s@,
            r@ == url_encoded(v@.take(i as int)),
        decreases v.len() - i,
    {
        let c = v[i];
        assert(v@.take(i + 1).drop_last() =~= v@.take(i as int));
        assert(v@.take(i + 1).last() == c);
        if ('a' <= c && c <= 'z') || ('A' <= c && c <= 'Z') || ('0' <= c && c <= '9') || c == '-' || c == '_'
            || c == '.' || c == '~' {
            push_char(&mut r, c);
        } else {
            push_percent_utf8(&mut r, c);
        }
        i = i + 1;
    }
    assert(v@.take(v@.len() as int) =~= v@);
    r
}

/// The redirect back to a sign-in page that reports an error:
/// `<return url>?error=<message, encoded>`, then `&error_code=<code>` when
/// there is a code.
pub open spec fn error_redirect(return_url: Seq<char>, message: Seq<char>, code: Option<Seq<char>>) -> Seq<char> {
    return_url + "?error="@ + url_encoded(message) + match code {
        Some(c) => "&error_code="@ + c,
        None => Seq::empty(),
    }
}

/// Builds the error redirect of a sign-in flow (see `error_redirect`).
pub fn error_redirect_url(return_url: &str, message: &str, code: Option<&str>) -> (r: String)
    ensures
        r@ == error_redirect(return_url@, message@, match code { Some(c) => Some(c@), None => None }),
{
    let mut r = String::new();
    r.append(return_url);
    r.append("?error=");
    let enc = url_encode(message);
    r.append(enc.as_str());
    match code {
        Some(c) => {
            r.append("&error_code=");
            r.append(c);
        },
        None => {},
    }
    r
}

} // verus!
