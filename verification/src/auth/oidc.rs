//! The checks of the sign-in flow with an identity provider: which flow a
//! request asks for, and whether a callback matches the pending sign-in.
use vstd::prelude::*;

use crate::domains::{parse_url_text, url_parses, url_serialization};
use crate::text::str_equal;

verus! {

broadcast use vstd::string::group_string_axioms;

/// What a sign-in with an identity provider is for.
#[derive(Debug, Clone, Copy, PartialEq, Eq, Structural)]
pub enum OidcFlow {
    Login,
    Register,
    Link,
}

/// Why a sign-in could not start.
#[derive(Debug, Clone, PartialEq, Eq)]
pub enum OidcAuthorizeError {
    /// Registration on the dedicated demo site.
    DemoSiteRegistration,
    /// Registration is switched off on this server.
    RegistrationDisabled,
    /// Billing is on and the terms were not accepted.
    TermsNotAccepted,
    /// A flow other than login, register or link.
    InvalidFlow { flow: String },
    /// No flow given.
    MissingFlow,
}

/// The flow a sign-in request asks for, or why it is refused: registering
/// is refused on the demo site, when registration is off, and (with billing
/// on) without accepted terms.
pub open spec fn flow_verdict(flow: Option<Seq<char>>, demo_only_host: bool, registration_disabled: bool, billing_enabled: bool, terms_accepted: Option<bool>) -> Result<OidcFlow, OidcAuthorizeError> {
    match flow {
        None => Err(OidcAuthorizeError::MissingFlow),
        Some(f) => if f == "login"@ {
            Ok(OidcFlow::Login)
        } else if f == "register"@ {
            if demo_only_host {
                Err(OidcAuthorizeError::DemoSiteRegistration)
            } else if registration_disabled {
                Err(OidcAuthorizeError::RegistrationDisabled)
            } else if billing_enabled && !(terms_accepted == Some(true)) {
                Err(OidcAuthorizeError::TermsNotAccepted)
            } else {
                Ok(OidcFlow::Register)
            }
        } else if f == "link"@ {
            Ok(OidcFlow::Link)
        } else {
            Err(OidcAuthorizeError::InvalidFlow { flow: arbitrary() })
        },
    }
}

/// Chooses the flow of a sign-in request (see `flow_verdict`); an invalid
/// flow is named in the error.
pub fn choose_oidc_flow(flow: Option<&str>, demo_only_host: bool, registration_disabled: bool, billing_enabled: bool, terms_accepted: Option<bool>) -> (r: Result<OidcFlow, OidcAuthorizeError>)
    ensures
        match flow_verdict(match flow { Some(f) => Some(f@), None => None }, demo_only_host, registration_disabled, billing_enabled, terms_accepted) {
            Ok(x) => r == Ok::<OidcFlow, OidcAuthorizeError>(x),
            Err(OidcAuthorizeError::InvalidFlow { .. }) => r matches Err(OidcAuthorizeError::InvalidFlow { flow: g }) && g@ == flow->Some_0@,
            Err(e) => r == Err::<OidcFlow, OidcAuthorizeError>(e),
        },
{
    match flow {
        None => Err(OidcAuthorizeError::MissingFlow),
        Some(f) => if str_equal(f, "login") {
            Ok(OidcFlow::Login)
        } else if str_equal(f, "register") {
            if demo_only_host {
                Err(OidcAuthorizeError::DemoSiteRegistration)
            } else if registration_disabled {
                Err(OidcAuthorizeError::RegistrationDisabled)
            } else if billing_enabled && !(match terms_accepted { Some(t) => t, None => false }) {
                Err(OidcAuthorizeError::TermsNotAccepted)
            } else {
                Ok(OidcFlow::Register)
            }
        } else if str_equal(f, "link") {
            Ok(OidcFlow::Link)
        } else {
            let mut g = String::new();
            g.append(f);
            Err(OidcAuthorizeError::InvalidFlow { flow: g })
        },
    }
}

impl OidcAuthorizeError {
    /// What the caller is told.
    pub fn message(&self) -> (s: String)
        ensures
            s@ == (match *self {
                OidcAuthorizeError::DemoSiteRegistration => "Account creation is disabled on the demo site"@,
                OidcAuthorizeError::RegistrationDisabled => "Registration is disabled"@,
                OidcAuthorizeError::TermsNotAccepted => "Please accept terms and conditions to proceed"@,
                OidcAuthorizeError::InvalidFlow { flow } => "Invalid flow '"@ + flow@ + "'. Must be 'login', 'register', or 'link'"@,
                OidcAuthorizeError::MissingFlow => "flow parameter is required (login, register, or link)"@,
            }),
    {
        let mut s = String::new();
        match self {
            OidcAuthorizeError::DemoSiteRegistration => s.append("Account creation is disabled on the demo site"),
            OidcAuthorizeError::RegistrationDisabled => s.append("Registration is disabled"),
            OidcAuthorizeError::TermsNotAccepted => s.append("Please accept terms and conditions to proceed"),
            OidcAuthorizeError::InvalidFlow { flow } => {
                s.append("Invalid flow '");
                s.append(flow.as_str());
                s.append("'. Must be 'login', 'register', or 'link'");
            },
            OidcAuthorizeError::MissingFlow => s.append("flow parameter is required (login, register, or link)"),
        }
        s
    }
}

/// Why a callback from an identity provider was refused. A missing or
/// unparsable return url is reported on the error page; the others back at
/// the return url.
#[derive(Debug, Clone, Copy, PartialEq, Eq, Structural)]
pub enum OidcCallbackError {
    NoReturnUrl,
    NoPendingAuth,
    NoProviderSlug,
    ProviderMismatch,
    InvalidCsrfToken,
    InvalidReturnUrl,
}

impl OidcCallbackError {
    /// Whether the error is reported at the return url (else on the error
    /// page).
    pub fn at_return_url(&self) -> (b: bool)
        ensures
            b == !(*self == OidcCallbackError::NoReturnUrl || *self == OidcCallbackError::InvalidReturnUrl),
    {
        match self {
            OidcCallbackError::NoReturnUrl => false,
            OidcCallbackError::InvalidReturnUrl => false,
            _ => true,
        }
    }

    /// What the user is told.
    pub fn message(&self) -> (s: &'static str)
        ensures
            s == (match *self {
                OidcCallbackError::NoReturnUrl => "Session error: No return URL found",
                OidcCallbackError::NoPendingAuth => "No pending authentication found. Please try again.",
                OidcCallbackError::NoProviderSlug => "Session error: No provider slug found",
                OidcCallbackError::ProviderMismatch => "Provider mismatch in callback",
                OidcCallbackError::InvalidCsrfToken => "Invalid security token. Please try again.",
                OidcCallbackError::InvalidReturnUrl => "Invalid return URL",
            }),
    {
        match self {
            OidcCallbackError::NoReturnUrl => "Session error: No return URL found",
            OidcCallbackError::NoPendingAuth => "No pending authentication found. Please try again.",
            OidcCallbackError::NoProviderSlug => "Session error: No provider slug found",
            OidcCallbackError::ProviderMismatch => "Provider mismatch in callback",
            OidcCallbackError::InvalidCsrfToken => "Invalid security token. Please try again.",
            OidcCallbackError::InvalidReturnUrl => "Invalid return URL",
        }
    }
}

/// A text held in the session, by its characters.
pub open spec fn stored_text(o: Option<&str>) -> Option<Seq<char>> {
    match o {
        Some(t) => Some(t@),
        None => None,
    }
}

/// The first check that a callback fails, in the order they are made: the
/// return url, the pending sign-in and the provider must be in the session,
/// the provider must be the one called back for, the state must be the
/// pending CSRF token, and the return url must parse as a url.
pub open spec fn callback_failure(
    return_url: Option<Seq<char>>,
    pending_csrf_token: Option<Seq<char>>,
    session_slug: Option<Seq<char>>,
    slug: Seq<char>,
    state: Seq<char>,
) -> Option<OidcCallbackError> {
    if return_url is None {
        Some(OidcCallbackError::NoReturnUrl)
    } else if pending_csrf_token is None {
        Some(OidcCallbackError::NoPendingAuth)
    } else if session_slug is None {
        Some(OidcCallbackError::NoProviderSlug)
    } else if session_slug->Some_0 != slug {
        Some(OidcCallbackError::ProviderMismatch)
    } else if pending_csrf_token->Some_0 != state {
        Some(OidcCallbackError::InvalidCsrfToken)
    } else if !url_parses(return_url->Some_0) {
        Some(OidcCallbackError::InvalidReturnUrl)
    } else {
        None
    }
}

/// Checks a callback against the sign-in stored in the session (see
/// `callback_failure`). On success, gives the return url as parsed, which
/// the redirects that follow are built from.
pub fn check_oidc_callback(
    return_url: Option<&str>,
    pending_csrf_token: Option<&str>,
    session_slug: Option<&str>,
    slug: &str,
    state: &str,
) -> (r: Result<String, OidcCallbackError>)
    ensures
        match r {
            Ok(u) => callback_failure(stored_text(return_url), stored_text(pending_csrf_token), stored_text(session_slug), slug@, state@) is None
                && url_serialization(return_url->Some_0@) == Some(u@),
            Err(e) => callback_failure(stored_text(return_url), stored_text(pending_csrf_token), stored_text(session_slug), slug@, state@) == Some(e),
        },
{
    let url = match return_url {
        Some(u) => u,
        None => { return Err(OidcCallbackError::NoReturnUrl); },
    };
    let token = match pending_csrf_token {
        Some(t) => t,
        None => { return Err(OidcCallbackError::NoPendingAuth); },
    };
    let stored = match session_slug {
        Some(s) => s,
        None => { return Err(OidcCallbackError::NoProviderSlug); },
    };
    if !str_equal(stored, slug) {
        return Err(OidcCallbackError::ProviderMismatch);
    }
    if !str_equal(token, state) {
        return Err(OidcCallbackError::InvalidCsrfToken);
    }
    match parse_url_text(url) {
        Some(parsed) => Ok(parsed),
        None => Err(OidcCallbackError::InvalidReturnUrl),
    }
}

/// The text of a url once parsed, with a key and value appended to its
/// query (form-urlencoded), when the url parses.
pub uninterp spec fn url_with_pair(url: Seq<char>, key: Seq<char>, value: Seq<char>) -> Option<Seq<char>>;

/// `url::Url::parse`, then `query_pairs_mut().append_pair(key, value)`,
/// then `as_str`. The result is named; it is there exactly when the url
/// parses.
#[verifier::external_body]
fn append_query_pair(url: &str, key: &str, value: &str) -> (r: Option<String>)
    ensures
        match r {
            Some(t) => url_with_pair(url@, key@, value@) == Some(t@),
            None => url_with_pair(url@, key@, value@) is None,
        },
        r is Some <==> url_parses(url@),
{
    match url::Url::parse(url) {
        Ok(mut u) => {
            u.query_pairs_mut().append_pair(key, value);
            Some(u.as_str().to_string())
        },
        Err(_) => None,
    }
}

/// Where a link flow sends the user back: the return url with
/// `modal=settings` appended, so that the settings open, and then the
/// error, when there is one.
pub open spec fn link_redirect(return_url: Seq<char>, error: Option<Seq<char>>) -> Option<Seq<char>> {
    match url_with_pair(return_url, "modal"@, "settings"@) {
        Some(m) => match error {
            Some(e) => url_with_pair(m, "error"@, e),
            None => Some(m),
        },
        None => None,
    }
}

/// The redirect that ends a link flow (see `link_redirect`); `None` when the
/// url does not parse.
pub fn link_flow_redirect(return_url: &str, error: Option<&str>) -> (r: Option<String>)
    ensures
        match r {
            Some(t) => link_redirect(return_url@, stored_text(error)) == Some(t@),
            None => link_redirect(return_url@, stored_text(error)) is None,
        },
        error is None ==> (r is Some <==> url_parses(return_url@)),
{
    let m = match append_query_pair(return_url, "modal", "settings") {
        Some(m) => m,
        None => { return None; },
    };
    match error {
        Some(e) => append_query_pair(m.as_str(), "error", e),
        None => Some(m),
    }
}

} // verus!
