//! UniFi controller credentials: defaults, authentication and the banner
//! lines that describe them.
use vstd::prelude::*;

use crate::text::{decimal, push_decimal};

verus! {

broadcast use vstd::string::group_string_axioms;

/// Default controller port: 443, a UniFi OS console.
pub const DEFAULT_UNIFI_PORT: u16 = 443;

/// UniFi's default (internal) site name.
pub const DEFAULT_UNIFI_SITE: &'static str = "default";

pub fn default_unifi_port() -> (p: u16)
    ensures
        p == 443,
{
    DEFAULT_UNIFI_PORT
}

pub fn default_unifi_site() -> (s: String)
    ensures
        s@ == DEFAULT_UNIFI_SITE@,
{
    let mut s = String::new();
    s.append(DEFAULT_UNIFI_SITE);
    s
}

/// How a banner shows a value: as is, or as a secret's display (redacted,
/// or the path it is read from).
pub enum BannerFieldValue {
    Plain(String),
    Secret(String),
}

/// One labelled line of a credential banner.
pub struct BannerField {
    pub label: &'static str,
    pub value: BannerFieldValue,
}

/// A secret that the daemon resolves, carried with the value a banner shows
/// for it.
pub struct ResolvableSecret {
    pub banner: String,
}

/// How the daemon authenticates to the controller: an API key, or a local
/// admin's username and password.
pub enum UnifiAuth {
    ApiKey { api_key: ResolvableSecret },
    LocalAdmin { username: String, password: ResolvableSecret },
}

/// A UniFi controller credential: port, site and authentication.
pub struct UnifiQueryCredential {
    pub port: u16,
    pub site: String,
    pub auth: UnifiAuth,
}

/// A banner line by its plain parts: label, whether the value is a secret,
/// and the text shown.
pub open spec fn banner_view(f: BannerField) -> (&'static str, bool, Seq<char>) {
    match f.value {
        BannerFieldValue::Plain(s) => (f.label, false, s@),
        BannerFieldValue::Secret(s) => (f.label, true, s@),
    }
}

/// The banner of a UniFi credential: port and site, then the API key, or
/// the username and password.
pub open spec fn unifi_banner(c: UnifiQueryCredential) -> Seq<(&'static str, bool, Seq<char>)> {
    seq![("Port", false, decimal(c.port as nat)), ("Site", false, c.site@)] + match c.auth {
        UnifiAuth::ApiKey { api_key } => seq![("API key", true, api_key.banner@)],
        UnifiAuth::LocalAdmin { username, password } => seq![
            ("Username", false, username@),
            ("Password", true, password.banner@),
        ],
    }
}

fn copy_text(s: &String) -> (r: String)
    ensures
        r@ == s@,
{
    let mut r = String::new();
    r.append(s.as_str());
    r
}

impl UnifiQueryCredential {
    /// The labelled lines that describe this credential.
    pub fn banner_lines(&self) -> (v: Vec<BannerField>)
        ensures
            v@.map_values(|f: BannerField| banner_view(f)) == unifi_banner(*self),
    {
        let mut port = String::new();
        push_decimal(&mut port, self.port as u64);
        let mut lines: Vec<BannerField> = Vec::new();
        lines.push(BannerField { label: "Port", value: BannerFieldValue::Plain(port) });
        lines.push(BannerField { label: "Site", value: BannerFieldValue::Plain(copy_text(&self.site)) });
        match &self.auth {
            UnifiAuth::ApiKey { api_key } => {
                lines.push(BannerField { label: "API key", value: BannerFieldValue::Secret(copy_text(&api_key.banner)) });
            },
            UnifiAuth::LocalAdmin { username, password } => {
                lines.push(BannerField { label: "Username", value: BannerFieldValue::Plain(copy_text(username)) });
                lines.push(BannerField { label: "Password", value: BannerFieldValue::Secret(copy_text(&password.banner)) });
            },
        }
        assert(lines@.map_values(|f: BannerField| banner_view(f)) =~= unifi_banner(*self));
        lines
    }
}

} // verus!
