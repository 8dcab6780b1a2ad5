//! Classification of email domains: freemail, institutional (and which
//! kind of institution), company, or (after a website probe) personal.
//!
//! The reference data (freemail and university lists, the institutional
//! datasets, the hand-kept overrides) is handed in as text and pairs; the
//! rules that merge and consult it are here.
use vstd::prelude::*;

use crate::daemons::install::url_port_or_known_default;
use crate::text::{
    ascii_lower, ascii_lower_char, ascii_upper, ascii_upper_char, is_ascii_text, trim_end_white_space, trim_start_white_space,
    unicode_white_space, before_first, chars_of, ends_with, has_char, is_ascii_alphanumeric, is_ascii_digit, push_chars, starts_with, string_from_chars};

verus! {

broadcast use vstd::string::group_string_axioms;

/// What kind of mailbox an email domain is.
#[derive(Debug, Clone, Copy, PartialEq, Eq, Structural)]
pub enum DomainClass {
    Freemail,
    /// A custom domain with mail but no website (a self-hoster's vanity
    /// domain); only assigned after the website probe.
    Personal,
    Company,
    Institutional,
}

impl DomainClass {
    pub fn as_str(&self) -> (s: &'static str)
        ensures
            s == (match *self {
                DomainClass::Freemail => "freemail",
                DomainClass::Personal => "personal",
                DomainClass::Company => "company",
                DomainClass::Institutional => "institutional",
            }),
    {
        match self {
            DomainClass::Freemail => "freemail",
            DomainClass::Personal => "personal",
            DomainClass::Company => "company",
            DomainClass::Institutional => "institutional",
        }
    }
}

/// The kind of an institutional domain.
#[derive(Debug, Clone, Copy, PartialEq, Eq, Structural)]
pub enum InstitutionType {
    Government,
    Education,
    Healthcare,
    Utility,
}

impl InstitutionType {
    pub fn as_str(&self) -> (s: &'static str)
        ensures
            s == (match *self {
                InstitutionType::Government => "government",
                InstitutionType::Education => "education",
                InstitutionType::Healthcare => "healthcare",
                InstitutionType::Utility => "utility",
            }),
    {
        match self {
            InstitutionType::Government => "government",
            InstitutionType::Education => "education",
            InstitutionType::Healthcare => "healthcare",
            InstitutionType::Utility => "utility",
        }
    }
}

// ---------------------------------------------------------------------------
// Website probe
// ---------------------------------------------------------------------------

/// What probing one url of a domain gave.
#[derive(Debug, Clone, Copy, PartialEq, Eq, Structural)]
pub enum ProbeOutcome {
    /// Something answered HTTP, whatever the status.
    Responded,
    /// Resolution or connection failed: nothing is hosted there.
    ConnectFailure,
    /// A timeout or other error: proves nothing.
    Inconclusive,
}

/// Whether the probes show a website: only a connection failure on every
/// probed url counts as "no website".
pub fn has_website_from_outcomes(outcomes: &Vec<ProbeOutcome>) -> (b: bool)
    ensures
        b == exists|i: int| 0 <= i < outcomes@.len() && #[trigger] outcomes@[i] != ProbeOutcome::ConnectFailure,
{
    let mut i: usize = 0;
    while i < outcomes.len()
        invariant
            i <= outcomes@.len(),
            forall|j: int| 0 <= j < i ==> #[trigger] outcomes@[j] == ProbeOutcome::ConnectFailure,
        decreases outcomes.len() - i,
    {
        if outcomes[i] != ProbeOutcome::ConnectFailure {
            assert(outcomes@[i as int] != ProbeOutcome::ConnectFailure);
            return true;
        }
        i = i + 1;
    }
    false
}

/// Whether a domain of this class is probed for a website: only company
/// domains are, since only they can turn out personal.
pub fn needs_website_probe(class: DomainClass) -> (b: bool)
    ensures
        b == (class == DomainClass::Company),
{
    class == DomainClass::Company
}

/// After the probe: a company domain that serves no website is personal;
/// every other class stands.
pub fn apply_website_probe(class: (DomainClass, Option<InstitutionType>), has_website: bool) -> (r: (DomainClass, Option<InstitutionType>))
    ensures
        r == (if class.0 == DomainClass::Company && !has_website { (DomainClass::Personal, None) } else { class }),
{
    if class.0 == DomainClass::Company && !has_website {
        (DomainClass::Personal, None)
    } else {
        class
    }
}

// ---------------------------------------------------------------------------
// Text helpers
// ---------------------------------------------------------------------------

/// `s` without leading or trailing characters from `set`.
pub open spec fn trim_in(s: Seq<char>, set: Seq<char>) -> Seq<char>
    decreases s.len(),
{
    if s.len() > 0 && has_char(set, s[0]) {
        trim_in(s.drop_first(), set)
    } else if s.len() > 0 && has_char(set, s.last()) {
        trim_in(s.drop_last(), set)
    } else {
        s
    }
}

/// `s` without trailing characters from `set`.
pub open spec fn trim_end_in(s: Seq<char>, set: Seq<char>) -> Seq<char>
    decreases s.len(),
{
    if s.len() > 0 && has_char(set, s.last()) {
        trim_end_in(s.drop_last(), set)
    } else {
        s
    }
}

/// Whether `p` occurs in `s`.
pub open spec fn contains_seq(s: Seq<char>, p: Seq<char>) -> bool {
    exists|i: int| 0 <= i && i + p.len() <= s.len() && #[trigger] s.subrange(i, i + p.len()) == p
}

/// The part of `s` before its first character from `set`.
pub open spec fn before_any(s: Seq<char>, set: Seq<char>) -> Seq<char>
    decreases s.len(),
{
    if s.len() == 0 {
        s
    } else if has_char(set, s[0]) {
        Seq::empty()
    } else {
        seq![s[0]] + before_any(s.drop_first(), set)
    }
}

fn in_set(set: &Vec<char>, c: char) -> (b: bool)
    ensures
        b == has_char(set@, c),
{
    crate::text::contains_char(set, c)
}

/// `v` without leading or trailing characters from `set`.
pub fn trim_chars(v: &Vec<char>, set: &Vec<char>) -> (r: Vec<char>)
    ensures
        r@ == trim_in(v@, set@),
{
    let mut lo: usize = 0;
    let mut hi: usize = v.len();
    assert(v@.subrange(0, v@.len() as int) =~= v@);
    while lo < hi && (in_set(set, v[lo]) || in_set(set, v[hi - 1]))
        invariant
            lo <= hi <= v@.len(),
            trim_in(v@, set@) == trim_in(v@.subrange(lo as int, hi as int), set@),
        decreases hi - lo,
    {
        let ghost s = v@.subrange(lo as int, hi as int);
        if in_set(set, v[lo]) {
            assert(s[0] == v@[lo as int]);
            assert(s.drop_first() =~= v@.subrange(lo + 1, hi as int));
            lo = lo + 1;
        } else {
            assert(s[0] == v@[lo as int]);
            assert(s.last() == v@[hi - 1]);
            assert(s.drop_last() =~= v@.subrange(lo as int, hi - 1));
            hi = hi - 1;
        }
    }
    let ghost s = v@.subrange(lo as int, hi as int);
    if lo < hi {
        assert(s[0] == v@[lo as int]);
        assert(s.last() == v@[hi - 1]);
    }
    assert(v@.subrange(0, v@.len() as int) =~= v@);
    let mut r: Vec<char> = Vec::new();
    let mut i: usize = lo;
    while i < hi
        invariant
            lo <= i <= hi <= v@.len(),
            r@ == v@.subrange(lo as int, i as int),
        decreases hi - i,
    {
        r.push(v[i]);
        assert(v@.subrange(lo as int, i + 1) =~= v@.subrange(lo as int, i as int).push(v@[i as int]));
        i = i + 1;
    }
    r
}

/// `v` without trailing characters from `set`.
pub fn trim_end_chars(v: &Vec<char>, set: &Vec<char>) -> (r: Vec<char>)
    ensures
        r@ == trim_end_in(v@, set@),
{
    let mut hi: usize = v.len();
    assert(v@.take(hi as int) =~= v@);
    while hi > 0 && in_set(set, v[hi - 1])
        invariant
            hi <= v@.len(),
            trim_end_in(v@, set@) == trim_end_in(v@.take(hi as int), set@),
        decreases hi,
    {
        assert(v@.take(hi as int).drop_last() =~= v@.take(hi - 1));
        hi = hi - 1;
    }
    let mut r: Vec<char> = Vec::new();
    let mut i: usize = 0;
    while i < hi
        invariant
            i <= hi <= v@.len(),
            r@ == v@.take(i as int),
        decreases hi - i,
    {
        r.push(v[i]);
        assert(v@.take(i + 1) =~= v@.take(i as int).push(v@[i as int]));
        i = i + 1;
    }
    r
}

/// Whether `p` occurs in `v`.
pub fn contains_chars(v: &Vec<char>, p: &Vec<char>) -> (b: bool)
    ensures
        b == contains_seq(v@, p@),
{
    if p.len() > v.len() {
        assert forall|i: int| 0 <= i && i + p@.len() <= v@.len() implies #[trigger] v@.subrange(i, i + p@.len()) != p@ by {}
        return false;
    }
    let mut i: usize = 0;
    let last: usize = v.len() - p.len();
    while i <= last
        invariant
            p@.len() <= v@.len(),
            last == v@.len() - p@.len(),
            i <= last + 1,
            forall|k: int| 0 <= k < i ==> #[trigger] v@.subrange(k, k + p@.len()) != p@,
        decreases v.len() - i,
    {
        let mut j: usize = 0;
        let mut same = true;
        while j < p.len()
            invariant
                i + p@.len() <= v@.len(),
                i + p.len() <= v.len(),
                j <= p@.len(),
                same == (forall|m: int| 0 <= m < j ==> v@[i + m] == p@[m]),
            decreases p.len() - j,
        {
            if v[i + j] != p[j] {
                same = false;
            }
            j = j + 1;
        }
        if same {
            assert(v@.subrange(i as int, i + p@.len()) =~= p@);
            return true;
        } else {
            proof {
                let m = choose|m: int| 0 <= m < j && v@[i + m] != p@[m];
                assert(v@.subrange(i as int, i + p@.len())[m] != p@[m]);
            }
        }
        i = i + 1;
    }
    false
}

/// The part of `v` before its first character from `set`.
pub fn prefix_before_any(v: &Vec<char>, set: &Vec<char>) -> (r: Vec<char>)
    ensures
        r@ == before_any(v@, set@),
{
    let mut i: usize = 0;
    while i < v.len() && !in_set(set, v[i])
        invariant
            i <= v@.len(),
            forall|j: int| 0 <= j < i ==> !has_char(set@, #[trigger] v@[j]),
        decreases v.len() - i,
    {
        i = i + 1;
    }
    let mut r: Vec<char> = Vec::new();
    let mut k: usize = 0;
    while k < i
        invariant
            k <= i <= v@.len(),
            r@ == v@.take(k as int),
        decreases i - k,
    {
        r.push(v[k]);
        assert(v@.take(k + 1) =~= v@.take(k as int).push(v@[k as int]));
        k = k + 1;
    }
    proof {
        lemma_before_any(v@, set@, i as int);
    }
    r
}

proof fn lemma_before_any(s: Seq<char>, set: Seq<char>, i: int)
    requires
        0 <= i <= s.len(),
        forall|j: int| 0 <= j < i ==> !has_char(set, #[trigger] s[j]),
        i == s.len() || has_char(set, s[i]),
    ensures
        before_any(s, set) == s.take(i),
    decreases s.len(),
{
    if s.len() == 0 {
        assert(s.take(i) =~= s);
    } else if has_char(set, s[0]) {
        assert(i == 0);
        assert(s.take(0) =~= Seq::<char>::empty());
    } else {
        assert forall|j: int| 0 <= j < i - 1 implies !has_char(set, #[trigger] s.drop_first()[j]) by {
            assert(s.drop_first()[j] == s[j + 1]);
        }
        if i < s.len() {
            assert(s.drop_first()[i - 1] == s[i]);
        }
        lemma_before_any(s.drop_first(), set, i - 1);
        assert(s.take(i) =~= seq![s[0]] + s.drop_first().take(i - 1));
    }
}

// ---------------------------------------------------------------------------
// Outside text operations
// ---------------------------------------------------------------------------

/// `str::trim`: the text without leading or trailing Unicode white space.
pub open spec fn unicode_trim(s: Seq<char>) -> Seq<char> {
    crate::text::trim_end_white_space(crate::text::trim_start_white_space(s))
}

/// Drops leading and trailing Unicode `White_Space`, as `str::trim` does.
fn trim_whitespace(s: &str) -> (r: String)
    ensures
        r@ == unicode_trim(s@),
{
    crate::text::trim_white_space(s)
}

/// The Unicode lowercase of a text that holds a non-ASCII character.
pub uninterp spec fn lowercase_beyond_ascii(s: Seq<char>) -> Seq<char>;

/// `str::to_lowercase`: the Unicode lowercase of a text. On ASCII text it
/// lowercases the letters `A`-`Z` and keeps every other character; beyond
/// ASCII it is named.
pub open spec fn unicode_lowercase(s: Seq<char>) -> Seq<char> {
    if is_ascii_text(s) { ascii_lower(s) } else { lowercase_beyond_ascii(s) }
}

/// `str::to_lowercase`. The result is named.
#[verifier::external_body]
fn lowercase(s: &str) -> (r: String)
    ensures
        r@ == unicode_lowercase(s@),
        !is_ascii_text(s@) ==> r@ == lowercase_beyond_ascii(s@),
{
    s.to_lowercase()
}

/// The host of a text parsed as a url, when it parses and has one.
pub uninterp spec fn url_host(s: Seq<char>) -> Option<Seq<char>>;

/// `url::Url::parse` then `host_str`. The result is named.
#[verifier::external_body]
pub(crate) fn parse_url_host(s: &str) -> (r: Option<String>)
    ensures
        match r {
            Some(h) => url_host(s@) == Some(h@),
            None => url_host(s@) is None,
        },
{
    match url::Url::parse(s) {
        Ok(u) => match u.host_str() {
            Some(h) => Some(h.to_string()),
            None => None,
        },
        Err(_) => None,
    }
}

/// The text of a url as parsed and written back out, when the text parses
/// as an absolute url.
pub uninterp spec fn url_serialization(s: Seq<char>) -> Option<Seq<char>>;

/// Whether a text parses as an absolute url.
pub open spec fn url_parses(s: Seq<char>) -> bool {
    url_serialization(s) is Some
}

/// `url::Url::parse` then `as_str`. The result is named; a text that does
/// not parse has neither a host nor a port.
#[verifier::external_body]
pub(crate) fn parse_url_text(s: &str) -> (r: Option<String>)
    ensures
        match r {
            Some(t) => url_serialization(s@) == Some(t@),
            None => url_serialization(s@) is None,
        },
        r is None ==> url_host(s@) is None,
        r is None ==> url_port_or_known_default(s@) is None,
{
    match url::Url::parse(s) {
        Ok(u) => Some(u.as_str().to_string()),
        Err(_) => None,
    }
}

/// The scheme of a text parsed as a url, when it parses.
pub uninterp spec fn url_scheme(s: Seq<char>) -> Option<Seq<char>>;

/// `url::Url::parse` then `scheme`. The result is named; every url that
/// parses has a scheme.
#[verifier::external_body]
pub(crate) fn parse_url_scheme(s: &str) -> (r: Option<String>)
    ensures
        match r {
            Some(t) => url_scheme(s@) == Some(t@),
            None => url_scheme(s@) is None,
        },
        r is None <==> !url_parses(s@),
{
    match url::Url::parse(s) {
        Ok(u) => Some(u.scheme().to_string()),
        Err(_) => None,
    }
}

/// The ASCII (punycode) form of a domain, when it has one.
pub uninterp spec fn idna_ascii(s: Seq<char>) -> Option<Seq<char>>;

/// `idna::domain_to_ascii`. The result is named.
#[verifier::external_body]
fn domain_to_ascii(s: &str) -> (r: Option<String>)
    ensures
        match r {
            Some(a) => idna_ascii(s@) == Some(a@),
            None => idna_ascii(s@) is None,
        },
{
    match idna::domain_to_ascii(s) {
        Ok(a) => Some(a),
        Err(_) => None,
    }
}

/// The registrable domain (public suffix plus one label), when the public
/// suffix list recognizes the name.
pub uninterp spec fn psl_domain(s: Seq<char>) -> Option<Seq<char>>;

/// `psl::domain_str`. The result is named.
#[verifier::external_body]
fn registrable_domain(s: &str) -> (r: Option<String>)
    ensures
        match r {
            Some(d) => psl_domain(s@) == Some(d@),
            None => psl_domain(s@) is None,
        },
{
    match psl::domain_str(s) {
        Some(d) => Some(d.to_string()),
        None => None,
    }
}

/// The public suffix of a name, when the public suffix list recognizes it.
pub uninterp spec fn psl_suffix(s: Seq<char>) -> Option<Seq<char>>;

/// `psl::suffix_str`. The result is named.
#[verifier::external_body]
fn public_suffix(s: &str) -> (r: Option<String>)
    ensures
        match r {
            Some(d) => psl_suffix(s@) == Some(d@),
            None => psl_suffix(s@) is None,
        },
{
    match psl::suffix_str(s) {
        Some(d) => Some(d.to_string()),
        None => None,
    }
}

/// Whether an address passes mailchecker's own checks: its syntax check,
/// and no domain suffix of it on the crate's built-in disposable list.
/// A function of the address alone.
pub uninterp spec fn mailchecker_static_ok(address: Seq<char>) -> bool;

/// `mailchecker::is_valid`: whether an address is well formed and not at a
/// disposable-mail domain. Besides the address, it reads the process-wide
/// set of custom disposable domains, which any code may extend at run time
/// (`add_custom_domains`) and which can only turn more answers false; so
/// only this is stated: an accepted address passes the syntax check and
/// the built-in list.
#[verifier::external_body]
fn mailchecker_is_valid(address: &str) -> (b: bool)
    ensures
        b ==> mailchecker_static_ok(address@),
{
    mailchecker::is_valid(address)
}

// ---------------------------------------------------------------------------
// Hosts
// ---------------------------------------------------------------------------

pub open spec fn all_digits_or_dots(s: Seq<char>) -> bool {
    forall|i: int| 0 <= i < s.len() ==> is_ascii_digit(#[trigger] s[i]) || s[i] == '.'
}

pub open spec fn all_host_chars(s: Seq<char>) -> bool {
    forall|i: int| 0 <= i < s.len() ==> is_ascii_alphanumeric(#[trigger] s[i]) || s[i] == '.' || s[i] == '-'
}

pub open spec fn all_ascii(s: Seq<char>) -> bool {
    forall|i: int| 0 <= i < s.len() ==> (#[trigger] s[i] as u32) < 128
}

/// The host of a url or bare host, cleaned to the form in which it is
/// compared: trimmed and unquoted, lowercase, the host of a `scheme://`
/// url or the text before the first `/`, `?`, `#` or `:`, without outer
/// dots or a leading `www.`, in ASCII (punycode). `None` for what cannot be
/// an organization's mail domain: empty text, text with a space, a dotless
/// name, an IPv4-like name, or a host with characters other than ASCII
/// letters, digits, `.` and `-`.
pub open spec fn normalized_host(raw: Seq<char>) -> Option<Seq<char>> {
    let r = unicode_lowercase(unicode_trim(trim_in(unicode_trim(raw), seq!['"'])));
    if r.len() == 0 || has_char(r, ' ') {
        None
    } else {
        let host = if contains_seq(r, seq![':', '/', '/']) {
            url_host(r)
        } else {
            Some(before_any(r, seq!['/', '?', '#', ':']))
        };
        match host {
            None => None,
            Some(h0) => {
                let h1 = trim_in(h0, seq!['.']);
                let h = if starts_with(h1, seq!['w', 'w', 'w', '.']) { h1.skip(4) } else { h1 };
                if !has_char(h, '.') || all_digits_or_dots(h) {
                    None
                } else {
                    let ascii = if all_ascii(h) { Some(h) } else { idna_ascii(h) };
                    match ascii {
                        None => None,
                        Some(a) => if all_host_chars(a) { Some(a) } else { None },
                    }
                }
            },
        }
    }
}

fn all_chars_ok(v: &Vec<char>, mode: u8) -> (b: bool)
    ensures
        mode == 0 ==> b == all_digits_or_dots(v@),
        mode == 1 ==> b == all_host_chars(v@),
        mode == 2 ==> b == all_ascii(v@),
{
    let mut i: usize = 0;
    while i < v.len()
        invariant
            i <= v@.len(),
            mode == 0 ==> forall|j: int| 0 <= j < i ==> is_ascii_digit(#[trigger] v@[j]) || v@[j] == '.',
            mode == 1 ==> forall|j: int| 0 <= j < i ==> is_ascii_alphanumeric(#[trigger] v@[j]) || v@[j] == '.' || v@[j] == '-',
            mode == 2 ==> forall|j: int| 0 <= j < i ==> (#[trigger] v@[j] as u32) < 128,
        decreases v.len() - i,
    {
        let c = v[i];
        let ok = if mode == 0 {
            ('0' <= c && c <= '9') || c == '.'
        } else if mode == 1 {
            ('a' <= c && c <= 'z') || ('A' <= c && c <= 'Z') || ('0' <= c && c <= '9') || c == '.' || c == '-'
        } else {
            (c as u32) < 128
        };
        if !ok {
            return false;
        }
        i = i + 1;
    }
    true
}

/// Cleans a url or bare host to the host it names (see `normalized_host`).
pub fn normalize_host(raw: &str) -> (r: Option<String>)
    ensures
        match r {
            Some(h) => normalized_host(raw@) == Some(h@),
            None => normalized_host(raw@) is None,
        },
{
    let t1 = trim_whitespace(raw);
    let quote = vec!['"'];
    assert(quote@ =~= seq!['"']);
    let t2 = trim_chars(&chars_of(t1.as_str()), &quote);
    let t3 = trim_whitespace(string_from_chars(&t2).as_str());
    let lower = lowercase(t3.as_str());
    let r = chars_of(lower.as_str());
    if r.len() == 0 || crate::text::contains_char(&r, ' ') {
        return None;
    }
    let scheme = vec![':', '/', '/'];
    assert(scheme@ =~= seq![':', '/', '/']);
    let host: Option<Vec<char>> = if contains_chars(&r, &scheme) {
        match parse_url_host(lower.as_str()) {
            Some(h) => Some(chars_of(h.as_str())),
            None => None,
        }
    } else {
        let stops = vec!['/', '?', '#', ':'];
        assert(stops@ =~= seq!['/', '?', '#', ':']);
        Some(prefix_before_any(&r, &stops))
    };
    let h0 = match host {
        Some(h) => h,
        None => { return None; },
    };
    let dots = vec!['.'];
    assert(dots@ =~= seq!['.']);
    let h1 = trim_chars(&h0, &dots);
    let www = vec!['w', 'w', 'w', '.'];
    assert(www@ =~= seq!['w', 'w', 'w', '.']);
    let h: Vec<char> = if crate::text::has_prefix(&h1, &www) {
        let mut t: Vec<char> = Vec::new();
        let mut i: usize = 4;
        while i < h1.len()
            invariant
                4 <= i <= h1@.len(),
                t@ == h1@.subrange(4, i as int),
            decreases h1.len() - i,
        {
            t.push(h1[i]);
            assert(h1@.subrange(4, i + 1) =~= h1@.subrange(4, i as int).push(h1@[i as int]));
            i = i + 1;
        }
        assert(t@ =~= h1@.skip(4));
        t
    } else {
        h1
    };
    if !crate::text::contains_char(&h, '.') || all_chars_ok(&h, 0) {
        return None;
    }
    let ascii: Vec<char> = if all_chars_ok(&h, 2) {
        h
    } else {
        match domain_to_ascii(string_from_chars(&h).as_str()) {
            Some(a) => chars_of(a.as_str()),
            None => { return None; },
        }
    };
    if !all_chars_ok(&ascii, 1) {
        return None;
    }
    Some(string_from_chars(&ascii))
}

/// Hosting platforms, social networks, blog services and directory sites
/// that institutions give as their website: a mail domain at one of them
/// says nothing of the sender's organization.
pub open spec fn deny_suffixes() -> Seq<&'static str> {
    seq![
        "facebook.com", "wixsite.com", "wix.com", "wordpress.com", "blogspot.com", "blogspot.fr",
        "blogspot.de", "blogspot.co.uk", "google.com", "sites.google.com", "weebly.com", "jimdo.com",
        "jimdofree.com", "jimdosite.com", "business.site", "notion.site", "github.io", "gitlab.io",
        "over-blog.com", "over-blog.fr", "canalblog.com", "e-monsite.com", "pagesperso-orange.fr",
        "monsite-orange.fr", "wifeo.com", "instagram.com", "twitter.com", "x.com", "youtube.com",
        "linktr.ee", "archive.org", "tripod.com", "angelfire.com", "webs.com", "yolasite.com",
        "webnode.com", "webnode.fr", "webself.net", "site123.me", "godaddysites.com", "squarespace.com",
        "carrd.co", "netlify.app", "vercel.app", "herokuapp.com", "sharepoint.com", "wordpress.org",
        "tumblr.com", "medium.com", "ghidulprimariilor.ro", "inforpressca.com", "lapagelocale.fr",
        "e-primarii.ro",
    ]
}

fn deny_list() -> (v: Vec<&'static str>)
    ensures
        v@ == deny_suffixes(),
{
    let v = vec![
        "facebook.com", "wixsite.com", "wix.com", "wordpress.com", "blogspot.com", "blogspot.fr",
        "blogspot.de", "blogspot.co.uk", "google.com", "sites.google.com", "weebly.com", "jimdo.com",
        "jimdofree.com", "jimdosite.com", "business.site", "notion.site", "github.io", "gitlab.io",
        "over-blog.com", "over-blog.fr", "canalblog.com", "e-monsite.com", "pagesperso-orange.fr",
        "monsite-orange.fr", "wifeo.com", "instagram.com", "twitter.com", "x.com", "youtube.com",
        "linktr.ee", "archive.org", "tripod.com", "angelfire.com", "webs.com", "yolasite.com",
        "webnode.com", "webnode.fr", "webself.net", "site123.me", "godaddysites.com", "squarespace.com",
        "carrd.co", "netlify.app", "vercel.app", "herokuapp.com", "sharepoint.com", "wordpress.org",
        "tumblr.com", "medium.com", "ghidulprimariilor.ro", "inforpressca.com", "lapagelocale.fr",
        "e-primarii.ro",
    ];
    assert(v@ =~= deny_suffixes());
    v
}

/// A host at or under one of the denied suffixes.
pub open spec fn is_denied(host: Seq<char>) -> bool {
    exists|i: int| 0 <= i < deny_suffixes().len() && (host == (#[trigger] deny_suffixes()[i])@
        || ends_with(host, seq!['.'] + deny_suffixes()[i]@))
}

/// Whether a host is at or under a denied platform suffix.
pub fn denied(host: &str) -> (b: bool)
    ensures
        b == is_denied(host@),
{
    let list = deny_list();
    let h = chars_of(host);
    let mut i: usize = 0;
    while i < list.len()
        invariant
            i <= list@.len(),
            list@ == deny_suffixes(),
            h@ == host@,
            forall|j: int| 0 <= j < i ==> !(host@ == (#[trigger] deny_suffixes()[j])@
                || ends_with(host@, seq!['.'] + deny_suffixes()[j]@)),
        decreases list.len() - i,
    {
        let d = chars_of(list[i]);
        let mut dotted: Vec<char> = Vec::new();
        dotted.push('.');
        let mut k: usize = 0;
        while k < d.len()
            invariant
                k <= d@.len(),
                dotted@ == seq!['.'] + d@.take(k as int),
            decreases d.len() - k,
        {
            dotted.push(d[k]);
            assert(seq!['.'] + d@.take(k + 1) =~= (seq!['.'] + d@.take(k as int)).push(d@[k as int]));
            k = k + 1;
        }
        assert(d@.take(d@.len() as int) =~= d@);
        if crate::text::chars_equal(&h, &d) || crate::text::has_suffix(&h, &dotted) {
            assert(host@ == (deny_suffixes()[i as int])@ || ends_with(host@, seq!['.'] + deny_suffixes()[i as int]@));
            return true;
        }
        i = i + 1;
    }
    false
}

// ---------------------------------------------------------------------------
// Raw data lines
// ---------------------------------------------------------------------------

/// Characters trimmed from both ends of a raw data line.
pub open spec fn line_junk() -> Seq<char> {
    seq!['\u{feff}', '\r', ' ', '\t']
}

/// A finished line: trimmed of junk, kept when something is left.
pub open spec fn emit_line(cur: Seq<char>) -> Seq<Seq<char>> {
    let t = trim_in(cur, line_junk());
    if t.len() > 0 { seq![t] } else { Seq::empty() }
}

/// The remaining data lines of `s`, the current line having begun with
/// `cur`.
pub open spec fn lines_from(s: Seq<char>, cur: Seq<char>) -> Seq<Seq<char>>
    decreases s.len(),
{
    if s.len() == 0 {
        emit_line(cur)
    } else if s[0] == '\n' {
        emit_line(cur) + lines_from(s.drop_first(), Seq::empty())
    } else {
        lines_from(s.drop_first(), cur.push(s[0]))
    }
}

/// The non-empty lines of a raw data file, each trimmed of byte-order
/// marks, carriage returns (so `\r\n` endings are read as `\n`), spaces and
/// tabs.
pub open spec fn data_lines(s: Seq<char>) -> Seq<Seq<char>> {
    lines_from(s, Seq::empty())
}

/// The lines of a raw data file (see `data_lines`).
pub fn raw_lines(raw: &str) -> (v: Vec<String>)
    ensures
        v@.map_values(|s: String| s@) == data_lines(raw@),
{
    let all = chars_of(raw);
    let junk = vec!['\u{feff}', '\r', ' ', '\t'];
    assert(junk@ =~= line_junk());
    let mut out: Vec<String> = Vec::new();
    let mut cur: Vec<char> = Vec::new();
    let mut i: usize = 0;
    assert(all@.skip(0) =~= all@);
    assert(out@.map_values(|s: String| s@) + lines_from(all@.skip(0), cur@) =~= data_lines(raw@));
    while i < all.len()
        invariant
            i <= all@.len(),
            all@ == raw@,
            junk@ == line_junk(),
            out@.map_values(|s: String| s@) + lines_from(all@.skip(i as int), cur@) == data_lines(raw@),
        decreases all.len() - i,
    {
        let c = all[i];
        let ghost before = out@.map_values(|s: String| s@);
        let ghost rest = all@.skip(i as int);
        assert(rest[0] == c);
        assert(rest.drop_first() =~= all@.skip(i + 1));
        if c == '\n' {
            let t = trim_chars(&cur, &junk);
            if t.len() > 0 {
                out.push(string_from_chars(&t));
                assert(out@.map_values(|s: String| s@) =~= before.push(t@));
            }
            assert(out@.map_values(|s: String| s@) =~= before + emit_line(cur@));
            cur = Vec::new();
            assert(before + emit_line(rest.take(0) + Seq::empty()) == before + emit_line(Seq::empty())) by {
                assert(rest.take(0) + Seq::<char>::empty() =~= Seq::<char>::empty());
            }
        } else {
            cur.push(c);
        }
        i = i + 1;
    }
    let t = trim_chars(&cur, &junk);
    let ghost before = out@.map_values(|s: String| s@);
    assert(all@.skip(i as int) =~= Seq::<char>::empty());
    if t.len() > 0 {
        out.push(string_from_chars(&t));
        assert(out@.map_values(|s: String| s@) =~= before.push(t@));
    }
    assert(out@.map_values(|s: String| s@) =~= before + emit_line(cur@));
    out
}


// ---------------------------------------------------------------------------
// Reference data
// ---------------------------------------------------------------------------

/// Mailbox and ISP providers seen in real signups, kept independently of
/// the vendored freemail list.
pub open spec fn curated_freemail_spec() -> Seq<&'static str> {
    seq![
        "gmail.com", "googlemail.com", "yahoo.com", "yahoo.co.uk", "yahoo.co.jp", "yahoo.fr",
        "yahoo.de", "hotmail.com", "outlook.com", "live.com", "msn.com", "icloud.com",
        "me.com", "mac.com", "proton.me", "protonmail.com", "pm.me", "gmx.com",
        "gmx.de", "gmx.net", "web.de", "aol.com", "mail.com", "mail.ru",
        "yandex.ru", "yandex.com", "zoho.com", "fastmail.com", "hey.com", "t-online.de",
        "freenet.de", "arcor.de", "orange.fr", "wanadoo.fr", "free.fr", "sfr.fr",
        "laposte.net", "neuf.fr", "bbox.fr", "libero.it", "tiscali.it", "seznam.cz",
        "centrum.cz", "qq.com", "163.com", "126.com", "naver.com", "daum.net",
        "duck.com", "duckduckgo.com", "tutanota.com", "tuta.io", "tuta.com", "mailbox.org",
        "posteo.de", "posteo.net", "mailfence.com", "hushmail.com", "bluewin.ch", "sunrise.ch",
        "telenet.be", "skynet.be", "ziggo.nl", "xs4all.nl", "home.nl", "planet.nl",
        "comcast.net", "verizon.net", "att.net", "sbcglobal.net", "cox.net", "charter.net",
        "earthlink.net", "bell.net", "sympatico.ca", "rogers.com", "shaw.ca", "telus.net",
        "bigpond.com", "optusnet.com.au", "iinet.net.au", "tpg.com.au", "btinternet.com", "virginmedia.com",
        "talktalk.net", "ntlworld.com", "sky.com", "o2.co.uk", "bellsouth.net", "juno.com",
        "ocn.ne.jp", "biglobe.ne.jp", "nifty.com", "so-net.ne.jp", "mail.pf", "simplelogin.com",
        "simplelogin.io", "slmail.me", "anonaddy.me", "mozmail.com"
    ]
}

/// The curated freemail providers.
pub fn curated_freemail() -> (v: Vec<&'static str>)
    ensures
        v@ == curated_freemail_spec(),
{
    let v = vec![
        "gmail.com", "googlemail.com", "yahoo.com", "yahoo.co.uk", "yahoo.co.jp", "yahoo.fr",
        "yahoo.de", "hotmail.com", "outlook.com", "live.com", "msn.com", "icloud.com",
        "me.com", "mac.com", "proton.me", "protonmail.com", "pm.me", "gmx.com",
        "gmx.de", "gmx.net", "web.de", "aol.com", "mail.com", "mail.ru",
        "yandex.ru", "yandex.com", "zoho.com", "fastmail.com", "hey.com", "t-online.de",
        "freenet.de", "arcor.de", "orange.fr", "wanadoo.fr", "free.fr", "sfr.fr",
        "laposte.net", "neuf.fr", "bbox.fr", "libero.it", "tiscali.it", "seznam.cz",
        "centrum.cz", "qq.com", "163.com", "126.com", "naver.com", "daum.net",
        "duck.com", "duckduckgo.com", "tutanota.com", "tuta.io", "tuta.com", "mailbox.org",
        "posteo.de", "posteo.net", "mailfence.com", "hushmail.com", "bluewin.ch", "sunrise.ch",
        "telenet.be", "skynet.be", "ziggo.nl", "xs4all.nl", "home.nl", "planet.nl",
        "comcast.net", "verizon.net", "att.net", "sbcglobal.net", "cox.net", "charter.net",
        "earthlink.net", "bell.net", "sympatico.ca", "rogers.com", "shaw.ca", "telus.net",
        "bigpond.com", "optusnet.com.au", "iinet.net.au", "tpg.com.au", "btinternet.com", "virginmedia.com",
        "talktalk.net", "ntlworld.com", "sky.com", "o2.co.uk", "bellsouth.net", "juno.com",
        "ocn.ne.jp", "biglobe.ne.jp", "nifty.com", "so-net.ne.jp", "mail.pf", "simplelogin.com",
        "simplelogin.io", "slmail.me", "anonaddy.me", "mozmail.com"
    ];
    assert(v@ =~= curated_freemail_spec());
    v
}

/// The hosts of `lines` that normalize, in order.
pub open spec fn normalized_all(lines: Seq<Seq<char>>) -> Seq<Seq<char>>
    decreases lines.len(),
{
    if lines.len() == 0 {
        Seq::empty()
    } else {
        normalized_all(lines.drop_last()) + match normalized_host(lines.last()) {
            Some(h) => seq![h],
            None => Seq::empty(),
        }
    }
}

/// The hosts of a list of texts that normalize, in order.
pub fn normalize_all(lines: &Vec<String>) -> (v: Vec<String>)
    ensures
        v@.map_values(|s: String| s@) == normalized_all(lines@.map_values(|s: String| s@)),
{
    let ghost views = lines@.map_values(|s: String| s@);
    let mut v: Vec<String> = Vec::new();
    let mut i: usize = 0;
    while i < lines.len()
        invariant
            i <= lines@.len(),
            views == lines@.map_values(|s: String| s@),
            v@.map_values(|s: String| s@) == normalized_all(views.take(i as int)),
        decreases lines.len() - i,
    {
        let ghost before = v@.map_values(|s: String| s@);
        proof {
            assert(views.take(i + 1).drop_last() =~= views.take(i as int));
            assert(views.take(i + 1).last() == lines@[i as int]@);
        }
        match normalize_host(lines[i].as_str()) {
            Some(h) => {
                v.push(h);
                assert(v@.map_values(|s: String| s@) =~= before + seq![h@]);
            },
            None => {
                assert(before + Seq::<Seq<char>>::empty() =~= before);
            },
        }
        i = i + 1;
    }
    assert(views.take(lines@.len() as int) =~= views);
    v
}

/// Whether `s` is one of `list`.
pub open spec fn listed(list: Seq<Seq<char>>, s: Seq<char>) -> bool {
    exists|i: int| 0 <= i < list.len() && list[i] == s
}

pub open spec fn texts(v: Seq<String>) -> Seq<Seq<char>> {
    v.map_values(|s: String| s@)
}

/// Whether `s` is one of `list`.
pub fn is_listed(list: &Vec<String>, s: &str) -> (b: bool)
    ensures
        b == listed(texts(list@), s@),
{
    let mut i: usize = 0;
    while i < list.len()
        invariant
            i <= list@.len(),
            forall|j: int| 0 <= j < i ==> (#[trigger] list@[j])@ != s@,
        decreases list.len() - i,
    {
        if crate::text::str_equal(list[i].as_str(), s) {
            assert(texts(list@)[i as int] == s@);
            return true;
        }
        i = i + 1;
    }
    assert forall|j: int| 0 <= j < texts(list@).len() implies texts(list@)[j] != s@ by {
        assert(texts(list@)[j] == list@[j]@);
    }
    false
}

/// The freemail set: the vendored list's hosts and the curated providers,
/// each normalized.
pub fn build_freemail(raw: &str) -> (v: Vec<String>)
    ensures
        texts(v@) == normalized_all(data_lines(raw@) + curated_freemail_spec().map_values(|c: &'static str| c@)),
{
    let mut lines = raw_lines(raw);
    let ghost first = texts(lines@);
    let curated = curated_freemail();
    let mut i: usize = 0;
    while i < curated.len()
        invariant
            i <= curated@.len(),
            curated@ == curated_freemail_spec(),
            texts(lines@) == first + curated@.take(i as int).map_values(|c: &'static str| c@),
        decreases curated.len() - i,
    {
        let mut t = String::new();
        t.append(curated[i]);
        let ghost before = texts(lines@);
        lines.push(t);
        proof {
            assert(texts(lines@) =~= before.push(curated@[i as int]@));
            assert(curated@.take(i + 1).map_values(|c: &'static str| c@) =~= curated@.take(i as int).map_values(|c: &'static str| c@).push(curated@[i as int]@));
        }
        i = i + 1;
    }
    assert(curated@.take(curated@.len() as int) =~= curated@);
    normalize_all(&lines)
}

/// The items of `hosts` not in `excluded`, in order.
pub open spec fn without(hosts: Seq<Seq<char>>, excluded: Seq<Seq<char>>) -> Seq<Seq<char>>
    decreases hosts.len(),
{
    if hosts.len() == 0 {
        Seq::empty()
    } else {
        without(hosts.drop_last(), excluded) + if listed(excluded, hosts.last()) {
            Seq::empty()
        } else {
            seq![hosts.last()]
        }
    }
}

/// The university set: the vendored list's hosts, normalized, less those
/// known as freemail.
pub fn build_universities(raw: &str, freemail: &Vec<String>) -> (v: Vec<String>)
    ensures
        texts(v@) == without(normalized_all(data_lines(raw@)), texts(freemail@)),
{
    let hosts = normalize_all(&raw_lines(raw));
    let ghost hv = texts(hosts@);
    let mut v: Vec<String> = Vec::new();
    let mut i: usize = 0;
    while i < hosts.len()
        invariant
            i <= hosts@.len(),
            hv == texts(hosts@),
            texts(v@) == without(hv.take(i as int), texts(freemail@)),
        decreases hosts.len() - i,
    {
        let ghost before = texts(v@);
        proof {
            assert(hv.take(i + 1).drop_last() =~= hv.take(i as int));
            assert(hv.take(i + 1).last() == hosts@[i as int]@);
        }
        if !is_listed(freemail, hosts[i].as_str()) {
            let mut t = String::new();
            t.append(hosts[i].as_str());
            v.push(t);
            assert(texts(v@) =~= before + seq![hosts@[i as int]@]);
        } else {
            assert(before + Seq::<Seq<char>>::empty() =~= before);
        }
        i = i + 1;
    }
    assert(hv.take(hosts@.len() as int) =~= hv);
    v
}

/// Whether `key` has an entry in `map`.
pub open spec fn has_key(map: Seq<(Seq<char>, InstitutionType)>, key: Seq<char>) -> bool {
    exists|i: int| 0 <= i < map.len() && map[i].0 == key
}

/// The type of the first entry for `key`.
pub open spec fn lookup(map: Seq<(Seq<char>, InstitutionType)>, key: Seq<char>) -> Option<InstitutionType>
    decreases map.len(),
{
    if map.len() == 0 {
        None
    } else if map[0].0 == key {
        Some(map[0].1)
    } else {
        lookup(map.drop_first(), key)
    }
}

pub open spec fn entries(v: Seq<(String, InstitutionType)>) -> Seq<(Seq<char>, InstitutionType)> {
    v.map_values(|e: (String, InstitutionType)| (e.0@, e.1))
}

/// Merges institutional candidates, in precedence order, into a map: a
/// host that is denied, freemail or a university is dropped, and the first
/// entry for a host wins.
pub open spec fn merged(candidates: Seq<(Seq<char>, InstitutionType)>, freemail: Seq<Seq<char>>, universities: Seq<Seq<char>>) -> Seq<(Seq<char>, InstitutionType)>
    decreases candidates.len(),
{
    if candidates.len() == 0 {
        Seq::empty()
    } else {
        let prev = merged(candidates.drop_last(), freemail, universities);
        let c = candidates.last();
        if is_denied(c.0) || listed(freemail, c.0) || listed(universities, c.0) || has_key(prev, c.0) {
            prev
        } else {
            prev.push(c)
        }
    }
}

fn has_key_exec(map: &Vec<(String, InstitutionType)>, key: &str) -> (b: bool)
    ensures
        b == has_key(entries(map@), key@),
{
    let mut i: usize = 0;
    while i < map.len()
        invariant
            i <= map@.len(),
            forall|j: int| 0 <= j < i ==> (#[trigger] map@[j]).0@ != key@,
        decreases map.len() - i,
    {
        if crate::text::str_equal(map[i].0.as_str(), key) {
            assert(entries(map@)[i as int].0 == key@);
            return true;
        }
        i = i + 1;
    }
    assert forall|j: int| 0 <= j < entries(map@).len() implies entries(map@)[j].0 != key@ by {
        assert(entries(map@)[j].0 == map@[j].0@);
    }
    false
}

/// The merged institutional map (see `merged`): no denied platform host,
/// freemail host or university ever enters it, and each host has one entry.
pub fn merge_institutional(candidates: &Vec<(String, InstitutionType)>, freemail: &Vec<String>, universities: &Vec<String>) -> (m: Vec<(String, InstitutionType)>)
    ensures
        entries(m@) == merged(entries(candidates@), texts(freemail@), texts(universities@)),
{
    let ghost cv = entries(candidates@);
    let mut m: Vec<(String, InstitutionType)> = Vec::new();
    let mut i: usize = 0;
    while i < candidates.len()
        invariant
            i <= candidates@.len(),
            cv == entries(candidates@),
            entries(m@) == merged(cv.take(i as int), texts(freemail@), texts(universities@)),
        decreases candidates.len() - i,
    {
        let (host, kind) = (&candidates[i].0, candidates[i].1);
        let ghost before = entries(m@);
        proof {
            assert(cv.take(i + 1).drop_last() =~= cv.take(i as int));
            assert(cv.take(i + 1).last() == (host@, kind));
        }
        let skip = denied(host.as_str()) || is_listed(freemail, host.as_str())
            || is_listed(universities, host.as_str()) || has_key_exec(&m, host.as_str());
        if !skip {
            let mut t = String::new();
            t.append(host.as_str());
            m.push((t, kind));
            assert(entries(m@) =~= before.push((host@, kind)));
        }
        i = i + 1;
    }
    assert(cv.take(candidates@.len() as int) =~= cv);
    m
}

/// A denied platform host never enters the merged map.
pub proof fn lemma_merged_excludes(candidates: Seq<(Seq<char>, InstitutionType)>, freemail: Seq<Seq<char>>, universities: Seq<Seq<char>>, host: Seq<char>)
    requires
        is_denied(host) || listed(freemail, host) || listed(universities, host),
    ensures
        !has_key(merged(candidates, freemail, universities), host),
    decreases candidates.len(),
{
    if candidates.len() > 0 {
        lemma_merged_excludes(candidates.drop_last(), freemail, universities, host);
        let prev = merged(candidates.drop_last(), freemail, universities);
        let c = candidates.last();
        if !(is_denied(c.0) || listed(freemail, c.0) || listed(universities, c.0) || has_key(prev, c.0)) {
            assert(c.0 != host);
            let res = prev.push(c);
            assert forall|i: int| 0 <= i < res.len() implies res[i].0 != host by {
                if i < prev.len() {
                    assert(res[i] == prev[i]);
                }
            }
        }
    }
}

/// Candidate entries of one type.
pub fn typed(hosts: &Vec<String>, kind: InstitutionType, out: &mut Vec<(String, InstitutionType)>)
    ensures
        entries(final(out)@) == entries(old(out)@) + texts(hosts@).map_values(|h: Seq<char>| (h, kind)),
{
    let mut i: usize = 0;
    while i < hosts.len()
        invariant
            i <= hosts@.len(),
            entries(out@) == entries(old(out)@) + texts(hosts@).take(i as int).map_values(|h: Seq<char>| (h, kind)),
        decreases hosts.len() - i,
    {
        let ghost before = entries(out@);
        let mut t = String::new();
        t.append(hosts[i].as_str());
        out.push((t, kind));
        proof {
            assert(entries(out@) =~= before.push((hosts@[i as int]@, kind)));
            assert(texts(hosts@).take(i + 1) =~= texts(hosts@).take(i as int).push(hosts@[i as int]@));
            assert(texts(hosts@).take(i + 1).map_values(|h: Seq<char>| (h, kind)) =~= texts(hosts@).take(i as int).map_values(|h: Seq<char>| (h, kind)).push((hosts@[i as int]@, kind)));
        }
        i = i + 1;
    }
    assert(texts(hosts@).take(hosts@.len() as int) =~= texts(hosts@));
}

/// The header row of a CSV text, when it reads.
pub uninterp spec fn csv_header(text: Seq<char>) -> Option<Seq<Seq<char>>>;

/// The records of a CSV text after its header: each one's cells, or
/// `None` for a record that does not read.
pub uninterp spec fn csv_records(text: Seq<char>) -> Seq<Option<Seq<Seq<char>>>>;

/// A record's cells as texts, when it read.
pub open spec fn record_texts(row: Option<Vec<String>>) -> Option<Seq<Seq<char>>> {
    match row {
        Some(v) => Some(texts(v@)),
        None => None,
    }
}

/// `csv::Reader` over a text: its header row (`headers`) and each record
/// (`into_records`), with its cells as text, or `None` where it is an
/// error. Both are named.
#[verifier::external_body]
fn read_csv(text: &str) -> (r: (Option<Vec<String>>, Vec<Option<Vec<String>>>))
    ensures
        match r.0 {
            Some(h) => csv_header(text@) == Some(texts(h@)),
            None => csv_header(text@) is None,
        },
        r.1@.map_values(|row: Option<Vec<String>>| record_texts(row)) == csv_records(text@),
{
    let mut reader = csv::Reader::from_reader(text.as_bytes());
    let header = match reader.headers() {
        Ok(h) => Some(h.iter().map(|c| c.to_string()).collect()),
        Err(_) => None,
    };
    let rows = reader.into_records().map(|r| r.ok().map(|r| r.iter().map(|c| c.to_string()).collect())).collect();
    (header, rows)
}

/// The first position from `from` whose header mentions `domain` in
/// lowercase.
pub open spec fn domain_column_from(header: Seq<Seq<char>>, from: int) -> Option<int>
    decreases header.len() - from,
{
    if from < 0 || from >= header.len() {
        None
    } else if contains_seq(unicode_lowercase(header[from]), seq!['d', 'o', 'm', 'a', 'i', 'n']) {
        Some(from)
    } else {
        domain_column_from(header, from + 1)
    }
}

/// The "Domain name" column of the GSA list: the first header mentioning
/// `domain`, else the first column.
pub open spec fn domain_column(header: Option<Seq<Seq<char>>>) -> int {
    match header {
        Some(h) => match domain_column_from(h, 0) {
            Some(i) => i,
            None => 0,
        },
        None => 0,
    }
}

/// The cell in column `idx` of each record that read and has one; records
/// that do not read are skipped.
pub open spec fn column_cells(rows: Seq<Option<Seq<Seq<char>>>>, idx: int) -> Seq<Seq<char>>
    decreases rows.len(),
{
    if rows.len() == 0 {
        Seq::empty()
    } else {
        column_cells(rows.drop_last(), idx) + match rows.last() {
            Some(cells) => if 0 <= idx < cells.len() {
                seq![cells[idx]]
            } else {
                Seq::empty()
            },
            None => Seq::empty(),
        }
    }
}

/// A text without its leading byte order marks.
pub open spec fn strip_boms(s: Seq<char>) -> Seq<char>
    decreases s.len(),
{
    if s.len() > 0 && s[0] == '\u{feff}' {
        strip_boms(s.drop_first())
    } else {
        s
    }
}

/// The "Domain name" cells of the GSA government url list.
pub open spec fn gsa_cells(csv_text: Seq<char>) -> Seq<Seq<char>> {
    let body = strip_boms(csv_text);
    column_cells(csv_records(body), domain_column(csv_header(body)))
}

/// The domains of the GSA government url list (a CSV whose leading byte
/// order marks are dropped): the "Domain name" column.
pub fn gsa_domains(csv_text: &str) -> (v: Vec<String>)
    ensures
        texts(v@) == gsa_cells(csv_text@),
{
    let all = chars_of(csv_text);
    let mut start: usize = 0;
    assert(all@.skip(0) =~= all@);
    while start < all.len() && all[start] == '\u{feff}'
        invariant
            start <= all@.len(),
            strip_boms(all@) == strip_boms(all@.skip(start as int)),
        decreases all.len() - start,
    {
        assert(all@.skip(start as int).drop_first() =~= all@.skip(start + 1));
        start = start + 1;
    }
    let mut body = String::new();
    push_chars(&mut body, &all, start, all.len());
    proof {
        assert(all@.subrange(start as int, all@.len() as int) =~= all@.skip(start as int));
        assert(strip_boms(all@.skip(start as int)) == all@.skip(start as int));
    }
    let (header, rows) = read_csv(body.as_str());
    let ghost hv = csv_header(body@);
    let mut idx: usize = 0;
    match &header {
        Some(h) => {
            let mut k: usize = 0;
            let mut found = false;
            while k < h.len() && !found
                invariant
                    k <= h@.len(),
                    hv == Some(texts(h@)),
                    found ==> k >= 1 && domain_column_from(texts(h@), 0) == Some((k - 1) as int) && idx == k - 1,
                    !found ==> domain_column_from(texts(h@), 0) == domain_column_from(texts(h@), k as int),
                    !found ==> idx == 0,
                decreases h.len() - k + (if found { 0int } else { 1int }),
            {
                let lower = lowercase(h[k].as_str());
                let needle = vec!['d', 'o', 'm', 'a', 'i', 'n'];
                assert(needle@ =~= seq!['d', 'o', 'm', 'a', 'i', 'n']);
                assert(texts(h@)[k as int] == h@[k as int]@);
                if contains_chars(&chars_of(lower.as_str()), &needle) {
                    idx = k;
                    found = true;
                }
                k = k + 1;
            }
            proof {
                if !found {
                    assert(domain_column_from(texts(h@), k as int) is None);
                }
            }
        },
        None => {},
    }
    assert(idx == domain_column(hv));
    let ghost rv = csv_records(body@);
    let mut v: Vec<String> = Vec::new();
    let mut i: usize = 0;
    while i < rows.len()
        invariant
            i <= rows@.len(),
            rows@.map_values(|row: Option<Vec<String>>| record_texts(row)) == rv,
            texts(v@) == column_cells(rv.take(i as int), idx as int),
        decreases rows.len() - i,
    {
        let ghost before = texts(v@);
        proof {
            assert(rv.take(i + 1).drop_last() =~= rv.take(i as int));
            assert(rv.take(i + 1).last() == record_texts(rows@[i as int]));
        }
        match &rows[i] {
            Some(row) => {
                if idx < row.len() {
                    let mut t = String::new();
                    t.append(row[idx].as_str());
                    v.push(t);
                    assert(texts(v@) =~= before + seq![texts(row@)[idx as int]]);
                } else {
                    assert(before + Seq::<Seq<char>>::empty() =~= before);
                }
            },
            None => {
                assert(before + Seq::<Seq<char>>::empty() =~= before);
            },
        }
        i = i + 1;
    }
    assert(rv.take(rows@.len() as int) =~= rv);
    v
}

// ---------------------------------------------------------------------------
// Classification
// ---------------------------------------------------------------------------

/// The institution type that a registry-restricted public suffix
/// guarantees, keyed by the suffix's first label. `go`, `ac`, `k12` and
/// `sch` count only inside a multi-label suffix (`ac` alone is a country
/// code).
pub open spec fn suffix_institution(suffix: Seq<char>) -> Option<InstitutionType> {
    let first = before_first(suffix, '.');
    let multi = has_char(suffix, '.');
    if first == "gov"@ || first == "mil"@ || first == "gob"@ || first == "gouv"@ || first == "govt"@
        || first == "gub"@ || first == "int"@ {
        Some(InstitutionType::Government)
    } else if first == "go"@ && multi {
        Some(InstitutionType::Government)
    } else if first == "edu"@ {
        Some(InstitutionType::Education)
    } else if (first == "ac"@ || first == "k12"@ || first == "sch"@) && multi {
        Some(InstitutionType::Education)
    } else {
        None
    }
}

fn text_is(v: &Vec<char>, s: &str) -> (b: bool)
    ensures
        b == (v@ == s@),
{
    crate::text::chars_equal(v, &chars_of(s))
}

/// The institution type a restricted public suffix guarantees (see
/// `suffix_institution`).
pub fn institution_from_suffix(suffix: &str) -> (r: Option<InstitutionType>)
    ensures
        r == suffix_institution(suffix@),
{
    let v = chars_of(suffix);
    let first = crate::text::prefix_before(&v, '.');
    let multi = crate::text::contains_char(&v, '.');
    if text_is(&first, "gov") || text_is(&first, "mil") || text_is(&first, "gob") || text_is(&first, "gouv")
        || text_is(&first, "govt") || text_is(&first, "gub") || text_is(&first, "int") {
        Some(InstitutionType::Government)
    } else if text_is(&first, "go") && multi {
        Some(InstitutionType::Government)
    } else if text_is(&first, "edu") {
        Some(InstitutionType::Education)
    } else if (text_is(&first, "ac") || text_is(&first, "k12") || text_is(&first, "sch")) && multi {
        Some(InstitutionType::Education)
    } else {
        None
    }
}

/// The first override entry that `domain` is, or is under.
pub open spec fn domain_override(list: Seq<(Seq<char>, InstitutionType)>, domain: Seq<char>) -> Option<InstitutionType>
    decreases list.len(),
{
    if list.len() == 0 {
        None
    } else if domain == list[0].0 || ends_with(domain, seq!['.'] + list[0].0) {
        Some(list[0].1)
    } else {
        domain_override(list.drop_first(), domain)
    }
}

/// The first override prefix that `label` starts with.
pub open spec fn prefix_override(list: Seq<(Seq<char>, InstitutionType)>, label: Seq<char>) -> Option<InstitutionType>
    decreases list.len(),
{
    if list.len() == 0 {
        None
    } else if starts_with(label, list[0].0) {
        Some(list[0].1)
    } else {
        prefix_override(list.drop_first(), label)
    }
}

/// The hand-kept overrides: a domain entry covers itself and its
/// subdomains; otherwise a prefix entry matches the registrable domain's
/// first label.
pub open spec fn override_institution(domains: Seq<(Seq<char>, InstitutionType)>, prefixes: Seq<(Seq<char>, InstitutionType)>, domain: Seq<char>, reg: Seq<char>) -> Option<InstitutionType> {
    match domain_override(domains, domain) {
        Some(t) => Some(t),
        None => prefix_override(prefixes, before_first(reg, '.')),
    }
}

/// The institution type the overrides give a domain with registrable form
/// `reg` (see `override_institution`); entries are tried in order.
pub fn institution_from_overrides(domain: &str, reg: &str, domains: &Vec<(String, InstitutionType)>, prefixes: &Vec<(String, InstitutionType)>) -> (r: Option<InstitutionType>)
    ensures
        r == override_institution(entries(domains@), entries(prefixes@), domain@, reg@),
{
    let d = chars_of(domain);
    let mut i: usize = 0;
    let ghost dv = entries(domains@);
    assert(dv.skip(0) =~= dv);
    while i < domains.len()
        invariant
            i <= domains@.len(),
            d@ == domain@,
            dv == entries(domains@),
            domain_override(dv, domain@) == domain_override(dv.skip(i as int), domain@),
        decreases domains.len() - i,
    {
        let e = chars_of(domains[i].0.as_str());
        let mut dotted: Vec<char> = vec!['.'];
        let mut k: usize = 0;
        while k < e.len()
            invariant
                k <= e@.len(),
                dotted@ == seq!['.'] + e@.take(k as int),
            decreases e.len() - k,
        {
            dotted.push(e[k]);
            assert(seq!['.'] + e@.take(k + 1) =~= (seq!['.'] + e@.take(k as int)).push(e@[k as int]));
            k = k + 1;
        }
        assert(e@.take(e@.len() as int) =~= e@);
        proof {
            let rest = dv.skip(i as int);
            assert(rest[0] == (domains@[i as int].0@, domains@[i as int].1));
            assert(rest.drop_first() =~= dv.skip(i + 1));
        }
        if crate::text::chars_equal(&d, &e) || crate::text::has_suffix(&d, &dotted) {
            return Some(domains[i].1);
        }
        i = i + 1;
    }
    assert(dv.skip(i as int) =~= Seq::<(Seq<char>, InstitutionType)>::empty());
    let label = crate::text::prefix_before(&chars_of(reg), '.');
    let ghost pv = entries(prefixes@);
    assert(pv.skip(0) =~= pv);
    let mut j: usize = 0;
    while j < prefixes.len()
        invariant
            j <= prefixes@.len(),
            domain_override(entries(domains@), domain@) is None,
            pv == entries(prefixes@),
            label@ == before_first(reg@, '.'),
            prefix_override(pv, label@) == prefix_override(pv.skip(j as int), label@),
        decreases prefixes.len() - j,
    {
        let pre = chars_of(prefixes[j].0.as_str());
        proof {
            let rest = pv.skip(j as int);
            assert(rest[0] == (prefixes@[j as int].0@, prefixes@[j as int].1));
            assert(rest.drop_first() =~= pv.skip(j + 1));
        }
        if crate::text::has_prefix(&label, &pre) {
            return Some(prefixes[j].1);
        }
        j = j + 1;
    }
    assert(pv.skip(j as int) =~= Seq::<(Seq<char>, InstitutionType)>::empty());
    None
}

/// The reference data consulted by the classification.
pub struct DomainDatasets {
    pub freemail: Vec<String>,
    pub universities: Vec<String>,
    pub institutional: Vec<(String, InstitutionType)>,
    pub override_domains: Vec<(String, InstitutionType)>,
    pub override_prefixes: Vec<(String, InstitutionType)>,
}

/// An email domain trimmed, without trailing dots, lowercased.
pub open spec fn normalized_email_domain(domain: Seq<char>) -> Seq<char> {
    unicode_lowercase(trim_end_in(unicode_trim(domain), seq!['.']))
}

/// The classification of an email domain. The domain is trimmed, its
/// trailing dots dropped and lowercased; one without a dot is a company.
/// It is freemail when it or its registrable form is a freemail provider,
/// or when a probe address at it is refused (malformed or disposable).
/// Then, in order: a registry-restricted suffix gives its institution; the
/// overrides give theirs; a university (exactly or by registrable form) is
/// an education institution; the merged institutional map, exactly or by
/// registrable form, gives its type. Anything else is a company.
/// `mailbox_ok` is the verdict on the probe address `probe@` + the
/// normalized domain.
pub open spec fn classification(domain: Seq<char>, data: DomainDatasets, mailbox_ok: bool) -> (DomainClass, Option<InstitutionType>) {
    let d = normalized_email_domain(domain);
    if d.len() == 0 || !has_char(d, '.') {
        (DomainClass::Company, None)
    } else {
        let reg = match psl_domain(d) { Some(r) => r, None => d };
        let fm = texts(data.freemail@);
        let un = texts(data.universities@);
        let inst = entries(data.institutional@);
        if listed(fm, d) || listed(fm, reg) {
            (DomainClass::Freemail, None)
        } else if !mailbox_ok {
            (DomainClass::Freemail, None)
        } else if psl_suffix(d) is Some && suffix_institution(psl_suffix(d)->Some_0) is Some {
            (DomainClass::Institutional, suffix_institution(psl_suffix(d)->Some_0))
        } else if override_institution(entries(data.override_domains@), entries(data.override_prefixes@), d, reg) is Some {
            (DomainClass::Institutional, override_institution(entries(data.override_domains@), entries(data.override_prefixes@), d, reg))
        } else if listed(un, d) || listed(un, reg) {
            (DomainClass::Institutional, Some(InstitutionType::Education))
        } else if lookup(inst, d) is Some {
            (DomainClass::Institutional, lookup(inst, d))
        } else if lookup(inst, reg) is Some {
            (DomainClass::Institutional, lookup(inst, reg))
        } else {
            (DomainClass::Company, None)
        }
    }
}

fn lookup_exec(map: &Vec<(String, InstitutionType)>, key: &str) -> (r: Option<InstitutionType>)
    ensures
        r == lookup(entries(map@), key@),
{
    let ghost mv = entries(map@);
    assert(mv.skip(0) =~= mv);
    let mut i: usize = 0;
    while i < map.len()
        invariant
            i <= map@.len(),
            mv == entries(map@),
            lookup(mv, key@) == lookup(mv.skip(i as int), key@),
        decreases map.len() - i,
    {
        proof {
            let rest = mv.skip(i as int);
            assert(rest[0] == (map@[i as int].0@, map@[i as int].1));
            assert(rest.drop_first() =~= mv.skip(i + 1));
        }
        if crate::text::str_equal(map[i].0.as_str(), key) {
            return Some(map[i].1);
        }
        i = i + 1;
    }
    assert(mv.skip(i as int) =~= Seq::<(Seq<char>, InstitutionType)>::empty());
    None
}

/// Normalizes an email domain: trimmed, trailing dots dropped, lowercased.
pub fn normalize_email_domain(domain: &str) -> (d: String)
    ensures
        d@ == normalized_email_domain(domain@),
{
    let trimmed = trim_whitespace(domain);
    let dots = vec!['.'];
    assert(dots@ =~= seq!['.']);
    let no_dots = trim_end_chars(&chars_of(trimmed.as_str()), &dots);
    lowercase(string_from_chars(&no_dots).as_str())
}

/// Classifies an email domain offline (see `classification`), given the
/// mailbox verdict on `probe@` + the normalized domain; never `Personal`,
/// which needs the website probe.
pub fn classify_email_domain_with(domain: &str, data: &DomainDatasets, mailbox_ok: bool) -> (r: (DomainClass, Option<InstitutionType>))
    ensures
        r == classification(domain@, *data, mailbox_ok),
{
    let lower = normalize_email_domain(domain);
    let d = lower.as_str();
    let dv = chars_of(d);
    if dv.len() == 0 || !crate::text::contains_char(&dv, '.') {
        return (DomainClass::Company, None);
    }
    let reg_owned = match registrable_domain(d) {
        Some(r) => r,
        None => string_from_chars(&dv),
    };
    let reg = reg_owned.as_str();
    if is_listed(&data.freemail, d) || is_listed(&data.freemail, reg) {
        return (DomainClass::Freemail, None);
    }
    if !mailbox_ok {
        return (DomainClass::Freemail, None);
    }
    match public_suffix(d) {
        Some(suffix) => match institution_from_suffix(suffix.as_str()) {
            Some(t) => { return (DomainClass::Institutional, Some(t)); },
            None => {},
        },
        None => {},
    }
    match institution_from_overrides(d, reg, &data.override_domains, &data.override_prefixes) {
        Some(t) => { return (DomainClass::Institutional, Some(t)); },
        None => {},
    }
    if is_listed(&data.universities, d) || is_listed(&data.universities, reg) {
        return (DomainClass::Institutional, Some(InstitutionType::Education));
    }
    match lookup_exec(&data.institutional, d) {
        Some(t) => { return (DomainClass::Institutional, Some(t)); },
        None => {},
    }
    match lookup_exec(&data.institutional, reg) {
        Some(t) => (DomainClass::Institutional, Some(t)),
        None => (DomainClass::Company, None),
    }
}

/// The address whose mailbox verdict decides whether a domain counts as
/// freemail: `probe@` and the normalized domain.
pub open spec fn probe_address(domain: Seq<char>) -> Seq<char> {
    "probe@"@ + normalized_email_domain(domain)
}

/// Classifies an email domain offline: asks mailchecker about
/// `probe@` + the normalized domain, and classifies with its verdict.
/// The verdict is not a function of the address alone, so the result is
/// the classification for one of the two verdicts; where the verdict is
/// not consulted (see `classification`) the two agree, and a probe address
/// that fails mailchecker's own checks always gets the refused verdict.
pub fn classify_email_domain(domain: &str, data: &DomainDatasets) -> (r: (DomainClass, Option<InstitutionType>))
    ensures
        r == classification(domain@, *data, true) || r == classification(domain@, *data, false),
        !mailchecker_static_ok(probe_address(domain@)) ==> r == classification(domain@, *data, false),
{
    let d = normalize_email_domain(domain);
    let mut probe = String::new();
    probe.append("probe@");
    probe.append(d.as_str());
    proof {
        reveal_strlit("probe@");
    }
    assert(probe@ == probe_address(domain@));
    let ok = mailchecker_is_valid(probe.as_str());
    classify_email_domain_with(domain, data, ok)
}

proof fn lemma_trims_keep_ascii(s: Seq<char>)
    requires
        is_ascii_text(s),
    ensures
        is_ascii_text(unicode_trim(s)),
        is_ascii_text(trim_end_in(unicode_trim(s), seq!['.'])),
{
    lemma_trim_start_ascii(s);
    lemma_trim_end_ascii(trim_start_white_space(s));
    lemma_trim_end_dots_ascii(unicode_trim(s));
}

proof fn lemma_trim_start_ascii(s: Seq<char>)
    requires
        is_ascii_text(s),
    ensures
        is_ascii_text(trim_start_white_space(s)),
    decreases s.len(),
{
    if s.len() > 0 && unicode_white_space(s[0]) {
        let t = s.drop_first();
        assert forall|i: int| 0 <= i < t.len() implies (#[trigger] t[i] as u32) < 128 by {
            assert(t[i] == s[i + 1]);
        }
        lemma_trim_start_ascii(t);
    }
}

proof fn lemma_trim_end_ascii(s: Seq<char>)
    requires
        is_ascii_text(s),
    ensures
        is_ascii_text(trim_end_white_space(s)),
    decreases s.len(),
{
    if s.len() > 0 && unicode_white_space(s.last()) {
        let t = s.drop_last();
        assert forall|i: int| 0 <= i < t.len() implies (#[trigger] t[i] as u32) < 128 by {
            assert(t[i] == s[i]);
        }
        lemma_trim_end_ascii(t);
    }
}

proof fn lemma_trim_end_dots_ascii(s: Seq<char>)
    requires
        is_ascii_text(s),
    ensures
        is_ascii_text(trim_end_in(s, seq!['.'])),
    decreases s.len(),
{
    if s.len() > 0 && has_char(seq!['.'], s.last()) {
        let t = s.drop_last();
        assert forall|i: int| 0 <= i < t.len() implies (#[trigger] t[i] as u32) < 128 by {
            assert(t[i] == s[i]);
        }
        lemma_trim_end_dots_ascii(t);
    }
}

proof fn lemma_trim_end_dots_upper(s: Seq<char>)
    requires
        is_ascii_text(s),
    ensures
        trim_end_in(ascii_upper(s), seq!['.']) == ascii_upper(trim_end_in(s, seq!['.'])),
    decreases s.len(),
{
    let u = ascii_upper(s);
    if s.len() > 0 {
        let t = s.drop_last();
        assert forall|i: int| 0 <= i < t.len() implies (#[trigger] t[i] as u32) < 128 by {
            assert(t[i] == s[i]);
        }
        assert(u.drop_last() =~= ascii_upper(t));
        assert(u.last() == ascii_upper_char(s.last()));
        if s.last() == '.' {
            assert(seq!['.'][0] == '.');
            assert(has_char(seq!['.'], s.last()));
            assert(has_char(seq!['.'], u.last()));
            lemma_trim_end_dots_upper(t);
        } else {
            assert(!has_char(seq!['.'], s.last()));
            assert(u.last() != '.');
            assert(!has_char(seq!['.'], u.last()));
        }
    }
}

proof fn lemma_lower_of_upper(s: Seq<char>)
    requires
        is_ascii_text(s),
    ensures
        is_ascii_text(ascii_upper(s)),
        ascii_lower(ascii_upper(s)) == ascii_lower(s),
{
    let u = ascii_upper(s);
    assert forall|i: int| 0 <= i < u.len() implies (#[trigger] u[i] as u32) < 128 by {
        assert(u[i] == ascii_upper_char(s[i]));
        assert((s[i] as u32) < 128);
    }
    assert forall|i: int| 0 <= i < s.len() implies ascii_lower(u)[i] == #[trigger] ascii_lower(s)[i] by {
        assert(u[i] == ascii_upper_char(s[i]));
        assert((s[i] as u32) < 128);
    }
    assert(ascii_lower(u) =~= ascii_lower(s));
}

proof fn lemma_trim_start_upper_dot(s: Seq<char>)
    requires
        is_ascii_text(s),
    ensures
        trim_start_white_space(ascii_upper(s) + seq!['.']) == ascii_upper(trim_start_white_space(s)) + seq!['.'],
    decreases s.len(),
{
    let u = ascii_upper(s) + seq!['.'];
    if s.len() == 0 {
        assert(u =~= seq!['.']);
        assert(u[0] == '.');
    } else {
        assert(u[0] == ascii_upper_char(s[0]));
        assert((s[0] as u32) < 128);
        let t = s.drop_first();
        assert forall|i: int| 0 <= i < t.len() implies (#[trigger] t[i] as u32) < 128 by {
            assert(t[i] == s[i + 1]);
        }
        if unicode_white_space(s[0]) {
            assert(u[0] == s[0]);
            assert(u.drop_first() =~= ascii_upper(t) + seq!['.']);
            lemma_trim_start_upper_dot(t);
        } else {
            assert(!unicode_white_space(u[0]));
        }
    }
}

proof fn lemma_trim_start_keeps_last(s: Seq<char>)
    requires
        s.len() > 0,
    ensures
        trim_start_white_space(s).len() == 0 || trim_start_white_space(s).last() == s.last(),
    decreases s.len(),
{
    if unicode_white_space(s[0]) {
        let t = s.drop_first();
        assert(trim_start_white_space(s) == trim_start_white_space(t));
        if t.len() > 0 {
            lemma_trim_start_keeps_last(t);
            assert(t.last() == s.last());
        } else {
            assert(trim_start_white_space(t) == t);
        }
    }
}

/// On ASCII domains that do not end in white space, classification ignores
/// case and a trailing dot: the domain in uppercase with a dot appended
/// classifies as the domain itself.
pub proof fn lemma_classification_ignores_case_and_trailing_dot(d: Seq<char>, data: DomainDatasets, mailbox_ok: bool)
    requires
        is_ascii_text(d),
        d.len() == 0 || !unicode_white_space(d.last()),
    ensures
        normalized_email_domain(ascii_upper(d) + seq!['.']) == normalized_email_domain(d),
        classification(ascii_upper(d) + seq!['.'], data, mailbox_ok) == classification(d, data, mailbox_ok),
{
    let u = ascii_upper(d) + seq!['.'];
    let t0 = trim_start_white_space(d);
    lemma_trim_start_ascii(d);
    lemma_trim_start_upper_dot(d);
    let v = ascii_upper(t0) + seq!['.'];
    assert(v.last() == '.');
    assert(trim_end_white_space(v) == v);
    assert(unicode_trim(u) == v);
    if d.len() > 0 {
        lemma_trim_start_keeps_last(d);
    }
    assert(trim_end_white_space(t0) == t0);
    assert(unicode_trim(d) == t0);
    assert(seq!['.'][0] == '.');
    assert(has_char(seq!['.'], v.last()));
    assert(v.drop_last() =~= ascii_upper(t0));
    assert(trim_end_in(v, seq!['.']) == trim_end_in(ascii_upper(t0), seq!['.']));
    lemma_trim_end_dots_upper(t0);
    let t = trim_end_in(t0, seq!['.']);
    lemma_trim_end_dots_ascii(t0);
    lemma_lower_of_upper(t);
}

proof fn lemma_lookup_first(map: Seq<(Seq<char>, InstitutionType)>, key: Seq<char>, k: int)
    requires
        0 <= k < map.len(),
        map[k].0 == key,
        forall|j: int| 0 <= j < k ==> (#[trigger] map[j]).0 != key,
    ensures
        lookup(map, key) == Some(map[k].1),
    decreases k,
{
    if k > 0 {
        let rest = map.drop_first();
        assert forall|j: int| 0 <= j < k - 1 implies (#[trigger] rest[j]).0 != key by {
            assert(rest[j] == map[j + 1]);
        }
        assert(map[0].0 != key);
        lemma_lookup_first(rest, key, k - 1);
    }
}

proof fn lemma_lookup_absent(map: Seq<(Seq<char>, InstitutionType)>, key: Seq<char>)
    requires
        forall|j: int| 0 <= j < map.len() ==> (#[trigger] map[j]).0 != key,
    ensures
        lookup(map, key) is None,
    decreases map.len(),
{
    if map.len() > 0 {
        let rest = map.drop_first();
        assert forall|j: int| 0 <= j < rest.len() implies (#[trigger] rest[j]).0 != key by {
            assert(rest[j] == map[j + 1]);
        }
        assert(map[0].0 != key);
        lemma_lookup_absent(rest, key);
    }
}

/// A dotted domain that no earlier rule settles (not freemail, accepted by
/// the mailbox check, no registry-restricted suffix, no override, no
/// university) and that is not itself in the institutional data is
/// institutional when its registrable form is: `mail.aphp.fr` takes the
/// type of `aphp.fr`, from the first entry that names it. A domain that is
/// in the data itself takes the type of its own first entry.
pub proof fn lemma_institution_by_registrable_form(domain: Seq<char>, data: DomainDatasets, k: int)
    requires
        ({
            let d = normalized_email_domain(domain);
            let reg = match psl_domain(d) { Some(r) => r, None => d };
            let fm = texts(data.freemail@);
            let un = texts(data.universities@);
            let inst = entries(data.institutional@);
            &&& has_char(d, '.')
            &&& !listed(fm, d) && !listed(fm, reg)
            &&& (psl_suffix(d) is None || suffix_institution(psl_suffix(d)->Some_0) is None)
            &&& override_institution(entries(data.override_domains@), entries(data.override_prefixes@), d, reg) is None
            &&& !listed(un, d) && !listed(un, reg)
            &&& 0 <= k < inst.len()
            &&& (inst[k].0 == d || (inst[k].0 == reg && forall|j: int| 0 <= j < inst.len() ==> (#[trigger] inst[j]).0 != d))
            &&& forall|j: int| 0 <= j < k ==> (#[trigger] inst[j]).0 != inst[k].0
        }),
    ensures
        classification(domain, data, true) == (DomainClass::Institutional, Some(entries(data.institutional@)[k].1)),
{
    let d = normalized_email_domain(domain);
    let inst = entries(data.institutional@);
    if inst[k].0 == d {
        lemma_lookup_first(inst, d, k);
    } else {
        let reg = match psl_domain(d) { Some(r) => r, None => d };
        lemma_lookup_absent(inst, d);
        lemma_lookup_first(inst, reg, k);
    }
}

/// The order of the classification rules, for a dotted domain: a freemail
/// domain (itself or by registrable form), or one whose probe mailbox is
/// refused, is freemail; then a registry-restricted suffix, then the
/// overrides, then a university (itself or by registrable form) make it
/// institutional; a domain matched by none of these, nor by the
/// institutional data (itself or by registrable form), is a company.
pub proof fn lemma_classification_rules(domain: Seq<char>, data: DomainDatasets, mailbox_ok: bool)
    ensures
        ({
            let d = normalized_email_domain(domain);
            let reg = match psl_domain(d) { Some(r) => r, None => d };
            let fm = texts(data.freemail@);
            let un = texts(data.universities@);
            let inst = entries(data.institutional@);
            let ov = override_institution(entries(data.override_domains@), entries(data.override_prefixes@), d, reg);
            let suffix = match psl_suffix(d) { Some(x) => suffix_institution(x), None => None };
            let c = classification(domain, data, mailbox_ok);
            &&& has_char(d, '.') && (listed(fm, d) || listed(fm, reg)) ==> c == (DomainClass::Freemail, None::<InstitutionType>)
            &&& has_char(d, '.') && !mailbox_ok ==> c == (DomainClass::Freemail, None::<InstitutionType>)
            &&& (has_char(d, '.') && !listed(fm, d) && !listed(fm, reg) && mailbox_ok) ==> {
                &&& suffix is Some ==> c == (DomainClass::Institutional, suffix)
                &&& (suffix is None && ov is Some) ==> c == (DomainClass::Institutional, ov)
                &&& (suffix is None && ov is None && (listed(un, d) || listed(un, reg)))
                    ==> c == (DomainClass::Institutional, Some(InstitutionType::Education))
                &&& (suffix is None && ov is None && !listed(un, d) && !listed(un, reg)
                    && (forall|j: int| 0 <= j < inst.len() ==> (#[trigger] inst[j]).0 != d && inst[j].0 != reg))
                    ==> c == (DomainClass::Company, None::<InstitutionType>)
            }
        }),
{
    let d = normalized_email_domain(domain);
    let reg = match psl_domain(d) { Some(r) => r, None => d };
    let inst = entries(data.institutional@);
    if forall|j: int| 0 <= j < inst.len() ==> (#[trigger] inst[j]).0 != d && inst[j].0 != reg {
        lemma_lookup_absent(inst, d);
        lemma_lookup_absent(inst, reg);
    }
}

/// An ASCII domain with no dot once trimmed and stripped of trailing dots
/// is a company.
pub proof fn lemma_dotless_domain_is_company(d: Seq<char>, data: DomainDatasets, mailbox_ok: bool)
    requires
        is_ascii_text(d),
        !has_char(trim_end_in(unicode_trim(d), seq!['.']), '.'),
    ensures
        classification(d, data, mailbox_ok) == (DomainClass::Company, None::<InstitutionType>),
{
    lemma_trims_keep_ascii(d);
    let t = trim_end_in(unicode_trim(d), seq!['.']);
    let l = normalized_email_domain(d);
    assert(l == ascii_lower(t));
    if has_char(l, '.') {
        let i = choose|i: int| 0 <= i < l.len() && l[i] == '.';
        assert(l[i] == ascii_lower_char(t[i]));
        assert((t[i] as u32) < 128);
        assert(t[i] == '.');
    }
}

/// The offline classification never says personal (that needs the
/// website probe), names an institution type exactly for institutional
/// domains, and calls a dotless or empty domain a company.
pub proof fn lemma_classification_shape(domain: Seq<char>, data: DomainDatasets, mailbox_ok: bool)
    ensures
        classification(domain, data, mailbox_ok).0 != DomainClass::Personal,
        (classification(domain, data, mailbox_ok).0 == DomainClass::Institutional) <==> classification(domain, data, mailbox_ok).1 is Some,
        ({
            let d = unicode_lowercase(trim_end_in(unicode_trim(domain), seq!['.']));
            (d.len() == 0 || !has_char(d, '.')) ==> classification(domain, data, mailbox_ok) == (DomainClass::Company, None::<InstitutionType>)
        }),
{
}

/// The institutional candidates in precedence order: healthcare hosts,
/// then utility hosts, then government hosts (the Wikidata and annuaire
/// lines, then the GSA domains).
pub open spec fn institutional_candidates(healthcare: Seq<Seq<char>>, utility: Seq<Seq<char>>, government: Seq<Seq<char>>) -> Seq<(Seq<char>, InstitutionType)> {
    healthcare.map_values(|h: Seq<char>| (h, InstitutionType::Healthcare))
        + utility.map_values(|h: Seq<char>| (h, InstitutionType::Utility))
        + government.map_values(|h: Seq<char>| (h, InstitutionType::Government))
}

fn append_strings(a: &mut Vec<String>, b: Vec<String>)
    ensures
        texts(final(a)@) == texts(old(a)@) + texts(b@),
{
    let ghost a0 = texts(a@);
    let ghost bv = texts(b@);
    let mut rest = b;
    let n = rest.len();
    let mut i: usize = 0;
    assert(rest@.subrange(0, n as int) =~= rest@);
    let ghost b0 = rest@;
    while i < n
        invariant
            n == b0.len(),
            i <= n,
            bv == texts(b0),
            rest@ == b0.subrange(i as int, n as int),
            texts(a@) == a0 + bv.take(i as int),
        decreases n - i,
    {
        let s = rest.remove(0);
        assert(rest@ =~= b0.subrange(i + 1, n as int));
        let ghost before = texts(a@);
        a.push(s);
        assert(texts(a@) =~= before.push(b0[i as int]@));
        assert(bv.take(i + 1) =~= bv.take(i as int).push(b0[i as int]@));
        i = i + 1;
    }
    assert(bv.take(n as int) =~= bv);
}

/// Builds the reference data from the raw vendored texts and the parsed
/// overrides: freemail and university sets, and the merged institutional
/// map.
pub fn build_domain_datasets(
    freemail_txt: &str,
    universities_txt: &str,
    healthcare_csv: &str,
    utility_csv: &str,
    government_csv: &str,
    annuaire_csv: &str,
    gsa_csv: &str,
    override_domains: Vec<(String, InstitutionType)>,
    override_prefixes: Vec<(String, InstitutionType)>,
) -> (d: DomainDatasets)
    ensures
        texts(d.freemail@) == normalized_all(data_lines(freemail_txt@) + curated_freemail_spec().map_values(|c: &'static str| c@)),
        texts(d.universities@) == without(normalized_all(data_lines(universities_txt@)), texts(d.freemail@)),
        entries(d.institutional@) == merged(
            institutional_candidates(
                normalized_all(data_lines(healthcare_csv@)),
                normalized_all(data_lines(utility_csv@)),
                normalized_all(data_lines(government_csv@) + data_lines(annuaire_csv@))
                    + normalized_all(gsa_cells(gsa_csv@)),
            ),
            texts(d.freemail@),
            texts(d.universities@),
        ),
        d.override_domains@ == override_domains@,
        d.override_prefixes@ == override_prefixes@,
{
    let freemail = build_freemail(freemail_txt);
    let universities = build_universities(universities_txt, &freemail);
    let healthcare = normalize_all(&raw_lines(healthcare_csv));
    let utility = normalize_all(&raw_lines(utility_csv));
    let mut gov_lines = raw_lines(government_csv);
    append_strings(&mut gov_lines, raw_lines(annuaire_csv));
    let mut government = normalize_all(&gov_lines);
    let gsa = gsa_domains(gsa_csv);
    append_strings(&mut government, normalize_all(&gsa));
    let mut candidates: Vec<(String, InstitutionType)> = Vec::new();
    typed(&healthcare, InstitutionType::Healthcare, &mut candidates);
    typed(&utility, InstitutionType::Utility, &mut candidates);
    typed(&government, InstitutionType::Government, &mut candidates);
    proof {
        assert(entries(Seq::<(String, InstitutionType)>::empty()) =~= Seq::<(Seq<char>, InstitutionType)>::empty());
        assert(entries(candidates@) =~= institutional_candidates(texts(healthcare@), texts(utility@), texts(government@)));
    }
    let institutional = merge_institutional(&candidates, &freemail, &universities);
    DomainDatasets { freemail, universities, institutional, override_domains, override_prefixes }
}

} // verus!
