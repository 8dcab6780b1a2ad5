//! Which hosts serve the demo: the demo organization may only sign in on a
//! demo host, and the dedicated demo site admits only the demo.
use vstd::prelude::*;

use crate::text::{before_first, chars_of, prefix_before, starts_with};

verus! {

broadcast use vstd::string::group_string_axioms;

/// Hosts where the demo organization may sign in.
pub open spec fn demo_hosts() -> Seq<&'static str> {
    seq!["demo.scanopy.net", "localhost", "scanopy-staging.maya.cloud"]
}

/// The dedicated demo site: registration is closed and only the demo may
/// sign in.
pub const DEMO_ONLY_HOST: &'static str = "demo.scanopy.net";

/// The host name of a `Host` header value (without its port).
pub open spec fn host_name(host: Seq<char>) -> Seq<char> {
    before_first(host, ':')
}

/// Whether a `Host` header names a demo host.
pub fn is_demo_host(host: &str) -> (b: bool)
    ensures
        b == exists|i: int| 0 <= i < demo_hosts().len() && host_name(host@) == (#[trigger] demo_hosts()[i])@,
{
    let name = prefix_before(&chars_of(host), ':');
    let list = vec!["demo.scanopy.net", "localhost", "scanopy-staging.maya.cloud"];
    assert(list@ =~= demo_hosts());
    let mut i: usize = 0;
    while i < list.len()
        invariant
            i <= list@.len(),
            list@ == demo_hosts(),
            name@ == host_name(host@),
            forall|j: int| 0 <= j < i ==> host_name(host@) != (#[trigger] demo_hosts()[j])@,
        decreases list.len() - i,
    {
        if crate::text::chars_equal(&name, &chars_of(list[i])) {
            assert(host_name(host@) == (demo_hosts()[i as int])@);
            return true;
        }
        i = i + 1;
    }
    false
}

/// Whether a `Host` header names the dedicated demo site.
pub fn is_demo_only_host(host: &str) -> (b: bool)
    ensures
        b == (host_name(host@) == DEMO_ONLY_HOST@),
{
    let name = prefix_before(&chars_of(host), ':');
    crate::text::chars_equal(&name, &chars_of(DEMO_ONLY_HOST))
}

/// Why a sign-in was refused on this host.
#[derive(Debug, Clone, Copy, PartialEq, Eq, Structural)]
pub enum DemoLoginRefusal {
    /// The demo organization, away from a demo host.
    DemoAccountElsewhere,
    /// Another organization (or one that could not be read) on the demo
    /// site.
    OnlyDemoHere,
}

impl DemoLoginRefusal {
    /// What the user is told.
    pub fn message(&self) -> (s: &'static str)
        ensures
            s == (match *self {
                DemoLoginRefusal::DemoAccountElsewhere => "You can't log in to the demo account on this instance.",
                DemoLoginRefusal::OnlyDemoHere => "You can only log in to the demo account on this instance.",
            }),
    {
        match self {
            DemoLoginRefusal::DemoAccountElsewhere => "You can't log in to the demo account on this instance.",
            DemoLoginRefusal::OnlyDemoHere => "You can only log in to the demo account on this instance.",
        }
    }
}

/// Whether a sign-in may proceed on `host`, given whether the user's
/// organization is on the demo plan (`None` when it could not be read).
pub fn check_demo_login(plan_is_demo: Option<bool>, host: &str) -> (r: Result<(), DemoLoginRefusal>)
    ensures
        r == (match plan_is_demo {
            Some(true) => if exists|i: int| 0 <= i < demo_hosts().len() && host_name(host@) == (#[trigger] demo_hosts()[i])@ {
                Ok(())
            } else {
                Err(DemoLoginRefusal::DemoAccountElsewhere)
            },
            _ => if host_name(host@) == DEMO_ONLY_HOST@ {
                Err(DemoLoginRefusal::OnlyDemoHere)
            } else {
                Ok(())
            },
        }),
{
    match plan_is_demo {
        Some(true) => if is_demo_host(host) {
            Ok(())
        } else {
            Err(DemoLoginRefusal::DemoAccountElsewhere)
        },
        _ => if is_demo_only_host(host) {
            Err(DemoLoginRefusal::OnlyDemoHere)
        } else {
            Ok(())
        },
    }
}

/// Who sent a request, as far as the demo-mode gate cares: a user or an
/// api key of an organization (and whether it holds owner permissions), a
/// daemon (with its network's organization, when that could be read), or
/// anything else (the system, anonymous callers, external services).
pub enum RequestCaller {
    User { organization_id: u128, owner: bool },
    ApiKey { organization_id: u128, owner: bool },
    Daemon { organization_id: Option<u128> },
    Other,
}

/// What the demo-mode gate decides before looking at the organization.
#[derive(Debug, Clone, Copy, PartialEq, Eq, Structural)]
pub enum DemoGate {
    Allow,
    /// The organization's plan decides.
    CheckOrganization { organization_id: u128, owner: bool },
}

/// The first step of the demo-mode gate: safe methods (GET, HEAD, OPTIONS)
/// and the auth endpoints (`/api/auth/...`) always pass, as do callers
/// without an organization; otherwise the organization's plan decides.
pub fn demo_gate(method_is_safe: bool, path: &str, caller: &RequestCaller) -> (g: DemoGate)
    ensures
        g == (if method_is_safe || starts_with(path@, "/api/auth/"@) {
            DemoGate::Allow
        } else {
            match *caller {
                RequestCaller::User { organization_id, owner } => DemoGate::CheckOrganization { organization_id, owner },
                RequestCaller::ApiKey { organization_id, owner } => DemoGate::CheckOrganization { organization_id, owner },
                RequestCaller::Daemon { organization_id: Some(id) } => DemoGate::CheckOrganization { organization_id: id, owner: false },
                _ => DemoGate::Allow,
            }
        }),
{
    if method_is_safe {
        return DemoGate::Allow;
    }
    let prefix = chars_of("/api/auth/");
    if crate::text::has_prefix(&chars_of(path), &prefix) {
        return DemoGate::Allow;
    }
    match caller {
        RequestCaller::User { organization_id, owner } => DemoGate::CheckOrganization { organization_id: *organization_id, owner: *owner },
        RequestCaller::ApiKey { organization_id, owner } => DemoGate::CheckOrganization { organization_id: *organization_id, owner: *owner },
        RequestCaller::Daemon { organization_id: Some(id) } => DemoGate::CheckOrganization { organization_id: *id, owner: false },
        _ => DemoGate::Allow,
    }
}

/// The second step: a mutating request to an organization on the demo plan
/// is blocked unless the caller is an owner (a daemon never is); an
/// organization without a plan is not a demo.
pub fn demo_allows(plan_is_demo: Option<bool>, owner: bool) -> (b: bool)
    ensures
        b == !(plan_is_demo == Some(true) && !owner),
{
    match plan_is_demo {
        Some(true) => owner,
        _ => true,
    }
}

} // verus!
