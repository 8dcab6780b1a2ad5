//! Daemon upkeep decisions: standby after inactivity, scoping
//! loopback-targeted credentials, warnings on plaintext urls, and the
//! unverified organization's daemon limit.
use vstd::prelude::*;

use crate::credentials::service::DependencySlot;
use crate::domains::{parse_url_host, parse_url_scheme, url_host, url_scheme};
use crate::net::IpAddress;

verus! {

/// Days without a finished discovery after which a daemon goes on standby.
pub const INACTIVITY_DAYS: i64 = 30;

/// The latest of the finish instants that are known.
pub open spec fn latest_of(finishes: Seq<Option<i64>>) -> Option<i64>
    decreases finishes.len(),
{
    if finishes.len() == 0 {
        None
    } else {
        let prev = latest_of(finishes.drop_last());
        match finishes.last() {
            Some(f) => match prev {
                Some(p) => if f > p { Some(f) } else { Some(p) },
                None => Some(f),
            },
            None => prev,
        }
    }
}

/// The most recent finish instant among a daemon's historical discoveries.
pub fn latest_finish(finishes: &Vec<Option<i64>>) -> (r: Option<i64>)
    ensures
        r == latest_of(finishes@),
{
    let mut best: Option<i64> = None;
    let mut i: usize = 0;
    while i < finishes.len()
        invariant
            i <= finishes@.len(),
            best == latest_of(finishes@.take(i as int)),
        decreases finishes.len() - i,
    {
        proof {
            assert(finishes@.take(i + 1).drop_last() =~= finishes@.take(i as int));
            assert(finishes@.take(i + 1).last() == finishes@[i as int]);
        }
        match finishes[i] {
            Some(f) => {
                best = match best {
                    Some(p) => if f > p { Some(f) } else { Some(p) },
                    None => Some(f),
                };
            },
            None => {},
        }
        i = i + 1;
    }
    assert(finishes@.take(finishes@.len() as int) =~= finishes@);
    best
}

/// Whether a daemon goes on standby: its last finished discovery predates
/// the cutoff, or it has none.
pub fn should_standby(last_finished: Option<i64>, cutoff: i64) -> (b: bool)
    ensures
        b == (match last_finished {
            Some(f) => f < cutoff,
            None => true,
        }),
{
    match last_finished {
        Some(f) => f < cutoff,
        None => true,
    }
}

/// The inactivity cutoff at `now`: thirty days earlier (Unix seconds).
pub fn inactivity_cutoff(now: i64) -> (c: i64)
    requires
        now >= i64::MIN + 30 * 86400,
    ensures
        c == now - 30 * 86400,
{
    now - 30 * 86400
}

/// A loopback address: `127.0.0.0/8` or `::1`.
pub open spec fn loopback(a: IpAddress) -> bool {
    match a {
        IpAddress::V4(o0, _, _, _) => o0 == 127,
        IpAddress::V6(bits) => bits == 1,
    }
}

pub fn is_loopback(a: &IpAddress) -> (b: bool)
    ensures
        b == loopback(*a),
{
    match a {
        IpAddress::V4(o0, _, _, _) => *o0 == 127,
        IpAddress::V6(bits) => *bits == 1,
    }
}

/// A credential assigned to a host, optionally limited to some of its IP
/// addresses (`None`: all of them).
pub struct CredentialAssignment {
    pub credential_id: u128,
    pub ip_address_ids: Option<Vec<u128>>,
}

pub open spec fn assignment_view(a: CredentialAssignment) -> (u128, Option<Seq<u128>>) {
    (a.credential_id, match a.ip_address_ids { Some(v) => Some(v@), None => None })
}

/// Scopes a host's unscoped assignments of credentials that target a
/// loopback address to the host's loopback IP address. `targets_loopback`
/// tells, per assignment, whether its credential targets a loopback
/// address. Returns the new assignments and whether any changed.
pub fn scope_loopback_assignments(assignments: Vec<CredentialAssignment>, targets_loopback: &Vec<bool>, loopback_id: u128) -> (r: (Vec<CredentialAssignment>, bool))
    requires
        targets_loopback@.len() == assignments@.len(),
    ensures
        r.0@.len() == assignments@.len(),
        forall|i: int| 0 <= i < assignments@.len() ==> assignment_view(#[trigger] r.0@[i]) == (
            if assignments@[i].ip_address_ids is None && targets_loopback@[i] {
                (assignments@[i].credential_id, Some(seq![loopback_id]))
            } else {
                assignment_view(assignments@[i])
            }),
        r.1 == exists|i: int| 0 <= i < assignments@.len() && assignments@[i].ip_address_ids is None && #[trigger] targets_loopback@[i],
{
    let ghost orig = assignments@;
    let mut out: Vec<CredentialAssignment> = Vec::new();
    let mut updated = false;
    let mut rest = assignments;
    let mut i: usize = 0;
    let n = rest.len();
    assert(rest@ == orig);
    while i < n
        invariant
            n == orig.len(),
            targets_loopback@.len() == n,
            i <= n,
            rest@ == orig.subrange(i as int, n as int),
            out@.len() == i,
            forall|k: int| 0 <= k < i ==> assignment_view(#[trigger] out@[k]) == (
                if orig[k].ip_address_ids is None && targets_loopback@[k] {
                    (orig[k].credential_id, Some(seq![loopback_id]))
                } else {
                    assignment_view(orig[k])
                }),
            updated == exists|k: int| 0 <= k < i && orig[k].ip_address_ids is None && #[trigger] targets_loopback@[k],
        decreases n - i,
    {
        let a = rest.remove(0);
        assert(rest@ =~= orig.subrange(i + 1, n as int));
        assert(a == orig[i as int]);
        if a.ip_address_ids.is_none() && targets_loopback[i] {
            out.push(CredentialAssignment { credential_id: a.credential_id, ip_address_ids: Some(vec![loopback_id]) });
            updated = true;
        } else {
            out.push(a);
        }
        proof {
            assert(assignment_view(out@[i as int]) == (
                if orig[i as int].ip_address_ids is None && targets_loopback@[i as int] {
                    (orig[i as int].credential_id, Some(seq![loopback_id]))
                } else {
                    assignment_view(orig[i as int])
                }));
        }
        i = i + 1;
    }
    (out, updated)
}

/// Whether a daemon url deserves a plaintext warning: it parses, its scheme
/// is not `https`, and its host is not the local machine.
pub fn insecure_daemon_url(scheme: &str, host: Option<&str>) -> (b: bool)
    ensures
        b == (scheme@ != "https"@ && match host {
            Some(h) => h@ != "localhost"@ && h@ != "127.0.0.1"@ && h@ != "::1"@,
            None => false,
        }),
{
    if crate::text::str_equal(scheme, "https") {
        return false;
    }
    match host {
        Some(h) => !crate::text::str_equal(h, "localhost") && !crate::text::str_equal(h, "127.0.0.1")
            && !crate::text::str_equal(h, "::1"),
        None => false,
    }
}

/// Whether a daemon url deserves a plaintext warning (see
/// `insecure_daemon_url`), read from the url text: a text that does not
/// parse, or has no host, gets none.
pub fn daemon_url_is_insecure(url: &str) -> (b: bool)
    ensures
        b == (match (url_scheme(url@), url_host(url@)) {
            (Some(sc), Some(h)) => sc != "https"@ && h != "localhost"@ && h != "127.0.0.1"@ && h != "::1"@,
            _ => false,
        }),
{
    let scheme = match parse_url_scheme(url) {
        Some(sc) => sc,
        None => { return false; },
    };
    match parse_url_host(url) {
        Some(h) => insecure_daemon_url(scheme.as_str(), Some(h.as_str())),
        None => insecure_daemon_url(scheme.as_str(), None),
    }
}

/// Why another daemon may not be added.
#[derive(Debug, Clone, Copy, PartialEq, Eq, Structural)]
pub enum DaemonLimitError {
    /// The organization has no verified owner and already has a daemon.
    EmailVerificationRequired,
}

/// The daemon limit of an organization without a verified owner: one
/// daemon, so the product can be tried before verifying.
pub fn check_unverified_daemon_limit(any_owner_verified: bool, network_count: usize, daemon_count: usize) -> (r: Result<(), DaemonLimitError>)
    ensures
        r is Err <==> (!any_owner_verified && network_count > 0 && daemon_count > 0),
{
    if any_owner_verified || network_count == 0 || daemon_count == 0 {
        Ok(())
    } else {
        Err(DaemonLimitError::EmailVerificationRequired)
    }
}

/// The daemon service's late-bound host service.
pub struct DaemonService<H> {
    host_service: DependencySlot<H>,
}

impl<H> DaemonService<H> {
    pub closed spec fn host(&self) -> Option<H> {
        self.host_service.held()
    }

    /// A service whose host service is not yet set.
    pub fn new() -> (s: Self)
        ensures
            s.host() is None,
    {
        DaemonService { host_service: DependencySlot::new() }
    }

    /// Sets the host service after construction; fails, handing it back, if
    /// one was already set.
    pub fn set_host_service(&mut self, service: H) -> (r: Result<(), H>)
        ensures
            match old(self).host() {
                None => r is Ok && final(self).host() == Some(service),
                Some(v) => r == Err::<(), H>(service) && final(self).host() == Some(v),
            },
    {
        self.host_service.set(service)
    }
}

/// The discovery phases a server-polled daemon is told about.
#[derive(Debug, Clone, Copy, PartialEq, Eq, Structural)]
pub enum DiscoveryPhaseEvent {
    Started,
    Cancelled,
    /// Any other phase (not subscribed to).
    Other,
}

/// What the server does with a discovery event for a daemon.
#[derive(Debug, Clone, Copy, PartialEq, Eq, Structural)]
pub enum DiscoveryEventAction {
    /// The daemon is not dialed by the server, is unreachable, or the phase
    /// needs nothing.
    Skip,
    /// The session waits until the daemon reports ready.
    Queue,
    /// Tell the daemon to cancel the session; with its api key when the
    /// daemon is recent enough to authenticate the server's calls.
    SendCancellation { with_api_key: bool },
}

/// The action for a discovery event: only reachable daemons the server
/// dials are handled; a started session is queued, a cancelled one is sent
/// to the daemon.
pub fn discovery_event_action(
    server_polled: bool,
    unreachable: bool,
    supports_full_server_poll: bool,
    phase: DiscoveryPhaseEvent,
) -> (a: DiscoveryEventAction)
    ensures
        a == (if !server_polled || unreachable {
            DiscoveryEventAction::Skip
        } else {
            match phase {
                DiscoveryPhaseEvent::Started => DiscoveryEventAction::Queue,
                DiscoveryPhaseEvent::Cancelled => DiscoveryEventAction::SendCancellation { with_api_key: supports_full_server_poll },
                DiscoveryPhaseEvent::Other => DiscoveryEventAction::Skip,
            }
        }),
{
    if !server_polled || unreachable {
        return DiscoveryEventAction::Skip;
    }
    match phase {
        DiscoveryPhaseEvent::Started => DiscoveryEventAction::Queue,
        DiscoveryPhaseEvent::Cancelled => DiscoveryEventAction::SendCancellation { with_api_key: supports_full_server_poll },
        DiscoveryPhaseEvent::Other => DiscoveryEventAction::Skip,
    }
}

} // verus!
