//! What a credential targets, and whether two credentials' targets overlap
//! (a credential kind limited to one endpoint per host may not overlap
//! another of its integration).
use vstd::prelude::*;

use crate::net::IpAddress;

verus! {

/// A host a credential is assigned to, optionally limited to some of its IP
/// addresses (by id); `None` covers the whole host.
pub struct CredentialHostAssignment {
    pub host_id: u128,
    pub ip_address_ids: Option<Vec<u128>>,
}

/// A host target: the host and the IP address ids it is scoped to (`None`
/// for the whole host).
pub type HostTarget = (u128, Option<Seq<u128>>);

/// The targets of a credential: its networks, its hosts (each with its
/// scope), and its target IPs.
pub struct CredentialTargets {
    pub networks: Vec<u128>,
    pub hosts: Vec<(u128, Option<Vec<u128>>)>,
    pub ips: Vec<IpAddress>,
}

pub open spec fn host_view(h: (u128, Option<Vec<u128>>)) -> HostTarget {
    (h.0, match h.1 { Some(v) => Some(v@), None => None })
}

pub open spec fn shares<T>(a: Seq<T>, b: Seq<T>) -> bool {
    exists|i: int, j: int| 0 <= i < a.len() && 0 <= j < b.len() && a[i] == b[j]
}

/// Two host targets overlap when they are the same host and either covers
/// the whole host or their scopes share an address.
pub open spec fn hosts_overlap(a: HostTarget, b: HostTarget) -> bool {
    a.0 == b.0 && match (a.1, b.1) {
        (Some(x), Some(y)) => shares(x, y),
        _ => true,
    }
}

/// Two target sets overlap when they share a network, a target IP, or an
/// overlapping host.
pub open spec fn targets_overlap(a: CredentialTargets, b: CredentialTargets) -> bool {
    ||| shares(a.networks@, b.networks@)
    ||| shares(a.ips@, b.ips@)
    ||| exists|i: int, j: int| 0 <= i < a.hosts@.len() && 0 <= j < b.hosts@.len()
            && hosts_overlap(host_view(a.hosts@[i]), host_view(b.hosts@[j]))
}

/// A host target that covers its whole host overlaps every target on that
/// host, another whole-host target included; targets on different hosts
/// never overlap; two scoped targets on a host overlap exactly when their
/// scopes share an address.
pub proof fn lemma_host_overlap(h: u128, x: Seq<u128>, y: Seq<u128>, scope: Option<Seq<u128>>, g: u128)
    ensures
        hosts_overlap((h, None), (h, scope)),
        hosts_overlap((h, scope), (h, None)),
        hosts_overlap((h, None), (h, None)),
        g != h ==> !hosts_overlap((h, scope), (g, None)),
        hosts_overlap((h, Some(x)), (h, Some(y))) <==> (exists|i: int, j: int|
            0 <= i < x.len() && 0 <= j < y.len() && x[i] == y[j]),
{
}

/// Two credentials conflict when one has a whole-host target on a host that
/// the other targets at all.
pub proof fn lemma_whole_host_conflicts(a: CredentialTargets, b: CredentialTargets, i: int, j: int)
    requires
        0 <= i < a.hosts@.len(),
        0 <= j < b.hosts@.len(),
        a.hosts@[i].0 == b.hosts@[j].0,
        a.hosts@[i].1 is None || b.hosts@[j].1 is None,
    ensures
        targets_overlap(a, b),
        targets_overlap(b, a),
{
    assert(hosts_overlap(host_view(a.hosts@[i]), host_view(b.hosts@[j])));
    assert(hosts_overlap(host_view(b.hosts@[j]), host_view(a.hosts@[i])));
}

/// Two credentials overlap exactly when they name a common network, a
/// common target IP, or a common host on which one covers the whole host
/// or both are scoped to a common address.
pub proof fn lemma_overlap_cases(a: CredentialTargets, b: CredentialTargets)
    ensures
        targets_overlap(a, b) <==> ({
            ||| exists|i: int, j: int| 0 <= i < a.networks@.len() && 0 <= j < b.networks@.len() && a.networks@[i] == b.networks@[j]
            ||| exists|i: int, j: int| 0 <= i < a.ips@.len() && 0 <= j < b.ips@.len() && a.ips@[i] == b.ips@[j]
            ||| exists|i: int, j: int| #![trigger a.hosts@[i], b.hosts@[j]] 0 <= i < a.hosts@.len() && 0 <= j < b.hosts@.len()
                && a.hosts@[i].0 == b.hosts@[j].0 && (a.hosts@[i].1 is None || b.hosts@[j].1 is None || exists|k: int, l: int|
                0 <= k < a.hosts@[i].1->Some_0@.len() && 0 <= l < b.hosts@[j].1->Some_0@.len()
                && a.hosts@[i].1->Some_0@[k] == b.hosts@[j].1->Some_0@[l])
        }),
{
    let spec_hosts = exists|i: int, j: int| 0 <= i < a.hosts@.len() && 0 <= j < b.hosts@.len()
        && hosts_overlap(host_view(a.hosts@[i]), host_view(b.hosts@[j]));
    let plain_hosts = exists|i: int, j: int| #![trigger a.hosts@[i], b.hosts@[j]] 0 <= i < a.hosts@.len() && 0 <= j < b.hosts@.len()
        && a.hosts@[i].0 == b.hosts@[j].0 && (a.hosts@[i].1 is None || b.hosts@[j].1 is None || exists|k: int, l: int|
        0 <= k < a.hosts@[i].1->Some_0@.len() && 0 <= l < b.hosts@[j].1->Some_0@.len()
        && a.hosts@[i].1->Some_0@[k] == b.hosts@[j].1->Some_0@[l]);
    if spec_hosts {
        let (i, j) = choose|i: int, j: int| 0 <= i < a.hosts@.len() && 0 <= j < b.hosts@.len()
            && hosts_overlap(host_view(a.hosts@[i]), host_view(b.hosts@[j]));
        let x = a.hosts@[i];
        let y = b.hosts@[j];
        if x.1 is Some && y.1 is Some {
            assert(shares(x.1->Some_0@, y.1->Some_0@));
            let (k, l) = choose|k: int, l: int| 0 <= k < x.1->Some_0@.len() && 0 <= l < y.1->Some_0@.len()
                && x.1->Some_0@[k] == y.1->Some_0@[l];
            assert(x.1->Some_0@[k] == y.1->Some_0@[l]);
        }
        assert(plain_hosts);
    }
    if plain_hosts {
        let (i, j) = choose|i: int, j: int| #![trigger a.hosts@[i], b.hosts@[j]] 0 <= i < a.hosts@.len() && 0 <= j < b.hosts@.len()
            && a.hosts@[i].0 == b.hosts@[j].0 && (a.hosts@[i].1 is None || b.hosts@[j].1 is None || exists|k: int, l: int|
            0 <= k < a.hosts@[i].1->Some_0@.len() && 0 <= l < b.hosts@[j].1->Some_0@.len()
            && a.hosts@[i].1->Some_0@[k] == b.hosts@[j].1->Some_0@[l]);
        assert(hosts_overlap(host_view(a.hosts@[i]), host_view(b.hosts@[j])));
        assert(spec_hosts);
    }
}

/// Overlap does not depend on which credential is asked about.
pub proof fn lemma_overlap_symmetric(a: CredentialTargets, b: CredentialTargets)
    ensures
        targets_overlap(a, b) == targets_overlap(b, a),
{
    if shares(a.networks@, b.networks@) {
        let (i, j) = choose|i: int, j: int| 0 <= i < a.networks@.len() && 0 <= j < b.networks@.len() && a.networks@[i] == b.networks@[j];
        assert(b.networks@[j] == a.networks@[i]);
    }
    if shares(b.networks@, a.networks@) {
        let (i, j) = choose|i: int, j: int| 0 <= i < b.networks@.len() && 0 <= j < a.networks@.len() && b.networks@[i] == a.networks@[j];
        assert(a.networks@[j] == b.networks@[i]);
    }
    if shares(a.ips@, b.ips@) {
        let (i, j) = choose|i: int, j: int| 0 <= i < a.ips@.len() && 0 <= j < b.ips@.len() && a.ips@[i] == b.ips@[j];
        assert(b.ips@[j] == a.ips@[i]);
    }
    if shares(b.ips@, a.ips@) {
        let (i, j) = choose|i: int, j: int| 0 <= i < b.ips@.len() && 0 <= j < a.ips@.len() && b.ips@[i] == a.ips@[j];
        assert(a.ips@[j] == b.ips@[i]);
    }
    assert forall|x: HostTarget, y: HostTarget| hosts_overlap(x, y) implies hosts_overlap(y, x) by {
        match (x.1, y.1) {
            (Some(p), Some(q)) => {
                let (i, j) = choose|i: int, j: int| 0 <= i < p.len() && 0 <= j < q.len() && p[i] == q[j];
                assert(q[j] == p[i]);
            },
            _ => {},
        }
    }
    if exists|i: int, j: int| 0 <= i < a.hosts@.len() && 0 <= j < b.hosts@.len()
        && hosts_overlap(host_view(a.hosts@[i]), host_view(b.hosts@[j])) {
        let (i, j) = choose|i: int, j: int| 0 <= i < a.hosts@.len() && 0 <= j < b.hosts@.len()
            && hosts_overlap(host_view(a.hosts@[i]), host_view(b.hosts@[j]));
        assert(hosts_overlap(host_view(b.hosts@[j]), host_view(a.hosts@[i])));
    }
    if exists|i: int, j: int| 0 <= i < b.hosts@.len() && 0 <= j < a.hosts@.len()
        && hosts_overlap(host_view(b.hosts@[i]), host_view(a.hosts@[j])) {
        let (i, j) = choose|i: int, j: int| 0 <= i < b.hosts@.len() && 0 <= j < a.hosts@.len()
            && hosts_overlap(host_view(b.hosts@[i]), host_view(a.hosts@[j]));
        assert(hosts_overlap(host_view(a.hosts@[j]), host_view(b.hosts@[i])));
    }
}

fn share_u128(a: &Vec<u128>, b: &Vec<u128>) -> (r: bool)
    ensures
        r == shares(a@, b@),
{
    let mut i: usize = 0;
    while i < a.len()
        invariant
            i <= a@.len(),
            forall|k: int, j: int| 0 <= k < i && 0 <= j < b@.len() ==> a@[k] != b@[j],
        decreases a.len() - i,
    {
        let mut j: usize = 0;
        while j < b.len()
            invariant
                i < a@.len(),
                j <= b@.len(),
                forall|k: int, l: int| 0 <= k < i && 0 <= l < b@.len() ==> a@[k] != b@[l],
                forall|l: int| 0 <= l < j ==> a@[i as int] != b@[l],
            decreases b.len() - j,
        {
            if a[i] == b[j] {
                return true;
            }
            j = j + 1;
        }
        i = i + 1;
    }
    false
}

fn share_ips(a: &Vec<IpAddress>, b: &Vec<IpAddress>) -> (r: bool)
    ensures
        r == shares(a@, b@),
{
    let mut i: usize = 0;
    while i < a.len()
        invariant
            i <= a@.len(),
            forall|k: int, j: int| 0 <= k < i && 0 <= j < b@.len() ==> a@[k] != b@[j],
        decreases a.len() - i,
    {
        let mut j: usize = 0;
        while j < b.len()
            invariant
                i < a@.len(),
                j <= b@.len(),
                forall|k: int, l: int| 0 <= k < i && 0 <= l < b@.len() ==> a@[k] != b@[l],
                forall|l: int| 0 <= l < j ==> a@[i as int] != b@[l],
            decreases b.len() - j,
        {
            if a[i] == b[j] {
                return true;
            }
            j = j + 1;
        }
        i = i + 1;
    }
    false
}

fn host_pair_overlaps(a: &(u128, Option<Vec<u128>>), b: &(u128, Option<Vec<u128>>)) -> (r: bool)
    ensures
        r == hosts_overlap(host_view(*a), host_view(*b)),
{
    if a.0 != b.0 {
        return false;
    }
    match (&a.1, &b.1) {
        (Some(x), Some(y)) => share_u128(x, y),
        _ => true,
    }
}

impl CredentialTargets {
    /// The targets of a credential from its networks, host assignments and
    /// target IPs (none when absent).
    pub fn build(networks: &Vec<u128>, host_assignments: &Vec<CredentialHostAssignment>, target_ips: Option<&Vec<IpAddress>>) -> (t: CredentialTargets)
        ensures
            t.networks@ == networks@,
            t.hosts@.len() == host_assignments@.len(),
            forall|i: int| 0 <= i < host_assignments@.len() ==> host_view(#[trigger] t.hosts@[i]) == (
                host_assignments@[i].host_id,
                match host_assignments@[i].ip_address_ids { Some(v) => Some(v@), None => None },
            ),
            t.ips@ == (match target_ips { Some(v) => v@, None => Seq::empty() }),
    {
        let mut nets: Vec<u128> = Vec::new();
        let mut i: usize = 0;
        while i < networks.len()
            invariant
                i <= networks@.len(),
                nets@ == networks@.take(i as int),
            decreases networks.len() - i,
        {
            nets.push(networks[i]);
            assert(networks@.take(i + 1) =~= networks@.take(i as int).push(networks@[i as int]));
            i = i + 1;
        }
        assert(networks@.take(networks@.len() as int) =~= networks@);
        let mut hosts: Vec<(u128, Option<Vec<u128>>)> = Vec::new();
        let mut k: usize = 0;
        while k < host_assignments.len()
            invariant
                k <= host_assignments@.len(),
                hosts@.len() == k,
                forall|m: int| 0 <= m < k ==> host_view(#[trigger] hosts@[m]) == (
                    host_assignments@[m].host_id,
                    match host_assignments@[m].ip_address_ids { Some(v) => Some(v@), None => None },
                ),
            decreases host_assignments.len() - k,
        {
            let h = &host_assignments[k];
            let scope = match &h.ip_address_ids {
                Some(ids) => {
                    let mut c: Vec<u128> = Vec::new();
                    let mut j: usize = 0;
                    while j < ids.len()
                        invariant
                            j <= ids@.len(),
                            c@ == ids@.take(j as int),
                        decreases ids.len() - j,
                    {
                        c.push(ids[j]);
                        assert(ids@.take(j + 1) =~= ids@.take(j as int).push(ids@[j as int]));
                        j = j + 1;
                    }
                    assert(ids@.take(ids@.len() as int) =~= ids@);
                    Some(c)
                },
                None => None,
            };
            hosts.push((h.host_id, scope));
            k = k + 1;
        }
        let ips = match target_ips {
            Some(v) => {
                let mut c: Vec<IpAddress> = Vec::new();
                let mut j: usize = 0;
                while j < v.len()
                    invariant
                        j <= v@.len(),
                        c@ == v@.take(j as int),
                    decreases v.len() - j,
                {
                    c.push(v[j]);
                    assert(v@.take(j + 1) =~= v@.take(j as int).push(v@[j as int]));
                    j = j + 1;
                }
                assert(v@.take(v@.len() as int) =~= v@);
                c
            },
            None => Vec::new(),
        };
        CredentialTargets { networks: nets, hosts, ips }
    }

    /// Whether two target sets overlap: a shared network, a shared target
    /// IP, or a shared host where either side covers the whole host or
    /// their IP scopes intersect.
    pub fn overlaps(&self, other: &Self) -> (r: bool)
        ensures
            r == targets_overlap(*self, *other),
    {
        if share_u128(&self.networks, &other.networks) {
            return true;
        }
        if share_ips(&self.ips, &other.ips) {
            return true;
        }
        let mut i: usize = 0;
        while i < self.hosts.len()
            invariant
                i <= self.hosts@.len(),
                forall|k: int, j: int| 0 <= k < i && 0 <= j < other.hosts@.len()
                    ==> !hosts_overlap(host_view(#[trigger] self.hosts@[k]), host_view(#[trigger] other.hosts@[j])),
            decreases self.hosts.len() - i,
        {
            let mut j: usize = 0;
            while j < other.hosts.len()
                invariant
                    i < self.hosts@.len(),
                    j <= other.hosts@.len(),
                    forall|k: int, l: int| 0 <= k < i && 0 <= l < other.hosts@.len()
                        ==> !hosts_overlap(host_view(#[trigger] self.hosts@[k]), host_view(#[trigger] other.hosts@[l])),
                    forall|l: int| 0 <= l < j ==> !hosts_overlap(host_view(self.hosts@[i as int]), host_view(#[trigger] other.hosts@[l])),
                decreases other.hosts.len() - j,
            {
                if host_pair_overlaps(&self.hosts[i], &other.hosts[j]) {
                    return true;
                }
                j = j + 1;
            }
            i = i + 1;
        }
        false
    }
}

/// The first of `others` whose targets overlap the candidate's, if any.
pub fn first_conflict(candidate: &CredentialTargets, others: &Vec<CredentialTargets>) -> (r: Option<usize>)
    ensures
        match r {
            Some(i) => i < others@.len() && targets_overlap(*candidate, others@[i as int])
                && forall|j: int| 0 <= j < i ==> !targets_overlap(*candidate, #[trigger] others@[j]),
            None => forall|j: int| 0 <= j < others@.len() ==> !targets_overlap(*candidate, #[trigger] others@[j]),
        },
{
    let mut i: usize = 0;
    while i < others.len()
        invariant
            i <= others@.len(),
            forall|j: int| 0 <= j < i ==> !targets_overlap(*candidate, #[trigger] others@[j]),
        decreases others.len() - i,
    {
        if candidate.overlaps(&others[i]) {
            return Some(i);
        }
        i = i + 1;
    }
    None
}

} // verus!
