//! Per-kind credential mappings of a discovery, and how an integration
//! target is applied to them.
use vstd::prelude::*;

use crate::credentials::metadata::CredentialTypeDiscriminants;
use crate::net::{localhost, localhost_v4, IpAddress};

verus! {

/// An integration a discovery targets: a stored credential (at given IPs,
/// or network-wide when none are given), or a credential-less integration
/// that runs on the daemon's own host.
pub enum IntegrationTarget {
    Credentialed { credential_id: u128, ips: Vec<IpAddress> },
    Local { integration: CredentialTypeDiscriminants },
}

/// A credential to use at one IP, and the credential's id (the nil id for a
/// credential-less integration).
#[derive(Clone, Copy)]
pub struct IpOverride<P> {
    pub ip: IpAddress,
    pub credential: P,
    pub credential_id: u128,
}

/// The credentials of one kind for a discovery: a network-wide default and
/// per-IP overrides.
pub struct CredentialMapping<P> {
    pub default_credential: Option<P>,
    pub ip_overrides: Vec<IpOverride<P>>,
}

/// A mapping by its plain parts.
pub type MappingView<P> = (Option<P>, Seq<IpOverride<P>>);

pub open spec fn mapping_view<P>(m: CredentialMapping<P>) -> MappingView<P> {
    (m.default_credential, m.ip_overrides@)
}

/// The mappings by kind.
pub open spec fn table_view<P>(t: Seq<(CredentialTypeDiscriminants, CredentialMapping<P>)>) -> Seq<(CredentialTypeDiscriminants, MappingView<P>)> {
    t.map_values(|e: (CredentialTypeDiscriminants, CredentialMapping<P>)| (e.0, mapping_view(e.1)))
}

/// At most one mapping per kind.
pub open spec fn unique_kinds<P>(t: Seq<(CredentialTypeDiscriminants, MappingView<P>)>) -> bool {
    forall|i: int, j: int| 0 <= i < j < t.len() ==> t[i].0 != t[j].0
}

pub open spec fn has_kind<P>(t: Seq<(CredentialTypeDiscriminants, MappingView<P>)>, k: CredentialTypeDiscriminants) -> bool {
    exists|i: int| 0 <= i < t.len() && t[i].0 == k
}

/// `t`, with an empty mapping added for kind `k` when it has none.
pub open spec fn ensure_entry<P>(t: Seq<(CredentialTypeDiscriminants, MappingView<P>)>, k: CredentialTypeDiscriminants) -> Seq<(CredentialTypeDiscriminants, MappingView<P>)> {
    if has_kind(t, k) {
        t
    } else {
        t.push((k, (None, Seq::empty())))
    }
}

/// The position of kind `k` in `t` (meaningful when present).
pub open spec fn entry_index<P>(t: Seq<(CredentialTypeDiscriminants, MappingView<P>)>, k: CredentialTypeDiscriminants) -> int {
    choose|i: int| 0 <= i < t.len() && t[i].0 == k
}

/// `t` with the mapping of kind `k` (created empty when missing) replaced
/// by `f` of it.
pub open spec fn update_entry<P>(t: Seq<(CredentialTypeDiscriminants, MappingView<P>)>, k: CredentialTypeDiscriminants, f: spec_fn(MappingView<P>) -> MappingView<P>) -> Seq<(CredentialTypeDiscriminants, MappingView<P>)> {
    let t2 = ensure_entry(t, k);
    let i = entry_index(t2, k);
    t2.update(i, (k, f(t2[i].1)))
}

pub open spec fn has_override<P>(ovs: Seq<IpOverride<P>>, ip: IpAddress, cid: u128) -> bool {
    exists|j: int| 0 <= j < ovs.len() && ovs[j].ip == ip && ovs[j].credential_id == cid
}

pub open spec fn has_ip<P>(ovs: Seq<IpOverride<P>>, ip: IpAddress) -> bool {
    exists|j: int| 0 <= j < ovs.len() && ovs[j].ip == ip
}

/// `ovs` with an override of credential `cid` for each of `ips`, in order,
/// skipping an IP that already has one for that credential.
pub open spec fn add_overrides<P>(ovs: Seq<IpOverride<P>>, ips: Seq<IpAddress>, cid: u128, payload: P) -> Seq<IpOverride<P>>
    decreases ips.len(),
{
    if ips.len() == 0 {
        ovs
    } else {
        let prev = add_overrides(ovs, ips.drop_last(), cid, payload);
        let ip = ips.last();
        if has_override(prev, ip, cid) {
            prev
        } else {
            prev.push(IpOverride { ip, credential: payload, credential_id: cid })
        }
    }
}

/// What applying a credentialed target does to its kind's mapping.
pub open spec fn credentialed_update<P>(ips: Seq<IpAddress>, cid: u128, payload: P) -> spec_fn(MappingView<P>) -> MappingView<P> {
    |mv: MappingView<P>| if ips.len() == 0 {
        (if mv.0 is None { Some(payload) } else { mv.0 }, mv.1)
    } else {
        (mv.0, add_overrides(mv.1, ips, cid, payload))
    }
}

/// What applying a local target does to its kind's mapping.
pub open spec fn local_update<P>(payload: P) -> spec_fn(MappingView<P>) -> MappingView<P> {
    |mv: MappingView<P>| if has_ip(mv.1, localhost_v4()) {
        mv
    } else {
        (mv.0, mv.1.push(IpOverride { ip: localhost_v4(), credential: payload, credential_id: 0 }))
    }
}

/// The mappings after applying a target. A credentialed target whose
/// credential was not found (`resolved` is `None`) changes nothing; one
/// without IPs sets its kind's default when unset; one with IPs adds an
/// override per IP not already overridden by that credential. A local
/// target adds its integration's override at `127.0.0.1` (with the nil
/// credential id) unless that address is already overridden.
pub open spec fn applied<P>(
    t: Seq<(CredentialTypeDiscriminants, MappingView<P>)>,
    target: IntegrationTarget,
    resolved: Option<(CredentialTypeDiscriminants, P)>,
    local_payload: P,
) -> Seq<(CredentialTypeDiscriminants, MappingView<P>)> {
    match target {
        IntegrationTarget::Credentialed { credential_id, ips } => match resolved {
            None => t,
            Some(r) => update_entry(t, r.0, credentialed_update(ips@, credential_id, r.1)),
        },
        IntegrationTarget::Local { integration } => update_entry(t, integration, local_update(local_payload)),
    }
}

proof fn lemma_add_overrides_prefix<P>(ovs: Seq<IpOverride<P>>, ips: Seq<IpAddress>, cid: u128, payload: P)
    ensures
        add_overrides(ovs, ips, cid, payload).len() >= ovs.len(),
        forall|j: int| 0 <= j < ovs.len() ==> #[trigger] add_overrides(ovs, ips, cid, payload)[j] == ovs[j],
    decreases ips.len(),
{
    if ips.len() > 0 {
        lemma_add_overrides_prefix(ovs, ips.drop_last(), cid, payload);
    }
}

proof fn lemma_add_overrides_covers<P>(ovs: Seq<IpOverride<P>>, ips: Seq<IpAddress>, cid: u128, payload: P)
    ensures
        forall|k: int| 0 <= k < ips.len() ==> has_override(add_overrides(ovs, ips, cid, payload), #[trigger] ips[k], cid),
    decreases ips.len(),
{
    if ips.len() > 0 {
        let rest = ips.drop_last();
        lemma_add_overrides_covers(ovs, rest, cid, payload);
        let prev = add_overrides(ovs, rest, cid, payload);
        let res = add_overrides(ovs, ips, cid, payload);
        assert forall|k: int| 0 <= k < ips.len() implies has_override(res, #[trigger] ips[k], cid) by {
            if k < ips.len() - 1 {
                assert(ips[k] == rest[k]);
                assert(has_override(prev, rest[k], cid));
                let j = choose|j: int| 0 <= j < prev.len() && prev[j].ip == rest[k] && prev[j].credential_id == cid;
                assert(res[j] == prev[j]);
            } else {
                if !has_override(prev, ips.last(), cid) {
                    assert(res[prev.len() as int].ip == ips.last());
                }
            }
        }
    }
}

proof fn lemma_add_overrides_noop<P>(ovs: Seq<IpOverride<P>>, ips: Seq<IpAddress>, cid: u128, payload: P)
    requires
        forall|k: int| 0 <= k < ips.len() ==> has_override(ovs, #[trigger] ips[k], cid),
    ensures
        add_overrides(ovs, ips, cid, payload) == ovs,
    decreases ips.len(),
{
    if ips.len() > 0 {
        let rest = ips.drop_last();
        assert forall|k: int| 0 <= k < rest.len() implies has_override(ovs, #[trigger] rest[k], cid) by {
            assert(rest[k] == ips[k]);
        }
        lemma_add_overrides_noop(ovs, rest, cid, payload);
        assert(has_override(ovs, ips[ips.len() - 1], cid));
    }
}

/// Adding the same overrides twice adds nothing the second time.
pub proof fn lemma_add_overrides_idempotent<P>(ovs: Seq<IpOverride<P>>, ips: Seq<IpAddress>, cid: u128, payload: P)
    ensures
        add_overrides(add_overrides(ovs, ips, cid, payload), ips, cid, payload) == add_overrides(ovs, ips, cid, payload),
{
    lemma_add_overrides_covers(ovs, ips, cid, payload);
    lemma_add_overrides_noop(add_overrides(ovs, ips, cid, payload), ips, cid, payload);
}

proof fn lemma_update_entry<P>(t: Seq<(CredentialTypeDiscriminants, MappingView<P>)>, k: CredentialTypeDiscriminants, f: spec_fn(MappingView<P>) -> MappingView<P>)
    requires
        unique_kinds(t),
    ensures
        unique_kinds(update_entry(t, k, f)),
        has_kind(update_entry(t, k, f), k),
        entry_index(update_entry(t, k, f), k) == entry_index(ensure_entry(t, k), k),
        update_entry(t, k, f).len() == ensure_entry(t, k).len(),
        0 <= entry_index(ensure_entry(t, k), k) < ensure_entry(t, k).len(),
        ensure_entry(t, k)[entry_index(ensure_entry(t, k), k)].0 == k,
        update_entry(t, k, f)[entry_index(ensure_entry(t, k), k)] == (k, f(ensure_entry(t, k)[entry_index(ensure_entry(t, k), k)].1)),
{
    let t2 = ensure_entry(t, k);
    if !has_kind(t, k) {
        assert(t2[t.len() as int].0 == k);
    }
    assert(has_kind(t2, k));
    let i = entry_index(t2, k);
    let t3 = t2.update(i, (k, f(t2[i].1)));
    assert(unique_kinds(t2));
    assert(t3[i].0 == k);
    assert(has_kind(t3, k));
    let i3 = entry_index(t3, k);
    assert(t3[i3].0 == k);
    assert(i3 == i);
}

/// Applying the same target twice leaves the mappings as one application
/// does: targeting is re-applied on every scan without duplicating
/// overrides. Kinds stay unique.
pub proof fn lemma_apply_idempotent<P>(
    t: Seq<(CredentialTypeDiscriminants, MappingView<P>)>,
    target: IntegrationTarget,
    resolved: Option<(CredentialTypeDiscriminants, P)>,
    local_payload: P,
)
    requires
        unique_kinds(t),
    ensures
        unique_kinds(applied(t, target, resolved, local_payload)),
        applied(applied(t, target, resolved, local_payload), target, resolved, local_payload)
            == applied(t, target, resolved, local_payload),
{
    let once = applied(t, target, resolved, local_payload);
    match target {
        IntegrationTarget::Credentialed { credential_id, ips } => match resolved {
            None => {},
            Some(r) => {
                let f = credentialed_update(ips@, credential_id, r.1);
                lemma_update_entry(t, r.0, f);
                lemma_update_entry(once, r.0, f);
                let i = entry_index(ensure_entry(t, r.0), r.0);
                assert(ensure_entry(once, r.0) == once);
                let mv = ensure_entry(t, r.0)[i].1;
                assert(once[i].1 == f(mv));
                if ips@.len() > 0 {
                    lemma_add_overrides_idempotent(mv.1, ips@, credential_id, r.1);
                }
                assert(f(f(mv)) == f(mv));
                assert(applied(once, target, resolved, local_payload) =~= once);
            },
        },
        IntegrationTarget::Local { integration } => {
            let f = local_update(local_payload);
            lemma_update_entry(t, integration, f);
            lemma_update_entry(once, integration, f);
            let i = entry_index(ensure_entry(t, integration), integration);
            assert(ensure_entry(once, integration) == once);
            let mv = ensure_entry(t, integration)[i].1;
            assert(once[i].1 == f(mv));
            if !has_ip(mv.1, localhost_v4()) {
                assert(f(mv).1[mv.1.len() as int].ip == localhost_v4());
            }
            assert(f(f(mv)) == f(mv));
            assert(applied(once, target, resolved, local_payload) =~= once);
        },
    }
}

fn overrides_contain<P: Copy>(ovs: &Vec<IpOverride<P>>, ip: IpAddress, cid: Option<u128>) -> (r: bool)
    ensures
        r == (match cid {
            Some(c) => has_override(ovs@, ip, c),
            None => has_ip(ovs@, ip),
        }),
{
    let mut j: usize = 0;
    while j < ovs.len()
        invariant
            j <= ovs@.len(),
            forall|m: int| 0 <= m < j ==> !(ovs@[m].ip == ip && match cid {
                Some(c) => ovs@[m].credential_id == c,
                None => true,
            }),
        decreases ovs.len() - j,
    {
        let o = &ovs[j];
        let hit = o.ip == ip && match cid {
            Some(c) => o.credential_id == c,
            None => true,
        };
        if hit {
            return true;
        }
        j = j + 1;
    }
    false
}

/// Finds the mapping of kind `k`, adding an empty one when missing.
fn entry_for<P: Copy>(t: &mut Vec<(CredentialTypeDiscriminants, CredentialMapping<P>)>, k: CredentialTypeDiscriminants) -> (i: usize)
    requires
        unique_kinds(table_view(old(t)@)),
    ensures
        table_view(final(t)@) == ensure_entry(table_view(old(t)@), k),
        i == entry_index(ensure_entry(table_view(old(t)@), k), k),
        i < final(t)@.len(),
        final(t)@[i as int].0 == k,
{
    let ghost tv = table_view(t@);
    let mut i: usize = 0;
    while i < t.len()
        invariant
            i <= t@.len(),
            t@ == old(t)@,
            tv == table_view(t@),
            unique_kinds(tv),
            forall|m: int| 0 <= m < i ==> t@[m].0 != k,
        decreases t.len() - i,
    {
        if t[i].0 == k {
            proof {
                assert(tv[i as int].0 == k);
                assert(has_kind(tv, k));
                let e = entry_index(tv, k);
                assert(tv[e].0 == k);
                assert(unique_kinds(tv));
                assert(e == i);
            }
            return i;
        }
        i = i + 1;
    }
    proof {
        assert(!has_kind(tv, k)) by {
            if has_kind(tv, k) {
                let m = choose|m: int| 0 <= m < tv.len() && tv[m].0 == k;
                assert(t@[m].0 == k);
            }
        }
    }
    t.push((k, CredentialMapping { default_credential: None, ip_overrides: Vec::new() }));
    proof {
        let t2 = ensure_entry(tv, k);
        assert(table_view(t@) =~= t2);
        assert(t2[i as int].0 == k);
        let e = entry_index(t2, k);
        assert(t2[e].0 == k);
        if e != i as int {
            assert(tv[e].0 == k);
        }
    }
    i
}

/// Applies one integration target to the mappings by kind (see `applied`).
/// `resolved` is the kind and query payload of the targeted credential,
/// when it was found; `local_payload` is the payload of a local target's
/// integration. Idempotent (see `lemma_apply_idempotent`).
fn apply_integration_target_entries<P: Copy>(
    mappings_by_type: &mut Vec<(CredentialTypeDiscriminants, CredentialMapping<P>)>,
    target: &IntegrationTarget,
    resolved: Option<(CredentialTypeDiscriminants, P)>,
    local_payload: P,
)
    requires
        unique_kinds(table_view(old(mappings_by_type)@)),
    ensures
        table_view(final(mappings_by_type)@) == applied(table_view(old(mappings_by_type)@), *target, resolved, local_payload),
        unique_kinds(table_view(final(mappings_by_type)@)),
{
    let ghost t0 = table_view(mappings_by_type@);
    proof {
        lemma_apply_idempotent(t0, *target, resolved, local_payload);
    }
    match target {
        IntegrationTarget::Credentialed { credential_id, ips } => {
            let (kind, payload) = match resolved {
                Some(r) => r,
                None => {
                    return;
                },
            };
            let ghost f = credentialed_update(ips@, *credential_id, payload);
            let idx = entry_for(mappings_by_type, kind);
            let ghost t1 = table_view(mappings_by_type@);
            let (k, mut mapping) = mappings_by_type.remove(idx);
            let ghost mv = mapping_view(mapping);
            assert(mv == t1[idx as int].1);
            if ips.len() == 0 {
                if mapping.default_credential.is_none() {
                    mapping.default_credential = Some(payload);
                }
            } else {
                let mut n: usize = 0;
                while n < ips.len()
                    invariant
                        n <= ips@.len(),
                        mapping.default_credential == mv.0,
                        mapping.ip_overrides@ == add_overrides(mv.1, ips@.take(n as int), *credential_id, payload),
                    decreases ips.len() - n,
                {
                    let ip = ips[n];
                    proof {
                        assert(ips@.take(n + 1).drop_last() =~= ips@.take(n as int));
                        assert(ips@.take(n + 1).last() == ip);
                    }
                    if !overrides_contain(&mapping.ip_overrides, ip, Some(*credential_id)) {
                        mapping.ip_overrides.push(IpOverride { ip, credential: payload, credential_id: *credential_id });
                    }
                    n = n + 1;
                }
                assert(ips@.take(ips@.len() as int) =~= ips@);
            }
            assert(mapping_view(mapping) == f(mv));
            mappings_by_type.insert(idx, (k, mapping));
            proof {
                lemma_update_entry(t0, kind, f);
                assert(table_view(mappings_by_type@) =~= update_entry(t0, kind, f));
            }
        },
        IntegrationTarget::Local { integration } => {
            let ghost f = local_update(local_payload);
            let idx = entry_for(mappings_by_type, *integration);
            let ghost t1 = table_view(mappings_by_type@);
            let (k, mut mapping) = mappings_by_type.remove(idx);
            let ghost mv = mapping_view(mapping);
            assert(mv == t1[idx as int].1);
            let home = localhost();
            if !overrides_contain(&mapping.ip_overrides, home, None) {
                mapping.ip_overrides.push(IpOverride { ip: home, credential: local_payload, credential_id: 0 });
            }
            assert(mapping_view(mapping) == f(mv));
            mappings_by_type.insert(idx, (k, mapping));
            proof {
                lemma_update_entry(t0, *integration, f);
                assert(table_view(mappings_by_type@) =~= update_entry(t0, *integration, f));
            }
        },
    }
}

/// What a network-level credential does to its kind's mapping: it becomes
/// the default when the kind has none.
pub open spec fn network_default_update<P>(payload: P) -> spec_fn(MappingView<P>) -> MappingView<P> {
    |mv: MappingView<P>| (if mv.0 is None { Some(payload) } else { mv.0 }, mv.1)
}

/// Applies a credential assigned to the whole network: the default of its
/// kind, unless an earlier credential of that kind already is.
fn apply_network_credential_entries<P: Copy>(
    mappings_by_type: &mut Vec<(CredentialTypeDiscriminants, CredentialMapping<P>)>,
    kind: CredentialTypeDiscriminants,
    payload: P,
)
    requires
        unique_kinds(table_view(old(mappings_by_type)@)),
    ensures
        table_view(final(mappings_by_type)@) == update_entry(table_view(old(mappings_by_type)@), kind, network_default_update(payload)),
        unique_kinds(table_view(final(mappings_by_type)@)),
{
    let ghost t0 = table_view(mappings_by_type@);
    let ghost f = network_default_update(payload);
    let idx = entry_for(mappings_by_type, kind);
    let ghost t1 = table_view(mappings_by_type@);
    let (k, mut mapping) = mappings_by_type.remove(idx);
    let ghost mv = mapping_view(mapping);
    assert(mv == t1[idx as int].1);
    if mapping.default_credential.is_none() {
        mapping.default_credential = Some(payload);
    }
    assert(mapping_view(mapping) == f(mv));
    mappings_by_type.insert(idx, (k, mapping));
    proof {
        lemma_update_entry(t0, kind, f);
        assert(table_view(mappings_by_type@) =~= update_entry(t0, kind, f));
    }
}

/// An IP address of a network: its id, the host it belongs to, and the
/// address.
#[derive(Clone, Copy)]
pub struct NetworkIpAddress {
    pub id: u128,
    pub host_id: u128,
    pub ip: IpAddress,
}

/// Whether a host assignment covers an address: it is the host's, and the
/// assignment is for the whole host or lists the address's id.
pub open spec fn covers(a: NetworkIpAddress, host_id: u128, scope: Option<Seq<u128>>) -> bool {
    a.host_id == host_id && match scope {
        Some(ids) => ids.contains(a.id),
        None => true,
    }
}

/// The addresses a host assignment covers, in the network's order.
pub open spec fn covered_ips(addrs: Seq<NetworkIpAddress>, host_id: u128, scope: Option<Seq<u128>>) -> Seq<IpAddress>
    decreases addrs.len(),
{
    if addrs.len() == 0 {
        Seq::empty()
    } else {
        covered_ips(addrs.drop_last(), host_id, scope) + if covers(addrs.last(), host_id, scope) {
            seq![addrs.last().ip]
        } else {
            Seq::empty()
        }
    }
}

/// What a host assignment does to its kind's mapping: an override of the
/// credential for every covered address, appended in order.
pub open spec fn host_update<P>(ips: Seq<IpAddress>, cid: u128, payload: P) -> spec_fn(MappingView<P>) -> MappingView<P> {
    |mv: MappingView<P>| (mv.0, mv.1 + overrides_for(ips, cid, payload))
}

/// An override of credential `cid` at each of `ips`, in order.
pub open spec fn overrides_for<P>(ips: Seq<IpAddress>, cid: u128, payload: P) -> Seq<IpOverride<P>> {
    ips.map_values(|ip: IpAddress| IpOverride { ip, credential: payload, credential_id: cid })
}

fn scope_contains(ids: &Vec<u128>, id: u128) -> (b: bool)
    ensures
        b == ids@.contains(id),
{
    let mut i: usize = 0;
    while i < ids.len()
        invariant
            i <= ids@.len(),
            forall|j: int| 0 <= j < i ==> ids@[j] != id,
        decreases ids.len() - i,
    {
        if ids[i] == id {
            assert(ids@[i as int] == id);
            return true;
        }
        i = i + 1;
    }
    false
}

/// Applies a credential assigned to a host (to all of its addresses, or to
/// those listed in `scope`): an override at each covered address of the
/// network, added to the mapping of the credential's kind.
fn apply_host_assignment_entries<P: Copy>(
    mappings_by_type: &mut Vec<(CredentialTypeDiscriminants, CredentialMapping<P>)>,
    kind: CredentialTypeDiscriminants,
    payload: P,
    credential_id: u128,
    host_id: u128,
    scope: Option<&Vec<u128>>,
    addresses: &Vec<NetworkIpAddress>,
)
    requires
        unique_kinds(table_view(old(mappings_by_type)@)),
    ensures
        table_view(final(mappings_by_type)@) == update_entry(
            table_view(old(mappings_by_type)@),
            kind,
            host_update(covered_ips(addresses@, host_id, match scope { Some(v) => Some(v@), None => None }), credential_id, payload),
        ),
        unique_kinds(table_view(final(mappings_by_type)@)),
{
    let ghost sv = match scope { Some(v) => Some(v@), None => None };
    let ghost t0 = table_view(mappings_by_type@);
    let ghost ips = covered_ips(addresses@, host_id, sv);
    let ghost f = host_update(ips, credential_id, payload);
    let idx = entry_for(mappings_by_type, kind);
    let ghost t1 = table_view(mappings_by_type@);
    let (k, mut mapping) = mappings_by_type.remove(idx);
    let ghost mv = mapping_view(mapping);
    assert(mv == t1[idx as int].1);
    let mut n: usize = 0;
    while n < addresses.len()
        invariant
            n <= addresses@.len(),
            mapping.default_credential == mv.0,
            mapping.ip_overrides@ == mv.1 + overrides_for(covered_ips(addresses@.take(n as int), host_id, sv), credential_id, payload),
            sv == (match scope { Some(v) => Some(v@), None => None }),
        decreases addresses.len() - n,
    {
        let a = addresses[n];
        let ghost before = covered_ips(addresses@.take(n as int), host_id, sv);
        proof {
            assert(addresses@.take(n + 1).drop_last() =~= addresses@.take(n as int));
            assert(addresses@.take(n + 1).last() == a);
        }
        let covered = a.host_id == host_id && match scope {
            Some(ids) => scope_contains(ids, a.id),
            None => true,
        };
        assert(covered == covers(a, host_id, sv));
        if covered {
            let ghost old_ovs = mapping.ip_overrides@;
            mapping.ip_overrides.push(IpOverride { ip: a.ip, credential: payload, credential_id });
            let ghost o = IpOverride { ip: a.ip, credential: payload, credential_id };
            assert(overrides_for(before.push(a.ip), credential_id, payload) =~= overrides_for(before, credential_id, payload).push(o));
            assert(covered_ips(addresses@.take(n + 1), host_id, sv) =~= before.push(a.ip));
            assert(mapping.ip_overrides@ =~= old_ovs.push(o));
            assert(old_ovs.push(o) =~= mv.1 + overrides_for(before.push(a.ip), credential_id, payload));
        } else {
            assert(covered_ips(addresses@.take(n + 1), host_id, sv) =~= before);
        }
        n = n + 1;
    }
    assert(addresses@.take(addresses@.len() as int) =~= addresses@);
    assert(mapping_view(mapping) =~= f(mv));
    mappings_by_type.insert(idx, (k, mapping));
    proof {
        lemma_update_entry(t0, kind, f);
        assert(table_view(mappings_by_type@) =~= update_entry(t0, kind, f));
    }
}

// ---------------------------------------------------------------------------
// The mappings of a discovery
// ---------------------------------------------------------------------------

/// The credential mappings of a discovery, by kind: at most one mapping per
/// kind.
pub struct CredentialMappings<P> {
    entries: Vec<(CredentialTypeDiscriminants, CredentialMapping<P>)>,
}

impl<P> CredentialMappings<P> {
    /// The mappings by kind, in the order the kinds were first added.
    pub closed spec fn table(&self) -> Seq<(CredentialTypeDiscriminants, MappingView<P>)> {
        table_view(self.entries@)
    }

    #[verifier::type_invariant]
    spec fn kinds_unique(&self) -> bool {
        unique_kinds(table_view(self.entries@))
    }

    /// No mappings yet.
    pub fn new() -> (m: Self)
        ensures
            m.table() == Seq::<(CredentialTypeDiscriminants, MappingView<P>)>::empty(),
    {
        let m = CredentialMappings { entries: Vec::new() };
        assert(table_view(m.entries@) =~= Seq::<(CredentialTypeDiscriminants, MappingView<P>)>::empty());
        m
    }

    /// How many kinds have a mapping.
    pub fn len(&self) -> (n: usize)
        ensures
            n == self.table().len(),
            unique_kinds(self.table()),
    {
        proof {
            use_type_invariant(self);
        }
        self.entries.len()
    }

    /// Whether no kind has a mapping.
    pub fn is_empty(&self) -> (b: bool)
        ensures
            b == (self.table().len() == 0),
    {
        self.entries.len() == 0
    }

    /// The mapping of kind `k`, if there is one.
    pub fn get(&self, k: CredentialTypeDiscriminants) -> (r: Option<&CredentialMapping<P>>)
        ensures
            match r {
                Some(m) => has_kind(self.table(), k) && mapping_view(*m) == self.table()[entry_index(self.table(), k)].1,
                None => !has_kind(self.table(), k),
            },
    {
        proof {
            use_type_invariant(self);
        }
        let ghost tv = table_view(self.entries@);
        let mut i: usize = 0;
        while i < self.entries.len()
            invariant
                i <= self.entries@.len(),
                tv == table_view(self.entries@),
                unique_kinds(tv),
                forall|m: int| 0 <= m < i ==> self.entries@[m].0 != k,
            decreases self.entries.len() - i,
        {
            if self.entries[i].0 == k {
                proof {
                    assert(tv[i as int].0 == k);
                    let e = entry_index(tv, k);
                    assert(tv[e].0 == k);
                    assert(e == i);
                }
                return Some(&self.entries[i].1);
            }
            i = i + 1;
        }
        proof {
            if has_kind(tv, k) {
                let m = choose|m: int| 0 <= m < tv.len() && tv[m].0 == k;
                assert(self.entries@[m].0 == k);
            }
        }
        None
    }
}

/// Applies one integration target to the mappings by kind (see `applied`).
/// `resolved` is the kind and query payload of the targeted credential,
/// when it was found; `local_payload` is the payload of a local target's
/// integration. Idempotent (see `lemma_apply_idempotent`).
pub fn apply_integration_target<P: Copy>(
    mappings_by_type: &mut CredentialMappings<P>,
    target: &IntegrationTarget,
    resolved: Option<(CredentialTypeDiscriminants, P)>,
    local_payload: P,
)
    ensures
        final(mappings_by_type).table() == applied(old(mappings_by_type).table(), *target, resolved, local_payload),
        unique_kinds(final(mappings_by_type).table()),
{
    proof {
        use_type_invariant(&*mappings_by_type);
    }
    let mut entries: Vec<(CredentialTypeDiscriminants, CredentialMapping<P>)> = Vec::new();
    assert(table_view(entries@) =~= Seq::<(CredentialTypeDiscriminants, MappingView<P>)>::empty());
    std::mem::swap(&mut entries, &mut mappings_by_type.entries);
    apply_integration_target_entries(&mut entries, target, resolved, local_payload);
    mappings_by_type.entries = entries;
}

/// Applies a credential assigned to the whole network: the default of its
/// kind, unless an earlier credential of that kind already is.
pub fn apply_network_credential<P: Copy>(
    mappings_by_type: &mut CredentialMappings<P>,
    kind: CredentialTypeDiscriminants,
    payload: P,
)
    ensures
        final(mappings_by_type).table() == update_entry(old(mappings_by_type).table(), kind, network_default_update(payload)),
        unique_kinds(final(mappings_by_type).table()),
{
    proof {
        use_type_invariant(&*mappings_by_type);
    }
    let mut entries: Vec<(CredentialTypeDiscriminants, CredentialMapping<P>)> = Vec::new();
    assert(table_view(entries@) =~= Seq::<(CredentialTypeDiscriminants, MappingView<P>)>::empty());
    std::mem::swap(&mut entries, &mut mappings_by_type.entries);
    apply_network_credential_entries(&mut entries, kind, payload);
    mappings_by_type.entries = entries;
}

/// Applies a credential assigned to a host (to all of its addresses, or to
/// those listed in `scope`): an override at each covered address of the
/// network, added to the mapping of the credential's kind.
pub fn apply_host_assignment<P: Copy>(
    mappings_by_type: &mut CredentialMappings<P>,
    kind: CredentialTypeDiscriminants,
    payload: P,
    credential_id: u128,
    host_id: u128,
    scope: Option<&Vec<u128>>,
    addresses: &Vec<NetworkIpAddress>,
)
    ensures
        final(mappings_by_type).table() == update_entry(
            old(mappings_by_type).table(),
            kind,
            host_update(covered_ips(addresses@, host_id, match scope { Some(v) => Some(v@), None => None }), credential_id, payload),
        ),
        unique_kinds(final(mappings_by_type).table()),
{
    proof {
        use_type_invariant(&*mappings_by_type);
    }
    let mut entries: Vec<(CredentialTypeDiscriminants, CredentialMapping<P>)> = Vec::new();
    assert(table_view(entries@) =~= Seq::<(CredentialTypeDiscriminants, MappingView<P>)>::empty());
    std::mem::swap(&mut entries, &mut mappings_by_type.entries);
    apply_host_assignment_entries(&mut entries, kind, payload, credential_id, host_id, scope, addresses);
    mappings_by_type.entries = entries;
}

} // verus!
