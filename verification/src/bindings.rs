//! Bindings: which IP address or port a service is present at, and the
//! rules that keep a service's bindings consistent.
use vstd::prelude::*;

use crate::ids::{format_uuid, uuid_text};

verus! {

/// What a binding attaches a service to: an IP address (no specific
/// port), or a port on one IP address or (with no address) on all of them.
#[derive(Debug, Clone, Copy, PartialEq, Eq, Structural, Hash)]
pub enum BindingType {
    IPAddress { ip_address_id: u128 },
    Port { port_id: u128, ip_address_id: Option<u128> },
}

impl Default for BindingType {
    fn default() -> (b: Self)
        ensures
            b == (BindingType::Port { port_id: 0, ip_address_id: Some(0) }),
    {
        BindingType::Port { port_id: 0, ip_address_id: Some(0) }
    }
}

/// The data of a binding: its service, network and type.
#[derive(Debug, Clone, Copy, PartialEq, Eq, Structural, Hash)]
pub struct BindingBase {
    pub service_id: u128,
    pub network_id: u128,
    pub binding_type: BindingType,
}

impl BindingBase {
    pub fn new(service_id: u128, network_id: u128, binding_type: BindingType) -> (b: Self)
        ensures
            b == (BindingBase { service_id, network_id, binding_type }),
    {
        BindingBase { service_id, network_id, binding_type }
    }

    /// A binding found by discovery before its service is known (nil
    /// service and network).
    pub fn new_serviceless(binding_type: BindingType) -> (b: Self)
        ensures
            b == (BindingBase { service_id: 0, network_id: 0, binding_type }),
    {
        BindingBase { service_id: 0, network_id: 0, binding_type }
    }
}

/// A stored binding (instants are Unix seconds).
#[derive(Debug, Clone, Copy, PartialEq, Eq, Structural)]
pub struct Binding {
    pub id: u128,
    pub created_at: i64,
    pub updated_at: i64,
    pub valid_from: i64,
    pub valid_to: Option<i64>,
    pub lineage_id: Option<u128>,
    pub last_seen_at: i64,
    pub last_discovery_id: Option<u128>,
    pub first_discovery_id: Option<u128>,
    pub base: BindingBase,
}

/// A fresh random (v4) UUID.
#[verifier::external_body]
fn random_uuid() -> (id: u128) {
    uuid::Uuid::new_v4().as_u128()
}

/// The current time, in Unix seconds.
#[verifier::external_body]
fn now_seconds() -> (t: i64) {
    chrono::Utc::now().timestamp()
}

/// A binding just created: every timestamp is its creation instant, and it
/// has no end, lineage or discovery yet.
pub open spec fn is_fresh_binding(b: Binding) -> bool {
    &&& b.updated_at == b.created_at
    &&& b.valid_from == b.created_at
    &&& b.last_seen_at == b.created_at
    &&& b.valid_to is None
    &&& b.lineage_id is None
    &&& b.last_discovery_id is None
    &&& b.first_discovery_id is None
}

impl Binding {
    /// A new binding with a fresh random id, created now: every timestamp
    /// is the creation instant, and it has no end, lineage or discovery
    /// yet.
    pub fn new(base: BindingBase) -> (b: Self)
        ensures
            b.base == base,
            is_fresh_binding(b),
    {
        let now = now_seconds();
        Binding {
            id: random_uuid(),
            created_at: now,
            updated_at: now,
            valid_from: now,
            valid_to: None,
            lineage_id: None,
            last_seen_at: now,
            last_discovery_id: None,
            first_discovery_id: None,
            base,
        }
    }

    /// A new binding without service or network.
    pub fn new_serviceless(binding_type: BindingType) -> (b: Self)
        ensures
            b.base == (BindingBase { service_id: 0, network_id: 0, binding_type }),
            is_fresh_binding(b),
    {
        Binding::new(BindingBase::new_serviceless(binding_type))
    }

    /// A new IP address binding.
    pub fn new_ip_address(service_id: u128, network_id: u128, ip_address_id: u128) -> (b: Self)
        ensures
            b.base == (BindingBase { service_id, network_id, binding_type: BindingType::IPAddress { ip_address_id } }),
            is_fresh_binding(b),
    {
        Binding::new(BindingBase::new(service_id, network_id, BindingType::IPAddress { ip_address_id }))
    }

    /// A new port binding.
    pub fn new_port(service_id: u128, network_id: u128, port_id: u128, ip_address_id: Option<u128>) -> (b: Self)
        ensures
            b.base == (BindingBase { service_id, network_id, binding_type: BindingType::Port { port_id, ip_address_id } }),
            is_fresh_binding(b),
    {
        Binding::new(BindingBase::new(service_id, network_id, BindingType::Port { port_id, ip_address_id }))
    }

    /// A new IP address binding without service.
    pub fn new_ip_address_serviceless(ip_address_id: u128) -> (b: Self)
        ensures
            b.base == (BindingBase { service_id: 0, network_id: 0, binding_type: BindingType::IPAddress { ip_address_id } }),
            is_fresh_binding(b),
    {
        Binding::new_serviceless(BindingType::IPAddress { ip_address_id })
    }

    /// A new port binding without service.
    pub fn new_port_serviceless(port_id: u128, ip_address_id: Option<u128>) -> (b: Self)
        ensures
            b.base == (BindingBase { service_id: 0, network_id: 0, binding_type: BindingType::Port { port_id, ip_address_id } }),
            is_fresh_binding(b),
    {
        Binding::new_serviceless(BindingType::Port { port_id, ip_address_id })
    }

    /// The IP address the binding is at: the bound address, or a port
    /// binding's address (none when it covers all addresses).
    pub fn ip_address_id(&self) -> (r: Option<u128>)
        ensures
            r == (match self.base.binding_type {
                BindingType::IPAddress { ip_address_id } => Some(ip_address_id),
                BindingType::Port { ip_address_id, .. } => ip_address_id,
            }),
    {
        match self.base.binding_type {
            BindingType::IPAddress { ip_address_id } => Some(ip_address_id),
            BindingType::Port { ip_address_id, .. } => ip_address_id,
        }
    }

    /// The bound port, for a port binding.
    pub fn port_id(&self) -> (r: Option<u128>)
        ensures
            r == (match self.base.binding_type {
                BindingType::IPAddress { .. } => None,
                BindingType::Port { port_id, .. } => Some(port_id),
            }),
    {
        match self.base.binding_type {
            BindingType::IPAddress { .. } => None,
            BindingType::Port { port_id, .. } => Some(port_id),
        }
    }

    /// The binding with its service and network set.
    pub fn with_service(self, service_id: u128, network_id: u128) -> (b: Self)
        ensures
            b == (Binding { base: BindingBase { service_id, network_id, binding_type: self.base.binding_type }, ..self }),
    {
        let mut b = self;
        b.base.service_id = service_id;
        b.base.network_id = network_id;
        b
    }

    /// Whether replacing `other` with this binding (or adding or removing
    /// one, when `other` is `None`) makes the topology stale: a change of
    /// type or of service.
    pub fn triggers_staleness(&self, other: Option<Binding>) -> (b: bool)
        ensures
            b == (match other {
                Some(o) => self.base.binding_type != o.base.binding_type || self.base.service_id != o.base.service_id,
                None => true,
            }),
    {
        match other {
            Some(o) => self.base.binding_type != o.base.binding_type || self.base.service_id != o.base.service_id,
            None => true,
        }
    }
}

/// How a binding describes itself in logs.
pub open spec fn binding_text(b: Binding) -> Seq<char> {
    match b.base.binding_type {
        BindingType::IPAddress { ip_address_id } => "IP address binding "@ + uuid_text(b.id) + " -> "@
            + uuid_text(ip_address_id),
        BindingType::Port { port_id, ip_address_id: Some(addr) } => "Port binding "@ + uuid_text(b.id) + " -> "@
            + uuid_text(port_id) + " (ip_address "@ + uuid_text(addr) + ")"@,
        BindingType::Port { port_id, ip_address_id: None } => "Port binding "@ + uuid_text(b.id) + " -> "@
            + uuid_text(port_id) + " (all ip_addresses)"@,
    }
}

impl Binding {
    /// The binding as logs show it: its id, then the address, or the port
    /// and the address it is on (or all addresses).
    pub fn display_text(&self) -> (s: String)
        ensures
            s@ == binding_text(*self),
    {
        let mut s = String::new();
        match self.base.binding_type {
            BindingType::IPAddress { ip_address_id } => {
                s.append("IP address binding ");
                s.append(format_uuid(self.id).as_str());
                s.append(" -> ");
                s.append(format_uuid(ip_address_id).as_str());
            },
            BindingType::Port { port_id, ip_address_id } => {
                s.append("Port binding ");
                s.append(format_uuid(self.id).as_str());
                s.append(" -> ");
                s.append(format_uuid(port_id).as_str());
                match ip_address_id {
                    Some(addr) => {
                        s.append(" (ip_address ");
                        s.append(format_uuid(addr).as_str());
                        s.append(")");
                    },
                    None => s.append(" (all ip_addresses)"),
                }
            },
        }
        s
    }
}

/// Two bindings of one service conflict when an IP address binding meets a
/// port binding on the same address or on all addresses.
pub open spec fn bindings_conflict(a: BindingType, b: BindingType) -> bool {
    match (a, b) {
        (BindingType::IPAddress { ip_address_id }, BindingType::Port { ip_address_id: other, .. }) =>
            other == Some(ip_address_id) || other is None,
        (BindingType::Port { ip_address_id: other, .. }, BindingType::IPAddress { ip_address_id }) =>
            other == Some(ip_address_id) || other is None,
        _ => false,
    }
}

/// Conflict does not depend on which binding came first.
pub proof fn lemma_conflict_symmetric(a: BindingType, b: BindingType)
    ensures
        bindings_conflict(a, b) == bindings_conflict(b, a),
{
}

/// Why a new binding was refused.
#[derive(Debug, Clone, Copy, PartialEq, Eq, Structural)]
pub enum BindingConflict {
    /// An IP address binding where the service has a port binding on that
    /// address or on all addresses.
    AddressTakenByPort,
    /// A port binding on an address where the service has an IP address
    /// binding.
    PortOnBoundAddress,
    /// A port binding on all addresses while the service has IP address
    /// bindings.
    AllAddressesTaken,
}

impl BindingConflict {
    /// What the user is told.
    pub fn message(&self) -> (s: &'static str)
        ensures
            s == (match *self {
                BindingConflict::AddressTakenByPort => "Cannot add ip_address binding: service already has a port binding on this ip_address (or on all ip_addresses).",
                BindingConflict::PortOnBoundAddress => "Cannot add port binding: service already has an ip_address binding on this ip_address.",
                BindingConflict::AllAddressesTaken => "Cannot add port binding on all ip_addresses: service already has ip_address bindings.",
            }),
    {
        match self {
            BindingConflict::AddressTakenByPort => "Cannot add ip_address binding: service already has a port binding on this ip_address (or on all ip_addresses).",
            BindingConflict::PortOnBoundAddress => "Cannot add port binding: service already has an ip_address binding on this ip_address.",
            BindingConflict::AllAddressesTaken => "Cannot add port binding on all ip_addresses: service already has ip_address bindings.",
        }
    }
}

/// The refusal a new binding of type `t` meets.
pub open spec fn conflict_kind(t: BindingType) -> BindingConflict {
    match t {
        BindingType::IPAddress { .. } => BindingConflict::AddressTakenByPort,
        BindingType::Port { ip_address_id: Some(_), .. } => BindingConflict::PortOnBoundAddress,
        BindingType::Port { ip_address_id: None, .. } => BindingConflict::AllAddressesTaken,
    }
}

/// Whether a binding of type `t` may join the service's existing bindings
/// (`existing`: id and type of each; the one with id `exclude`, being
/// updated, is ignored). Refused on the first conflict.
pub fn check_binding_conflict(t: BindingType, existing: &Vec<(u128, BindingType)>, exclude: Option<u128>) -> (r: Result<(), BindingConflict>)
    ensures
        r is Err <==> exists|i: int| 0 <= i < existing@.len() && exclude != Some(existing@[i].0)
            && bindings_conflict(t, #[trigger] existing@[i].1),
        r matches Err(e) ==> e == conflict_kind(t),
{
    let mut i: usize = 0;
    while i < existing.len()
        invariant
            i <= existing@.len(),
            forall|j: int| 0 <= j < i ==> !(exclude != Some(existing@[j].0) && bindings_conflict(t, #[trigger] existing@[j].1)),
        decreases existing.len() - i,
    {
        let (id, other) = existing[i];
        let skip = match exclude {
            Some(x) => x == id,
            None => false,
        };
        if !skip {
            let clash = match (t, other) {
                (BindingType::IPAddress { ip_address_id }, BindingType::Port { ip_address_id: o, .. }) => match o {
                    Some(x) => x == ip_address_id,
                    None => true,
                },
                (BindingType::Port { ip_address_id: o, .. }, BindingType::IPAddress { ip_address_id }) => match o {
                    Some(x) => x == ip_address_id,
                    None => true,
                },
                _ => false,
            };
            if clash {
                assert(bindings_conflict(t, existing@[i as int].1));
                let kind = match t {
                    BindingType::IPAddress { .. } => BindingConflict::AddressTakenByPort,
                    BindingType::Port { ip_address_id: Some(_), .. } => BindingConflict::PortOnBoundAddress,
                    BindingType::Port { ip_address_id: None, .. } => BindingConflict::AllAddressesTaken,
                };
                return Err(kind);
            }
        }
        i = i + 1;
    }
    Ok(())
}

/// A new port binding on all addresses supersedes the service's
/// bindings of the same port on a single address.
pub open spec fn supersedes(t: BindingType, o: BindingType) -> bool {
    match (t, o) {
        (BindingType::Port { port_id, ip_address_id: None }, BindingType::Port { port_id: p, ip_address_id: Some(_) }) => p == port_id,
        _ => false,
    }
}

fn supersedes_exec(t: BindingType, o: BindingType) -> (b: bool)
    ensures
        b == supersedes(t, o),
{
    match (t, o) {
        (BindingType::Port { port_id, ip_address_id: None }, BindingType::Port { port_id: p, ip_address_id: Some(_) }) => p == port_id,
        _ => false,
    }
}

/// `x` is the id of a binding among the first `bound` of `existing` that
/// `t` supersedes.
pub open spec fn superseded_id(x: u128, existing: Seq<(u128, BindingType)>, t: BindingType, bound: int) -> bool {
    exists|m: int| 0 <= m < bound && m < existing.len() && existing[m].0 == x && supersedes(t, #[trigger] existing[m].1)
}

/// The ids of the existing bindings that a new binding of type `t`
/// supersedes (see `supersedes`), in order.
pub fn superseded_bindings(t: BindingType, existing: &Vec<(u128, BindingType)>) -> (r: Vec<u128>)
    ensures
        forall|k: int| 0 <= k < r@.len() ==> superseded_id(#[trigger] r@[k], existing@, t, existing@.len() as int),
        forall|i: int| 0 <= i < existing@.len() && supersedes(t, #[trigger] existing@[i].1) ==> r@.contains(existing@[i].0),
{
    let mut r: Vec<u128> = Vec::new();
    let mut i: usize = 0;
    while i < existing.len()
        invariant
            i <= existing@.len(),
            forall|k: int| 0 <= k < r@.len() ==> superseded_id(#[trigger] r@[k], existing@, t, i as int),
            forall|m: int| 0 <= m < i && supersedes(t, #[trigger] existing@[m].1) ==> r@.contains(existing@[m].0),
        decreases existing.len() - i,
    {
        let (id, other) = existing[i];
        let ghost before = r@;
        let take = supersedes_exec(t, other);
        if take {
            r.push(id);
        }
        proof {
            assert forall|k: int| 0 <= k < r@.len() implies superseded_id(#[trigger] r@[k], existing@, t, i + 1) by {
                if k < before.len() {
                    assert(r@[k] == before[k]);
                    assert(superseded_id(before[k], existing@, t, i as int));
                    let m = choose|m: int| 0 <= m < i && m < existing@.len() && existing@[m].0 == before[k] && supersedes(t, #[trigger] existing@[m].1);
                    assert(existing@[m].0 == r@[k]);
                } else {
                    assert(r@[k] == existing@[i as int].0);
                    assert(supersedes(t, existing@[i as int].1));
                }
            }
            assert forall|m: int| 0 <= m < i + 1 && supersedes(t, #[trigger] existing@[m].1) implies r@.contains(existing@[m].0) by {
                if m < i {
                    let k = choose|k: int| 0 <= k < before.len() && before[k] == existing@[m].0;
                    assert(r@[k] == before[k]);
                } else {
                    assert(r@[before.len() as int] == id);
                }
            }
        }
        i = i + 1;
    }
    r
}

} // verus!
