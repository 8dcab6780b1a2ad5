//! Dependencies between services: their members and their stored type.
use vstd::prelude::*;

use crate::text::str_equal;

verus! {

broadcast use vstd::string::group_string_axioms;

/// What a dependency links: services, or specific bindings.
pub enum DependencyMembers {
    Services { service_ids: Vec<u128> },
    Bindings { binding_ids: Vec<u128> },
}

pub open spec fn members_view(m: DependencyMembers) -> (bool, Seq<u128>) {
    match m {
        DependencyMembers::Services { service_ids } => (false, service_ids@),
        DependencyMembers::Bindings { binding_ids } => (true, binding_ids@),
    }
}

impl DependencyMembers {
    /// No services.
    pub fn default_members() -> (m: Self)
        ensures
            members_view(m) == (false, Seq::<u128>::empty()),
    {
        DependencyMembers::Services { service_ids: Vec::new() }
    }

    /// Whether it links nothing.
    pub fn is_empty(&self) -> (b: bool)
        ensures
            b == (members_view(*self).1.len() == 0),
    {
        match self {
            DependencyMembers::Services { service_ids } => service_ids.len() == 0,
            DependencyMembers::Bindings { binding_ids } => binding_ids.len() == 0,
        }
    }

    /// Whether it links bindings.
    pub fn is_bindings(&self) -> (b: bool)
        ensures
            b == members_view(*self).0,
    {
        match self {
            DependencyMembers::Bindings { .. } => true,
            _ => false,
        }
    }

    /// The linked bindings (none when it links services).
    pub fn binding_ids(&self) -> (v: Vec<u128>)
        ensures
            v@ == (if members_view(*self).0 { members_view(*self).1 } else { Seq::empty() }),
    {
        match self {
            DependencyMembers::Bindings { binding_ids } => {
                let mut v: Vec<u128> = Vec::new();
                let mut i: usize = 0;
                while i < binding_ids.len()
                    invariant
                        i <= binding_ids@.len(),
                        v@ == binding_ids@.take(i as int),
                    decreases binding_ids.len() - i,
                {
                    v.push(binding_ids[i]);
                    assert(binding_ids@.take(i + 1) =~= binding_ids@.take(i as int).push(binding_ids@[i as int]));
                    i = i + 1;
                }
                assert(binding_ids@.take(binding_ids@.len() as int) =~= binding_ids@);
                v
            },
            DependencyMembers::Services { .. } => Vec::new(),
        }
    }

    /// Whether a change of members (or a new or removed dependency, when
    /// `other` is `None`) makes the topology stale.
    pub fn triggers_staleness(&self, other: Option<&DependencyMembers>) -> (b: bool)
        ensures
            b == (match other {
                Some(o) => members_view(*self) != members_view(*o),
                None => true,
            }),
    {
        match other {
            None => true,
            Some(o) => {
                let (k1, a) = match self {
                    DependencyMembers::Services { service_ids } => (false, service_ids),
                    DependencyMembers::Bindings { binding_ids } => (true, binding_ids),
                };
                let (k2, b) = match o {
                    DependencyMembers::Services { service_ids } => (false, service_ids),
                    DependencyMembers::Bindings { binding_ids } => (true, binding_ids),
                };
                if k1 != k2 || a.len() != b.len() {
                    return true;
                }
                let mut i: usize = 0;
                while i < a.len()
                    invariant
                        i <= a@.len(),
                        a@.len() == b@.len(),
                        members_view(*self) == (k1, a@),
                        members_view(*o) == (k2, b@),
                        other == Some(o),
                        forall|j: int| 0 <= j < i ==> a@[j] == b@[j],
                    decreases a.len() - i,
                {
                    if a[i] != b[i] {
                        assert(a@[i as int] != b@[i as int]);
                        assert(a@ != b@);
                        return true;
                    }
                    i = i + 1;
                }
                assert(a@ =~= b@);
                false
            },
        }
    }
}

/// How a dependency is drawn: a request path, or a hub with spokes.
#[derive(Debug, Clone, Copy, PartialEq, Eq, Structural)]
pub enum DependencyType {
    RequestPath,
    HubAndSpoke,
}

pub open spec fn dependency_type_name(t: DependencyType) -> &'static str {
    match t {
        DependencyType::RequestPath => "RequestPath",
        DependencyType::HubAndSpoke => "HubAndSpoke",
    }
}

impl DependencyType {
    /// The stored name of the type.
    pub fn as_str(&self) -> (s: &'static str)
        ensures
            s == dependency_type_name(*self),
    {
        match self {
            DependencyType::RequestPath => "RequestPath",
            DependencyType::HubAndSpoke => "HubAndSpoke",
        }
    }

    /// The type of a stored name; `None` for an unknown one.
    pub fn parse(s: &str) -> (r: Option<DependencyType>)
        ensures
            r == (if s@ == "RequestPath"@ {
                Some(DependencyType::RequestPath)
            } else if s@ == "HubAndSpoke"@ {
                Some(DependencyType::HubAndSpoke)
            } else {
                None
            }),
    {
        if str_equal(s, "RequestPath") {
            Some(DependencyType::RequestPath)
        } else if str_equal(s, "HubAndSpoke") {
            Some(DependencyType::HubAndSpoke)
        } else {
            None
        }
    }
}

/// A stored type name reads back as the type it was stored from.
pub proof fn lemma_dependency_type_round_trip(t: DependencyType)
    ensures
        (if dependency_type_name(t)@ == "RequestPath"@ {
            Some(DependencyType::RequestPath)
        } else if dependency_type_name(t)@ == "HubAndSpoke"@ {
            Some(DependencyType::HubAndSpoke)
        } else {
            None
        }) == Some(t),
{
    reveal_strlit("RequestPath");
    reveal_strlit("HubAndSpoke");
    if t == DependencyType::HubAndSpoke {
        assert("HubAndSpoke"@[0] != "RequestPath"@[0]);
    }
}

} // verus!
