//! Credential kinds, their categories and where they apply.
use vstd::prelude::*;

use crate::text::{chars_of, prefix_before};

verus! {

broadcast use vstd::string::group_string_axioms;

/// Category grouping of credential kinds.
#[derive(Debug, Clone, Copy, PartialEq, Eq, Structural)]
pub enum CredentialCategory {
    /// SNMP, NetFlow, sFlow.
    NetworkMonitoring,
    /// Docker, vSphere, ESXi.
    ContainerVirtualization,
}

impl CredentialCategory {
    /// The category's display name.
    pub fn label(&self) -> (s: &'static str)
        ensures
            s == (match *self {
                CredentialCategory::NetworkMonitoring => "Network Monitoring",
                CredentialCategory::ContainerVirtualization => "Container & Virtualization",
            }),
    {
        match self {
            CredentialCategory::NetworkMonitoring => "Network Monitoring",
            CredentialCategory::ContainerVirtualization => "Container & Virtualization",
        }
    }
}

/// Where a credential applies: the daemon's own host, specific hosts, or
/// every host of a network.
#[derive(Debug, Clone, Copy, PartialEq, Eq, Structural, Hash)]
pub enum Target {
    DaemonHost,
    Host,
    Network,
}

/// The kind of a credential.
#[derive(Debug, Clone, Copy, PartialEq, Eq, Structural, Hash)]
pub enum CredentialTypeDiscriminants {
    SnmpV1,
    SnmpV2c,
    SnmpV3,
    DockerProxy,
    DockerSocket,
    PodmanProxy,
    PodmanSocket,
}

impl CredentialTypeDiscriminants {
    /// The identifier of the kind (its variant name).
    pub fn id(&self) -> (s: &'static str)
        ensures
            s == (match *self {
                CredentialTypeDiscriminants::SnmpV1 => "SnmpV1",
                CredentialTypeDiscriminants::SnmpV2c => "SnmpV2c",
                CredentialTypeDiscriminants::SnmpV3 => "SnmpV3",
                CredentialTypeDiscriminants::DockerProxy => "DockerProxy",
                CredentialTypeDiscriminants::DockerSocket => "DockerSocket",
                CredentialTypeDiscriminants::PodmanProxy => "PodmanProxy",
                CredentialTypeDiscriminants::PodmanSocket => "PodmanSocket",
            }),
    {
        match self {
            CredentialTypeDiscriminants::SnmpV1 => "SnmpV1",
            CredentialTypeDiscriminants::SnmpV2c => "SnmpV2c",
            CredentialTypeDiscriminants::SnmpV3 => "SnmpV3",
            CredentialTypeDiscriminants::DockerProxy => "DockerProxy",
            CredentialTypeDiscriminants::DockerSocket => "DockerSocket",
            CredentialTypeDiscriminants::PodmanProxy => "PodmanProxy",
            CredentialTypeDiscriminants::PodmanSocket => "PodmanSocket",
        }
    }

    /// The kind's display name.
    pub fn name(&self) -> (s: &'static str)
        ensures
            s == (match *self {
                CredentialTypeDiscriminants::SnmpV1 => "SNMP v1",
                CredentialTypeDiscriminants::SnmpV2c => "SNMP v2c",
                CredentialTypeDiscriminants::SnmpV3 => "SNMP v3",
                CredentialTypeDiscriminants::DockerProxy => "Docker Proxy",
                CredentialTypeDiscriminants::DockerSocket => "Docker Socket",
                CredentialTypeDiscriminants::PodmanProxy => "Podman Proxy",
                CredentialTypeDiscriminants::PodmanSocket => "Podman Socket",
            }),
    {
        match self {
            CredentialTypeDiscriminants::SnmpV1 => "SNMP v1",
            CredentialTypeDiscriminants::SnmpV2c => "SNMP v2c",
            CredentialTypeDiscriminants::SnmpV3 => "SNMP v3",
            CredentialTypeDiscriminants::DockerProxy => "Docker Proxy",
            CredentialTypeDiscriminants::DockerSocket => "Docker Socket",
            CredentialTypeDiscriminants::PodmanProxy => "Podman Proxy",
            CredentialTypeDiscriminants::PodmanSocket => "Podman Socket",
        }
    }

    /// What discovery does with the kind.
    pub fn description(&self) -> (s: &'static str)
        ensures
            s == (match *self {
                CredentialTypeDiscriminants::SnmpV1 => "Discover a host's interfaces, system details, and LLDP neighbors using SNMPv1 (legacy, unencrypted).",
                CredentialTypeDiscriminants::SnmpV2c => "Discover a host's interfaces, system details, and LLDP neighbors using SNMPv2c (unencrypted community string).",
                CredentialTypeDiscriminants::SnmpV3 => "Discover a host's interfaces, system details, and LLDP neighbors using SNMPv3 (authenticated and encrypted).",
                CredentialTypeDiscriminants::DockerProxy => "Discover Docker containers and the services they expose over TCP, optionally with TLS.",
                CredentialTypeDiscriminants::DockerSocket => "Discover Docker containers and the services they expose via the daemon's local socket.",
                CredentialTypeDiscriminants::PodmanProxy => "Discover Podman containers and the services they expose over TCP, optionally with TLS.",
                CredentialTypeDiscriminants::PodmanSocket => "Discover Podman containers and the services they expose via the daemon's local socket.",
            }),
    {
        match self {
            CredentialTypeDiscriminants::SnmpV1 => "Discover a host's interfaces, system details, and LLDP neighbors using SNMPv1 (legacy, unencrypted).",
            CredentialTypeDiscriminants::SnmpV2c => "Discover a host's interfaces, system details, and LLDP neighbors using SNMPv2c (unencrypted community string).",
            CredentialTypeDiscriminants::SnmpV3 => "Discover a host's interfaces, system details, and LLDP neighbors using SNMPv3 (authenticated and encrypted).",
            CredentialTypeDiscriminants::DockerProxy => "Discover Docker containers and the services they expose over TCP, optionally with TLS.",
            CredentialTypeDiscriminants::DockerSocket => "Discover Docker containers and the services they expose via the daemon's local socket.",
            CredentialTypeDiscriminants::PodmanProxy => "Discover Podman containers and the services they expose over TCP, optionally with TLS.",
            CredentialTypeDiscriminants::PodmanSocket => "Discover Podman containers and the services they expose via the daemon's local socket.",
        }
    }
}

/// The part of `s` after its last `c` (all of `s` when there is none).
pub open spec fn after_last(s: Seq<char>, c: char) -> Seq<char>
    decreases s.len(),
{
    if s.len() == 0 {
        s
    } else if s.last() == c {
        Seq::empty()
    } else {
        after_last(s.drop_last(), c).push(s.last())
    }
}

/// The file extension of a logo url, for the UI: none for a missing or
/// local (`/`-rooted) logo; otherwise the text after the last `.`, without
/// a query string, when it is `svg`, `png` or `webp`, and `svg` otherwise.
pub open spec fn logo_extension_of(url: Seq<char>) -> Seq<char> {
    if url.len() == 0 || url[0] == '/' {
        Seq::empty()
    } else {
        let ext = crate::text::before_first(after_last(url, '.'), '?');
        if ext == "svg"@ || ext == "png"@ || ext == "webp"@ { ext } else { "svg"@ }
    }
}

fn suffix_after_last(v: &Vec<char>, c: char) -> (r: Vec<char>)
    ensures
        r@ == after_last(v@, c),
{
    let mut start: usize = v.len();
    assert(v@.take(start as int) =~= v@);
    assert(after_last(v@, c) + v@.skip(start as int) =~= after_last(v@, c));
    while start > 0 && v[start - 1] != c
        invariant
            start <= v@.len(),
            after_last(v@, c) == after_last(v@.take(start as int), c) + v@.skip(start as int),
        decreases start,
    {
        proof {
            let t = v@.take(start as int);
            assert(t.drop_last() =~= v@.take(start - 1));
            assert(v@.skip(start - 1) =~= seq![t.last()] + v@.skip(start as int));
            assert(after_last(t, c) == after_last(t.drop_last(), c).push(t.last()));
            assert(after_last(t.drop_last(), c).push(t.last()) + v@.skip(start as int)
                =~= after_last(t.drop_last(), c) + v@.skip(start - 1));
        }
        start = start - 1;
    }
    let mut r: Vec<char> = Vec::new();
    let mut i: usize = start;
    while i < v.len()
        invariant
            start <= i <= v@.len(),
            r@ == v@.subrange(start as int, i as int),
        decreases v.len() - i,
    {
        r.push(v[i]);
        assert(v@.subrange(start as int, i + 1) =~= v@.subrange(start as int, i as int).push(v@[i as int]));
        i = i + 1;
    }
    proof {
        let t = v@.take(start as int);
        if start > 0 {
            assert(t.last() == c);
        }
        assert(after_last(t, c) =~= Seq::<char>::empty());
        assert(v@.skip(start as int) =~= v@.subrange(start as int, v@.len() as int));
        assert(after_last(v@, c) =~= r@);
    }
    r
}

fn chars_equal_str(v: &Vec<char>, s: &str) -> (b: bool)
    ensures
        b == (v@ == s@),
{
    let w = chars_of(s);
    crate::text::chars_equal(v, &w)
}

/// The file extension of a logo url (see `logo_extension_of`).
pub fn logo_extension(url: &str) -> (r: &'static str)
    ensures
        r@ == logo_extension_of(url@),
{
    proof {
        reveal_strlit("");
    }
    let v = chars_of(url);
    if v.len() == 0 || v[0] == '/' {
        return "";
    }
    let tail = suffix_after_last(&v, '.');
    let ext = prefix_before(&tail, '?');
    if chars_equal_str(&ext, "svg") {
        "svg"
    } else if chars_equal_str(&ext, "png") {
        "png"
    } else if chars_equal_str(&ext, "webp") {
        "webp"
    } else {
        "svg"
    }
}

} // verus!
