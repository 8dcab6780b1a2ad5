//! Protection against server-originated requests to internal addresses
//! through a daemon url.
use vstd::prelude::*;

use crate::daemons::install::{url_port, url_port_or_known_default};
use crate::domains::{parse_url_host, parse_url_text, url_host, url_parses};
use crate::net::IpAddress;

verus! {

/// An IPv4-mapped IPv6 address (`::ffff:a.b.c.d`) as the IPv4 address it
/// maps; any other address unchanged.
pub open spec fn canonical(a: IpAddress) -> IpAddress {
    match a {
        IpAddress::V6(bits) => if (bits >> 32u128) == 0xffffu128 {
            IpAddress::V4(
                ((bits >> 24u128) & 0xffu128) as u8,
                ((bits >> 16u128) & 0xffu128) as u8,
                ((bits >> 8u128) & 0xffu128) as u8,
                (bits & 0xffu128) as u8,
            )
        } else {
            a
        },
        _ => a,
    }
}

/// Loopback, RFC 1918 private, link-local (the cloud metadata endpoint
/// included), unspecified, broadcast, documentation and shared (CGNAT)
/// IPv4 ranges; IPv6 loopback, unspecified, unique-local and link-local.
pub open spec fn internal(a: IpAddress) -> bool {
    match a {
        IpAddress::V4(o0, o1, o2, o3) => {
            ||| o0 == 127
            ||| o0 == 10
            ||| (o0 == 172 && (o1 & 0xf0u8) == 16)
            ||| (o0 == 192 && o1 == 168)
            ||| (o0 == 169 && o1 == 254)
            ||| (o0 == 0 && o1 == 0 && o2 == 0 && o3 == 0)
            ||| (o0 == 255 && o1 == 255 && o2 == 255 && o3 == 255)
            ||| (o0 == 192 && o1 == 0 && o2 == 2)
            ||| (o0 == 198 && o1 == 51 && o2 == 100)
            ||| (o0 == 203 && o1 == 0 && o2 == 113)
            ||| (o0 == 100 && (o1 & 0xc0u8) == 0x40)
        },
        IpAddress::V6(bits) => {
            let first = (bits >> 112u128) as u16;
            ||| bits == 1
            ||| bits == 0
            ||| (first & 0xfe00u16) == 0xfc00
            ||| (first & 0xffc0u16) == 0xfe80
        },
    }
}

/// The address with IPv4-mapped IPv6 written as IPv4.
pub fn to_canonical(a: IpAddress) -> (c: IpAddress)
    ensures
        c == canonical(a),
{
    match a {
        IpAddress::V6(bits) => if (bits >> 32u128) == 0xffffu128 {
            IpAddress::V4(
                ((bits >> 24u128) & 0xffu128) as u8,
                ((bits >> 16u128) & 0xffu128) as u8,
                ((bits >> 8u128) & 0xffu128) as u8,
                (bits & 0xffu128) as u8,
            )
        } else {
            a
        },
        _ => a,
    }
}

/// Whether an address is internal (see `internal`), after reading an
/// IPv4-mapped IPv6 address as IPv4 so that it cannot slip past the IPv4
/// rules.
pub fn is_private_ip(addr: &IpAddress) -> (b: bool)
    ensures
        b == internal(canonical(*addr)),
{
    match to_canonical(*addr) {
        IpAddress::V4(o0, o1, o2, o3) => {
            o0 == 127 || o0 == 10 || (o0 == 172 && (o1 & 0xf0u8) == 16) || (o0 == 192 && o1 == 168)
                || (o0 == 169 && o1 == 254) || (o0 == 0 && o1 == 0 && o2 == 0 && o3 == 0)
                || (o0 == 255 && o1 == 255 && o2 == 255 && o3 == 255)
                || (o0 == 192 && o1 == 0 && o2 == 2) || (o0 == 198 && o1 == 51 && o2 == 100)
                || (o0 == 203 && o1 == 0 && o2 == 113) || (o0 == 100 && (o1 & 0xc0u8) == 0x40)
        },
        IpAddress::V6(bits) => {
            let first = (bits >> 112u128) as u16;
            bits == 1 || bits == 0 || (first & 0xfe00u16) == 0xfc00 || (first & 0xffc0u16) == 0xfe80
        },
    }
}

/// Why a daemon url was refused.
#[derive(Debug, Clone, Copy, PartialEq, Eq, Structural)]
pub enum DaemonUrlRejection {
    InvalidUrl,
    NoHost,
    Unresolvable,
    InternalAddress,
}

/// The port a daemon url is dialed on: its own or its scheme's known
/// default, else 80.
pub open spec fn dial_port(url: Seq<char>) -> u16 {
    match url_port_or_known_default(url) {
        Some(q) => q,
        None => 80u16,
    }
}

/// The host and port that a daemon url names, to be resolved before the
/// server dials it. A text that does not parse as a url is refused, and so
/// is a url without a host.
pub fn daemon_url_endpoint(url: &str) -> (r: Result<(String, u16), DaemonUrlRejection>)
    ensures
        match r {
            Ok((h, p)) => url_parses(url@) && url_host(url@) == Some(h@) && p == dial_port(url@),
            Err(e) => (e == DaemonUrlRejection::InvalidUrl && !url_parses(url@)) || (e
                == DaemonUrlRejection::NoHost && url_parses(url@) && url_host(url@) is None),
        },
{
    if parse_url_text(url).is_none() {
        return Err(DaemonUrlRejection::InvalidUrl);
    }
    let host = match parse_url_host(url) {
        Some(h) => h,
        None => { return Err(DaemonUrlRejection::NoHost); },
    };
    let port: u16 = match url_port(url) {
        Some(q) => q,
        None => 80,
    };
    Ok((host, port))
}

/// The verdict on a daemon url once its host has been resolved: outside
/// cloud deployments every url is allowed; in the cloud, a url whose host
/// resolves to any internal address is refused.
pub fn check_resolved_daemon_addrs(cloud: bool, addrs: &Vec<IpAddress>) -> (r: Result<(), DaemonUrlRejection>)
    ensures
        r is Err <==> (cloud && exists|i: int| 0 <= i < addrs@.len() && internal(canonical(#[trigger] addrs@[i]))),
        r matches Err(e) ==> e == DaemonUrlRejection::InternalAddress,
{
    if !cloud {
        return Ok(());
    }
    let mut i: usize = 0;
    while i < addrs.len()
        invariant
            cloud,
            i <= addrs@.len(),
            forall|j: int| 0 <= j < i ==> !internal(canonical(#[trigger] addrs@[j])),
        decreases addrs.len() - i,
    {
        if is_private_ip(&addrs[i]) {
            assert(internal(canonical(addrs@[i as int])));
            return Err(DaemonUrlRejection::InternalAddress);
        }
        i = i + 1;
    }
    Ok(())
}

} // verus!
