//! IP addresses as plain values.
use vstd::prelude::*;

verus! {

/// An IPv4 address (its four octets) or an IPv6 address (its 128 bits,
/// most significant first).
#[derive(Debug, Clone, Copy, PartialEq, Eq, Structural, Hash)]
pub enum IpAddress {
    V4(u8, u8, u8, u8),
    V6(u128),
}

/// The IPv4 loopback address `127.0.0.1`.
pub open spec fn localhost_v4() -> IpAddress {
    IpAddress::V4(127, 0, 0, 1)
}

/// `127.0.0.1`.
pub fn localhost() -> (a: IpAddress)
    ensures
        a == localhost_v4(),
{
    IpAddress::V4(127, 0, 0, 1)
}

} // verus!
