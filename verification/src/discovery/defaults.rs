//! Defaults the daemon applies to unset scan settings.
use vstd::prelude::*;

verus! {

/// ARP retry rounds: 2, so 3 attempts in all.
pub fn arp_retries() -> (r: u32)
    ensures
        r == 2,
{
    2
}

/// ARP packets per second.
pub fn arp_rate_pps() -> (r: u32)
    ensures
        r == 50,
{
    50
}

/// Port scan probes per second.
pub fn scan_rate_pps() -> (r: u32)
    ensures
        r == 500,
{
    500
}

/// Ports scanned concurrently per host.
pub fn port_scan_batch_size() -> (r: usize)
    ensures
        r == 200,
{
    200
}

/// A full port scan every this many scans.
pub fn full_scan_interval() -> (r: u32)
    ensures
        r == 3,
{
    3
}

/// Prefix length beyond which interfaced subnets are truncated for ARP.
pub fn arp_scan_cutoff() -> (r: u8)
    ensures
        r == 15,
{
    15
}

/// Ceiling on one discovery run, in seconds: 6 hours.
pub fn max_discovery_duration() -> (r: u32)
    ensures
        r == 21600,
{
    21600
}

} // verus!
