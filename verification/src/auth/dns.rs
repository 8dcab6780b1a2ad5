//! The signup deliverability check of an email domain: MX records, then
//! address records as the implicit MX. Only a definite "no records" answer
//! blocks; a timeout or resolver failure lets the signup through.
use vstd::prelude::*;

verus! {

/// Whether an email domain can receive mail.
#[derive(Debug, Clone, Copy, PartialEq, Eq, Structural)]
pub enum DomainCheck {
    /// It has MX or address records.
    Deliverable,
    /// It definitely has neither.
    Undeliverable,
    /// The lookup failed or timed out: fail open.
    Inconclusive,
}

/// What one DNS lookup gave.
#[derive(Debug, Clone, Copy, PartialEq, Eq, Structural)]
pub enum LookupOutcome {
    /// An answer, with or without records.
    Answered { has_records: bool },
    /// The name definitely has no such records.
    NoRecords,
    /// A transient resolver error.
    Failed,
    /// No answer in time.
    TimedOut,
}

/// The verdict after the MX lookup: deliverable with MX records,
/// inconclusive on a failure or timeout, and `None` (look up addresses)
/// when there are no MX records.
pub fn after_mx_lookup(mx: LookupOutcome) -> (r: Option<DomainCheck>)
    ensures
        r == (match mx {
            LookupOutcome::Answered { has_records } => if has_records { Some(DomainCheck::Deliverable) } else { None },
            LookupOutcome::NoRecords => None,
            LookupOutcome::Failed => Some(DomainCheck::Inconclusive),
            LookupOutcome::TimedOut => Some(DomainCheck::Inconclusive),
        }),
{
    match mx {
        LookupOutcome::Answered { has_records } => if has_records { Some(DomainCheck::Deliverable) } else { None },
        LookupOutcome::NoRecords => None,
        LookupOutcome::Failed | LookupOutcome::TimedOut => Some(DomainCheck::Inconclusive),
    }
}

/// The verdict after the address lookup: deliverable with an address,
/// undeliverable when there is none, inconclusive on a failure or timeout.
pub fn after_address_lookup(ip: LookupOutcome) -> (r: DomainCheck)
    ensures
        r == (match ip {
            LookupOutcome::Answered { has_records } => if has_records { DomainCheck::Deliverable } else { DomainCheck::Undeliverable },
            LookupOutcome::NoRecords => DomainCheck::Undeliverable,
            LookupOutcome::Failed => DomainCheck::Inconclusive,
            LookupOutcome::TimedOut => DomainCheck::Inconclusive,
        }),
{
    match ip {
        LookupOutcome::Answered { has_records } => if has_records { DomainCheck::Deliverable } else { DomainCheck::Undeliverable },
        LookupOutcome::NoRecords => DomainCheck::Undeliverable,
        LookupOutcome::Failed | LookupOutcome::TimedOut => DomainCheck::Inconclusive,
    }
}

/// The check fails open: only definite answers on both lookups (no MX
/// records, then no address records) make a domain undeliverable.
pub proof fn lemma_fail_open(mx: LookupOutcome, ip: LookupOutcome)
    ensures
        ({
            let verdict = match (match mx {
                LookupOutcome::Answered { has_records } => if has_records { Some(DomainCheck::Deliverable) } else { None },
                LookupOutcome::NoRecords => None,
                LookupOutcome::Failed => Some(DomainCheck::Inconclusive),
                LookupOutcome::TimedOut => Some(DomainCheck::Inconclusive),
            }) {
                Some(v) => v,
                None => match ip {
                    LookupOutcome::Answered { has_records } => if has_records { DomainCheck::Deliverable } else { DomainCheck::Undeliverable },
                    LookupOutcome::NoRecords => DomainCheck::Undeliverable,
                    LookupOutcome::Failed => DomainCheck::Inconclusive,
                    LookupOutcome::TimedOut => DomainCheck::Inconclusive,
                },
            };
            verdict == DomainCheck::Undeliverable ==> (
                (mx == LookupOutcome::NoRecords || mx == LookupOutcome::Answered { has_records: false })
                && (ip == LookupOutcome::NoRecords || ip == LookupOutcome::Answered { has_records: false }))
        }),
{
}

} // verus!
