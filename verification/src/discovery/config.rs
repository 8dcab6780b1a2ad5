//! A discovery's configuration row: how it runs, its integration targets,
//! and what a finished scan does to it.
use vstd::prelude::*;

verus! {

broadcast use vstd::string::group_string_axioms;

/// How a discovery is run: on a schedule (which can be switched off, with
/// an optional IANA timezone), as a record of a past run, or by hand.
pub enum RunKind {
    Scheduled { enabled: bool, timezone: Option<String> },
    Historical { finished_at: Option<i64> },
    AdHoc,
}

/// An integration target of a discovery: a network-wide (broadcast)
/// credential, or a target of another scope, carried through unchanged.
pub enum ScopedTarget<T> {
    Network { credential_id: u128 },
    Other(T),
}

/// The parts of a discovery that its scans change.
pub struct DiscoveryConfig<T> {
    pub run_type: RunKind,
    pub scan_count: u32,
    pub force_full_scan: bool,
    pub integration_targets: Vec<ScopedTarget<T>>,
}

/// The credential ids of the network-scope targets, in order.
pub open spec fn network_ids<T>(ts: Seq<ScopedTarget<T>>) -> Seq<u128>
    decreases ts.len(),
{
    if ts.len() == 0 {
        Seq::empty()
    } else {
        network_ids(ts.drop_last()) + match ts.last() {
            ScopedTarget::Network { credential_id } => seq![credential_id],
            ScopedTarget::Other(_) => Seq::empty(),
        }
    }
}

/// The targets of other scopes, in order.
pub open spec fn other_targets<T>(ts: Seq<ScopedTarget<T>>) -> Seq<ScopedTarget<T>>
    decreases ts.len(),
{
    if ts.len() == 0 {
        Seq::empty()
    } else {
        other_targets(ts.drop_last()) + match ts.last() {
            ScopedTarget::Network { .. } => Seq::empty(),
            ScopedTarget::Other(x) => seq![ScopedTarget::Other(x)],
        }
    }
}

impl<T> DiscoveryConfig<T> {
    /// Removes the network-scope targets and returns their credential ids
    /// (for the caller to keep as network credentials); the other targets
    /// stay, in order.
    pub fn take_network_scope_credential_ids(&mut self) -> (ids: Vec<u128>)
        ensures
            ids@ == network_ids(old(self).integration_targets@),
            final(self).integration_targets@ == other_targets(old(self).integration_targets@),
            final(self).scan_count == old(self).scan_count,
            final(self).force_full_scan == old(self).force_full_scan,
            final(self).run_type == old(self).run_type,
    {
        let ghost orig = self.integration_targets@;
        let mut ids: Vec<u128> = Vec::new();
        let mut kept: Vec<ScopedTarget<T>> = Vec::new();
        let mut rest: Vec<ScopedTarget<T>> = Vec::new();
        std::mem::swap(&mut rest, &mut self.integration_targets);
        let n = rest.len();
        let mut i: usize = 0;
        assert(rest@.subrange(0, n as int) =~= rest@);
        assert(orig.take(0) =~= Seq::<ScopedTarget<T>>::empty());
        while i < n
            invariant
                n == orig.len(),
                i <= n,
                rest@ == orig.subrange(i as int, n as int),
                ids@ == network_ids(orig.take(i as int)),
                kept@ == other_targets(orig.take(i as int)),
            decreases n - i,
        {
            let t = rest.remove(0);
            proof {
                assert(rest@ =~= orig.subrange(i + 1, n as int));
                assert(orig.take(i + 1).drop_last() =~= orig.take(i as int));
                assert(orig.take(i + 1).last() == orig[i as int]);
            }
            match t {
                ScopedTarget::Network { credential_id } => {
                    ids.push(credential_id);
                },
                ScopedTarget::Other(x) => {
                    kept.push(ScopedTarget::Other(x));
                },
            }
            i = i + 1;
        }
        assert(orig.take(n as int) =~= orig);
        self.integration_targets = kept;
        ids
    }

    /// Folds a successfully completed scan into the row: one more scan, no
    /// forced full scan pending, and the one-shot targets dropped.
    pub fn apply_successful_scan(&mut self)
        requires
            old(self).scan_count < u32::MAX,
        ensures
            final(self).scan_count == old(self).scan_count + 1,
            !final(self).force_full_scan,
            final(self).integration_targets@.len() == 0,
            final(self).run_type == old(self).run_type,
    {
        self.scan_count = self.scan_count + 1;
        self.force_full_scan = false;
        self.integration_targets = Vec::new();
    }

    /// Switches off a scheduled discovery; other kinds are left alone.
    pub fn disable(&mut self)
        ensures
            match old(self).run_type {
                RunKind::Scheduled { timezone, .. } => final(self).run_type == (RunKind::Scheduled { enabled: false, timezone }),
                _ => final(self).run_type == old(self).run_type,
            },
            final(self).scan_count == old(self).scan_count,
            final(self).force_full_scan == old(self).force_full_scan,
            final(self).integration_targets@ == old(self).integration_targets@,
    {
        match &mut self.run_type {
            RunKind::Scheduled { enabled, .. } => {
                *enabled = false;
            },
            _ => {},
        }
    }
}

/// Whether a text names an IANA timezone.
pub uninterp spec fn iana_timezone(name: Seq<char>) -> bool;

/// `name.parse::<chrono_tz::Tz>().is_ok()`. The result is named.
#[verifier::external_body]
fn is_iana_timezone(name: &str) -> (b: bool)
    ensures
        b == iana_timezone(name@),
{
    name.parse::<chrono_tz::Tz>().is_ok()
}

/// Why a schedule was refused.
#[derive(Debug, Clone, PartialEq, Eq)]
pub struct InvalidTimezone {
    pub message: String,
}

/// Checks a schedule's timezone: absent, or an IANA name. The error tells
/// which name was refused.
pub fn validate_timezone(run_type: &RunKind) -> (r: Result<(), InvalidTimezone>)
    ensures
        match run_type {
            RunKind::Scheduled { timezone: Some(tz), .. } => match r {
                Ok(()) => iana_timezone(tz@),
                Err(e) => !iana_timezone(tz@) && e.message@ == "Invalid timezone '"@ + tz@
                    + "'. Use an IANA timezone like 'America/New_York'."@,
            },
            _ => r is Ok,
        },
{
    match run_type {
        RunKind::Scheduled { timezone: Some(tz), .. } => {
            if is_iana_timezone(tz.as_str()) {
                Ok(())
            } else {
                let mut message = String::new();
                message.append("Invalid timezone '");
                message.append(tz.as_str());
                message.append("'. Use an IANA timezone like 'America/New_York'.");
                Err(InvalidTimezone { message })
            }
        },
        _ => Ok(()),
    }
}

} // verus!
