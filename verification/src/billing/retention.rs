//! Snapshot retention windows by plan tier.
use vstd::prelude::*;

use crate::billing::plan::BillingPlan;

verus! {

/// Retention window by tier for the sweep: SaaS tiers have fixed windows and
/// ignore the override; self-hosted, enterprise and demo deployments take the
/// override and default to 90 days. `0` disables snapshots.
pub open spec fn sweep_retention_days(plan: BillingPlan, env_override: Option<u32>) -> u32 {
    match plan {
        BillingPlan::Free(_) => 0,
        BillingPlan::Starter(_) => 7,
        BillingPlan::Pro(_) => 30,
        BillingPlan::Business(_) => 90,
        BillingPlan::Team(_) => 90,
        _ => match env_override {
            Some(days) => days,
            None => 90,
        },
    }
}

/// Resolves the retention window in days for a plan. `0` disables snapshots.
pub fn snapshot_retention_days(plan: &BillingPlan, env_override: Option<u32>) -> (r: u32)
    ensures
        r == sweep_retention_days(*plan, env_override),
{
    match plan {
        BillingPlan::Free(_) => 0,
        BillingPlan::Starter(_) => 7,
        BillingPlan::Pro(_) => 30,
        BillingPlan::Business(_) | BillingPlan::Team(_) => 90,
        BillingPlan::Community(_)
        | BillingPlan::CommercialSelfHosted(_)
        | BillingPlan::Enterprise(_)
        | BillingPlan::Demo(_) => match env_override {
            Some(days) => days,
            None => 90,
        },
    }
}

} // verus!
