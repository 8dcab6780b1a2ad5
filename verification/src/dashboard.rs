//! The dashboard's usage figures.
use vstd::prelude::*;

use crate::billing::plan::BillingPlan;

verus! {

/// Entity counts of one network.
pub struct NetworkSummary {
    pub id: u128,
    pub name: String,
    pub host_count: u64,
    pub service_count: u64,
    pub subnet_count: u64,
    pub daemon_count: u64,
}

/// Usage against the plan's allowances; a `None` limit is unlimited.
#[derive(Debug, Clone, Copy, PartialEq, Eq, Structural)]
pub struct PlanUsage {
    pub host_limit: Option<u64>,
    pub host_count: u64,
    pub network_limit: Option<u64>,
    pub network_count: u64,
    pub seat_limit: Option<u64>,
    pub seat_count: u64,
}

/// The usage figures of an organization on `plan` (the Free plan when it
/// has none) with the given counts.
pub fn plan_usage(plan: &BillingPlan, host_count: u64, network_count: u64, seat_count: u64) -> (u: PlanUsage)
    ensures
        u == (PlanUsage {
            host_limit: plan.spec_config().included_hosts,
            host_count,
            network_limit: plan.spec_config().included_networks,
            network_count,
            seat_limit: plan.spec_config().included_seats,
            seat_count,
        }),
{
    PlanUsage {
        host_limit: plan.host_limit(),
        host_count,
        network_limit: plan.network_limit(),
        network_count,
        seat_limit: plan.seat_limit(),
        seat_count,
    }
}

} // verus!
