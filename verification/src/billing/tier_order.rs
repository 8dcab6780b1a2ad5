//! The order of plan tiers: the cloud tiers rise from Free through Starter,
//! Pro, Team and Business to Enterprise; every other tier is comparable only
//! to itself.
use vstd::prelude::*;

use std::cmp::Ordering;

use crate::billing::plan::BillingPlanDiscriminants;

verus! {

/// The rank of a cloud tier; `None` off the cloud ladder.
pub open spec fn cloud_rank(d: BillingPlanDiscriminants) -> Option<u8> {
    match d {
        BillingPlanDiscriminants::Free => Some(0u8),
        BillingPlanDiscriminants::Starter => Some(1u8),
        BillingPlanDiscriminants::Pro => Some(2u8),
        BillingPlanDiscriminants::Team => Some(3u8),
        BillingPlanDiscriminants::Business => Some(4u8),
        BillingPlanDiscriminants::Enterprise => Some(5u8),
        _ => None,
    }
}

/// How two tiers compare: by rank on the cloud ladder; otherwise equal to
/// itself and incomparable to anything else.
pub open spec fn tier_order(a: BillingPlanDiscriminants, b: BillingPlanDiscriminants) -> Option<Ordering> {
    match (cloud_rank(a), cloud_rank(b)) {
        (Some(x), Some(y)) => if x < y {
            Some(Ordering::Less)
        } else if x == y {
            Some(Ordering::Equal)
        } else {
            Some(Ordering::Greater)
        },
        _ => if a == b { Some(Ordering::Equal) } else { None },
    }
}

fn rank(d: BillingPlanDiscriminants) -> (r: Option<u8>)
    ensures
        r == cloud_rank(d),
{
    match d {
        BillingPlanDiscriminants::Free => Some(0),
        BillingPlanDiscriminants::Starter => Some(1),
        BillingPlanDiscriminants::Pro => Some(2),
        BillingPlanDiscriminants::Team => Some(3),
        BillingPlanDiscriminants::Business => Some(4),
        BillingPlanDiscriminants::Enterprise => Some(5),
        _ => None,
    }
}

impl PartialOrd for BillingPlanDiscriminants {
    fn partial_cmp(&self, other: &Self) -> (r: Option<Ordering>) {
        match (rank(*self), rank(*other)) {
            (Some(x), Some(y)) => if x < y {
                Some(Ordering::Less)
            } else if x == y {
                Some(Ordering::Equal)
            } else {
                Some(Ordering::Greater)
            },
            _ => if *self == *other { Some(Ordering::Equal) } else { None },
        }
    }
}

impl vstd::std_specs::cmp::PartialOrdSpecImpl for BillingPlanDiscriminants {
    open spec fn obeys_partial_cmp_spec() -> bool {
        true
    }

    open spec fn partial_cmp_spec(&self, other: &BillingPlanDiscriminants) -> Option<Ordering> {
        tier_order(*self, *other)
    }
}

/// How two tiers compare (see `tier_order`).
pub fn compare_tiers(a: BillingPlanDiscriminants, b: BillingPlanDiscriminants) -> (r: Option<Ordering>)
    ensures
        r == tier_order(a, b),
{
    a.partial_cmp(&b)
}

/// The tier order is a partial order: every tier equals itself, the order
/// is antisymmetric and transitive, and any two cloud tiers are comparable.
pub proof fn lemma_tier_order_is_partial_order(a: BillingPlanDiscriminants, b: BillingPlanDiscriminants, c: BillingPlanDiscriminants)
    ensures
        tier_order(a, a) == Some(Ordering::Equal),
        tier_order(a, b) == Some(Ordering::Equal) ==> a == b,
        tier_order(a, b) == Some(Ordering::Less) <==> tier_order(b, a) == Some(Ordering::Greater),
        tier_order(a, b) is None <==> tier_order(b, a) is None,
        tier_order(a, b) == Some(Ordering::Less) && tier_order(b, c) == Some(Ordering::Less) ==> tier_order(a, c) == Some(Ordering::Less),
        cloud_rank(a) is Some && cloud_rank(b) is Some ==> tier_order(a, b) is Some,
{
}

} // verus!
