use scanopy::billing::plan::{BillingPlan, PlanConfig};
use scanopy::billing::retention::snapshot_retention_days;

fn cfg() -> PlanConfig {
    PlanConfig::default()
}

#[test]
fn default_per_tier_no_override() {
    assert_eq!(snapshot_retention_days(&BillingPlan::Free(cfg()), None), 0);
    assert_eq!(snapshot_retention_days(&BillingPlan::Starter(cfg()), None), 7);
    assert_eq!(snapshot_retention_days(&BillingPlan::Pro(cfg()), None), 30);
    assert_eq!(snapshot_retention_days(&BillingPlan::Business(cfg()), None), 90);
    assert_eq!(snapshot_retention_days(&BillingPlan::Team(cfg()), None), 90);
}

#[test]
fn env_override_applies_to_self_hosted_plans() {
    assert_eq!(snapshot_retention_days(&BillingPlan::Community(cfg()), Some(42)), 42);
    assert_eq!(snapshot_retention_days(&BillingPlan::CommercialSelfHosted(cfg()), Some(42)), 42);
    assert_eq!(snapshot_retention_days(&BillingPlan::Enterprise(cfg()), Some(180)), 180);
    assert_eq!(snapshot_retention_days(&BillingPlan::Demo(cfg()), Some(7)), 7);
}

#[test]
fn env_override_ignored_for_saas_tiers() {
    assert_eq!(snapshot_retention_days(&BillingPlan::Free(cfg()), Some(365)), 0);
    assert_eq!(snapshot_retention_days(&BillingPlan::Starter(cfg()), Some(365)), 7);
    assert_eq!(snapshot_retention_days(&BillingPlan::Pro(cfg()), Some(365)), 30);
    assert_eq!(snapshot_retention_days(&BillingPlan::Business(cfg()), Some(365)), 90);
}

#[test]
fn self_hosted_default_is_90_when_unset() {
    assert_eq!(snapshot_retention_days(&BillingPlan::Community(cfg()), None), 90);
    assert_eq!(snapshot_retention_days(&BillingPlan::Enterprise(cfg()), None), 90);
}

#[test]
fn no_override_returns_plan_fixture_value() {
    assert_eq!(BillingPlan::Free(cfg()).snapshot_retention_days(None), 0);
    assert_eq!(BillingPlan::Starter(cfg()).snapshot_retention_days(None), 7);
    assert_eq!(BillingPlan::Pro(cfg()).snapshot_retention_days(None), 30);
    assert_eq!(BillingPlan::Business(cfg()).snapshot_retention_days(None), 90);
    assert_eq!(BillingPlan::Team(cfg()).snapshot_retention_days(None), 90);
    assert_eq!(BillingPlan::Community(cfg()).snapshot_retention_days(None), 90);
    assert_eq!(BillingPlan::Enterprise(cfg()).snapshot_retention_days(None), 90);
    assert_eq!(BillingPlan::Demo(cfg()).snapshot_retention_days(None), 90);
    assert_eq!(BillingPlan::CommercialSelfHosted(cfg()).snapshot_retention_days(None), 90);
}

#[test]
fn env_override_wins_for_every_plan_tier() {
    let override_value = Some(365);
    assert_eq!(BillingPlan::Free(cfg()).snapshot_retention_days(override_value), 365);
    assert_eq!(BillingPlan::Starter(cfg()).snapshot_retention_days(override_value), 365);
    assert_eq!(BillingPlan::Pro(cfg()).snapshot_retention_days(override_value), 365);
    assert_eq!(BillingPlan::Business(cfg()).snapshot_retention_days(override_value), 365);
    assert_eq!(BillingPlan::Community(cfg()).snapshot_retention_days(override_value), 365);
    assert_eq!(BillingPlan::Enterprise(cfg()).snapshot_retention_days(override_value), 365);
}

#[test]
fn override_of_zero_disables_snapshots() {
    assert_eq!(BillingPlan::Pro(cfg()).snapshot_retention_days(Some(0)), 0);
    assert_eq!(BillingPlan::Business(cfg()).snapshot_retention_days(Some(0)), 0);
}
