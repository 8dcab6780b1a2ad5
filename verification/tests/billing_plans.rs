use std::cmp::Ordering;

use scanopy::billing::api::EnterpriseInquiryRequest;
use scanopy::billing::features::{features_of_tier, Feature};
use scanopy::billing::plan::{
    format_cents_usd, BillingPlan, BillingPlanDiscriminants, BillingRate, PlanCatalog, PlanConfig, RecurringInterval,
};
use scanopy::billing::stripe_sync::{addon_item_updates, plan_stripe_setup, PriceProduct, SubscriptionItem};
use scanopy::billing::subscription::{
    checkout_route, checkout_terms, CheckoutOrgState, CheckoutRoute, downgrade_message, duplicate_subscriptions, first_live_subscription, paid_subscription_active,
    plan_change_message, plan_subscription_update, preview_plan_change, proration_for, ProrationBehavior,
    SubscriptionStatus, SubscriptionSummary, SubscriptionUpdateState,
};
use scanopy::billing::cancel::PlanStatus;
use scanopy::billing::tier_order::compare_tiers;

fn pro() -> BillingPlan {
    BillingPlan::Pro(PlanConfig {
        base_cents: 1499,
        rate: BillingRate::Month,
        trial_days: 14,
        seat_cents: Some(500),
        network_cents: Some(300),
        host_cents: None,
        included_seats: Some(1),
        included_networks: Some(3),
        included_hosts: None,
    })
}

fn free() -> BillingPlan {
    BillingPlan::Free(PlanConfig { included_hosts: Some(25), included_networks: Some(1), included_seats: Some(1), ..Default::default() })
}

fn catalog() -> PlanCatalog {
    PlanCatalog {
        free: free(),
        community: BillingPlan::Community(PlanConfig::default()),
        enterprise: BillingPlan::Enterprise(PlanConfig::default()),
        commercial_self_hosted: BillingPlan::CommercialSelfHosted(PlanConfig::default()),
        purchasable: vec![
            BillingPlan::Starter(PlanConfig { base_cents: 499, ..Default::default() }),
            pro(),
            BillingPlan::Business(PlanConfig { base_cents: 9999, ..Default::default() }),
        ],
    }
}

#[test]
fn lookup_keys_name_product_price_and_rate() {
    let p = pro();
    assert_eq!(p.stripe_product_id(), "pro");
    assert_eq!(p.stripe_base_price_lookup_key(), "pro_1499_Month");
    assert_eq!(p.stripe_seat_addon_price_lookup_key().as_deref(), Some("pro_seats_500_Month"));
    assert_eq!(p.stripe_network_addon_price_lookup_key().as_deref(), Some("pro_networks_300_Month"));
    assert_eq!(free().stripe_seat_addon_price_lookup_key(), None);
    let csh = BillingPlan::CommercialSelfHosted(PlanConfig { rate: BillingRate::Year, ..Default::default() });
    assert_eq!(csh.stripe_product_id(), "commercialselfhosted");
    assert_eq!(csh.stripe_base_price_lookup_key(), "commercialselfhosted_0_Year");
}

#[test]
fn prices_are_formatted_in_dollars() {
    assert_eq!(format_cents_usd(1499), "$14.99");
    assert_eq!(format_cents_usd(5), "$0.05");
    assert_eq!(format_cents_usd(0), "$0.00");
    assert_eq!(format_cents_usd(-250), "-$2.50");
    assert_eq!(pro().base_price_formatted(), "$14.99/mo");
    let yearly = BillingPlan::Pro(PlanConfig { base_cents: 14388, rate: BillingRate::Year, ..Default::default() });
    assert_eq!(yearly.base_price_formatted(), "$143.88/yr");
    assert_eq!(yearly.billing_period(), "Yearly");
}

#[test]
fn names_and_flags() {
    let csh = BillingPlan::CommercialSelfHosted(PlanConfig::default());
    assert_eq!(csh.name(), "On-Premise");
    assert_eq!(csh.display_name(), "CommercialSelfHosted");
    assert!(csh.is_commercial() && csh.is_self_hosted());
    assert!(!free().is_commercial());
    assert_eq!(BillingPlan::Enterprise(PlanConfig::default()).custom_price(), Some("Custom"));
    assert_eq!(free().custom_price(), Some("Free"));
    assert_eq!(pro().custom_price(), None);
    assert_eq!(pro().previous_tier(), Some(BillingPlanDiscriminants::Starter));
    assert_eq!(free().previous_tier(), None);
    assert_eq!(pro().host_limit(), None);
    assert_eq!(pro().network_limit(), Some(3));
}

#[test]
fn plans_are_equal_by_configuration() {
    assert!(pro() == pro());
    assert!(BillingPlan::Starter(PlanConfig::default()) == BillingPlan::Free(PlanConfig::default()));
    assert!(pro() != free());
}

#[test]
fn feature_table_climbs_the_ladder() {
    let f = features_of_tier(BillingPlanDiscriminants::Free);
    assert!(!f.share_views && f.network_mapping && f.csv_export);
    assert_eq!(f.snapshot_retention_days, 0);
    let p = pro().features();
    assert!(p.api_access && p.share_views && !p.audit_logs);
    assert_eq!(p.snapshot_retention_days, 30);
    assert!(pro().has_feature("api_access"));
    assert!(!pro().has_feature("webhooks"));
    assert!(!pro().has_feature("no_such_feature"));
    assert!(pro().has_feature("snapshot_retention_days"));
    assert!(!free().has_feature("snapshot_retention_days"));
    let ids = free().enabled_feature_ids();
    assert!(ids.contains(&"network_mapping") && !ids.contains(&"share_views"));
    assert_eq!(Feature::from_id("pdf_export"), Some(Feature::PdfExport));
    assert_eq!(Feature::PdfExport.id(), "pdf_export");
    assert_eq!(Feature::from_id("PDF"), None);
}

#[test]
fn incremental_features_are_what_a_tier_adds() {
    let c = catalog();
    let added = pro().incremental_features(&c);
    assert!(added.contains(&"api_access"));
    assert!(!added.contains(&"network_mapping"));
    let base = free().incremental_features(&c);
    assert_eq!(base, free().enabled_feature_ids());
    assert_eq!(BillingPlan::default_for_discriminant(BillingPlanDiscriminants::Pro, &c), Some(pro()));
    assert_eq!(BillingPlan::default_for_discriminant(BillingPlanDiscriminants::Team, &c), None);
    assert!(c.default_plan() == BillingPlan::Community(PlanConfig::default()));
}

#[test]
fn tiers_are_partially_ordered() {
    assert_eq!(compare_tiers(BillingPlanDiscriminants::Free, BillingPlanDiscriminants::Pro), Some(Ordering::Less));
    assert_eq!(compare_tiers(BillingPlanDiscriminants::Business, BillingPlanDiscriminants::Team), Some(Ordering::Greater));
    assert_eq!(compare_tiers(BillingPlanDiscriminants::Enterprise, BillingPlanDiscriminants::Enterprise), Some(Ordering::Equal));
    assert_eq!(compare_tiers(BillingPlanDiscriminants::Community, BillingPlanDiscriminants::Free), None);
    assert_eq!(compare_tiers(BillingPlanDiscriminants::Demo, BillingPlanDiscriminants::Demo), Some(Ordering::Equal));
    assert!(BillingPlanDiscriminants::Starter < BillingPlanDiscriminants::Pro);
    assert!(!(BillingPlanDiscriminants::Community < BillingPlanDiscriminants::Pro) && !(BillingPlanDiscriminants::Community > BillingPlanDiscriminants::Pro));
}

#[test]
fn stripe_setup_for_purchasable_plans_only() {
    let s = plan_stripe_setup(&pro()).unwrap();
    assert_eq!(s.product_id, "pro");
    assert_eq!(s.name, "Pro");
    let kinds: Vec<PriceProduct> = s.prices.iter().map(|p| p.product).collect();
    assert_eq!(kinds, vec![PriceProduct::Plan, PriceProduct::ExtraSeats, PriceProduct::ExtraNetworks]);
    assert_eq!(s.prices[1].lookup_key, "pro_seats_500_Month");
    assert_eq!(s.prices[2].unit_amount, 300);
    assert!(s.features.contains(&Feature::ApiAccess));
    assert!(plan_stripe_setup(&BillingPlan::Enterprise(PlanConfig::default())).is_none());
    assert!(plan_stripe_setup(&BillingPlan::Demo(PlanConfig::default())).is_none());
    assert_eq!(plan_stripe_setup(&free()).unwrap().prices.len(), 1);
}

#[test]
fn addon_items_follow_usage_beyond_the_plan() {
    let seat = "price_seat".to_string();
    let net = "price_net".to_string();
    let items = vec![
        SubscriptionItem { id: "si_base".to_string(), price_id: "price_base".to_string() },
        SubscriptionItem { id: "si_net".to_string(), price_id: "price_net".to_string() },
    ];
    let updates = addon_item_updates(&pro(), 3, 4, &items, Some(&seat), Some(&net)).unwrap();
    assert_eq!(updates.len(), 2);
    assert_eq!(updates[0].id.as_deref(), Some("si_net"));
    assert_eq!(updates[0].quantity, 0);
    assert!(updates[0].deleted);
    assert_eq!(updates[1].id, None);
    assert_eq!(updates[1].price, "price_seat");
    assert_eq!(updates[1].quantity, 3);
    assert!(!updates[1].deleted);
    assert!(addon_item_updates(&free(), 9, 9, &items, Some(&seat), Some(&net)).is_none());
}

#[test]
fn live_and_duplicate_subscriptions() {
    let subs = vec![
        SubscriptionSummary { id: "a".to_string(), status: SubscriptionStatus::Canceled },
        SubscriptionSummary { id: "b".to_string(), status: SubscriptionStatus::Trialing },
        SubscriptionSummary { id: "c".to_string(), status: SubscriptionStatus::Active },
    ];
    assert_eq!(first_live_subscription(&subs), Some(1));
    assert_eq!(duplicate_subscriptions("b", &subs), vec![2]);
    assert_eq!(first_live_subscription(&vec![]), None);
}

#[test]
fn subscription_update_decisions() {
    let base = SubscriptionUpdateState {
        cancel_at_period_end: false,
        has_owner: true,
        prior_plan: free(),
        prior_status_known: true,
        prior_was_trialing: false,
        plan_selection_pending: true,
        has_customer: true,
        status: SubscriptionStatus::Trialing,
        plan: pro(),
    };
    let a = plan_subscription_update(&base);
    assert!(a.checkout_completed && a.trial_started && a.plan_selected && a.cancel_duplicates && a.plan_changed);
    assert!(!a.announce_cancellation && !a.trial_ended && !a.plan_change_is_downgrade);

    let converted = SubscriptionUpdateState { prior_plan: pro(), prior_was_trialing: true, status: SubscriptionStatus::Active, ..base };
    let a = plan_subscription_update(&converted);
    assert!(a.trial_ended && !a.checkout_completed && !a.plan_changed);

    let cancelling = SubscriptionUpdateState { cancel_at_period_end: true, ..base };
    let a = plan_subscription_update(&cancelling);
    assert!(a.announce_cancellation && !a.cancel_duplicates && !a.checkout_completed);
}

#[test]
fn paid_status_and_messages() {
    assert!(paid_subscription_active(Some(pro()), Some(PlanStatus::PastDue)));
    assert!(!paid_subscription_active(Some(pro()), Some(PlanStatus::Cancelled)));
    assert!(!paid_subscription_active(Some(free()), Some(PlanStatus::Active)));
    assert!(!paid_subscription_active(None, Some(PlanStatus::Active)));
    assert_eq!(downgrade_message(true), "Your plan will change to Free when your trial ends.");
    assert_eq!(plan_change_message(&pro(), true), "Plan changed to Pro. Your trial continues.");
    assert_eq!(plan_change_message(&pro(), false), "Plan changed to Pro");
    assert_eq!(proration_for(SubscriptionStatus::Trialing), ProrationBehavior::NoProration);
    assert_eq!(proration_for(SubscriptionStatus::Active), ProrationBehavior::AlwaysInvoice);
    let p = preview_plan_change(&free().config(), 30, 2, 1);
    assert_eq!((p.excess_hosts, p.excess_networks, p.excess_seats), (5, 1, 0));
}

#[test]
fn checkout_trial_only_for_new_customers() {
    let t = checkout_terms(&pro(), Some(&free()), false);
    assert_eq!(t.trial_days, Some(14));
    assert!(!t.always_collect_payment_method);
    assert!(t.collect_business_details);
    let returning = checkout_terms(&pro(), Some(&pro()), false);
    assert_eq!(returning.trial_days, None);
    assert!(returning.always_collect_payment_method);
    assert_eq!(checkout_terms(&pro(), None, true).trial_days, None);
    let starter = BillingPlan::Starter(PlanConfig { base_cents: 0, ..Default::default() });
    let t = checkout_terms(&starter, None, false);
    assert_eq!(t.trial_days, None);
    assert!(!t.always_collect_payment_method && !t.collect_business_details);
}

#[test]
fn enterprise_inquiry_deal() {
    let r = EnterpriseInquiryRequest {
        email: "a@b.c".to_string(),
        name: "Ann".to_string(),
        company: "Acme".to_string(),
        team_size: "11-25".to_string(),
        message: "hi".to_string(),
        urgency: None,
        network_count: Some(12),
        plan_type: Some("enterprise".to_string()),
    };
    assert!(r.has_required_fields());
    assert_eq!(r.deal_name(), "Enterprise Inquiry - Acme");
    let attrs = r.deal_attributes();
    assert_eq!(attrs[3], ("network_count".to_string(), Some("12".to_string())));
    assert_eq!(attrs[2], ("urgency".to_string(), None));
    let missing = EnterpriseInquiryRequest { company: String::new(), ..r };
    assert!(!missing.has_required_fields());
}

#[test]
fn rates_map_to_recurring_intervals() {
    assert_eq!(BillingRate::Month.stripe_recurring_interval(), RecurringInterval::Month);
    assert_eq!(BillingRate::Year.stripe_recurring_interval(), RecurringInterval::Year);
    assert_eq!(BillingRate::Year.billing_period(), "Yearly");
}

#[test]
fn invites_and_config_replacement() {
    assert!(pro().can_invite_users());
    assert!(!free().can_invite_users());
    assert!(BillingPlan::Community(PlanConfig::default()).can_invite_users());

    let mut plan = pro();
    plan.set_config(PlanConfig { base_cents: 2999, ..Default::default() });
    assert_eq!(plan.discriminant(), BillingPlanDiscriminants::Pro);
    assert_eq!(plan.config().base_cents, 2999);
    assert_eq!(plan.config().seat_cents, None);
}

#[test]
fn checkout_requests_are_routed() {
    let trial_pro = BillingPlan::Pro(PlanConfig { base_cents: 1499, trial_days: 14, ..Default::default() });
    let no_trial_team = BillingPlan::Team(PlanConfig { base_cents: 4999, trial_days: 0, ..Default::default() });
    let offered = vec![free(), trial_pro, no_trial_team];
    let new_org = CheckoutOrgState {
        plan_status: None,
        has_stripe_customer: false,
        current_plan: None,
        has_trialed: false,
        has_payment_method: false,
    };
    let subscriber = CheckoutOrgState {
        plan_status: Some(PlanStatus::Active),
        has_stripe_customer: true,
        current_plan: Some(free()),
        ..new_org
    };

    assert_eq!(checkout_route(None, &trial_pro, &new_org), CheckoutRoute::BillingSetupIncomplete);
    assert_eq!(checkout_route(Some(&offered), &pro(), &new_org), CheckoutRoute::InvalidPlan);

    assert_eq!(checkout_route(Some(&offered), &free(), &new_org), CheckoutRoute::ActivateFree);
    assert_eq!(checkout_route(Some(&offered), &trial_pro, &new_org), CheckoutRoute::StartTrial);
    assert_eq!(checkout_route(Some(&offered), &no_trial_team, &new_org), CheckoutRoute::Checkout);

    assert_eq!(checkout_route(Some(&offered), &free(), &subscriber), CheckoutRoute::ScheduleDowngrade);
    assert_eq!(checkout_route(Some(&offered), &trial_pro, &subscriber), CheckoutRoute::StartTrial);
    let trialed = CheckoutOrgState { has_trialed: true, ..subscriber };
    assert_eq!(checkout_route(Some(&offered), &trial_pro, &trialed), CheckoutRoute::Checkout);
    let paying = CheckoutOrgState { has_payment_method: true, current_plan: Some(trial_pro), ..subscriber };
    assert_eq!(checkout_route(Some(&offered), &no_trial_team, &paying), CheckoutRoute::ChangePlan);
    let trialing = CheckoutOrgState { plan_status: Some(PlanStatus::Trialing), ..subscriber };
    assert_eq!(checkout_route(Some(&offered), &no_trial_team, &trialing), CheckoutRoute::ChangePlan);
    let status_without_customer = CheckoutOrgState { has_stripe_customer: false, ..subscriber };
    assert_eq!(checkout_route(Some(&offered), &free(), &status_without_customer), CheckoutRoute::ActivateFree);
}

#[test]
fn every_cloud_tier_but_free_has_a_previous_tier() {
    let team = BillingPlan::Team(PlanConfig::default());
    assert_eq!(team.previous_tier(), Some(BillingPlanDiscriminants::Pro));
    let business = BillingPlan::Business(PlanConfig::default());
    assert_eq!(business.previous_tier(), Some(BillingPlanDiscriminants::Team));
    let starter = BillingPlan::Starter(PlanConfig::default());
    assert_eq!(starter.previous_tier(), Some(BillingPlanDiscriminants::Free));
    assert_eq!(BillingPlan::Community(PlanConfig::default()).previous_tier(), None);
    assert_eq!(BillingPlan::Demo(PlanConfig::default()).previous_tier(), None);
}

#[test]
fn enabled_ids_agree_with_has_feature() {
    for plan in [free(), pro(), BillingPlan::Team(PlanConfig::default()), BillingPlan::Business(PlanConfig::default())] {
        let ids = plan.enabled_feature_ids();
        for f in ["share_views", "api_access", "webhooks", "network_mapping", "csv_export", "snapshot_retention_days"] {
            assert_eq!(ids.contains(&f), plan.has_feature(f), "{f}");
        }
        let mut sorted = ids.clone();
        sorted.sort();
        sorted.dedup();
        assert_eq!(sorted.len(), ids.len());
    }
    assert!(pro().enabled_feature_ids().contains(&"snapshot_retention_days"));
    assert!(!free().enabled_feature_ids().contains(&"snapshot_retention_days"));
    let free_list: Vec<Feature> = free().features().into();
    assert_eq!(free_list, vec![Feature::NetworkMapping, Feature::PngExport, Feature::DiscoveryIntegrations, Feature::CsvExport]);
}

#[test]
fn fixtures_are_monthly() {
    let c = catalog();
    for d in [BillingPlanDiscriminants::Free, BillingPlanDiscriminants::Community, BillingPlanDiscriminants::Enterprise, BillingPlanDiscriminants::CommercialSelfHosted] {
        let p = BillingPlan::default_for_discriminant(d, &c).unwrap();
        assert_eq!(p.discriminant(), d);
        assert_eq!(p.config().rate, BillingRate::Month);
    }
}

#[test]
fn base_price_keys_tell_plans_apart() {
    assert_eq!(pro().stripe_base_price_lookup_key(), "pro_1499_Month");
    let yearly = BillingPlan::Pro(PlanConfig { base_cents: 1499, rate: BillingRate::Year, ..Default::default() });
    assert_ne!(pro().stripe_base_price_lookup_key(), yearly.stripe_base_price_lookup_key());
    let team = BillingPlan::Team(PlanConfig { base_cents: 1499, ..Default::default() });
    assert_ne!(pro().stripe_base_price_lookup_key(), team.stripe_base_price_lookup_key());
    let negative = BillingPlan::Pro(PlanConfig { base_cents: -1499, ..Default::default() });
    assert_eq!(negative.stripe_base_price_lookup_key(), "pro_-1499_Month");
}
