use scanopy::billing::cancel::{BillingReason, InvoiceBillingReason};
use scanopy::billing::stripe_metadata::{
    deleted_subscription_target, trial_will_end_target, DeletedSubscriptionError, TrialNoticeError,
};
use scanopy::billing::cancel::{extract_cancellation_details, CancelReason, CancellationDetails, CancellationFeedback, CancellationRequestReason, SaveOffer};
use scanopy::billing::stripe_metadata::{
    StripeSubscriptionMetadata, KEY_CANCEL_REASON, KEY_CANCEL_SAVE_OFFER_SHOWN, KEY_ORGANIZATION_ID, KEY_PAUSED_AT,
    KEY_PAUSE_DURATION_DAYS, KEY_PLAN,
};

/// A plan's JSON text, as the caller encodes plans.
const FREE_PLAN_JSON: &str = r#"{"type":"Free","base_cents":0,"rate":"Month","trial_days":0,"seat_cents":null,"network_cents":null,"host_cents":null,"included_seats":1,"included_networks":1,"included_hosts":25}"#;

fn same(a: &StripeSubscriptionMetadata, b: &StripeSubscriptionMetadata) -> bool {
    a.organization_id == b.organization_id
        && a.plan == b.plan
        && a.scanopy_pause_duration_days == b.scanopy_pause_duration_days
        && a.scanopy_paused_at == b.scanopy_paused_at
        && a.scanopy_trial_extended_days == b.scanopy_trial_extended_days
        && a.scanopy_cancel_reason == b.scanopy_cancel_reason
        && a.scanopy_cancel_save_offer_shown == b.scanopy_cancel_save_offer_shown
        && a.scanopy_cancel_save_offer_redeemed == b.scanopy_cancel_save_offer_redeemed
}

fn sample_full() -> StripeSubscriptionMetadata {
    StripeSubscriptionMetadata {
        organization_id: Some(uuid::Uuid::new_v4().as_u128()),
        plan: Some(FREE_PLAN_JSON.to_string()),
        scanopy_pause_duration_days: Some(60),
        scanopy_paused_at: Some(1_700_000_000),
        scanopy_trial_extended_days: Some(7),
        scanopy_cancel_reason: Some(CancelReason::TooExpensive),
        scanopy_cancel_save_offer_shown: Some(vec![SaveOffer::Pause, SaveOffer::Discount]),
        scanopy_cancel_save_offer_redeemed: Some(SaveOffer::Pause),
    }
}

fn entry(k: &str, v: &str) -> (String, String) {
    (k.to_string(), v.to_string())
}

#[test]
fn fully_populated_round_trips() {
    let original = sample_full();
    let serialized = original.to_stripe();
    let parsed = StripeSubscriptionMetadata::from_stripe(&serialized);
    assert!(same(&parsed, &original));
}

#[test]
fn empty_round_trips() {
    let original = StripeSubscriptionMetadata::default();
    let serialized = original.to_stripe();
    assert!(serialized.is_empty());
    let parsed = StripeSubscriptionMetadata::from_stripe(&serialized);
    assert!(same(&parsed, &original));
}

#[test]
fn partial_scanopy_only_round_trips() {
    let original = StripeSubscriptionMetadata {
        scanopy_cancel_reason: Some(CancelReason::Other),
        scanopy_cancel_save_offer_shown: Some(vec![]),
        ..Default::default()
    };
    let serialized = original.to_stripe();
    let parsed = StripeSubscriptionMetadata::from_stripe(&serialized);
    assert!(same(&parsed, &original));
}

#[test]
fn malformed_values_degrade_to_none() {
    let raw = vec![
        entry(KEY_ORGANIZATION_ID, "not-a-uuid"),
        entry(KEY_PAUSE_DURATION_DAYS, "thirty"),
        entry(KEY_CANCEL_REASON, "bogus_reason"),
        entry(KEY_CANCEL_SAVE_OFFER_SHOWN, "[\"definitely_not_an_offer\"]"),
    ];
    let parsed = StripeSubscriptionMetadata::from_stripe(&raw);
    assert!(parsed.organization_id.is_none());
    assert!(parsed.scanopy_pause_duration_days.is_none());
    assert!(parsed.scanopy_cancel_reason.is_none());
    assert!(parsed.scanopy_cancel_save_offer_shown.is_none());
}

#[test]
fn contains_scanopy_keys_reflects_scanopy_fields_only() {
    let identification_only = StripeSubscriptionMetadata {
        organization_id: Some(uuid::Uuid::new_v4().as_u128()),
        plan: Some(FREE_PLAN_JSON.to_string()),
        ..Default::default()
    };
    assert!(!identification_only.contains_scanopy_keys());
    let with_reason = StripeSubscriptionMetadata { scanopy_cancel_reason: Some(CancelReason::Other), ..Default::default() };
    assert!(with_reason.contains_scanopy_keys());
}

#[test]
fn values_are_written_in_their_encodings() {
    let m = StripeSubscriptionMetadata {
        organization_id: Some(0x0123_4567_89ab_cdef_0123_4567_89ab_cdef),
        scanopy_paused_at: Some(-5),
        scanopy_cancel_save_offer_shown: Some(vec![SaveOffer::Pause, SaveOffer::Downgrade]),
        ..Default::default()
    };
    let out = m.to_stripe();
    assert_eq!(
        out,
        vec![
            entry(KEY_ORGANIZATION_ID, "01234567-89ab-cdef-0123-456789abcdef"),
            entry(KEY_PAUSED_AT, "-5"),
            entry(KEY_CANCEL_SAVE_OFFER_SHOWN, "[\"pause\",\"downgrade\"]"),
        ]
    );
}

#[test]
fn numbers_read_as_std_reads_them() {
    let raw = vec![entry(KEY_PAUSE_DURATION_DAYS, "+30"), entry(KEY_PAUSED_AT, "-9223372036854775808"), entry(KEY_PLAN, "{}")];
    let parsed = StripeSubscriptionMetadata::from_stripe(&raw);
    assert_eq!(parsed.scanopy_pause_duration_days, Some(30));
    assert_eq!(parsed.scanopy_paused_at, Some(i64::MIN));
    assert_eq!(parsed.plan.as_deref(), Some("{}"));
    let too_big = vec![entry(KEY_PAUSE_DURATION_DAYS, "4294967296"), entry(KEY_PAUSED_AT, "9223372036854775808")];
    let parsed = StripeSubscriptionMetadata::from_stripe(&too_big);
    assert_eq!(parsed.scanopy_pause_duration_days, None);
    assert_eq!(parsed.scanopy_paused_at, None);
    let spaced = vec![entry(KEY_PAUSE_DURATION_DAYS, " 3"), entry(KEY_CANCEL_SAVE_OFFER_SHOWN, "[ \"pause\" ]")];
    let parsed = StripeSubscriptionMetadata::from_stripe(&spaced);
    assert_eq!(parsed.scanopy_pause_duration_days, None);
    assert_eq!(parsed.scanopy_cancel_save_offer_shown, Some(vec![SaveOffer::Pause]));
}

#[test]
fn identifiers_name_their_variants() {
    for r in CancelReason::all() {
        assert_eq!(CancelReason::from_id(r.id()), Some(r));
    }
    assert_eq!(CancelReason::from_id("TooExpensive"), None);
    assert_eq!(SaveOffer::from_id("discount"), Some(SaveOffer::Discount));
    assert_eq!(SaveOffer::from_id(""), None);
}

#[test]
fn extract_cancellation_details_none_input() {
    assert_eq!(extract_cancellation_details(None), (None, None));
}

#[test]
fn extract_cancellation_details_all_inner_none() {
    let details = CancellationDetails { comment: None, feedback: None, reason: None };
    assert_eq!(extract_cancellation_details(Some(&details)), (None, None));
}

#[test]
fn extract_cancellation_details_fully_populated() {
    let details = CancellationDetails {
        comment: Some("too pricey for our team".to_string()),
        feedback: Some(CancellationFeedback::TooExpensive),
        reason: Some(CancellationRequestReason::CancellationRequested),
    };
    assert_eq!(
        extract_cancellation_details(Some(&details)),
        (Some(CancellationFeedback::TooExpensive), Some("too pricey for our team".to_string()))
    );
}

#[test]
fn deleted_subscription_and_trial_notice_targets() {
    let org = uuid::Uuid::new_v4();
    let entry = |k: &str, v: &str| (k.to_string(), v.to_string());

    let plain = vec![entry(KEY_ORGANIZATION_ID, &org.to_string())];
    assert_eq!(deleted_subscription_target(&plain), Ok(Some(org.as_u128())));
    let upgrade = vec![entry(KEY_ORGANIZATION_ID, &org.to_string()), entry("cancel_reason", "upgrade")];
    assert_eq!(deleted_subscription_target(&upgrade), Ok(None));
    let other_reason = vec![entry(KEY_ORGANIZATION_ID, &org.to_string()), entry("cancel_reason", "price")];
    assert_eq!(deleted_subscription_target(&other_reason), Ok(Some(org.as_u128())));
    assert_eq!(deleted_subscription_target(&vec![]), Err(DeletedSubscriptionError::MissingOrganization));
    let bad = vec![entry(KEY_ORGANIZATION_ID, "not-a-uuid")];
    assert_eq!(deleted_subscription_target(&bad), Err(DeletedSubscriptionError::InvalidOrganizationId));

    let full = vec![entry(KEY_ORGANIZATION_ID, &org.to_string()), entry(KEY_PLAN, FREE_PLAN_JSON)];
    assert_eq!(trial_will_end_target(true, &full), Ok(None));
    assert_eq!(trial_will_end_target(false, &full), Ok(Some((org.as_u128(), FREE_PLAN_JSON.to_string()))));
    assert_eq!(trial_will_end_target(false, &plain), Err(TrialNoticeError::MissingPlan));
    assert_eq!(trial_will_end_target(false, &bad), Err(TrialNoticeError::InvalidOrganizationId));
    assert_eq!(trial_will_end_target(false, &vec![]), Err(TrialNoticeError::MissingOrganization));

    assert_eq!(BillingReason::from_invoice_reason(Some(InvoiceBillingReason::SubscriptionCycle)), BillingReason::SubscriptionCycle);
    assert_eq!(BillingReason::from_invoice_reason(Some(InvoiceBillingReason::Manual)), BillingReason::Manual);
    assert_eq!(BillingReason::from_invoice_reason(Some(InvoiceBillingReason::QuoteAccept)), BillingReason::Other);
    assert_eq!(BillingReason::from_invoice_reason(None), BillingReason::Other);
}
