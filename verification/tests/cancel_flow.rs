use scanopy::billing::cancel::{CancelReason, SaveOffer};

fn save_offers_for(reason: CancelReason) -> Vec<String> {
    reason.save_offer_ids().iter().map(|s| s.to_string()).collect()
}

#[test]
fn cancel_reason_too_expensive_offers_pause_and_discount() {
    assert_eq!(save_offers_for(CancelReason::TooExpensive), vec!["pause", "discount"]);
}

#[test]
fn cancel_reason_unused_offers_pause_only() {
    assert_eq!(save_offers_for(CancelReason::Unused), vec!["pause"]);
}

#[test]
fn cancel_reasons_without_offers_return_empty_list() {
    for reason in [
        CancelReason::MissingFeatures,
        CancelReason::SwitchedService,
        CancelReason::CustomerService,
        CancelReason::LowQuality,
        CancelReason::TooComplex,
        CancelReason::Other,
    ] {
        assert!(save_offers_for(reason).is_empty(), "{reason:?} should have no save offers");
    }
}

#[test]
fn cancel_reason_id_is_snake_case() {
    assert_eq!(CancelReason::TooExpensive.id(), "too_expensive");
    assert_eq!(CancelReason::Other.id(), "other");
}

#[test]
fn save_offer_id_is_snake_case() {
    assert_eq!(SaveOffer::Pause.id(), "pause");
    assert_eq!(SaveOffer::Discount.id(), "discount");
    assert_eq!(SaveOffer::Downgrade.id(), "downgrade");
}
