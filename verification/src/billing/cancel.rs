//! The cancellation flow's vocabulary: reasons, save offers, limits hit,
//! subscription states and invoice reasons.
use vstd::prelude::*;

verus! {

/// Why a customer cancels.
#[derive(Debug, Clone, Copy, PartialEq, Eq, Structural, Hash)]
pub enum CancelReason {
    TooExpensive,
    MissingFeatures,
    SwitchedService,
    Unused,
    CustomerService,
    LowQuality,
    TooComplex,
    Other,
}

/// An offer made to keep a customer who is about to cancel.
#[derive(Debug, Clone, Copy, PartialEq, Eq, Structural, Hash)]
pub enum SaveOffer {
    Pause,
    Discount,
    Downgrade,
}

/// The dimension of a plan limit that was hit.
#[derive(Debug, Clone, Copy, PartialEq, Eq, Structural, Hash)]
pub enum LimitType {
    Networks,
    Hosts,
    Seats,
    Snapshots,
}

/// Where the request that hit a limit came from.
#[derive(Debug, Clone, Copy, PartialEq, Eq, Structural, Hash)]
pub enum LimitSource {
    Api,
    Discovery,
}

/// Subscription status as the server derives it.
#[derive(Debug, Clone, Copy, PartialEq, Eq, Structural, Hash)]
pub enum PlanStatus {
    Active,
    Trialing,
    PastDue,
    Paused,
    PendingCancellation,
    Cancelled,
}

/// Why an invoice was issued.
#[derive(Debug, Clone, Copy, PartialEq, Eq, Structural, Hash)]
pub enum BillingReason {
    SubscriptionCycle,
    SubscriptionCreate,
    SubscriptionUpdate,
    Manual,
    Other,
}

pub open spec fn cancel_reason_id(r: CancelReason) -> &'static str {
    match r {
        CancelReason::TooExpensive => "too_expensive",
        CancelReason::MissingFeatures => "missing_features",
        CancelReason::SwitchedService => "switched_service",
        CancelReason::Unused => "unused",
        CancelReason::CustomerService => "customer_service",
        CancelReason::LowQuality => "low_quality",
        CancelReason::TooComplex => "too_complex",
        CancelReason::Other => "other",
    }
}

pub open spec fn save_offer_id(o: SaveOffer) -> &'static str {
    match o {
        SaveOffer::Pause => "pause",
        SaveOffer::Discount => "discount",
        SaveOffer::Downgrade => "downgrade",
    }
}

/// The save offers shown for each reason. The discount is always listed for
/// an expensive plan; whether it is available is decided elsewhere.
pub open spec fn offers_for(r: CancelReason) -> Seq<SaveOffer> {
    match r {
        CancelReason::TooExpensive => seq![SaveOffer::Pause, SaveOffer::Discount],
        CancelReason::Unused => seq![SaveOffer::Pause],
        _ => Seq::empty(),
    }
}

impl CancelReason {
    /// The snake_case identifier.
    pub fn id(&self) -> (s: &'static str)
        ensures
            s == cancel_reason_id(*self),
    {
        match self {
            CancelReason::TooExpensive => "too_expensive",
            CancelReason::MissingFeatures => "missing_features",
            CancelReason::SwitchedService => "switched_service",
            CancelReason::Unused => "unused",
            CancelReason::CustomerService => "customer_service",
            CancelReason::LowQuality => "low_quality",
            CancelReason::TooComplex => "too_complex",
            CancelReason::Other => "other",
        }
    }

    /// The label shown to the customer.
    pub fn name(&self) -> (s: &'static str)
        ensures
            s == (match *self {
                CancelReason::TooExpensive => "Too expensive",
                CancelReason::MissingFeatures => "Missing features",
                CancelReason::SwitchedService => "Switched to another service",
                CancelReason::Unused => "Not using it enough",
                CancelReason::CustomerService => "Customer service",
                CancelReason::LowQuality => "Low quality",
                CancelReason::TooComplex => "Too complex",
                CancelReason::Other => "Other",
            }),
    {
        match self {
            CancelReason::TooExpensive => "Too expensive",
            CancelReason::MissingFeatures => "Missing features",
            CancelReason::SwitchedService => "Switched to another service",
            CancelReason::Unused => "Not using it enough",
            CancelReason::CustomerService => "Customer service",
            CancelReason::LowQuality => "Low quality",
            CancelReason::TooComplex => "Too complex",
            CancelReason::Other => "Other",
        }
    }

    /// The save offers to present for this reason, in display order.
    pub fn save_offers(&self) -> (v: Vec<SaveOffer>)
        ensures
            v@ == offers_for(*self),
    {
        let v = match self {
            CancelReason::TooExpensive => vec![SaveOffer::Pause, SaveOffer::Discount],
            CancelReason::Unused => vec![SaveOffer::Pause],
            _ => Vec::new(),
        };
        assert(v@ == offers_for(*self));
        v
    }

    /// Identifiers of the save offers for this reason.
    pub fn save_offer_ids(&self) -> (v: Vec<&'static str>)
        ensures
            v@ == offers_for(*self).map_values(|o: SaveOffer| save_offer_id(o)),
    {
        let offers = self.save_offers();
        let mut v: Vec<&'static str> = Vec::new();
        let mut i: usize = 0;
        while i < offers.len()
            invariant
                i <= offers@.len(),
                offers@ == offers_for(*self),
                v@ == offers@.take(i as int).map_values(|o: SaveOffer| save_offer_id(o)),
            decreases offers.len() - i,
        {
            v.push(offers[i].id());
            assert(offers@.take(i + 1) == offers@.take(i as int).push(offers@[i as int]));
            i = i + 1;
        }
        assert(offers@.take(offers@.len() as int) == offers@);
        v
    }

    /// Every reason, in display order.
    pub fn all() -> (v: Vec<CancelReason>)
        ensures
            v@ == seq![
                CancelReason::TooExpensive, CancelReason::MissingFeatures,
                CancelReason::SwitchedService, CancelReason::Unused,
                CancelReason::CustomerService, CancelReason::LowQuality,
                CancelReason::TooComplex, CancelReason::Other,
            ],
    {
        vec![
            CancelReason::TooExpensive, CancelReason::MissingFeatures,
            CancelReason::SwitchedService, CancelReason::Unused,
            CancelReason::CustomerService, CancelReason::LowQuality,
            CancelReason::TooComplex, CancelReason::Other,
        ]
    }
}

impl SaveOffer {
    /// The snake_case identifier.
    pub fn id(&self) -> (s: &'static str)
        ensures
            s == save_offer_id(*self),
    {
        match self {
            SaveOffer::Pause => "pause",
            SaveOffer::Discount => "discount",
            SaveOffer::Downgrade => "downgrade",
        }
    }

    /// The label shown to the customer.
    pub fn name(&self) -> (s: &'static str)
        ensures
            s == (match *self {
                SaveOffer::Pause => "Pause subscription",
                SaveOffer::Discount => "Apply a discount",
                SaveOffer::Downgrade => "Switch to a smaller plan",
            }),
    {
        match self {
            SaveOffer::Pause => "Pause subscription",
            SaveOffer::Discount => "Apply a discount",
            SaveOffer::Downgrade => "Switch to a smaller plan",
        }
    }

    /// What the offer does, for the customer.
    pub fn description(&self) -> (s: &'static str)
        ensures
            s == (match *self {
                SaveOffer::Pause => "Take a break for 30, 60, or 90 days. We'll keep your data and resume billing when you return.",
                SaveOffer::Discount => "Stay subscribed at a lower rate for the next few months.",
                SaveOffer::Downgrade => "Move to a plan with fewer features but a lower price.",
            }),
    {
        match self {
            SaveOffer::Pause => "Take a break for 30, 60, or 90 days. We'll keep your data and resume billing when you return.",
            SaveOffer::Discount => "Stay subscribed at a lower rate for the next few months.",
            SaveOffer::Downgrade => "Move to a plan with fewer features but a lower price.",
        }
    }
}

impl LimitType {
    /// The snake_case identifier.
    pub fn id(&self) -> (s: &'static str)
        ensures
            s == (match *self {
                LimitType::Networks => "networks",
                LimitType::Hosts => "hosts",
                LimitType::Seats => "seats",
                LimitType::Snapshots => "snapshots",
            }),
    {
        match self {
            LimitType::Networks => "networks",
            LimitType::Hosts => "hosts",
            LimitType::Seats => "seats",
            LimitType::Snapshots => "snapshots",
        }
    }
}

impl LimitSource {
    /// The snake_case identifier.
    pub fn id(&self) -> (s: &'static str)
        ensures
            s == (match *self {
                LimitSource::Api => "api",
                LimitSource::Discovery => "discovery",
            }),
    {
        match self {
            LimitSource::Api => "api",
            LimitSource::Discovery => "discovery",
        }
    }
}

impl PlanStatus {
    /// The snake_case identifier.
    pub fn id(&self) -> (s: &'static str)
        ensures
            s == (match *self {
                PlanStatus::Active => "active",
                PlanStatus::Trialing => "trialing",
                PlanStatus::PastDue => "past_due",
                PlanStatus::Paused => "paused",
                PlanStatus::PendingCancellation => "pending_cancellation",
                PlanStatus::Cancelled => "cancelled",
            }),
    {
        match self {
            PlanStatus::Active => "active",
            PlanStatus::Trialing => "trialing",
            PlanStatus::PastDue => "past_due",
            PlanStatus::Paused => "paused",
            PlanStatus::PendingCancellation => "pending_cancellation",
            PlanStatus::Cancelled => "cancelled",
        }
    }
}

impl BillingReason {
    /// The snake_case identifier.
    pub fn id(&self) -> (s: &'static str)
        ensures
            s == (match *self {
                BillingReason::SubscriptionCycle => "subscription_cycle",
                BillingReason::SubscriptionCreate => "subscription_create",
                BillingReason::SubscriptionUpdate => "subscription_update",
                BillingReason::Manual => "manual",
                BillingReason::Other => "other",
            }),
    {
        match self {
            BillingReason::SubscriptionCycle => "subscription_cycle",
            BillingReason::SubscriptionCreate => "subscription_create",
            BillingReason::SubscriptionUpdate => "subscription_update",
            BillingReason::Manual => "manual",
            BillingReason::Other => "other",
        }
    }

}


/// The reason a snake_case identifier names, if any.
pub open spec fn reason_from_text(t: Seq<char>) -> Option<CancelReason> {
    if t == "too_expensive"@ {
        Some(CancelReason::TooExpensive)
    } else if t == "missing_features"@ {
        Some(CancelReason::MissingFeatures)
    } else if t == "switched_service"@ {
        Some(CancelReason::SwitchedService)
    } else if t == "unused"@ {
        Some(CancelReason::Unused)
    } else if t == "customer_service"@ {
        Some(CancelReason::CustomerService)
    } else if t == "low_quality"@ {
        Some(CancelReason::LowQuality)
    } else if t == "too_complex"@ {
        Some(CancelReason::TooComplex)
    } else if t == "other"@ {
        Some(CancelReason::Other)
    } else {
        None
    }
}

/// The save offer a snake_case identifier names, if any.
pub open spec fn offer_from_text(t: Seq<char>) -> Option<SaveOffer> {
    if t == "pause"@ {
        Some(SaveOffer::Pause)
    } else if t == "discount"@ {
        Some(SaveOffer::Discount)
    } else if t == "downgrade"@ {
        Some(SaveOffer::Downgrade)
    } else {
        None
    }
}

/// A reason's identifier names it.
pub proof fn lemma_reason_id_round_trip(r: CancelReason)
    ensures
        reason_from_text(cancel_reason_id(r)@) == Some(r),
{
    reveal_strlit("too_expensive");
    reveal_strlit("missing_features");
    reveal_strlit("switched_service");
    reveal_strlit("unused");
    reveal_strlit("customer_service");
    reveal_strlit("low_quality");
    reveal_strlit("too_complex");
    reveal_strlit("other");
    assert("too_expensive"@[0] == 't' && "too_expensive"@.len() == 13);
    assert("missing_features"@[0] == 'm');
    assert("switched_service"@[0] == 's');
    assert("unused"@[0] == 'u');
    assert("customer_service"@[0] == 'c');
    assert("low_quality"@[0] == 'l');
    assert("too_complex"@[0] == 't' && "too_complex"@.len() == 11);
    assert("other"@[0] == 'o');
}

/// An offer's identifier names it.
pub proof fn lemma_offer_id_round_trip(o: SaveOffer)
    ensures
        offer_from_text(save_offer_id(o)@) == Some(o),
{
    reveal_strlit("pause");
    reveal_strlit("discount");
    reveal_strlit("downgrade");
    assert("pause"@[0] == 'p');
    assert("discount"@[0] == 'd' && "discount"@.len() == 8);
    assert("downgrade"@[0] == 'd' && "downgrade"@.len() == 9);
}

impl CancelReason {
    /// The reason a snake_case identifier names; `None` for any other text.
    pub fn from_id(id: &str) -> (r: Option<CancelReason>)
        ensures
            r == reason_from_text(id@),
    {
        if crate::text::str_equal(id, "too_expensive") {
            Some(CancelReason::TooExpensive)
        } else if crate::text::str_equal(id, "missing_features") {
            Some(CancelReason::MissingFeatures)
        } else if crate::text::str_equal(id, "switched_service") {
            Some(CancelReason::SwitchedService)
        } else if crate::text::str_equal(id, "unused") {
            Some(CancelReason::Unused)
        } else if crate::text::str_equal(id, "customer_service") {
            Some(CancelReason::CustomerService)
        } else if crate::text::str_equal(id, "low_quality") {
            Some(CancelReason::LowQuality)
        } else if crate::text::str_equal(id, "too_complex") {
            Some(CancelReason::TooComplex)
        } else if crate::text::str_equal(id, "other") {
            Some(CancelReason::Other)
        } else {
            None
        }
    }
}

impl SaveOffer {
    /// The offer a snake_case identifier names; `None` for any other text.
    pub fn from_id(id: &str) -> (r: Option<SaveOffer>)
        ensures
            r == offer_from_text(id@),
    {
        if crate::text::str_equal(id, "pause") {
            Some(SaveOffer::Pause)
        } else if crate::text::str_equal(id, "discount") {
            Some(SaveOffer::Discount)
        } else if crate::text::str_equal(id, "downgrade") {
            Some(SaveOffer::Downgrade)
        } else {
            None
        }
    }
}

/// The feedback a customer picked when cancelling through the payment
/// provider's portal.
#[derive(Debug, Clone, Copy, PartialEq, Eq, Structural)]
pub enum CancellationFeedback {
    CustomerService,
    LowQuality,
    MissingFeatures,
    Other,
    SwitchedService,
    TooComplex,
    TooExpensive,
    Unused,
}

/// Why the payment provider cancelled a subscription.
#[derive(Debug, Clone, Copy, PartialEq, Eq, Structural)]
pub enum CancellationRequestReason {
    CancellationRequested,
    PaymentDisputed,
    PaymentFailed,
}

/// The cancellation details a subscription carries.
pub struct CancellationDetails {
    pub comment: Option<String>,
    pub feedback: Option<CancellationFeedback>,
    pub reason: Option<CancellationRequestReason>,
}

/// The feedback and the comment of a cancellation, each when given.
pub fn extract_cancellation_details(details: Option<&CancellationDetails>) -> (r: (Option<CancellationFeedback>, Option<String>))
    ensures
        r.0 == (match details { Some(d) => d.feedback, None => None }),
        (match r.1 { Some(c) => Some(c@), None => None }) == (match details {
            Some(d) => match d.comment { Some(c) => Some(c@), None => None },
            None => None,
        }),
{
    match details {
        Some(d) => {
            let comment = match &d.comment {
                Some(c) => Some(crate::text::string_of(c.as_str())),
                None => None,
            };
            (d.feedback, comment)
        },
        None => (None, None),
    }
}

/// Why the payment provider issued an invoice.
#[derive(Debug, Clone, Copy, PartialEq, Eq, Structural)]
pub enum InvoiceBillingReason {
    AutomaticPendingInvoiceItemInvoice,
    Manual,
    QuoteAccept,
    Subscription,
    SubscriptionCreate,
    SubscriptionCycle,
    SubscriptionThreshold,
    SubscriptionUpdate,
    Upcoming,
    /// A reason this service does not know.
    Other,
}

impl BillingReason {
    /// The reason recorded for an invoice: the subscription lifecycle
    /// reasons and manual invoices by name, anything else (or none) as
    /// other.
    pub fn from_invoice_reason(reason: Option<InvoiceBillingReason>) -> (r: BillingReason)
        ensures
            r == (match reason {
                Some(InvoiceBillingReason::SubscriptionCycle) => BillingReason::SubscriptionCycle,
                Some(InvoiceBillingReason::SubscriptionCreate) => BillingReason::SubscriptionCreate,
                Some(InvoiceBillingReason::SubscriptionUpdate) => BillingReason::SubscriptionUpdate,
                Some(InvoiceBillingReason::Manual) => BillingReason::Manual,
                _ => BillingReason::Other,
            }),
    {
        match reason {
            Some(InvoiceBillingReason::SubscriptionCycle) => BillingReason::SubscriptionCycle,
            Some(InvoiceBillingReason::SubscriptionCreate) => BillingReason::SubscriptionCreate,
            Some(InvoiceBillingReason::SubscriptionUpdate) => BillingReason::SubscriptionUpdate,
            Some(InvoiceBillingReason::Manual) => BillingReason::Manual,
            _ => BillingReason::Other,
        }
    }
}

} // verus!
