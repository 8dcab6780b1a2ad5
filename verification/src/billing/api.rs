//! Requests and responses of the billing endpoints.
use vstd::prelude::*;

use crate::text::{signed_decimal, signed_decimal_string, string_of};

use crate::billing::cancel::{CancelReason, SaveOffer};
use crate::billing::plan::{BillingPlan, BillingRate};

verus! {

/// Start a checkout for `plan`, returning to `url`.
pub struct CreateCheckoutRequest {
    pub plan: BillingPlan,
    pub url: String,
}

/// How long a subscription is paused.
#[derive(Debug, Clone, Copy, PartialEq, Eq, Structural)]
pub enum PauseDuration {
    Days30,
    Days60,
    Days90,
}

impl PauseDuration {
    /// The length of the pause in days.
    pub fn days(self) -> (d: u32)
        ensures
            d == (match self {
                PauseDuration::Days30 => 30u32,
                PauseDuration::Days60 => 60u32,
                PauseDuration::Days90 => 90u32,
            }),
    {
        match self {
            PauseDuration::Days30 => 30,
            PauseDuration::Days60 => 60,
            PauseDuration::Days90 => 90,
        }
    }
}

pub struct PauseSubscriptionRequest {
    pub duration_days: PauseDuration,
}

/// A cancellation, with the reason given and the save offers involved.
pub struct CancelSubscriptionRequest {
    pub reason_code: CancelReason,
    pub comment: Option<String>,
    pub save_offer_shown: Vec<SaveOffer>,
    pub save_offer_redeemed: Option<SaveOffer>,
}

pub struct SetupPaymentMethodRequest {
    pub url: String,
}

/// The client secret the payment form uses to confirm a card.
pub struct SetupIntentResponse {
    pub client_secret: String,
}

/// Makes a confirmed card the customer's default payment method.
pub struct FinalizePaymentMethodRequest {
    pub setup_intent_id: String,
}

/// Switch to `plan` billed at `rate`.
pub struct ChangePlanRequest {
    pub plan: BillingPlan,
    pub rate: BillingRate,
}

/// How far current usage exceeds a target plan's included amounts.
#[derive(Debug, Clone, Copy, PartialEq, Eq, Structural)]
pub struct ChangePlanPreview {
    pub excess_hosts: u64,
    pub excess_networks: u64,
    pub excess_seats: u64,
}

/// An enterprise plan inquiry.
pub struct EnterpriseInquiryRequest {
    pub email: String,
    pub name: String,
    pub company: String,
    pub team_size: String,
    pub message: String,
    pub urgency: Option<String>,
    pub network_count: Option<i64>,
    pub plan_type: Option<String>,
}

impl EnterpriseInquiryRequest {
    /// Whether the contact's email, name and company are all given.
    pub fn has_required_fields(&self) -> (b: bool)
        ensures
            b == (self.email@.len() > 0 && self.name@.len() > 0 && self.company@.len() > 0),
    {
        !self.email.as_str().is_empty() && !self.name.as_str().is_empty() && !self.company.as_str().is_empty()
    }

    /// The name of the sales deal opened for the inquiry.
    pub fn deal_name(&self) -> (s: String)
        ensures
            s@ == "Enterprise Inquiry - "@ + self.company@,
    {
        let mut s = String::new();
        s.append("Enterprise Inquiry - ");
        s.append(self.company.as_str());
        s
    }

    /// The deal's attributes: every field but the contact's email, name and
    /// company, each as text (the network count in decimal), `None` where
    /// the field is absent.
    pub fn deal_attributes(&self) -> (v: Vec<(String, Option<String>)>)
        ensures
            v@.len() == 5,
            v@[0].0@ == "team_size"@,
            (match v@[0].1 { Some(t) => Some(t@), None => None }) == Some(self.team_size@),
            v@[1].0@ == "message"@,
            (match v@[1].1 { Some(t) => Some(t@), None => None }) == Some(self.message@),
            v@[2].0@ == "urgency"@ && (match v@[2].1 { Some(t) => Some(t@), None => None }) == (match self.urgency {
                Some(u) => Some(u@),
                None => None,
            }),
            v@[3].0@ == "network_count"@ && (match v@[3].1 { Some(t) => Some(t@), None => None }) == (match self.network_count {
                Some(n) => Some(signed_decimal(n as int)),
                None => None,
            }),
            v@[4].0@ == "plan_type"@ && (match v@[4].1 { Some(t) => Some(t@), None => None }) == (match self.plan_type {
                Some(p) => Some(p@),
                None => None,
            }),
    {
        let urgency = match &self.urgency {
            Some(u) => Some(string_of(u.as_str())),
            None => None,
        };
        let network_count = match self.network_count {
            Some(n) => Some(signed_decimal_string(n)),
            None => None,
        };
        let plan_type = match &self.plan_type {
            Some(p) => Some(string_of(p.as_str())),
            None => None,
        };
        vec![
            (string_of("team_size"), Some(string_of(self.team_size.as_str()))),
            (string_of("message"), Some(string_of(self.message.as_str()))),
            (string_of("urgency"), urgency),
            (string_of("network_count"), network_count),
            (string_of("plan_type"), plan_type),
        ]
    }
}

} // verus!
