//! Decisions taken on subscription changes: which notifications a
//! subscription update triggers, which subscriptions are live or duplicated,
//! what a plan change would exceed, and what the customer is told.
use vstd::prelude::*;

use crate::billing::api::ChangePlanPreview;
use crate::billing::cancel::PlanStatus;
use crate::billing::plan::{tier_name, BillingPlan, PlanConfig};
use crate::text::str_equal;

verus! {

broadcast use vstd::string::group_string_axioms;

/// Status of a subscription at the payment provider.
#[derive(Debug, Clone, Copy, PartialEq, Eq, Structural)]
pub enum SubscriptionStatus {
    Active,
    Canceled,
    Incomplete,
    IncompleteExpired,
    PastDue,
    Paused,
    Trialing,
    Unpaid,
}

/// A subscription of a customer, by id and status.
pub struct SubscriptionSummary {
    pub id: String,
    pub status: SubscriptionStatus,
}

/// A subscription that is running: active or in its trial.
pub open spec fn is_live(s: SubscriptionStatus) -> bool {
    s == SubscriptionStatus::Active || s == SubscriptionStatus::Trialing
}

/// Whether a subscription in this status is running.
pub fn live(s: SubscriptionStatus) -> (b: bool)
    ensures
        b == is_live(s),
{
    match s {
        SubscriptionStatus::Active | SubscriptionStatus::Trialing => true,
        _ => false,
    }
}

/// The first running subscription in `subs`.
pub fn first_live_subscription(subs: &Vec<SubscriptionSummary>) -> (r: Option<usize>)
    ensures
        match r {
            Some(i) => i < subs@.len() && is_live(subs@[i as int].status)
                && forall|j: int| 0 <= j < i ==> !is_live(#[trigger] subs@[j].status),
            None => forall|j: int| 0 <= j < subs@.len() ==> !is_live(#[trigger] subs@[j].status),
        },
{
    let mut i: usize = 0;
    while i < subs.len()
        invariant
            i <= subs@.len(),
            forall|j: int| 0 <= j < i ==> !is_live(#[trigger] subs@[j].status),
        decreases subs.len() - i,
    {
        if live(subs[i].status) {
            return Some(i);
        }
        i = i + 1;
    }
    None
}

/// Positions of the running subscriptions other than `current_id`: those a
/// fresh checkout leaves behind and that must be cancelled.
pub fn duplicate_subscriptions(current_id: &str, subs: &Vec<SubscriptionSummary>) -> (r: Vec<usize>)
    ensures
        forall|k: int| 0 <= k < r@.len() ==> (#[trigger] r@[k]) < subs@.len(),
        forall|k: int, l: int| 0 <= k < l < r@.len() ==> r@[k] < r@[l],
        forall|j: int| 0 <= j < subs@.len() ==> (r@.contains(j as usize) <==> (
            subs@[j].id@ != current_id@ && is_live(subs@[j].status))),
{
    let mut r: Vec<usize> = Vec::new();
    let mut i: usize = 0;
    while i < subs.len()
        invariant
            i <= subs@.len(),
            forall|k: int| 0 <= k < r@.len() ==> (#[trigger] r@[k]) < i,
            forall|k: int, l: int| 0 <= k < l < r@.len() ==> r@[k] < r@[l],
            forall|j: int| 0 <= j < i ==> (r@.contains(j as usize) <==> (
                subs@[j].id@ != current_id@ && is_live(subs@[j].status))),
        decreases subs.len() - i,
    {
        let same = str_equal(subs[i].id.as_str(), current_id);
        let ghost before = r@;
        let take = !same && live(subs[i].status);
        if take {
            r.push(i);
        }
        proof {
            assert(take ==> r@ == before.push(i));
            assert(!take ==> r@ == before);
            assert forall|j: int| 0 <= j < i + 1 implies (r@.contains(j as usize) <==> (
                subs@[j].id@ != current_id@ && is_live(subs@[j].status))) by {
                if j < i {
                    if r@.contains(j as usize) {
                        let k = choose|k: int| 0 <= k < r@.len() && r@[k] == j as usize;
                        if k < before.len() {
                            assert(before[k] == j as usize);
                        }
                    }
                    if before.contains(j as usize) {
                        let k = choose|k: int| 0 <= k < before.len() && before[k] == j as usize;
                        assert(r@[k] == j as usize);
                    }
                } else {
                    if r@.contains(j as usize) {
                        let k = choose|k: int| 0 <= k < r@.len() && r@[k] == j as usize;
                        if k < before.len() {
                            assert(before[k] < i);
                        }
                    }
                    if take {
                        assert(r@[before.len() as int] == i);
                    }
                }
            }
        }
        i = i + 1;
    }
    r
}

/// What a subscription update found: the update itself and the
/// organization's state before it.
pub struct SubscriptionUpdateState {
    /// The subscription is set to end with its current period.
    pub cancel_at_period_end: bool,
    /// The organization has an owner to attribute notifications to.
    pub has_owner: bool,
    /// The plan before the update (the Free plan when none was recorded).
    pub prior_plan: BillingPlan,
    /// A subscription status was recorded before the update.
    pub prior_status_known: bool,
    /// The recorded status was a trial.
    pub prior_was_trialing: bool,
    /// The organization has not yet completed plan selection.
    pub plan_selection_pending: bool,
    /// The organization has a payment customer on file.
    pub has_customer: bool,
    /// The subscription's new status.
    pub status: SubscriptionStatus,
    /// The subscription's plan.
    pub plan: BillingPlan,
}

/// What to do about a subscription update.
#[derive(Debug, Clone, Copy, PartialEq, Eq, Structural)]
pub struct SubscriptionUpdateActions {
    /// Announce that cancellation was initiated (and do nothing else).
    pub announce_cancellation: bool,
    /// Record that the organization selected its plan.
    pub plan_selected: bool,
    /// Announce a completed checkout.
    pub checkout_completed: bool,
    /// Announce the start of a trial.
    pub trial_started: bool,
    /// Announce a trial that converted to a paid subscription.
    pub trial_ended: bool,
    /// Cancel the customer's other running subscriptions.
    pub cancel_duplicates: bool,
    /// Announce a change of tier.
    pub plan_changed: bool,
    /// The change of tier is a downgrade to Free.
    pub plan_change_is_downgrade: bool,
}

/// The actions a subscription update calls for.
pub open spec fn update_actions(s: SubscriptionUpdateState) -> SubscriptionUpdateActions {
    if s.cancel_at_period_end {
        SubscriptionUpdateActions {
            announce_cancellation: s.has_owner,
            plan_selected: false,
            checkout_completed: false,
            trial_started: false,
            trial_ended: false,
            cancel_duplicates: false,
            plan_changed: false,
            plan_change_is_downgrade: false,
        }
    } else {
        let first_checkout = !s.prior_status_known || s.prior_plan is Free;
        SubscriptionUpdateActions {
            announce_cancellation: false,
            plan_selected: s.has_owner && first_checkout && s.plan_selection_pending,
            checkout_completed: s.has_owner && first_checkout,
            trial_started: s.has_owner && first_checkout && s.status == SubscriptionStatus::Trialing,
            trial_ended: s.has_owner && s.prior_was_trialing && s.status == SubscriptionStatus::Active,
            cancel_duplicates: s.has_customer,
            plan_changed: s.has_owner && s.prior_status_known && s.prior_plan.kind() != s.plan.kind(),
            plan_change_is_downgrade: s.plan is Free,
        }
    }
}

/// Whether two plans are of the same tier, whatever their configurations.
pub open spec fn same_tier(a: BillingPlan, b: BillingPlan) -> bool {
    ||| (a is Community && b is Community)
    ||| (a is Free && b is Free)
    ||| (a is Starter && b is Starter)
    ||| (a is Pro && b is Pro)
    ||| (a is Team && b is Team)
    ||| (a is Business && b is Business)
    ||| (a is Enterprise && b is Enterprise)
    ||| (a is Demo && b is Demo)
    ||| (a is CommercialSelfHosted && b is CommercialSelfHosted)
}

/// What a subscription update calls for, action by action. A pending
/// cancellation announces itself to an owner and does nothing else.
/// Otherwise: a checkout is announced to an owner when there was no
/// recorded status or the organization came from Free, with the plan
/// selection when it is still pending and the trial when the subscription
/// is trialing; a trial that turns active is announced as converted; the
/// customer's other subscriptions are cancelled; and every change of tier
/// after a recorded status (upgrades, downgrades and switches alike, such
/// as Pro to Team) is announced to an owner, as a downgrade exactly when
/// the new plan is Free.
pub proof fn lemma_subscription_update_actions(s: SubscriptionUpdateState)
    ensures
        s.cancel_at_period_end ==> ({
            let a = update_actions(s);
            &&& a.announce_cancellation == s.has_owner
            &&& !a.plan_selected && !a.checkout_completed && !a.trial_started && !a.trial_ended
            &&& !a.cancel_duplicates && !a.plan_changed
        }),
        !s.cancel_at_period_end ==> ({
            let a = update_actions(s);
            &&& !a.announce_cancellation
            &&& a.checkout_completed == (s.has_owner && (!s.prior_status_known || s.prior_plan is Free))
            &&& a.plan_selected == (a.checkout_completed && s.plan_selection_pending)
            &&& a.trial_started == (a.checkout_completed && s.status == SubscriptionStatus::Trialing)
            &&& a.trial_ended == (s.has_owner && s.prior_was_trialing && s.status == SubscriptionStatus::Active)
            &&& a.cancel_duplicates == s.has_customer
            &&& a.plan_changed == (s.has_owner && s.prior_status_known && !same_tier(s.prior_plan, s.plan))
            &&& a.plan_changed ==> (a.plan_change_is_downgrade <==> s.plan is Free)
        }),
        (!s.cancel_at_period_end && s.has_owner && s.prior_status_known && s.prior_plan is Pro && s.plan is Team)
            ==> update_actions(s).plan_changed,
{
}

/// Decides what a subscription update calls for. A pending cancellation
/// keeps the current plan and only announces itself; otherwise a first
/// checkout (no recorded status, or coming from Free) is announced, with
/// the trial it starts, a trial turning active is announced as converted,
/// other running subscriptions are cancelled, and a change of tier is
/// announced when a status was recorded before.
pub fn plan_subscription_update(s: &SubscriptionUpdateState) -> (a: SubscriptionUpdateActions)
    ensures
        a == update_actions(*s),
{
    if s.cancel_at_period_end {
        return SubscriptionUpdateActions {
            announce_cancellation: s.has_owner,
            plan_selected: false,
            checkout_completed: false,
            trial_started: false,
            trial_ended: false,
            cancel_duplicates: false,
            plan_changed: false,
            plan_change_is_downgrade: false,
        };
    }
    let first_checkout = !s.prior_status_known || s.prior_plan.is_free();
    let trialing = s.status == SubscriptionStatus::Trialing;
    let active = s.status == SubscriptionStatus::Active;
    SubscriptionUpdateActions {
        announce_cancellation: false,
        plan_selected: s.has_owner && first_checkout && s.plan_selection_pending,
        checkout_completed: s.has_owner && first_checkout,
        trial_started: s.has_owner && first_checkout && trialing,
        trial_ended: s.has_owner && s.prior_was_trialing && active,
        cancel_duplicates: s.has_customer,
        plan_changed: s.has_owner && s.prior_status_known
            && s.prior_plan.discriminant() != s.plan.discriminant(),
        plan_change_is_downgrade: s.plan.is_free(),
    }
}

/// Whether an organization pays for a running subscription: its plan (Free
/// when none is recorded) is neither Free nor self-hosted, and its status is
/// active, trialing or past due.
pub fn paid_subscription_active(plan: Option<BillingPlan>, status: Option<PlanStatus>) -> (b: bool)
    ensures
        b == (match plan {
            Some(p) => !(p is Free) && !(p is Community) && !(p is CommercialSelfHosted)
                && (status == Some(PlanStatus::Active) || status == Some(PlanStatus::Trialing)
                    || status == Some(PlanStatus::PastDue)),
            None => false,
        }),
{
    match plan {
        None => false,
        Some(p) => {
            if p.is_free() || p.is_self_hosted() {
                false
            } else {
                match status {
                    Some(PlanStatus::Active) | Some(PlanStatus::Trialing) | Some(PlanStatus::PastDue) => true,
                    _ => false,
                }
            }
        },
    }
}

/// Usage beyond an included amount; unlimited amounts are never exceeded.
pub open spec fn excess(used: u64, included: Option<u64>) -> u64 {
    match included {
        Some(limit) => if used > limit { (used - limit) as u64 } else { 0 },
        None => 0,
    }
}

fn excess_over(used: u64, included: Option<u64>) -> (r: u64)
    ensures
        r == excess(used, included),
{
    match included {
        Some(limit) => used.saturating_sub(limit),
        None => 0,
    }
}

/// How far current usage exceeds what `target` includes.
pub fn preview_plan_change(target: &PlanConfig, hosts: u64, networks: u64, seats: u64) -> (p: ChangePlanPreview)
    ensures
        p.excess_hosts == excess(hosts, target.included_hosts),
        p.excess_networks == excess(networks, target.included_networks),
        p.excess_seats == excess(seats, target.included_seats),
{
    ChangePlanPreview {
        excess_hosts: excess_over(hosts, target.included_hosts),
        excess_networks: excess_over(networks, target.included_networks),
        excess_seats: excess_over(seats, target.included_seats),
    }
}

/// What the customer is told when a downgrade to Free is scheduled.
pub fn downgrade_message(is_trialing: bool) -> (m: &'static str)
    ensures
        m == (if is_trialing {
            "Your plan will change to Free when your trial ends."
        } else {
            "Your plan will change to Free at the end of your billing cycle."
        }),
{
    if is_trialing {
        "Your plan will change to Free when your trial ends."
    } else {
        "Your plan will change to Free at the end of your billing cycle."
    }
}

/// What the customer is told after switching to `target`.
pub fn plan_change_message(target: &BillingPlan, is_trialing: bool) -> (m: String)
    ensures
        m@ == "Plan changed to "@ + tier_name(target.kind())@ + (if is_trialing {
            ". Your trial continues."@
        } else {
            ""@
        }),
{
    let mut m = String::new();
    m.append("Plan changed to ");
    m.append(target.name());
    if is_trialing {
        m.append(". Your trial continues.");
    } else {
        proof {
            reveal_strlit("");
        }
    }
    m
}

/// How a plan change is billed.
#[derive(Debug, Clone, Copy, PartialEq, Eq, Structural)]
pub enum ProrationBehavior {
    /// No proration: the trial continues on the new plan.
    NoProration,
    /// Invoice the difference immediately.
    AlwaysInvoice,
}

/// A plan change during a trial is not prorated; otherwise the difference
/// is invoiced at once.
pub fn proration_for(status: SubscriptionStatus) -> (p: ProrationBehavior)
    ensures
        p == (if status == SubscriptionStatus::Trialing {
            ProrationBehavior::NoProration
        } else {
            ProrationBehavior::AlwaysInvoice
        }),
{
    if status == SubscriptionStatus::Trialing {
        ProrationBehavior::NoProration
    } else {
        ProrationBehavior::AlwaysInvoice
    }
}

/// The terms of a checkout for a plan.
#[derive(Debug, Clone, Copy, PartialEq, Eq, Structural)]
pub struct CheckoutTerms {
    /// Free trial days, for a new customer on a plan with a trial.
    pub trial_days: Option<u32>,
    /// Whether a payment method is always collected (else only when one is
    /// required: during a trial or for a plan with no base price).
    pub always_collect_payment_method: bool,
    /// Whether the billing address and tax ids are collected (commercial
    /// plans).
    pub collect_business_details: bool,
}

/// The checkout terms for `plan`. A customer is returning when the
/// organization already has a plan other than free, or has had a trial;
/// only a new customer gets the plan's trial.
pub fn checkout_terms(plan: &BillingPlan, current_plan: Option<&BillingPlan>, has_trialed: bool) -> (t: CheckoutTerms)
    ensures
        ({
            let returning = (match current_plan { Some(p) => !(*p is Free), None => false }) || has_trialed;
            let trial = plan.spec_config().trial_days;
            &&& t.trial_days == (if returning || trial == 0 { None } else { Some(trial) })
            &&& t.always_collect_payment_method == !(t.trial_days is Some || plan.spec_config().base_cents == 0)
            &&& t.collect_business_details == (*plan is Pro || *plan is Team || *plan is Business
                || *plan is Enterprise || *plan is CommercialSelfHosted || *plan is Demo)
        }),
{
    let has_non_free_plan = match current_plan {
        Some(p) => !p.is_free(),
        None => false,
    };
    let returning = has_non_free_plan || has_trialed;
    let config = plan.config();
    let trial_days = if returning || config.trial_days == 0 { None } else { Some(config.trial_days) };
    let always_collect_payment_method = !(trial_days.is_some() || config.base_cents == 0);
    CheckoutTerms { trial_days, always_collect_payment_method, collect_business_details: plan.is_commercial() }
}

/// What an organization's billing record holds when it asks to check out a
/// plan.
#[derive(Debug, Clone, Copy)]
pub struct CheckoutOrgState {
    pub plan_status: Option<PlanStatus>,
    pub has_stripe_customer: bool,
    pub current_plan: Option<BillingPlan>,
    /// Whether the organization has ever had a trial.
    pub has_trialed: bool,
    pub has_payment_method: bool,
}

/// Where a checkout request goes.
#[derive(Debug, Clone, Copy, PartialEq, Eq, Structural)]
pub enum CheckoutRoute {
    /// Billing is not set up on this deployment.
    BillingSetupIncomplete,
    /// The requested plan is not one of the plans on offer.
    InvalidPlan,
    /// Move to free at the end of the billing cycle.
    ScheduleDowngrade,
    /// Update the existing subscription to the plan.
    ChangePlan,
    /// Start a trial subscription directly, without a checkout page.
    StartTrial,
    /// Collect payment through a checkout page.
    Checkout,
    /// Switch to the free plan directly.
    ActivateFree,
}

/// Whether `plan` is on offer (plans are equal when their configurations
/// are).
pub open spec fn offers(offered: Seq<BillingPlan>, plan: BillingPlan) -> bool {
    exists|i: int| 0 <= i < offered.len() && (#[trigger] offered[i]).spec_config() == plan.spec_config()
}

/// The route of a checkout request. An organization with a subscription
/// status and a payment customer is an existing subscriber: free means a
/// downgrade at period end; during a trial, or when not eligible for a
/// trial but holding a payment method, the subscription is updated; a
/// trial-eligible request (a new customer on a plan with trial days)
/// starts the trial; else payment is collected by checkout. Anyone else
/// is a first-time subscriber: free is activated, a plan with a trial
/// starts it, and any other plan goes through checkout.
pub open spec fn checkout_route_for(offered: Option<Seq<BillingPlan>>, plan: BillingPlan, org: CheckoutOrgState) -> CheckoutRoute {
    let trial = plan.spec_config().trial_days;
    let returning = (match org.current_plan { Some(p) => !(p is Free), None => false }) || org.has_trialed;
    match offered {
        None => CheckoutRoute::BillingSetupIncomplete,
        Some(ps) => if !offers(ps, plan) {
            CheckoutRoute::InvalidPlan
        } else if org.plan_status is Some && org.has_stripe_customer {
            if plan is Free {
                CheckoutRoute::ScheduleDowngrade
            } else if org.plan_status == Some(PlanStatus::Trialing) {
                CheckoutRoute::ChangePlan
            } else if !returning && trial > 0 {
                CheckoutRoute::StartTrial
            } else if !org.has_payment_method {
                CheckoutRoute::Checkout
            } else {
                CheckoutRoute::ChangePlan
            }
        } else if plan is Free {
            CheckoutRoute::ActivateFree
        } else if trial > 0 {
            CheckoutRoute::StartTrial
        } else {
            CheckoutRoute::Checkout
        },
    }
}

/// Routes a checkout request for `plan`, given the plans on offer (`None`
/// when billing is not set up) and the organization's billing record.
pub fn checkout_route(offered: Option<&Vec<BillingPlan>>, plan: &BillingPlan, org: &CheckoutOrgState) -> (r: CheckoutRoute)
    ensures
        r == checkout_route_for(
            match offered { Some(v) => Some(v@), None => None },
            *plan,
            *org,
        ),
{
    let ps = match offered {
        Some(v) => v,
        None => { return CheckoutRoute::BillingSetupIncomplete; },
    };
    let wanted = plan.config();
    let mut found = false;
    let mut i: usize = 0;
    while i < ps.len()
        invariant
            i <= ps.len(),
            wanted == plan.spec_config(),
            found <==> exists|j: int| 0 <= j < i && (#[trigger] ps@[j]).spec_config() == plan.spec_config(),
        decreases ps.len() - i,
    {
        if ps[i].config() == wanted {
            found = true;
        }
        i += 1;
    }
    if !found {
        return CheckoutRoute::InvalidPlan;
    }
    let trial = wanted.trial_days;
    let returning = match &org.current_plan {
        Some(p) => !p.is_free(),
        None => false,
    } || org.has_trialed;
    if org.plan_status.is_some() && org.has_stripe_customer {
        if plan.is_free() {
            CheckoutRoute::ScheduleDowngrade
        } else if org.plan_status == Some(PlanStatus::Trialing) {
            CheckoutRoute::ChangePlan
        } else if !returning && trial > 0 {
            CheckoutRoute::StartTrial
        } else if !org.has_payment_method {
            CheckoutRoute::Checkout
        } else {
            CheckoutRoute::ChangePlan
        }
    } else if plan.is_free() {
        CheckoutRoute::ActivateFree
    } else if trial > 0 {
        CheckoutRoute::StartTrial
    } else {
        CheckoutRoute::Checkout
    }
}

} // verus!
