//! Billing plans: tiers, their pricing configuration, feature sets and the
//! Stripe identifiers derived from them.
use vstd::prelude::*;

use crate::billing::features::{
    enabled_beyond, enabled_features, feature_id, lemma_enabled_beyond_members, lemma_feature_list_members, feature_of_id, feature_on, features_of_tier,
    tier_features, tier_retention_days, BillingPlanFeatures, Feature,
};
use crate::text::{
    ascii_lower, ascii_lower_char, ascii_lowercase, decimal, has_char, is_ascii_upper, lemma_decimal_digits,
    lemma_i64_text_round_trip, push_char, push_decimal, push_signed_decimal, signed_decimal,
};

verus! {

broadcast use vstd::string::group_string_axioms;

/// Billing cadence of a plan.
#[derive(Debug, Clone, Copy, PartialEq, Eq, Structural, Hash)]
pub enum BillingRate {
    Month,
    Year,
}

/// How often a recurring price bills.
#[derive(Debug, Clone, Copy, PartialEq, Eq, Structural)]
pub enum RecurringInterval {
    Day,
    Week,
    Month,
    Year,
}

impl Default for BillingRate {
    fn default() -> (r: Self)
        ensures
            r == BillingRate::Month,
    {
        BillingRate::Month
    }
}

impl BillingRate {
    /// Human label of the cadence.
    pub fn billing_period(&self) -> (r: &'static str)
        ensures
            r == (match *self {
                BillingRate::Month => "Monthly",
                BillingRate::Year => "Yearly",
            }),
    {
        match self {
            BillingRate::Month => "Monthly",
            BillingRate::Year => "Yearly",
        }
    }

    /// The recurring interval of the cadence's prices at the payment
    /// provider.
    pub fn stripe_recurring_interval(&self) -> (r: RecurringInterval)
        ensures
            r == (match *self {
                BillingRate::Month => RecurringInterval::Month,
                BillingRate::Year => RecurringInterval::Year,
            }),
    {
        match self {
            BillingRate::Month => RecurringInterval::Month,
            BillingRate::Year => RecurringInterval::Year,
        }
    }

    /// The `Display` rendering of the cadence (its variant name).
    pub fn display_name(&self) -> (r: &'static str)
        ensures
            r == rate_display(*self),
    {
        match self {
            BillingRate::Month => "Month",
            BillingRate::Year => "Year",
        }
    }
}

pub open spec fn rate_display(r: BillingRate) -> &'static str {
    match r {
        BillingRate::Month => "Month",
        BillingRate::Year => "Year",
    }
}

/// Pricing and allowances of a plan. `None` for an add-on price means more
/// cannot be bought; `None` for an included amount means unlimited.
#[derive(Debug, Clone, Copy, PartialEq, Eq, Structural, Hash)]
pub struct PlanConfig {
    pub base_cents: i64,
    pub rate: BillingRate,
    pub trial_days: u32,
    pub seat_cents: Option<i64>,
    pub network_cents: Option<i64>,
    pub host_cents: Option<i64>,
    pub included_seats: Option<u64>,
    pub included_networks: Option<u64>,
    pub included_hosts: Option<u64>,
}

pub open spec fn zero_config() -> PlanConfig {
    PlanConfig {
        base_cents: 0,
        rate: BillingRate::Month,
        trial_days: 0,
        seat_cents: None,
        network_cents: None,
        host_cents: None,
        included_seats: None,
        included_networks: None,
        included_hosts: None,
    }
}

impl Default for PlanConfig {
    fn default() -> (r: Self)
        ensures
            r == zero_config(),
    {
        PlanConfig {
            base_cents: 0,
            rate: BillingRate::Month,
            trial_days: 0,
            seat_cents: None,
            network_cents: None,
            host_cents: None,
            included_seats: None,
            included_networks: None,
            included_hosts: None,
        }
    }
}

/// Where a plan's deployment runs.
#[derive(Debug, Clone, Copy, PartialEq, Eq, Structural, Hash)]
pub enum Hosting {
    SelfHosted,
    Managed,
    Cloud,
}

impl Default for Hosting {
    fn default() -> (r: Self)
        ensures
            r == Hosting::Cloud,
    {
        Hosting::Cloud
    }
}

/// The tier of a plan, without its configuration.
#[derive(Debug, Clone, Copy, PartialEq, Eq, Structural, Hash)]
pub enum BillingPlanDiscriminants {
    Community,
    Free,
    Starter,
    Pro,
    Team,
    Business,
    Enterprise,
    Demo,
    CommercialSelfHosted,
}

/// A billing plan: a tier together with its pricing configuration.
#[derive(Debug, Clone, Copy)]
pub enum BillingPlan {
    Community(PlanConfig),
    Free(PlanConfig),
    Starter(PlanConfig),
    Pro(PlanConfig),
    Team(PlanConfig),
    Business(PlanConfig),
    Enterprise(PlanConfig),
    Demo(PlanConfig),
    CommercialSelfHosted(PlanConfig),
}

impl BillingPlan {
    pub open spec fn spec_config(self) -> PlanConfig {
        match self {
            BillingPlan::Community(c) => c,
            BillingPlan::Free(c) => c,
            BillingPlan::Starter(c) => c,
            BillingPlan::Pro(c) => c,
            BillingPlan::Team(c) => c,
            BillingPlan::Business(c) => c,
            BillingPlan::Enterprise(c) => c,
            BillingPlan::Demo(c) => c,
            BillingPlan::CommercialSelfHosted(c) => c,
        }
    }

    pub open spec fn kind(self) -> BillingPlanDiscriminants {
        match self {
            BillingPlan::Community(_) => BillingPlanDiscriminants::Community,
            BillingPlan::Free(_) => BillingPlanDiscriminants::Free,
            BillingPlan::Starter(_) => BillingPlanDiscriminants::Starter,
            BillingPlan::Pro(_) => BillingPlanDiscriminants::Pro,
            BillingPlan::Team(_) => BillingPlanDiscriminants::Team,
            BillingPlan::Business(_) => BillingPlanDiscriminants::Business,
            BillingPlan::Enterprise(_) => BillingPlanDiscriminants::Enterprise,
            BillingPlan::Demo(_) => BillingPlanDiscriminants::Demo,
            BillingPlan::CommercialSelfHosted(_) => BillingPlanDiscriminants::CommercialSelfHosted,
        }
    }

    /// The plan of tier `k` with configuration `c`.
    pub open spec fn of_kind(k: BillingPlanDiscriminants, c: PlanConfig) -> BillingPlan {
        match k {
            BillingPlanDiscriminants::Community => BillingPlan::Community(c),
            BillingPlanDiscriminants::Free => BillingPlan::Free(c),
            BillingPlanDiscriminants::Starter => BillingPlan::Starter(c),
            BillingPlanDiscriminants::Pro => BillingPlan::Pro(c),
            BillingPlanDiscriminants::Team => BillingPlan::Team(c),
            BillingPlanDiscriminants::Business => BillingPlan::Business(c),
            BillingPlanDiscriminants::Enterprise => BillingPlan::Enterprise(c),
            BillingPlanDiscriminants::Demo => BillingPlan::Demo(c),
            BillingPlanDiscriminants::CommercialSelfHosted => BillingPlan::CommercialSelfHosted(c),
        }
    }

    /// The plan's configuration.
    pub fn config(&self) -> (c: PlanConfig)
        ensures
            c == self.spec_config(),
    {
        match self {
            BillingPlan::Community(c) => *c,
            BillingPlan::Free(c) => *c,
            BillingPlan::Starter(c) => *c,
            BillingPlan::Pro(c) => *c,
            BillingPlan::Team(c) => *c,
            BillingPlan::Business(c) => *c,
            BillingPlan::Enterprise(c) => *c,
            BillingPlan::Demo(c) => *c,
            BillingPlan::CommercialSelfHosted(c) => *c,
        }
    }

    /// Replaces the configuration, keeping the tier.
    pub fn set_config(&mut self, config: PlanConfig)
        ensures
            *final(self) == BillingPlan::of_kind(old(self).kind(), config),
    {
        match self {
            BillingPlan::Community(c) => *c = config,
            BillingPlan::Free(c) => *c = config,
            BillingPlan::Starter(c) => *c = config,
            BillingPlan::Pro(c) => *c = config,
            BillingPlan::Team(c) => *c = config,
            BillingPlan::Business(c) => *c = config,
            BillingPlan::Enterprise(c) => *c = config,
            BillingPlan::Demo(c) => *c = config,
            BillingPlan::CommercialSelfHosted(c) => *c = config,
        }
    }

    /// The tier of this plan.
    pub fn discriminant(&self) -> (k: BillingPlanDiscriminants)
        ensures
            k == self.kind(),
    {
        match self {
            BillingPlan::Community(_) => BillingPlanDiscriminants::Community,
            BillingPlan::Free(_) => BillingPlanDiscriminants::Free,
            BillingPlan::Starter(_) => BillingPlanDiscriminants::Starter,
            BillingPlan::Pro(_) => BillingPlanDiscriminants::Pro,
            BillingPlan::Team(_) => BillingPlanDiscriminants::Team,
            BillingPlan::Business(_) => BillingPlanDiscriminants::Business,
            BillingPlan::Enterprise(_) => BillingPlanDiscriminants::Enterprise,
            BillingPlan::Demo(_) => BillingPlanDiscriminants::Demo,
            BillingPlan::CommercialSelfHosted(_) => BillingPlanDiscriminants::CommercialSelfHosted,
        }
    }

    /// Paid or commercially licensed tiers.
    pub fn is_commercial(&self) -> (r: bool)
        ensures
            r == (self is Pro || self is Team || self is Business || self is Enterprise
                || self is CommercialSelfHosted || self is Demo),
    {
        match self {
            BillingPlan::Pro(_) | BillingPlan::Team(_) | BillingPlan::Business(_)
            | BillingPlan::Enterprise(_) | BillingPlan::CommercialSelfHosted(_)
            | BillingPlan::Demo(_) => true,
            _ => false,
        }
    }

    pub fn is_free(&self) -> (r: bool)
        ensures
            r == self is Free,
    {
        match self {
            BillingPlan::Free(_) => true,
            _ => false,
        }
    }

    pub fn is_demo(&self) -> (r: bool)
        ensures
            r == self is Demo,
    {
        match self {
            BillingPlan::Demo(_) => true,
            _ => false,
        }
    }

    /// Plans the customer hosts themselves, with Stripe out of the loop.
    pub fn is_self_hosted(&self) -> (r: bool)
        ensures
            r == (self is Community || self is CommercialSelfHosted),
    {
        match self {
            BillingPlan::Community(_) | BillingPlan::CommercialSelfHosted(_) => true,
            _ => false,
        }
    }

    pub fn host_limit(&self) -> (r: Option<u64>)
        ensures
            r == self.spec_config().included_hosts,
    {
        self.config().included_hosts
    }

    pub fn network_limit(&self) -> (r: Option<u64>)
        ensures
            r == self.spec_config().included_networks,
    {
        self.config().included_networks
    }

    pub fn seat_limit(&self) -> (r: Option<u64>)
        ensures
            r == self.spec_config().included_seats,
    {
        self.config().included_seats
    }

    /// Snapshot retention window in days; an override, when given, wins on
    /// every tier. `0` means snapshots are unavailable.
    pub fn snapshot_retention_days(&self, env_override: Option<u32>) -> (r: u32)
        ensures
            r == (match env_override {
                Some(days) => days,
                None => tier_retention_days(self.kind()),
            }),
    {
        match env_override {
            Some(days) => days,
            None => self.features().snapshot_retention_days,
        }
    }

    /// Whether more users can be invited: unlimited seats, or a capped seat
    /// count that can be extended with paid seats.
    pub fn can_invite_users(&self) -> (r: bool)
        ensures
            r == (self.spec_config().included_seats is None
                || self.spec_config().seat_cents is Some),
    {
        if self.config().included_seats.is_some() {
            self.config().seat_cents.is_some()
        } else {
            true
        }
    }

    pub fn hosting(&self) -> (h: Hosting)
        ensures
            h == (match *self {
                BillingPlan::Community(_) => Hosting::SelfHosted,
                BillingPlan::CommercialSelfHosted(_) => Hosting::SelfHosted,
                BillingPlan::Enterprise(_) => Hosting::Managed,
                _ => Hosting::Cloud,
            }),
    {
        match self {
            BillingPlan::Community(_) => Hosting::SelfHosted,
            BillingPlan::CommercialSelfHosted(_) => Hosting::SelfHosted,
            BillingPlan::Enterprise(_) => Hosting::Managed,
            _ => Hosting::Cloud,
        }
    }

    /// The next-lower cloud tier along Free → Starter → Pro → Team →
    /// Business → Enterprise; `None` for Free and for tiers off that ladder.
    pub fn previous_tier(&self) -> (r: Option<BillingPlanDiscriminants>)
        ensures
            r == previous_cloud_tier(self.kind()),
    {
        match self {
            BillingPlan::Starter(_) => Some(BillingPlanDiscriminants::Free),
            BillingPlan::Pro(_) => Some(BillingPlanDiscriminants::Starter),
            BillingPlan::Team(_) => Some(BillingPlanDiscriminants::Pro),
            BillingPlan::Business(_) => Some(BillingPlanDiscriminants::Team),
            BillingPlan::Enterprise(_) => Some(BillingPlanDiscriminants::Business),
            _ => None,
        }
    }

    /// Displayed price for tiers without a list price.
    pub fn custom_price(&self) -> (r: Option<&'static str>)
        ensures
            r == (match *self {
                BillingPlan::Enterprise(_) => Some("Custom"),
                BillingPlan::Community(_) => Some("Free"),
                BillingPlan::Free(_) => Some("Free"),
                BillingPlan::CommercialSelfHosted(_) => Some("Custom"),
                _ => None::<&'static str>,
            }),
    {
        match self {
            BillingPlan::Enterprise(_) => Some("Custom"),
            BillingPlan::Community(_) | BillingPlan::Free(_) => Some("Free"),
            BillingPlan::CommercialSelfHosted(_) => Some("Custom"),
            _ => None,
        }
    }

    /// The tier name as `Display` renders it.
    pub fn display_name(&self) -> (r: &'static str)
        ensures
            r == tier_display(self.kind()),
    {
        match self {
            BillingPlan::Community(_) => "Community",
            BillingPlan::Free(_) => "Free",
            BillingPlan::Starter(_) => "Starter",
            BillingPlan::Pro(_) => "Pro",
            BillingPlan::Team(_) => "Team",
            BillingPlan::Business(_) => "Business",
            BillingPlan::Enterprise(_) => "Enterprise",
            BillingPlan::Demo(_) => "Demo",
            BillingPlan::CommercialSelfHosted(_) => "CommercialSelfHosted",
        }
    }

    /// The tier name shown to customers.
    pub fn name(&self) -> (r: &'static str)
        ensures
            r == tier_name(self.kind()),
    {
        match self {
            BillingPlan::Community(_) => "Community",
            BillingPlan::Free(_) => "Free",
            BillingPlan::Starter(_) => "Starter",
            BillingPlan::Pro(_) => "Pro",
            BillingPlan::Team(_) => "Team",
            BillingPlan::Business(_) => "Business",
            BillingPlan::Enterprise(_) => "Enterprise",
            BillingPlan::Demo(_) => "Demo",
            BillingPlan::CommercialSelfHosted(_) => "On-Premise",
        }
    }

    /// The tier's description shown to customers.
    pub fn description(&self) -> (r: &'static str)
        ensures
            r == tier_description(self.kind()),
    {
        match self {
            BillingPlan::Community(_) => "Community plan for individuals self-hosting Scanopy - full control over configuration and integrations",
            BillingPlan::Free(_) => "For hobbyists exploring a small network",
            BillingPlan::Starter(_) => "For homelabbers automating documentation",
            BillingPlan::Pro(_) => "For IT pros managing multiple networks",
            BillingPlan::Team(_) => "Collaborate on infrastructure documentation with your team",
            BillingPlan::Business(_) => "For MSPs managing client infrastructure",
            BillingPlan::Enterprise(_) => "For organizations needing custom deployment",
            BillingPlan::Demo(_) => "Demo mode",
            BillingPlan::CommercialSelfHosted(_) => "Commercial license for self-managed deployments — full control over configuration and integrations",
        }
    }

    /// The Stripe product id: the lowercased tier name.
    pub fn stripe_product_id(&self) -> (r: String)
        ensures
            r@ == product_id(self.kind()),
    {
        ascii_lowercase(self.display_name())
    }

    /// Lookup key of the base price: `{product}_{base_cents}_{rate}`.
    pub fn stripe_base_price_lookup_key(&self) -> (r: String)
        ensures
            r@ == base_price_key(*self),
    {
        let mut r = self.stripe_product_id();
        let c = self.config();
        push_char(&mut r, '_');
        push_signed_decimal(&mut r, c.base_cents);
        push_char(&mut r, '_');
        r.append(c.rate.display_name());
        r
    }

    /// Lookup key of the seat add-on price, when seats can be bought.
    pub fn stripe_seat_addon_price_lookup_key(&self) -> (r: Option<String>)
        ensures
            match self.spec_config().seat_cents {
                Some(cents) => r is Some && r->0@ == addon_price_key(*self, "_seats_"@, cents),
                None => r is None,
            },
    {
        match self.config().seat_cents {
            Some(cents) => Some(self.addon_key("_seats_", cents)),
            None => None,
        }
    }

    /// Lookup key of the network add-on price, when networks can be bought.
    pub fn stripe_network_addon_price_lookup_key(&self) -> (r: Option<String>)
        ensures
            match self.spec_config().network_cents {
                Some(cents) => r is Some && r->0@ == addon_price_key(*self, "_networks_"@, cents),
                None => r is None,
            },
    {
        match self.config().network_cents {
            Some(cents) => Some(self.addon_key("_networks_", cents)),
            None => None,
        }
    }

    fn addon_key(&self, infix: &str, cents: i64) -> (r: String)
        ensures
            r@ == addon_price_key(*self, infix@, cents),
    {
        let mut r = self.stripe_product_id();
        r.append(infix);
        push_signed_decimal(&mut r, cents);
        push_char(&mut r, '_');
        r.append(self.config().rate.display_name());
        r
    }

    /// Human label of the plan's billing cadence.
    pub fn billing_period(&self) -> (r: &'static str)
        ensures
            r == (match self.spec_config().rate {
                BillingRate::Month => "Monthly",
                BillingRate::Year => "Yearly",
            }),
    {
        self.config().rate.billing_period()
    }

    /// The base price for display, e.g. `$14.99/mo` or `$143.88/yr`.
    pub fn base_price_formatted(&self) -> (r: String)
        ensures
            r@ == usd_amount(self.spec_config().base_cents as int) + (match self.spec_config().rate {
                BillingRate::Month => "/mo"@,
                BillingRate::Year => "/yr"@,
            }),
    {
        let c = self.config();
        let mut r = format_cents_usd(c.base_cents);
        match c.rate {
            BillingRate::Month => r.append("/mo"),
            BillingRate::Year => r.append("/yr"),
        }
        r
    }

    /// The feature set of the plan's tier.
    pub fn features(&self) -> (f: BillingPlanFeatures)
        ensures
            f == tier_features(self.kind()),
    {
        features_of_tier(self.discriminant())
    }

    /// Ids of the features enabled on this plan: the boolean features that
    /// are on, and the retention window when it is above zero.
    pub fn enabled_feature_ids(&self) -> (r: Vec<&'static str>)
        ensures
            r@ == enabled_features(tier_features(self.kind())).map_values(|f: Feature| feature_id(f)),
    {
        let f = self.features();
        f.enabled_ids()
    }

    /// Whether the feature with id `feature_id` is enabled: boolean features
    /// by their flag, the retention window when it is above zero.
    pub fn has_feature(&self, feature_id: &str) -> (r: bool)
        ensures
            r == (match feature_of_id(feature_id@) {
                Some(f) => feature_on(tier_features(self.kind()), f),
                None => false,
            }),
    {
        let f = self.features();
        f.has(feature_id)
    }

    /// The fixture plan for a tier, monthly with its default configuration,
    /// when the catalog carries one.
    pub fn default_for_discriminant(disc: BillingPlanDiscriminants, catalog: &PlanCatalog) -> (r: Option<BillingPlan>)
        requires
            catalog.wf(),
        ensures
            r == catalog.spec_default_for(disc),
            r matches Some(p) ==> p.kind() == disc && p.spec_config().rate == BillingRate::Month,
            (disc == BillingPlanDiscriminants::Free || disc == BillingPlanDiscriminants::Community
                || disc == BillingPlanDiscriminants::Enterprise
                || disc == BillingPlanDiscriminants::CommercialSelfHosted) ==> r is Some,
    {
        match disc {
            BillingPlanDiscriminants::Free => Some(catalog.free),
            BillingPlanDiscriminants::Community => Some(catalog.community),
            BillingPlanDiscriminants::Enterprise => Some(catalog.enterprise),
            BillingPlanDiscriminants::CommercialSelfHosted => Some(catalog.commercial_self_hosted),
            _ => {
                let mut i: usize = 0;
                while i < catalog.purchasable.len()
                    invariant
                        catalog.wf(),
                        catalog.spec_default_for(disc) == first_of_kind(catalog.purchasable@, disc),
                        i <= catalog.purchasable@.len(),
                        forall|j: int| 0 <= j < i ==> (#[trigger] catalog.purchasable@[j]).kind() != disc,
                    decreases catalog.purchasable.len() - i,
                {
                    if catalog.purchasable[i].discriminant() == disc {
                        proof {
                            lemma_first_of_kind(catalog.purchasable@, disc, i as int);
                        }
                        return Some(catalog.purchasable[i]);
                    }
                    i = i + 1;
                }
                proof {
                    lemma_none_of_kind(catalog.purchasable@, disc);
                }
                None
            },
        }
    }

    /// Features this plan adds over its previous tier. The Free plan is the
    /// baseline and lists all of its features; off-ladder plans list what
    /// they add over the Free baseline.
    pub fn incremental_features(&self, catalog: &PlanCatalog) -> (r: Vec<&'static str>)
        requires
            catalog.wf(),
        ensures
            r@ == incremental(self.kind(), catalog.spec_default_for_opt(previous_cloud_tier(self.kind())))
                .map_values(|f: Feature| feature_id(f)),
    {
        let mine = self.features();
        match self.previous_tier() {
            Some(prev) => {
                match BillingPlan::default_for_discriminant(prev, catalog) {
                    Some(plan) => mine.ids_beyond(&plan.features()),
                    None => mine.enabled_ids(),
                }
            },
            None => {
                if self.is_free() {
                    mine.enabled_ids()
                } else {
                    mine.ids_beyond(&catalog.free.features())
                }
            },
        }
    }
}

/// `==` on plans compares their configurations only.
impl PartialEq for BillingPlan {
    fn eq(&self, other: &Self) -> (r: bool) {
        self.config() == other.config()
    }
}

impl vstd::std_specs::cmp::PartialEqSpecImpl for BillingPlan {
    open spec fn obeys_eq_spec() -> bool {
        true
    }

    open spec fn eq_spec(&self, other: &BillingPlan) -> bool {
        self.spec_config() == other.spec_config()
    }
}

impl Eq for BillingPlan {
}

// ---------------------------------------------------------------------------
// Plan fixtures
// ---------------------------------------------------------------------------

/// The plan fixtures the deployment ships with: one plan per fixed tier plus
/// the purchasable cloud plans.
pub struct PlanCatalog {
    pub free: BillingPlan,
    pub community: BillingPlan,
    pub enterprise: BillingPlan,
    pub commercial_self_hosted: BillingPlan,
    pub purchasable: Vec<BillingPlan>,
}

impl PlanCatalog {
    /// Each fixture belongs to the tier it is filed under, and every
    /// fixture is billed monthly.
    pub open spec fn wf(&self) -> bool {
        &&& self.free is Free
        &&& self.community is Community
        &&& self.enterprise is Enterprise
        &&& self.commercial_self_hosted is CommercialSelfHosted
        &&& self.free.spec_config().rate == BillingRate::Month
        &&& self.community.spec_config().rate == BillingRate::Month
        &&& self.enterprise.spec_config().rate == BillingRate::Month
        &&& self.commercial_self_hosted.spec_config().rate == BillingRate::Month
        &&& forall|i: int| 0 <= i < self.purchasable@.len()
            ==> (#[trigger] self.purchasable@[i]).spec_config().rate == BillingRate::Month
    }

    pub open spec fn spec_default_for(&self, disc: BillingPlanDiscriminants) -> Option<BillingPlan> {
        match disc {
            BillingPlanDiscriminants::Free => Some(self.free),
            BillingPlanDiscriminants::Community => Some(self.community),
            BillingPlanDiscriminants::Enterprise => Some(self.enterprise),
            BillingPlanDiscriminants::CommercialSelfHosted => Some(self.commercial_self_hosted),
            _ => first_of_kind(self.purchasable@, disc),
        }
    }

    pub open spec fn spec_default_for_opt(&self, disc: Option<BillingPlanDiscriminants>) -> Option<
        Option<BillingPlanDiscriminants>,
    > {
        match disc {
            Some(d) => Some(
                match self.spec_default_for(d) {
                    Some(p) => Some(p.kind()),
                    None => None,
                },
            ),
            None => None,
        }
    }

    /// The default plan: the Community plan.
    pub fn default_plan(&self) -> (p: BillingPlan)
        ensures
            p == self.community,
    {
        self.community
    }
}

/// The first plan of tier `k` in `plans`.
pub open spec fn first_of_kind(plans: Seq<BillingPlan>, k: BillingPlanDiscriminants) -> Option<BillingPlan>
    decreases plans.len(),
{
    if plans.len() == 0 {
        None
    } else if plans[0].kind() == k {
        Some(plans[0])
    } else {
        first_of_kind(plans.drop_first(), k)
    }
}

proof fn lemma_first_of_kind(plans: Seq<BillingPlan>, k: BillingPlanDiscriminants, i: int)
    requires
        0 <= i < plans.len(),
        plans[i].kind() == k,
        forall|j: int| 0 <= j < i ==> (#[trigger] plans[j]).kind() != k,
    ensures
        first_of_kind(plans, k) == Some(plans[i]),
    decreases i,
{
    if i > 0 {
        assert(plans[0].kind() != k);
        lemma_first_of_kind(plans.drop_first(), k, i - 1);
    }
}

proof fn lemma_none_of_kind(plans: Seq<BillingPlan>, k: BillingPlanDiscriminants)
    requires
        forall|j: int| 0 <= j < plans.len() ==> (#[trigger] plans[j]).kind() != k,
    ensures
        first_of_kind(plans, k) == None::<BillingPlan>,
    decreases plans.len(),
{
    if plans.len() > 0 {
        assert(plans[0].kind() != k);
        assert forall|j: int| 0 <= j < plans.drop_first().len() implies (#[trigger] plans.drop_first()[j]).kind() != k by {
            assert(plans.drop_first()[j] == plans[j + 1]);
        }
        lemma_none_of_kind(plans.drop_first(), k);
    }
}

// ---------------------------------------------------------------------------
// Specifications of the derived values
// ---------------------------------------------------------------------------

/// The description of a tier shown to customers.
pub open spec fn tier_description(k: BillingPlanDiscriminants) -> &'static str {
    match k {
        BillingPlanDiscriminants::Community => "Community plan for individuals self-hosting Scanopy - full control over configuration and integrations",
        BillingPlanDiscriminants::Free => "For hobbyists exploring a small network",
        BillingPlanDiscriminants::Starter => "For homelabbers automating documentation",
        BillingPlanDiscriminants::Pro => "For IT pros managing multiple networks",
        BillingPlanDiscriminants::Team => "Collaborate on infrastructure documentation with your team",
        BillingPlanDiscriminants::Business => "For MSPs managing client infrastructure",
        BillingPlanDiscriminants::Enterprise => "For organizations needing custom deployment",
        BillingPlanDiscriminants::Demo => "Demo mode",
        BillingPlanDiscriminants::CommercialSelfHosted => "Commercial license for self-managed deployments — full control over configuration and integrations",
    }
}

pub open spec fn tier_display(k: BillingPlanDiscriminants) -> &'static str {
    match k {
        BillingPlanDiscriminants::Community => "Community",
        BillingPlanDiscriminants::Free => "Free",
        BillingPlanDiscriminants::Starter => "Starter",
        BillingPlanDiscriminants::Pro => "Pro",
        BillingPlanDiscriminants::Team => "Team",
        BillingPlanDiscriminants::Business => "Business",
        BillingPlanDiscriminants::Enterprise => "Enterprise",
        BillingPlanDiscriminants::Demo => "Demo",
        BillingPlanDiscriminants::CommercialSelfHosted => "CommercialSelfHosted",
    }
}

/// The customer-facing name of a tier.
pub open spec fn tier_name(k: BillingPlanDiscriminants) -> &'static str {
    match k {
        BillingPlanDiscriminants::CommercialSelfHosted => "On-Premise",
        _ => tier_display(k),
    }
}

/// The Stripe product id of a tier.
pub open spec fn product_id(k: BillingPlanDiscriminants) -> Seq<char> {
    ascii_lower(tier_display(k)@)
}

pub open spec fn base_price_key(p: BillingPlan) -> Seq<char> {
    product_id(p.kind()) + seq!['_'] + signed_decimal(p.spec_config().base_cents as int) + seq!['_']
        + rate_display(p.spec_config().rate)@
}

pub open spec fn addon_price_key(p: BillingPlan, infix: Seq<char>, cents: i64) -> Seq<char> {
    product_id(p.kind()) + infix + signed_decimal(cents as int) + seq!['_'] + rate_display(
        p.spec_config().rate,
    )@
}

pub open spec fn previous_cloud_tier(k: BillingPlanDiscriminants) -> Option<BillingPlanDiscriminants> {
    match k {
        BillingPlanDiscriminants::Starter => Some(BillingPlanDiscriminants::Free),
        BillingPlanDiscriminants::Pro => Some(BillingPlanDiscriminants::Starter),
        BillingPlanDiscriminants::Team => Some(BillingPlanDiscriminants::Pro),
        BillingPlanDiscriminants::Business => Some(BillingPlanDiscriminants::Team),
        BillingPlanDiscriminants::Enterprise => Some(BillingPlanDiscriminants::Business),
        _ => None,
    }
}

/// Features of tier `k` beyond the baseline given by `prev`: `prev` is the
/// previous tier's lookup (`Some(Some(t))` found, `Some(None)` missing from the
/// catalog) or `None` when `k` has no previous tier.
pub open spec fn incremental(k: BillingPlanDiscriminants, prev: Option<Option<BillingPlanDiscriminants>>) -> Seq<Feature> {
    match prev {
        Some(Some(t)) => enabled_beyond(tier_features(k), tier_features(t)),
        Some(None) => enabled_features(tier_features(k)),
        None => if k == BillingPlanDiscriminants::Free {
            enabled_features(tier_features(k))
        } else {
            enabled_beyond(tier_features(k), tier_features(BillingPlanDiscriminants::Free))
        },
    }
}

/// What a plan adds over its previous tier names each feature (and each
/// feature id) at most once, and names exactly the features on in its tier that are off in the
/// previous tier's fixture; with no previous tier, Free lists all its
/// features and any other tier what it adds over Free; with the previous
/// fixture missing, all its features.
pub proof fn lemma_incremental_members(k: BillingPlanDiscriminants, prev: Option<Option<BillingPlanDiscriminants>>)
    ensures
        incremental(k, prev).no_duplicates(),
        incremental(k, prev).map_values(|f: Feature| feature_id(f)).no_duplicates(),
        forall|x: Feature| #[trigger] incremental(k, prev).contains(x) <==> (feature_on(tier_features(k), x) && match prev {
            Some(Some(t)) => !feature_on(tier_features(t), x),
            Some(None) => true,
            None => k == BillingPlanDiscriminants::Free || !feature_on(tier_features(BillingPlanDiscriminants::Free), x),
        }),
{
    match prev {
        Some(Some(t)) => lemma_enabled_beyond_members(tier_features(k), tier_features(t)),
        Some(None) => lemma_feature_list_members(tier_features(k)),
        None => {
            if k == BillingPlanDiscriminants::Free {
                lemma_feature_list_members(tier_features(k));
            } else {
                lemma_enabled_beyond_members(tier_features(k), tier_features(BillingPlanDiscriminants::Free));
            }
        },
    }
}

/// `$` and the amount in dollars with two decimals; a leading `-` for negatives.
pub open spec fn usd_amount(cents: int) -> Seq<char> {
    let a = if cents < 0 { -cents } else { cents };
    let sign = if cents < 0 { seq!['-'] } else { Seq::<char>::empty() };
    let frac = a % 100;
    sign + seq!['$'] + decimal((a / 100) as nat) + seq!['.'] + (if frac < 10 { seq!['0'] } else { Seq::<char>::empty() })
        + decimal(frac as nat)
}

/// Formats an amount of US cents as dollars, e.g. `1499` as `$14.99`.
pub fn format_cents_usd(cents: i64) -> (r: String)
    ensures
        r@ == usd_amount(cents as int),
{
    let a: u64 = if cents < 0 {
        if cents == i64::MIN { 9223372036854775808u64 } else { (-cents) as u64 }
    } else {
        cents as u64
    };
    let mut r = String::new();
    if cents < 0 {
        push_char(&mut r, '-');
    }
    push_char(&mut r, '$');
    push_decimal(&mut r, a / 100);
    push_char(&mut r, '.');
    let frac = a % 100;
    if frac < 10 {
        push_char(&mut r, '0');
    }
    push_decimal(&mut r, frac);
    proof {
        let sign = if cents < 0 { seq!['-'] } else { Seq::<char>::empty() };
        assert(r@ =~= sign + seq!['$'] + decimal((a / 100) as nat) + seq!['.'] + (if frac < 10 { seq!['0'] } else { Seq::<char>::empty() })
            + decimal(frac as nat));
    }
    r
}

proof fn lemma_split_at_underscore(a1: Seq<char>, b1: Seq<char>, a2: Seq<char>, b2: Seq<char>)
    requires
        a1 + seq!['_'] + b1 == a2 + seq!['_'] + b2,
        !has_char(a1, '_'),
        !has_char(a2, '_'),
    ensures
        a1 == a2,
        b1 == b2,
{
    let s = a1 + seq!['_'] + b1;
    let t = a2 + seq!['_'] + b2;
    if a1.len() < a2.len() {
        assert(s[a1.len() as int] == '_');
        assert(t[a1.len() as int] == a2[a1.len() as int]);
        assert(has_char(a2, '_'));
    } else if a2.len() < a1.len() {
        assert(t[a2.len() as int] == '_');
        assert(s[a2.len() as int] == a1[a2.len() as int]);
        assert(has_char(a1, '_'));
    } else {
        assert(a1 =~= s.take(a1.len() as int));
        assert(a2 =~= t.take(a2.len() as int));
        assert(b1 =~= s.skip(a1.len() as int + 1));
        assert(b2 =~= t.skip(a2.len() as int + 1));
    }
}

proof fn lemma_product_id_facts(k: BillingPlanDiscriminants)
    ensures
        !has_char(product_id(k), '_'),
        product_id(k).len() == tier_display(k)@.len(),
        product_id(k).len() > 2,
        product_id(k)[2] == ascii_lower_char(tier_display(k)@[2]),
{
    reveal_strlit("Community");
    reveal_strlit("Free");
    reveal_strlit("Starter");
    reveal_strlit("Pro");
    reveal_strlit("Team");
    reveal_strlit("Business");
    reveal_strlit("Enterprise");
    reveal_strlit("Demo");
    reveal_strlit("CommercialSelfHosted");
    let d = tier_display(k)@;
    assert forall|i: int| 0 <= i < d.len() implies ascii_lower_char(#[trigger] d[i]) != '_' by {
        assert(d[i] != '_');
        if is_ascii_upper(d[i]) {
            assert(('A' as u32) <= (d[i] as u32) <= ('Z' as u32));
        }
    }
    if has_char(product_id(k), '_') {
        let i = choose|i: int| 0 <= i < product_id(k).len() && product_id(k)[i] == '_';
        assert(product_id(k)[i] == ascii_lower_char(d[i]));
    }
}

proof fn lemma_product_id_injective(a: BillingPlanDiscriminants, b: BillingPlanDiscriminants)
    requires
        product_id(a) == product_id(b),
    ensures
        a == b,
{
    lemma_product_id_facts(a);
    lemma_product_id_facts(b);
    reveal_strlit("Community");
    reveal_strlit("Free");
    reveal_strlit("Starter");
    reveal_strlit("Pro");
    reveal_strlit("Team");
    reveal_strlit("Business");
    reveal_strlit("Enterprise");
    reveal_strlit("Demo");
    reveal_strlit("CommercialSelfHosted");
}

proof fn lemma_signed_decimal_no_underscore(n: int)
    ensures
        !has_char(signed_decimal(n), '_'),
{
    let m: nat = if n < 0 { (-n) as nat } else { n as nat };
    lemma_decimal_digits(m);
    let s = signed_decimal(n);
    if has_char(s, '_') {
        let i = choose|i: int| 0 <= i < s.len() && s[i] == '_';
        if n < 0 {
            if i > 0 {
                assert(s[i] == decimal(m)[i - 1]);
            }
        } else {
            assert(s[i] == decimal(m)[i]);
        }
    }
}

/// Base-price lookup keys tell plans apart: two plans share one exactly
/// when they share tier, base price and billing rate.
pub proof fn lemma_base_price_key_injective(p: BillingPlan, q: BillingPlan)
    ensures
        (base_price_key(p) == base_price_key(q)) <==> (p.kind() == q.kind()
            && p.spec_config().base_cents == q.spec_config().base_cents
            && p.spec_config().rate == q.spec_config().rate),
{
    if base_price_key(p) == base_price_key(q) {
        let d1 = signed_decimal(p.spec_config().base_cents as int);
        let d2 = signed_decimal(q.spec_config().base_cents as int);
        let r1 = rate_display(p.spec_config().rate)@;
        let r2 = rate_display(q.spec_config().rate)@;
        let p1 = product_id(p.kind());
        let p2 = product_id(q.kind());
        assert(base_price_key(p) =~= p1 + seq!['_'] + (d1 + seq!['_'] + r1));
        assert(base_price_key(q) =~= p2 + seq!['_'] + (d2 + seq!['_'] + r2));
        lemma_product_id_facts(p.kind());
        lemma_product_id_facts(q.kind());
        lemma_split_at_underscore(p1, d1 + seq!['_'] + r1, p2, d2 + seq!['_'] + r2);
        lemma_product_id_injective(p.kind(), q.kind());
        lemma_signed_decimal_no_underscore(p.spec_config().base_cents as int);
        lemma_signed_decimal_no_underscore(q.spec_config().base_cents as int);
        lemma_split_at_underscore(d1, r1, d2, r2);
        lemma_i64_text_round_trip(p.spec_config().base_cents);
        lemma_i64_text_round_trip(q.spec_config().base_cents);
        reveal_strlit("Month");
        reveal_strlit("Year");
    }
}

} // verus!
