//! What the server keeps in step with Stripe: the products and prices of
//! each plan, and the add-on quantities of a subscription.
use vstd::prelude::*;

use crate::billing::features::{feature_list, Feature};
use crate::billing::plan::{tier_description, addon_price_key, base_price_key, product_id, tier_name, BillingPlan, BillingRate, PlanConfig};
use crate::billing::subscription::excess;
use crate::text::str_equal;

verus! {

broadcast use vstd::string::group_string_axioms;

/// The product of extra seats.
pub const SEAT_PRODUCT_ID: &'static str = "extra_seats";
pub const SEAT_PRODUCT_NAME: &'static str = "Extra Seats";
/// The product of extra networks.
pub const NETWORK_PRODUCT_ID: &'static str = "extra_networks";
pub const NETWORK_PRODUCT_NAME: &'static str = "Extra Networks";

/// Which product a price belongs to.
#[derive(Debug, Clone, Copy, PartialEq, Eq, Structural)]
pub enum PriceProduct {
    /// The plan's own product.
    Plan,
    ExtraSeats,
    ExtraNetworks,
}

/// A recurring USD price to look up by key, or create.
pub struct PriceRequest {
    pub product: PriceProduct,
    pub lookup_key: String,
    pub unit_amount: i64,
    pub rate: BillingRate,
}

/// The Stripe product of a plan and the prices it needs.
pub struct PlanStripeSetup {
    pub product_id: String,
    pub name: &'static str,
    pub description: &'static str,
    pub features: Vec<Feature>,
    pub prices: Vec<PriceRequest>,
}

/// Plans without Stripe products: self-hosted, contact-only and demo.
pub open spec fn skips_stripe(p: BillingPlan) -> bool {
    p is Community || p is CommercialSelfHosted || p is Enterprise || p is Demo
}

pub open spec fn price_view(r: PriceRequest) -> (PriceProduct, Seq<char>, i64, BillingRate) {
    (r.product, r.lookup_key@, r.unit_amount, r.rate)
}

/// The prices a plan needs: its base price, then a seat and a network
/// add-on price when those can be bought.
pub open spec fn plan_prices(p: BillingPlan) -> Seq<(PriceProduct, Seq<char>, i64, BillingRate)> {
    let c = p.spec_config();
    seq![(PriceProduct::Plan, base_price_key(p), c.base_cents, c.rate)] + match c.seat_cents {
        Some(cents) => seq![(PriceProduct::ExtraSeats, addon_price_key(p, "_seats_"@, cents), cents, c.rate)],
        None => Seq::empty(),
    } + match c.network_cents {
        Some(cents) => seq![(PriceProduct::ExtraNetworks, addon_price_key(p, "_networks_"@, cents), cents, c.rate)],
        None => Seq::empty(),
    }
}

/// What Stripe needs for a plan: its product (id, name, description and the
/// plan's features) and its prices; `None` for plans kept out of Stripe.
pub fn plan_stripe_setup(plan: &BillingPlan) -> (r: Option<PlanStripeSetup>)
    ensures
        skips_stripe(*plan) <==> r is None,
        r matches Some(s) ==> s.product_id@ == product_id(plan.kind()) && s.name == tier_name(plan.kind())
            && s.description == tier_description(plan.kind())
            && s.features@ == feature_list(crate::billing::features::tier_features(plan.kind()))
            && s.prices@.map_values(|q: PriceRequest| price_view(q)) == plan_prices(*plan),
{
    match plan {
        BillingPlan::Community(_) | BillingPlan::CommercialSelfHosted(_) | BillingPlan::Enterprise(_)
        | BillingPlan::Demo(_) => {
            return None;
        },
        _ => {},
    }
    let c = plan.config();
    let mut prices: Vec<PriceRequest> = Vec::new();
    prices.push(PriceRequest {
        product: PriceProduct::Plan,
        lookup_key: plan.stripe_base_price_lookup_key(),
        unit_amount: c.base_cents,
        rate: c.rate,
    });
    let ghost v1 = prices@.map_values(|q: PriceRequest| price_view(q));
    match (plan.stripe_seat_addon_price_lookup_key(), c.seat_cents) {
        (Some(key), Some(cents)) => {
            prices.push(PriceRequest { product: PriceProduct::ExtraSeats, lookup_key: key, unit_amount: cents, rate: c.rate });
        },
        _ => {},
    }
    let ghost v2 = prices@.map_values(|q: PriceRequest| price_view(q));
    match (plan.stripe_network_addon_price_lookup_key(), c.network_cents) {
        (Some(key), Some(cents)) => {
            prices.push(PriceRequest { product: PriceProduct::ExtraNetworks, lookup_key: key, unit_amount: cents, rate: c.rate });
        },
        _ => {},
    }
    proof {
        let p = *plan;
        let cc = p.spec_config();
        let seat = match cc.seat_cents {
            Some(cents) => seq![(PriceProduct::ExtraSeats, addon_price_key(p, "_seats_"@, cents), cents, cc.rate)],
            None => Seq::empty(),
        };
        let net = match cc.network_cents {
            Some(cents) => seq![(PriceProduct::ExtraNetworks, addon_price_key(p, "_networks_"@, cents), cents, cc.rate)],
            None => Seq::empty(),
        };
        assert(v1 =~= seq![(PriceProduct::Plan, base_price_key(p), cc.base_cents, cc.rate)]);
        assert(v2 =~= v1 + seat);
        assert(prices@.map_values(|q: PriceRequest| price_view(q)) =~= v2 + net);
    }
    let features = plan.features().into();
    Some(PlanStripeSetup {
        product_id: plan.stripe_product_id(),
        name: plan.name(),
        description: plan.description(),
        features,
        prices,
    })
}

/// An item of a subscription: its id and its price's id.
pub struct SubscriptionItem {
    pub id: String,
    pub price_id: String,
}

/// A change to send for a subscription item: an existing item (by id) set
/// to a quantity, and deleted when that is zero; or a new item of a price.
pub struct ItemUpdate {
    pub id: Option<String>,
    pub price: String,
    pub quantity: u64,
    pub deleted: bool,
}

pub open spec fn update_view(u: ItemUpdate) -> (Option<Seq<char>>, Seq<char>, u64, bool) {
    (match u.id { Some(i) => Some(i@), None => None }, u.price@, u.quantity, u.deleted)
}

pub open spec fn matches_price(item: SubscriptionItem, price: Option<Seq<char>>) -> bool {
    match price {
        Some(p) => item.price_id@ == p,
        None => false,
    }
}

/// The updates of the existing items: seat add-on items get the extra
/// seats, network add-on items the extra networks (deleted at zero); other
/// items are left alone.
pub open spec fn existing_updates(items: Seq<SubscriptionItem>, seat_price: Option<Seq<char>>, network_price: Option<Seq<char>>, extra_seats: u64, extra_networks: u64) -> Seq<(Option<Seq<char>>, Seq<char>, u64, bool)>
    decreases items.len(),
{
    if items.len() == 0 {
        Seq::empty()
    } else {
        let it = items.last();
        existing_updates(items.drop_last(), seat_price, network_price, extra_seats, extra_networks) + if matches_price(it, seat_price) {
            seq![(Some(it.id@), it.price_id@, extra_seats, extra_seats == 0)]
        } else if matches_price(it, network_price) {
            seq![(Some(it.id@), it.price_id@, extra_networks, extra_networks == 0)]
        } else {
            Seq::empty()
        }
    }
}

pub open spec fn any_item_matches(items: Seq<SubscriptionItem>, price: Option<Seq<char>>) -> bool {
    exists|i: int| 0 <= i < items.len() && matches_price(#[trigger] items[i], price)
}

/// Some item carries the network add-on (and not the seat add-on, which is
/// checked first).
pub open spec fn any_network_item(items: Seq<SubscriptionItem>, seat_price: Option<Seq<char>>, network_price: Option<Seq<char>>) -> bool {
    exists|i: int| 0 <= i < items.len() && !matches_price(items[i], seat_price) && matches_price(#[trigger] items[i], network_price)
}

/// The full update: the existing items' updates, then a new seat item and
/// a new network item when extras are due and no item carries them.
pub open spec fn addon_updates(items: Seq<SubscriptionItem>, seat_price: Option<Seq<char>>, network_price: Option<Seq<char>>, extra_seats: u64, extra_networks: u64) -> Seq<(Option<Seq<char>>, Seq<char>, u64, bool)> {
    existing_updates(items, seat_price, network_price, extra_seats, extra_networks) + (
        if !any_item_matches(items, seat_price) && extra_seats > 0 && seat_price is Some {
            seq![(None, seat_price->Some_0, extra_seats, false)]
        } else {
            Seq::empty()
        }
    ) + (
        if !any_network_item(items, seat_price, network_price) && extra_networks > 0 && network_price is Some {
            seq![(None, network_price->Some_0, extra_networks, false)]
        } else {
            Seq::empty()
        }
    )
}

fn copy_text(s: &str) -> (r: String)
    ensures
        r@ == s@,
{
    let mut r = String::new();
    r.append(s);
    r
}

fn price_is(item: &SubscriptionItem, price: Option<&String>) -> (b: bool)
    ensures
        b == matches_price(*item, match price { Some(p) => Some(p@), None => None }),
{
    match price {
        Some(p) => str_equal(item.price_id.as_str(), p.as_str()),
        None => false,
    }
}

/// The add-on quantity changes to send for a subscription on a plan with
/// the given configuration: extra seats and networks are the counts beyond
/// what the plan includes. `seat_price` and `network_price` are the ids of
/// the plan's add-on prices, when Stripe has them. `None` for the Free plan,
/// which has no add-ons.
pub fn addon_item_updates(
    plan: &BillingPlan,
    network_count: u64,
    seat_count: u64,
    items: &Vec<SubscriptionItem>,
    seat_price: Option<&String>,
    network_price: Option<&String>,
) -> (r: Option<Vec<ItemUpdate>>)
    ensures
        plan is Free <==> r is None,
        r matches Some(v) ==> v@.map_values(|u: ItemUpdate| update_view(u)) == addon_updates(
            items@,
            match seat_price { Some(p) => Some(p@), None => None },
            match network_price { Some(p) => Some(p@), None => None },
            excess(seat_count, plan.spec_config().included_seats),
            excess(network_count, plan.spec_config().included_networks),
        ),
{
    if plan.is_free() {
        return None;
    }
    let c: PlanConfig = plan.config();
    let extra_networks = match c.included_networks {
        Some(n) => network_count.saturating_sub(n),
        None => 0,
    };
    let extra_seats = match c.included_seats {
        Some(n) => seat_count.saturating_sub(n),
        None => 0,
    };
    let ghost sp = match seat_price { Some(p) => Some(p@), None => None };
    let ghost np = match network_price { Some(p) => Some(p@), None => None };
    let mut out: Vec<ItemUpdate> = Vec::new();
    let mut found_seat = false;
    let mut found_network = false;
    let mut i: usize = 0;
    while i < items.len()
        invariant
            i <= items@.len(),
            sp == (match seat_price { Some(p) => Some(p@), None => None }),
            np == (match network_price { Some(p) => Some(p@), None => None }),
            out@.map_values(|u: ItemUpdate| update_view(u)) == existing_updates(items@.take(i as int), sp, np, extra_seats, extra_networks),
            found_seat == any_item_matches(items@.take(i as int), sp),
            found_network == any_network_item(items@.take(i as int), sp, np),
        decreases items.len() - i,
    {
        let item = &items[i];
        let ghost before = out@.map_values(|u: ItemUpdate| update_view(u));
        let ghost t = items@.take(i as int);
        let ghost t1 = items@.take(i + 1);
        proof {
            assert(t1.drop_last() =~= t);
            assert(t1.last() == items@[i as int]);
        }
        let is_seat = price_is(item, seat_price);
        let is_network = price_is(item, network_price);
        if is_seat {
            found_seat = true;
            out.push(ItemUpdate { id: Some(copy_text(item.id.as_str())), price: copy_text(item.price_id.as_str()), quantity: extra_seats, deleted: extra_seats == 0 });
        } else if is_network {
            found_network = true;
            out.push(ItemUpdate { id: Some(copy_text(item.id.as_str())), price: copy_text(item.price_id.as_str()), quantity: extra_networks, deleted: extra_networks == 0 });
        }
        proof {
            assert(out@.map_values(|u: ItemUpdate| update_view(u)) =~= existing_updates(t1, sp, np, extra_seats, extra_networks));
            if any_item_matches(t, sp) {
                let k = choose|k: int| 0 <= k < t.len() && matches_price(#[trigger] t[k], sp);
                assert(t1[k] == t[k]);
            }
            if any_item_matches(t1, sp) && !is_seat {
                let k = choose|k: int| 0 <= k < t1.len() && matches_price(#[trigger] t1[k], sp);
                assert(k < i);
                assert(t[k] == t1[k]);
            }
            if is_seat {
                assert(matches_price(t1[i as int], sp));
            }
            if any_network_item(t, sp, np) {
                let k = choose|k: int| 0 <= k < t.len() && !matches_price(t[k], sp) && matches_price(#[trigger] t[k], np);
                assert(t1[k] == t[k]);
            }
            if any_network_item(t1, sp, np) && !(is_network && !is_seat) {
                let k = choose|k: int| 0 <= k < t1.len() && !matches_price(t1[k], sp) && matches_price(#[trigger] t1[k], np);
                assert(k < i);
                assert(t[k] == t1[k]);
            }
            if is_network && !is_seat {
                assert(!matches_price(t1[i as int], sp) && matches_price(t1[i as int], np));
            }
        }
        i = i + 1;
    }
    assert(items@.take(items@.len() as int) =~= items@);
    let ghost mid = out@.map_values(|u: ItemUpdate| update_view(u));
    if !found_seat && extra_seats > 0 {
        match seat_price {
            Some(p) => {
                out.push(ItemUpdate { id: None, price: copy_text(p.as_str()), quantity: extra_seats, deleted: false });
            },
            None => {},
        }
    }
    let ghost mid2 = out@.map_values(|u: ItemUpdate| update_view(u));
    proof {
        let seat_add = if !any_item_matches(items@, sp) && extra_seats > 0 && sp is Some {
            seq![(None, sp->Some_0, extra_seats, false)]
        } else {
            Seq::empty()
        };
        assert(mid2 =~= mid + seat_add);
    }
    if !found_network && extra_networks > 0 {
        match network_price {
            Some(p) => {
                out.push(ItemUpdate { id: None, price: copy_text(p.as_str()), quantity: extra_networks, deleted: false });
            },
            None => {},
        }
    }
    proof {
        let net_add = if !any_network_item(items@, sp, np) && extra_networks > 0 && np is Some {
            seq![(None, np->Some_0, extra_networks, false)]
        } else {
            Seq::empty()
        };
        assert(out@.map_values(|u: ItemUpdate| update_view(u)) =~= mid2 + net_add);
    }
    Some(out)
}

} // verus!
