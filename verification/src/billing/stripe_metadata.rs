//! The typed view of the key/value metadata a subscription carries at the
//! payment provider. The billing endpoints write keys through it and the
//! webhook reads them back (the cancel reason, the pause), so the keys and
//! their encodings live in one place.
//!
//! The provider keeps keys that an update does not send, so a partial
//! instance extends a subscription's metadata without disturbing the
//! identification written by an earlier call.
use vstd::prelude::*;

use crate::billing::cancel::{
    cancel_reason_id, lemma_offer_id_round_trip, lemma_reason_id_round_trip, offer_from_text,
    reason_from_text, save_offer_id, CancelReason, SaveOffer,
};
use crate::ids::{format_uuid, parse_uuid, uuid_from_text, uuid_text};
use crate::text::{
    decimal, decimal_string, i64_text_value, lemma_i64_text_round_trip, lemma_u32_text_round_trip,
    parse_i64, parse_u32, signed_decimal, signed_decimal_string, str_equal, string_of, u32_text_value,
};

verus! {

broadcast use vstd::string::group_string_axioms;

pub const KEY_ORGANIZATION_ID: &'static str = "organization_id";
pub const KEY_PLAN: &'static str = "plan";
pub const KEY_PAUSE_DURATION_DAYS: &'static str = "scanopy_pause_duration_days";
pub const KEY_PAUSED_AT: &'static str = "scanopy_paused_at";
pub const KEY_TRIAL_EXTENDED_DAYS: &'static str = "scanopy_trial_extended_days";
pub const KEY_CANCEL_REASON: &'static str = "scanopy_cancel_reason";
pub const KEY_CANCEL_SAVE_OFFER_SHOWN: &'static str = "scanopy_cancel_save_offer_shown";
pub const KEY_CANCEL_SAVE_OFFER_REDEEMED: &'static str = "scanopy_cancel_save_offer_redeemed";

/// Every key the metadata may hold, the organization and its plan first,
/// then the keys this service owns.
pub struct StripeSubscriptionMetadata {
    pub organization_id: Option<u128>,
    /// The plan, as its JSON text (the caller encodes and decodes plans).
    pub plan: Option<String>,
    pub scanopy_pause_duration_days: Option<u32>,
    /// When the pause began (Unix seconds, UTC); resuming early shifts the
    /// renewal by the days actually paused.
    pub scanopy_paused_at: Option<i64>,
    pub scanopy_trial_extended_days: Option<u32>,
    pub scanopy_cancel_reason: Option<CancelReason>,
    pub scanopy_cancel_save_offer_shown: Option<Vec<SaveOffer>>,
    pub scanopy_cancel_save_offer_redeemed: Option<SaveOffer>,
}

impl Default for StripeSubscriptionMetadata {
    fn default() -> (m: Self)
        ensures
            m.organization_id is None,
            m.plan is None,
            m.scanopy_pause_duration_days is None,
            m.scanopy_paused_at is None,
            m.scanopy_trial_extended_days is None,
            m.scanopy_cancel_reason is None,
            m.scanopy_cancel_save_offer_shown is None,
            m.scanopy_cancel_save_offer_redeemed is None,
    {
        StripeSubscriptionMetadata {
            organization_id: None,
            plan: None,
            scanopy_pause_duration_days: None,
            scanopy_paused_at: None,
            scanopy_trial_extended_days: None,
            scanopy_cancel_reason: None,
            scanopy_cancel_save_offer_shown: None,
            scanopy_cancel_save_offer_redeemed: None,
        }
    }
}

/// The metadata by its plain values, field by field.
pub type MetadataView = (
    Option<u128>,
    Option<Seq<char>>,
    Option<u32>,
    Option<i64>,
    Option<u32>,
    Option<CancelReason>,
    Option<Seq<SaveOffer>>,
    Option<SaveOffer>,
);

pub open spec fn metadata_view(m: StripeSubscriptionMetadata) -> MetadataView {
    (
        m.organization_id,
        match m.plan { Some(p) => Some(p@), None => None },
        m.scanopy_pause_duration_days,
        m.scanopy_paused_at,
        m.scanopy_trial_extended_days,
        m.scanopy_cancel_reason,
        match m.scanopy_cancel_save_offer_shown { Some(v) => Some(v@), None => None },
        m.scanopy_cancel_save_offer_redeemed,
    )
}

/// Key/value entries by their text.
pub open spec fn entries_view(es: Seq<(String, String)>) -> Seq<(Seq<char>, Seq<char>)> {
    es.map_values(|e: (String, String)| (e.0@, e.1@))
}

/// The value of the first entry under `key`.
pub open spec fn entry_value(es: Seq<(Seq<char>, Seq<char>)>, key: Seq<char>) -> Option<Seq<char>>
    decreases es.len(),
{
    if es.len() == 0 {
        None
    } else if es[0].0 == key {
        Some(es[0].1)
    } else {
        entry_value(es.drop_first(), key)
    }
}

/// The JSON text of a list of strings.
pub uninterp spec fn json_string_list(items: Seq<Seq<char>>) -> Seq<char>;

/// The list of strings a JSON text holds, or `None` when it holds
/// something else.
pub uninterp spec fn json_string_list_parse(t: Seq<char>) -> Option<Seq<Seq<char>>>;

pub open spec fn texts(v: Seq<String>) -> Seq<Seq<char>> {
    v.map_values(|s: String| s@)
}

/// `serde_json::to_string` on a list of strings. Serialising a list of
/// strings cannot fail, and `serde_json::from_str` reads the text back as
/// the same list. The result is named.
#[verifier::external_body]
fn json_list_text(items: &Vec<String>) -> (s: String)
    ensures
        s@ == json_string_list(texts(items@)),
        json_string_list_parse(s@) == Some(texts(items@)),
{
    serde_json::to_string(items).unwrap_or_default()
}

/// `serde_json::from_str` into a list of strings; the result is named.
#[verifier::external_body]
fn parse_json_list(text: &str) -> (r: Option<Vec<String>>)
    ensures
        match r {
            Some(v) => json_string_list_parse(text@) == Some(texts(v@)),
            None => json_string_list_parse(text@) is None,
        },
{
    serde_json::from_str::<Vec<String>>(text).ok()
}

/// The identifiers of offers.
pub open spec fn offer_ids(os: Seq<SaveOffer>) -> Seq<Seq<char>> {
    os.map_values(|o: SaveOffer| save_offer_id(o)@)
}

/// The offers a list of identifiers names; `None` when one names none.
pub open spec fn offers_from_ids(ids: Seq<Seq<char>>) -> Option<Seq<SaveOffer>>
    decreases ids.len(),
{
    if ids.len() == 0 {
        Some(Seq::empty())
    } else {
        match (offers_from_ids(ids.drop_last()), offer_from_text(ids.last())) {
            (Some(a), Some(o)) => Some(a.push(o)),
            _ => None,
        }
    }
}

proof fn lemma_offer_ids_round_trip(os: Seq<SaveOffer>)
    ensures
        offers_from_ids(offer_ids(os)) == Some(os),
    decreases os.len(),
{
    if os.len() > 0 {
        lemma_offer_ids_round_trip(os.drop_last());
        lemma_offer_id_round_trip(os.last());
        assert(offer_ids(os).drop_last() =~= offer_ids(os.drop_last()));
        assert(os.drop_last().push(os.last()) =~= os);
    } else {
        assert(offer_ids(os) =~= Seq::<Seq<char>>::empty());
    }
}

/// One entry when the value is present.
pub open spec fn opt_entry(key: Seq<char>, value: Option<Seq<char>>) -> Seq<(Seq<char>, Seq<char>)> {
    match value {
        Some(v) => seq![(key, v)],
        None => Seq::empty(),
    }
}

/// The entries written for metadata: one per present field, in field
/// order, each value in its encoding (UUID text, the plan's JSON, decimal
/// numbers, snake_case identifiers, a JSON list of identifiers).
pub open spec fn stripe_entries(m: MetadataView) -> Seq<(Seq<char>, Seq<char>)> {
    opt_entry(KEY_ORGANIZATION_ID@, match m.0 { Some(id) => Some(uuid_text(id)), None => None })
        + opt_entry(KEY_PLAN@, m.1)
        + opt_entry(KEY_PAUSE_DURATION_DAYS@, match m.2 { Some(d) => Some(decimal(d as nat)), None => None })
        + opt_entry(KEY_PAUSED_AT@, match m.3 { Some(t) => Some(signed_decimal(t as int)), None => None })
        + opt_entry(KEY_TRIAL_EXTENDED_DAYS@, match m.4 { Some(d) => Some(decimal(d as nat)), None => None })
        + opt_entry(KEY_CANCEL_REASON@, match m.5 { Some(r) => Some(cancel_reason_id(r)@), None => None })
        + opt_entry(KEY_CANCEL_SAVE_OFFER_SHOWN@, match m.6 {
            Some(os) => Some(json_string_list(offer_ids(os))),
            None => None,
        })
        + opt_entry(KEY_CANCEL_SAVE_OFFER_REDEEMED@, match m.7 { Some(o) => Some(save_offer_id(o)@), None => None })
}

/// The metadata read from entries: each field from its key's value, `None`
/// when the key is missing or its value does not read.
pub open spec fn metadata_from_entries(es: Seq<(Seq<char>, Seq<char>)>) -> MetadataView {
    (
        match entry_value(es, KEY_ORGANIZATION_ID@) { Some(t) => uuid_from_text(t), None => None },
        entry_value(es, KEY_PLAN@),
        match entry_value(es, KEY_PAUSE_DURATION_DAYS@) { Some(t) => u32_text_value(t), None => None },
        match entry_value(es, KEY_PAUSED_AT@) { Some(t) => i64_text_value(t), None => None },
        match entry_value(es, KEY_TRIAL_EXTENDED_DAYS@) { Some(t) => u32_text_value(t), None => None },
        match entry_value(es, KEY_CANCEL_REASON@) { Some(t) => reason_from_text(t), None => None },
        match entry_value(es, KEY_CANCEL_SAVE_OFFER_SHOWN@) {
            Some(t) => match json_string_list_parse(t) { Some(ids) => offers_from_ids(ids), None => None },
            None => None,
        },
        match entry_value(es, KEY_CANCEL_SAVE_OFFER_REDEEMED@) { Some(t) => offer_from_text(t), None => None },
    )
}

proof fn lemma_entry_value_push_at(es: Seq<(Seq<char>, Seq<char>)>, e: (Seq<char>, Seq<char>), k: Seq<char>)
    ensures
        entry_value(es.push(e), k) == (match entry_value(es, k) {
            Some(v) => Some(v),
            None => if e.0 == k { Some(e.1) } else { None },
        }),
    decreases es.len(),
{
    let p = es.push(e);
    if es.len() == 0 {
        assert(p[0] == e);
        assert(p.drop_first() =~= Seq::<(Seq<char>, Seq<char>)>::empty());
        assert(entry_value(p.drop_first(), k) is None);
    } else {
        lemma_entry_value_push_at(es.drop_first(), e, k);
        assert(p[0] == es[0]);
        assert(p.drop_first() =~= es.drop_first().push(e));
    }
}

proof fn lemma_entry_value_push(es: Seq<(Seq<char>, Seq<char>)>, e: (Seq<char>, Seq<char>))
    ensures
        forall|k: Seq<char>| #[trigger] entry_value(es.push(e), k) == (match entry_value(es, k) {
            Some(v) => Some(v),
            None => if e.0 == k { Some(e.1) } else { None },
        }),
{
    assert forall|k: Seq<char>| #[trigger] entry_value(es.push(e), k) == (match entry_value(es, k) {
        Some(v) => Some(v),
        None => if e.0 == k { Some(e.1) } else { None },
    }) by {
        lemma_entry_value_push_at(es, e, k);
    }
}

proof fn lemma_entry_value_opt(es: Seq<(Seq<char>, Seq<char>)>, key: Seq<char>, value: Option<Seq<char>>)
    ensures
        forall|k: Seq<char>| #[trigger] entry_value(es + opt_entry(key, value), k) == (match entry_value(es, k) {
            Some(v) => Some(v),
            None => if key == k { value } else { None },
        }),
{
    match value {
        Some(v) => {
            assert(es + opt_entry(key, value) =~= es.push((key, v)));
            lemma_entry_value_push(es, (key, v));
        },
        None => {
            assert(es + opt_entry(key, value) =~= es);
        },
    }
}

fn push_entry(out: &mut Vec<(String, String)>, key: &str, value: String)
    ensures
        entries_view(final(out)@) == entries_view(old(out)@).push((key@, value@)),
{
    let ghost before = entries_view(out@);
    out.push((string_of(key), value));
    assert(entries_view(out@) =~= before.push((key@, value@)));
}

pub open spec fn opt_text(v: Option<String>) -> Option<Seq<char>> {
    match v {
        Some(t) => Some(t@),
        None => None,
    }
}

fn append_opt(out: &mut Vec<(String, String)>, key: &str, value: Option<String>)
    ensures
        entries_view(final(out)@) == entries_view(old(out)@) + opt_entry(key@, opt_text(value)),
{
    match value {
        Some(v) => {
            let ghost before = entries_view(out@);
            let ghost vv = v@;
            push_entry(out, key, v);
            assert(entries_view(out@) =~= before + opt_entry(key@, Some(vv)));
        },
        None => {
            assert(entries_view(out@) =~= entries_view(out@) + opt_entry(key@, None));
        },
    }
}

fn offer_id_texts(offers: &Vec<SaveOffer>) -> (ids: Vec<String>)
    ensures
        texts(ids@) == offer_ids(offers@),
{
    let mut ids: Vec<String> = Vec::new();
    let mut i: usize = 0;
    while i < offers.len()
        invariant
            i <= offers@.len(),
            texts(ids@) == offer_ids(offers@.take(i as int)),
        decreases offers.len() - i,
    {
        let ghost before = texts(ids@);
        ids.push(string_of(offers[i].id()));
        assert(texts(ids@) =~= before.push(save_offer_id(offers@[i as int])@));
        assert(offer_ids(offers@.take(i + 1)) =~= offer_ids(offers@.take(i as int)).push(save_offer_id(offers@[i as int])@));
        i = i + 1;
    }
    assert(offers@.take(offers@.len() as int) =~= offers@);
    ids
}

/// The value under `key` in the entries (the first, should a key repeat).
fn get_entry<'a>(m: &'a Vec<(String, String)>, key: &str) -> (r: Option<&'a String>)
    ensures
        (match r { Some(v) => Some(v@), None => None }) == entry_value(entries_view(m@), key@),
{
    let ghost es = entries_view(m@);
    assert(es.skip(0) =~= es);
    let mut i: usize = 0;
    while i < m.len()
        invariant
            i <= m@.len(),
            es == entries_view(m@),
            entry_value(es, key@) == entry_value(es.skip(i as int), key@),
        decreases m.len() - i,
    {
        proof {
            let rest = es.skip(i as int);
            assert(rest[0] == (m@[i as int].0@, m@[i as int].1@));
            assert(rest.drop_first() =~= es.skip(i + 1));
        }
        if str_equal(m[i].0.as_str(), key) {
            return Some(&m[i].1);
        }
        i = i + 1;
    }
    assert(es.skip(i as int) =~= Seq::<(Seq<char>, Seq<char>)>::empty());
    None
}

proof fn lemma_keys_distinct()
    ensures
        KEY_ORGANIZATION_ID@ != KEY_PLAN@,
        KEY_ORGANIZATION_ID@ != KEY_PAUSE_DURATION_DAYS@,
        KEY_ORGANIZATION_ID@ != KEY_PAUSED_AT@,
        KEY_ORGANIZATION_ID@ != KEY_TRIAL_EXTENDED_DAYS@,
        KEY_ORGANIZATION_ID@ != KEY_CANCEL_REASON@,
        KEY_ORGANIZATION_ID@ != KEY_CANCEL_SAVE_OFFER_SHOWN@,
        KEY_ORGANIZATION_ID@ != KEY_CANCEL_SAVE_OFFER_REDEEMED@,
        KEY_PLAN@ != KEY_PAUSE_DURATION_DAYS@,
        KEY_PLAN@ != KEY_PAUSED_AT@,
        KEY_PLAN@ != KEY_TRIAL_EXTENDED_DAYS@,
        KEY_PLAN@ != KEY_CANCEL_REASON@,
        KEY_PLAN@ != KEY_CANCEL_SAVE_OFFER_SHOWN@,
        KEY_PLAN@ != KEY_CANCEL_SAVE_OFFER_REDEEMED@,
        KEY_PAUSE_DURATION_DAYS@ != KEY_PAUSED_AT@,
        KEY_PAUSE_DURATION_DAYS@ != KEY_TRIAL_EXTENDED_DAYS@,
        KEY_PAUSE_DURATION_DAYS@ != KEY_CANCEL_REASON@,
        KEY_PAUSE_DURATION_DAYS@ != KEY_CANCEL_SAVE_OFFER_SHOWN@,
        KEY_PAUSE_DURATION_DAYS@ != KEY_CANCEL_SAVE_OFFER_REDEEMED@,
        KEY_PAUSED_AT@ != KEY_TRIAL_EXTENDED_DAYS@,
        KEY_PAUSED_AT@ != KEY_CANCEL_REASON@,
        KEY_PAUSED_AT@ != KEY_CANCEL_SAVE_OFFER_SHOWN@,
        KEY_PAUSED_AT@ != KEY_CANCEL_SAVE_OFFER_REDEEMED@,
        KEY_TRIAL_EXTENDED_DAYS@ != KEY_CANCEL_REASON@,
        KEY_TRIAL_EXTENDED_DAYS@ != KEY_CANCEL_SAVE_OFFER_SHOWN@,
        KEY_TRIAL_EXTENDED_DAYS@ != KEY_CANCEL_SAVE_OFFER_REDEEMED@,
        KEY_CANCEL_REASON@ != KEY_CANCEL_SAVE_OFFER_SHOWN@,
        KEY_CANCEL_REASON@ != KEY_CANCEL_SAVE_OFFER_REDEEMED@,
        KEY_CANCEL_SAVE_OFFER_SHOWN@ != KEY_CANCEL_SAVE_OFFER_REDEEMED@,
{
    reveal_strlit("organization_id");
    reveal_strlit("plan");
    reveal_strlit("scanopy_pause_duration_days");
    reveal_strlit("scanopy_paused_at");
    reveal_strlit("scanopy_trial_extended_days");
    reveal_strlit("scanopy_cancel_reason");
    reveal_strlit("scanopy_cancel_save_offer_shown");
    reveal_strlit("scanopy_cancel_save_offer_redeemed");
    assert(KEY_ORGANIZATION_ID@.len() == 15);
    assert(KEY_PLAN@.len() == 4);
    assert(KEY_PAUSE_DURATION_DAYS@.len() == 27 && KEY_PAUSE_DURATION_DAYS@[8] == 'p');
    assert(KEY_PAUSED_AT@.len() == 17);
    assert(KEY_TRIAL_EXTENDED_DAYS@.len() == 27 && KEY_TRIAL_EXTENDED_DAYS@[8] == 't');
    assert(KEY_CANCEL_REASON@.len() == 21);
    assert(KEY_CANCEL_SAVE_OFFER_SHOWN@.len() == 31);
    assert(KEY_CANCEL_SAVE_OFFER_REDEEMED@.len() == 34);
}

/// The entries written for metadata read back as that metadata, given that
/// its UUID and its list of offer identifiers read back from their texts.
proof fn lemma_metadata_round_trip(m: MetadataView)
    requires
        m.0 matches Some(id) ==> uuid_from_text(uuid_text(id)) == Some(id),
        m.6 matches Some(os) ==> json_string_list_parse(json_string_list(offer_ids(os))) == Some(offer_ids(os)),
    ensures
        metadata_from_entries(stripe_entries(m)) == m,
{
    lemma_keys_distinct();
    let e0 = Seq::<(Seq<char>, Seq<char>)>::empty();
    let v0 = match m.0 { Some(id) => Some(uuid_text(id)), None => None };
    let v2 = match m.2 { Some(d) => Some(decimal(d as nat)), None => None };
    let v3 = match m.3 { Some(t) => Some(signed_decimal(t as int)), None => None };
    let v4 = match m.4 { Some(d) => Some(decimal(d as nat)), None => None };
    let v5 = match m.5 { Some(r) => Some(cancel_reason_id(r)@), None => None };
    let v6 = match m.6 { Some(os) => Some(json_string_list(offer_ids(os))), None => None };
    let v7 = match m.7 { Some(o) => Some(save_offer_id(o)@), None => None };
    let e1 = e0 + opt_entry(KEY_ORGANIZATION_ID@, v0);
    let e2 = e1 + opt_entry(KEY_PLAN@, m.1);
    let e3 = e2 + opt_entry(KEY_PAUSE_DURATION_DAYS@, v2);
    let e4 = e3 + opt_entry(KEY_PAUSED_AT@, v3);
    let e5 = e4 + opt_entry(KEY_TRIAL_EXTENDED_DAYS@, v4);
    let e6 = e5 + opt_entry(KEY_CANCEL_REASON@, v5);
    let e7 = e6 + opt_entry(KEY_CANCEL_SAVE_OFFER_SHOWN@, v6);
    let e8 = e7 + opt_entry(KEY_CANCEL_SAVE_OFFER_REDEEMED@, v7);
    assert(e1 =~= opt_entry(KEY_ORGANIZATION_ID@, v0));
    assert(e8 == stripe_entries(m));
    lemma_entry_value_opt(e0, KEY_ORGANIZATION_ID@, v0);
    lemma_entry_value_opt(e1, KEY_PLAN@, m.1);
    lemma_entry_value_opt(e2, KEY_PAUSE_DURATION_DAYS@, v2);
    lemma_entry_value_opt(e3, KEY_PAUSED_AT@, v3);
    lemma_entry_value_opt(e4, KEY_TRIAL_EXTENDED_DAYS@, v4);
    lemma_entry_value_opt(e5, KEY_CANCEL_REASON@, v5);
    lemma_entry_value_opt(e6, KEY_CANCEL_SAVE_OFFER_SHOWN@, v6);
    lemma_entry_value_opt(e7, KEY_CANCEL_SAVE_OFFER_REDEEMED@, v7);
    assert(entry_value(e8, KEY_ORGANIZATION_ID@) == v0);
    assert(entry_value(e8, KEY_PLAN@) == m.1);
    assert(entry_value(e8, KEY_PAUSE_DURATION_DAYS@) == v2);
    assert(entry_value(e8, KEY_PAUSED_AT@) == v3);
    assert(entry_value(e8, KEY_TRIAL_EXTENDED_DAYS@) == v4);
    assert(entry_value(e8, KEY_CANCEL_REASON@) == v5);
    assert(entry_value(e8, KEY_CANCEL_SAVE_OFFER_SHOWN@) == v6);
    assert(entry_value(e8, KEY_CANCEL_SAVE_OFFER_REDEEMED@) == v7);
    if let Some(d) = m.2 {
        lemma_u32_text_round_trip(d);
    }
    if let Some(t) = m.3 {
        lemma_i64_text_round_trip(t);
    }
    if let Some(d) = m.4 {
        lemma_u32_text_round_trip(d);
    }
    if let Some(r) = m.5 {
        lemma_reason_id_round_trip(r);
    }
    if let Some(os) = m.6 {
        lemma_offer_ids_round_trip(os);
    }
    if let Some(o) = m.7 {
        lemma_offer_id_round_trip(o);
    }
}

impl StripeSubscriptionMetadata {
    /// The entries to send: one per present field (see `stripe_entries`).
    /// Reading them back gives this metadata again.
    /// The entries to send: one per present field (see `stripe_entries`).
    /// Reading them back gives this metadata again.
    pub fn to_stripe(&self) -> (out: Vec<(String, String)>)
        ensures
            entries_view(out@) == stripe_entries(metadata_view(*self)),
            metadata_from_entries(entries_view(out@)) == metadata_view(*self),
    {
        let ghost m = metadata_view(*self);
        let org = match self.organization_id {
            Some(id) => Some(format_uuid(id)),
            None => None,
        };
        let plan = match &self.plan {
            Some(p) => Some(string_of(p.as_str())),
            None => None,
        };
        let pause = match self.scanopy_pause_duration_days {
            Some(d) => Some(decimal_string(d as u64)),
            None => None,
        };
        let paused_at = match self.scanopy_paused_at {
            Some(t) => Some(signed_decimal_string(t)),
            None => None,
        };
        let trial = match self.scanopy_trial_extended_days {
            Some(d) => Some(decimal_string(d as u64)),
            None => None,
        };
        let reason = match self.scanopy_cancel_reason {
            Some(r) => Some(string_of(r.id())),
            None => None,
        };
        let shown = match &self.scanopy_cancel_save_offer_shown {
            Some(os) => Some(json_list_text(&offer_id_texts(os))),
            None => None,
        };
        let redeemed = match self.scanopy_cancel_save_offer_redeemed {
            Some(o) => Some(string_of(o.id())),
            None => None,
        };
        let mut out: Vec<(String, String)> = Vec::new();
        assert(entries_view(out@) =~= Seq::<(Seq<char>, Seq<char>)>::empty());
        append_opt(&mut out, KEY_ORGANIZATION_ID, org);
        append_opt(&mut out, KEY_PLAN, plan);
        append_opt(&mut out, KEY_PAUSE_DURATION_DAYS, pause);
        append_opt(&mut out, KEY_PAUSED_AT, paused_at);
        append_opt(&mut out, KEY_TRIAL_EXTENDED_DAYS, trial);
        append_opt(&mut out, KEY_CANCEL_REASON, reason);
        append_opt(&mut out, KEY_CANCEL_SAVE_OFFER_SHOWN, shown);
        append_opt(&mut out, KEY_CANCEL_SAVE_OFFER_REDEEMED, redeemed);
        proof {
            assert(Seq::<(Seq<char>, Seq<char>)>::empty() + opt_entry(KEY_ORGANIZATION_ID@, match m.0 {
                Some(id) => Some(uuid_text(id)),
                None => None,
            }) =~= opt_entry(KEY_ORGANIZATION_ID@, match m.0 { Some(id) => Some(uuid_text(id)), None => None }));
            assert(entries_view(out@) == stripe_entries(m));
            lemma_metadata_round_trip(m);
        }
        out
    }

    /// Reads metadata from its entries. A missing key, or a value that does
    /// not read, leaves its field `None`; this never fails.
    pub fn from_stripe(m: &Vec<(String, String)>) -> (r: StripeSubscriptionMetadata)
        ensures
            metadata_view(r) == metadata_from_entries(entries_view(m@)),
    {
        let organization_id = match get_entry(m, KEY_ORGANIZATION_ID) {
            Some(t) => parse_uuid(t.as_str()),
            None => None,
        };
        let plan = match get_entry(m, KEY_PLAN) {
            Some(t) => Some(string_of(t.as_str())),
            None => None,
        };
        let scanopy_pause_duration_days = match get_entry(m, KEY_PAUSE_DURATION_DAYS) {
            Some(t) => parse_u32(t.as_str()),
            None => None,
        };
        let scanopy_paused_at = match get_entry(m, KEY_PAUSED_AT) {
            Some(t) => parse_i64(t.as_str()),
            None => None,
        };
        let scanopy_trial_extended_days = match get_entry(m, KEY_TRIAL_EXTENDED_DAYS) {
            Some(t) => parse_u32(t.as_str()),
            None => None,
        };
        let scanopy_cancel_reason = match get_entry(m, KEY_CANCEL_REASON) {
            Some(t) => CancelReason::from_id(t.as_str()),
            None => None,
        };
        let scanopy_cancel_save_offer_shown = match get_entry(m, KEY_CANCEL_SAVE_OFFER_SHOWN) {
            Some(t) => match parse_json_list(t.as_str()) {
                Some(ids) => offers_named(&ids),
                None => None,
            },
            None => None,
        };
        let scanopy_cancel_save_offer_redeemed = match get_entry(m, KEY_CANCEL_SAVE_OFFER_REDEEMED) {
            Some(t) => SaveOffer::from_id(t.as_str()),
            None => None,
        };
        StripeSubscriptionMetadata {
            organization_id,
            plan,
            scanopy_pause_duration_days,
            scanopy_paused_at,
            scanopy_trial_extended_days,
            scanopy_cancel_reason,
            scanopy_cancel_save_offer_shown,
            scanopy_cancel_save_offer_redeemed,
        }
    }

    /// Whether a key this service owns is present (the organization and
    /// plan do not count).
    pub fn contains_scanopy_keys(&self) -> (b: bool)
        ensures
            b == (self.scanopy_pause_duration_days is Some || self.scanopy_paused_at is Some
                || self.scanopy_trial_extended_days is Some || self.scanopy_cancel_reason is Some
                || self.scanopy_cancel_save_offer_shown is Some
                || self.scanopy_cancel_save_offer_redeemed is Some),
    {
        self.scanopy_pause_duration_days.is_some() || self.scanopy_paused_at.is_some()
            || self.scanopy_trial_extended_days.is_some() || self.scanopy_cancel_reason.is_some()
            || self.scanopy_cancel_save_offer_shown.is_some()
            || self.scanopy_cancel_save_offer_redeemed.is_some()
    }
}

/// The offers a list of identifiers names; `None` when one names none.
fn offers_named(ids: &Vec<String>) -> (r: Option<Vec<SaveOffer>>)
    ensures
        (match r { Some(v) => Some(v@), None => None }) == offers_from_ids(texts(ids@)),
{
    let ghost all = texts(ids@);
    let mut out: Vec<SaveOffer> = Vec::new();
    let mut i: usize = 0;
    while i < ids.len()
        invariant
            i <= ids@.len(),
            all == texts(ids@),
            offers_from_ids(all.take(i as int)) == Some(out@),
        decreases ids.len() - i,
    {
        assert(all.take(i + 1).drop_last() =~= all.take(i as int));
        assert(all.take(i + 1).last() == ids@[i as int]@);
        match SaveOffer::from_id(ids[i].as_str()) {
            Some(o) => out.push(o),
            None => {
                proof { lemma_offers_from_ids_none(all, i as int); }
                return None;
            },
        }
        i = i + 1;
    }
    assert(all.take(ids@.len() as int) =~= all);
    Some(out)
}

proof fn lemma_offers_from_ids_none(ids: Seq<Seq<char>>, i: int)
    requires
        0 <= i < ids.len(),
        offer_from_text(ids[i]) is None,
    ensures
        offers_from_ids(ids) is None,
    decreases ids.len(),
{
    if i < ids.len() - 1 {
        lemma_offers_from_ids_none(ids.drop_last(), i);
    }
}

/// Why a deleted subscription could not be tied to an organization.
#[derive(Debug, Clone, Copy, PartialEq, Eq, Structural)]
pub enum DeletedSubscriptionError {
    /// The metadata has no `organization_id`.
    MissingOrganization,
    /// The `organization_id` is not a UUID.
    InvalidOrganizationId,
}

/// What a deleted subscription's metadata calls for: the organization to
/// move to the free plan, or `None` when the subscription was cancelled to
/// upgrade (its `cancel_reason` is `upgrade`). The organization is read
/// first, so a subscription without a valid one is an error either way.
pub fn deleted_subscription_target(m: &Vec<(String, String)>) -> (r: Result<Option<u128>, DeletedSubscriptionError>)
    ensures
        match entry_value(entries_view(m@), KEY_ORGANIZATION_ID@) {
            None => r == Err::<Option<u128>, DeletedSubscriptionError>(DeletedSubscriptionError::MissingOrganization),
            Some(t) => match uuid_from_text(t) {
                None => r == Err::<Option<u128>, DeletedSubscriptionError>(DeletedSubscriptionError::InvalidOrganizationId),
                Some(id) => r == Ok::<Option<u128>, DeletedSubscriptionError>(
                    if entry_value(entries_view(m@), "cancel_reason"@) == Some("upgrade"@) { None } else { Some(id) },
                ),
            },
        },
{
    let org = match get_entry(m, KEY_ORGANIZATION_ID) {
        Some(t) => t,
        None => { return Err(DeletedSubscriptionError::MissingOrganization); },
    };
    let id = match parse_uuid(org.as_str()) {
        Some(id) => id,
        None => { return Err(DeletedSubscriptionError::InvalidOrganizationId); },
    };
    let upgrade = match get_entry(m, "cancel_reason") {
        Some(reason) => str_equal(reason.as_str(), "upgrade"),
        None => false,
    };
    if upgrade {
        Ok(None)
    } else {
        Ok(Some(id))
    }
}

/// Why a trial-ending notice could not be tied to an organization and plan.
#[derive(Debug, Clone, Copy, PartialEq, Eq, Structural)]
pub enum TrialNoticeError {
    MissingOrganization,
    InvalidOrganizationId,
    MissingPlan,
}

/// What a trial-ending notice calls for: nothing when the subscription is
/// already set to cancel; else the organization to notify and the plan's
/// JSON text, both read from the subscription's metadata.
pub fn trial_will_end_target(cancel_at_period_end: bool, m: &Vec<(String, String)>) -> (r: Result<Option<(u128, String)>, TrialNoticeError>)
    ensures
        cancel_at_period_end ==> r == Ok::<Option<(u128, String)>, TrialNoticeError>(None),
        !cancel_at_period_end ==> match entry_value(entries_view(m@), KEY_ORGANIZATION_ID@) {
            None => r == Err::<Option<(u128, String)>, TrialNoticeError>(TrialNoticeError::MissingOrganization),
            Some(t) => match uuid_from_text(t) {
                None => r == Err::<Option<(u128, String)>, TrialNoticeError>(TrialNoticeError::InvalidOrganizationId),
                Some(id) => match entry_value(entries_view(m@), KEY_PLAN@) {
                    None => r == Err::<Option<(u128, String)>, TrialNoticeError>(TrialNoticeError::MissingPlan),
                    Some(p) => r matches Ok(Some(found)) && found.0 == id && found.1@ == p,
                },
            },
        },
{
    if cancel_at_period_end {
        return Ok(None);
    }
    let org = match get_entry(m, KEY_ORGANIZATION_ID) {
        Some(t) => t,
        None => { return Err(TrialNoticeError::MissingOrganization); },
    };
    let id = match parse_uuid(org.as_str()) {
        Some(id) => id,
        None => { return Err(TrialNoticeError::InvalidOrganizationId); },
    };
    match get_entry(m, KEY_PLAN) {
        Some(p) => Ok(Some((id, string_of(p.as_str())))),
        None => Err(TrialNoticeError::MissingPlan),
    }
}

} // verus!
