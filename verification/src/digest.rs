//! The discovery digest: how each tracked entity fared in a discovery
//! session, and whether a digest is worth sending.
use vstd::prelude::*;

use crate::daemons::monitoring::{is_loopback, loopback};
use crate::net::IpAddress;

verus! {

/// How a tracked entity fared in a session.
#[derive(Debug, Clone, Copy, PartialEq, Eq, Structural)]
pub enum EntityDigestStatus {
    /// Seen in the scan, and created within the session.
    New,
    /// Seen in the scan, existing before it.
    Unchanged,
    /// Not seen, but last discovered by a recent session.
    PossiblyMissing,
    /// Not seen, and not discovered recently.
    Missing,
}

/// The session the digest covers: its time span, the discovery session
/// that ran just before (`d1`), the one that has just dropped out of the
/// recent window (`d_dropped`), and the recent sessions.
pub struct DigestWindow {
    pub t_start: i64,
    pub t_end: i64,
    pub d1: Option<u128>,
    pub d_dropped: Option<u128>,
    pub recent: Vec<u128>,
}

/// What the digest knows of a tracked entity.
#[derive(Debug, Clone, Copy, PartialEq, Eq, Structural)]
pub struct TrackedEntity {
    pub id: u128,
    pub created_at: i64,
    pub last_discovery_id: Option<u128>,
}

pub open spec fn in_ids(ids: Seq<u128>, id: u128) -> bool {
    exists|i: int| 0 <= i < ids.len() && ids[i] == id
}

/// The status of an entity and whether it was reached in this session (a
/// transition just happened). A scanned entity is new when created within
/// the session and unchanged otherwise; an unscanned one is possibly
/// missing when its last discovery is recent, else missing. An unscanned
/// entity is fresh when its last discovery is exactly the session that just
/// ran before (possibly missing) or the one that just dropped out of the
/// window (missing).
pub open spec fn digest_status(e: TrackedEntity, scanned: Seq<u128>, w: DigestWindow) -> (EntityDigestStatus, bool) {
    if in_ids(scanned, e.id) {
        let is_new = w.t_start <= e.created_at && e.created_at <= w.t_end;
        (if is_new { EntityDigestStatus::New } else { EntityDigestStatus::Unchanged }, is_new)
    } else {
        let fresh_pm = e.last_discovery_id is Some && w.d1 is Some && e.last_discovery_id == w.d1;
        let fresh_m = e.last_discovery_id is Some && w.d_dropped is Some && e.last_discovery_id == w.d_dropped;
        match e.last_discovery_id {
            Some(lid) => if in_ids(w.recent@, lid) {
                (EntityDigestStatus::PossiblyMissing, fresh_pm)
            } else {
                (EntityDigestStatus::Missing, fresh_m)
            },
            None => (EntityDigestStatus::Missing, fresh_m),
        }
    }
}

fn contains_id(ids: &Vec<u128>, id: u128) -> (b: bool)
    ensures
        b == in_ids(ids@, id),
{
    let mut i: usize = 0;
    while i < ids.len()
        invariant
            i <= ids@.len(),
            forall|j: int| 0 <= j < i ==> ids@[j] != id,
        decreases ids.len() - i,
    {
        if ids[i] == id {
            return true;
        }
        i = i + 1;
    }
    false
}

/// The status of an entity in a session, and whether it is fresh (see
/// `digest_status`).
pub fn compute_digest_status(entity: &TrackedEntity, scanned_ids: &Vec<u128>, window: &DigestWindow) -> (r: (EntityDigestStatus, bool))
    ensures
        r == digest_status(*entity, scanned_ids@, *window),
{
    if contains_id(scanned_ids, entity.id) {
        let is_new = entity.created_at >= window.t_start && entity.created_at <= window.t_end;
        return (if is_new { EntityDigestStatus::New } else { EntityDigestStatus::Unchanged }, is_new);
    }
    let fresh_pm = match (entity.last_discovery_id, window.d1) {
        (Some(a), Some(b)) => a == b,
        _ => false,
    };
    let fresh_m = match (entity.last_discovery_id, window.d_dropped) {
        (Some(a), Some(b)) => a == b,
        _ => false,
    };
    match entity.last_discovery_id {
        Some(lid) => if contains_id(&window.recent, lid) {
            (EntityDigestStatus::PossiblyMissing, fresh_pm)
        } else {
            (EntityDigestStatus::Missing, fresh_m)
        },
        None => (EntityDigestStatus::Missing, fresh_m),
    }
}

/// An entity scanned in the session is never reported missing, and a fresh
/// status is only ever one reached in this session.
pub proof fn lemma_scanned_never_missing(e: TrackedEntity, scanned: Seq<u128>, w: DigestWindow)
    ensures
        in_ids(scanned, e.id) ==> (digest_status(e, scanned, w).0 == EntityDigestStatus::New
            || digest_status(e, scanned, w).0 == EntityDigestStatus::Unchanged),
        digest_status(e, scanned, w).0 == EntityDigestStatus::Unchanged ==> !digest_status(e, scanned, w).1,
        digest_status(e, scanned, w).0 == EntityDigestStatus::New ==> digest_status(e, scanned, w).1,
{
}

pub open spec fn any_true(flags: Seq<bool>) -> bool {
    exists|i: int| 0 <= i < flags.len() && flags[i]
}

fn any_fresh(flags: &Vec<bool>) -> (b: bool)
    ensures
        b == any_true(flags@),
{
    let mut i: usize = 0;
    while i < flags.len()
        invariant
            i <= flags@.len(),
            forall|j: int| 0 <= j < i ==> !flags@[j],
        decreases flags.len() - i,
    {
        if flags[i] {
            return true;
        }
        i = i + 1;
    }
    false
}

/// The freshness of a host card's children, by kind.
pub struct CardFreshness {
    pub services: Vec<bool>,
    pub ip_addresses: Vec<bool>,
    pub interfaces: Vec<bool>,
    pub ports: Vec<bool>,
}

/// Whether a host card shows a real transition: some child reached its
/// status in this session.
pub fn card_has_fresh_children(card: &CardFreshness) -> (b: bool)
    ensures
        b == (any_true(card.services@) || any_true(card.ip_addresses@) || any_true(card.interfaces@)
            || any_true(card.ports@)),
{
    any_fresh(&card.services) || any_fresh(&card.ip_addresses) || any_fresh(&card.interfaces)
        || any_fresh(&card.ports)
}

/// The sizes of a digest's sections.
pub struct DigestSections {
    pub subnets_scanned: usize,
    pub hosts_added: usize,
    pub hosts_stale: usize,
    pub hosts_changed: usize,
    pub vlans_added: usize,
    pub vlans_stale: usize,
}

impl DigestSections {
    /// Whether the digest has a change worth sending: scanned subnets alone
    /// are not a change.
    pub fn has_changes(&self) -> (b: bool)
        ensures
            b == (self.hosts_added > 0 || self.hosts_stale > 0 || self.hosts_changed > 0
                || self.vlans_added > 0 || self.vlans_stale > 0),
    {
        self.hosts_added != 0 || self.hosts_stale != 0 || self.hosts_changed != 0 || self.vlans_added != 0
            || self.vlans_stale != 0
    }
}

/// Flags of a digest event.
#[derive(Debug, Clone, Copy, PartialEq, Eq, Structural)]
pub struct DiscoveryDigestFlags {
    pub suppress_logs: bool,
}

impl Default for DiscoveryDigestFlags {
    fn default() -> (f: Self)
        ensures
            !f.suppress_logs,
    {
        DiscoveryDigestFlags { suppress_logs: false }
    }
}

// ---------------------------------------------------------------------------
// What a digest covers
// ---------------------------------------------------------------------------

/// The subnets a digest reports as scanned: the ones the discovery targeted,
/// when it named any, else those the daemon reported.
pub open spec fn subnet_choice(targeted: Option<Seq<u128>>, reported: Seq<u128>) -> Seq<u128> {
    match targeted {
        Some(t) => if t.len() > 0 { t } else { reported },
        None => reported,
    }
}

/// Chooses the subnets a digest reports as scanned.
pub fn subnets_to_report(targeted: Option<&Vec<u128>>, reported: &Vec<u128>) -> (r: Vec<u128>)
    ensures
        r@ == subnet_choice(match targeted { Some(t) => Some(t@), None => None }, reported@),
{
    match targeted {
        Some(t) => if t.len() > 0 { t.clone() } else { reported.clone() },
        None => reported.clone(),
    }
}

/// The subnets, by id, whose first address is not a loopback address, in
/// order.
pub open spec fn non_loopback_ids(subnets: Seq<(u128, IpAddress)>) -> Seq<u128>
    decreases subnets.len(),
{
    if subnets.len() == 0 {
        Seq::empty()
    } else {
        non_loopback_ids(subnets.drop_last()) + (if loopback(subnets.last().1) {
            Seq::empty()
        } else {
            seq![subnets.last().0]
        })
    }
}

/// Drops the loopback subnets (first address in `127.0.0.0/8`, or `::1`):
/// they mean nothing to a user. Takes each subnet's id and first address.
pub fn drop_loopback_subnets(subnets: &Vec<(u128, IpAddress)>) -> (r: Vec<u128>)
    ensures
        r@ == non_loopback_ids(subnets@),
{
    let mut r: Vec<u128> = Vec::new();
    let mut i: usize = 0;
    while i < subnets.len()
        invariant
            i <= subnets@.len(),
            r@ == non_loopback_ids(subnets@.take(i as int)),
        decreases subnets.len() - i,
    {
        proof {
            assert(subnets@.take(i + 1).drop_last() =~= subnets@.take(i as int));
            assert(subnets@.take(i + 1).last() == subnets@[i as int]);
        }
        let (id, addr) = subnets[i];
        if !is_loopback(&addr) {
            r.push(id);
        } else {
            assert(r@ + Seq::<u128>::empty() =~= r@);
        }
        i = i + 1;
    }
    assert(subnets@.take(subnets@.len() as int) =~= subnets@);
    r
}

/// How many recent sessions a missing entity is given the benefit of the
/// doubt for.
pub const REMOVAL_GRACE_SCANS: usize = 3;

/// The digest window of a session from the recent historical sessions of
/// the network, newest first (up to one more than the grace): the first
/// three are the recent ones, the second is the session that ran just
/// before, the fourth the one that just dropped out of the grace window.
pub fn digest_window(t_start: i64, t_end: i64, recent: &Vec<u128>) -> (w: DigestWindow)
    ensures
        w.t_start == t_start,
        w.t_end == t_end,
        w.recent@ == recent@.take(if recent@.len() < 3 { recent@.len() as int } else { 3 }),
        w.d1 == (if recent@.len() > 1 { Some(recent@[1]) } else { None::<u128> }),
        w.d_dropped == (if recent@.len() > 3 { Some(recent@[3]) } else { None::<u128> }),
{
    let n = if recent.len() < REMOVAL_GRACE_SCANS { recent.len() } else { REMOVAL_GRACE_SCANS };
    let mut kept: Vec<u128> = Vec::new();
    let mut i: usize = 0;
    while i < n
        invariant
            i <= n <= recent@.len(),
            n <= 3,
            kept@ == recent@.take(i as int),
        decreases n - i,
    {
        kept.push(recent[i]);
        assert(recent@.take(i + 1) =~= recent@.take(i as int).push(recent@[i as int]));
        i = i + 1;
    }
    let d1 = if recent.len() > 1 { Some(recent[1]) } else { None };
    let d_dropped = if recent.len() > REMOVAL_GRACE_SCANS { Some(recent[REMOVAL_GRACE_SCANS]) } else { None };
    DigestWindow { t_start, t_end, d1, d_dropped, recent: kept }
}

/// Whether a host's children go into the digest: every host seen in the
/// session, and every missing one whose status is fresh.
pub open spec fn is_affected(status: EntityDigestStatus, is_fresh: bool) -> bool {
    match status {
        EntityDigestStatus::New | EntityDigestStatus::Unchanged => true,
        EntityDigestStatus::PossiblyMissing | EntityDigestStatus::Missing => is_fresh,
    }
}

/// The affected hosts, by id, in order.
pub open spec fn affected_ids(b: Seq<(u128, EntityDigestStatus, bool)>) -> Seq<u128>
    decreases b.len(),
{
    if b.len() == 0 {
        Seq::empty()
    } else {
        affected_ids(b.drop_last()) + (if is_affected(b.last().1, b.last().2) {
            seq![b.last().0]
        } else {
            Seq::empty()
        })
    }
}

/// The hosts whose children the digest fetches: from each host's id,
/// status and freshness, those seen in the session and the freshly missing
/// ones, in order.
pub fn affected_host_ids(b: &Vec<(u128, EntityDigestStatus, bool)>) -> (r: Vec<u128>)
    ensures
        r@ == affected_ids(b@),
{
    let mut r: Vec<u128> = Vec::new();
    let mut i: usize = 0;
    while i < b.len()
        invariant
            i <= b@.len(),
            r@ == affected_ids(b@.take(i as int)),
        decreases b.len() - i,
    {
        proof {
            assert(b@.take(i + 1).drop_last() =~= b@.take(i as int));
            assert(b@.take(i + 1).last() == b@[i as int]);
        }
        let (id, status, fresh) = b[i];
        let keep = match status {
            EntityDigestStatus::New | EntityDigestStatus::Unchanged => true,
            EntityDigestStatus::PossiblyMissing | EntityDigestStatus::Missing => fresh,
        };
        if keep {
            r.push(id);
        } else {
            assert(r@ + Seq::<u128>::empty() =~= r@);
        }
        i = i + 1;
    }
    assert(b@.take(b@.len() as int) =~= b@);
    r
}

// ---------------------------------------------------------------------------
// Routing host cards
// ---------------------------------------------------------------------------

/// Text order: lexicographic by character, a proper prefix first (the order
/// of `String`, since UTF-8 keeps code-point order).
pub open spec fn text_lt(a: Seq<char>, b: Seq<char>) -> bool
    decreases a.len(),
{
    if a.len() == 0 {
        b.len() > 0
    } else if b.len() == 0 {
        false
    } else if a[0] != b[0] {
        (a[0] as int) < (b[0] as int)
    } else {
        text_lt(a.drop_first(), b.drop_first())
    }
}

proof fn lemma_text_lt_irreflexive(a: Seq<char>)
    ensures
        !text_lt(a, a),
    decreases a.len(),
{
    if a.len() > 0 {
        lemma_text_lt_irreflexive(a.drop_first());
    }
}

proof fn lemma_text_lt_transitive(a: Seq<char>, b: Seq<char>, c: Seq<char>)
    requires
        text_lt(a, b),
        text_lt(b, c),
    ensures
        text_lt(a, c),
    decreases a.len(),
{
    if a.len() > 0 && b.len() > 0 && c.len() > 0 && a[0] == b[0] && b[0] == c[0] {
        lemma_text_lt_transitive(a.drop_first(), b.drop_first(), c.drop_first());
    }
}

proof fn lemma_text_lt_total(a: Seq<char>, b: Seq<char>)
    ensures
        text_lt(a, b) || a == b || text_lt(b, a),
    decreases a.len(),
{
    if a.len() > 0 && b.len() > 0 && a[0] == b[0] {
        lemma_text_lt_total(a.drop_first(), b.drop_first());
        if a.drop_first() == b.drop_first() {
            assert(a =~= seq![a[0]] + a.drop_first());
            assert(b =~= seq![b[0]] + b.drop_first());
        }
    } else if a.len() == 0 && b.len() == 0 {
        assert(a =~= b);
    } else if a.len() > 0 && b.len() > 0 {
        assert((a[0] as int) != (b[0] as int));
    }
}

/// What routing needs of a host's card: its label, its status, whether the
/// status is fresh, and whether some child of it is.
pub struct HostCardEntry {
    pub label: String,
    pub status: EntityDigestStatus,
    pub is_fresh: bool,
    pub has_fresh_children: bool,
}

/// The digest's host sections, as positions in the routed entries.
pub struct CardRoutes {
    pub added: Vec<usize>,
    pub vanished: Vec<usize>,
    pub changed: Vec<usize>,
}

/// Entry `i` comes before entry `j` among the changed cards: by label,
/// ties keeping their order.
pub open spec fn card_before(e: Seq<HostCardEntry>, i: int, j: int) -> bool {
    text_lt(e[i].label@, e[j].label@) || (e[i].label@ == e[j].label@ && i < j)
}

/// A new host's card.
pub open spec fn is_added(x: HostCardEntry) -> bool {
    x.status == EntityDigestStatus::New
}

/// A freshly missing host's card.
pub open spec fn is_vanished(x: HostCardEntry) -> bool {
    (x.status == EntityDigestStatus::PossiblyMissing || x.status == EntityDigestStatus::Missing) && x.is_fresh
}

/// A host seen unchanged whose card shows a fresh child.
pub open spec fn is_changed(x: HostCardEntry) -> bool {
    x.status == EntityDigestStatus::Unchanged && x.has_fresh_children
}

/// The positions, in order, of the entries `keep` accepts.
pub open spec fn positions(e: Seq<HostCardEntry>, keep: spec_fn(HostCardEntry) -> bool) -> Seq<usize>
    decreases e.len(),
{
    if e.len() == 0 {
        Seq::empty()
    } else {
        positions(e.drop_last(), keep) + (if keep(e.last()) { seq![(e.len() - 1) as usize] } else { Seq::empty() })
    }
}

proof fn lemma_positions_step(e: Seq<HostCardEntry>, keep: spec_fn(HostCardEntry) -> bool, i: int)
    requires
        0 <= i < e.len(),
    ensures
        positions(e.take(i + 1), keep) == positions(e.take(i), keep) + (if keep(e[i]) { seq![i as usize] } else { Seq::empty() }),
{
    assert(e.take(i + 1).drop_last() =~= e.take(i));
    assert(e.take(i + 1).last() == e[i]);
}

fn insert_changed(v: &mut Vec<usize>, e: &Vec<HostCardEntry>, j: usize)
    requires
        j < e@.len(),
        forall|k: int| 0 <= k < old(v)@.len() ==> (#[trigger] old(v)@[k]) < j,
        forall|k: int, l: int| 0 <= k < l < old(v)@.len() ==> card_before(e@, old(v)@[k] as int, old(v)@[l] as int),
    ensures
        final(v)@.len() == old(v)@.len() + 1,
        forall|k: int| 0 <= k < final(v)@.len() ==> (#[trigger] final(v)@[k]) <= j,
        forall|k: int, l: int| 0 <= k < l < final(v)@.len() ==> card_before(e@, final(v)@[k] as int, final(v)@[l] as int),
        forall|x: usize| #[trigger] final(v)@.contains(x) <==> (old(v)@.contains(x) || x == j),
{
    let ghost w = v@;
    let mut p: usize = 0;
    while p < v.len() && !text_before(e[j].label.as_str(), e[v[p]].label.as_str())
        invariant
            p <= v@.len(),
            v@ == w,
            j < e@.len(),
            forall|k: int| 0 <= k < w.len() ==> (#[trigger] w[k]) < j && (w[k] as int) < e@.len(),
            forall|k: int| 0 <= k < p ==> !text_lt(e@[j as int].label@, e@[#[trigger] w[k] as int].label@),
        decreases v.len() - p,
    {
        p = p + 1;
    }
    v.insert(p, j);
    let ghost r = v@;
    assert(r =~= w.take(p as int).push(j).add(w.skip(p as int)));
    assert forall|k: int| 0 <= k < r.len() implies (#[trigger] r[k]) <= j by {
        if k < p { assert(r[k] == w[k]); } else if k > p { assert(r[k] == w[k - 1]); }
    }
    assert forall|k: int, l: int| 0 <= k < l < r.len() implies card_before(e@, r[k] as int, r[l] as int) by {
        let lj = e@[j as int].label@;
        if l < p {
            assert(r[k] == w[k] && r[l] == w[l]);
        } else if k > p {
            assert(r[k] == w[k - 1] && r[l] == w[l - 1]);
        } else if l == p {
            assert(r[k] == w[k]);
            let lk = e@[w[k] as int].label@;
            assert(!text_lt(lj, lk));
            lemma_text_lt_total(lk, lj);
        } else if k == p {
            assert(r[l] == w[l - 1]);
            assert(p < w.len());
            let lp = e@[w[p as int] as int].label@;
            assert(text_lt(lj, lp));
            let ll = e@[w[l - 1] as int].label@;
            if l - 1 > p {
                assert(card_before(e@, w[p as int] as int, w[l - 1] as int));
                if text_lt(lp, ll) {
                    lemma_text_lt_transitive(lj, lp, ll);
                }
            }
        } else {
            assert(r[k] == w[k] && r[l] == w[l - 1]);
        }
    }
    assert forall|x: usize| #[trigger] r.contains(x) <==> (w.contains(x) || x == j) by {
        if r.contains(x) {
            let k = choose|k: int| 0 <= k < r.len() && r[k] == x;
            if k < p { assert(w[k] == x); } else if k > p { assert(w[k - 1] == x); }
        }
        if w.contains(x) {
            let k = choose|k: int| 0 <= k < w.len() && w[k] == x;
            if k < p { assert(r[k] == x); } else { assert(r[k + 1] == x); }
        }
        if x == j {
            assert(r[p as int] == j);
        }
    }
}

/// Whether `a` comes before `b` in text order.
fn text_before(a: &str, b: &str) -> (r: bool)
    ensures
        r == text_lt(a@, b@),
{
    let x = crate::text::chars_of(a);
    let y = crate::text::chars_of(b);
    let mut i: usize = 0;
    assert(x@.skip(0) =~= x@);
    assert(y@.skip(0) =~= y@);
    while i < x.len() && i < y.len() && x[i] == y[i]
        invariant
            i <= x@.len(),
            i <= y@.len(),
            x@ == a@,
            y@ == b@,
            text_lt(a@, b@) == text_lt(x@.skip(i as int), y@.skip(i as int)),
        decreases x.len() - i,
    {
        proof {
            let xs = x@.skip(i as int);
            let ys = y@.skip(i as int);
            assert(xs.drop_first() =~= x@.skip(i + 1));
            assert(ys.drop_first() =~= y@.skip(i + 1));
        }
        i = i + 1;
    }
    proof {
        let xs = x@.skip(i as int);
        let ys = y@.skip(i as int);
        assert(xs.len() == x@.len() - i && ys.len() == y@.len() - i);
        if i < x@.len() && i < y@.len() {
            assert(xs[0] == x@[i as int] && ys[0] == y@[i as int]);
        }
    }
    if i == x.len() {
        i < y.len()
    } else if i == y.len() {
        false
    } else {
        x[i] < y[i]
    }
}

proof fn lemma_positions_members(e: Seq<HostCardEntry>, keep: spec_fn(HostCardEntry) -> bool)
    requires
        e.len() <= usize::MAX,
    ensures
        forall|p: usize| #[trigger] positions(e, keep).contains(p) <==> ((p as int) < e.len() && keep(e[p as int])),
    decreases e.len(),
{
    if e.len() > 0 {
        let d = e.drop_last();
        lemma_positions_members(d, keep);
        let tail = if keep(e.last()) { seq![(e.len() - 1) as usize] } else { Seq::<usize>::empty() };
        let ps = positions(e, keep);
        assert(ps == positions(d, keep) + tail);
        assert forall|p: usize| #[trigger] ps.contains(p) <==> ((p as int) < e.len() && keep(e[p as int])) by {
            if ps.contains(p) {
                let k = choose|k: int| 0 <= k < ps.len() && ps[k] == p;
                if k < positions(d, keep).len() {
                    assert(positions(d, keep)[k] == p);
                    assert(positions(d, keep).contains(p));
                    assert(d[p as int] == e[p as int]);
                } else {
                    assert(tail[k - positions(d, keep).len()] == p);
                }
            }
            if (p as int) < e.len() && keep(e[p as int]) {
                if (p as int) < d.len() {
                    assert(d[p as int] == e[p as int]);
                    assert(positions(d, keep).contains(p));
                    let k = choose|k: int| 0 <= k < positions(d, keep).len() && positions(d, keep)[k] == p;
                    assert(ps[k] == p);
                } else {
                    assert(p as int == e.len() - 1);
                    assert(ps[positions(d, keep).len() as int] == p);
                }
            }
        }
    }
}

/// Which section each host card lands in: a new host in the added
/// section; a host not seen in the session, whether possibly missing or
/// missing, in the vanished section exactly when that status was just
/// reached; a host seen unchanged among the changed ones exactly when a
/// child of it changed freshly. Cards in no such case are left out.
pub proof fn lemma_card_sections(e: Seq<HostCardEntry>)
    requires
        e.len() <= usize::MAX,
    ensures
        ({
            let added = positions(e, |x: HostCardEntry| is_added(x));
            forall|p: usize| #[trigger] added.contains(p) <==> ((p as int) < e.len() && e[p as int].status == EntityDigestStatus::New)
        }),
        ({
            let vanished = positions(e, |x: HostCardEntry| is_vanished(x));
            forall|p: usize| #[trigger] vanished.contains(p) <==> ((p as int) < e.len() && e[p as int].is_fresh && (e[p as int].status
                == EntityDigestStatus::PossiblyMissing || e[p as int].status == EntityDigestStatus::Missing))
        }),
        forall|x: HostCardEntry| #[trigger] is_changed(x) <==> (x.status == EntityDigestStatus::Unchanged && x.has_fresh_children),
{
    lemma_positions_members(e, |x: HostCardEntry| is_added(x));
    lemma_positions_members(e, |x: HostCardEntry| is_vanished(x));
}

/// Routes host cards into the digest's sections: new hosts to `added` and
/// freshly missing ones to `vanished`, both in order; hosts seen unchanged
/// with a fresh child to `changed`, sorted by label (ties in order).
pub fn route_cards(e: &Vec<HostCardEntry>) -> (r: CardRoutes)
    ensures
        r.added@ == positions(e@, |x: HostCardEntry| is_added(x)),
        r.vanished@ == positions(e@, |x: HostCardEntry| is_vanished(x)),
        forall|i: usize| #[trigger] r.changed@.contains(i) <==> ((i as int) < e@.len() && is_changed(e@[i as int])),
        forall|k: int, l: int| 0 <= k < l < r.changed@.len() ==> card_before(e@, r.changed@[k] as int, r.changed@[l] as int),
        r.changed@.no_duplicates(),
{
    let mut added: Vec<usize> = Vec::new();
    let mut vanished: Vec<usize> = Vec::new();
    let mut changed: Vec<usize> = Vec::new();
    let mut i: usize = 0;
    while i < e.len()
        invariant
            i <= e@.len(),
            added@ == positions(e@.take(i as int), |x: HostCardEntry| is_added(x)),
            vanished@ == positions(e@.take(i as int), |x: HostCardEntry| is_vanished(x)),
            forall|k: int| 0 <= k < changed@.len() ==> (#[trigger] changed@[k]) < i,
            forall|k: int, l: int| 0 <= k < l < changed@.len() ==> card_before(e@, changed@[k] as int, changed@[l] as int),
            forall|x: usize| #[trigger] changed@.contains(x) <==> ((x as int) < i && is_changed(e@[x as int])),
        decreases e.len() - i,
    {
        proof {
            lemma_positions_step(e@, |x: HostCardEntry| is_added(x), i as int);
            lemma_positions_step(e@, |x: HostCardEntry| is_vanished(x), i as int);
        }
        let x = &e[i];
        if x.status == EntityDigestStatus::New {
            added.push(i);
        } else {
            assert(added@ + Seq::<usize>::empty() =~= added@);
        }
        if (x.status == EntityDigestStatus::PossiblyMissing || x.status == EntityDigestStatus::Missing) && x.is_fresh {
            vanished.push(i);
        } else {
            assert(vanished@ + Seq::<usize>::empty() =~= vanished@);
        }
        if x.status == EntityDigestStatus::Unchanged && x.has_fresh_children {
            insert_changed(&mut changed, e, i);
        }
        i = i + 1;
    }
    assert(e@.take(e@.len() as int) =~= e@);
    proof {
        assert forall|k: int, l: int| 0 <= k < changed@.len() && 0 <= l < changed@.len() && k != l
            implies changed@[k] != changed@[l] by {
            if k < l {
                assert(card_before(e@, changed@[k] as int, changed@[l] as int));
                if changed@[k] == changed@[l] {
                    lemma_text_lt_irreflexive(e@[changed@[k] as int].label@);
                }
            } else {
                assert(card_before(e@, changed@[l] as int, changed@[k] as int));
                if changed@[k] == changed@[l] {
                    lemma_text_lt_irreflexive(e@[changed@[k] as int].label@);
                }
            }
        }
    }
    CardRoutes { added, vanished, changed }
}


/// A child of a host (a service, an IP address, an interface or a port) as
/// the digest reads it: the host it belongs to and its tracking data.
#[derive(Debug, Clone, Copy, PartialEq, Eq, Structural)]
pub struct HostedChild {
    pub host_id: u128,
    pub entity: TrackedEntity,
}

/// A service, with whether it is the synthetic service that gathers the
/// unclaimed open ports.
#[derive(Debug, Clone, Copy, PartialEq, Eq, Structural)]
pub struct HostedService {
    pub child: HostedChild,
    pub is_open_ports: bool,
}

/// An IP address record, with the address it holds.
#[derive(Debug, Clone, Copy, PartialEq, Eq, Structural)]
pub struct HostedIp {
    pub child: HostedChild,
    pub address: IpAddress,
}

/// The ids of the entities that the session's scans saw, by kind.
pub struct ScannedEntityIds {
    pub service_ids: Vec<u128>,
    pub ip_address_ids: Vec<u128>,
    pub interface_ids: Vec<u128>,
    pub port_ids: Vec<u128>,
}

/// A child on a host card: its id, status and whether the status is fresh.
#[derive(Debug, Clone, Copy, PartialEq, Eq, Structural)]
pub struct ChildStatus {
    pub id: u128,
    pub status: EntityDigestStatus,
    pub is_fresh: bool,
}

/// The children of one host, each kind in the order the records came.
pub struct HostChildren {
    pub host_id: u128,
    pub services: Vec<ChildStatus>,
    pub ip_addresses: Vec<ChildStatus>,
    pub interfaces: Vec<ChildStatus>,
    pub ports: Vec<ChildStatus>,
}

/// The services a digest reports: all but the open-ports service, which
/// is noise there.
pub open spec fn reported_services(s: Seq<HostedService>) -> Seq<HostedChild>
    decreases s.len(),
{
    if s.len() == 0 {
        Seq::empty()
    } else {
        reported_services(s.drop_last()) + (if s.last().is_open_ports {
            Seq::empty()
        } else {
            seq![s.last().child]
        })
    }
}

/// The IP addresses a digest reports: all but loopback ones, which the
/// scans never see again and would show as missing.
pub open spec fn reported_ips(s: Seq<HostedIp>) -> Seq<HostedChild>
    decreases s.len(),
{
    if s.len() == 0 {
        Seq::empty()
    } else {
        reported_ips(s.drop_last()) + (if loopback(s.last().address) {
            Seq::empty()
        } else {
            seq![s.last().child]
        })
    }
}

pub open spec fn child_status(e: TrackedEntity, scanned: Seq<u128>, w: DigestWindow) -> ChildStatus {
    ChildStatus { id: e.id, status: digest_status(e, scanned, w).0, is_fresh: digest_status(e, scanned, w).1 }
}

/// The statuses of the children of `host`, in order.
pub open spec fn statuses_on(c: Seq<HostedChild>, host: u128, scanned: Seq<u128>, w: DigestWindow) -> Seq<ChildStatus>
    decreases c.len(),
{
    if c.len() == 0 {
        Seq::empty()
    } else {
        statuses_on(c.drop_last(), host, scanned, w) + (if c.last().host_id == host {
            seq![child_status(c.last().entity, scanned, w)]
        } else {
            Seq::empty()
        })
    }
}

pub open spec fn child_hosts(c: Seq<HostedChild>) -> Seq<u128> {
    c.map_values(|x: HostedChild| x.host_id)
}

/// The hosts that get an entry: those asked for and those a reported child
/// belongs to.
pub open spec fn digest_hosts(
    host_ids: Seq<u128>,
    services: Seq<HostedService>,
    ips: Seq<HostedIp>,
    interfaces: Seq<HostedChild>,
    ports: Seq<HostedChild>,
) -> Seq<u128> {
    host_ids + child_hosts(reported_services(services)) + child_hosts(reported_ips(ips)) + child_hosts(interfaces)
        + child_hosts(ports)
}

/// The services a digest reports are exactly those that are not the
/// open-ports service.
pub proof fn lemma_reported_services(s: Seq<HostedService>)
    ensures
        forall|c: HostedChild| #[trigger] reported_services(s).contains(c)
            <==> exists|i: int| 0 <= i < s.len() && s[i].child == c && !s[i].is_open_ports,
    decreases s.len(),
{
    if s.len() > 0 {
        let d = s.drop_last();
        lemma_reported_services(d);
        let r = reported_services(s);
        let rd = reported_services(d);
        let tail = if s.last().is_open_ports { Seq::<HostedChild>::empty() } else { seq![s.last().child] };
        assert(r == rd + tail);
        assert forall|c: HostedChild| #[trigger] r.contains(c)
            <==> exists|i: int| 0 <= i < s.len() && s[i].child == c && !s[i].is_open_ports by {
            if r.contains(c) {
                let k = choose|k: int| 0 <= k < r.len() && r[k] == c;
                if k < rd.len() {
                    assert(rd[k] == c);
                    assert(rd.contains(c));
                    let i = choose|i: int| 0 <= i < d.len() && d[i].child == c && !d[i].is_open_ports;
                    assert(s[i] == d[i]);
                } else {
                    assert(tail[k - rd.len()] == c);
                    assert(s[s.len() - 1].child == c);
                }
            }
            if exists|i: int| 0 <= i < s.len() && s[i].child == c && !s[i].is_open_ports {
                let i = choose|i: int| 0 <= i < s.len() && s[i].child == c && !s[i].is_open_ports;
                if i < d.len() {
                    assert(d[i] == s[i]);
                    assert(rd.contains(c));
                    let k = choose|k: int| 0 <= k < rd.len() && rd[k] == c;
                    assert(r[k] == c);
                } else {
                    assert(r[rd.len() as int] == c);
                }
            }
        }
    }
}

/// The IP addresses a digest reports are exactly those that are not
/// loopback: neither in `127.0.0.0/8` nor `::1`.
pub proof fn lemma_reported_ips(s: Seq<HostedIp>)
    ensures
        forall|c: HostedChild| #[trigger] reported_ips(s).contains(c)
            <==> exists|i: int| 0 <= i < s.len() && s[i].child == c && match s[i].address {
                IpAddress::V4(o0, _, _, _) => o0 != 127,
                IpAddress::V6(bits) => bits != 1,
            },
    decreases s.len(),
{
    if s.len() > 0 {
        let d = s.drop_last();
        lemma_reported_ips(d);
        let r = reported_ips(s);
        let rd = reported_ips(d);
        let tail = if loopback(s.last().address) { Seq::<HostedChild>::empty() } else { seq![s.last().child] };
        assert(r == rd + tail);
        assert forall|c: HostedChild| #[trigger] r.contains(c)
            <==> exists|i: int| 0 <= i < s.len() && s[i].child == c && !loopback(s[i].address) by {
            if r.contains(c) {
                let k = choose|k: int| 0 <= k < r.len() && r[k] == c;
                if k < rd.len() {
                    assert(rd[k] == c);
                    assert(rd.contains(c));
                    let i = choose|i: int| 0 <= i < d.len() && d[i].child == c && !loopback(d[i].address);
                    assert(s[i] == d[i]);
                } else {
                    assert(tail[k - rd.len()] == c);
                    assert(s[s.len() - 1].child == c);
                }
            }
            if exists|i: int| 0 <= i < s.len() && s[i].child == c && !loopback(s[i].address) {
                let i = choose|i: int| 0 <= i < s.len() && s[i].child == c && !loopback(s[i].address);
                if i < d.len() {
                    assert(d[i] == s[i]);
                    assert(rd.contains(c));
                    let k = choose|k: int| 0 <= k < rd.len() && rd[k] == c;
                    assert(r[k] == c);
                } else {
                    assert(r[rd.len() as int] == c);
                }
            }
        }
    }
}

/// A host's list holds a status for each of its children and for nothing
/// else: the child's id, its digest status and whether that is fresh.
pub proof fn lemma_statuses_on(c: Seq<HostedChild>, host: u128, scanned: Seq<u128>, w: DigestWindow)
    ensures
        forall|i: int| 0 <= i < c.len() && c[i].host_id == host ==> #[trigger] statuses_on(c, host, scanned, w).contains(
            child_status(c[i].entity, scanned, w)),
        forall|k: int| 0 <= k < statuses_on(c, host, scanned, w).len() ==> exists|i: int| 0 <= i < c.len()
            && c[i].host_id == host && #[trigger] statuses_on(c, host, scanned, w)[k] == child_status(c[i].entity, scanned, w),
        forall|e: TrackedEntity| #![trigger child_status(e, scanned, w)] child_status(e, scanned, w).id == e.id
            && child_status(e, scanned, w).status == digest_status(e, scanned, w).0
            && child_status(e, scanned, w).is_fresh == digest_status(e, scanned, w).1,
    decreases c.len(),
{
    if c.len() > 0 {
        let d = c.drop_last();
        lemma_statuses_on(d, host, scanned, w);
        let r = statuses_on(c, host, scanned, w);
        let rd = statuses_on(d, host, scanned, w);
        let tail = if c.last().host_id == host { seq![child_status(c.last().entity, scanned, w)] } else { Seq::<ChildStatus>::empty() };
        assert(r == rd + tail);
        assert forall|i: int| 0 <= i < c.len() && c[i].host_id == host implies #[trigger] r.contains(
            child_status(c[i].entity, scanned, w)) by {
            if i < d.len() {
                assert(d[i] == c[i]);
                assert(rd.contains(child_status(d[i].entity, scanned, w)));
                let k = choose|k: int| 0 <= k < rd.len() && rd[k] == child_status(d[i].entity, scanned, w);
                assert(r[k] == rd[k]);
            } else {
                assert(r[rd.len() as int] == child_status(c[i].entity, scanned, w));
            }
        }
        assert forall|k: int| 0 <= k < r.len() implies exists|i: int| 0 <= i < c.len()
            && c[i].host_id == host && #[trigger] r[k] == child_status(c[i].entity, scanned, w) by {
            if k < rd.len() {
                assert(r[k] == rd[k]);
                let i = choose|i: int| 0 <= i < d.len() && d[i].host_id == host && rd[k] == child_status(d[i].entity, scanned, w);
                assert(c[i] == d[i]);
            } else {
                assert(r[k] == child_status(c[c.len() - 1].entity, scanned, w));
            }
        }
    }
}

/// How an entity fares in a session. Seen in the scan: new when created
/// within the session, else unchanged, fresh exactly when new. Not seen:
/// possibly missing when last discovered by a recent session, fresh exactly
/// when that is the session just before; otherwise missing, fresh exactly
/// when last discovered by the session that has just left the window.
pub proof fn lemma_digest_status_cases(e: TrackedEntity, scanned: Seq<u128>, w: DigestWindow)
    ensures
        (exists|i: int| 0 <= i < scanned.len() && scanned[i] == e.id) ==> digest_status(e, scanned, w) == (
            if w.t_start <= e.created_at <= w.t_end { (EntityDigestStatus::New, true) } else { (EntityDigestStatus::Unchanged, false) }),
        (!(exists|i: int| 0 <= i < scanned.len() && scanned[i] == e.id) && e.last_discovery_id is Some
            && (exists|i: int| 0 <= i < w.recent@.len() && w.recent@[i] == e.last_discovery_id->Some_0))
            ==> digest_status(e, scanned, w) == (EntityDigestStatus::PossiblyMissing, w.d1 == e.last_discovery_id),
        (!(exists|i: int| 0 <= i < scanned.len() && scanned[i] == e.id) && !(e.last_discovery_id is Some
            && (exists|i: int| 0 <= i < w.recent@.len() && w.recent@[i] == e.last_discovery_id->Some_0)))
            ==> digest_status(e, scanned, w) == (EntityDigestStatus::Missing, e.last_discovery_id is Some
                && w.d_dropped == e.last_discovery_id),
{
}

fn keep_reported_services(s: &Vec<HostedService>) -> (r: Vec<HostedChild>)
    ensures
        r@ == reported_services(s@),
{
    let mut r: Vec<HostedChild> = Vec::new();
    let mut i: usize = 0;
    while i < s.len()
        invariant
            i <= s@.len(),
            r@ == reported_services(s@.take(i as int)),
        decreases s.len() - i,
    {
        proof {
            assert(s@.take(i + 1).drop_last() =~= s@.take(i as int));
            assert(s@.take(i + 1).last() == s@[i as int]);
        }
        if !s[i].is_open_ports {
            r.push(s[i].child);
        } else {
            assert(r@ + Seq::<HostedChild>::empty() =~= r@);
        }
        i = i + 1;
    }
    assert(s@.take(s@.len() as int) =~= s@);
    r
}

fn keep_reported_ips(s: &Vec<HostedIp>) -> (r: Vec<HostedChild>)
    ensures
        r@ == reported_ips(s@),
{
    let mut r: Vec<HostedChild> = Vec::new();
    let mut i: usize = 0;
    while i < s.len()
        invariant
            i <= s@.len(),
            r@ == reported_ips(s@.take(i as int)),
        decreases s.len() - i,
    {
        proof {
            assert(s@.take(i + 1).drop_last() =~= s@.take(i as int));
            assert(s@.take(i + 1).last() == s@[i as int]);
        }
        if !is_loopback(&s[i].address) {
            r.push(s[i].child);
        } else {
            assert(r@ + Seq::<HostedChild>::empty() =~= r@);
        }
        i = i + 1;
    }
    assert(s@.take(s@.len() as int) =~= s@);
    r
}

fn statuses_for(c: &Vec<HostedChild>, host: u128, scanned: &Vec<u128>, w: &DigestWindow) -> (r: Vec<ChildStatus>)
    ensures
        r@ == statuses_on(c@, host, scanned@, *w),
{
    let mut r: Vec<ChildStatus> = Vec::new();
    let mut i: usize = 0;
    while i < c.len()
        invariant
            i <= c@.len(),
            r@ == statuses_on(c@.take(i as int), host, scanned@, *w),
        decreases c.len() - i,
    {
        proof {
            assert(c@.take(i + 1).drop_last() =~= c@.take(i as int));
            assert(c@.take(i + 1).last() == c@[i as int]);
        }
        if c[i].host_id == host {
            let (status, is_fresh) = compute_digest_status(&c[i].entity, scanned, w);
            r.push(ChildStatus { id: c[i].entity.id, status, is_fresh });
        } else {
            assert(r@ + Seq::<ChildStatus>::empty() =~= r@);
        }
        i = i + 1;
    }
    assert(c@.take(c@.len() as int) =~= c@);
    r
}

fn append_hosts(out: &mut Vec<u128>, c: &Vec<HostedChild>)
    ensures
        final(out)@ == old(out)@ + child_hosts(c@),
{
    let ghost start = out@;
    let mut i: usize = 0;
    while i < c.len()
        invariant
            i <= c@.len(),
            out@ == start + child_hosts(c@.take(i as int)),
        decreases c.len() - i,
    {
        out.push(c[i].host_id);
        proof {
            assert(child_hosts(c@.take(i + 1)) =~= child_hosts(c@.take(i as int)).push(c@[i as int].host_id));
        }
        i = i + 1;
    }
    assert(c@.take(c@.len() as int) =~= c@);
}

fn distinct_ids(ids: &Vec<u128>) -> (r: Vec<u128>)
    ensures
        r@.no_duplicates(),
        forall|h: u128| r@.contains(h) <==> ids@.contains(h),
{
    let mut r: Vec<u128> = Vec::new();
    let mut i: usize = 0;
    while i < ids.len()
        invariant
            i <= ids@.len(),
            r@.no_duplicates(),
            forall|h: u128| r@.contains(h) <==> ids@.take(i as int).contains(h),
        decreases ids.len() - i,
    {
        let h = ids[i];
        let ghost before = r@;
        let ghost prefix = ids@.take(i as int);
        let found = contains_id(&r, h);
        if !found {
            r.push(h);
            proof {
                assert forall|a: int, b: int| 0 <= a < b < r@.len() implies r@[a] != r@[b] by {
                    if b == r@.len() - 1 {
                        assert(before[a] == r@[a]);
                    }
                }
            }
        }
        proof {
            let t = ids@.take(i + 1);
            assert(t =~= prefix.push(h));
            assert forall|x: u128| r@.contains(x) implies t.contains(x) by {
                if x == h {
                    assert(t[i as int] == h);
                } else {
                    let k = choose|k: int| 0 <= k < r@.len() && r@[k] == x;
                    assert(k < before.len());
                    assert(before[k] == x);
                    assert(before.contains(x));
                    assert(prefix.contains(x));
                    let m = choose|m: int| 0 <= m < prefix.len() && prefix[m] == x;
                    assert(t[m] == x);
                }
            }
            assert forall|x: u128| t.contains(x) implies r@.contains(x) by {
                if x == h {
                    if found {
                        let k = choose|k: int| 0 <= k < before.len() && before[k] == h;
                        assert(r@[k] == h);
                    } else {
                        assert(r@[r@.len() - 1] == h);
                    }
                } else {
                    let m = choose|m: int| 0 <= m < t.len() && t[m] == x;
                    assert(m < i);
                    assert(prefix[m] == x);
                    assert(prefix.contains(x));
                    assert(before.contains(x));
                    let k = choose|k: int| 0 <= k < before.len() && before[k] == x;
                    assert(r@[k] == x);
                }
            }
        }
        i = i + 1;
    }
    assert(ids@.take(ids@.len() as int) =~= ids@);
    r
}

/// The children of the hosts of a digest, grouped by host, with each
/// child's status in the session. Every host asked for gets an entry, and
/// so does every host that a reported child belongs to; no host gets two.
/// The open-ports service and loopback addresses are left out. No host
/// asked for, no entry at all.
pub fn children_by_host(
    host_ids: &Vec<u128>,
    services: &Vec<HostedService>,
    ips: &Vec<HostedIp>,
    interfaces: &Vec<HostedChild>,
    ports: &Vec<HostedChild>,
    scanned: &ScannedEntityIds,
    window: &DigestWindow,
) -> (r: Vec<HostChildren>)
    ensures
        r@.map_values(|c: HostChildren| c.host_id).no_duplicates(),
        forall|h: u128|
            r@.map_values(|c: HostChildren| c.host_id).contains(h) <==> (host_ids@.len() > 0 && digest_hosts(
                host_ids@,
                services@,
                ips@,
                interfaces@,
                ports@,
            ).contains(h)),
        forall|i: int|
            0 <= i < r@.len() ==> {
                let c = #[trigger] r@[i];
                &&& c.services@ == statuses_on(reported_services(services@), c.host_id, scanned.service_ids@, *window)
                &&& c.ip_addresses@ == statuses_on(reported_ips(ips@), c.host_id, scanned.ip_address_ids@, *window)
                &&& c.interfaces@ == statuses_on(interfaces@, c.host_id, scanned.interface_ids@, *window)
                &&& c.ports@ == statuses_on(ports@, c.host_id, scanned.port_ids@, *window)
            },
{
    let mut r: Vec<HostChildren> = Vec::new();
    if host_ids.len() == 0 {
        assert(r@.map_values(|c: HostChildren| c.host_id) =~= Seq::<u128>::empty());
        return r;
    }
    let kept_services = keep_reported_services(services);
    let kept_ips = keep_reported_ips(ips);
    let mut candidates: Vec<u128> = Vec::new();
    let mut k: usize = 0;
    while k < host_ids.len()
        invariant
            k <= host_ids@.len(),
            candidates@ == host_ids@.take(k as int),
        decreases host_ids.len() - k,
    {
        candidates.push(host_ids[k]);
        assert(host_ids@.take(k + 1) =~= host_ids@.take(k as int).push(host_ids@[k as int]));
        k = k + 1;
    }
    assert(host_ids@.take(host_ids@.len() as int) =~= host_ids@);
    append_hosts(&mut candidates, &kept_services);
    append_hosts(&mut candidates, &kept_ips);
    append_hosts(&mut candidates, interfaces);
    append_hosts(&mut candidates, ports);
    assert(candidates@ == digest_hosts(host_ids@, services@, ips@, interfaces@, ports@));
    let keys = distinct_ids(&candidates);
    let mut i: usize = 0;
    while i < keys.len()
        invariant
            i <= keys@.len(),
            r@.len() == i,
            kept_services@ == reported_services(services@),
            kept_ips@ == reported_ips(ips@),
            forall|j: int|
                0 <= j < i ==> {
                    let c = #[trigger] r@[j];
                    &&& c.host_id == keys@[j]
                    &&& c.services@ == statuses_on(reported_services(services@), c.host_id, scanned.service_ids@, *window)
                    &&& c.ip_addresses@ == statuses_on(reported_ips(ips@), c.host_id, scanned.ip_address_ids@, *window)
                    &&& c.interfaces@ == statuses_on(interfaces@, c.host_id, scanned.interface_ids@, *window)
                    &&& c.ports@ == statuses_on(ports@, c.host_id, scanned.port_ids@, *window)
                },
        decreases keys.len() - i,
    {
        let h = keys[i];
        let entry = HostChildren {
            host_id: h,
            services: statuses_for(&kept_services, h, &scanned.service_ids, window),
            ip_addresses: statuses_for(&kept_ips, h, &scanned.ip_address_ids, window),
            interfaces: statuses_for(interfaces, h, &scanned.interface_ids, window),
            ports: statuses_for(ports, h, &scanned.port_ids, window),
        };
        r.push(entry);
        i = i + 1;
    }
    assert(r@.map_values(|c: HostChildren| c.host_id) =~= keys@);
    r
}

} // verus!
