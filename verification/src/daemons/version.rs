//! Daemon version policy: the supported floor, the announced sunset, the
//! capability floors, and the lifecycle stage of a daemon's version.
//!
//! Instants are Unix timestamps in seconds (UTC).
use vstd::prelude::*;

use crate::text::{decimal, push_char, push_decimal};

verus! {

broadcast use vstd::string::group_string_axioms;

/// A semantic version: numbers, pre-release and build metadata (as their
/// dot-separated text, empty when absent).
#[derive(Debug, Clone, PartialEq, Eq)]
pub struct SemVer {
    pub major: u64,
    pub minor: u64,
    pub patch: u64,
    pub pre: String,
    pub build: String,
}

/// The plain parts of a version.
pub open spec fn parts(v: SemVer) -> (u64, u64, u64, Seq<char>, Seq<char>) {
    (v.major, v.minor, v.patch, v.pre@, v.build@)
}

/// `(a.0, a.1, a.2) < (b.0, b.1, b.2)` lexicographically.
pub open spec fn triple_lt(a: (u64, u64, u64, Seq<char>, Seq<char>), b: (u64, u64, u64, Seq<char>, Seq<char>)) -> bool {
    a.0 < b.0 || (a.0 == b.0 && (a.1 < b.1 || (a.1 == b.1 && a.2 < b.2)))
}

pub open spec fn same_triple(a: (u64, u64, u64, Seq<char>, Seq<char>), b: (u64, u64, u64, Seq<char>, Seq<char>)) -> bool {
    a.0 == b.0 && a.1 == b.1 && a.2 == b.2
}

/// Whether version `a` orders before version `b`, as `semver::Version`
/// orders them.
pub uninterp spec fn semver_precedes(a: (u64, u64, u64, Seq<char>, Seq<char>), b: (u64, u64, u64, Seq<char>, Seq<char>)) -> bool;

/// `a < b` on `semver::Version`. Its order is derived: first by major,
/// minor and patch, then by pre-release, then by build metadata, so when the
/// numbers differ they decide, and a version never precedes itself. Text
/// that `semver` would not accept as a pre-release or build is read as
/// empty.
#[verifier::external_body]
fn version_lt(a: &SemVer, b: &SemVer) -> (r: bool)
    ensures
        r == semver_precedes(parts(*a), parts(*b)),
        !same_triple(parts(*a), parts(*b)) ==> r == triple_lt(parts(*a), parts(*b)),
        parts(*a) == parts(*b) ==> !r,
{
    let va = semver::Version {
        major: a.major,
        minor: a.minor,
        patch: a.patch,
        pre: semver::Prerelease::new(&a.pre).unwrap_or(semver::Prerelease::EMPTY),
        build: semver::BuildMetadata::new(&a.build).unwrap_or(semver::BuildMetadata::EMPTY),
    };
    let vb = semver::Version {
        major: b.major,
        minor: b.minor,
        patch: b.patch,
        pre: semver::Prerelease::new(&b.pre).unwrap_or(semver::Prerelease::EMPTY),
        build: semver::BuildMetadata::new(&b.build).unwrap_or(semver::BuildMetadata::EMPTY),
    };
    va < vb
}

/// What `semver::Version::parse` makes of a text: its parts, or `None`
/// when the text is not a version.
pub uninterp spec fn semver_parse(text: Seq<char>) -> Option<(u64, u64, u64, Seq<char>, Seq<char>)>;

/// `semver::Version::parse`, with the result taken apart.
#[verifier::external_body]
pub fn parse_version(text: &str) -> (r: Option<SemVer>)
    ensures
        match r {
            Some(v) => semver_parse(text@) == Some(parts(v)),
            None => semver_parse(text@) is None,
        },
{
    match semver::Version::parse(text) {
        Ok(v) => Some(SemVer {
            major: v.major,
            minor: v.minor,
            patch: v.patch,
            pre: v.pre.as_str().to_string(),
            build: v.build.as_str().to_string(),
        }),
        Err(_) => None,
    }
}

/// The text of a version: `major.minor.patch`, then `-pre` and `+build`
/// when present.
pub open spec fn version_text(v: (u64, u64, u64, Seq<char>, Seq<char>)) -> Seq<char> {
    decimal(v.0 as nat) + seq!['.'] + decimal(v.1 as nat) + seq!['.'] + decimal(v.2 as nat)
        + (if v.3.len() > 0 { seq!['-'] + v.3 } else { Seq::empty() })
        + (if v.4.len() > 0 { seq!['+'] + v.4 } else { Seq::empty() })
}

/// `v` is exactly `major.minor.patch`, with no pre-release or build.
pub open spec fn plain(v: SemVer, major: u64, minor: u64, patch: u64) -> bool {
    v.major == major && v.minor == minor && v.patch == patch && v.pre@.len() == 0 && v.build@.len() == 0
}

impl SemVer {
    /// A release version without pre-release or build metadata.
    pub fn new(major: u64, minor: u64, patch: u64) -> (v: SemVer)
        ensures
            plain(v, major, minor, patch),
    {
        SemVer { major, minor, patch, pre: String::new(), build: String::new() }
    }

    /// A copy of the version.
    pub fn duplicate(&self) -> (v: SemVer)
        ensures
            parts(v) == parts(*self),
    {
        let mut pre = String::new();
        pre.append(self.pre.as_str());
        let mut build = String::new();
        build.append(self.build.as_str());
        SemVer { major: self.major, minor: self.minor, patch: self.patch, pre, build }
    }

    /// The version's text (its `Display` rendering).
    pub fn to_text(&self) -> (s: String)
        ensures
            s@ == version_text(parts(*self)),
    {
        let mut s = String::new();
        push_decimal(&mut s, self.major);
        push_char(&mut s, '.');
        push_decimal(&mut s, self.minor);
        push_char(&mut s, '.');
        push_decimal(&mut s, self.patch);
        let ghost base = s@;
        if self.pre.as_str().is_empty() {
        } else {
            push_char(&mut s, '-');
            s.append(self.pre.as_str());
        }
        let ghost mid = s@;
        if self.build.as_str().is_empty() {
        } else {
            push_char(&mut s, '+');
            s.append(self.build.as_str());
        }
        proof {
            assert(mid =~= base + (if self.pre@.len() > 0 { seq!['-'] + self.pre@ } else { Seq::empty() }));
            assert(s@ =~= version_text(parts(*self)));
        }
        s
    }

    /// Whether this version orders before `other`.
    pub fn precedes(&self, other: &SemVer) -> (r: bool)
        ensures
            r == semver_precedes(parts(*self), parts(*other)),
            !same_triple(parts(*self), parts(*other)) ==> r == triple_lt(parts(*self), parts(*other)),
            parts(*self) == parts(*other) ==> !r,
    {
        version_lt(self, other)
    }
}

// ---------------------------------------------------------------------------
// Floors
// ---------------------------------------------------------------------------

/// The historical floor, 0.12.0: enforced while the sunset is dormant, and
/// the lowest floor ever enforced.
pub fn baseline_floor() -> (v: SemVer)
    ensures
        plain(v, 0, 12, 0),
{
    SemVer::new(0, 12, 0)
}

/// A shipped minor release line and when its `.0` shipped.
pub struct ReleaseLine {
    pub minor: (u64, u64),
    pub released_on: i64,
}

/// Every shipped minor line, oldest first.
pub open spec fn release_table() -> Seq<(u64, u64, i64)> {
    seq![
        (0u64, 12u64, 1765670400i64),
        (0u64, 13u64, 1767484800i64),
        (0u64, 14u64, 1769904000i64),
        (0u64, 15u64, 1774224000i64),
        (0u64, 16u64, 1776384000i64),
        (0u64, 17u64, 1782086400i64),
    ]
}

/// Every shipped minor line, oldest first: 0.12 (2025-12-14), 0.13
/// (2026-01-04), 0.14 (2026-02-01), 0.15 (2026-03-23), 0.16 (2026-04-17),
/// 0.17 (2026-06-22).
pub fn release_lines() -> (v: Vec<ReleaseLine>)
    ensures
        v@.len() == release_table().len(),
        forall|i: int| 0 <= i < v@.len() ==> (#[trigger] v@[i]).minor.0 == release_table()[i].0
            && v@[i].minor.1 == release_table()[i].1 && v@[i].released_on == release_table()[i].2,
{
    vec![
        ReleaseLine { minor: (0, 12), released_on: 1765670400 },
        ReleaseLine { minor: (0, 13), released_on: 1767484800 },
        ReleaseLine { minor: (0, 14), released_on: 1769904000 },
        ReleaseLine { minor: (0, 15), released_on: 1774224000 },
        ReleaseLine { minor: (0, 16), released_on: 1776384000 },
        ReleaseLine { minor: (0, 17), released_on: 1782086400 },
    ]
}

/// The release table is strictly increasing, in minor and in date.
pub proof fn lemma_release_table_sorted()
    ensures
        forall|i: int, j: int| 0 <= i < j < release_table().len() ==> triple_lt(
            (release_table()[i].0, release_table()[i].1, 0u64, Seq::empty(), Seq::empty()),
            (release_table()[j].0, release_table()[j].1, 0u64, Seq::empty(), Seq::empty()),
        ) && release_table()[i].2 < release_table()[j].2,
{
}

/// An announced support cutover: at `effective_on`, daemons below `floor`
/// become unsupported. `None` for the date is the dormant state.
pub struct ScheduledFloor {
    pub floor: SemVer,
    pub effective_on: Option<i64>,
}

/// Months between the v1.0 launch and the first enforced cutover.
pub const V1_SUNSET_LEAD_MONTHS: u32 = 3;

/// The v1.0 launch instant. Unset: the sunset machinery is dormant.
pub fn v1_launch() -> (r: Option<i64>)
    ensures
        r is None,
{
    None
}

/// The instant `months` calendar months after `ts` (day clamped to the
/// target month); `ts` itself when that is not representable.
pub uninterp spec fn months_after(ts: i64, months: u32) -> i64;

/// `DateTime::checked_add_months` on the instant `ts`, falling back to `ts`
/// when the result (or `ts` itself) is out of chrono's range. The result is
/// named.
#[verifier::external_body]
pub fn add_months(ts: i64, months: u32) -> (r: i64)
    ensures
        r == months_after(ts, months),
{
    match chrono::DateTime::from_timestamp(ts, 0) {
        Some(d) => match d.checked_add_months(chrono::Months::new(months)) {
            Some(later) => later.timestamp(),
            None => ts,
        },
        None => ts,
    }
}

/// The v1.0 cutover: everything below 0.17.5 sunsets three months after
/// launch.
pub fn v1_sunset() -> (s: ScheduledFloor)
    ensures
        plain(s.floor, 0, 17, 5),
        s.effective_on is None,
{
    let floor = SemVer::new(0, 17, 5);
    let effective_on = match v1_launch() {
        Some(launch) => Some(add_months(launch, V1_SUNSET_LEAD_MONTHS)),
        None => None,
    };
    ScheduledFloor { floor, effective_on }
}

/// The floor of a cutover at `now`, given the current floor: the cutover's
/// floor when it has taken effect and is higher.
pub open spec fn after_cutover(floor: SemVer, v1: ScheduledFloor, now: i64) -> (u64, u64, u64, Seq<char>, Seq<char>) {
    match v1.effective_on {
        Some(eff) => if eff <= now && semver_precedes(parts(floor), parts(v1.floor)) {
            parts(v1.floor)
        } else {
            parts(floor)
        },
        None => parts(floor),
    }
}

/// The lower of two versions (the first when neither precedes the other).
pub open spec fn min_version(a: (u64, u64, u64, Seq<char>, Seq<char>), b: (u64, u64, u64, Seq<char>, Seq<char>)) -> (u64, u64, u64, Seq<char>, Seq<char>) {
    if semver_precedes(b, a) { b } else { a }
}

/// The floor enforced at `now` under the cutover `v1`, for a server of
/// version `own`: the baseline, raised to the cutover's floor once it has
/// taken effect, then capped at `own` so that a server never enforces a
/// floor newer than itself.
pub fn floor_under(v1: &ScheduledFloor, now: i64, own: &SemVer) -> (f: SemVer)
    ensures
        exists|base: SemVer| plain(base, 0, 12, 0) && parts(f) == min_version(after_cutover(base, *v1, now), parts(*own)),
{
    let base = baseline_floor();
    let ghost b = base;
    let raised = match v1.effective_on {
        Some(eff) => if eff <= now && base.precedes(&v1.floor) {
            v1.floor.duplicate()
        } else {
            base
        },
        None => base,
    };
    assert(parts(raised) == after_cutover(b, *v1, now));
    if own.precedes(&raised) {
        own.duplicate()
    } else {
        raised
    }
}

/// The support-window floor at `now`: the oldest of the three newest minor
/// lines (`.0`), once six months have passed since it shipped (and never
/// before the v1.0 cutover). `None` while that has not happened.
pub fn support_window_floor(now: i64) -> (r: Option<SemVer>)
    ensures
        r is Some <==> months_after(release_table()[3].2, 6) <= now,
        r matches Some(v) ==> plain(v, 0, 15, 0),
{
    let lines = release_lines();
    if lines.len() < 3 {
        return None;
    }
    let oldest = &lines[lines.len() - 3];
    let mut effective = add_months(oldest.released_on, 6);
    match v1_launch() {
        Some(launch) => {
            let cutover = add_months(launch, V1_SUNSET_LEAD_MONTHS);
            if effective < cutover {
                effective = cutover;
            }
        },
        None => {},
    }
    if effective <= now {
        Some(SemVer::new(oldest.minor.0, oldest.minor.1, 0))
    } else {
        None
    }
}

/// The parts of the release `major.minor.patch`.
pub open spec fn release(major: u64, minor: u64, patch: u64) -> (u64, u64, u64, Seq<char>, Seq<char>) {
    (major, minor, patch, Seq::empty(), Seq::empty())
}

/// The floor enforced at `now` by a server of version `own`. While the
/// sunset is dormant this is the baseline 0.12.0 capped at `own`, whatever
/// `now` is (so it never moves with time); it never exceeds `own`, and for
/// a server at or above 0.12.0 it is exactly 0.12.0.
pub fn enforced_floor(now: i64, own: &SemVer) -> (f: SemVer)
    ensures
        parts(f) == min_version(release(0, 12, 0), parts(*own)),
        parts(f) == parts(*own) || !semver_precedes(parts(*own), parts(f)),
        !semver_precedes(parts(*own), release(0, 12, 0)) ==> parts(f) == release(0, 12, 0),
{
    let v1 = v1_sunset();
    let floor = floor_under(&v1, now, own);
    proof {
        let b = choose|b: SemVer| plain(b, 0, 12, 0) && parts(floor) == min_version(after_cutover(b, v1, now), parts(*own));
        assert(b.pre@ =~= Seq::<char>::empty());
        assert(b.build@ =~= Seq::<char>::empty());
        assert(after_cutover(b, v1, now) == release(0, 12, 0));
    }
    match v1_launch() {
        Some(_) => match support_window_floor(now) {
            Some(auto) => if floor.precedes(&auto) {
                if own.precedes(&auto) { own.duplicate() } else { auto }
            } else {
                floor
            },
            None => floor,
        },
        None => floor,
    }
}

/// An announced sunset: the floor, the instant it takes effect, and that
/// instant's calendar date (`YYYY-MM-DD`) as shown to users.
pub struct AnnouncedSunset {
    pub floor: SemVer,
    pub effective_on: i64,
    pub effective_date: String,
}

/// The calendar date (`YYYY-MM-DD`, UTC) of an instant, or `None` outside
/// the range of dates chrono represents.
pub uninterp spec fn utc_date_text(ts: i64) -> Option<Seq<char>>;

/// `DateTime::from_timestamp` then `format("%Y-%m-%d")`. The result is
/// named.
#[verifier::external_body]
pub fn date_text(ts: i64) -> (r: Option<String>)
    ensures
        match r {
            Some(s) => utc_date_text(ts) == Some(s@),
            None => utc_date_text(ts) is None,
        },
{
    match chrono::DateTime::from_timestamp(ts, 0) {
        Some(d) => Some(d.format("%Y-%m-%d").to_string()),
        None => None,
    }
}

impl AnnouncedSunset {
    /// The sunset of versions below `floor` at `effective_on`; `None` when
    /// the instant has no calendar date.
    pub fn new(floor: SemVer, effective_on: i64) -> (r: Option<AnnouncedSunset>)
        ensures
            match r {
                Some(s) => parts(s.floor) == parts(floor) && s.effective_on == effective_on
                    && utc_date_text(effective_on) == Some(s.effective_date@),
                None => utc_date_text(effective_on) is None,
            },
    {
        match date_text(effective_on) {
            Some(d) => Some(AnnouncedSunset { floor, effective_on, effective_date: d }),
            None => None,
        }
    }
}

/// The announced sunset, once the launch date is set; `None` while dormant.
pub fn announced_sunset() -> (r: Option<AnnouncedSunset>)
    ensures
        r is None,
{
    let v1 = v1_sunset();
    match v1.effective_on {
        Some(eff) => AnnouncedSunset::new(v1.floor, eff),
        None => None,
    }
}

/// Whether an announced sunset covers a daemon: one without a version is
/// treated as below any floor.
pub open spec fn covered(a: Option<AnnouncedSunset>, v: Option<SemVer>) -> bool {
    match a {
        Some(s) => match v {
            Some(ver) => semver_precedes(parts(ver), parts(s.floor)),
            None => true,
        },
        None => false,
    }
}

fn covered_by(a: &Option<AnnouncedSunset>, v: Option<&SemVer>) -> (b: bool)
    ensures
        b == covered(*a, match v { Some(x) => Some(*x), None => None }),
{
    match a {
        Some(s) => match v {
            Some(ver) => ver.precedes(&s.floor),
            None => true,
        },
        None => false,
    }
}

// ---------------------------------------------------------------------------
// Capability floors
// ---------------------------------------------------------------------------

/// A recorded version at or above `major.minor.patch`.
pub open spec fn at_least(v: Option<SemVer>, major: u64, minor: u64, patch: u64) -> bool {
    match v {
        Some(x) => !semver_precedes(parts(x), (major, minor, patch, Seq::empty(), Seq::empty())),
        None => false,
    }
}

fn version_at_least(v: Option<&SemVer>, floor: &SemVer) -> (b: bool)
    ensures
        b == (match v {
            Some(x) => !semver_precedes(parts(*x), parts(*floor)),
            None => false,
        }),
{
    match v {
        Some(x) => !x.precedes(floor),
        None => false,
    }
}

/// 0.15.0: unified discovery.
pub fn minimum_unified_discovery() -> (v: SemVer)
    ensures
        plain(v, 0, 15, 0),
{
    SemVer::new(0, 15, 0)
}

/// Whether a daemon supports unified discovery (a recorded version at or
/// above 0.15.0).
pub fn supports_unified_discovery(version: Option<&SemVer>) -> (b: bool)
    ensures
        b == at_least(match version { Some(x) => Some(*x), None => None }, 0, 15, 0),
{
    let floor = minimum_unified_discovery();
    proof {
        assert(parts(floor) == (0u64, 15u64, 0u64, Seq::<char>::empty(), Seq::<char>::empty()));
    }
    version_at_least(version, &floor)
}

/// 0.14.0: the full server-poll flow.
pub fn minimum_full_server_poll() -> (v: SemVer)
    ensures
        plain(v, 0, 14, 0),
{
    SemVer::new(0, 14, 0)
}

/// Whether a daemon supports the full server-poll flow; one without a
/// recorded version is taken as legacy.
pub fn supports_full_server_poll(version: Option<&SemVer>) -> (b: bool)
    ensures
        b == at_least(match version { Some(x) => Some(*x), None => None }, 0, 14, 0),
{
    let floor = minimum_full_server_poll();
    proof {
        assert(parts(floor) == (0u64, 14u64, 0u64, Seq::<char>::empty(), Seq::<char>::empty()));
    }
    version_at_least(version, &floor)
}

/// 0.17.5: server-provisioned identity.
pub fn minimum_server_provisioned_identity() -> (v: SemVer)
    ensures
        plain(v, 0, 17, 5),
{
    SemVer::new(0, 17, 5)
}

/// Whether a daemon learns its identity from the server (0.17.5 or later).
pub fn supports_server_provisioned_identity(version: Option<&SemVer>) -> (b: bool)
    ensures
        b == at_least(match version { Some(x) => Some(*x), None => None }, 0, 17, 5),
{
    let floor = minimum_server_provisioned_identity();
    proof {
        assert(parts(floor) == (0u64, 17u64, 5u64, Seq::<char>::empty(), Seq::<char>::empty()));
    }
    version_at_least(version, &floor)
}

/// 0.16.1: the corrected docker volume mount.
pub fn minimum_correct_docker_volume_mount() -> (v: SemVer)
    ensures
        plain(v, 0, 16, 1),
{
    SemVer::new(0, 16, 1)
}

/// Whether a daemon is at or above the release with the corrected docker
/// volume mount.
pub fn has_correct_docker_volume_mount(version: Option<&SemVer>) -> (b: bool)
    ensures
        b == at_least(match version { Some(x) => Some(*x), None => None }, 0, 16, 1),
{
    let floor = minimum_correct_docker_volume_mount();
    proof {
        assert(parts(floor) == (0u64, 16u64, 1u64, Seq::<char>::empty(), Seq::<char>::empty()));
    }
    version_at_least(version, &floor)
}

/// Every capability floor, in the order of the capabilities above.
pub fn capability_floors() -> (v: Vec<SemVer>)
    ensures
        v@.len() == 4,
        plain(v@[0], 0, 15, 0),
        plain(v@[1], 0, 14, 0),
        plain(v@[2], 0, 17, 5),
        plain(v@[3], 0, 16, 1),
{
    vec![
        minimum_unified_discovery(),
        minimum_full_server_poll(),
        minimum_server_provisioned_identity(),
        minimum_correct_docker_volume_mount(),
    ]
}

/// Whether a daemon predates the binding type rename (below 0.16.0); a
/// missing or unparsable version counts as old.
pub fn pre_interface_to_ip_address_rename(version: Option<&str>) -> (b: bool)
    ensures
        b == (match version {
            Some(t) => match semver_parse(t@) {
                Some(p) => semver_precedes(p, (0, 16, 0, Seq::empty(), Seq::empty())),
                None => true,
            },
            None => true,
        }),
{
    match version {
        Some(t) => match parse_version(t) {
            Some(v) => {
                let floor = SemVer::new(0, 16, 0);
                proof {
                    assert(parts(floor) == (0u64, 16u64, 0u64, Seq::<char>::empty(), Seq::<char>::empty()));
                }
                v.precedes(&floor)
            },
            None => true,
        },
        None => true,
    }
}


// ---------------------------------------------------------------------------
// Lifecycle
// ---------------------------------------------------------------------------

/// How urgent a version warning is.
#[derive(Debug, Clone, Copy, PartialEq, Eq, Structural)]
pub enum DeprecationSeverity {
    Info,
    Warning,
    Critical,
    /// A severity a newer server sends that this one does not know.
    Unknown,
}

impl Default for DeprecationSeverity {
    fn default() -> (s: Self)
        ensures
            s == DeprecationSeverity::Info,
    {
        DeprecationSeverity::Info
    }
}

/// Lifecycle stage of a daemon's version: `Current`, `Outdated`,
/// `Deprecated` (a sunset is scheduled), `Unsupported` (rejected), or
/// `Unknown` (no recorded version).
#[derive(Debug, Clone, Copy, PartialEq, Eq, Structural)]
pub enum VersionHealthStatus {
    Current,
    Outdated,
    Deprecated,
    Unsupported,
    Unknown,
}

/// A warning about a daemon's version.
pub struct DeprecationWarning {
    pub message: String,
    pub sunset_date: Option<String>,
    pub severity: DeprecationSeverity,
}

/// A daemon's version, its stage, the warnings to show and its sunset date.
pub struct DaemonVersionStatus {
    pub version: Option<String>,
    pub status: VersionHealthStatus,
    pub warnings: Vec<DeprecationWarning>,
    pub sunset_date: Option<String>,
    pub supports_unified_discovery: bool,
    pub has_correct_docker_volume_mount: bool,
}

/// The version policy at an instant: the enforced floor, the recommended
/// and latest versions (the server's own), the instant, and the announced
/// sunset if any.
pub struct DaemonVersionPolicy {
    pub minimum_supported: SemVer,
    pub recommended: SemVer,
    pub latest: SemVer,
    pub now: i64,
    pub announced_sunset: Option<AnnouncedSunset>,
}

/// A warning, by its plain parts.
pub type WarningView = (Seq<char>, Option<Seq<char>>, DeprecationSeverity);

pub open spec fn warning_view(w: DeprecationWarning) -> WarningView {
    (w.message@, match w.sunset_date { Some(d) => Some(d@), None => None }, w.severity)
}

/// How a daemon is named in messages.
pub open spec fn daemon_label(v: Option<SemVer>) -> Seq<char> {
    match v {
        Some(x) => "Daemon "@ + version_text(parts(x)),
        None => "This daemon (no reported version)"@,
    }
}

/// The stage, the warnings and the sunset date of a daemon's version under
/// a policy. A daemon the announced sunset covers (a version-less one
/// included) is unsupported once the sunset has taken effect and deprecated
/// before, with the date; otherwise a version-less daemon is unknown, one
/// below the floor unsupported, one below the recommended version outdated,
/// and any other current.
pub open spec fn lifecycle_of(p: DaemonVersionPolicy, v: Option<SemVer>) -> (VersionHealthStatus, Seq<WarningView>, Option<Seq<char>>) {
    let rec = version_text(parts(p.recommended));
    if covered(p.announced_sunset, v) {
        let s = p.announced_sunset->Some_0;
        let date = s.effective_date@;
        if s.effective_on <= p.now {
            (VersionHealthStatus::Unsupported, seq![(
                daemon_label(v) + " is no longer supported (support ended "@ + date + "). Update to "@ + rec
                    + " or later to reconnect."@,
                Some(date),
                DeprecationSeverity::Critical,
            )], Some(date))
        } else {
            (VersionHealthStatus::Deprecated, seq![(
                daemon_label(v) + " is deprecated and support ends "@ + date + ". Update to "@ + rec
                    + " or later before then to avoid interruption."@,
                Some(date),
                DeprecationSeverity::Critical,
            )], Some(date))
        }
    } else {
        match v {
            None => (VersionHealthStatus::Unknown, seq![(
                "Daemon version unknown. Update to "@ + rec + " or later."@,
                None,
                DeprecationSeverity::Warning,
            )], None),
            Some(x) => if semver_precedes(parts(x), parts(p.minimum_supported)) {
                (VersionHealthStatus::Unsupported, seq![(
                    "Daemon "@ + version_text(parts(x)) + " is no longer supported. Update to "@ + rec
                        + " or later to reconnect."@,
                    None,
                    DeprecationSeverity::Critical,
                )], None)
            } else if semver_precedes(parts(x), parts(p.recommended)) {
                (VersionHealthStatus::Outdated, seq![(
                    "Daemon "@ + version_text(parts(x)) + " is outdated. Update to "@ + rec
                        + " for the latest features."@,
                    None,
                    DeprecationSeverity::Warning,
                )], None)
            } else {
                (VersionHealthStatus::Current, Seq::empty(), None)
            },
        }
    }
}

fn text_of(s: &str) -> (r: String)
    ensures
        r@ == s@,
{
    let mut r = String::new();
    r.append(s);
    r
}

fn one_warning(message: String, sunset_date: Option<String>, severity: DeprecationSeverity) -> (v: Vec<DeprecationWarning>)
    ensures
        v@.len() == 1,
        v@[0].message@ == message@,
        v@[0].sunset_date == sunset_date,
        v@[0].severity == severity,
{
    let mut v: Vec<DeprecationWarning> = Vec::new();
    v.push(DeprecationWarning { message, sunset_date, severity });
    v
}

pub open spec fn opt_some(v: Option<&SemVer>) -> Option<SemVer> {
    match v {
        Some(x) => Some(*x),
        None => None,
    }
}

impl DaemonVersionPolicy {
    /// The policy at `now` for a server of version `own`: the enforced
    /// floor, the server's own version as recommended and latest, and the
    /// announced sunset.
    pub fn at(now: i64, own: &SemVer) -> (p: DaemonVersionPolicy)
        ensures
            p.now == now,
            parts(p.recommended) == parts(*own),
            parts(p.latest) == parts(*own),
            parts(p.minimum_supported) == min_version(release(0, 12, 0), parts(*own)),
            p.announced_sunset is None,
    {
        DaemonVersionPolicy {
            minimum_supported: enforced_floor(now, own),
            recommended: own.duplicate(),
            latest: own.duplicate(),
            now,
            announced_sunset: announced_sunset(),
        }
    }

    /// The policy at `now` with a given announced sunset and the baseline
    /// floor.
    pub fn with_sunset(now: i64, own: &SemVer, announced: Option<AnnouncedSunset>) -> (p: DaemonVersionPolicy)
        ensures
            p.now == now,
            parts(p.recommended) == parts(*own),
            parts(p.latest) == parts(*own),
            plain(p.minimum_supported, 0, 12, 0),
            p.announced_sunset == announced,
    {
        DaemonVersionPolicy {
            minimum_supported: baseline_floor(),
            recommended: own.duplicate(),
            latest: own.duplicate(),
            now,
            announced_sunset: announced,
        }
    }

    /// The stage, warnings and sunset date of a (possibly missing) version.
    pub fn lifecycle(&self, v: Option<&SemVer>) -> (r: (VersionHealthStatus, Vec<DeprecationWarning>, Option<String>))
        ensures
            r.0 == lifecycle_of(*self, opt_some(v)).0,
            r.1@.map_values(|w: DeprecationWarning| warning_view(w)) == lifecycle_of(*self, opt_some(v)).1,
            (match r.2 { Some(d) => Some(d@), None => None }) == lifecycle_of(*self, opt_some(v)).2,
    {
        let rec = self.recommended.to_text();
        let mut label = String::new();
        match v {
            Some(x) => {
                label.append("Daemon ");
                let t = x.to_text();
                label.append(t.as_str());
            },
            None => label.append("This daemon (no reported version)"),
        }
        assert(label@ =~= daemon_label(opt_some(v)));
        let ghost spec = lifecycle_of(*self, opt_some(v));
        let is_covered = covered_by(&self.announced_sunset, v);
        if let (Some(s), true) = (&self.announced_sunset, is_covered) {
            let date = s.effective_date.as_str();
            let mut message = String::new();
            message.append(label.as_str());
            let status = if s.effective_on <= self.now {
                message.append(" is no longer supported (support ended ");
                message.append(date);
                message.append("). Update to ");
                message.append(rec.as_str());
                message.append(" or later to reconnect.");
                VersionHealthStatus::Unsupported
            } else {
                message.append(" is deprecated and support ends ");
                message.append(date);
                message.append(". Update to ");
                message.append(rec.as_str());
                message.append(" or later before then to avoid interruption.");
                VersionHealthStatus::Deprecated
            };
            assert(message@ =~= spec.1[0].0);
            let w = one_warning(message, Some(text_of(date)), DeprecationSeverity::Critical);
            assert(w@.map_values(|w: DeprecationWarning| warning_view(w)) =~= spec.1);
            return (status, w, Some(text_of(date)));
        }
        match v {
            None => {
                let mut message = String::new();
                message.append("Daemon version unknown. Update to ");
                message.append(rec.as_str());
                message.append(" or later.");
                assert(message@ =~= spec.1[0].0);
                let w = one_warning(message, None, DeprecationSeverity::Warning);
                assert(w@.map_values(|w: DeprecationWarning| warning_view(w)) =~= spec.1);
                (VersionHealthStatus::Unknown, w, None)
            },
            Some(x) => {
                let t = x.to_text();
                if x.precedes(&self.minimum_supported) {
                    let mut message = String::new();
                    message.append("Daemon ");
                    message.append(t.as_str());
                    message.append(" is no longer supported. Update to ");
                    message.append(rec.as_str());
                    message.append(" or later to reconnect.");
                    assert(message@ =~= spec.1[0].0);
                    let w = one_warning(message, None, DeprecationSeverity::Critical);
                    assert(w@.map_values(|w: DeprecationWarning| warning_view(w)) =~= spec.1);
                    (VersionHealthStatus::Unsupported, w, None)
                } else if x.precedes(&self.recommended) {
                    let mut message = String::new();
                    message.append("Daemon ");
                    message.append(t.as_str());
                    message.append(" is outdated. Update to ");
                    message.append(rec.as_str());
                    message.append(" for the latest features.");
                    assert(message@ =~= spec.1[0].0);
                    let w = one_warning(message, None, DeprecationSeverity::Warning);
                    assert(w@.map_values(|w: DeprecationWarning| warning_view(w)) =~= spec.1);
                    (VersionHealthStatus::Outdated, w, None)
                } else {
                    let w: Vec<DeprecationWarning> = Vec::new();
                    assert(w@.map_values(|w: DeprecationWarning| warning_view(w)) =~= spec.1);
                    (VersionHealthStatus::Current, w, None)
                }
            },
        }
    }

    /// The full status of a daemon's version.
    pub fn evaluate(&self, version: Option<&SemVer>) -> (s: DaemonVersionStatus)
        ensures
            match version {
                Some(x) => s.version matches Some(t) && t@ == version_text(parts(*x)),
                None => s.version is None,
            },
            s.status == lifecycle_of(*self, opt_some(version)).0,
            s.warnings@.map_values(|w: DeprecationWarning| warning_view(w)) == lifecycle_of(*self, opt_some(version)).1,
            (match s.sunset_date { Some(d) => Some(d@), None => None }) == lifecycle_of(*self, opt_some(version)).2,
            s.supports_unified_discovery == at_least(opt_some(version), 0, 15, 0),
            s.has_correct_docker_volume_mount == at_least(opt_some(version), 0, 16, 1),
    {
        let supports_unified = supports_unified_discovery(version);
        let has_correct_mount = has_correct_docker_volume_mount(version);
        let (status, warnings, sunset_date) = self.lifecycle(version);
        let text = match version {
            Some(x) => Some(x.to_text()),
            None => None,
        };
        DaemonVersionStatus {
            version: text,
            status,
            warnings,
            sunset_date,
            supports_unified_discovery: supports_unified,
            has_correct_docker_volume_mount: has_correct_mount,
        }
    }
}

/// The lifecycle's promises: a daemon is current exactly when it gets no
/// warning; while no sunset is announced nothing is deprecated and a
/// version-less daemon is unknown; once one is announced, a version-less
/// daemon is deprecated or unsupported like an old one, with the sunset
/// date; a daemon at or above the recommended version that no sunset covers
/// is current; a daemon gets at most one warning, and one a sunset covers
/// gets exactly one, critical, carrying the sunset's date.
pub proof fn lemma_lifecycle_laws(p: DaemonVersionPolicy, v: Option<SemVer>)
    ensures
        (lifecycle_of(p, v).0 == VersionHealthStatus::Current) <==> lifecycle_of(p, v).1.len() == 0,
        p.announced_sunset is None ==> lifecycle_of(p, v).0 != VersionHealthStatus::Deprecated,
        p.announced_sunset is None ==> (v is None <==> lifecycle_of(p, v).0 == VersionHealthStatus::Unknown),
        p.announced_sunset is Some && v is None ==> (
            (lifecycle_of(p, v).0 == VersionHealthStatus::Deprecated || lifecycle_of(p, v).0 == VersionHealthStatus::Unsupported)
            && lifecycle_of(p, v).2 == Some(p.announced_sunset->Some_0.effective_date@)),
        lifecycle_of(p, v).2 is Some ==> p.announced_sunset is Some,
        lifecycle_of(p, v).1.len() <= 1,
        covered(p.announced_sunset, v) ==> lifecycle_of(p, v).1.len() == 1
            && lifecycle_of(p, v).1[0].2 == DeprecationSeverity::Critical
            && lifecycle_of(p, v).1[0].1 == Some(p.announced_sunset->Some_0.effective_date@)
            && lifecycle_of(p, v).2 == Some(p.announced_sunset->Some_0.effective_date@),
{
}

} // verus!
