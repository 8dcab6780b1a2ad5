use scanopy::daemons::version::{
    add_months, capability_floors, baseline_floor, enforced_floor, floor_under, has_correct_docker_volume_mount,
    minimum_full_server_poll, minimum_server_provisioned_identity,
    parse_version, pre_interface_to_ip_address_rename, release_lines,
    supports_full_server_poll, supports_server_provisioned_identity, supports_unified_discovery,
    v1_launch, AnnouncedSunset, DaemonVersionPolicy, DeprecationSeverity, ScheduledFloor, SemVer,
    VersionHealthStatus, V1_SUNSET_LEAD_MONTHS,
};

fn dt(y: i32, m: u32, d: u32) -> i64 {
    chrono::NaiveDate::from_ymd_opt(y, m, d).unwrap().and_hms_opt(0, 0, 0).unwrap().and_utc().timestamp()
}

/// The version of the server these tests run as.
fn own_version() -> SemVer {
    SemVer::new(0, 17, 6)
}

fn policy_at(now: i64) -> DaemonVersionPolicy {
    DaemonVersionPolicy::at(now, &own_version())
}

fn sunset_policy(now: i64, floor: SemVer, on: i64) -> DaemonVersionPolicy {
    DaemonVersionPolicy::with_sunset(now, &own_version(), AnnouncedSunset::new(floor, on))
}

#[test]
fn dormant_floor_is_baseline() {
    assert_eq!(enforced_floor(dt(2026, 7, 27), &own_version()), baseline_floor());
    assert_eq!(enforced_floor(dt(2030, 1, 1), &own_version()), baseline_floor());
}

#[test]
fn dormant_old_daemon_is_not_deprecated() {
    let status = policy_at(dt(2026, 7, 27)).evaluate(Some(&SemVer::new(0, 16, 0)));
    assert_eq!(status.status, VersionHealthStatus::Outdated);
    assert!(status.sunset_date.is_none());
}

#[test]
fn dormant_current_daemon_is_current() {
    let status = policy_at(dt(2026, 7, 27)).evaluate(Some(&own_version()));
    assert_eq!(status.status, VersionHealthStatus::Current);
    assert!(status.warnings.is_empty());
}

#[test]
fn unknown_version_is_unknown_not_outdated() {
    let status = policy_at(dt(2026, 7, 27)).evaluate(None);
    assert_eq!(status.status, VersionHealthStatus::Unknown);
    assert!(status.version.is_none());
}

#[test]
fn announced_sunset_deprecates_old_and_versionless() {
    let policy = sunset_policy(dt(2026, 7, 27), SemVer::new(0, 17, 5), dt(2026, 10, 1));

    let old = policy.evaluate(Some(&SemVer::new(0, 16, 0)));
    assert_eq!(old.status, VersionHealthStatus::Deprecated);
    assert_eq!(old.sunset_date.as_deref(), Some("2026-10-01"));

    let versionless = policy.evaluate(None);
    assert_eq!(versionless.status, VersionHealthStatus::Deprecated);
    assert_eq!(versionless.sunset_date.as_deref(), Some("2026-10-01"));

    assert_eq!(policy.evaluate(Some(&own_version())).status, VersionHealthStatus::Current);
}

#[test]
fn passed_sunset_is_unsupported_including_versionless() {
    let policy = sunset_policy(dt(2026, 11, 1), SemVer::new(0, 17, 5), dt(2026, 10, 1));
    assert_eq!(policy.evaluate(Some(&SemVer::new(0, 16, 0))).status, VersionHealthStatus::Unsupported);
    assert_eq!(policy.evaluate(None).status, VersionHealthStatus::Unsupported);
}

#[test]
fn floor_moves_only_after_cutover() {
    let launch = dt(2026, 9, 1);
    let v1 = ScheduledFloor { floor: SemVer::new(0, 17, 5), effective_on: Some(add_months(launch, V1_SUNSET_LEAD_MONTHS)) };
    assert_eq!(floor_under(&v1, dt(2026, 11, 30), &own_version()), baseline_floor());
    assert_eq!(floor_under(&v1, dt(2026, 12, 1), &own_version()), SemVer::new(0, 17, 5));
    assert_eq!(floor_under(&v1, dt(2027, 6, 1), &own_version()), SemVer::new(0, 17, 5));
}

#[test]
fn floor_capped_at_own_version() {
    let v1 = ScheduledFloor { floor: SemVer::new(9, 9, 9), effective_on: Some(dt(2026, 1, 1)) };
    assert_eq!(floor_under(&v1, dt(2027, 1, 1), &own_version()), own_version());
}

#[test]
fn add_months_is_three_month_lead() {
    assert_eq!(add_months(dt(2026, 9, 1), 3), dt(2026, 12, 1));
    assert_eq!(add_months(dt(2026, 11, 15), 3), dt(2027, 2, 15));
}

#[test]
fn add_months_clamps_to_the_end_of_a_short_month() {
    assert_eq!(add_months(dt(2026, 1, 31), 1), dt(2026, 2, 28));
}

#[test]
fn current_minor_has_a_release_line() {
    let own = own_version();
    assert!(release_lines().iter().any(|l| l.minor == (own.major, own.minor)));
}

#[test]
fn capability_floors_within_server_version() {
    let own = own_version();
    for floor in capability_floors() {
        assert!(!own.precedes(&floor), "capability floor {} exceeds server version {}", floor.to_text(), own.to_text());
    }
}

#[test]
fn release_lines_are_sorted_and_unique() {
    let lines = release_lines();
    for pair in lines.windows(2) {
        assert!(pair[0].minor < pair[1].minor);
        assert!(pair[0].released_on < pair[1].released_on);
    }
}

#[test]
fn supports_unified_discovery_floor() {
    assert!(!supports_unified_discovery(None));
    assert!(!supports_unified_discovery(Some(&SemVer::new(0, 14, 0))));
    assert!(supports_unified_discovery(Some(&SemVer::new(0, 15, 0))));
    assert!(supports_unified_discovery(Some(&SemVer::new(1, 0, 0))));
}

#[test]
fn has_correct_docker_volume_mount_floor() {
    assert!(!has_correct_docker_volume_mount(None));
    assert!(!has_correct_docker_volume_mount(Some(&SemVer::new(0, 16, 0))));
    assert!(has_correct_docker_volume_mount(Some(&SemVer::new(0, 16, 1))));
}

#[test]
fn other_capability_floors() {
    let full = minimum_full_server_poll();
    assert!(supports_full_server_poll(Some(&full)));
    assert!(!supports_full_server_poll(None));
    let ident = minimum_server_provisioned_identity();
    assert!(supports_server_provisioned_identity(Some(&ident)));
    assert!(!supports_server_provisioned_identity(None));
}

#[test]
fn launch_date_is_unset_and_the_sunset_dormant() {
    assert!(v1_launch().is_none());
    assert!(policy_at(dt(2027, 1, 1)).announced_sunset.is_none());
}

#[test]
fn version_text_and_parse_agree() {
    let v = parse_version("1.2.3-rc.1+build.5").unwrap();
    assert_eq!((v.major, v.minor, v.patch), (1, 2, 3));
    assert_eq!(v.pre, "rc.1");
    assert_eq!(v.build, "build.5");
    assert_eq!(v.to_text(), "1.2.3-rc.1+build.5");
    assert!(parse_version("not a version").is_none());
    assert!(SemVer::new(0, 16, 9).precedes(&SemVer::new(0, 17, 0)));
    assert!(parse_version("1.0.0-alpha").unwrap().precedes(&SemVer::new(1, 0, 0)));
    assert!(!SemVer::new(1, 0, 0).precedes(&SemVer::new(1, 0, 0)));
}

#[test]
fn binding_rename_predates_sixteen() {
    assert!(pre_interface_to_ip_address_rename(None));
    assert!(pre_interface_to_ip_address_rename(Some("garbage")));
    assert!(pre_interface_to_ip_address_rename(Some("0.15.9")));
    assert!(!pre_interface_to_ip_address_rename(Some("0.16.0")));
}

#[test]
fn warnings_name_the_recommended_version() {
    let old = policy_at(dt(2026, 7, 27)).evaluate(Some(&SemVer::new(0, 16, 0)));
    assert_eq!(old.warnings.len(), 1);
    assert_eq!(old.warnings[0].message, "Daemon 0.16.0 is outdated. Update to 0.17.6 for the latest features.");
    assert_eq!(old.warnings[0].severity, DeprecationSeverity::Warning);
    let unknown = policy_at(dt(2026, 7, 27)).evaluate(None);
    assert_eq!(unknown.warnings[0].message, "Daemon version unknown. Update to 0.17.6 or later.");
    let gone = policy_at(dt(2026, 7, 27)).evaluate(Some(&SemVer::new(0, 11, 0)));
    assert_eq!(gone.status, VersionHealthStatus::Unsupported);
    assert_eq!(gone.warnings[0].severity, DeprecationSeverity::Critical);
    let policy = sunset_policy(dt(2026, 7, 27), SemVer::new(0, 17, 5), dt(2026, 10, 1));
    let dep = policy.evaluate(None);
    assert_eq!(
        dep.warnings[0].message,
        "This daemon (no reported version) is deprecated and support ends 2026-10-01. Update to 0.17.6 or later before then to avoid interruption."
    );
}
