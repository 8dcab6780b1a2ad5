use scanopy::credentials::metadata::{logo_extension, CredentialCategory, CredentialTypeDiscriminants};
use scanopy::credentials::secrets::{
    normalize_file_or_inline, normalize_secret_value, secret_output, ExposeSecretsGuard, FileOrInline, SecretValue,
    REDACTED_SECRET_SENTINEL,
};
use scanopy::credentials::unifi::{
    default_unifi_port, default_unifi_site, BannerFieldValue, ResolvableSecret, UnifiAuth, UnifiQueryCredential,
};
use scanopy::digest::{
    affected_host_ids, card_has_fresh_children, compute_digest_status, digest_window, drop_loopback_subnets,
    route_cards, subnets_to_report, CardFreshness, DigestSections, DigestWindow, DiscoveryDigestFlags,
    EntityDigestStatus, HostCardEntry, TrackedEntity, children_by_host, ChildStatus, HostedChild, HostedIp,
    HostedService, ScannedEntityIds,
};
use scanopy::net::IpAddress;

#[test]
fn secrets_are_redacted_unless_exposed() {
    let mut exposing = false;
    assert_eq!(secret_output(exposing, "hunter2"), REDACTED_SECRET_SENTINEL);
    let outer = ExposeSecretsGuard::new(&mut exposing);
    assert!(exposing);
    assert_eq!(secret_output(exposing, "hunter2"), "hunter2");
    let inner = ExposeSecretsGuard::new(&mut exposing);
    inner.finish(&mut exposing);
    assert!(exposing, "the outer guard is still active");
    outer.finish(&mut exposing);
    assert!(!exposing);
}

#[test]
fn sentinel_and_secret_comparison() {
    let redacted = SecretValue::Inline { value: "********".to_string() };
    assert!(redacted.is_redacted_sentinel());
    assert!(!SecretValue::FilePath { path: "********".to_string() }.is_redacted_sentinel());
    let a = SecretValue::Inline { value: "x".to_string() };
    assert!(a.same_as(&SecretValue::Inline { value: "x".to_string() }));
    assert!(!a.same_as(&SecretValue::FilePath { path: "x".to_string() }));
}

#[test]
fn blank_values_read_as_absent() {
    assert!(normalize_secret_value(Some(SecretValue::Inline { value: "  \t".to_string() })).is_none());
    assert!(normalize_secret_value(Some(SecretValue::FilePath { path: "/etc/key".to_string() })).is_some());
    assert!(normalize_secret_value(None).is_none());
    assert!(normalize_file_or_inline(Some(FileOrInline::Inline { value: String::new() })).is_none());
    match normalize_file_or_inline(Some(FileOrInline::Inline { value: " ca ".to_string() })) {
        Some(FileOrInline::Inline { value }) => assert_eq!(value, " ca "),
        _ => panic!("kept as is"),
    }
}

#[test]
fn unifi_banner_lines() {
    let c = UnifiQueryCredential {
        port: default_unifi_port(),
        site: default_unifi_site(),
        auth: UnifiAuth::LocalAdmin { username: "admin".to_string(), password: ResolvableSecret { banner: "********".to_string() } },
    };
    let lines = c.banner_lines();
    let labels: Vec<&str> = lines.iter().map(|l| l.label).collect();
    assert_eq!(labels, vec!["Port", "Site", "Username", "Password"]);
    assert!(matches!(&lines[0].value, BannerFieldValue::Plain(p) if p == "443"));
    assert!(matches!(&lines[1].value, BannerFieldValue::Plain(s) if s == "default"));
    assert!(matches!(&lines[3].value, BannerFieldValue::Secret(s) if s == "********"));
    let k = UnifiQueryCredential { port: 8443, site: "lab".to_string(), auth: UnifiAuth::ApiKey { api_key: ResolvableSecret { banner: "file: /k".to_string() } } };
    assert_eq!(k.banner_lines().len(), 3);
}

#[test]
fn credential_kind_names() {
    assert_eq!(CredentialTypeDiscriminants::SnmpV2c.id(), "SnmpV2c");
    assert_eq!(CredentialTypeDiscriminants::DockerSocket.id(), "DockerSocket");
    assert!(!CredentialTypeDiscriminants::PodmanProxy.name().is_empty());
    assert_eq!(CredentialCategory::NetworkMonitoring.label(), "Network Monitoring");
}

#[test]
fn logo_extensions() {
    assert_eq!(logo_extension("https://cdn.x/logo.png?v=2"), "png");
    assert_eq!(logo_extension("https://cdn.x/logo.webp"), "webp");
    assert_eq!(logo_extension("https://cdn.x/logo.gif"), "svg");
    assert_eq!(logo_extension("/local/logo.png"), "");
    assert_eq!(logo_extension(""), "");
}

fn window() -> DigestWindow {
    DigestWindow { t_start: 100, t_end: 200, d1: Some(7), d_dropped: Some(3), recent: vec![7, 6, 5] }
}

#[test]
fn digest_status_of_entities() {
    let scanned = vec![1u128, 2];
    let w = window();
    let created_now = TrackedEntity { id: 1, created_at: 150, last_discovery_id: Some(9) };
    assert_eq!(compute_digest_status(&created_now, &scanned, &w), (EntityDigestStatus::New, true));
    let old = TrackedEntity { id: 2, created_at: 50, last_discovery_id: Some(9) };
    assert_eq!(compute_digest_status(&old, &scanned, &w), (EntityDigestStatus::Unchanged, false));
    let just_missed = TrackedEntity { id: 3, created_at: 50, last_discovery_id: Some(7) };
    assert_eq!(compute_digest_status(&just_missed, &scanned, &w), (EntityDigestStatus::PossiblyMissing, true));
    let older_miss = TrackedEntity { id: 4, created_at: 50, last_discovery_id: Some(6) };
    assert_eq!(compute_digest_status(&older_miss, &scanned, &w), (EntityDigestStatus::PossiblyMissing, false));
    let dropped = TrackedEntity { id: 5, created_at: 50, last_discovery_id: Some(3) };
    assert_eq!(compute_digest_status(&dropped, &scanned, &w), (EntityDigestStatus::Missing, true));
    let never = TrackedEntity { id: 6, created_at: 50, last_discovery_id: None };
    assert_eq!(compute_digest_status(&never, &scanned, &w), (EntityDigestStatus::Missing, false));
}

#[test]
fn digest_cards_and_sections() {
    let quiet = CardFreshness { services: vec![false], ip_addresses: vec![], interfaces: vec![false], ports: vec![] };
    assert!(!card_has_fresh_children(&quiet));
    let fresh = CardFreshness { services: vec![false], ip_addresses: vec![], interfaces: vec![], ports: vec![false, true] };
    assert!(card_has_fresh_children(&fresh));
    let scans_only = DigestSections { subnets_scanned: 4, hosts_added: 0, hosts_stale: 0, hosts_changed: 0, vlans_added: 0, vlans_stale: 0 };
    assert!(!scans_only.has_changes());
    let changed = DigestSections { vlans_stale: 1, ..scans_only };
    assert!(changed.has_changes());
    assert!(!DiscoveryDigestFlags::default().suppress_logs);
}

#[test]
fn digest_window_takes_the_grace_sessions() {
    let w = digest_window(10, 20, &vec![4, 3, 2, 1]);
    assert_eq!(w.recent, vec![4, 3, 2]);
    assert_eq!(w.d1, Some(3));
    assert_eq!(w.d_dropped, Some(1));
    let short = digest_window(10, 20, &vec![9]);
    assert_eq!(short.recent, vec![9]);
    assert_eq!(short.d1, None);
    assert_eq!(short.d_dropped, None);
}

#[test]
fn digest_subnets_prefer_targets_and_drop_loopback() {
    assert_eq!(subnets_to_report(Some(&vec![7]), &vec![1, 2]), vec![7]);
    assert_eq!(subnets_to_report(Some(&vec![]), &vec![1, 2]), vec![1, 2]);
    assert_eq!(subnets_to_report(None, &vec![1]), vec![1]);
    let subnets = vec![(1, IpAddress::V4(10, 0, 0, 0)), (2, IpAddress::V4(127, 0, 0, 0)), (3, IpAddress::V6(1))];
    assert_eq!(drop_loopback_subnets(&subnets), vec![1]);
}

#[test]
fn affected_hosts_and_card_routing() {
    let b = vec![
        (1, EntityDigestStatus::New, true),
        (2, EntityDigestStatus::Unchanged, false),
        (3, EntityDigestStatus::Missing, false),
        (4, EntityDigestStatus::PossiblyMissing, true),
    ];
    assert_eq!(affected_host_ids(&b), vec![1, 2, 4]);
    let entry = |label: &str, status, is_fresh, has_fresh_children| HostCardEntry {
        label: label.to_string(),
        status,
        is_fresh,
        has_fresh_children,
    };
    let e = vec![
        entry("zeta", EntityDigestStatus::Unchanged, false, true),
        entry("new-host", EntityDigestStatus::New, true, false),
        entry("alpha", EntityDigestStatus::Unchanged, false, true),
        entry("quiet", EntityDigestStatus::Unchanged, false, false),
        entry("gone", EntityDigestStatus::Missing, true, false),
        entry("alpha", EntityDigestStatus::Unchanged, false, true),
        entry("stale-old", EntityDigestStatus::Missing, false, false),
    ];
    let r = route_cards(&e);
    assert_eq!(r.added, vec![1]);
    assert_eq!(r.vanished, vec![4]);
    assert_eq!(r.changed, vec![2, 5, 0]);
}

fn hosted(host_id: u128, id: u128, last: Option<u128>) -> HostedChild {
    HostedChild { host_id, entity: TrackedEntity { id, created_at: 0, last_discovery_id: last } }
}

#[test]
fn children_are_grouped_by_host_without_noise() {
    let window = DigestWindow { t_start: 100, t_end: 200, d1: Some(7), d_dropped: None, recent: vec![7] };
    let scanned = ScannedEntityIds { service_ids: vec![11], ip_address_ids: vec![], interface_ids: vec![], port_ids: vec![41] };
    let services = vec![
        HostedService { child: hosted(1, 11, None), is_open_ports: false },
        HostedService { child: hosted(1, 12, Some(7)), is_open_ports: true },
    ];
    let ips = vec![
        HostedIp { child: hosted(1, 21, Some(7)), address: IpAddress::V4(127, 0, 0, 1) },
        HostedIp { child: hosted(2, 22, Some(7)), address: IpAddress::V4(10, 0, 0, 5) },
    ];
    let ports = vec![hosted(3, 41, None)];
    let r = children_by_host(&vec![1, 2, 1], &services, &ips, &vec![], &ports, &scanned, &window);
    let mut keys: Vec<u128> = r.iter().map(|c| c.host_id).collect();
    keys.sort();
    assert_eq!(keys, vec![1, 2, 3]);
    let one = r.iter().find(|c| c.host_id == 1).unwrap();
    assert_eq!(one.services, vec![ChildStatus { id: 11, status: EntityDigestStatus::Unchanged, is_fresh: false }]);
    assert!(one.ip_addresses.is_empty());
    let two = r.iter().find(|c| c.host_id == 2).unwrap();
    assert_eq!(two.ip_addresses, vec![ChildStatus { id: 22, status: EntityDigestStatus::PossiblyMissing, is_fresh: true }]);
    let three = r.iter().find(|c| c.host_id == 3).unwrap();
    assert_eq!(three.ports.len(), 1);
    assert!(children_by_host(&vec![], &services, &ips, &vec![], &ports, &scanned, &window).is_empty());
}
