use scanopy::credentials::service::{CredentialService, DependencySlot};
use scanopy::daemons::monitoring::{
    check_unverified_daemon_limit, daemon_url_is_insecure, discovery_event_action, inactivity_cutoff, insecure_daemon_url, is_loopback,
    latest_finish, scope_loopback_assignments, should_standby, CredentialAssignment, DaemonService,
    DiscoveryEventAction, DiscoveryPhaseEvent,
};
use scanopy::daemons::ssrf::{check_resolved_daemon_addrs, daemon_url_endpoint, is_private_ip, to_canonical, DaemonUrlRejection};
use scanopy::discovery::defaults;
use scanopy::discovery::scan_settings::{RescanSettings, ScanSettings};
use scanopy::net::IpAddress;

fn v4(a: u8, b: u8, c: u8, d: u8) -> IpAddress {
    IpAddress::V4(a, b, c, d)
}

fn mapped(a: u8, b: u8, c: u8, d: u8) -> IpAddress {
    IpAddress::V6(0xffff_0000_0000u128 | (a as u128) << 24 | (b as u128) << 16 | (c as u128) << 8 | d as u128)
}

#[test]
fn private_ranges_are_internal() {
    for ip in [v4(127, 0, 0, 1), v4(10, 1, 2, 3), v4(172, 16, 0, 1), v4(172, 31, 255, 255), v4(192, 168, 1, 1),
        v4(169, 254, 169, 254), v4(0, 0, 0, 0), v4(255, 255, 255, 255), v4(100, 64, 0, 1), v4(192, 0, 2, 5)]
    {
        assert!(is_private_ip(&ip), "{ip:?}");
    }
    for ip in [v4(8, 8, 8, 8), v4(172, 32, 0, 1), v4(100, 128, 0, 1), v4(1, 1, 1, 1)] {
        assert!(!is_private_ip(&ip), "{ip:?}");
    }
    assert!(is_private_ip(&IpAddress::V6(1)));
    assert!(is_private_ip(&IpAddress::V6(0xfd00u128 << 112)));
    assert!(is_private_ip(&IpAddress::V6(0xfe80u128 << 112)));
    assert!(!is_private_ip(&IpAddress::V6(0x2001_4860u128 << 96)));
}

#[test]
fn mapped_ipv4_cannot_slip_past() {
    assert_eq!(to_canonical(mapped(10, 0, 0, 1)), v4(10, 0, 0, 1));
    assert!(is_private_ip(&mapped(127, 0, 0, 1)));
    assert!(!is_private_ip(&mapped(8, 8, 8, 8)));
    assert_eq!(to_canonical(IpAddress::V6(1)), IpAddress::V6(1));
}

#[test]
fn cloud_refuses_internal_daemon_urls() {
    assert_eq!(check_resolved_daemon_addrs(true, &vec![v4(8, 8, 8, 8), v4(10, 0, 0, 2)]), Err(DaemonUrlRejection::InternalAddress));
    assert_eq!(check_resolved_daemon_addrs(true, &vec![v4(8, 8, 8, 8)]), Ok(()));
    assert_eq!(check_resolved_daemon_addrs(false, &vec![v4(10, 0, 0, 2)]), Ok(()));
}

#[test]
fn standby_after_thirty_idle_days() {
    let now = 1_800_000_000i64;
    let cutoff = inactivity_cutoff(now);
    assert_eq!(cutoff, now - 30 * 86400);
    assert_eq!(latest_finish(&vec![Some(5), None, Some(9), Some(7)]), Some(9));
    assert_eq!(latest_finish(&vec![None, None]), None);
    assert!(should_standby(None, cutoff));
    assert!(should_standby(Some(cutoff - 1), cutoff));
    assert!(!should_standby(Some(cutoff), cutoff));
}

#[test]
fn loopback_assignments_are_scoped() {
    assert!(is_loopback(&v4(127, 0, 0, 9)) && is_loopback(&IpAddress::V6(1)) && !is_loopback(&v4(10, 0, 0, 1)));
    let assignments = vec![
        CredentialAssignment { credential_id: 1, ip_address_ids: None },
        CredentialAssignment { credential_id: 2, ip_address_ids: None },
        CredentialAssignment { credential_id: 3, ip_address_ids: Some(vec![4]) },
    ];
    let (out, changed) = scope_loopback_assignments(assignments, &vec![true, false, true], 99);
    assert!(changed);
    assert_eq!(out[0].ip_address_ids, Some(vec![99]));
    assert_eq!(out[1].ip_address_ids, None);
    assert_eq!(out[2].ip_address_ids, Some(vec![4]));
    let (_, changed) = scope_loopback_assignments(vec![CredentialAssignment { credential_id: 1, ip_address_ids: None }], &vec![false], 99);
    assert!(!changed);
}

#[test]
fn plaintext_urls_warn_unless_local() {
    assert!(insecure_daemon_url("http", Some("edge.corp")));
    assert!(!insecure_daemon_url("https", Some("edge.corp")));
    assert!(!insecure_daemon_url("http", Some("localhost")));
    assert!(!insecure_daemon_url("http", Some("::1")));
    assert!(!insecure_daemon_url("http", None));
}

#[test]
fn unverified_orgs_get_one_daemon() {
    assert!(check_unverified_daemon_limit(false, 1, 1).is_err());
    assert!(check_unverified_daemon_limit(false, 1, 0).is_ok());
    assert!(check_unverified_daemon_limit(true, 1, 5).is_ok());
    assert!(check_unverified_daemon_limit(false, 0, 5).is_ok());
}

#[test]
fn discovery_events_for_server_polled_daemons() {
    assert_eq!(discovery_event_action(true, false, true, DiscoveryPhaseEvent::Started), DiscoveryEventAction::Queue);
    assert_eq!(
        discovery_event_action(true, false, false, DiscoveryPhaseEvent::Cancelled),
        DiscoveryEventAction::SendCancellation { with_api_key: false }
    );
    assert_eq!(discovery_event_action(false, false, true, DiscoveryPhaseEvent::Cancelled), DiscoveryEventAction::Skip);
    assert_eq!(discovery_event_action(true, true, true, DiscoveryPhaseEvent::Started), DiscoveryEventAction::Skip);
    assert_eq!(discovery_event_action(true, false, true, DiscoveryPhaseEvent::Other), DiscoveryEventAction::Skip);
}

#[test]
fn late_bound_services_are_set_once() {
    let mut d: DaemonService<&str> = DaemonService::new();
    assert_eq!(d.set_host_service("hosts"), Ok(()));
    assert_eq!(d.set_host_service("again"), Err("again"));
    let mut c: CredentialService<u8> = CredentialService::new();
    assert_eq!(c.set_host_service(1), Ok(()));
    assert_eq!(c.set_host_service(2), Err(2));
    let mut slot: DependencySlot<u8> = DependencySlot::new();
    assert_eq!(slot.get(), None);
    assert_eq!(slot.set(7), Ok(()));
    assert_eq!(slot.get(), Some(&7));
}

#[test]
fn scan_settings_log_defaults_and_overrides() {
    let s = ScanSettings { arp_retries: Some(5), is_full_scan: true, ..Default::default() };
    let lines = s.log_settings();
    assert_eq!(lines.len(), 11);
    assert_eq!(lines[1], "  Scan Settings:");
    assert_eq!(lines[2], format!("    {:<20}{} {}", "ARP rate:", "50 pps", "(default)"));
    assert_eq!(lines[3], format!("    {:<20}{} {}", "ARP retries:", "5", "(override)"));
    assert_eq!(lines[9], format!("    {:<20}{} {}", "ARP scan cutoff:", "/15", "(default)"));
    assert_eq!(lines[10], format!("    {:<20}{} {}", "Scan mode:", "Full (65k ports)", "(override)"));
    let f = s.formatted_lines();
    assert_eq!(f[6], ("Full scan interval:", "every 3 scans".to_string(), false));
}

#[test]
fn scan_field_ids_and_defaults() {
    let fields = ScanSettings::field_definitions();
    assert!(fields.iter().all(|f| f.id != "is_full_scan"));
    let ids: Vec<&str> = fields.iter().map(|f| f.id).collect();
    assert!(ids.contains(&"arp_retries") && ids.contains(&"max_discovery_duration"));
    assert_eq!(defaults::arp_retries(), 2);
    assert_eq!(defaults::arp_rate_pps(), 50);
    assert_eq!(defaults::scan_rate_pps(), 500);
    assert_eq!(defaults::port_scan_batch_size(), 200);
    assert_eq!(defaults::full_scan_interval(), 3);
    assert_eq!(defaults::arp_scan_cutoff(), 15);
    assert_eq!(defaults::max_discovery_duration(), 21600);
}

#[test]
fn rescan_settings_round_trip() {
    let r = RescanSettings { arp_retries: Some(1), scan_rate_pps: Some(10), port_scan_batch_size: None, probe_raw_socket_ports: true, use_npcap_arp: false };
    let wide = ScanSettings::from_rescan(&r);
    assert!(!wide.is_full_scan);
    assert_eq!(wide.arp_rate_pps, None);
    assert_eq!(RescanSettings::from_scan(&wide), r);
}

#[test]
fn daemon_url_endpoint_reads_host_and_port() {
    assert_eq!(daemon_url_endpoint("https://edge.corp:60073/api"), Ok(("edge.corp".to_string(), 60073)));
    assert_eq!(daemon_url_endpoint("http://Edge.Corp"), Ok(("edge.corp".to_string(), 80)));
    assert_eq!(daemon_url_endpoint("https://10.0.0.2"), Ok(("10.0.0.2".to_string(), 443)));
    assert_eq!(daemon_url_endpoint("foo://edge.corp"), Ok(("edge.corp".to_string(), 80)));
}

#[test]
fn daemon_url_endpoint_refuses_unparsable_or_hostless_urls() {
    assert_eq!(daemon_url_endpoint("not a url"), Err(DaemonUrlRejection::InvalidUrl));
    assert_eq!(daemon_url_endpoint("/relative/path"), Err(DaemonUrlRejection::InvalidUrl));
    assert_eq!(daemon_url_endpoint("mailto:ops@edge.corp"), Err(DaemonUrlRejection::NoHost));
    assert_eq!(daemon_url_endpoint("data:text/plain,x"), Err(DaemonUrlRejection::NoHost));
}

#[test]
fn plaintext_warning_reads_the_url() {
    assert!(daemon_url_is_insecure("http://edge.corp:60073"));
    assert!(!daemon_url_is_insecure("https://edge.corp:60073"));
    assert!(!daemon_url_is_insecure("http://localhost:60073"));
    assert!(!daemon_url_is_insecure("not a url"));
    assert!(!daemon_url_is_insecure("mailto:ops@edge.corp"));
}
