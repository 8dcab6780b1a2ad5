use scanopy::discovery::config::{validate_timezone, DiscoveryConfig, RunKind, ScopedTarget};

/// The other scopes a target may have, with their credential.
#[derive(Debug, Clone, PartialEq)]
enum Scope {
    DaemonHost(u128),
    Hosts(u128, Vec<&'static str>),
}

fn credential_id(t: &ScopedTarget<Scope>) -> u128 {
    match t {
        ScopedTarget::Network { credential_id } => *credential_id,
        ScopedTarget::Other(Scope::DaemonHost(id)) => *id,
        ScopedTarget::Other(Scope::Hosts(id, _)) => *id,
    }
}

fn discovery(integration_targets: Vec<ScopedTarget<Scope>>) -> DiscoveryConfig<Scope> {
    DiscoveryConfig { run_type: RunKind::AdHoc, scan_count: 0, force_full_scan: true, integration_targets }
}

fn new_id() -> u128 {
    uuid::Uuid::new_v4().as_u128()
}

#[test]
fn only_broadcast_targets_are_taken_for_migration() {
    let broadcast = new_id();
    let socket = new_id();
    let host_scoped = new_id();
    let mut d = discovery(vec![
        ScopedTarget::Other(Scope::DaemonHost(socket)),
        ScopedTarget::Network { credential_id: broadcast },
        ScopedTarget::Other(Scope::Hosts(host_scoped, vec!["10.0.0.7"])),
    ]);
    assert_eq!(d.take_network_scope_credential_ids(), vec![broadcast]);
    assert_eq!(
        d.integration_targets.iter().map(credential_id).collect::<Vec<_>>(),
        vec![socket, host_scoped],
        "the promotable scopes stay for the prune to take"
    );
}

#[test]
fn a_successful_scan_consumes_every_remaining_target() {
    let mut d = discovery(vec![
        ScopedTarget::Other(Scope::DaemonHost(new_id())),
        ScopedTarget::Other(Scope::Hosts(new_id(), vec!["10.0.0.7"])),
    ]);
    d.apply_successful_scan();
    assert!(d.integration_targets.is_empty());
    assert_eq!(d.scan_count, 1);
    assert!(!d.force_full_scan);
}

#[test]
fn disabling_only_touches_schedules() {
    let mut d: DiscoveryConfig<Scope> = DiscoveryConfig {
        run_type: RunKind::Scheduled { enabled: true, timezone: Some("Europe/Paris".to_string()) },
        scan_count: 3,
        force_full_scan: false,
        integration_targets: vec![],
    };
    d.disable();
    match &d.run_type {
        RunKind::Scheduled { enabled, timezone } => {
            assert!(!enabled);
            assert_eq!(timezone.as_deref(), Some("Europe/Paris"));
        }
        _ => panic!("kind changed"),
    }
    assert_eq!(d.scan_count, 3);
    let mut h: DiscoveryConfig<Scope> = discovery(vec![]);
    h.run_type = RunKind::Historical { finished_at: Some(5) };
    h.disable();
    assert!(matches!(h.run_type, RunKind::Historical { finished_at: Some(5) }));
}

#[test]
fn timezones_must_be_iana_names() {
    assert!(validate_timezone(&RunKind::Scheduled { enabled: true, timezone: Some("America/New_York".to_string()) }).is_ok());
    assert!(validate_timezone(&RunKind::Scheduled { enabled: true, timezone: None }).is_ok());
    assert!(validate_timezone(&RunKind::AdHoc).is_ok());
    let err = validate_timezone(&RunKind::Scheduled { enabled: true, timezone: Some("Mars/Olympus".to_string()) }).unwrap_err();
    assert_eq!(err.message, "Invalid timezone 'Mars/Olympus'. Use an IANA timezone like 'America/New_York'.");
}
