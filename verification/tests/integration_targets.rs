use scanopy::credentials::mapping::{
    apply_host_assignment, apply_integration_target, apply_network_credential, CredentialMapping, CredentialMappings,
    IntegrationTarget, NetworkIpAddress,
};
use scanopy::credentials::metadata::CredentialTypeDiscriminants;
use scanopy::net::IpAddress;

type Mappings = CredentialMappings<&'static str>;

fn localhost() -> IpAddress {
    IpAddress::V4(127, 0, 0, 1)
}

fn get(map: &Mappings, kind: CredentialTypeDiscriminants) -> Option<&CredentialMapping<&'static str>> {
    map.get(kind)
}

fn new_id() -> u128 {
    uuid::Uuid::new_v4().as_u128()
}

#[test]
fn two_daemons_share_one_credential_independently() {
    let cred_id = new_id();
    let target = IntegrationTarget::Credentialed { credential_id: cred_id, ips: vec![localhost()] };
    let resolved = Some((CredentialTypeDiscriminants::DockerProxy, "docker-proxy"));

    let mut daemon_a: Mappings = CredentialMappings::new();
    let mut daemon_b: Mappings = CredentialMappings::new();
    apply_integration_target(&mut daemon_a, &target, resolved, "unused");
    apply_integration_target(&mut daemon_b, &target, resolved, "unused");

    for map in [&daemon_a, &daemon_b] {
        let mapping = get(map, CredentialTypeDiscriminants::DockerProxy).expect("each daemon gets the docker mapping");
        assert_eq!(mapping.ip_overrides.len(), 1);
        assert_eq!(mapping.ip_overrides[0].ip, localhost());
        assert_eq!(mapping.ip_overrides[0].credential_id, cred_id);
    }

    match &target {
        IntegrationTarget::Credentialed { credential_id, ips } => {
            assert_eq!(*credential_id, cred_id);
            assert_eq!(ips, &vec![localhost()]);
        }
        IntegrationTarget::Local { .. } => panic!("target changed kind"),
    }
}

#[test]
fn reapplying_same_target_is_idempotent() {
    let cred_id = new_id();
    let target = IntegrationTarget::Credentialed { credential_id: cred_id, ips: vec![localhost()] };
    let resolved = Some((CredentialTypeDiscriminants::DockerProxy, "docker-proxy"));
    let mut map: Mappings = CredentialMappings::new();
    apply_integration_target(&mut map, &target, resolved, "unused");
    apply_integration_target(&mut map, &target, resolved, "unused");
    let mapping = get(&map, CredentialTypeDiscriminants::DockerProxy).unwrap();
    assert_eq!(mapping.ip_overrides.len(), 1, "subsequent scans must not duplicate the override");
}

#[test]
fn local_socket_target_maps_to_localhost_nil_credential() {
    let target = IntegrationTarget::Local { integration: CredentialTypeDiscriminants::DockerSocket };
    let mut map: Mappings = CredentialMappings::new();
    apply_integration_target(&mut map, &target, None, "docker-socket");
    let mapping = get(&map, CredentialTypeDiscriminants::DockerSocket).unwrap();
    assert_eq!(mapping.ip_overrides.len(), 1);
    assert_eq!(mapping.ip_overrides[0].ip, localhost());
    assert_eq!(mapping.ip_overrides[0].credential_id, 0u128);
    assert_eq!(mapping.ip_overrides[0].credential, "docker-socket");
}

#[test]
fn missing_credential_is_skipped() {
    let target = IntegrationTarget::Credentialed { credential_id: new_id(), ips: vec![localhost()] };
    let mut map: Mappings = CredentialMappings::new();
    apply_integration_target(&mut map, &target, None, "unused");
    assert!(map.is_empty());
}

#[test]
fn empty_ips_sets_network_default_not_override() {
    let target = IntegrationTarget::Credentialed { credential_id: new_id(), ips: vec![] };
    let mut map: Mappings = CredentialMappings::new();
    apply_integration_target(&mut map, &target, Some((CredentialTypeDiscriminants::SnmpV2c, "snmp")), "unused");
    let mapping = get(&map, CredentialTypeDiscriminants::SnmpV2c).unwrap();
    assert!(mapping.ip_overrides.is_empty());
    assert!(mapping.default_credential.is_some());
}

#[test]
fn local_target_keeps_existing_localhost_override() {
    let target = IntegrationTarget::Local { integration: CredentialTypeDiscriminants::PodmanSocket };
    let mut map: Mappings = CredentialMappings::new();
    apply_integration_target(&mut map, &target, None, "first");
    apply_integration_target(&mut map, &target, None, "second");
    let mapping = get(&map, CredentialTypeDiscriminants::PodmanSocket).unwrap();
    assert_eq!(mapping.ip_overrides.len(), 1);
    assert_eq!(mapping.ip_overrides[0].credential, "first");
}

#[test]
fn default_is_not_replaced_by_a_second_credential() {
    let mut map: Mappings = CredentialMappings::new();
    let first = IntegrationTarget::Credentialed { credential_id: 1, ips: vec![] };
    let second = IntegrationTarget::Credentialed { credential_id: 2, ips: vec![] };
    apply_integration_target(&mut map, &first, Some((CredentialTypeDiscriminants::SnmpV1, "a")), "unused");
    apply_integration_target(&mut map, &second, Some((CredentialTypeDiscriminants::SnmpV1, "b")), "unused");
    assert_eq!(map.len(), 1);
    assert_eq!(get(&map, CredentialTypeDiscriminants::SnmpV1).unwrap().default_credential, Some("a"));
}

#[test]
fn network_credentials_set_the_first_default_per_kind() {
    let mut map: Mappings = CredentialMappings::new();
    apply_network_credential(&mut map, CredentialTypeDiscriminants::SnmpV2c, "first");
    apply_network_credential(&mut map, CredentialTypeDiscriminants::SnmpV2c, "second");
    apply_network_credential(&mut map, CredentialTypeDiscriminants::SnmpV3, "v3");
    assert_eq!(map.len(), 2);
    assert_eq!(get(&map, CredentialTypeDiscriminants::SnmpV2c).unwrap().default_credential, Some("first"));
    assert_eq!(get(&map, CredentialTypeDiscriminants::SnmpV3).unwrap().default_credential, Some("v3"));
}

#[test]
fn host_assignments_override_the_covered_addresses() {
    let addrs = vec![
        NetworkIpAddress { id: 1, host_id: 10, ip: IpAddress::V4(10, 0, 0, 1) },
        NetworkIpAddress { id: 2, host_id: 10, ip: IpAddress::V4(10, 0, 0, 2) },
        NetworkIpAddress { id: 3, host_id: 11, ip: IpAddress::V4(10, 0, 0, 3) },
    ];
    let mut map: Mappings = CredentialMappings::new();
    apply_host_assignment(&mut map, CredentialTypeDiscriminants::DockerProxy, "docker", 77, 10, None, &addrs);
    let m = get(&map, CredentialTypeDiscriminants::DockerProxy).unwrap();
    let ips: Vec<IpAddress> = m.ip_overrides.iter().map(|o| o.ip).collect();
    assert_eq!(ips, vec![IpAddress::V4(10, 0, 0, 1), IpAddress::V4(10, 0, 0, 2)]);
    assert!(m.ip_overrides.iter().all(|o| o.credential_id == 77));
    assert_eq!(m.default_credential, None);

    let mut scoped: Mappings = CredentialMappings::new();
    apply_host_assignment(&mut scoped, CredentialTypeDiscriminants::SnmpV1, "snmp", 5, 10, Some(&vec![2, 3]), &addrs);
    let m = get(&scoped, CredentialTypeDiscriminants::SnmpV1).unwrap();
    assert_eq!(m.ip_overrides.len(), 1);
    assert_eq!(m.ip_overrides[0].ip, IpAddress::V4(10, 0, 0, 2));
}

#[test]
fn mappings_start_empty_and_find_kinds() {
    let mut map: Mappings = CredentialMappings::new();
    assert!(map.is_empty());
    assert!(map.get(CredentialTypeDiscriminants::SnmpV2c).is_none());
    apply_network_credential(&mut map, CredentialTypeDiscriminants::SnmpV2c, "community");
    assert_eq!(map.len(), 1);
    assert_eq!(map.get(CredentialTypeDiscriminants::SnmpV2c).unwrap().default_credential, Some("community"));
}
