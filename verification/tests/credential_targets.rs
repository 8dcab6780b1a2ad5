use scanopy::credentials::targets::{first_conflict, CredentialHostAssignment, CredentialTargets};
use scanopy::net::IpAddress;

fn ip(n: u8) -> IpAddress {
    IpAddress::V4(127, 0, 0, n)
}

fn host(id: u128, ips: Option<Vec<u128>>) -> CredentialHostAssignment {
    CredentialHostAssignment { host_id: id, ip_address_ids: ips }
}

#[test]
fn disjoint_targets_do_not_overlap() {
    let a = CredentialTargets::build(&vec![0u128], &vec![], Some(&vec![ip(1)]));
    let b = CredentialTargets::build(&vec![9u128], &vec![], Some(&vec![ip(2)]));
    assert!(!a.overlaps(&b));
}

#[test]
fn shared_network_overlaps() {
    let net: u128 = 1;
    let a = CredentialTargets::build(&vec![net], &vec![], None);
    let b = CredentialTargets::build(&vec![net], &vec![], None);
    assert!(a.overlaps(&b));
}

#[test]
fn shared_target_ip_overlaps_including_daemon_host() {
    let a = CredentialTargets::build(&vec![], &vec![], Some(&vec![ip(1)]));
    let b = CredentialTargets::build(&vec![], &vec![], Some(&vec![ip(1)]));
    assert!(a.overlaps(&b));
}

#[test]
fn same_host_whole_host_overlaps() {
    let h: u128 = 5;
    let a = CredentialTargets::build(&vec![], &vec![host(h, None)], None);
    let b = CredentialTargets::build(&vec![], &vec![host(h, Some(vec![2]))], None);
    assert!(a.overlaps(&b));
}

#[test]
fn same_host_disjoint_ip_scopes_do_not_overlap() {
    let h: u128 = 5;
    let a = CredentialTargets::build(&vec![], &vec![host(h, Some(vec![1]))], None);
    let b = CredentialTargets::build(&vec![], &vec![host(h, Some(vec![2]))], None);
    assert!(!a.overlaps(&b));
}

#[test]
fn same_host_intersecting_ip_scopes_overlap() {
    let h: u128 = 5;
    let shared: u128 = 7;
    let a = CredentialTargets::build(&vec![], &vec![host(h, Some(vec![shared, 1]))], None);
    let b = CredentialTargets::build(&vec![], &vec![host(h, Some(vec![shared]))], None);
    assert!(a.overlaps(&b));
}

#[test]
fn different_hosts_do_not_overlap() {
    let a = CredentialTargets::build(&vec![], &vec![host(1, None)], None);
    let b = CredentialTargets::build(&vec![], &vec![host(2, None)], None);
    assert!(!a.overlaps(&b));
}

#[test]
fn overlap_is_symmetric_on_examples() {
    let a = CredentialTargets::build(&vec![3], &vec![host(5, Some(vec![1, 2]))], Some(&vec![ip(4)]));
    let b = CredentialTargets::build(&vec![], &vec![host(5, Some(vec![2]))], None);
    let c = CredentialTargets::build(&vec![8], &vec![host(6, None)], Some(&vec![ip(9)]));
    assert_eq!(a.overlaps(&b), b.overlaps(&a));
    assert_eq!(a.overlaps(&c), c.overlaps(&a));
    assert!(a.overlaps(&b));
    assert!(!a.overlaps(&c));
}

#[test]
fn first_conflict_reports_earliest_overlapping_credential() {
    let candidate = CredentialTargets::build(&vec![1], &vec![], None);
    let others = vec![
        CredentialTargets::build(&vec![2], &vec![], None),
        CredentialTargets::build(&vec![1], &vec![], None),
        CredentialTargets::build(&vec![1, 3], &vec![], None),
    ];
    assert_eq!(first_conflict(&candidate, &others), Some(1));
    assert_eq!(first_conflict(&candidate, &vec![]), None);
}
