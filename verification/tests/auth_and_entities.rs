use scanopy::auth::dns::{after_address_lookup, after_mx_lookup, DomainCheck, LookupOutcome};
use scanopy::auth::hosts::{check_demo_login, demo_allows, demo_gate, is_demo_host, is_demo_only_host, DemoGate, DemoLoginRefusal, RequestCaller};
use scanopy::auth::oidc::{check_oidc_callback, choose_oidc_flow, link_flow_redirect, OidcAuthorizeError, OidcCallbackError, OidcFlow};
use scanopy::auth::password::{check_password_policy, validate_password_complexity};
use scanopy::auth::provision::{
    choose_provision_org, error_redirect_url, url_encode, PendingNetworkSetup, PendingSetup, ProvisionOrg,
};
use scanopy::auth::requests::UseCase;
use scanopy::billing::plan::{BillingPlan, PlanConfig};
use scanopy::bindings::{check_binding_conflict, superseded_bindings, Binding, BindingConflict, BindingType};
use scanopy::daemon_api_keys::{suppress_update_logs, validate_access, DaemonApiKey, DaemonApiKeyBase, KeyAccessError};
use scanopy::dashboard::plan_usage;
use scanopy::dependencies::{DependencyMembers, DependencyType};

#[test]
fn deliverability_fails_open() {
    assert_eq!(after_mx_lookup(LookupOutcome::Answered { has_records: true }), Some(DomainCheck::Deliverable));
    assert_eq!(after_mx_lookup(LookupOutcome::NoRecords), None);
    assert_eq!(after_mx_lookup(LookupOutcome::TimedOut), Some(DomainCheck::Inconclusive));
    assert_eq!(after_address_lookup(LookupOutcome::NoRecords), DomainCheck::Undeliverable);
    assert_eq!(after_address_lookup(LookupOutcome::Answered { has_records: false }), DomainCheck::Undeliverable);
    assert_eq!(after_address_lookup(LookupOutcome::Failed), DomainCheck::Inconclusive);
}

#[test]
fn demo_hosts_and_logins() {
    assert!(is_demo_host("demo.scanopy.net"));
    assert!(is_demo_host("localhost:5173"));
    assert!(!is_demo_host("app.scanopy.net"));
    assert!(is_demo_only_host("demo.scanopy.net:443"));
    assert!(!is_demo_only_host("localhost"));
    assert_eq!(check_demo_login(Some(true), "app.scanopy.net"), Err(DemoLoginRefusal::DemoAccountElsewhere));
    assert_eq!(check_demo_login(Some(true), "demo.scanopy.net"), Ok(()));
    assert_eq!(check_demo_login(Some(false), "demo.scanopy.net"), Err(DemoLoginRefusal::OnlyDemoHere));
    assert_eq!(check_demo_login(None, "demo.scanopy.net"), Err(DemoLoginRefusal::OnlyDemoHere));
    assert_eq!(check_demo_login(None, "app.scanopy.net"), Ok(()));
}

#[test]
fn demo_mode_blocks_mutations_for_non_owners() {
    let user = RequestCaller::User { organization_id: 7, owner: false };
    assert_eq!(demo_gate(true, "/api/hosts", &user), DemoGate::Allow);
    assert_eq!(demo_gate(false, "/api/auth/login", &user), DemoGate::Allow);
    assert_eq!(demo_gate(false, "/api/hosts", &user), DemoGate::CheckOrganization { organization_id: 7, owner: false });
    assert_eq!(demo_gate(false, "/api/hosts", &RequestCaller::Daemon { organization_id: None }), DemoGate::Allow);
    assert_eq!(
        demo_gate(false, "/api/hosts", &RequestCaller::Daemon { organization_id: Some(3) }),
        DemoGate::CheckOrganization { organization_id: 3, owner: false }
    );
    assert_eq!(demo_gate(false, "/api/hosts", &RequestCaller::Other), DemoGate::Allow);
    assert!(!demo_allows(Some(true), false));
    assert!(demo_allows(Some(true), true));
    assert!(demo_allows(Some(false), false));
    assert!(demo_allows(None, false));
}

#[test]
fn oidc_flows() {
    assert_eq!(choose_oidc_flow(Some("login"), true, true, true, None), Ok(OidcFlow::Login));
    assert_eq!(choose_oidc_flow(Some("register"), true, false, false, None), Err(OidcAuthorizeError::DemoSiteRegistration));
    assert_eq!(choose_oidc_flow(Some("register"), false, true, false, None), Err(OidcAuthorizeError::RegistrationDisabled));
    assert_eq!(choose_oidc_flow(Some("register"), false, false, true, Some(false)), Err(OidcAuthorizeError::TermsNotAccepted));
    assert_eq!(choose_oidc_flow(Some("register"), false, false, true, Some(true)), Ok(OidcFlow::Register));
    assert_eq!(choose_oidc_flow(Some("register"), false, false, false, None), Ok(OidcFlow::Register));
    assert_eq!(choose_oidc_flow(Some("link"), false, false, false, None), Ok(OidcFlow::Link));
    let bad = choose_oidc_flow(Some("steal"), false, false, false, None).unwrap_err();
    assert_eq!(bad.message(), "Invalid flow 'steal'. Must be 'login', 'register', or 'link'");
    assert_eq!(choose_oidc_flow(None, false, false, false, None), Err(OidcAuthorizeError::MissingFlow));
}

#[test]
fn oidc_callback_checks_in_order() {
    assert_eq!(check_oidc_callback(None, None, None, "g", "s"), Err(OidcCallbackError::NoReturnUrl));
    assert_eq!(check_oidc_callback(Some("/r"), None, None, "g", "s"), Err(OidcCallbackError::NoPendingAuth));
    assert_eq!(check_oidc_callback(Some("/r"), Some("s"), None, "g", "s"), Err(OidcCallbackError::NoProviderSlug));
    assert_eq!(check_oidc_callback(Some("/r"), Some("s"), Some("h"), "g", "s"), Err(OidcCallbackError::ProviderMismatch));
    assert_eq!(check_oidc_callback(Some("/r"), Some("t"), Some("g"), "g", "s"), Err(OidcCallbackError::InvalidCsrfToken));
    assert_eq!(check_oidc_callback(Some("https://app.example/r"), Some("s"), Some("g"), "g", "s"), Ok("https://app.example/r".to_string()));
    assert_eq!(check_oidc_callback(Some("HTTPS://App.Example"), Some("s"), Some("g"), "g", "s"), Ok("https://app.example/".to_string()));
    assert_eq!(check_oidc_callback(Some("/r"), Some("s"), Some("g"), "g", "s"), Err(OidcCallbackError::InvalidReturnUrl));
    assert!(!OidcCallbackError::InvalidReturnUrl.at_return_url());
    assert_eq!(OidcCallbackError::InvalidReturnUrl.message(), "Invalid return URL");
    assert!(!OidcCallbackError::NoReturnUrl.at_return_url());
    assert!(OidcCallbackError::InvalidCsrfToken.at_return_url());
}

#[test]
fn password_policy_edges() {
    assert!(check_password_policy("Abcdefghi1").is_ok());
    let e = check_password_policy("Abc1").unwrap_err();
    assert!(e.too_short && !e.lacks_complexity);
    let e = check_password_policy("abcdefghijkl").unwrap_err();
    assert!(!e.too_short && e.lacks_complexity);
    assert!(validate_password_complexity("ÉcoleX1").is_ok());
    assert!(validate_password_complexity("ALLUPPER123").is_err());
}

#[test]
fn registration_provisions_invited_or_new_org() {
    let pending = || PendingSetup {
        org_name: "Acme".to_string(),
        network: PendingNetworkSetup { name: "HQ".to_string(), network_id: 5 },
        use_case: UseCase::Homelab,
    };
    assert!(matches!(choose_provision_org(Some(9), Some(pending()), None), Some(ProvisionOrg::Existing(9))));
    match choose_provision_org(None, Some(pending()), Some(UseCase::Msp)) {
        Some(ProvisionOrg::New(s)) => {
            assert_eq!(s.use_case, UseCase::Msp);
            assert_eq!(s.org_name, "Acme");
        }
        _ => panic!("expected a new org"),
    }
    match choose_provision_org(None, Some(pending()), None) {
        Some(p) => {
            assert!(p.is_new() && !p.is_existing());
        }
        None => panic!("expected a new org"),
    }
    assert!(choose_provision_org(None, None, Some(UseCase::Company)).is_none());
}

#[test]
fn error_redirects_encode_the_message() {
    assert_eq!(url_encode("a b&c=d/é~_.-"), "a%20b%26c%3Dd%2F%C3%A9~_.-");
    assert_eq!(url_encode("Organization setup information missing"), urlencoding::encode("Organization setup information missing"));
    assert_eq!(
        error_redirect_url("https://app/login", "Organization setup information missing", Some("org_setup_info_missing")),
        "https://app/login?error=Organization%20setup%20information%20missing&error_code=org_setup_info_missing"
    );
    assert_eq!(error_redirect_url("/r", "x!", None), "/r?error=x%21");
}

#[test]
fn binding_conflicts() {
    let existing = vec![
        (1u128, BindingType::Port { port_id: 80, ip_address_id: Some(10) }),
        (2u128, BindingType::IPAddress { ip_address_id: 11 }),
    ];
    assert_eq!(check_binding_conflict(BindingType::IPAddress { ip_address_id: 10 }, &existing, None), Err(BindingConflict::AddressTakenByPort));
    assert_eq!(check_binding_conflict(BindingType::IPAddress { ip_address_id: 10 }, &existing, Some(1)), Ok(()));
    assert_eq!(
        check_binding_conflict(BindingType::Port { port_id: 22, ip_address_id: Some(11) }, &existing, None),
        Err(BindingConflict::PortOnBoundAddress)
    );
    assert_eq!(
        check_binding_conflict(BindingType::Port { port_id: 22, ip_address_id: None }, &existing, None),
        Err(BindingConflict::AllAddressesTaken)
    );
    assert_eq!(check_binding_conflict(BindingType::Port { port_id: 22, ip_address_id: Some(12) }, &existing, None), Ok(()));
    assert_eq!(superseded_bindings(BindingType::Port { port_id: 80, ip_address_id: None }, &existing), vec![1]);
    assert!(BindingConflict::AllAddressesTaken.message().starts_with("Cannot add port binding on all"));
}

#[test]
fn binding_constructors() {
    let b = Binding::new_port(1, 2, 80, None);
    assert_eq!(b.port_id(), Some(80));
    assert_eq!(b.ip_address_id(), None);
    assert_eq!(b.base.service_id, 1);
    let ip = Binding::new_ip_address_serviceless(7);
    assert_eq!(ip.ip_address_id(), Some(7));
    let moved = ip.with_service(3, 4);
    assert_eq!((moved.base.service_id, moved.base.network_id), (3, 4));
    assert!(b.triggers_staleness(None));
    assert!(!b.triggers_staleness(Some(b)));
    assert!(b.triggers_staleness(Some(Binding::new_port(1, 2, 81, None))));
}

fn key(network_id: u128, name: &str) -> DaemonApiKey {
    DaemonApiKey {
        id: 1,
        updated_at: 0,
        created_at: 0,
        base: DaemonApiKeyBase {
            key: "hash".to_string(),
            name: name.to_string(),
            last_used: None,
            expires_at: None,
            network_id,
            is_enabled: true,
            tags: vec![],
            plaintext: None,
        },
    }
}

#[test]
fn daemon_key_access_and_logging() {
    assert_eq!(validate_access(&key(5, "k"), &vec![4, 5]), Ok(()));
    assert_eq!(validate_access(&key(5, "k"), &vec![4]), Err(KeyAccessError::NoNetworkAccess));
    let mut used = key(5, "k");
    used.base.last_used = Some(100);
    assert!(suppress_update_logs(Some(&key(5, "k")), Some(&used)));
    assert!(!suppress_update_logs(Some(&key(5, "k")), Some(&key(5, "renamed"))));
    assert!(!suppress_update_logs(None, Some(&used)));
    assert!(key(5, "k").base.same_as(&key(5, "k").base));
    assert!(!used.base.same_as(&key(5, "k").base));
}

#[test]
fn usage_reports_plan_limits() {
    let plan = BillingPlan::Free(PlanConfig { included_hosts: Some(25), included_networks: Some(1), included_seats: None, ..Default::default() });
    let u = plan_usage(&plan, 30, 1, 4);
    assert_eq!((u.host_limit, u.host_count), (Some(25), 30));
    assert_eq!((u.network_limit, u.seat_limit, u.seat_count), (Some(1), None, 4));
}

#[test]
fn dependency_members_and_types() {
    assert!(DependencyMembers::default_members().is_empty());
    let b = DependencyMembers::Bindings { binding_ids: vec![1, 2] };
    assert!(b.is_bindings());
    assert_eq!(b.binding_ids(), vec![1, 2]);
    assert_eq!(DependencyMembers::Services { service_ids: vec![3] }.binding_ids(), Vec::<u128>::new());
    for t in [DependencyType::RequestPath, DependencyType::HubAndSpoke] {
        assert_eq!(DependencyType::parse(t.as_str()), Some(t));
    }
    assert_eq!(DependencyType::parse("Mesh"), None);
}

#[test]
fn binding_display_text() {
    let port_id = uuid::Uuid::new_v4();
    let addr = uuid::Uuid::new_v4();
    let on_all = Binding::new_port_serviceless(port_id.as_u128(), None);
    assert_eq!(on_all.base.service_id, 0);
    assert_eq!(
        on_all.display_text(),
        format!("Port binding {} -> {} (all ip_addresses)", uuid::Uuid::from_u128(on_all.id), port_id)
    );
    let on_one = Binding::new_port_serviceless(port_id.as_u128(), Some(addr.as_u128()));
    assert_eq!(
        on_one.display_text(),
        format!("Port binding {} -> {} (ip_address {})", uuid::Uuid::from_u128(on_one.id), port_id, addr)
    );
    let ip = Binding::new_ip_address_serviceless(addr.as_u128());
    assert_eq!(ip.display_text(), format!("IP address binding {} -> {}", uuid::Uuid::from_u128(ip.id), addr));
}

#[test]
fn password_complexity_examples() {
    assert!(validate_password_complexity("Str0ngPassword").is_ok());
    let e = validate_password_complexity("NoDigitsHereAtAll").unwrap_err();
    assert_eq!(e.code, "password_complexity");
    assert_eq!(e.message, "Password must contain uppercase, lowercase, and number");
    assert!(validate_password_complexity("alllowercasenodigits").is_err());
    assert!(check_password_policy("Str0ngPassword").is_ok());
}

#[test]
fn link_flow_redirect_opens_settings_and_carries_the_error() {
    assert_eq!(link_flow_redirect("https://app.example/hosts", None), Some("https://app.example/hosts?modal=settings".to_string()));
    assert_eq!(
        link_flow_redirect("https://app.example/hosts?tab=a", Some("You must be logged in to link an OIDC account.")),
        Some("https://app.example/hosts?tab=a&modal=settings&error=You+must+be+logged+in+to+link+an+OIDC+account.".to_string())
    );
    assert_eq!(link_flow_redirect("/hosts", None), None);
}
