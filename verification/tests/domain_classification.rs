use scanopy::domains::{
    build_freemail, build_universities, has_website_from_outcomes, merge_institutional, normalize_host,
    InstitutionType, ProbeOutcome,
};

#[test]
fn platform_hosts_never_institutional() {
    let freemail = build_freemail("gmail.com\n");
    let universities = build_universities("mit.edu\n", &freemail);
    let candidates: Vec<(String, InstitutionType)> = [
        ("facebook.com", InstitutionType::Government),
        ("sites.google.com", InstitutionType::Healthcare),
        ("wixsite.com", InstitutionType::Utility),
        ("aphp.fr", InstitutionType::Healthcare),
    ]
    .iter()
    .map(|(h, t)| (h.to_string(), *t))
    .collect();
    let map = merge_institutional(&candidates, &freemail, &universities);
    for host in ["facebook.com", "sites.google.com", "wixsite.com"] {
        assert!(!map.iter().any(|(h, _)| h == host), "{host} leaked into map");
    }
    assert!(map.iter().any(|(h, t)| h == "aphp.fr" && *t == InstitutionType::Healthcare));
}

#[test]
fn probe_outcome_fold_is_precision_biased() {
    let (cf, resp, inc) = (ProbeOutcome::ConnectFailure, ProbeOutcome::Responded, ProbeOutcome::Inconclusive);
    assert!(!has_website_from_outcomes(&vec![cf, cf, cf]));
    assert!(has_website_from_outcomes(&vec![cf, resp]));
    assert!(has_website_from_outcomes(&vec![cf, inc, cf]));
}

#[test]
fn normalize_host_handles_raw_rows() {
    assert_eq!(normalize_host("https://www.Ville-Huahine.pf/accueil"), Some("ville-huahine.pf".to_string()));
    assert_eq!(normalize_host("\"\""), None);
    assert_eq!(normalize_host("site"), None);
    assert_eq!(normalize_host("coordonneesnum_url"), None);
    assert_eq!(normalize_host("174.132.145.94/~hope"), None);
    assert_eq!(normalize_host("münchen.de"), Some("xn--mnchen-3ya.de".to_string()));
}
