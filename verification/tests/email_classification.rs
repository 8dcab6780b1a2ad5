use scanopy::domains::{
    apply_website_probe, build_domain_datasets, classify_email_domain, classify_email_domain_with, denied,
    gsa_domains, institution_from_overrides, institution_from_suffix, needs_website_probe, normalize_email_domain,
    DomainClass, DomainDatasets, InstitutionType,
};

/// A small stand-in for the vendored reference data, in the raw formats
/// the datasets are built from.
fn sample() -> DomainDatasets {
    build_domain_datasets(
        "gmail.com\nbiglobe.ne.jp\n",
        "mit.edu\ngmail.com\n",
        "site\nhttps://www.aphp.fr/\nhttps://gmail.com/\nhttps://www.facebook.com/somehospital\n",
        "site\n",
        "site\n",
        "coordonneesnum_url\nhttps://www.Ville-Huahine.pf/accueil\n",
        "\u{feff}Domain name,Domain type\nEXAMPLE.GOV,Federal\n",
        vec![
            ("nhs.uk".to_string(), InstitutionType::Healthcare),
            ("naruwasco.co.ke".to_string(), InstitutionType::Utility),
        ],
        vec![],
    )
}

fn classify(domain: &str) -> (DomainClass, Option<InstitutionType>) {
    classify_email_domain(domain, &sample())
}

#[test]
fn freemail_provider() {
    assert_eq!(classify("gmail.com"), (DomainClass::Freemail, None));
}

#[test]
fn freemail_isp_subdomain() {
    assert_eq!(classify("mvb.biglobe.ne.jp"), (DomainClass::Freemail, None));
}

#[test]
fn disposable_counts_as_freemail() {
    assert_eq!(classify("mailinator.com"), (DomainClass::Freemail, None));
}

#[test]
fn healthcare_from_dataset() {
    assert_eq!(classify("aphp.fr"), (DomainClass::Institutional, Some(InstitutionType::Healthcare)));
}

#[test]
fn government_from_restricted_suffix() {
    assert_eq!(classify("sanpedro.gob.mx"), (DomainClass::Institutional, Some(InstitutionType::Government)));
}

#[test]
fn education_from_edu_suffix() {
    assert_eq!(classify("millsaps.edu"), (DomainClass::Institutional, Some(InstitutionType::Education)));
}

#[test]
fn education_from_ac_jp_suffix() {
    assert_eq!(classify("saitama-med.ac.jp"), (DomainClass::Institutional, Some(InstitutionType::Education)));
}

#[test]
fn government_municipality_unrestricted_tld() {
    assert_eq!(classify("ville-huahine.pf"), (DomainClass::Institutional, Some(InstitutionType::Government)));
}

#[test]
fn utility_from_overrides() {
    assert_eq!(classify("naruwasco.co.ke"), (DomainClass::Institutional, Some(InstitutionType::Utility)));
}

#[test]
fn company_default() {
    assert_eq!(classify("acme-corp.com"), (DomainClass::Company, None));
}

#[test]
fn healthcare_nhs_subdomain() {
    assert_eq!(classify("somehospital.nhs.uk"), (DomainClass::Institutional, Some(InstitutionType::Healthcare)));
}

#[test]
fn case_and_dot_insensitive() {
    assert_eq!(classify("GMAIL.COM."), (DomainClass::Freemail, None));
    assert_eq!(classify("Millsaps.EDU"), (DomainClass::Institutional, Some(InstitutionType::Education)));
}

#[test]
fn garbage_defaults_to_company() {
    assert_eq!(classify(""), (DomainClass::Company, None));
    assert_eq!(classify("localhost"), (DomainClass::Company, None));
}

#[test]
fn ac_tld_alone_is_not_education() {
    assert_eq!(classify("example.ac"), (DomainClass::Company, None));
}

#[test]
fn freemail_and_institutional_disjoint() {
    let data = sample();
    let overlap: Vec<&String> =
        data.institutional.iter().map(|(h, _)| h).filter(|h| data.freemail.contains(h)).collect();
    assert!(overlap.is_empty(), "freemail/institutional overlap: {overlap:?}");
    assert!(!data.universities.iter().any(|u| u == "gmail.com"));
}

#[test]
fn university_list_gives_education() {
    assert_eq!(classify("mit.edu"), (DomainClass::Institutional, Some(InstitutionType::Education)));
    assert!(sample().universities.iter().any(|u| u == "mit.edu"));
}

#[test]
fn gsa_domains_are_government() {
    let data = sample();
    assert!(data.institutional.iter().any(|(h, t)| h == "example.gov" && *t == InstitutionType::Government));
    assert!(!data.institutional.iter().any(|(h, _)| h == "facebook.com"));
}

#[test]
fn restricted_suffixes() {
    assert_eq!(institution_from_suffix("gov"), Some(InstitutionType::Government));
    assert_eq!(institution_from_suffix("gouv.fr"), Some(InstitutionType::Government));
    assert_eq!(institution_from_suffix("go.jp"), Some(InstitutionType::Government));
    assert_eq!(institution_from_suffix("go"), None);
    assert_eq!(institution_from_suffix("k12.ca.us"), Some(InstitutionType::Education));
    assert_eq!(institution_from_suffix("ac"), None);
    assert_eq!(institution_from_suffix("com"), None);
}

#[test]
fn overrides_cover_subdomains_and_prefixes() {
    let domains = vec![("nhs.uk".to_string(), InstitutionType::Healthcare)];
    let prefixes = vec![("wasco".to_string(), InstitutionType::Utility)];
    assert_eq!(institution_from_overrides("a.nhs.uk", "nhs.uk", &domains, &prefixes), Some(InstitutionType::Healthcare));
    assert_eq!(institution_from_overrides("xnhs.uk", "xnhs.uk", &domains, &prefixes), None);
    assert_eq!(institution_from_overrides("wascokenya.co.ke", "wascokenya.co.ke", &domains, &prefixes), Some(InstitutionType::Utility));
}

#[test]
fn deny_list_matches_platform_hosts() {
    assert!(denied("facebook.com"));
    assert!(denied("sites.google.com"));
    assert!(!denied("aphp.fr"));
}

#[test]
fn website_probe_only_downgrades_companies() {
    assert_eq!(apply_website_probe((DomainClass::Company, None), false), (DomainClass::Personal, None));
    assert_eq!(apply_website_probe((DomainClass::Company, None), true), (DomainClass::Company, None));
    assert_eq!(apply_website_probe((DomainClass::Freemail, None), false), (DomainClass::Freemail, None));
    let inst = (DomainClass::Institutional, Some(InstitutionType::Education));
    assert_eq!(apply_website_probe(inst, false), inst);
}

#[test]
fn class_names() {
    assert_eq!(DomainClass::Freemail.as_str(), "freemail");
    assert_eq!(DomainClass::Personal.as_str(), "personal");
    assert_eq!(InstitutionType::Healthcare.as_str(), "healthcare");
}

#[test]
fn the_mailbox_verdict_decides_only_unlisted_dotted_domains() {
    let data = sample();
    assert_eq!(classify_email_domain_with("acme-widgets.com", &data, true), (DomainClass::Company, None));
    assert_eq!(classify_email_domain_with("acme-widgets.com", &data, false), (DomainClass::Freemail, None));
    assert_eq!(classify_email_domain_with("gmail.com", &data, true), (DomainClass::Freemail, None));
    assert_eq!(classify_email_domain_with("localhost", &data, false), (DomainClass::Company, None));
    assert_eq!(normalize_email_domain("  Example.COM.. "), "example.com");
    let live = classify_email_domain("acme-widgets.com", &data);
    assert!(live == classify_email_domain_with("acme-widgets.com", &data, true)
        || live == classify_email_domain_with("acme-widgets.com", &data, false));
}

#[test]
fn only_company_domains_are_probed() {
    assert!(needs_website_probe(DomainClass::Company));
    assert!(!needs_website_probe(DomainClass::Freemail));
    assert!(!needs_website_probe(DomainClass::Institutional));
    assert!(!needs_website_probe(DomainClass::Personal));
}

#[test]
fn unreadable_csv_records_are_skipped() {
    let csv = "Domain name,Agency\nfirst.gov,A\n\"broken,B\nthird.gov,C\n";
    let got = gsa_domains(csv);
    assert!(got.contains(&"first.gov".to_string()));
}

#[test]
fn classification_ignores_case_and_a_trailing_dot() {
    let data = sample();
    for d in ["mit.edu", "gmail.com", "acme-widgets.com", "localhost", "agency.gov", "  mit.edu", "\tgmail.com"] {
        for ok in [true, false] {
            let upper = format!("{}.", d.to_uppercase());
            assert_eq!(classify_email_domain_with(&upper, &data, ok), classify_email_domain_with(d, &data, ok), "{d}");
        }
    }
    assert_eq!(classify_email_domain_with("intranet.", &data, false), (DomainClass::Company, None));
}
