use scanopy::domains::{build_domain_datasets, classify_email_domain, DomainClass};

#[test]
fn test_legitimate_regional_domains_not_blocked() {
    let legitimate = [
        "user@yahoo.co.jp",
        "user@yahoo.co.uk",
        "user@yahoo.ca",
        "user@hotmail.co.uk",
        "user@hotmail.it",
        "user@outlook.com",
        "user@gmail.com",
        "user@protonmail.com",
    ];
    for email in legitimate {
        assert!(mailchecker::is_valid(email), "{} should not be blocked as disposable", email);
    }
}

#[test]
fn test_disposable_domains_blocked() {
    let disposable = [
        "user@mailinator.com",
        "user@guerrillamail.com",
        "user@yopmail.com",
        "user@sharklasers.com",
        "user@trashmail.com",
    ];
    for email in disposable {
        assert!(!mailchecker::is_valid(email), "{} should be blocked as disposable", email);
    }
}

#[test]
fn disposable_domains_classify_as_freemail() {
    let data = build_domain_datasets("", "", "", "", "", "", "", vec![], vec![]);
    for domain in ["mailinator.com", "guerrillamail.com", "yopmail.com", "sharklasers.com", "trashmail.com"] {
        assert_eq!(classify_email_domain(domain, &data).0, DomainClass::Freemail, "{domain}");
    }
    assert_eq!(classify_email_domain("protonmail-like-company.com", &data).0, DomainClass::Company);
}
