use certgen::Subject;

fn base_subject() -> Subject {
    Subject {
        common: "test.local".to_string(),
        country: "US".to_string(),
        org: "Acme".to_string(),
        org_unit: None,
        state: None,
        locality: None,
        email: None,
    }
}

#[test]
fn full_name_required_fields_only() {
    let s = base_subject();
    assert_eq!(s.full_name(), "CN=test.local,C=US,O=Acme");
}

#[test]
fn full_name_all_fields() {
    let mut s = base_subject();
    s.org_unit = Some("Ops".to_string());
    s.state = Some("CA".to_string());
    s.locality = Some("Palo Alto".to_string());
    s.email = Some("ops@acme.test".to_string());
    assert_eq!(
        s.full_name(),
        "CN=test.local,C=US,O=Acme,OU=Ops,ST=CA,L=Palo Alto"
    );
}

#[test]
fn full_name_skips_missing_optionals() {
    let mut s = base_subject();
    s.state = Some("CA".to_string());
    assert_eq!(s.full_name(), "CN=test.local,C=US,O=Acme,ST=CA");
}
