use certgen::loader::build_spec;
use certgen::loader::MissingField;
use certgen::loader::RawKey;
use certgen::loader::RawRecord;
use certgen::loader::RawSubject;
use certgen::loader::RawValidity;

fn complete_record(common: &str) -> RawRecord {
    RawRecord {
        subject: Some(RawSubject {
            country: Some("US".to_string()),
            common: Some(common.to_string()),
            org: Some("Acme".to_string()),
            org_unit: None,
            state: Some("CA".to_string()),
            locality: None,
            email: None,
        }),
        validity: Some(RawValidity { days: Some(30) }),
        key: Some(RawKey { bits: Some(2048) }),
    }
}

#[test]
fn complete_document_accepted() {
    let raw = vec![complete_record("test.local"), complete_record("other.local")];
    let sp = build_spec(&raw).unwrap();
    assert_eq!(sp.certs.len(), 2);
    assert_eq!(sp.certs[0].subject.common, "test.local");
    assert_eq!(sp.certs[0].subject.country, "US");
    assert_eq!(sp.certs[0].subject.org, "Acme");
    assert_eq!(sp.certs[0].subject.state.as_deref(), Some("CA"));
    assert_eq!(sp.certs[0].subject.org_unit, None);
    assert_eq!(sp.certs[0].validity.days, 30);
    assert_eq!(sp.certs[0].key.bits, 2048);
    assert_eq!(sp.certs[1].subject.common, "other.local");
}

#[test]
fn empty_document_accepted() {
    let sp = build_spec(&vec![]).unwrap();
    assert_eq!(sp.certs.len(), 0);
}

#[test]
fn missing_common_rejected() {
    let mut rec = complete_record("test.local");
    rec.subject.as_mut().unwrap().common = None;
    let err = build_spec(&vec![rec]).unwrap_err();
    assert_eq!(err.index, 0);
    assert_eq!(err.field, MissingField::Common);
}

#[test]
fn missing_subject_rejected() {
    let mut rec = complete_record("test.local");
    rec.subject = None;
    let err = build_spec(&vec![rec]).unwrap_err();
    assert_eq!(err.index, 0);
    assert_eq!(err.field, MissingField::Subject);
}

#[test]
fn missing_days_and_key_rejected() {
    let mut rec = complete_record("a.local");
    rec.validity = Some(RawValidity { days: None });
    let err = build_spec(&vec![rec]).unwrap_err();
    assert_eq!(err.field, MissingField::Days);

    let mut rec = complete_record("a.local");
    rec.key = None;
    let err = build_spec(&vec![rec]).unwrap_err();
    assert_eq!(err.field, MissingField::Key);

    let mut rec = complete_record("a.local");
    rec.key = Some(RawKey { bits: None });
    let err = build_spec(&vec![rec]).unwrap_err();
    assert_eq!(err.field, MissingField::Bits);
}

#[test]
fn first_incomplete_record_reported() {
    let mut second = complete_record("b.local");
    second.subject.as_mut().unwrap().org = None;
    let raw = vec![complete_record("a.local"), second];
    let err = build_spec(&raw).unwrap_err();
    assert_eq!(err.index, 1);
    assert_eq!(err.field, MissingField::Org);
}
