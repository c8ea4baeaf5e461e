use certgen::gen::generate_all;
use certgen::gen::generate_cert;
use certgen::gen::generate_self_signed_certificate;
use certgen::gen::GeneratedCert;
use certgen::Certificate;
use certgen::Key;
use certgen::Spec;
use certgen::Subject;
use certgen::Validity;
use openssl::nid::Nid;
use openssl::x509::X509Ref;

fn now_unix() -> i64 {
    std::time::SystemTime::now()
        .duration_since(std::time::UNIX_EPOCH)
        .unwrap()
        .as_secs() as i64
}

fn record(common: &str, country: &str, org: &str, days: u32, bits: u32) -> Certificate {
    Certificate {
        subject: Subject {
            common: common.to_string(),
            country: country.to_string(),
            org: org.to_string(),
            org_unit: None,
            state: None,
            locality: None,
            email: None,
        },
        validity: Validity { days },
        key: Key { bits },
    }
}

fn name_entry(cert: &X509Ref, nid: Nid) -> String {
    let entry = cert
        .subject_name()
        .entries_by_nid(nid)
        .next()
        .expect("entry missing");
    entry.data().as_utf8().unwrap().to_string()
}

#[test]
fn scenario_single_record() {
    let now = now_unix();
    let rec = record("test.local", "US", "Acme", 30, 2048);
    let g: GeneratedCert = generate_cert(&rec, now).map_err(|e| e.message()).unwrap();

    assert_eq!(g.key_name, "test.local.key");
    assert_eq!(g.cert_name, "test.local.crt");
    assert_eq!(name_entry(&g.cert, Nid::COMMONNAME), "test.local");
    assert_eq!(name_entry(&g.cert, Nid::COUNTRYNAME), "US");
    assert_eq!(name_entry(&g.cert, Nid::ORGANIZATIONNAME), "Acme");

    let span = g.cert.not_before().diff(g.cert.not_after()).unwrap();
    assert_eq!(span.days, 30);
    assert_eq!(span.secs, 0);
    // The Basic Constraints extension carries a path length of zero.
    assert_eq!(g.cert.pathlen(), Some(0));
}

#[test]
fn validity_window_contains_generation_time() {
    let now = now_unix();
    let rec = record("window.local", "US", "Acme", 7, 2048);
    let g = generate_cert(&rec, now).map_err(|e| e.message()).unwrap();
    let at_now = openssl::asn1::Asn1Time::from_unix(now).unwrap();
    assert!(g.cert.not_before() <= at_now);
    assert!(at_now < g.cert.not_after());
}

#[test]
fn subject_equals_issuer() {
    let now = now_unix();
    let rec = record("selfsigned.local", "DE", "Example", 10, 2048);
    let g = generate_cert(&rec, now).map_err(|e| e.message()).unwrap();
    let subject: Vec<(Nid, String)> = g
        .cert
        .subject_name()
        .entries()
        .map(|e| (e.object().nid(), e.data().as_utf8().unwrap().to_string()))
        .collect();
    let issuer: Vec<(Nid, String)> = g
        .cert
        .issuer_name()
        .entries()
        .map(|e| (e.object().nid(), e.data().as_utf8().unwrap().to_string()))
        .collect();
    assert_eq!(subject, issuer);
    assert_eq!(subject.len(), 3);
}

#[test]
fn signature_verifies_with_embedded_key() {
    let now = now_unix();
    let rec = record("verify.local", "US", "Acme", 5, 2048);
    let g = generate_cert(&rec, now).map_err(|e| e.message()).unwrap();
    let embedded = g.cert.public_key().unwrap();
    assert!(g.cert.verify(&embedded).unwrap());
    assert_eq!(embedded.bits(), 2048);
    // A zero-indexed version value of 2 stands for X509v3.
    assert_eq!(g.cert.version(), 2);
}

#[test]
fn serials_differ_between_runs() {
    let now = now_unix();
    let rec = record("serial.local", "US", "Acme", 5, 2048);
    let first = generate_cert(&rec, now).map_err(|e| e.message()).unwrap();
    let second = generate_cert(&rec, now).map_err(|e| e.message()).unwrap();
    let s1 = first.cert.serial_number().to_bn().unwrap().to_vec();
    let s2 = second.cert.serial_number().to_bn().unwrap().to_vec();
    assert!(s1.len() <= 8);
    assert!(s2.len() <= 8);
    assert_ne!(s1, s2);
}

#[test]
fn pem_key_round_trip_signs_verifiably() {
    let now = now_unix();
    let rec = record("roundtrip.local", "US", "Acme", 5, 2048);
    let g = generate_cert(&rec, now).map_err(|e| e.message()).unwrap();

    let reloaded = openssl::pkey::PKey::private_key_from_pem(&g.key_pem).unwrap();
    let data = b"arbitrary data to sign";
    let mut signer =
        openssl::sign::Signer::new(openssl::hash::MessageDigest::sha256(), &reloaded).unwrap();
    let signature = signer.sign_oneshot_to_vec(data).unwrap();

    let written_cert = openssl::x509::X509::from_pem(&g.cert_pem).unwrap();
    let public = written_cert.public_key().unwrap();
    let mut verifier =
        openssl::sign::Verifier::new(openssl::hash::MessageDigest::sha256(), &public).unwrap();
    assert!(verifier.verify_oneshot(&signature, data).unwrap());
}

#[test]
fn one_output_per_record() {
    let now = now_unix();
    let sp = Spec {
        certs: vec![
            record("one.local", "US", "Acme", 3, 2048),
            record("two.local", "FR", "Beta", 4, 2048),
        ],
    };
    let outs = generate_all(&sp, now).map_err(|e| e.message()).unwrap();
    assert_eq!(outs.len(), 2);
    assert_eq!(outs[0].key_name, "one.local.key");
    assert_eq!(outs[0].cert_name, "one.local.crt");
    assert_eq!(outs[1].key_name, "two.local.key");
    assert_eq!(outs[1].cert_name, "two.local.crt");
    assert_eq!(name_entry(&outs[0].cert, Nid::COMMONNAME), "one.local");
    assert_eq!(name_entry(&outs[1].cert, Nid::COMMONNAME), "two.local");
}

#[test]
fn empty_document_yields_nothing() {
    let outs = generate_all(&Spec { certs: vec![] }, now_unix())
        .map_err(|e| e.message())
        .unwrap();
    assert_eq!(outs.len(), 0);
}

#[test]
fn bare_self_signed_certificate() {
    let now = now_unix();
    let g = generate_self_signed_certificate(now).map_err(|e| e.message()).unwrap();
    assert_eq!(g.key_name, "pkey.pem");
    assert_eq!(g.cert_name, "cert.pem");
    assert_eq!(name_entry(&g.cert, Nid::COMMONNAME), "localhost");
    assert_eq!(g.cert.subject_name().entries().count(), 1);
    let embedded = g.cert.public_key().unwrap();
    assert!(g.cert.verify(&embedded).unwrap());
    assert_eq!(embedded.bits(), 4096);
    let span = g.cert.not_before().diff(g.cert.not_after()).unwrap();
    assert_eq!(span.days, 365);
    assert_eq!(span.secs, 0);
    // The Basic Constraints extension carries a path length of zero.
    assert_eq!(g.cert.pathlen(), Some(0));
}

#[test]
fn optional_attributes_in_order() {
    let now = now_unix();
    let mut rec = record("full.local", "US", "Acme", 5, 2048);
    rec.subject.org_unit = Some("Ops".to_string());
    rec.subject.state = Some("CA".to_string());
    rec.subject.locality = Some("Palo Alto".to_string());
    rec.subject.email = Some("ops@acme.test".to_string());
    let g = generate_cert(&rec, now).map_err(|e| e.message()).unwrap();
    let entries: Vec<(Nid, String)> = g
        .cert
        .subject_name()
        .entries()
        .map(|e| (e.object().nid(), e.data().as_utf8().unwrap().to_string()))
        .collect();
    assert_eq!(
        entries,
        vec![
            (Nid::COMMONNAME, "full.local".to_string()),
            (Nid::COUNTRYNAME, "US".to_string()),
            (Nid::ORGANIZATIONNAME, "Acme".to_string()),
            (Nid::ORGANIZATIONALUNITNAME, "Ops".to_string()),
            (Nid::STATEORPROVINCENAME, "CA".to_string()),
            (Nid::LOCALITYNAME, "Palo Alto".to_string()),
        ]
    );
}

#[test]
fn serial_reads_bytes_big_endian() {
    let serial = certgen::gen::serial_from_bytes(&vec![0, 0, 0, 0, 0, 0, 1, 2])
        .map_err(|e| e.message())
        .unwrap();
    assert_eq!(serial.to_bn().unwrap().to_vec(), vec![1u8, 2]);
}

#[test]
fn records_within_limits_pass() {
    let now = now_unix();
    let sp = Spec { certs: vec![record("ok.local", "US", "Acme", 30, 2048)] };
    assert_eq!(certgen::gen::first_record_outside_limits(&sp, now), None);
}

#[test]
fn zero_validity_is_outside_limits() {
    let now = now_unix();
    let sp = Spec {
        certs: vec![
            record("ok.local", "US", "Acme", 30, 2048),
            record("bad.local", "US", "Acme", 0, 2048),
        ],
    };
    assert_eq!(certgen::gen::first_record_outside_limits(&sp, now), Some(1));
}

#[test]
fn overlong_validity_is_outside_limits() {
    let sp = Spec { certs: vec![record("far.local", "US", "Acme", u32::MAX, 2048)] };
    assert_eq!(certgen::gen::first_record_outside_limits(&sp, i64::MAX - 1), Some(0));
}

#[test]
fn malformed_document_is_rejected() {
    let broken = "certs:\n  - subject: [unclosed";
    let parsed: Result<serde_yaml::Value, serde_yaml::Error> = serde_yaml::from_str(broken);
    assert!(parsed.is_err());
}
