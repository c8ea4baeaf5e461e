//! The certificate builder: turns one `Certificate` record into a freshly
//! generated RSA key pair and a self-signed X.509 certificate, and an
//! orchestrator that does so for every record of a `Spec` in order.
//!
//! All certificates are self-signed: the issuer name is set equal to the
//! subject name and the certificate is signed with its own key. The
//! validity window starts at the generation timestamp handed in by the
//! caller and spans exactly the requested number of days. The serial
//! number is drawn fresh from a cryptographically secure random source
//! as an eight-byte unsigned big-endian integer.

use vstd::prelude::*;
use vstd::arithmetic::power::pow;
use vstd::string::StringExecFns;
use vstd::string::StrSliceExecFns;
use openssl::asn1::Asn1Integer;
use openssl::error::ErrorStack;
use openssl::pkey::PKey;
use openssl::pkey::Private;
use openssl::x509::X509;
use openssl::x509::X509Name;
use crate::cert_spec::Certificate;
use crate::cert_spec::Spec;
use crate::cert_spec::Subject;
use crate::ossl::append_extension;
use crate::ossl::asn1_int_from_bn;
use crate::ossl::asn1_int_value;
use crate::ossl::asn1_time_from_unix;
use crate::ossl::bn_from_slice;
use crate::ossl::build_basic_constraints_ext;
use crate::ossl::build_ext_key_usage;
use crate::ossl::cert_data;
use crate::ossl::cert_pem_of;
use crate::ossl::dn_attr_nid;
use crate::ossl::error_text;
use crate::ossl::key_pem_of;
use crate::ossl::name_append_entry;
use crate::ossl::name_build;
use crate::ossl::name_entries;
use crate::ossl::new_name_builder;
use crate::ossl::new_x509_builder;
use crate::ossl::pkey_bits;
use crate::ossl::pkey_from_rsa;
use crate::ossl::pkey_ident;
use crate::ossl::private_key_to_pem;
use crate::ossl::rand_fill;
use crate::ossl::rsa_generate;
use crate::ossl::set_issuer_name;
use crate::ossl::set_not_after;
use crate::ossl::set_not_before;
use crate::ossl::set_pubkey;
use crate::ossl::set_serial_number;
use crate::ossl::set_subject_name;
use crate::ossl::set_version;
use crate::ossl::sign_sha256;
use crate::ossl::x509_build;
use crate::ossl::x509_to_pem;
use crate::ossl::DnAttr;
use crate::ossl::ExtKind;

verus! {

/// A failure of key generation, certificate encoding or signing,
/// carrying the cryptographic library's error report.
pub struct CryptoError {
    pub stack: ErrorStack,
}

impl CryptoError {
    /// A human-readable rendering of the underlying error report.
    pub fn message(&self) -> (r: String)
        ensures
            r@ == crate::ossl::error_text_of(&self.stack),
    {
        error_text(&self.stack)
    }
}

/// Everything produced for one certificate record: the fresh private
/// key, the signed certificate, and both in PEM form together with the
/// file names they are meant to be written under.
pub struct GeneratedCert {
    pub key: PKey<Private>,
    pub cert: X509,
    pub key_name: String,
    pub key_pem: Vec<u8>,
    pub cert_name: String,
    pub cert_pem: Vec<u8>,
}

/// The value of a byte string read as an unsigned big-endian integer.
pub open spec fn be_value(s: Seq<u8>) -> int
    decreases s.len(),
{
    if s.len() == 0 {
        0
    } else {
        256 * be_value(s.drop_last()) + s.last()
    }
}

/// A byte string of length n read big-endian is below 256^n.
proof fn lemma_be_value_bound(s: Seq<u8>)
    ensures
        0 <= be_value(s) < pow(256, s.len()),
    decreases s.len(),
{
    reveal(pow);
    if s.len() == 0 {
    } else {
        lemma_be_value_bound(s.drop_last());
        assert(pow(256, s.len()) == 256 * pow(256, (s.len() - 1) as nat));
        assert(0 <= 256 * be_value(s.drop_last()) + s.last() < 256 * pow(
            256,
            (s.len() - 1) as nat,
        )) by (nonlinear_arith)
            requires
                0 <= be_value(s.drop_last()) < pow(256, (s.len() - 1) as nat),
                0 <= s.last() < 256,
        ;
    }
}

/// The exclusive upper bound of an eight-byte serial number.
pub open spec fn serial_bound() -> int {
    0x1_0000_0000_0000_0000
}

proof fn lemma_pow_256_8()
    ensures
        pow(256, 8) == serial_bound(),
{
    reveal(pow);
    assert(pow(256, 0) == 1);
    assert(pow(256, 1) == 256 * pow(256, 0));
    assert(pow(256, 2) == 256 * pow(256, 1));
    assert(pow(256, 3) == 256 * pow(256, 2));
    assert(pow(256, 4) == 256 * pow(256, 3));
    assert(pow(256, 5) == 256 * pow(256, 4));
    assert(pow(256, 6) == 256 * pow(256, 5));
    assert(pow(256, 7) == 256 * pow(256, 6));
    assert(pow(256, 8) == 256 * pow(256, 7));
}

/// The machine limit on one distinguished-name attribute value: the
/// underlying C call takes at most `i32::MAX` bytes and panics beyond
/// that, and a UTF-8 character takes at most four bytes.
pub open spec fn attr_fits(s: Seq<char>) -> bool {
    4 * s.len() <= i32::MAX as int
}

/// The machine limit on a whole subject: every attribute value that goes
/// into the distinguished name fits. The email attribute never does, so
/// it is not constrained.
pub open spec fn subject_fits(s: &Subject) -> bool {
    &&& attr_fits(s.common@)
    &&& attr_fits(s.country@)
    &&& attr_fits(s.org@)
    &&& (s.org_unit matches Some(u) ==> attr_fits(u@))
    &&& (s.state matches Some(v) ==> attr_fits(v@))
    &&& (s.locality matches Some(l) ==> attr_fits(l@))
}

/// The subject's distinguished-name entries in the fixed attribute
/// order: common name, country and organization always, then the
/// organizational unit, state and locality where present. The email
/// attribute is never part of the name.
pub open spec fn dn_entries(s: &Subject) -> Seq<(u64, Seq<char>)> {
    let base = seq![
        (dn_attr_nid(DnAttr::Common), s.common@),
        (dn_attr_nid(DnAttr::Country), s.country@),
        (dn_attr_nid(DnAttr::Org), s.org@),
    ];
    let with_ou = match s.org_unit {
        Some(u) => base.push((dn_attr_nid(DnAttr::OrgUnit), u@)),
        None => base,
    };
    let with_st = match s.state {
        Some(st) => with_ou.push((dn_attr_nid(DnAttr::State), st@)),
        None => with_ou,
    };
    match s.locality {
        Some(l) => with_st.push((dn_attr_nid(DnAttr::Locality), l@)),
        None => with_st,
    }
}

/// Builds the X.509 name for a subject, appending the attributes in the
/// fixed order that `dn_entries` states.
fn build_subject_name(subj: &Subject) -> (r: Result<X509Name, ErrorStack>)
    requires
        subject_fits(subj),
    ensures
        r matches Ok(n) ==> name_entries(&n) == dn_entries(subj),
{
    let mut builder = new_name_builder()?;
    name_append_entry(&mut builder, DnAttr::Common, subj.common.as_str())?;
    name_append_entry(&mut builder, DnAttr::Country, subj.country.as_str())?;
    name_append_entry(&mut builder, DnAttr::Org, subj.org.as_str())?;
    if let Some(org_unit) = &subj.org_unit {
        name_append_entry(&mut builder, DnAttr::OrgUnit, org_unit.as_str())?;
    }
    if let Some(state) = &subj.state {
        name_append_entry(&mut builder, DnAttr::State, state.as_str())?;
    }
    if let Some(locality) = &subj.locality {
        name_append_entry(&mut builder, DnAttr::Locality, locality.as_str())?;
    }
    let name = name_build(builder);
    proof {
        assert(name_entries(&name) =~= dn_entries(subj));
    }
    Ok(name)
}

/// Turns one eight-byte draw into the serial number it stands for: the
/// bytes read as an unsigned big-endian integer. With the draw as the
/// argument, the serial is an exact function of it, so two draws yield
/// the same serial only if they are the same bytes
/// (`lemma_be_value_injective`).
pub fn serial_from_bytes(bytes: &Vec<u8>) -> (r: Result<Asn1Integer, CryptoError>)
    requires
        bytes@.len() == 8,
    ensures
        r matches Ok(s) ==> asn1_int_value(&s) == be_value(bytes@),
{
    let bn = match bn_from_slice(bytes) {
        Ok(n) => n,
        Err(e) => {
            return Err(CryptoError { stack: e });
        },
    };
    match asn1_int_from_bn(&bn) {
        Ok(s) => Ok(s),
        Err(e) => Err(CryptoError { stack: e }),
    }
}

/// Draws a fresh serial number: eight cryptographically secure random
/// bytes read as an unsigned big-endian integer.
fn gen_serial() -> (r: Result<Asn1Integer, ErrorStack>)
    ensures
        r matches Ok(s) ==> 0 <= asn1_int_value(&s) < serial_bound(),
{
    let mut buf: Vec<u8> = Vec::new();
    let mut i: usize = 0;
    while i < 8
        invariant
            i <= 8,
            buf@.len() == i as int,
        decreases 8 - i,
    {
        buf.push(0u8);
        i += 1;
    }
    rand_fill(&mut buf)?;
    proof {
        lemma_be_value_bound(buf@);
        lemma_pow_256_8();
    }
    match serial_from_bytes(&buf) {
        Ok(s) => Ok(s),
        Err(e) => Err(e.stack),
    }
}

/// What holds of one generated certificate and its key: X509v3, subject
/// and issuer both equal to the given name entries (self-signed), the
/// validity window starting at the generation timestamp `now` and ending
/// exactly `days` days later, a serial number within eight bytes, the
/// embedded public key and the signing key both the returned key pair,
/// the requested key size, and exactly one extension — Basic Constraints
/// marked critical with CA set and path length zero — followed by an
/// Extended Key Usage extension for server and client authentication
/// when one was requested.
pub open spec fn built_from(
    key: &PKey<Private>,
    cert: &X509,
    subject_entries: Seq<(u64, Seq<char>)>,
    days: u32,
    bits: u32,
    with_eku: bool,
    now: i64,
) -> bool {
    let m = cert_data(cert);
    &&& m.version == 2
    &&& m.subject == subject_entries
    &&& m.issuer == subject_entries
    &&& m.not_before == Some(now as int)
    &&& m.not_after == Some(now as int + days as int * 86400)
    &&& m.serial matches Some(sn) && 0 <= sn < serial_bound()
    &&& m.pubkey == Some(pkey_ident(key))
    &&& m.signer == Some(pkey_ident(key))
    &&& m.exts == (if with_eku {
        seq![ExtKind::BasicConstraintsCritCaPathZero, ExtKind::EkuServerClientAuth]
    } else {
        seq![ExtKind::BasicConstraintsCritCaPathZero]
    })
    &&& pkey_bits(key) == bits as int
}

/// The one machine limit on a record: a positive validity, and an end of
/// validity that still fits a 64-bit timestamp.
pub open spec fn record_fits(days: u32, now: i64) -> bool {
    &&& 1 <= days
    &&& now as int + days as int * 86400 <= i64::MAX as int
}

/// Both machine limits on one record: an encodable validity window and
/// name attributes short enough for the underlying library.
pub open spec fn record_within_limits(c: &Certificate, now: i64) -> bool {
    &&& record_fits(c.validity.days, now)
    &&& subject_fits(&c.subject)
}

fn attr_ok(s: &String) -> (b: bool)
    ensures
        b == attr_fits(s@),
{
    s.as_str().unicode_len() <= 536870911
}

fn opt_attr_ok(s: &Option<String>) -> (b: bool)
    ensures
        b == (s matches Some(v) ==> attr_fits(v@)),
{
    match s {
        Some(v) => attr_ok(v),
        None => true,
    }
}

/// The first record the machine cannot encode, if there is one: a
/// validity of zero days, an end of validity beyond a 64-bit timestamp,
/// or a name attribute too long for the underlying library. `None` means
/// every record is within the limits that `generate_cert` requires, so a
/// caller tests this once and aborts the run before any generation.
pub fn first_record_outside_limits(sp: &Spec, now: i64) -> (r: Option<usize>)
    ensures
        r matches Some(i) ==> {
            &&& (i as int) < sp.certs@.len()
            &&& !record_within_limits(&sp.certs@[i as int], now)
            &&& forall|j: int| 0 <= j < i as int ==> record_within_limits(&sp.certs@[j], now)
        },
        r is None <==> forall|i: int|
            0 <= i < sp.certs@.len() ==> record_within_limits(&sp.certs@[i], now),
{
    let mut i: usize = 0;
    while i < sp.certs.len()
        invariant
            i <= sp.certs@.len(),
            forall|j: int| 0 <= j < i as int ==> record_within_limits(&sp.certs@[j], now),
        decreases sp.certs@.len() - i,
    {
        let c = &sp.certs[i];
        let days_ok = c.validity.days >= 1 && (now as i128) + (c.validity.days as i128) * 86400
            <= i64::MAX as i128;
        let subj = &c.subject;
        let names_ok = attr_ok(&subj.common) && attr_ok(&subj.country) && attr_ok(&subj.org)
            && opt_attr_ok(&subj.org_unit) && opt_attr_ok(&subj.state) && opt_attr_ok(
            &subj.locality,
        );
        if !(days_ok && names_ok) {
            return Some(i);
        }
        i += 1;
    }
    None
}

/// The core builder: generates a key pair of the requested size and a
/// certificate carrying the given name as both subject and issuer, valid
/// from `now` for `days` days, with a fresh random serial, the Basic
/// Constraints extension (critical, CA, path length zero) and — when
/// requested — Extended Key Usage for server and client authentication,
/// signed with the generated key and a SHA-256 digest. Returns the key,
/// the certificate, and the PEM encodings of both.
fn build_signed_cert(name: X509Name, days: u32, bits: u32, with_eku: bool, now: i64) -> (r: Result<
    (PKey<Private>, X509, Vec<u8>, Vec<u8>),
    ErrorStack,
>)
    requires
        record_fits(days, now),
    ensures
        r matches Ok(out) ==> built_from(
            &out.0,
            &out.1,
            name_entries(&name),
            days,
            bits,
            with_eku,
            now,
        ) && out.2@ == key_pem_of(&out.0) && out.3@ == cert_pem_of(&out.1),
{
    let rsa = rsa_generate(bits)?;
    let key = pkey_from_rsa(rsa)?;
    let mut builder = new_x509_builder()?;
    set_version(&mut builder, 2)?;
    set_subject_name(&mut builder, &name)?;
    set_issuer_name(&mut builder, &name)?;
    set_pubkey(&mut builder, &key)?;
    let not_before = asn1_time_from_unix(now)?;
    set_not_before(&mut builder, &not_before)?;
    let not_after_secs = now + (days as i64) * 86400;
    let not_after = asn1_time_from_unix(not_after_secs)?;
    set_not_after(&mut builder, &not_after)?;
    let serial = gen_serial()?;
    set_serial_number(&mut builder, &serial)?;
    let basic_constraints = build_basic_constraints_ext()?;
    append_extension(&mut builder, basic_constraints)?;
    if with_eku {
        let ext_key_usage = build_ext_key_usage()?;
        append_extension(&mut builder, ext_key_usage)?;
    }
    sign_sha256(&mut builder, &key)?;
    let cert = x509_build(builder);
    proof {
        if with_eku {
            assert(cert_data(&cert).exts =~= seq![
                ExtKind::BasicConstraintsCritCaPathZero,
                ExtKind::EkuServerClientAuth,
            ]);
        } else {
            assert(cert_data(&cert).exts =~= seq![ExtKind::BasicConstraintsCritCaPathZero]);
        }
    }
    let key_pem = private_key_to_pem(&key)?;
    let cert_pem = x509_to_pem(&cert)?;
    Ok((key, cert, key_pem, cert_pem))
}

/// What `generate_cert` promises of its output: the certificate and key
/// satisfy `built_from` for the record's subject name, validity and key
/// size, with Extended Key Usage attached; the carried bytes are exactly
/// the PEM encodings of that key and that certificate; and the two file
/// names are the subject's common name with `.key` and `.crt` appended.
pub open spec fn generated_from(g: &GeneratedCert, record: &Certificate, now: i64) -> bool {
    &&& built_from(
        &g.key,
        &g.cert,
        dn_entries(&record.subject),
        record.validity.days,
        record.key.bits,
        true,
        now,
    )
    &&& g.key_pem@ == key_pem_of(&g.key)
    &&& g.cert_pem@ == cert_pem_of(&g.cert)
    &&& g.key_name@ == record.subject.common@ + ".key"@
    &&& g.cert_name@ == record.subject.common@ + ".crt"@
}

/// Generates the key pair and self-signed certificate for one record.
/// `now` is the generation timestamp in Unix seconds; the validity window
/// is `[now, now + days * 86400)`.
pub fn generate_cert(record: &Certificate, now: i64) -> (r: Result<GeneratedCert, CryptoError>)
    requires
        record_fits(record.validity.days, now),
        subject_fits(&record.subject),
    ensures
        r matches Ok(g) ==> generated_from(&g, record, now),
{
    let name = match build_subject_name(&record.subject) {
        Ok(n) => n,
        Err(e) => {
            return Err(CryptoError { stack: e });
        },
    };
    let (key, cert, key_pem, cert_pem) = match build_signed_cert(
        name,
        record.validity.days,
        record.key.bits,
        true,
        now,
    ) {
        Ok(out) => out,
        Err(e) => {
            return Err(CryptoError { stack: e });
        },
    };
    let mut key_name = String::from_str(record.subject.common.as_str());
    key_name.append(".key");
    let mut cert_name = String::from_str(record.subject.common.as_str());
    cert_name.append(".crt");
    Ok(GeneratedCert { key, cert, key_name, key_pem, cert_name, cert_pem })
}

/// The one-entry name of the bare self-signed certificate: a common name
/// of `localhost` and nothing else.
pub open spec fn localhost_entries() -> Seq<(u64, Seq<char>)> {
    seq![(dn_attr_nid(DnAttr::Common), "localhost"@)]
}

/// Generates the bare self-signed certificate: common name `localhost`,
/// a 4096-bit key, one year of validity, Basic Constraints only, under
/// the fixed file names `pkey.pem` and `cert.pem`.
pub fn generate_self_signed_certificate(now: i64) -> (r: Result<GeneratedCert, CryptoError>)
    requires
        record_fits(365, now),
    ensures
        r matches Ok(g) ==> {
            &&& built_from(&g.key, &g.cert, localhost_entries(), 365, 4096, false, now)
            &&& g.key_pem@ == key_pem_of(&g.key)
            &&& g.cert_pem@ == cert_pem_of(&g.cert)
            &&& g.key_name@ == "pkey.pem"@
            &&& g.cert_name@ == "cert.pem"@
        },
{
    let mut builder = match new_name_builder() {
        Ok(b) => b,
        Err(e) => {
            return Err(CryptoError { stack: e });
        },
    };
    proof {
        reveal_strlit("localhost");
    }
    if let Err(e) = name_append_entry(&mut builder, DnAttr::Common, "localhost") {
        return Err(CryptoError { stack: e });
    }
    let name = name_build(builder);
    proof {
        assert(name_entries(&name) =~= localhost_entries());
    }
    let (key, cert, key_pem, cert_pem) = match build_signed_cert(name, 365, 4096, false, now) {
        Ok(out) => out,
        Err(e) => {
            return Err(CryptoError { stack: e });
        },
    };
    let key_name = String::from_str("pkey.pem");
    let cert_name = String::from_str("cert.pem");
    Ok(GeneratedCert { key, cert, key_name, key_pem, cert_name, cert_pem })
}

/// Generates key pairs and certificates for every record of the
/// document, in the declared order; the first failure aborts the run.
/// On success the output holds exactly one entry per record, each
/// satisfying `generated_from` for its record.
pub fn generate_all(sp: &Spec, now: i64) -> (r: Result<Vec<GeneratedCert>, CryptoError>)
    requires
        forall|i: int|
            0 <= i < sp.certs@.len() ==> record_fits(sp.certs@[i].validity.days, now)
                && subject_fits(&sp.certs@[i].subject),
    ensures
        r matches Ok(outs) ==> {
            &&& outs@.len() == sp.certs@.len()
            &&& forall|i: int|
                0 <= i < outs@.len() ==> generated_from(&outs@[i], &sp.certs@[i], now)
        },
        sp.certs@.len() == 0 ==> r is Ok,
{
    let mut outs: Vec<GeneratedCert> = Vec::new();
    let mut i: usize = 0;
    while i < sp.certs.len()
        invariant
            i <= sp.certs@.len(),
            outs@.len() == i as int,
            forall|j: int| 0 <= j < i as int ==> generated_from(&outs@[j], &sp.certs@[j], now),
            forall|j: int|
                0 <= j < sp.certs@.len() ==> record_fits(sp.certs@[j].validity.days, now)
                    && subject_fits(&sp.certs@[j].subject),
        decreases sp.certs@.len() - i,
    {
        let g = match generate_cert(&sp.certs[i], now) {
            Ok(g) => g,
            Err(e) => {
                return Err(e);
            },
        };
        outs.push(g);
        i += 1;
    }
    Ok(outs)
}

/// Law: a generated certificate's validity window starts at the
/// generation timestamp and spans exactly the requested number of days —
/// `notBefore <= now < notAfter` and `notAfter - notBefore` equals the
/// validity in days, counted in seconds.
pub proof fn lemma_validity_window(
    key: &PKey<Private>,
    cert: &X509,
    subject_entries: Seq<(u64, Seq<char>)>,
    days: u32,
    bits: u32,
    with_eku: bool,
    now: i64,
)
    requires
        1 <= days,
        built_from(key, cert, subject_entries, days, bits, with_eku, now),
    ensures
        cert_data(cert).not_before matches Some(nb) && cert_data(cert).not_after matches Some(na)
            && nb <= now as int && (now as int) < na && na - nb == days as int * 86400,
{
}

/// Law: every generated certificate is self-signed — its issuer name
/// equals its subject name.
pub proof fn lemma_self_signed(
    key: &PKey<Private>,
    cert: &X509,
    subject_entries: Seq<(u64, Seq<char>)>,
    days: u32,
    bits: u32,
    with_eku: bool,
    now: i64,
)
    requires
        built_from(key, cert, subject_entries, days, bits, with_eku, now),
    ensures
        cert_data(cert).issuer == cert_data(cert).subject,
{
}

/// Law: reading bytes as an unsigned big-endian integer is injective on
/// strings of equal length. Serial numbers are such readings of fresh
/// eight-byte random strings, so the serials of two runs are equal only
/// if the two random draws behind them are equal — an event whose
/// probability is vanishing for a cryptographically secure source.
pub proof fn lemma_be_value_injective(a: Seq<u8>, b: Seq<u8>)
    requires
        a.len() == b.len(),
        be_value(a) == be_value(b),
    ensures
        a == b,
    decreases a.len(),
{
    if a.len() == 0 {
        assert(a =~= b);
    } else {
        lemma_be_value_bound(a.drop_last());
        lemma_be_value_bound(b.drop_last());
        assert(256 * be_value(a.drop_last()) + a.last() == 256 * be_value(b.drop_last())
            + b.last());
        assert(a.last() == b.last());
        lemma_be_value_injective(a.drop_last(), b.drop_last());
        assert forall|i: int| 0 <= i < a.len() implies a[i] == b[i] by {
            if i < a.len() - 1 {
                assert(a.drop_last()[i] == a[i]);
                assert(b.drop_last()[i] == b[i]);
            } else {
                assert(a[i] == a.last());
                assert(b[i] == b.last());
            }
        }
        assert(a =~= b);
    }
}

/// Law: every generated certificate was signed with the very key pair
/// whose public half it embeds — the precondition for its signature to
/// verify against its own public key.
pub proof fn lemma_signed_with_embedded_key(
    key: &PKey<Private>,
    cert: &X509,
    subject_entries: Seq<(u64, Seq<char>)>,
    days: u32,
    bits: u32,
    with_eku: bool,
    now: i64,
)
    requires
        built_from(key, cert, subject_entries, days, bits, with_eku, now),
    ensures
        cert_data(cert).signer == cert_data(cert).pubkey,
        cert_data(cert).pubkey == Some(pkey_ident(key)),
{
}

} // verus!
