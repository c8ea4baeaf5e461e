//! The trusted boundary around the cryptographic library. Every function
//! here is an `external_body` wrapper around exactly one `openssl` call;
//! its contract states what the call's documentation and source promise,
//! over an abstract model of the otherwise opaque certificate objects.
//!
//! The model: an `X509Builder` (and the `X509` it finally yields) is
//! described by a `CertData` value — the ASN.1 version, the subject and
//! issuer name entries as `(numeric identifier, text)` pairs, the serial
//! number, the validity bounds as Unix timestamps, an abstract identity
//! of the public key it embeds and of the key that signed it, and the
//! count of attached extensions. Each setter wrapper states which field
//! it sets and that the rest are kept.

use vstd::prelude::*;
use openssl::asn1::Asn1Integer;
use openssl::asn1::Asn1Time;
use openssl::bn::BigNum;
use openssl::error::ErrorStack;
use openssl::hash::MessageDigest;
use openssl::nid::Nid;
use openssl::pkey::PKey;
use openssl::pkey::Private;
use openssl::rsa::Rsa;
use openssl::x509::extension::BasicConstraints;
use openssl::x509::extension::ExtendedKeyUsage;
use openssl::x509::X509;
use openssl::x509::X509Builder;
use openssl::x509::X509Extension;
use openssl::x509::X509Name;
use openssl::x509::X509NameBuilder;

verus! {

#[verifier::external_type_specification]
#[verifier::external_body]
pub struct ExErrorStack(ErrorStack);

#[verifier::external_type_specification]
#[verifier::external_body]
pub struct ExPrivate(Private);

#[verifier::external_type_specification]
#[verifier::external_body]
#[verifier::reject_recursive_types(T)]
pub struct ExRsa<T>(Rsa<T>);

#[verifier::external_type_specification]
#[verifier::external_body]
#[verifier::reject_recursive_types(T)]
pub struct ExPKey<T>(PKey<T>);

#[verifier::external_type_specification]
#[verifier::external_body]
pub struct ExX509NameBuilder(X509NameBuilder);

#[verifier::external_type_specification]
#[verifier::external_body]
pub struct ExX509Name(X509Name);

#[verifier::external_type_specification]
#[verifier::external_body]
pub struct ExX509Builder(X509Builder);

#[verifier::external_type_specification]
#[verifier::external_body]
pub struct ExX509(X509);

#[verifier::external_type_specification]
#[verifier::external_body]
pub struct ExX509Extension(X509Extension);

#[verifier::external_type_specification]
#[verifier::external_body]
pub struct ExAsn1Time(Asn1Time);

#[verifier::external_type_specification]
#[verifier::external_body]
pub struct ExAsn1Integer(Asn1Integer);

#[verifier::external_type_specification]
#[verifier::external_body]
pub struct ExBigNum(BigNum);

/// The distinguished-name attributes this library writes, in the numeric
/// form the ASN.1 object registry gives them.
#[derive(Clone, Copy, PartialEq, Eq, Structural)]
pub enum DnAttr {
    Common,
    Country,
    Org,
    OrgUnit,
    State,
    Locality,
}

/// The registry's numeric identifier of each attribute kind
/// (commonName 13, countryName 14, localityName 15,
/// stateOrProvinceName 16, organizationName 17,
/// organizationalUnitName 18).
pub open spec fn dn_attr_nid(a: DnAttr) -> u64 {
    match a {
        DnAttr::Common => 13,
        DnAttr::Country => 14,
        DnAttr::Locality => 15,
        DnAttr::State => 16,
        DnAttr::Org => 17,
        DnAttr::OrgUnit => 18,
    }
}

/// The content of an X.509 extension, as far as this library's contracts
/// speak of it. Only the two extension builders below create extensions,
/// so only their two contents carry a variant of their own.
pub enum ExtKind {
    /// A Basic Constraints extension marked critical, with CA set and a
    /// path length constraint of zero.
    BasicConstraintsCritCaPathZero,
    /// An Extended Key Usage extension permitting exactly server and
    /// client authentication.
    EkuServerClientAuth,
    /// Any other extension content.
    Other,
}

/// Abstract contents of a certificate under construction, and of a built
/// certificate: everything the library's contracts speak about. A `None`
/// means the field has not been set. Key identities are abstract labels:
/// two equal labels stand for the same underlying key pair.
#[verifier::ext_equal]
pub struct CertData {
    pub version: int,
    pub subject: Seq<(u64, Seq<char>)>,
    pub issuer: Seq<(u64, Seq<char>)>,
    pub serial: Option<int>,
    pub not_before: Option<int>,
    pub not_after: Option<int>,
    pub pubkey: Option<int>,
    pub signer: Option<int>,
    pub exts: Seq<ExtKind>,
}

/// The entries a name builder has accumulated so far.
pub uninterp spec fn nb_entries(b: &X509NameBuilder) -> Seq<(u64, Seq<char>)>;

/// The entries of a built name.
pub uninterp spec fn name_entries(n: &X509Name) -> Seq<(u64, Seq<char>)>;

/// The modulus size, in bits, of an RSA private key.
pub uninterp spec fn rsa_bits(k: &Rsa<Private>) -> int;

/// The modulus size, in bits, of the key behind a `PKey`.
pub uninterp spec fn pkey_bits(k: &PKey<Private>) -> int;

/// Abstract identity of the key pair behind a `PKey`.
pub uninterp spec fn pkey_ident(k: &PKey<Private>) -> int;

/// The instant an ASN.1 time stands for, as Unix seconds.
pub uninterp spec fn asn1_time_unix(t: &Asn1Time) -> int;

/// The integer a big number stands for.
pub uninterp spec fn bn_value(n: &BigNum) -> int;

/// The integer an ASN.1 integer stands for.
pub uninterp spec fn asn1_int_value(n: &Asn1Integer) -> int;

/// The abstract contents of a certificate builder.
pub uninterp spec fn builder_data(b: &X509Builder) -> CertData;

/// The abstract contents of a built certificate.
pub uninterp spec fn cert_data(c: &X509) -> CertData;

/// The content of an extension value.
pub uninterp spec fn ext_kind(e: &X509Extension) -> ExtKind;

/// The PEM-encoded PKCS#8 form of a private key: a function of the key
/// alone (the key is written unencrypted, so no randomness enters).
pub uninterp spec fn key_pem_of(k: &PKey<Private>) -> Seq<u8>;

/// The PEM form of a certificate: a function of the certificate alone.
pub uninterp spec fn cert_pem_of(c: &X509) -> Seq<u8>;

/// The rendering of an error report as text: a function of the report
/// alone.
pub uninterp spec fn error_text_of(e: &ErrorStack) -> Seq<char>;

/// Relies on `Rsa::generate`: generates a fresh RSA key pair with a
/// modulus of the requested size.
#[verifier::external_body]
pub(crate) fn rsa_generate(bits: u32) -> (r: Result<Rsa<Private>, ErrorStack>)
    ensures
        r matches Ok(k) ==> rsa_bits(&k) == bits as int,
{
    Rsa::generate(bits)
}

/// Relies on `PKey::from_rsa`: wraps the given RSA key pair, which keeps
/// both the key itself and its modulus size.
#[verifier::external_body]
pub(crate) fn pkey_from_rsa(rsa: Rsa<Private>) -> (r: Result<PKey<Private>, ErrorStack>)
    ensures
        r matches Ok(k) ==> pkey_bits(&k) == rsa_bits(&rsa),
{
    PKey::from_rsa(rsa)
}

/// Relies on `X509NameBuilder::new` (`X509_NAME_new`): a fresh name holds
/// no entries.
#[verifier::external_body]
pub(crate) fn new_name_builder() -> (r: Result<X509NameBuilder, ErrorStack>)
    ensures
        r matches Ok(b) ==> nb_entries(&b) == Seq::<(u64, Seq<char>)>::empty(),
{
    X509NameBuilder::new()
}

/// Relies on `X509NameBuilder::append_entry_by_nid`: appends one entry,
/// with the given attribute's numeric identifier, after the existing ones.
/// The call asserts that the value has at most `i32::MAX` bytes and
/// panics beyond that; a UTF-8 character takes at most four bytes, so
/// the precondition (stated over characters) keeps every admitted value
/// below that limit.
#[verifier::external_body]
pub(crate) fn name_append_entry(
    b: &mut X509NameBuilder,
    attr: DnAttr,
    value: &str,
) -> (r: Result<(), ErrorStack>)
    requires
        4 * value@.len() <= i32::MAX as int,
    ensures
        r is Ok ==> nb_entries(final(b)) == nb_entries(old(b)).push(
            (dn_attr_nid(attr), value@),
        ),
{
    let nid = match attr {
        DnAttr::Common => Nid::COMMONNAME,
        DnAttr::Country => Nid::COUNTRYNAME,
        DnAttr::Org => Nid::ORGANIZATIONNAME,
        DnAttr::OrgUnit => Nid::ORGANIZATIONALUNITNAME,
        DnAttr::State => Nid::STATEORPROVINCENAME,
        DnAttr::Locality => Nid::LOCALITYNAME,
    };
    b.append_entry_by_nid(nid, value)
}

/// Relies on `X509NameBuilder::build`: the built name carries exactly the
/// appended entries. The call round-trips the name through its DER form
/// and unwraps both steps; those can fail only on an allocation or
/// encoding failure inside the C library, not on any input this library
/// admits.
#[verifier::external_body]
pub(crate) fn name_build(b: X509NameBuilder) -> (n: X509Name)
    ensures
        name_entries(&n) == nb_entries(&b),
{
    b.build()
}

/// Relies on `X509Builder::new` (`X509_new`): a fresh certificate has
/// empty subject and issuer names, version value 0, nothing else set and
/// no extensions.
#[verifier::external_body]
pub(crate) fn new_x509_builder() -> (r: Result<X509Builder, ErrorStack>)
    ensures
        r matches Ok(b) ==> builder_data(&b) == (CertData {
            version: 0,
            subject: Seq::<(u64, Seq<char>)>::empty(),
            issuer: Seq::<(u64, Seq<char>)>::empty(),
            serial: None,
            not_before: None,
            not_after: None,
            pubkey: None,
            signer: None,
            exts: Seq::<ExtKind>::empty(),
        }),
{
    X509Builder::new()
}

/// Relies on `X509Builder::set_version`: sets the (zero-indexed) version
/// value and touches nothing else.
#[verifier::external_body]
pub(crate) fn set_version(b: &mut X509Builder, version: i32) -> (r: Result<(), ErrorStack>)
    ensures
        r is Ok ==> builder_data(final(b)) == (CertData {
            version: version as int,
            ..builder_data(old(b))
        }),
{
    b.set_version(version)
}

/// Relies on `X509Builder::set_subject_name`: copies the given name in as
/// the subject and touches nothing else.
#[verifier::external_body]
pub(crate) fn set_subject_name(b: &mut X509Builder, n: &X509Name) -> (r: Result<(), ErrorStack>)
    ensures
        r is Ok ==> builder_data(final(b)) == (CertData {
            subject: name_entries(n),
            ..builder_data(old(b))
        }),
{
    b.set_subject_name(n)
}

/// Relies on `X509Builder::set_issuer_name`: copies the given name in as
/// the issuer and touches nothing else.
#[verifier::external_body]
pub(crate) fn set_issuer_name(b: &mut X509Builder, n: &X509Name) -> (r: Result<(), ErrorStack>)
    ensures
        r is Ok ==> builder_data(final(b)) == (CertData {
            issuer: name_entries(n),
            ..builder_data(old(b))
        }),
{
    b.set_issuer_name(n)
}

/// Relies on `X509Builder::set_pubkey`: embeds the public half of the
/// given key and touches nothing else.
#[verifier::external_body]
pub(crate) fn set_pubkey(b: &mut X509Builder, key: &PKey<Private>) -> (r: Result<(), ErrorStack>)
    ensures
        r is Ok ==> builder_data(final(b)) == (CertData {
            pubkey: Some(pkey_ident(key)),
            ..builder_data(old(b))
        }),
{
    b.set_pubkey(key)
}

/// Relies on `X509Builder::set_not_before`: sets the start of the
/// validity window and touches nothing else.
#[verifier::external_body]
pub(crate) fn set_not_before(b: &mut X509Builder, t: &Asn1Time) -> (r: Result<(), ErrorStack>)
    ensures
        r is Ok ==> builder_data(final(b)) == (CertData {
            not_before: Some(asn1_time_unix(t)),
            ..builder_data(old(b))
        }),
{
    b.set_not_before(t)
}

/// Relies on `X509Builder::set_not_after`: sets the end of the validity
/// window and touches nothing else.
#[verifier::external_body]
pub(crate) fn set_not_after(b: &mut X509Builder, t: &Asn1Time) -> (r: Result<(), ErrorStack>)
    ensures
        r is Ok ==> builder_data(final(b)) == (CertData {
            not_after: Some(asn1_time_unix(t)),
            ..builder_data(old(b))
        }),
{
    b.set_not_after(t)
}

/// Relies on `X509Builder::set_serial_number`: sets the serial number and
/// touches nothing else.
#[verifier::external_body]
pub(crate) fn set_serial_number(
    b: &mut X509Builder,
    n: &Asn1Integer,
) -> (r: Result<(), ErrorStack>)
    ensures
        r is Ok ==> builder_data(final(b)) == (CertData {
            serial: Some(asn1_int_value(n)),
            ..builder_data(old(b))
        }),
{
    b.set_serial_number(n)
}

/// Relies on `X509Builder::append_extension` (`X509_add_ext`): adds the
/// given extension after the existing ones and touches nothing else.
#[verifier::external_body]
pub(crate) fn append_extension(
    b: &mut X509Builder,
    ext: X509Extension,
) -> (r: Result<(), ErrorStack>)
    ensures
        r is Ok ==> builder_data(final(b)) == (CertData {
            exts: builder_data(old(b)).exts.push(ext_kind(&ext)),
            ..builder_data(old(b))
        }),
{
    b.append_extension(ext)
}

/// Relies on `X509Builder::sign` with `MessageDigest::sha256`: signs the
/// certificate with the given private key and a SHA-256 digest, recording
/// the signature; the modelled fields themselves are left as they are.
#[verifier::external_body]
pub(crate) fn sign_sha256(b: &mut X509Builder, key: &PKey<Private>) -> (r: Result<(), ErrorStack>)
    ensures
        r is Ok ==> builder_data(final(b)) == (CertData {
            signer: Some(pkey_ident(key)),
            ..builder_data(old(b))
        }),
{
    b.sign(key, MessageDigest::sha256())
}

/// Relies on `X509Builder::build`: the built certificate carries exactly
/// what was put into the builder.
#[verifier::external_body]
pub(crate) fn x509_build(b: X509Builder) -> (c: X509)
    ensures
        cert_data(&c) == builder_data(&b),
{
    b.build()
}

/// Relies on `Asn1Time::from_unix`: the resulting time stands for the
/// given Unix timestamp.
#[verifier::external_body]
pub(crate) fn asn1_time_from_unix(t: i64) -> (r: Result<Asn1Time, ErrorStack>)
    ensures
        r matches Ok(at) ==> asn1_time_unix(&at) == t as int,
{
    Asn1Time::from_unix(t)
}

/// Relies on `rand::rand_bytes`: fills the buffer in place with
/// cryptographically secure random bytes, keeping its length. The call
/// asserts that the buffer has at most `i32::MAX` bytes and panics
/// beyond that, so the precondition keeps such buffers out.
#[verifier::external_body]
pub(crate) fn rand_fill(buf: &mut Vec<u8>) -> (r: Result<(), ErrorStack>)
    requires
        old(buf)@.len() <= i32::MAX as int,
    ensures
        final(buf)@.len() == old(buf)@.len(),
{
    openssl::rand::rand_bytes(buf.as_mut_slice())
}

/// Relies on `BigNum::from_slice`: reads the bytes as an unsigned
/// big-endian integer. The call asserts that the slice has at most
/// `i32::MAX` bytes and panics beyond that, so the precondition keeps
/// such slices out.
#[verifier::external_body]
pub(crate) fn bn_from_slice(bytes: &Vec<u8>) -> (r: Result<BigNum, ErrorStack>)
    requires
        bytes@.len() <= i32::MAX as int,
    ensures
        r matches Ok(n) ==> bn_value(&n) == crate::gen::be_value(bytes@),
{
    BigNum::from_slice(bytes.as_slice())
}

/// Relies on `Asn1Integer::from_bn`: converts the big number to an ASN.1
/// integer of the same value.
#[verifier::external_body]
pub(crate) fn asn1_int_from_bn(n: &BigNum) -> (r: Result<Asn1Integer, ErrorStack>)
    ensures
        r matches Ok(a) ==> asn1_int_value(&a) == bn_value(n),
{
    Asn1Integer::from_bn(n)
}

/// Relies on `BasicConstraints`: builds a Basic Constraints extension
/// marked critical, with CA set and a path length constraint of zero.
#[verifier::external_body]
pub(crate) fn build_basic_constraints_ext() -> (r: Result<X509Extension, ErrorStack>)
    ensures
        r matches Ok(e) ==> ext_kind(&e) == ExtKind::BasicConstraintsCritCaPathZero,
{
    BasicConstraints::new().critical().ca().pathlen(0).build()
}

/// Relies on `ExtendedKeyUsage`: builds an Extended Key Usage extension
/// permitting exactly server and client authentication.
#[verifier::external_body]
pub(crate) fn build_ext_key_usage() -> (r: Result<X509Extension, ErrorStack>)
    ensures
        r matches Ok(e) ==> ext_kind(&e) == ExtKind::EkuServerClientAuth,
{
    ExtendedKeyUsage::new().server_auth().client_auth().build()
}

/// Relies on `PKey::private_key_to_pem_pkcs8`: serializes the private key
/// as PEM-encoded PKCS#8 text, a function of the key alone.
#[verifier::external_body]
pub(crate) fn private_key_to_pem(key: &PKey<Private>) -> (r: Result<Vec<u8>, ErrorStack>)
    ensures
        r matches Ok(p) ==> p@ == key_pem_of(key),
{
    key.private_key_to_pem_pkcs8()
}

/// Relies on `X509::to_pem`: serializes the certificate as PEM text, a
/// function of the certificate alone.
#[verifier::external_body]
pub(crate) fn x509_to_pem(c: &X509) -> (r: Result<Vec<u8>, ErrorStack>)
    ensures
        r matches Ok(p) ==> p@ == cert_pem_of(c),
{
    c.to_pem()
}

/// Relies on `ErrorStack`'s `Display` implementation: renders the
/// library's error report as text, a function of the report alone.
#[verifier::external_body]
pub(crate) fn error_text(e: &ErrorStack) -> (r: String)
    ensures
        r@ == error_text_of(e),
{
    format!("{}", e)
}

} // verus!
