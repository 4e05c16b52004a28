//! The certificate provisioner: self-signed certificates for `localhost`,
//! their PEM text, and the way back from transported text to key material.

use crate::armor;
use crate::calendar::{self, Validity, MAX_SPAN_DAYS};
use crate::codec;
use rustls::pki_types::{CertificateDer, PrivateKeyDer};
use std::sync::Arc;
use vstd::prelude::*;
use vstd::utf8::{decode_utf8, encode_utf8, valid_utf8};

verus! {

/// The error with which `rcgen` refuses to make a key or a certificate.
#[verifier::external_type_specification]
#[verifier::external_body]
pub struct ExRcgenError(rcgen::Error);

/// A key pair as `rcgen` holds it.
#[verifier::external_type_specification]
#[verifier::external_body]
pub struct ExKeyPair(rcgen::KeyPair);

/// An I/O error of the standard library.
#[verifier::external_type_specification]
#[verifier::external_body]
pub struct ExIoError(std::io::Error);

/// The error with which `String::from_utf8` refuses bytes.
#[verifier::external_type_specification]
#[verifier::external_body]
pub struct ExFromUtf8Error(std::string::FromUtf8Error);

/// A certificate in DER, as `rustls` takes it.
#[verifier::external_type_specification]
#[verifier::external_body]
pub struct ExCertificateDer<'a>(CertificateDer<'a>);

/// A private key in DER, as `rustls` takes it.
#[verifier::external_type_specification]
#[verifier::external_body]
pub struct ExPrivateKeyDer<'a>(PrivateKeyDer<'a>);

/// The certificates that a `rustls` client trusts.
#[verifier::external_type_specification]
#[verifier::external_body]
pub struct ExRootCertStore(rustls::RootCertStore);

/// The TLS configuration of a client, as `rustls` holds it.
#[verifier::external_type_specification]
#[verifier::external_body]
pub struct ExClientConfig(rustls::ClientConfig);

/// The TLS configuration of a server, as `rustls` holds it.
#[verifier::external_type_specification]
#[verifier::external_body]
pub struct ExServerConfig(rustls::ServerConfig);

/// Why `rustls` refused a configuration or a peer.
#[verifier::external_type_specification]
#[verifier::external_body]
pub struct ExTlsError(rustls::Error);

/// The bytes that a certificate holds.
pub uninterp spec fn certificate_contents(cert: CertificateDer<'static>) -> Seq<u8>;

/// The bytes that a private key holds.
pub uninterp spec fn private_key_contents(key: PrivateKeyDer<'static>) -> Seq<u8>;

/// Whether a private key is marked as PKCS#8.
pub uninterp spec fn is_pkcs8(key: PrivateKeyDer<'static>) -> bool;

/// The bytes of a private key, where it is marked as PKCS#8.
pub open spec fn pkcs8_contents(key: PrivateKeyDer<'static>) -> Option<Seq<u8>> {
    if is_pkcs8(key) {
        Some(private_key_contents(key))
    } else {
        None
    }
}

/// What can go wrong while providing or loading a certificate.
#[derive(Debug)]
pub enum CertificateError {
    /// `rcgen` could not make the key or the certificate.
    Generation(rcgen::Error),
    /// A file could not be written.
    Io(std::io::Error),
    /// A text is not PEM.
    PemParse(pem::PemError),
    /// A text is not canonical base64.
    Base64(base64::DecodeError),
    /// Decoded bytes are not UTF-8.
    Utf8(std::string::FromUtf8Error),
    /// The validity window leaves the four-digit years.
    Validity,
}

/// `String::from_utf8`: the text of the bytes where they are UTF-8, an error
/// where they are not.
#[verifier::external_body]
pub(crate) fn string_from_utf8(bytes: Vec<u8>) -> (r: Result<String, std::string::FromUtf8Error>)
    ensures
        r matches Ok(text) ==> valid_utf8(bytes@) && text@ == decode_utf8(bytes@),
        r is Err ==> !valid_utf8(bytes@),
{
    String::from_utf8(bytes)
}

/// `PrivateKeyDer::Pkcs8` around the bytes: a key that holds exactly them
/// and is marked as PKCS#8.
#[verifier::external_body]
pub(crate) fn pkcs8_key(der: Vec<u8>) -> (key: PrivateKeyDer<'static>)
    ensures
        is_pkcs8(key),
        private_key_contents(key) == der@,
{
    PrivateKeyDer::Pkcs8(der.into())
}

/// `CertificateDer::from` on the bytes: a certificate that holds exactly
/// them.
#[verifier::external_body]
pub(crate) fn certificate(der: Vec<u8>) -> (cert: CertificateDer<'static>)
    ensures
        certificate_contents(cert) == der@,
{
    CertificateDer::from(der)
}

/// A trust anchor: what `rustls` keeps of a certificate that it trusts.
pub ghost struct TrustAnchorView {
    pub subject: Seq<u8>,
    pub subject_public_key_info: Seq<u8>,
    pub name_constraints: Option<Seq<u8>>,
}

/// The trust anchor that `rustls` takes from a certificate in DER, or
/// nothing where it refuses the certificate.
pub uninterp spec fn anchor_of(der: Seq<u8>) -> Option<TrustAnchorView>;

/// The trust anchors that a store holds, in the order of their arrival.
pub uninterp spec fn store_anchors(roots: rustls::RootCertStore) -> Seq<TrustAnchorView>;

/// What a client's TLS configuration holds, as far as this library cares.
pub ghost struct ClientTlsView {
    /// The trust anchors against which a server is verified.
    pub anchors: Seq<TrustAnchorView>,
    /// The application protocols that are offered.
    pub protocols: Seq<Seq<u8>>,
    /// Whether the client has a certificate of its own to present.
    pub presents_certificate: bool,
    /// Whether the provider holds the cipher suite that protects the first
    /// packets of a QUIC connection.
    pub initial_suite: bool,
}

/// What a `rustls::ClientConfig` holds.
pub uninterp spec fn client_tls_view(tls: rustls::ClientConfig) -> ClientTlsView;

/// What a server's TLS configuration holds, as far as this library cares.
pub ghost struct ServerTlsView {
    /// The certificates that are presented, first the server's own.
    pub chain: Seq<Seq<u8>>,
    /// The application protocols that are accepted.
    pub protocols: Seq<Seq<u8>>,
    /// Whether a certificate is asked of the client.
    pub asks_certificate: bool,
    /// Whether the provider holds the cipher suite that protects the first
    /// packets of a QUIC connection.
    pub initial_suite: bool,
}

/// What a `rustls::ServerConfig` holds.
pub uninterp spec fn server_tls_view(tls: rustls::ServerConfig) -> ServerTlsView;

/// Whether `key_der` holds a private key that serves the certificate in
/// `cert_der`: one that `rustls` reads, and whose public half it does not
/// find to differ from the certificate's.
pub uninterp spec fn key_serves(key_der: Seq<u8>, cert_der: Seq<u8>) -> bool;

/// `RootCertStore::add` on an empty store. `rustls` takes a trust anchor
/// from the certificate, which `anchor_of` names, and the store then
/// holds that anchor alone; where it takes none, the error is its
/// refusal.
#[verifier::external_body]
pub(crate) fn trust_only(anchor: CertificateDer<'static>) -> (r: Result<rustls::RootCertStore, rustls::Error>)
    ensures
        r matches Ok(roots) ==> anchor_of(certificate_contents(anchor)) == Some(
            store_anchors(roots)[0],
        ) && store_anchors(roots).len() == 1,
        r is Err ==> anchor_of(certificate_contents(anchor)) is None,
{
    let mut roots = rustls::RootCertStore::empty();
    roots.add(anchor)?;
    Ok(roots)
}

/// `rustls::ClientConfig`, built with the `ring` provider and its default
/// protocol versions, the given trust store, no client certificate, and
/// the given application protocols. With that provider the builder
/// refuses nothing: it holds suites for the default versions, among them
/// the one for the first packets of QUIC, and key exchange groups for all
/// of them. The configuration verifies against the anchors of the store,
/// offers the protocols as given, and presents no certificate.
#[verifier::external_body]
pub(crate) fn client_tls(roots: rustls::RootCertStore, alpn: Vec<Vec<u8>>) -> (r: Result<rustls::ClientConfig, rustls::Error>)
    ensures
        r is Ok,
        r matches Ok(tls) ==> client_tls_view(tls) == (ClientTlsView {
            anchors: store_anchors(roots),
            protocols: alpn.deep_view(),
            presents_certificate: false,
            initial_suite: true,
        }),
{
    let provider = Arc::new(rustls::crypto::ring::default_provider());
    let mut tls = rustls::ClientConfig::builder_with_provider(provider)
        .with_safe_default_protocol_versions()?
        .with_root_certificates(roots)
        .with_no_client_auth();
    tls.alpn_protocols = alpn;
    Ok(tls)
}

/// `rustls::ServerConfig`, built with the `ring` provider and its default
/// protocol versions, no demand for a client certificate, the given
/// certificate with its key, and the given application protocols. `rustls`
/// refuses a key that it cannot read or that does not belong to the
/// certificate, and reading a key draws on the system's random source, so
/// nothing is claimed of when it succeeds. Where it does, the key serves
/// the certificate, and the configuration presents the certificate alone,
/// accepts the protocols as given, asks no certificate of a client, and
/// its provider holds the suite for the first packets of QUIC.
#[verifier::external_body]
pub(crate) fn server_tls(
    certificate: CertificateDer<'static>,
    key: PrivateKeyDer<'static>,
    alpn: Vec<Vec<u8>>,
) -> (r: Result<rustls::ServerConfig, rustls::Error>)
    ensures
        r matches Ok(tls) ==> server_tls_view(tls) == (ServerTlsView {
            chain: seq![certificate_contents(certificate)],
            protocols: alpn.deep_view(),
            asks_certificate: false,
            initial_suite: true,
        }),
        r is Ok ==> key_serves(private_key_contents(key), certificate_contents(certificate)),
{
    let provider = Arc::new(rustls::crypto::ring::default_provider());
    let mut tls = rustls::ServerConfig::builder_with_provider(provider)
        .with_safe_default_protocol_versions()?
        .with_no_client_auth()
        .with_single_cert(vec![certificate], key)?;
    tls.alpn_protocols = alpn;
    Ok(tls)
}

/// The text that a transported value carries: the UTF-8 reading of the
/// bytes that it encodes in canonical base64, where it does so.
pub open spec fn transported_text(b64: Seq<char>) -> Option<Seq<char>> {
    match codec::decode(b64) {
        Some(bytes) => if valid_utf8(bytes) {
            Some(decode_utf8(bytes))
        } else {
            None
        },
        None => None,
    }
}

/// Why a transported value carries no text.
#[derive(Clone, Copy, Debug, PartialEq, Eq, Structural)]
pub enum TextFault {
    /// The value is not canonical base64.
    NotBase64,
    /// The value is canonical base64 of bytes that are not UTF-8.
    NotUtf8,
}

/// What is wrong with a transported value, if anything.
pub open spec fn text_fault(b64: Seq<char>) -> Option<TextFault> {
    match codec::decode(b64) {
        None => Some(TextFault::NotBase64),
        Some(bytes) => if valid_utf8(bytes) {
            None
        } else {
            Some(TextFault::NotUtf8)
        },
    }
}

/// The fault that an error reports, if it reports one of a transported
/// value.
pub open spec fn reported_fault(e: CertificateError) -> Option<TextFault> {
    match e {
        CertificateError::Base64(_) => Some(TextFault::NotBase64),
        CertificateError::Utf8(_) => Some(TextFault::NotUtf8),
        _ => None,
    }
}

/// The text that a base64-wrapped value carries, or the error that
/// reports what is wrong with the value.
pub fn decode_b64_pem(b64: &str) -> (r: Result<String, CertificateError>)
    ensures
        match r {
            Ok(text) => transported_text(b64@) == Some(text@),
            Err(e) => reported_fault(e) is Some && reported_fault(e) == text_fault(b64@),
        },
{
    match codec::decode_standard(b64) {
        Err(e) => Err(CertificateError::Base64(e)),
        Ok(bytes) => {
            proof {
                codec::lemma_decode_encode(bytes@);
            }
            match string_from_utf8(bytes) {
                Ok(text) => Ok(text),
                Err(e) => Err(CertificateError::Utf8(e)),
            }
        },
    }
}

/// Decoding gives back every text from the base64 of its UTF-8 bytes.
pub proof fn lemma_b64_text_round_trip(text: Seq<char>)
    ensures
        transported_text(codec::encode(encode_utf8(text))) == Some(text),
{
    codec::lemma_decode_encode(encode_utf8(text));
    vstd::utf8::encode_utf8_valid_utf8(text);
    vstd::utf8::encode_utf8_decode_utf8(text);
}

/// The DER of the key and of the certificate that two PEM texts hold. Both
/// texts must parse; the key's text is read first.
pub fn parse_der_from_pem(cert: &str, key: &str) -> (r: Result<(Vec<u8>, Vec<u8>), CertificateError>)
    ensures
        match r {
            Ok((key_der, cert_der)) => {
                &&& armor::parsed_contents(key@) == Some(key_der@)
                &&& armor::parsed_contents(cert@) == Some(cert_der@)
            },
            Err(e) => {
                &&& e is PemParse
                &&& armor::parsed_contents(key@) is None || armor::parsed_contents(cert@) is None
            },
        },
        (forall|key_tag: Seq<char>, key_der: Seq<u8>, cert_tag: Seq<char>, cert_der: Seq<u8>|
            {
                &&& armor::is_label(key_tag)
                &&& armor::is_label(cert_tag)
                &&& #[trigger] armor::armor(key_tag, key_der) == key@
                &&& #[trigger] armor::armor(cert_tag, cert_der) == cert@
            } ==> (r matches Ok((k, c)) && k@ == key_der && c@ == cert_der)),
{
    let key_der = match armor::parse_block(key) {
        Ok(bytes) => bytes,
        Err(e) => {
            return Err(CertificateError::PemParse(e));
        },
    };
    let cert_der = match armor::parse_block(cert) {
        Ok(bytes) => bytes,
        Err(e) => {
            return Err(CertificateError::PemParse(e));
        },
    };
    Ok((key_der, cert_der))
}

/// The key and the certificate that two PEM texts hold. Both texts must
/// parse; the key is taken to be PKCS#8. What was armored under a label
/// comes back as it was.
pub fn parse_rustls_from_pem(cert: &str, key: &str) -> (r: Result<
    (PrivateKeyDer<'static>, CertificateDer<'static>),
    CertificateError,
>)
    ensures
        match r {
            Ok((k, c)) => {
                &&& is_pkcs8(k)
                &&& armor::parsed_contents(key@) == Some(private_key_contents(k))
                &&& armor::parsed_contents(cert@) == Some(certificate_contents(c))
            },
            Err(e) => {
                &&& e is PemParse
                &&& armor::parsed_contents(key@) is None || armor::parsed_contents(cert@) is None
            },
        },
        (forall|key_tag: Seq<char>, key_der: Seq<u8>, cert_tag: Seq<char>, cert_der: Seq<u8>|
            {
                &&& armor::is_label(key_tag)
                &&& armor::is_label(cert_tag)
                &&& #[trigger] armor::armor(key_tag, key_der) == key@
                &&& #[trigger] armor::armor(cert_tag, cert_der) == cert@
            } ==> (r matches Ok((k, c)) && pkcs8_contents(k) == Some(key_der)
                && certificate_contents(c) == cert_der)),
{
    match parse_der_from_pem(cert, key) {
        Ok((key_der, cert_der)) => Ok((pkcs8_key(key_der), certificate(cert_der))),
        Err(e) => Err(e),
    }
}

/// The DER of the key and of the certificate that a server is started
/// with, each handed over as base64 of PEM text. The certificate's value
/// is decoded first, then the key's, then both texts are parsed.
pub fn identity_der(cert_pem_b64: &str, key_pem_b64: &str) -> (r: Result<
    (Vec<u8>, Vec<u8>),
    CertificateError,
>)
    ensures
        match r {
            Ok((key_der, cert_der)) => {
                &&& transported_text(cert_pem_b64@) matches Some(cert)
                &&& transported_text(key_pem_b64@) matches Some(key)
                &&& armor::parsed_contents(key) == Some(key_der@)
                &&& armor::parsed_contents(cert) == Some(cert_der@)
            },
            Err(CertificateError::PemParse(_)) => {
                &&& transported_text(cert_pem_b64@) matches Some(cert)
                &&& transported_text(key_pem_b64@) matches Some(key)
                &&& armor::parsed_contents(key) is None || armor::parsed_contents(cert) is None
            },
            Err(e) => {
                &&& reported_fault(e) is Some
                &&& reported_fault(e) == if text_fault(cert_pem_b64@) is Some {
                    text_fault(cert_pem_b64@)
                } else {
                    text_fault(key_pem_b64@)
                }
            },
        },
{
    let cert = match decode_b64_pem(cert_pem_b64) {
        Ok(text) => text,
        Err(e) => {
            return Err(e);
        },
    };
    let key = match decode_b64_pem(key_pem_b64) {
        Ok(text) => text,
        Err(e) => {
            return Err(e);
        },
    };
    parse_der_from_pem(cert.as_str(), key.as_str())
}

/// The one application protocol that both ends offer in the handshake.
pub open spec fn alpn_token() -> Seq<u8> {
    seq![104u8, 113u8, 45u8, 50u8, 57u8]
}

/// The list of application protocols to offer: the token `hq-29` alone.
pub fn alpn_protocols() -> (r: Vec<Vec<u8>>)
    ensures
        r@.len() == 1,
        r@[0]@ == alpn_token(),
        r.deep_view() == seq![alpn_token()],
{
    let mut token: Vec<u8> = Vec::new();
    token.push(104);
    token.push(113);
    token.push(45);
    token.push(50);
    token.push(57);
    assert(token@ =~= alpn_token());
    let mut list: Vec<Vec<u8>> = Vec::new();
    list.push(token);
    assert(list@[0].deep_view() =~= alpn_token());
    assert(list.deep_view() =~= seq![alpn_token()]);
    list
}

/// The label under which a certificate is armored.
pub open spec fn certificate_label() -> Seq<char> {
    "CERTIFICATE"@
}

/// The label under which a PKCS#8 private key is armored.
pub open spec fn private_key_label() -> Seq<char> {
    "PRIVATE KEY"@
}

/// Both labels frame unambiguously.
pub proof fn lemma_labels()
    ensures
        armor::is_label(certificate_label()),
        armor::is_label(private_key_label()),
{
    reveal_strlit("CERTIFICATE");
    reveal_strlit("PRIVATE KEY");
}

/// The name that a certificate of this library is issued to.
pub open spec fn subject_name() -> Seq<char> {
    "localhost"@
}

/// The names under which a certificate of this library is valid: the host
/// name and the two loopback addresses.
pub open spec fn subject_alt_names() -> Seq<Seq<char>> {
    seq!["localhost"@, "127.0.0.1"@, "::1"@]
}

/// See `subject_alt_names`.
pub fn alt_names() -> (names: Vec<String>)
    ensures
        names.deep_view() == subject_alt_names(),
{
    let mut names: Vec<String> = Vec::new();
    names.push("localhost".to_owned());
    names.push("127.0.0.1".to_owned());
    names.push("::1".to_owned());
    assert(names.deep_view() =~= subject_alt_names());
    names
}

/// The PKCS#8 encoding of the key pair that an `rcgen::KeyPair` holds.
pub uninterp spec fn key_pair_contents(key: rcgen::KeyPair) -> Seq<u8>;

/// Whether `key_der` is the PKCS#8 encoding of an ECDSA key pair on the
/// curve P-256.
pub uninterp spec fn is_p256_key(key_der: Seq<u8>) -> bool;

/// Whether `cert_der` is an X.509 certificate that the key pair in
/// `key_der` signed for itself, with `common_name` as the one part of its
/// subject and issuer, with exactly `alt_names` as subject alternative
/// names, each an address where its text reads as one and a host name
/// where it does not, and valid from midnight UTC of `validity.not_before`
/// to midnight UTC of `validity.not_after`.
pub uninterp spec fn certifies(
    cert_der: Seq<u8>,
    key_der: Seq<u8>,
    common_name: Seq<char>,
    alt_names: Seq<Seq<char>>,
    validity: Validity,
) -> bool;

/// Whether an `rcgen::KeyPair` holds its private key itself, rather than
/// reaching it through a signer elsewhere.
pub uninterp spec fn holds_private_key(key: rcgen::KeyPair) -> bool;

/// `rcgen::KeyPair::generate_for` with ECDSA over P-256 and SHA-256. The key
/// is random; where one is made, it is of that kind, and the key pair
/// holds it itself.
#[verifier::external_body]
pub(crate) fn new_key_pair() -> (r: Result<rcgen::KeyPair, rcgen::Error>)
    ensures
        r matches Ok(key) ==> holds_private_key(key) && is_p256_key(key_pair_contents(key)),
{
    rcgen::KeyPair::generate_for(&rcgen::PKCS_ECDSA_P256_SHA256)
}

/// `rcgen::KeyPair::serialize_der`: the key pair in PKCS#8, which
/// `key_pair_contents` names. `rcgen` panics on a key pair that does not
/// hold its private key, so the key pair must hold it.
#[verifier::external_body]
pub(crate) fn key_pair_der(key: &rcgen::KeyPair) -> (der: Vec<u8>)
    requires
        holds_private_key(*key),
    ensures
        der@ == key_pair_contents(*key),
{
    key.serialize_der()
}

/// `rcgen::CertificateParams::self_signed`, on parameters made by
/// `CertificateParams::new` from the subject alternative names, with the
/// common name and the two dates set, midnight UTC each. The dates must
/// exist and have four-digit years, or `rcgen` panics. Serial number and
/// signature are random; whatever certificate comes out, `rcgen` has
/// written these parameters into it and signed it with the key.
#[verifier::external_body]
pub(crate) fn self_signed_der(
    key: &rcgen::KeyPair,
    common_name: &str,
    names: Vec<String>,
    validity: Validity,
) -> (r: Result<Vec<u8>, rcgen::Error>)
    requires
        validity.wf(),
    ensures
        r matches Ok(der) ==> certifies(
            der@,
            key_pair_contents(*key),
            common_name@,
            names.deep_view(),
            validity,
        ),
{
    let mut params = rcgen::CertificateParams::new(names)?;
    params.distinguished_name = rcgen::DistinguishedName::new();
    params.distinguished_name.push(rcgen::DnType::CommonName, common_name);
    let (from, to) = (validity.not_before, validity.not_after);
    params.not_before = rcgen::date_time_ymd(from.year, from.month, from.day);
    params.not_after = rcgen::date_time_ymd(to.year, to.month, to.day);
    Ok(params.self_signed(key)?.der().to_vec())
}

/// A self-signed certificate with its private key, both in DER, and the
/// validity window it was issued for.
#[derive(Debug)]
pub struct SelfSignedCertificate {
    cert_der: Vec<u8>,
    key_der: Vec<u8>,
    validity: Validity,
}

/// What a `SelfSignedCertificate` holds.
pub ghost struct CertificateView {
    pub cert_der: Seq<u8>,
    pub key_der: Seq<u8>,
    pub validity: Validity,
}

impl View for SelfSignedCertificate {
    type V = CertificateView;

    closed spec fn view(&self) -> CertificateView {
        CertificateView {
            cert_der: self.cert_der@,
            key_der: self.key_der@,
            validity: self.validity,
        }
    }
}

impl SelfSignedCertificate {
    #[verifier::type_invariant]
    closed spec fn inv(self) -> bool {
        self.validity.wf()
    }

    /// The certificate made of a key and of what came of signing it: the
    /// certificate where signing succeeded, the signer's error where it
    /// failed. A window that no certificate can carry is refused first.
    pub fn assemble(validity: Validity, key_der: Vec<u8>, signed: Result<Vec<u8>, rcgen::Error>) -> (r:
        Result<Self, CertificateError>)
        ensures
            match r {
                Ok(c) => {
                    &&& validity.wf()
                    &&& signed matches Ok(cert_der)
                    &&& c@ == (CertificateView { cert_der: cert_der@, key_der: key_der@, validity })
                },
                Err(CertificateError::Validity) => !validity.wf(),
                Err(CertificateError::Generation(cause)) => validity.wf() && signed == Err::<
                    Vec<u8>,
                    rcgen::Error,
                >(cause),
                Err(_) => false,
            },
    {
        if !validity.check() {
            return Err(CertificateError::Validity);
        }
        match signed {
            Ok(cert_der) => Ok(SelfSignedCertificate { cert_der, key_der, validity }),
            Err(e) => Err(CertificateError::Generation(e)),
        }
    }

    /// A fresh certificate for `localhost`, `127.0.0.1` and `::1`, signed
    /// by its own fresh P-256 key, issued at `now_secs` seconds past the
    /// epoch and valid for `days` days from the day of issue. `Err(CertificateError::Validity)` exactly where the
    /// window leaves the four-digit years; otherwise the outcome is that of
    /// key generation and signing.
    pub fn generate_at(now_secs: i64, days: i64) -> (r: Result<Self, CertificateError>)
        ensures
            match r {
                Ok(c) => {
                    &&& c@.validity.wf()
                    &&& c@.validity.not_before.day_number() == calendar::epoch_day(now_secs as int)
                    &&& c@.validity.span_days() == days
                    &&& is_p256_key(c@.key_der)
                    &&& certifies(
                        c@.cert_der,
                        c@.key_der,
                        subject_name(),
                        subject_alt_names(),
                        c@.validity,
                    )
                },
                Err(CertificateError::Validity) => !(calendar::representable(
                    calendar::epoch_day(now_secs as int),
                ) && calendar::representable(calendar::epoch_day(now_secs as int) + days)),
                Err(CertificateError::Generation(_)) => calendar::representable(
                    calendar::epoch_day(now_secs as int),
                ) && calendar::representable(calendar::epoch_day(now_secs as int) + days),
                Err(_) => false,
            },
    {
        let validity = match calendar::validity_window(now_secs, days) {
            Some(v) => v,
            None => {
                return Err(CertificateError::Validity);
            },
        };
        let key = match new_key_pair() {
            Ok(k) => k,
            Err(e) => {
                return Err(CertificateError::Generation(e));
            },
        };
        let signed = self_signed_der(&key, "localhost", alt_names(), validity);
        Self::assemble(validity, key_pair_der(&key), signed)
    }

    /// A fresh certificate issued now and valid for `days` days from today.
    /// Whatever the clock says, the window spans exactly `days` days, and
    /// the certificate is one for `localhost` and the loopback addresses,
    /// signed by its own fresh P-256 key. A span longer than the four-digit
    /// years fits no window, whatever the clock says.
    pub fn generate_with_validity(days: i64) -> (r: Result<Self, CertificateError>)
        ensures
            match r {
                Ok(c) => {
                    &&& c@.validity.wf()
                    &&& c@.validity.span_days() == days
                    &&& is_p256_key(c@.key_der)
                    &&& certifies(
                        c@.cert_der,
                        c@.key_der,
                        subject_name(),
                        subject_alt_names(),
                        c@.validity,
                    )
                },
                Err(e) => e is Validity || e is Generation,
            },
            days < -MAX_SPAN_DAYS || days > MAX_SPAN_DAYS ==> r matches Err(
                CertificateError::Validity,
            ),
    {
        let r = Self::generate_at(calendar::now_secs(), days);
        proof {
            if r is Ok {
                calendar::lemma_representable_years(r->Ok_0@.validity.not_before);
                calendar::lemma_representable_years(r->Ok_0@.validity.not_after);
            }
        }
        r
    }

    /// The validity window: two dates that exist, with four-digit years.
    pub fn validity(&self) -> (r: Validity)
        ensures
            r == self@.validity,
            r.wf(),
    {
        proof {
            use_type_invariant(self);
        }
        self.validity
    }

    /// The certificate in DER.
    #[must_use]
    pub fn cert_der(&self) -> (r: Vec<u8>)
        ensures
            r@ == self@.cert_der,
    {
        self.cert_der.clone()
    }

    /// The private key in PKCS#8 DER.
    #[must_use]
    pub fn key_der(&self) -> (r: Vec<u8>)
        ensures
            r@ == self@.key_der,
    {
        self.key_der.clone()
    }

    /// The certificate as PEM text.
    #[must_use]
    pub fn cert_pem(&self) -> (r: String)
        ensures
            r@ == armor::armor(certificate_label(), self@.cert_der),
    {
        armor::encode_block("CERTIFICATE", self.cert_der())
    }

    /// The private key as PEM text.
    #[must_use]
    pub fn key_pem(&self) -> (r: String)
        ensures
            r@ == armor::armor(private_key_label(), self@.key_der),
    {
        armor::encode_block("PRIVATE KEY", self.key_der())
    }

    /// The key and the certificate as `rustls` takes them.
    #[must_use]
    pub fn to_rustls(&self) -> (r: (PrivateKeyDer<'static>, CertificateDer<'static>))
        ensures
            pkcs8_contents(r.0) == Some(self@.key_der),
            certificate_contents(r.1) == self@.cert_der,
    {
        (pkcs8_key(self.key_der()), certificate(self.cert_der()))
    }
}

} // verus!
