//! The client: what it hands to the transport to dial, the requests it
//! sends once the session stands, and what it makes of a response.

use crate::armor;
use crate::endpoint::CloseFrame;
use crate::exchange::{is_success, request, request_headers, status_is_success, Method, Request};
use crate::tls::{
    alpn_protocols, alpn_token, anchor_of, certificate, certificate_contents, client_tls,
    client_tls_view, store_anchors, trust_only, CertificateError, ClientTlsView,
};
use rustls::pki_types::CertificateDer;
use std::sync::Arc;
use vstd::prelude::*;
use vstd::string::StrSliceExecFns;
use vstd::utf8::{decode_utf8, encode_utf8, valid_utf8};

verus! {

/// What can go wrong on the client.
#[derive(Debug)]
pub enum ClientError {
    Certificate(CertificateError),
    Pem(pem::PemError),
    Io(std::io::Error),
    Connect(quinn::ConnectError),
    Connection(quinn::ConnectionError),
    Tls(rustls::Error),
    QuicConfig(quinn::crypto::rustls::NoInitialCipherSuite),
    Hyper(hyper::Error),
    Http(hyper::http::Error),
    Json(serde_json::Error),
    /// The server answered with a status that is no success.
    Status { status: u16, body: String },
}

/// What the transport needs to dial: whom to expect and the TLS
/// configuration to connect with, and beside it what went into it for all
/// to see, the one certificate that is trusted and the application
/// protocols that are offered.
#[derive(Debug)]
pub struct DialPlan {
    pub server_name: String,
    pub trust_anchor: CertificateDer<'static>,
    pub alpn: Vec<Vec<u8>>,
    pub tls: rustls::ClientConfig,
}

/// The configuration of a client, as `quinn` holds it.
#[verifier::external_type_specification]
#[verifier::external_body]
pub struct ExQuicClientConfig(quinn::ClientConfig);

/// What the TLS configuration inside a `quinn::ClientConfig` holds.
pub uninterp spec fn quic_client_view(config: quinn::ClientConfig) -> ClientTlsView;

/// `quinn::ClientConfig::new` around a copy of the TLS configuration.
/// `quinn` takes the configuration exactly where its provider holds the
/// cipher suite for the first packets, and then connects with what the
/// configuration holds.
#[verifier::external_body]
pub(crate) fn quic_client(tls: &rustls::ClientConfig) -> (r: Result<quinn::ClientConfig, quinn::crypto::rustls::NoInitialCipherSuite>)
    ensures
        r is Ok <==> client_tls_view(*tls).initial_suite,
        r matches Ok(config) ==> quic_client_view(config) == client_tls_view(*tls),
{
    let crypto = quinn::crypto::rustls::QuicClientConfig::try_from(tls.clone())?;
    Ok(quinn::ClientConfig::new(Arc::new(crypto)))
}

impl DialPlan {
    /// The configuration with which the endpoint connects: the plan's TLS
    /// configuration as `quinn` takes it, or
    /// `Err(ClientError::QuicConfig(_))` where `quinn` refuses it.
    pub fn quic_config(&self) -> (r: Result<quinn::ClientConfig, ClientError>)
        ensures
            r is Ok <==> client_tls_view(self.tls).initial_suite,
            r matches Ok(config) ==> quic_client_view(config) == client_tls_view(self.tls),
            r matches Err(e) ==> e is QuicConfig,
    {
        Self::quic_outcome(quic_client(&self.tls))
    }

    /// What the client makes of `quinn`'s answer to a TLS configuration:
    /// the configuration where `quinn` took it, and
    /// `ClientError::QuicConfig` around the refusal where it did not.
    pub fn quic_outcome(
        answer: Result<quinn::ClientConfig, quinn::crypto::rustls::NoInitialCipherSuite>,
    ) -> (r: Result<quinn::ClientConfig, ClientError>)
        ensures
            match answer {
                Ok(config) => r == Ok::<quinn::ClientConfig, ClientError>(config),
                Err(refusal) => r == Err::<quinn::ClientConfig, ClientError>(
                    ClientError::QuicConfig(refusal),
                ),
            },
    {
        match answer {
            Ok(config) => Ok(config),
            Err(refusal) => Err(ClientError::QuicConfig(refusal)),
        }
    }
}

/// The family of an internet address.
#[derive(Clone, Copy, Debug, PartialEq, Eq, Structural)]
pub enum IpFamily {
    V4,
    V6,
}

/// A local address to bind to: the unspecified address of a family, and a
/// port, where 0 leaves the choice to the system.
#[derive(Clone, Copy, Debug, PartialEq, Eq, Structural)]
pub struct LocalBind {
    pub family: IpFamily,
    pub port: u16,
}

/// The local address from which to reach a server: any address of the
/// server's own family, any port.
pub fn local_bind(server: IpFamily) -> (r: LocalBind)
    ensures
        r == (LocalBind { family: server, port: 0 }),
{
    LocalBind { family: server, port: 0 }
}

/// The reason that a client gives when it closes its session.
pub open spec fn done_reason() -> Seq<u8> {
    encode_utf8("done"@)
}

/// The text that `String::from_utf8_lossy` reads from bytes.
pub uninterp spec fn lossy_text(bytes: Seq<u8>) -> Seq<char>;

/// `String::from_utf8_lossy`, owned. Bytes that are UTF-8 read as their
/// text; in others each ill-formed part is replaced, which the name
/// `lossy_text` stands for.
#[verifier::external_body]
pub(crate) fn utf8_lossy(bytes: &Vec<u8>) -> (text: String)
    ensures
        text@ == lossy_text(bytes@),
        valid_utf8(bytes@) ==> text@ == decode_utf8(bytes@),
{
    String::from_utf8_lossy(bytes).into_owned()
}

/// What a response means to the caller: the body to decode where the
/// status reports success, and otherwise an error that keeps the status and
/// the body as text.
pub fn collect_body(status: u16, bytes: Vec<u8>) -> (r: Result<Vec<u8>, ClientError>)
    ensures
        match r {
            Ok(body) => is_success(status) && body@ == bytes@,
            Err(ClientError::Status { status: s, body }) => {
                &&& !is_success(status)
                &&& s == status
                &&& body@ == lossy_text(bytes@)
                &&& valid_utf8(bytes@) ==> body@ == decode_utf8(bytes@)
            },
            Err(_) => false,
        },
{
    if status_is_success(status) {
        Ok(bytes)
    } else {
        Err(ClientError::Status { status, body: utf8_lossy(&bytes) })
    }
}

/// A client whose session stands.
#[derive(Debug)]
pub struct QuicClient {
    server_name: String,
}

impl QuicClient {
    /// The name under which the server proved its identity.
    pub closed spec fn server_name(&self) -> Seq<char> {
        self.server_name@
    }

    /// What to dial with: the server is expected to be `name` and to
    /// present a certificate that chains to the one in `cert_pem`, which is
    /// the only one trusted. There is a plan exactly where `cert_pem`
    /// parses and `rustls` takes a trust anchor from what it holds:
    /// `Err(ClientError::Pem(_))` where it does not parse,
    /// `Err(ClientError::Tls(_))` where it parses and `rustls` refuses it.
    /// The plan's configuration verifies against that one anchor, offers
    /// the one protocol, presents no certificate of its own, and is one
    /// that `quinn` takes.
    pub fn plan(name: &str, cert_pem: &str) -> (r: Result<DialPlan, ClientError>)
        ensures
            match r {
                Ok(plan) => {
                    &&& plan.server_name@ == name@
                    &&& armor::parsed_contents(cert_pem@) == Some(
                        certificate_contents(plan.trust_anchor),
                    )
                    &&& plan.alpn@.len() == 1
                    &&& plan.alpn@[0]@ == alpn_token()
                    &&& anchor_of(certificate_contents(plan.trust_anchor)) matches Some(anchor)
                    &&& client_tls_view(plan.tls) == (ClientTlsView {
                        anchors: seq![anchor],
                        protocols: seq![alpn_token()],
                        presents_certificate: false,
                        initial_suite: true,
                    })
                },
                Err(ClientError::Pem(_)) => armor::parsed_contents(cert_pem@) is None,
                Err(ClientError::Tls(_)) => armor::parsed_contents(cert_pem@) matches Some(der)
                    && anchor_of(der) is None,
                Err(_) => false,
            },
    {
        let der = match armor::parse_block(cert_pem) {
            Ok(der) => der,
            Err(e) => {
                return Err(ClientError::Pem(e));
            },
        };
        let trust_anchor = certificate(der.clone());
        let roots = match trust_only(certificate(der)) {
            Ok(roots) => roots,
            Err(e) => {
                return Err(ClientError::Tls(e));
            },
        };
        proof {
            assert(store_anchors(roots) =~= seq![store_anchors(roots)[0]]);
        }
        match client_tls(roots, alpn_protocols()) {
            Ok(tls) => Ok(
                DialPlan { server_name: name.to_owned(), trust_anchor, alpn: alpn_protocols(), tls },
            ),
            Err(e) => Err(ClientError::Tls(e)),
        }
    }

    /// The client that comes of dialing with `plan`: one whose session
    /// stands where the transport succeeded, none where it failed. Without
    /// a client no request can be made.
    pub fn connect(plan: DialPlan, dialed: Result<(), ClientError>) -> (r: Result<
        QuicClient,
        ClientError,
    >)
        ensures
            match dialed {
                Ok(_) => r matches Ok(client) && client.server_name() == plan.server_name@,
                Err(e) => r matches Err(cause) && cause == e,
            },
    {
        match dialed {
            Ok(_) => Ok(QuicClient { server_name: plan.server_name }),
            Err(e) => Err(e),
        }
    }

    /// The request that reads `path`. It goes out on a stream of its own.
    pub fn get(&self, path: &str) -> (r: Request)
        ensures
            r.method == Method::Get,
            r.path@ == path@,
            r.body@ == Seq::<u8>::empty(),
            request_headers(r.headers@),
    {
        request(Method::Get, path, Vec::new())
    }

    /// The request that sends `body` to `path`. It goes out on a stream of
    /// its own.
    pub fn post(&self, path: &str, body: Vec<u8>) -> (r: Request)
        ensures
            r.method == Method::Post,
            r.path@ == path@,
            r.body@ == body@,
            request_headers(r.headers@),
    {
        request(Method::Post, path, body)
    }

    /// The end of the client: the frame that closes its session. The
    /// caller then waits for the endpoint to go idle.
    pub fn close(self) -> (frame: CloseFrame)
        ensures
            frame.code == 0,
            frame.reason@ == done_reason(),
    {
        CloseFrame { code: 0, reason: "done".as_bytes_vec() }
    }
}

} // verus!
