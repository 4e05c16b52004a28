//! What can end the server, and the transport's own error types.

use crate::shutdown::ShutdownError;
use crate::tls::CertificateError;
use vstd::prelude::*;

verus! {

/// Why `quinn` lost a connection.
#[verifier::external_type_specification]
#[verifier::external_body]
pub struct ExConnectionError(quinn::ConnectionError);

/// Why `quinn` could not start to connect.
#[verifier::external_type_specification]
#[verifier::external_body]
pub struct ExConnectError(quinn::ConnectError);

/// Why `hyper` gave up an exchange.
#[verifier::external_type_specification]
#[verifier::external_body]
pub struct ExHyperError(hyper::Error);

/// Why `hyper` could not build a request.
#[verifier::external_type_specification]
#[verifier::external_body]
pub struct ExHttpError(hyper::http::Error);

/// `quinn`'s complaint that a TLS configuration has no cipher suite for the
/// first packets.
#[verifier::external_type_specification]
#[verifier::external_body]
pub struct ExNoInitialCipherSuite(quinn::crypto::rustls::NoInitialCipherSuite);

/// What can end the server or one of its sessions.
#[derive(Debug)]
pub enum ServerError {
    Connection(quinn::ConnectionError),
    Http(hyper::Error),
    Certificate(CertificateError),
    Shutdown(ShutdownError),
    Tls(rustls::Error),
    QuicConfig(quinn::crypto::rustls::NoInitialCipherSuite),
    Io(std::io::Error),
}

} // verus!
