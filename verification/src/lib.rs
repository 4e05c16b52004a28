//! Request/response exchanges over one encrypted, stream-multiplexed
//! session: the decisions of both ends, kept apart from the sockets.
//!
//! The library decides and the caller performs. It issues certificates and
//! reads them back from their transported form, says what to listen and to
//! dial with, follows each session of a server from its handshake through
//! its streams to its drain, settles the race that ends the server, builds
//! the requests of a client and judges the responses. Sockets, tasks and
//! the wire encoding of an exchange stay with the caller.

pub mod api;
pub mod armor;
pub mod calendar;
pub mod client;
pub mod codec;
pub mod endpoint;
pub mod error;
pub mod exchange;
pub mod session;
pub mod shutdown;
pub mod tls;

pub use api::{healthz, ApiError, AppState, HealthResponse};
pub use client::{collect_body, ClientError, QuicClient};
pub use endpoint::serve;
pub use error::ServerError;
pub use shutdown::{signal, ShutdownError};
pub use tls::{
    decode_b64_pem, parse_rustls_from_pem, CertificateError, SelfSignedCertificate,
};
