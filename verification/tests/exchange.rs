use std::sync::Arc;

use quic_exchange::api::{ErrorBody, ErrorReply};
use quic_exchange::client::{local_bind, DialPlan, IpFamily, LocalBind};
use quic_exchange::exchange::{
    request, status_is_success, Exchange, ExchangePhase, Method, ProtocolError, Request,
};
use quic_exchange::{
    collect_body, healthz, ApiError, AppState, ClientError, HealthResponse, QuicClient,
    SelfSignedCertificate,
};

fn client() -> QuicClient {
    let cert = SelfSignedCertificate::generate_with_validity(1).unwrap();
    let plan = QuicClient::plan("localhost", &cert.cert_pem()).unwrap();
    QuicClient::connect(plan, Ok(())).unwrap()
}

fn headers(r: &Request) -> Vec<(String, String)> {
    r.headers.iter().map(|h| (h.name.clone(), h.value.clone())).collect()
}

fn standard_headers() -> Vec<(String, String)> {
    vec![
        ("Connection".to_string(), "close".to_string()),
        ("content-type".to_string(), "application/json".to_string()),
    ]
}

fn json_object(fields: &[(&str, serde_json::Value)]) -> Vec<u8> {
    let mut map = serde_json::Map::new();
    for (k, v) in fields {
        map.insert(k.to_string(), v.clone());
    }
    serde_json::to_vec(&serde_json::Value::Object(map)).unwrap()
}

fn health_from(body: &[u8]) -> Result<HealthResponse, serde_json::Error> {
    let value: serde_json::Value = serde_json::from_slice(body)?;
    let text = |key: &str| value[key].as_str().unwrap_or_default().to_string();
    Ok(HealthResponse { status: text("status"), version: text("version") })
}

#[test]
fn plan_trusts_the_given_certificate_alone() {
    let cert = SelfSignedCertificate::generate_with_validity(1).unwrap();
    let plan = QuicClient::plan("localhost", &cert.cert_pem()).unwrap();
    assert_eq!(plan.server_name, "localhost");
    assert_eq!(plan.trust_anchor.as_ref(), cert.cert_der().as_slice());
    assert_eq!(plan.alpn, vec![b"hq-29".to_vec()]);
}

#[test]
fn plan_gives_the_transport_its_configuration() {
    let cert = SelfSignedCertificate::generate_with_validity(1).unwrap();
    let plan = QuicClient::plan("localhost", &cert.cert_pem()).unwrap();
    assert_eq!(plan.tls.alpn_protocols, vec![b"hq-29".to_vec()]);
    assert!(plan.quic_config().is_ok());
}

fn without_the_initial_suite(plan: DialPlan) -> DialPlan {
    let mut provider = rustls::crypto::ring::default_provider();
    provider
        .cipher_suites
        .retain(|suite| suite.suite() != rustls::CipherSuite::TLS13_AES_128_GCM_SHA256);
    let mut roots = rustls::RootCertStore::empty();
    roots.add(plan.trust_anchor.clone()).unwrap();
    let tls = rustls::ClientConfig::builder_with_provider(Arc::new(provider))
        .with_safe_default_protocol_versions()
        .unwrap()
        .with_root_certificates(roots)
        .with_no_client_auth();
    DialPlan { tls, ..plan }
}

#[test]
fn configuration_without_the_initial_suite_is_refused() {
    let cert = SelfSignedCertificate::generate_with_validity(1).unwrap();
    let plan = QuicClient::plan("localhost", &cert.cert_pem()).unwrap();
    assert!(plan.quic_config().is_ok());
    let weak = without_the_initial_suite(plan);
    assert!(matches!(weak.quic_config(), Err(ClientError::QuicConfig(_))));
}

#[test]
fn answer_of_the_transport_is_handed_on() {
    let cert = SelfSignedCertificate::generate_with_validity(1).unwrap();
    let plan = QuicClient::plan("localhost", &cert.cert_pem()).unwrap();
    let taken = quinn::crypto::rustls::QuicClientConfig::try_from(plan.tls.clone())
        .map(|crypto| quinn::ClientConfig::new(Arc::new(crypto)));
    assert!(DialPlan::quic_outcome(taken).is_ok());
    let weak = without_the_initial_suite(plan);
    let refused = quinn::crypto::rustls::QuicClientConfig::try_from(weak.tls.clone())
        .map(|crypto| quinn::ClientConfig::new(Arc::new(crypto)));
    assert!(refused.is_err());
    assert!(matches!(DialPlan::quic_outcome(refused), Err(ClientError::QuicConfig(_))));
}

#[test]
fn plan_refuses_a_malformed_certificate() {
    assert!(matches!(
        QuicClient::plan("localhost", "garbage"),
        Err(ClientError::Pem(pem::PemError::MalformedFraming))
    ));
    let cut = "-----BEGIN CERTIFICATE-----\r\nAQID*A==\r\n-----END CERTIFICATE-----\r\n";
    assert!(matches!(
        QuicClient::plan("localhost", cut),
        Err(ClientError::Pem(pem::PemError::InvalidData(_)))
    ));
}

#[test]
fn failed_dial_leaves_no_client() {
    let cert = SelfSignedCertificate::generate_with_validity(1).unwrap();
    let plan = QuicClient::plan("localhost", &cert.cert_pem()).unwrap();
    let refused = rustls::Error::InvalidCertificate(rustls::CertificateError::UnknownIssuer);
    let r = QuicClient::connect(plan, Err(ClientError::Tls(refused)));
    assert!(matches!(
        r,
        Err(ClientError::Tls(rustls::Error::InvalidCertificate(
            rustls::CertificateError::UnknownIssuer
        )))
    ));
    let plan = QuicClient::plan("localhost", &cert.cert_pem()).unwrap();
    let r = QuicClient::connect(plan, Err(ClientError::Connection(quinn::ConnectionError::TimedOut)));
    assert!(matches!(r, Err(ClientError::Connection(quinn::ConnectionError::TimedOut))));
    let plan = QuicClient::plan("localhost", &cert.cert_pem()).unwrap();
    let r = QuicClient::connect(plan, Err(ClientError::Connect(quinn::ConnectError::EndpointStopping)));
    assert!(matches!(r, Err(ClientError::Connect(quinn::ConnectError::EndpointStopping))));
}

#[test]
fn get_asks_with_an_empty_body() {
    let r = client().get("/healthz");
    assert_eq!(r.method, Method::Get);
    assert_eq!(r.path, "/healthz");
    assert!(r.body.is_empty());
    assert_eq!(headers(&r), standard_headers());
}

#[test]
fn post_sends_its_body() {
    let r = client().post("/echo", b"{\"n\":1}".to_vec());
    assert_eq!(r.method, Method::Post);
    assert_eq!(r.path, "/echo");
    assert_eq!(r.body, b"{\"n\":1}".to_vec());
    assert_eq!(headers(&r), standard_headers());
}

#[test]
fn request_keeps_method_path_and_body() {
    let r = request(Method::Post, "/a/b?c=d", vec![0, 255]);
    assert_eq!(r.method, Method::Post);
    assert_eq!(r.path, "/a/b?c=d");
    assert_eq!(r.body, vec![0, 255]);
    assert_eq!(headers(&r), standard_headers());
    let r = request(Method::Get, "", vec![]);
    assert_eq!(r.method, Method::Get);
    assert_eq!(r.path, "");
}

#[test]
fn client_closes_with_code_zero() {
    let frame = client().close();
    assert_eq!(frame.code, 0);
    assert_eq!(frame.reason, b"done".to_vec());
}

#[test]
fn success_is_the_two_hundreds() {
    assert!(!status_is_success(199));
    assert!(status_is_success(200));
    assert!(status_is_success(204));
    assert!(status_is_success(299));
    assert!(!status_is_success(300));
    assert!(!status_is_success(404));
    assert!(!status_is_success(500));
    assert!(!status_is_success(0));
    assert!(!status_is_success(u16::MAX));
}

#[test]
fn healthz_answers_healthy_with_the_version() {
    let state = AppState { version: "1.2.3" };
    let health = healthz(&state);
    assert_eq!(health.status, "healthy");
    assert_eq!(health.version, "1.2.3");
}

#[test]
fn health_check_end_to_end() {
    let state = AppState { version: "0.9.0" };
    let health = healthz(&state);
    let body = json_object(&[
        ("status", serde_json::Value::String(health.status)),
        ("version", serde_json::Value::String(health.version)),
    ]);
    assert_eq!(body, b"{\"status\":\"healthy\",\"version\":\"0.9.0\"}".to_vec());
    let request = client().get("/healthz");
    assert_eq!(request.path, "/healthz");
    let received = collect_body(200, body).unwrap();
    let decoded = health_from(&received).unwrap();
    assert_eq!(decoded.status, "healthy");
    assert_eq!(decoded.version, "0.9.0");
}

#[test]
fn unknown_path_gives_a_status_error() {
    let request = client().get("/does-not-exist");
    assert_eq!(request.path, "/does-not-exist");
    match collect_body(404, b"<html>Not Found</html>".to_vec()) {
        Err(ClientError::Status { status, body }) => {
            assert_eq!(status, 404);
            assert_eq!(body, "<html>Not Found</html>");
        },
        _ => panic!("a 404 is no success"),
    }
}

#[test]
fn empty_error_page_gives_a_status_error() {
    match collect_body(404, Vec::new()) {
        Err(ClientError::Status { status, body }) => {
            assert_eq!(status, 404);
            assert_eq!(body, "");
        },
        _ => panic!("a 404 is no success"),
    }
}

#[test]
fn status_error_keeps_a_body_that_is_no_text() {
    match collect_body(500, vec![b'o', b'k', 0xff, b'!']) {
        Err(ClientError::Status { status, body }) => {
            assert_eq!(status, 500);
            assert_eq!(body, "ok\u{fffd}!");
        },
        _ => panic!("a 500 is no success"),
    }
}

#[test]
fn success_hands_the_body_on_untouched() {
    assert_eq!(collect_body(200, vec![1, 2, 3]).unwrap(), vec![1, 2, 3]);
    assert_eq!(collect_body(299, vec![0xff]).unwrap(), vec![0xff]);
    assert_eq!(collect_body(204, vec![]).unwrap(), Vec::<u8>::new());
    assert!(matches!(collect_body(300, vec![]), Err(ClientError::Status { status: 300, .. })));
    assert!(matches!(collect_body(199, vec![]), Err(ClientError::Status { status: 199, .. })));
}

#[test]
fn malformed_payload_is_left_to_the_decoder() {
    let received = collect_body(200, b"{not json".to_vec()).unwrap();
    assert!(health_from(&received).is_err());
}

#[test]
fn one_exchange_runs_its_course() {
    let mut x = Exchange::new();
    assert_eq!(x.phase(), ExchangePhase::AwaitingRequest);
    assert!(!x.is_over());
    assert_eq!(x.request_read(), Ok(()));
    assert_eq!(x.phase(), ExchangePhase::AwaitingResponse);
    assert!(!x.is_over());
    assert_eq!(x.response_written(), Ok(()));
    assert_eq!(x.phase(), ExchangePhase::Complete);
    assert!(x.is_over());
}

#[test]
fn second_request_is_pipelining() {
    let mut x = Exchange::new();
    assert_eq!(x.request_read(), Ok(()));
    assert_eq!(x.request_read(), Err(ProtocolError::Pipelined));
    assert_eq!(x.phase(), ExchangePhase::Failed);
    assert_eq!(x.response_written(), Err(ProtocolError::Broken));
    assert_eq!(x.request_read(), Err(ProtocolError::Broken));
}

#[test]
fn request_after_the_response_is_pipelining() {
    let mut x = Exchange::new();
    assert_eq!(x.request_read(), Ok(()));
    assert_eq!(x.response_written(), Ok(()));
    assert_eq!(x.request_read(), Err(ProtocolError::Pipelined));
    assert_eq!(x.phase(), ExchangePhase::Failed);
}

#[test]
fn response_needs_a_request() {
    let mut x = Exchange::new();
    assert_eq!(x.response_written(), Err(ProtocolError::Unsolicited));
    assert_eq!(x.phase(), ExchangePhase::Failed);
    let mut x = Exchange::new();
    assert_eq!(x.request_read(), Ok(()));
    assert_eq!(x.response_written(), Ok(()));
    assert_eq!(x.response_written(), Err(ProtocolError::Unsolicited));
    assert_eq!(x.phase(), ExchangePhase::Failed);
}

#[test]
fn broken_channel_ends_the_exchange() {
    let mut x = Exchange::new();
    x.channel_failed();
    assert_eq!(x.phase(), ExchangePhase::Failed);
    assert!(x.is_over());
    assert_eq!(x.request_read(), Err(ProtocolError::Broken));
    let mut x = Exchange::new();
    assert_eq!(x.request_read(), Ok(()));
    x.channel_failed();
    assert_eq!(x.response_written(), Err(ProtocolError::Broken));
}

#[test]
fn api_errors_have_their_status() {
    let ErrorReply { status, body: ErrorBody { error, status: in_body } } =
        ApiError::Internal("disk full".to_string()).into_response();
    assert_eq!((status, in_body, error.as_str()), (500, 500, "disk full"));
    let reply = ApiError::NotFound("no such thing".to_string()).into_response();
    assert_eq!((reply.status, reply.body.status, reply.body.error.as_str()), (404, 404, "no such thing"));
    let reply = ApiError::BadRequest(String::new()).into_response();
    assert_eq!((reply.status, reply.body.status, reply.body.error.as_str()), (400, 400, ""));
}

#[test]
fn json_error_is_a_bad_request_in_its_own_words() {
    let cause = serde_json::from_str::<serde_json::Value>("{\"a\":").unwrap_err();
    let words = cause.to_string();
    assert!(!words.is_empty());
    let reply = ApiError::Json(cause).into_response();
    assert_eq!(reply.status, 400);
    assert_eq!(reply.body.status, 400);
    assert_eq!(reply.body.error, words);
}

#[test]
fn bind_follows_the_family_of_the_server() {
    assert_eq!(local_bind(IpFamily::V4), LocalBind { family: IpFamily::V4, port: 0 });
    assert_eq!(local_bind(IpFamily::V6), LocalBind { family: IpFamily::V6, port: 0 });
}
