//! The server's endpoint: the sessions it starts, the race between the stop
//! trigger and the accept loop, and the drain that ends the server.

use crate::armor;
use crate::error::ServerError;
use crate::session::{
    classify, connection_error_kind, kind_of, terminal_of, verdict, LogLevel, Phase, Session,
    SessionView, Terminal,
};
use crate::shutdown::{ShutdownError, Signal};
use crate::tls::{
    alpn_protocols, alpn_token, certificate, certificate_contents, identity_der, key_serves,
    pkcs8_key, reported_fault, server_tls, server_tls_view, text_fault, transported_text,
    CertificateError, ServerTlsView,
};
use rustls::pki_types::CertificateDer;
use std::sync::Arc;
use vstd::prelude::*;
use vstd::string::StrSliceExecFns;
use vstd::utf8::encode_utf8;

verus! {

/// The configuration of a server, as `quinn` holds it.
#[verifier::external_type_specification]
#[verifier::external_body]
pub struct ExQuicServerConfig(quinn::ServerConfig);

/// What the TLS configuration inside a `quinn::ServerConfig` holds.
pub uninterp spec fn quic_server_view(config: quinn::ServerConfig) -> ServerTlsView;

/// `quinn::ServerConfig::with_crypto` around the TLS configuration.
/// `quinn` takes the configuration exactly where its provider holds the
/// cipher suite for the first packets, and then serves with what the
/// configuration holds.
#[verifier::external_body]
pub(crate) fn quic_server(tls: rustls::ServerConfig) -> (r: Result<quinn::ServerConfig, quinn::crypto::rustls::NoInitialCipherSuite>)
    ensures
        r is Ok <==> server_tls_view(tls).initial_suite,
        r matches Ok(config) ==> quic_server_view(config) == server_tls_view(tls),
{
    let crypto = quinn::crypto::rustls::QuicServerConfig::try_from(tls)?;
    Ok(quinn::ServerConfig::with_crypto(Arc::new(crypto)))
}

/// What the transport needs to listen: the configuration to bind with,
/// and beside it what went into it for all to see, the certificate that
/// is presented and the application protocols that are accepted. No
/// certificate is asked of a client.
#[derive(Debug)]
pub struct ListenPlan {
    pub certificate: CertificateDer<'static>,
    pub alpn: Vec<Vec<u8>>,
    pub config: quinn::ServerConfig,
}

/// What to listen with, from the certificate and the key as they are
/// handed to a server: each as base64 of PEM text. What is wrong with
/// either value is reported as `ServerError::Certificate`, the
/// certificate's value first, and before anything is asked of the
/// transport. A certificate and a key that can be read may still be
/// refused by `rustls`, with `ServerError::Tls`. The plan's configuration
/// presents the certificate alone, with a key that serves it, accepts
/// the one protocol, and asks no certificate of a client.
pub fn listen_plan(cert_pem_b64: &str, key_pem_b64: &str) -> (r: Result<ListenPlan, ServerError>)
    ensures
        match r {
            Ok(plan) => {
                &&& transported_text(cert_pem_b64@) matches Some(cert)
                &&& transported_text(key_pem_b64@) matches Some(key)
                &&& armor::parsed_contents(key) matches Some(key_der)
                &&& key_serves(key_der, certificate_contents(plan.certificate))
                &&& armor::parsed_contents(cert) == Some(certificate_contents(plan.certificate))
                &&& plan.alpn@.len() == 1
                &&& plan.alpn@[0]@ == alpn_token()
                &&& quic_server_view(plan.config) == (ServerTlsView {
                    chain: seq![certificate_contents(plan.certificate)],
                    protocols: seq![alpn_token()],
                    asks_certificate: false,
                    initial_suite: true,
                })
            },
            Err(ServerError::Certificate(CertificateError::PemParse(_))) => {
                &&& transported_text(cert_pem_b64@) matches Some(cert)
                &&& transported_text(key_pem_b64@) matches Some(key)
                &&& armor::parsed_contents(key) is None || armor::parsed_contents(cert) is None
            },
            Err(ServerError::Certificate(e)) => {
                &&& reported_fault(e) is Some
                &&& reported_fault(e) == if text_fault(cert_pem_b64@) is Some {
                    text_fault(cert_pem_b64@)
                } else {
                    text_fault(key_pem_b64@)
                }
            },
            Err(ServerError::Tls(_)) => {
                &&& transported_text(cert_pem_b64@) matches Some(cert)
                &&& transported_text(key_pem_b64@) matches Some(key)
                &&& armor::parsed_contents(key) is Some
                &&& armor::parsed_contents(cert) is Some
            },
            Err(_) => false,
        },
{
    let (key_der, cert_der) = match identity_der(cert_pem_b64, key_pem_b64) {
        Ok(pair) => pair,
        Err(e) => {
            return Err(ServerError::Certificate(e));
        },
    };
    let presented = certificate(cert_der.clone());
    let tls = match server_tls(certificate(cert_der), pkcs8_key(key_der), alpn_protocols()) {
        Ok(tls) => tls,
        Err(e) => {
            return Err(ServerError::Tls(e));
        },
    };
    match quic_server(tls) {
        Ok(config) => Ok(ListenPlan { certificate: presented, alpn: alpn_protocols(), config }),
        Err(e) => Err(ServerError::QuicConfig(e)),
    }
}

/// The close frame that asks the sessions of an endpoint to end.
#[derive(Debug)]
pub struct CloseFrame {
    pub code: u32,
    pub reason: Vec<u8>,
}

/// The reason that a server gives when it shuts down.
pub open spec fn shutdown_reason() -> Seq<u8> {
    encode_utf8("server shutdown"@)
}

/// What an endpoint is, seen from outside.
pub ghost struct EndpointView {
    /// Whether the endpoint has been asked to close.
    pub closing: bool,
    /// The sessions started so far.
    pub started: nat,
    /// Those of them that have not closed, each known by the ordinal under
    /// which it was started.
    pub sessions: Seq<SessionView>,
}

impl EndpointView {
    /// Every session kept is sound, is not closed, and has an ordinal of
    /// its own among those handed out.
    pub open spec fn wf(self) -> bool {
        &&& forall|i: int|
            0 <= i < self.sessions.len() ==> {
                &&& (#[trigger] self.sessions[i]).wf()
                &&& !(self.sessions[i].phase is Closed)
                &&& self.sessions[i].id < self.started
            }
        &&& forall|i: int, j: int|
            0 <= i < j < self.sessions.len() ==> (#[trigger] self.sessions[i]).id != (
            #[trigger] self.sessions[j]).id
    }

    /// Whether an arriving session is taken on.
    pub open spec fn admits(self) -> bool {
        !self.closing && self.started < u64::MAX
    }

    /// Whether the drain is over: the endpoint is closing and no session
    /// is left.
    pub open spec fn idle(self) -> bool {
        self.closing && self.sessions.len() == 0
    }

    /// Whether the session started under `ordinal` is still kept.
    pub open spec fn holds(self, ordinal: u64) -> bool {
        exists|i: int| 0 <= i < self.sessions.len() && (#[trigger] self.sessions[i]).id == ordinal
    }

    /// Where the session started under `ordinal` is kept.
    pub open spec fn index_of(self, ordinal: u64) -> int {
        choose|i: int| 0 <= i < self.sessions.len() && (#[trigger] self.sessions[i]).id == ordinal
    }

    /// The session started under `ordinal`.
    pub open spec fn session(self, ordinal: u64) -> SessionView {
        self.sessions[self.index_of(ordinal)]
    }

    /// The endpoint less the session started under `ordinal`.
    pub open spec fn without(self, ordinal: u64) -> EndpointView {
        EndpointView { sessions: self.sessions.remove(self.index_of(ordinal)), ..self }
    }

    /// The endpoint once the session started under `ordinal` has become
    /// `next`: it is kept on, unless it has closed.
    pub open spec fn with_session(self, ordinal: u64, next: SessionView) -> EndpointView {
        if next.phase is Closed {
            self.without(ordinal)
        } else {
            EndpointView { sessions: self.without(ordinal).sessions.push(next), ..self }
        }
    }

    /// The endpoint once `step` has been taken by the session started
    /// under `ordinal`, if that session is kept.
    pub open spec fn stepped(self, ordinal: u64, step: spec_fn(SessionView) -> SessionView) -> EndpointView {
        if self.holds(ordinal) {
            self.with_session(ordinal, step(self.session(ordinal)))
        } else {
            self
        }
    }
}

/// What the accept loop does with the endpoint's answer.
#[derive(Clone, Copy, Debug, PartialEq, Eq, Structural)]
pub enum AcceptStep {
    /// Run the session on a task of its own, and accept again.
    Spawn { ordinal: u64 },
    /// Drop the session, and accept again.
    Refuse,
    /// The endpoint yields no more sessions: leave the loop.
    Finished,
}

/// Which of the two raced futures resolved first, and with what.
#[derive(Debug)]
pub enum Raced {
    /// The stop trigger.
    Signal(Result<Signal, ShutdownError>),
    /// The accept loop.
    AcceptLoop(Result<(), ServerError>),
}

/// How the server ends.
#[derive(Debug)]
pub struct Shutdown {
    /// The frame to close the endpoint with before waiting for it to go
    /// idle; `None` where the server leaves at once.
    pub close: Option<CloseFrame>,
    /// The signal to report, if one fired.
    pub trigger: Option<Signal>,
    /// What the server returns once the drain is over.
    pub result: Result<(), ServerError>,
}

/// A closing endpoint takes on no session.
pub proof fn lemma_closing_admits_nothing(endpoint: EndpointView)
    requires
        endpoint.closing,
    ensures
        !endpoint.admits(),
{
}

/// An idle endpoint has drained: it keeps no session, so no stream is
/// being served, none can arrive, and nothing that happens changes it.
pub proof fn lemma_idle_is_drained(
    endpoint: EndpointView,
    ordinal: u64,
    step: spec_fn(SessionView) -> SessionView,
)
    requires
        endpoint.idle(),
    ensures
        !endpoint.holds(ordinal),
        !endpoint.admits(),
        endpoint.stepped(ordinal, step) == endpoint,
{
}

/// A session is kept until it has closed, and no longer: whatever it does,
/// it stays if it has not closed by it, and it goes if it has. A session
/// that has gone has served all its streams to their end.
pub proof fn lemma_kept_until_closed(endpoint: EndpointView, ordinal: u64, next: SessionView)
    requires
        endpoint.wf(),
        endpoint.holds(ordinal),
        next.wf(),
        next.id == ordinal,
    ensures
        endpoint.with_session(ordinal, next).wf(),
        endpoint.with_session(ordinal, next).holds(ordinal) <==> !(next.phase is Closed),
        !endpoint.with_session(ordinal, next).holds(ordinal) ==> next.in_flight() == 0
            && next.completed() + next.failed == next.accepted,
{
    let k = endpoint.index_of(ordinal);
    let rest = endpoint.sessions.remove(k);
    assert forall|i: int| 0 <= i < rest.len() implies (#[trigger] rest[i]).id != ordinal
        && rest[i].wf() && !(rest[i].phase is Closed) && rest[i].id < endpoint.started by {
        if i < k {
            assert(rest[i] == endpoint.sessions[i]);
        } else {
            assert(rest[i] == endpoint.sessions[i + 1]);
        }
    }
    assert forall|i: int, j: int| 0 <= i < j < rest.len() implies (#[trigger] rest[i]).id != (
    #[trigger] rest[j]).id by {
        let a = if i < k { i } else { i + 1 };
        let b = if j < k { j } else { j + 1 };
        assert(rest[i] == endpoint.sessions[a]);
        assert(rest[j] == endpoint.sessions[b]);
    }
    if !(next.phase is Closed) {
        let kept = rest.push(next);
        assert(kept[rest.len() as int] == next);
        assert forall|i: int, j: int| 0 <= i < j < kept.len() implies (#[trigger] kept[i]).id != (
        #[trigger] kept[j]).id by {
            if j < rest.len() {
                assert(kept[i] == rest[i] && kept[j] == rest[j]);
            } else {
                assert(kept[i] == rest[i]);
            }
        }
        assert forall|i: int| 0 <= i < kept.len() implies (#[trigger] kept[i]).wf() && !(kept[i].phase is Closed)
            && kept[i].id < endpoint.started by {
            if i < rest.len() {
                assert(kept[i] == rest[i]);
            }
        }
    }
}

/// The server's endpoint with the sessions that it keeps.
#[derive(Debug)]
pub struct Endpoint {
    closing: bool,
    started: u64,
    sessions: Vec<Session>,
}

impl View for Endpoint {
    type V = EndpointView;

    closed spec fn view(&self) -> EndpointView {
        EndpointView {
            closing: self.closing,
            started: self.started as nat,
            sessions: self.sessions@.map_values(|s: Session| s@),
        }
    }
}

impl Endpoint {
    #[verifier::type_invariant]
    closed spec fn inv(self) -> bool {
        self@.wf()
    }

    /// An endpoint that has started no session.
    pub fn new() -> (r: Endpoint)
        ensures
            r@ == (EndpointView { closing: false, started: 0, sessions: Seq::empty() }),
    {
        let r = Endpoint { closing: false, started: 0, sessions: Vec::new() };
        assert(r@.sessions =~= Seq::empty());
        r
    }

    /// Where the session started under `ordinal` is kept, if it is.
    fn find(&self, ordinal: u64) -> (r: Option<usize>)
        ensures
            self@.wf(),
            match r {
                Some(i) => self@.holds(ordinal) && i == self@.index_of(ordinal) && i
                    < self.sessions.len(),
                None => !self@.holds(ordinal),
            },
    {
        proof {
            use_type_invariant(self);
        }
        let mut i: usize = 0;
        while i < self.sessions.len()
            invariant
                self@.wf(),
                i <= self.sessions.len(),
                self@.sessions.len() == self.sessions.len(),
                forall|j: int| 0 <= j < i ==> (#[trigger] self@.sessions[j]).id != ordinal,
            decreases self.sessions.len() - i,
        {
            if self.sessions[i].id() == ordinal {
                assert(self@.sessions[i as int].id == ordinal);
                assert(self@.holds(ordinal));
                assert(self@.index_of(ordinal) == i);
                return Some(i);
            }
            i += 1;
        }
        None
    }

    /// Takes the session started under `ordinal` out of the endpoint.
    fn take(&mut self, ordinal: u64) -> (r: Option<Session>)
        ensures
            final(self)@.wf(),
            match r {
                Some(s) => {
                    &&& old(self)@.holds(ordinal)
                    &&& s@ == old(self)@.session(ordinal)
                    &&& s@.id == ordinal
                    &&& final(self)@ == old(self)@.without(ordinal)
                    &&& !final(self)@.holds(ordinal)
                },
                None => !old(self)@.holds(ordinal) && final(self)@ == old(self)@,
            },
    {
        match self.find(ordinal) {
            Some(i) => {
                let ghost before = self@;
                let mut sessions: Vec<Session> = Vec::new();
                std::mem::swap(&mut sessions, &mut self.sessions);
                let s = sessions.remove(i);
                proof {
                    Self::lemma_removal(before, i as int);
                    assert(sessions@.map_values(|s: Session| s@) =~= before.sessions.remove(
                        i as int,
                    ));
                }
                std::mem::swap(&mut sessions, &mut self.sessions);
                Some(s)
            },
            None => {
                None
            },
        }
    }

    /// What is left of a sound endpoint when one session is taken out is
    /// sound, and holds that session's ordinal no more.
    proof fn lemma_removal(v: EndpointView, k: int)
        requires
            v.wf(),
            0 <= k < v.sessions.len(),
        ensures
            (EndpointView { sessions: v.sessions.remove(k), ..v }).wf(),
            !(EndpointView { sessions: v.sessions.remove(k), ..v }).holds(v.sessions[k].id),
    {
        let rest = v.sessions.remove(k);
        assert forall|i: int| 0 <= i < rest.len() implies (#[trigger] rest[i]).id
            != v.sessions[k].id && rest[i].wf() && !(rest[i].phase is Closed) && rest[i].id
            < v.started by {
            if i < k {
                assert(rest[i] == v.sessions[i]);
            } else {
                assert(rest[i] == v.sessions[i + 1]);
            }
        }
        assert forall|i: int, j: int| 0 <= i < j < rest.len() implies (#[trigger] rest[i]).id != (
        #[trigger] rest[j]).id by {
            let a = if i < k { i } else { i + 1 };
            let b = if j < k { j } else { j + 1 };
            assert(rest[i] == v.sessions[a]);
            assert(rest[j] == v.sessions[b]);
        }
    }

    /// Puts a session back that was taken out, unless it has closed.
    fn put(&mut self, ordinal: u64, before: Ghost<EndpointView>, s: Session)
        requires
            before@.wf(),
            before@.holds(ordinal),
            old(self)@ == before@.without(ordinal),
            !old(self)@.holds(ordinal),
            s@.id == ordinal,
        ensures
            final(self)@ == before@.with_session(ordinal, s@),
            final(self)@.wf(),
    {
        let closed = s.is_closed();
        proof {
            use_type_invariant(&*self);
            lemma_kept_until_closed(before@, ordinal, s@);
        }
        if !closed {
            let ghost rest = self@.sessions;
            let mut sessions: Vec<Session> = Vec::new();
            std::mem::swap(&mut sessions, &mut self.sessions);
            sessions.push(s);
            proof {
                assert(sessions@.map_values(|s: Session| s@) =~= rest.push(s@));
            }
            std::mem::swap(&mut sessions, &mut self.sessions);
        }
    }

    /// The endpoint's answer to the accept loop. `arrived` says whether the
    /// transport handed over a session or reported its end. An open
    /// endpoint starts every session that arrives, whatever the others do,
    /// and keeps it, pending, under the ordinal it hands back; a closing
    /// one starts none.
    pub fn incoming(&mut self, arrived: bool) -> (r: AcceptStep)
        ensures
            final(self)@.wf(),
            r == if !arrived {
                AcceptStep::Finished
            } else if old(self)@.admits() {
                AcceptStep::Spawn { ordinal: old(self)@.started as u64 }
            } else {
                AcceptStep::Refuse
            },
            final(self)@ == if arrived && old(self)@.admits() {
                EndpointView {
                    started: old(self)@.started + 1,
                    sessions: old(self)@.sessions.push(
                        SessionView {
                            id: old(self)@.started as u64,
                            phase: Phase::Pending,
                            accepted: 0,
                            finished: 0,
                            failed: 0,
                        },
                    ),
                    ..old(self)@
                }
            } else {
                old(self)@
            },
    {
        proof {
            use_type_invariant(&*self);
        }
        if !arrived {
            AcceptStep::Finished
        } else if !self.closing && self.started < u64::MAX {
            let ordinal = self.started;
            let session = Session::pending(ordinal);
            self.started = ordinal + 1;
            let ghost rest = self@.sessions;
            let mut sessions: Vec<Session> = Vec::new();
            std::mem::swap(&mut sessions, &mut self.sessions);
            sessions.push(session);
            proof {
                let kept = rest.push(session@);
                assert(sessions@.map_values(|s: Session| s@) =~= kept);
                assert forall|i: int, j: int| 0 <= i < j < kept.len() implies (
                #[trigger] kept[i]).id != (#[trigger] kept[j]).id by {
                    assert(kept[i] == rest[i]);
                    if j < rest.len() {
                        assert(kept[j] == rest[j]);
                    }
                }
                assert forall|i: int| 0 <= i < kept.len() implies (#[trigger] kept[i]).wf() && !(
                kept[i].phase is Closed) && kept[i].id < ordinal + 1 by {
                    if i < rest.len() {
                        assert(kept[i] == rest[i]);
                    }
                }
            }
            std::mem::swap(&mut sessions, &mut self.sessions);
            AcceptStep::Spawn { ordinal }
        } else {
            AcceptStep::Refuse
        }
    }

    /// The handshake of the session started under `ordinal` has ended. A
    /// failed handshake ends the session, and its task, with the
    /// transport's error; a successful one opens the session for streams.
    pub fn handshake(&mut self, ordinal: u64, outcome: Result<(), quinn::ConnectionError>) -> (r:
        Result<(), ServerError>)
        ensures
            final(self)@.wf(),
            match outcome {
                Ok(_) => r is Ok && final(self)@ == old(self)@.stepped(
                    ordinal,
                    |s: SessionView| s.established(),
                ),
                Err(e) => {
                    &&& r matches Err(ServerError::Connection(cause)) && cause == e
                    &&& final(self)@ == if old(self)@.holds(ordinal) {
                        old(self)@.without(ordinal)
                    } else {
                        old(self)@
                    }
                },
            },
    {
        let ghost before = self@;
        proof {
            use_type_invariant(&*self);
        }
        match self.take(ordinal) {
            Some(session) => match session.handshake(outcome) {
                Ok(opened) => {
                    self.put(ordinal, Ghost(before), opened);
                    Ok(())
                },
                Err(e) => Err(e),
            },
            None => match outcome {
                Ok(_) => Ok(()),
                Err(e) => Err(ServerError::Connection(e)),
            },
        }
    }

    /// A stream has arrived on the session started under `ordinal`. An
    /// established session hands it out under its next free number,
    /// however many streams it and the other sessions are serving; a
    /// session in any other phase, or one that is not kept, hands out
    /// nothing.
    pub fn stream_accepted(&mut self, ordinal: u64) -> (r: Option<u64>)
        ensures
            final(self)@.wf(),
            final(self)@ == old(self)@.stepped(ordinal, |s: SessionView| s.dispatched()),
            r == if old(self)@.holds(ordinal) && old(self)@.session(ordinal).accepts() {
                Some(old(self)@.session(ordinal).accepted as u64)
            } else {
                None
            },
    {
        let ghost before = self@;
        proof {
            use_type_invariant(&*self);
        }
        match self.take(ordinal) {
            Some(mut session) => {
                let number = session.stream_accepted();
                self.put(ordinal, Ghost(before), session);
                number
            },
            None => None,
        }
    }

    /// No stream could be accepted on the session started under `ordinal`:
    /// the connection is lost. The session stops accepting and is kept
    /// until the streams that it serves have finished. The loss is
    /// classified by its form: a failure of the transport is handed on
    /// with its cause, every other loss is told by its reason.
    pub fn accept_failed(&mut self, ordinal: u64, cause: quinn::ConnectionError) -> (r: Result<
        Terminal,
        ServerError,
    >)
        ensures
            final(self)@.wf(),
            final(self)@ == old(self)@.stepped(ordinal, |s: SessionView| s.ended()),
            match terminal_of(kind_of(cause)) {
                Terminal::Fatal => r matches Err(ServerError::Connection(e)) && e == cause,
                reason => r == Ok::<Terminal, ServerError>(reason),
            },
    {
        let ghost before = self@;
        proof {
            use_type_invariant(&*self);
        }
        match self.take(ordinal) {
            Some(mut session) => {
                let r = session.accept_failed(cause);
                self.put(ordinal, Ghost(before), session);
                r
            },
            None => verdict(classify(connection_error_kind(&cause)), cause),
        }
    }

    /// The task of one stream of the session started under `ordinal` has
    /// ended, well or badly. Either way the session goes on as it was, less
    /// one stream being served, and so do all the others; a failure is
    /// counted and logged, at the level handed back. A session that has
    /// stopped accepting and now serves no stream is closed and kept no
    /// longer.
    pub fn stream_finished(&mut self, ordinal: u64, outcome: &Result<(), ServerError>) -> (r:
        Option<LogLevel>)
        ensures
            final(self)@.wf(),
            final(self)@ == old(self)@.stepped(
                ordinal,
                |s: SessionView| s.settled(outcome is Ok),
            ),
            r == if outcome is Err {
                Some(LogLevel::Error)
            } else {
                None
            },
    {
        let ghost before = self@;
        proof {
            use_type_invariant(&*self);
        }
        match self.take(ordinal) {
            Some(mut session) => {
                let r = session.stream_finished(outcome);
                self.put(ordinal, Ghost(before), session);
                r
            },
            None => match outcome {
                Ok(_) => None,
                Err(_) => Some(LogLevel::Error),
            },
        }
    }

    /// Whether the session started under `ordinal` is kept: it has been
    /// started and has not closed.
    pub fn is_open(&self, ordinal: u64) -> (r: bool)
        ensures
            self@.wf(),
            r == self@.holds(ordinal),
    {
        self.find(ordinal).is_some()
    }

    /// The phase of the session started under `ordinal`, if it is kept.
    pub fn phase(&self, ordinal: u64) -> (r: Option<Phase>)
        ensures
            self@.wf(),
            r == if self@.holds(ordinal) {
                Some(self@.session(ordinal).phase)
            } else {
                None
            },
    {
        match self.find(ordinal) {
            Some(i) => Some(self.sessions[i].phase()),
            None => None,
        }
    }

    /// The number of streams that the session started under `ordinal`
    /// serves, if it is kept.
    pub fn in_flight(&self, ordinal: u64) -> (r: Option<u64>)
        ensures
            self@.wf(),
            match r {
                Some(n) => self@.holds(ordinal) && n == self@.session(ordinal).in_flight(),
                None => !self@.holds(ordinal),
            },
    {
        match self.find(ordinal) {
            Some(i) => Some(self.sessions[i].in_flight()),
            None => None,
        }
    }

    /// The number of sessions that are kept.
    pub fn open_sessions(&self) -> (r: usize)
        ensures
            r == self@.sessions.len(),
    {
        self.sessions.len()
    }

    /// The endpoint is asked to close: from now on it starts no session.
    /// The frame tells the peers why.
    pub fn close(&mut self) -> (frame: CloseFrame)
        ensures
            final(self)@ == (EndpointView { closing: true, ..old(self)@ }),
            final(self)@.wf(),
            frame.code == 0,
            frame.reason@ == shutdown_reason(),
    {
        proof {
            use_type_invariant(&*self);
        }
        self.closing = true;
        CloseFrame { code: 0, reason: "server shutdown".as_bytes_vec() }
    }

    /// Whether the drain is over: the endpoint is closing and keeps no
    /// session, so that every session it started has closed and every
    /// stream handed out has run to its end or failed.
    pub fn is_idle(&self) -> (r: bool)
        ensures
            self@.wf(),
            r == self@.idle(),
    {
        proof {
            use_type_invariant(self);
        }
        self.closing && self.sessions.len() == 0
    }
}

/// The end of the race between the stop trigger and the accept loop. A
/// signal, or the end of the accept loop with whatever result, closes the
/// endpoint and lets it drain; the loop's result is what the server then
/// returns. A failure of the signal stream ends the server at once.
pub fn serve(endpoint: &mut Endpoint, first: Raced) -> (r: Shutdown)
    ensures
        final(endpoint)@.wf(),
        match first {
            Raced::Signal(Ok(s)) => {
                &&& r.trigger == Some(s)
                &&& r.result == Ok::<(), ServerError>(())
            },
            Raced::Signal(Err(e)) => {
                &&& r.trigger is None
                &&& r.result == Err::<(), ServerError>(ServerError::Shutdown(e))
            },
            Raced::AcceptLoop(result) => {
                &&& r.trigger is None
                &&& r.result == result
            },
        },
        match first {
            Raced::Signal(Err(_)) => r.close is None && final(endpoint)@ == old(endpoint)@,
            _ => {
                &&& r.close matches Some(frame)
                &&& frame.code == 0
                &&& frame.reason@ == shutdown_reason()
                &&& final(endpoint)@ == (EndpointView { closing: true, ..old(endpoint)@ })
            },
        },
{
    match first {
        Raced::Signal(Ok(s)) => {
            let frame = endpoint.close();
            Shutdown { close: Some(frame), trigger: Some(s), result: Ok(()) }
        },
        Raced::Signal(Err(e)) => {
            proof {
                use_type_invariant(&*endpoint);
            }
            Shutdown { close: None, trigger: None, result: Err(ServerError::Shutdown(e)) }
        },
        Raced::AcceptLoop(result) => {
            let frame = endpoint.close();
            Shutdown { close: Some(frame), trigger: None, result }
        },
    }
}

} // verus!
