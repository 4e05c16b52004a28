//! The life of one session on the server: the handshake, the streams it
//! accepts, the condition that ends it, and the streams still to finish.

use crate::error::ServerError;
use vstd::prelude::*;

verus! {

/// Where a session stands.
#[derive(Clone, Copy, Debug, PartialEq, Eq, Structural)]
pub enum Phase {
    /// The handshake is in flight.
    Pending,
    /// Streams are being accepted.
    Established,
    /// No stream is accepted any more; some are still being served.
    Draining,
    /// Nothing is accepted and nothing is being served.
    Closed,
}

/// The forms of `quinn::ConnectionError`.
#[derive(Clone, Copy, Debug, PartialEq, Eq, Structural)]
pub enum ConnectionErrorKind {
    VersionMismatch,
    TransportError,
    ConnectionClosed,
    ApplicationClosed,
    Reset,
    TimedOut,
    LocallyClosed,
    CidsExhausted,
}

/// Why a session stopped accepting streams.
#[derive(Clone, Copy, Debug, PartialEq, Eq, Structural)]
pub enum Terminal {
    /// The peer, or its application, closed the session.
    PeerClosed,
    /// This side closed the session.
    LocalClosed,
    /// The peer fell silent.
    TimedOut,
    /// The transport failed.
    Fatal,
}

/// How loudly an event is logged.
#[derive(Clone, Copy, Debug, PartialEq, Eq, Structural)]
pub enum LogLevel {
    Debug,
    Info,
    Warn,
    Error,
}

/// What a session is, seen from outside.
pub ghost struct SessionView {
    /// The ordinal under which the session was started.
    pub id: u64,
    pub phase: Phase,
    /// The streams handed to a task of their own so far.
    pub accepted: nat,
    /// Those of them whose task has ended.
    pub finished: nat,
    /// Those of the ended ones whose exchange failed; every other one ran
    /// to its end, the response written and the stream closed.
    pub failed: nat,
}

impl SessionView {
    /// The streams that are being served.
    pub open spec fn in_flight(self) -> int {
        self.accepted - self.finished
    }

    /// The streams whose exchange ran to its end.
    pub open spec fn completed(self) -> int {
        self.finished - self.failed
    }

    pub open spec fn wf(self) -> bool {
        &&& self.finished <= self.accepted
        &&& self.failed <= self.finished
        &&& self.phase is Pending ==> self.accepted == 0
        &&& self.phase is Draining ==> self.finished < self.accepted
        &&& self.phase is Closed ==> self.finished == self.accepted
    }

    /// The session once its handshake has succeeded.
    pub open spec fn established(self) -> SessionView {
        if self.phase is Pending {
            SessionView { phase: Phase::Established, ..self }
        } else {
            self
        }
    }

    /// Whether one more stream can be handed out.
    pub open spec fn accepts(self) -> bool {
        self.phase is Established && self.accepted < u64::MAX
    }

    /// The session once one more stream has been handed out.
    pub open spec fn dispatched(self) -> SessionView {
        if self.accepts() {
            SessionView { accepted: self.accepted + 1, ..self }
        } else {
            self
        }
    }

    /// The session once it has stopped accepting: closed if nothing is
    /// being served, draining if something is.
    pub open spec fn ended(self) -> SessionView {
        if self.finished < self.accepted {
            SessionView { phase: Phase::Draining, ..self }
        } else {
            SessionView { phase: Phase::Closed, ..self }
        }
    }

    /// The session once one of the streams being served has finished,
    /// `well` or badly.
    pub open spec fn settled(self, well: bool) -> SessionView {
        if self.finished < self.accepted {
            let finished = self.finished + 1;
            let failed = if well {
                self.failed
            } else {
                self.failed + 1
            };
            if self.phase is Draining && finished == self.accepted {
                SessionView { phase: Phase::Closed, finished, failed, ..self }
            } else {
                SessionView { finished, failed, ..self }
            }
        } else {
            self
        }
    }
}

/// The session after `n` more streams have arrived.
pub open spec fn dispatched_times(v: SessionView, n: nat) -> SessionView
    decreases n,
{
    if n == 0 {
        v
    } else {
        dispatched_times(v, (n - 1) as nat).dispatched()
    }
}

/// The session after some of its streams have finished, one for each entry
/// of `outcomes`, which says whether it finished well.
pub open spec fn settled_all(v: SessionView, outcomes: Seq<bool>) -> SessionView
    decreases outcomes.len(),
{
    if outcomes.len() == 0 {
        v
    } else {
        settled_all(v, outcomes.drop_last()).settled(outcomes.last())
    }
}

/// The entries of `outcomes` that tell of a failure.
pub open spec fn failures(outcomes: Seq<bool>) -> nat
    decreases outcomes.len(),
{
    if outcomes.len() == 0 {
        0
    } else {
        failures(outcomes.drop_last()) + if outcomes.last() {
            0nat
        } else {
            1nat
        }
    }
}

/// Streams are served side by side: an established session takes every
/// stream that arrives, however many it is serving already, and each one
/// adds to those being served. The streams are numbered in the order of
/// their arrival, so none is skipped and none is handed out twice. The
/// one limit is that of the counter.
pub proof fn lemma_streams_side_by_side(v: SessionView, n: nat)
    requires
        v.wf(),
        v.phase is Established,
        v.accepted + n <= u64::MAX,
    ensures
        dispatched_times(v, n) == (SessionView { accepted: v.accepted + n, ..v }),
        dispatched_times(v, n).wf(),
        dispatched_times(v, n).in_flight() == v.in_flight() + n,
        forall|i: nat|
            i < n ==> (#[trigger] dispatched_times(v, i)).accepts() && dispatched_times(
                v,
                i,
            ).accepted == v.accepted + i,
    decreases n,
{
    if n > 0 {
        lemma_streams_side_by_side(v, (n - 1) as nat);
        assert forall|i: nat| i < n implies (#[trigger] dispatched_times(v, i)).accepts()
            && dispatched_times(v, i).accepted == v.accepted + i by {
            if i < n - 1 {
            } else {
                assert(i == n - 1);
            }
        }
    }
}

/// A stream that finishes, well or badly, takes nothing from the others:
/// the session stays established, no stream is lost, and one fewer is
/// being served.
pub proof fn lemma_finish_is_local(v: SessionView, well: bool)
    requires
        v.wf(),
        v.phase is Established,
        v.in_flight() > 0,
    ensures
        v.settled(well).wf(),
        v.settled(well).phase is Established,
        v.settled(well).accepted == v.accepted,
        v.settled(well).in_flight() == v.in_flight() - 1,
        v.settled(well).accepts() == v.accepts(),
{
}

/// A session that has stopped accepting accepts nothing again, whatever
/// happens to it.
pub proof fn lemma_no_stream_after_the_end(v: SessionView, well: bool)
    requires
        v.wf(),
        v.phase is Draining || v.phase is Closed,
    ensures
        !v.accepts(),
        v.dispatched() == v,
        !v.settled(well).accepts(),
        !v.ended().accepts(),
        !v.established().accepts(),
{
}

/// A session that stops while it serves streams is closed after all of
/// them have finished, and not before; and of every stream that has
/// finished it is known whether its exchange ran to its end or failed.
pub proof fn lemma_drain(v: SessionView, outcomes: Seq<bool>)
    requires
        v.wf(),
        outcomes.len() <= v.ended().in_flight(),
    ensures
        settled_all(v.ended(), outcomes).wf(),
        settled_all(v.ended(), outcomes).accepted == v.accepted,
        settled_all(v.ended(), outcomes).in_flight() == v.in_flight() - outcomes.len(),
        settled_all(v.ended(), outcomes).failed == v.failed + failures(outcomes),
        settled_all(v.ended(), outcomes).completed() == v.completed() + outcomes.len() - failures(
            outcomes,
        ),
        settled_all(v.ended(), outcomes).phase is Closed <==> outcomes.len() == v.in_flight(),
        !(settled_all(v.ended(), outcomes).phase is Closed) ==> settled_all(
            v.ended(),
            outcomes,
        ).phase is Draining,
    decreases outcomes.len(),
{
    if outcomes.len() > 0 {
        lemma_drain(v, outcomes.drop_last());
    }
}

/// A closed session serves nothing: every stream that it handed out has
/// ended, its exchange run to the end or failed.
pub proof fn lemma_closed_serves_nothing(v: SessionView, well: bool)
    requires
        v.wf(),
        v.phase is Closed,
    ensures
        v.in_flight() == 0,
        v.completed() + v.failed == v.accepted,
        v.settled(well) == v,
        v.ended() == v,
{
}

/// The condition that a lost connection stands for: a close by the peer or
/// by this side and a timeout end the session in good order, everything
/// else is a failure of the transport.
pub open spec fn terminal_of(kind: ConnectionErrorKind) -> Terminal {
    match kind {
        ConnectionErrorKind::ApplicationClosed => Terminal::PeerClosed,
        ConnectionErrorKind::ConnectionClosed => Terminal::PeerClosed,
        ConnectionErrorKind::LocallyClosed => Terminal::LocalClosed,
        ConnectionErrorKind::TimedOut => Terminal::TimedOut,
        _ => Terminal::Fatal,
    }
}

/// See `terminal_of`.
pub fn classify(kind: ConnectionErrorKind) -> (r: Terminal)
    ensures
        r == terminal_of(kind),
{
    match kind {
        ConnectionErrorKind::ApplicationClosed => Terminal::PeerClosed,
        ConnectionErrorKind::ConnectionClosed => Terminal::PeerClosed,
        ConnectionErrorKind::LocallyClosed => Terminal::LocalClosed,
        ConnectionErrorKind::TimedOut => Terminal::TimedOut,
        _ => Terminal::Fatal,
    }
}

/// How loudly the end of a session is logged.
pub fn log_level(terminal: Terminal) -> (r: LogLevel)
    ensures
        r == match terminal {
            Terminal::PeerClosed => LogLevel::Info,
            Terminal::LocalClosed => LogLevel::Debug,
            Terminal::TimedOut => LogLevel::Warn,
            Terminal::Fatal => LogLevel::Error,
        },
{
    match terminal {
        Terminal::PeerClosed => LogLevel::Info,
        Terminal::LocalClosed => LogLevel::Debug,
        Terminal::TimedOut => LogLevel::Warn,
        Terminal::Fatal => LogLevel::Error,
    }
}

/// The form that a `quinn::ConnectionError` has.
pub uninterp spec fn kind_of(e: quinn::ConnectionError) -> ConnectionErrorKind;

/// Which form a `quinn::ConnectionError` has: one arm for each variant,
/// each giving the variant of the same name. The answer depends on the
/// error alone; `kind_of` names it.
#[verifier::external_body]
pub(crate) fn connection_error_kind(e: &quinn::ConnectionError) -> (kind: ConnectionErrorKind)
    ensures
        kind == kind_of(*e),
{
    match e {
        quinn::ConnectionError::VersionMismatch => ConnectionErrorKind::VersionMismatch,
        quinn::ConnectionError::TransportError(_) => ConnectionErrorKind::TransportError,
        quinn::ConnectionError::ConnectionClosed(_) => ConnectionErrorKind::ConnectionClosed,
        quinn::ConnectionError::ApplicationClosed(_) => ConnectionErrorKind::ApplicationClosed,
        quinn::ConnectionError::Reset => ConnectionErrorKind::Reset,
        quinn::ConnectionError::TimedOut => ConnectionErrorKind::TimedOut,
        quinn::ConnectionError::LocallyClosed => ConnectionErrorKind::LocallyClosed,
        quinn::ConnectionError::CidsExhausted => ConnectionErrorKind::CidsExhausted,
    }
}

/// What the task of a session returns for the reason that ended it: a
/// failure of the transport is handed on with its cause, every other
/// reason is told as it is.
pub fn verdict(reason: Terminal, cause: quinn::ConnectionError) -> (r: Result<Terminal, ServerError>)
    ensures
        match reason {
            Terminal::Fatal => r matches Err(ServerError::Connection(e)) && e == cause,
            _ => r == Ok::<Terminal, ServerError>(reason),
        },
{
    match reason {
        Terminal::Fatal => Err(ServerError::Connection(cause)),
        other => Ok(other),
    }
}

/// One session of the server.
#[derive(Debug)]
pub struct Session {
    id: u64,
    phase: Phase,
    accepted: u64,
    finished: u64,
    failed: u64,
}

impl View for Session {
    type V = SessionView;

    closed spec fn view(&self) -> SessionView {
        SessionView {
            id: self.id,
            phase: self.phase,
            accepted: self.accepted as nat,
            finished: self.finished as nat,
            failed: self.failed as nat,
        }
    }
}

impl Session {
    #[verifier::type_invariant]
    closed spec fn inv(self) -> bool {
        self@.wf()
    }

    /// A session whose handshake is in flight.
    pub fn pending(id: u64) -> (r: Session)
        ensures
            r@ == (SessionView { id, phase: Phase::Pending, accepted: 0, finished: 0, failed: 0 }),
            r@.wf(),
    {
        Session { id, phase: Phase::Pending, accepted: 0, finished: 0, failed: 0 }
    }

    /// The end of the handshake. A failed handshake ends the session with
    /// the transport's error; a successful one opens it for streams.
    pub fn handshake(self, outcome: Result<(), quinn::ConnectionError>) -> (r: Result<
        Session,
        ServerError,
    >)
        ensures
            match outcome {
                Ok(_) => r matches Ok(s) && s@ == self@.established() && s@.wf(),
                Err(e) => r matches Err(ServerError::Connection(cause)) && cause == e,
            },
    {
        proof {
            use_type_invariant(&self);
        }
        match outcome {
            Ok(_) => {
                let phase = match self.phase {
                    Phase::Pending => Phase::Established,
                    other => other,
                };
                Ok(
                    Session {
                        id: self.id,
                        phase,
                        accepted: self.accepted,
                        finished: self.finished,
                        failed: self.failed,
                    },
                )
            },
            Err(e) => Err(ServerError::Connection(e)),
        }
    }

    /// A stream has arrived. An established session hands it out under the
    /// next free number, however many streams are still being served; a
    /// session in any other phase hands out nothing.
    pub fn stream_accepted(&mut self) -> (r: Option<u64>)
        ensures
            final(self)@ == old(self)@.dispatched(),
            final(self)@.wf(),
            r == if old(self)@.accepts() {
                Some(old(self)@.accepted as u64)
            } else {
                None
            },
    {
        proof {
            use_type_invariant(&*self);
        }
        match self.phase {
            Phase::Established => {
                if self.accepted < u64::MAX {
                    let number = self.accepted;
                    self.accepted = number + 1;
                    Some(number)
                } else {
                    None
                }
            },
            _ => None,
        }
    }

    /// The session stops accepting streams for the reason given. A failure
    /// of the transport is handed on with its cause; every other reason
    /// ends the session in good order.
    pub fn stop(&mut self, reason: Terminal, cause: quinn::ConnectionError) -> (r: Result<
        Terminal,
        ServerError,
    >)
        ensures
            final(self)@ == old(self)@.ended(),
            final(self)@.wf(),
            match reason {
                Terminal::Fatal => r matches Err(ServerError::Connection(e)) && e == cause,
                _ => r == Ok::<Terminal, ServerError>(reason),
            },
    {
        proof {
            use_type_invariant(&*self);
        }
        if self.finished < self.accepted {
            self.phase = Phase::Draining;
        } else {
            self.phase = Phase::Closed;
        }
        verdict(reason, cause)
    }

    /// No stream could be accepted: the connection is lost. The session
    /// stops accepting, and the loss is classified by its form: a failure
    /// of the transport is handed on with its cause, every other loss ends
    /// the session in good order and is told by its reason.
    pub fn accept_failed(&mut self, cause: quinn::ConnectionError) -> (r: Result<
        Terminal,
        ServerError,
    >)
        ensures
            final(self)@ == old(self)@.ended(),
            final(self)@.wf(),
            match terminal_of(kind_of(cause)) {
                Terminal::Fatal => r matches Err(ServerError::Connection(e)) && e == cause,
                reason => r == Ok::<Terminal, ServerError>(reason),
            },
    {
        let reason = classify(connection_error_kind(&cause));
        self.stop(reason, cause)
    }

    /// The task of one stream has ended, well or badly. Either way the
    /// session goes on as it was, less one stream being served; a failure
    /// is counted and logged, at the level handed back.
    pub fn stream_finished(&mut self, outcome: &Result<(), ServerError>) -> (r: Option<LogLevel>)
        ensures
            final(self)@ == old(self)@.settled(outcome is Ok),
            final(self)@.wf(),
            r == if outcome is Err {
                Some(LogLevel::Error)
            } else {
                None
            },
    {
        proof {
            use_type_invariant(&*self);
        }
        if self.finished < self.accepted {
            let finished = self.finished + 1;
            let phase = if self.phase == Phase::Draining && finished == self.accepted {
                Phase::Closed
            } else {
                self.phase
            };
            let failed = match outcome {
                Ok(_) => self.failed,
                Err(_) => self.failed + 1,
            };
            *self = Session { id: self.id, phase, accepted: self.accepted, finished, failed };
        }
        match outcome {
            Ok(_) => None,
            Err(_) => Some(LogLevel::Error),
        }
    }

    pub fn id(&self) -> (r: u64)
        ensures
            r == self@.id,
    {
        self.id
    }

    pub fn phase(&self) -> (r: Phase)
        ensures
            r == self@.phase,
    {
        self.phase
    }

    /// The number of streams that are being served.
    pub fn in_flight(&self) -> (r: u64)
        ensures
            self@.wf(),
            r == self@.in_flight(),
    {
        proof {
            use_type_invariant(self);
        }
        self.accepted - self.finished
    }

    /// The number of streams whose exchange failed.
    pub fn failed(&self) -> (r: u64)
        ensures
            self@.wf(),
            r == self@.failed,
    {
        proof {
            use_type_invariant(self);
        }
        self.failed
    }

    /// Whether the session has ended and nothing of it is left running.
    pub fn is_closed(&self) -> (r: bool)
        ensures
            self@.wf(),
            r == (self@.phase is Closed),
    {
        proof {
            use_type_invariant(self);
        }
        self.phase == Phase::Closed
    }
}

} // verus!
