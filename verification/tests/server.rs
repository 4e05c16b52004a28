use axum::body::Bytes;
use quic_exchange::endpoint::{AcceptStep, Endpoint, Raced};
use quic_exchange::session::{
    classify, log_level, ConnectionErrorKind, LogLevel, Phase, Session, Terminal,
};
use quic_exchange::shutdown::{watched, Signal};
use quic_exchange::{serve, signal, ServerError, ShutdownError};
use quinn::ConnectionError;

fn established(id: u64) -> Session {
    Session::pending(id).handshake(Ok(())).unwrap()
}

fn peer_closed() -> ConnectionError {
    ConnectionError::ApplicationClosed(quinn::ApplicationClose {
        error_code: quinn::VarInt::from_u32(0),
        reason: Bytes::from_static(b"done"),
    })
}

fn transport_closed() -> ConnectionError {
    ConnectionError::ConnectionClosed(quinn::ConnectionClose {
        error_code: quinn::TransportErrorCode::NO_ERROR,
        frame_type: None,
        reason: Bytes::new(),
    })
}

#[test]
fn session_starts_pending() {
    let s = Session::pending(7);
    assert_eq!(s.id(), 7);
    assert_eq!(s.phase(), Phase::Pending);
    assert_eq!(s.in_flight(), 0);
    assert!(!s.is_closed());
}

#[test]
fn pending_session_accepts_no_stream() {
    let mut s = Session::pending(1);
    assert_eq!(s.stream_accepted(), None);
    assert_eq!(s.phase(), Phase::Pending);
    assert_eq!(s.in_flight(), 0);
}

#[test]
fn handshake_opens_the_session() {
    let s = established(3);
    assert_eq!(s.id(), 3);
    assert_eq!(s.phase(), Phase::Established);
}

#[test]
fn failed_handshake_ends_the_session_with_its_cause() {
    let r = Session::pending(3).handshake(Err(ConnectionError::TimedOut));
    assert!(matches!(r, Err(ServerError::Connection(ConnectionError::TimedOut))));
    let r = Session::pending(3).handshake(Err(ConnectionError::VersionMismatch));
    assert!(matches!(r, Err(ServerError::Connection(ConnectionError::VersionMismatch))));
}

#[test]
fn streams_are_numbered_in_order() {
    let mut s = established(1);
    assert_eq!(s.stream_accepted(), Some(0));
    assert_eq!(s.stream_accepted(), Some(1));
    assert_eq!(s.stream_accepted(), Some(2));
    assert_eq!(s.in_flight(), 3);
}

#[test]
fn a_hundred_streams_are_served_side_by_side() {
    let mut s = established(1);
    for n in 0u64..100 {
        assert_eq!(s.stream_accepted(), Some(n));
        assert_eq!(s.in_flight(), n + 1);
    }
    for left in (0u64..100).rev() {
        assert_eq!(s.stream_finished(&Ok(())), None);
        assert_eq!(s.in_flight(), left);
        assert_eq!(s.phase(), Phase::Established);
    }
    assert_eq!(s.stream_accepted(), Some(100));
}

#[test]
fn a_slow_stream_holds_up_no_other() {
    let mut s = established(1);
    assert_eq!(s.stream_accepted(), Some(0));
    for n in 1u64..50 {
        assert_eq!(s.stream_accepted(), Some(n));
        s.stream_finished(&Ok(()));
        assert_eq!(s.in_flight(), 1);
    }
    s.stream_finished(&Ok(()));
    assert_eq!(s.in_flight(), 0);
    assert_eq!(s.phase(), Phase::Established);
}

#[test]
fn a_failed_stream_leaves_the_session_open() {
    let mut s = established(1);
    s.stream_accepted();
    s.stream_accepted();
    let failure = Err(ServerError::Io(std::io::Error::other("broken pipe")));
    assert_eq!(s.failed(), 0);
    assert_eq!(s.stream_finished(&failure), Some(LogLevel::Error));
    assert_eq!(s.failed(), 1);
    assert_eq!(s.phase(), Phase::Established);
    assert_eq!(s.in_flight(), 1);
    assert_eq!(s.stream_accepted(), Some(2));
    assert_eq!(s.stream_finished(&Ok(())), None);
    assert_eq!(s.failed(), 1);
    assert_eq!(s.in_flight(), 1);
}

#[test]
fn finishing_with_nothing_in_flight_changes_nothing() {
    let mut s = established(1);
    assert_eq!(s.stream_finished(&Ok(())), None);
    assert_eq!(s.in_flight(), 0);
    assert_eq!(s.phase(), Phase::Established);
}

#[test]
fn every_kind_is_classified() {
    assert_eq!(classify(ConnectionErrorKind::ApplicationClosed), Terminal::PeerClosed);
    assert_eq!(classify(ConnectionErrorKind::ConnectionClosed), Terminal::PeerClosed);
    assert_eq!(classify(ConnectionErrorKind::LocallyClosed), Terminal::LocalClosed);
    assert_eq!(classify(ConnectionErrorKind::TimedOut), Terminal::TimedOut);
    assert_eq!(classify(ConnectionErrorKind::VersionMismatch), Terminal::Fatal);
    assert_eq!(classify(ConnectionErrorKind::TransportError), Terminal::Fatal);
    assert_eq!(classify(ConnectionErrorKind::Reset), Terminal::Fatal);
    assert_eq!(classify(ConnectionErrorKind::CidsExhausted), Terminal::Fatal);
}

#[test]
fn every_end_has_its_log_level() {
    assert_eq!(log_level(Terminal::PeerClosed), LogLevel::Info);
    assert_eq!(log_level(Terminal::LocalClosed), LogLevel::Debug);
    assert_eq!(log_level(Terminal::TimedOut), LogLevel::Warn);
    assert_eq!(log_level(Terminal::Fatal), LogLevel::Error);
}

#[test]
fn peer_close_ends_the_session_in_good_order() {
    let mut s = established(1);
    assert!(matches!(s.accept_failed(peer_closed()), Ok(Terminal::PeerClosed)));
    assert!(s.is_closed());
    let mut s = established(1);
    assert!(matches!(s.accept_failed(transport_closed()), Ok(Terminal::PeerClosed)));
    assert!(s.is_closed());
}

#[test]
fn local_close_ends_the_session_in_good_order() {
    let mut s = established(1);
    assert!(matches!(s.accept_failed(ConnectionError::LocallyClosed), Ok(Terminal::LocalClosed)));
    assert!(s.is_closed());
}

#[test]
fn timeout_ends_the_session_in_good_order() {
    let mut s = established(1);
    assert!(matches!(s.accept_failed(ConnectionError::TimedOut), Ok(Terminal::TimedOut)));
    assert!(s.is_closed());
}

#[test]
fn transport_failure_is_handed_on() {
    let mut s = established(1);
    let r = s.accept_failed(ConnectionError::Reset);
    assert!(matches!(r, Err(ServerError::Connection(ConnectionError::Reset))));
    assert!(s.is_closed());
    let mut s = established(1);
    let r = s.accept_failed(ConnectionError::VersionMismatch);
    assert!(matches!(r, Err(ServerError::Connection(ConnectionError::VersionMismatch))));
    let mut s = established(1);
    let r = s.accept_failed(ConnectionError::CidsExhausted);
    assert!(matches!(r, Err(ServerError::Connection(ConnectionError::CidsExhausted))));
    let mut s = established(1);
    let cause = ConnectionError::TransportError(quinn::TransportErrorCode::PROTOCOL_VIOLATION.into());
    let r = s.accept_failed(cause);
    assert!(matches!(r, Err(ServerError::Connection(ConnectionError::TransportError(_)))));
}

#[test]
fn stop_hands_on_only_a_failure() {
    let mut s = established(1);
    let r = s.stop(Terminal::Fatal, ConnectionError::Reset);
    assert!(matches!(r, Err(ServerError::Connection(ConnectionError::Reset))));
    let mut s = established(1);
    assert!(matches!(s.stop(Terminal::TimedOut, ConnectionError::Reset), Ok(Terminal::TimedOut)));
}

#[test]
fn session_drains_before_it_closes() {
    let mut s = established(1);
    s.stream_accepted();
    s.stream_accepted();
    assert!(s.accept_failed(ConnectionError::LocallyClosed).is_ok());
    assert_eq!(s.phase(), Phase::Draining);
    assert_eq!(s.in_flight(), 2);
    s.stream_finished(&Ok(()));
    assert_eq!(s.phase(), Phase::Draining);
    assert!(!s.is_closed());
    s.stream_finished(&Ok(()));
    assert_eq!(s.phase(), Phase::Closed);
    assert!(s.is_closed());
    assert_eq!(s.in_flight(), 0);
}

#[test]
fn drain_tells_how_each_stream_ended() {
    let mut s = established(1);
    for _ in 0..5 {
        s.stream_accepted();
    }
    assert!(s.accept_failed(ConnectionError::LocallyClosed).is_ok());
    s.stream_finished(&Ok(()));
    s.stream_finished(&Err(ServerError::Io(std::io::Error::other("reset"))));
    s.stream_finished(&Ok(()));
    s.stream_finished(&Err(ServerError::Io(std::io::Error::other("reset"))));
    assert!(!s.is_closed());
    s.stream_finished(&Ok(()));
    assert!(s.is_closed());
    assert_eq!(s.failed(), 2);
    assert_eq!(s.in_flight(), 0);
    s.stream_finished(&Err(ServerError::Io(std::io::Error::other("late"))));
    assert_eq!(s.failed(), 2);
}

#[test]
fn no_stream_is_accepted_after_the_end() {
    let mut s = established(1);
    s.stream_accepted();
    assert!(s.accept_failed(ConnectionError::TimedOut).is_ok());
    assert_eq!(s.stream_accepted(), None);
    assert_eq!(s.in_flight(), 1);
    s.stream_finished(&Ok(()));
    assert!(s.is_closed());
    assert_eq!(s.stream_accepted(), None);
    assert_eq!(s.in_flight(), 0);
}

#[test]
fn endpoint_starts_every_session_that_arrives() {
    let mut e = Endpoint::new();
    assert_eq!(e.incoming(true), AcceptStep::Spawn { ordinal: 0 });
    assert_eq!(e.incoming(true), AcceptStep::Spawn { ordinal: 1 });
    assert_eq!(e.incoming(true), AcceptStep::Spawn { ordinal: 2 });
    assert!(!e.is_idle());
}

#[test]
fn accept_loop_ends_with_the_endpoint() {
    let mut e = Endpoint::new();
    assert_eq!(e.incoming(false), AcceptStep::Finished);
    e.incoming(true);
    assert_eq!(e.incoming(false), AcceptStep::Finished);
}

#[test]
fn closing_endpoint_starts_no_session() {
    let mut e = Endpoint::new();
    e.incoming(true);
    let frame = e.close();
    assert_eq!(frame.code, 0);
    assert_eq!(frame.reason, b"server shutdown".to_vec());
    assert_eq!(e.incoming(true), AcceptStep::Refuse);
    assert_eq!(e.incoming(true), AcceptStep::Refuse);
    assert_eq!(e.incoming(false), AcceptStep::Finished);
}

#[test]
fn endpoint_keeps_a_session_until_it_has_closed() {
    let mut e = Endpoint::new();
    e.incoming(true);
    assert!(e.is_open(0));
    assert!(!e.is_open(1));
    assert_eq!(e.phase(0), Some(Phase::Pending));
    assert_eq!(e.phase(1), None);
    assert!(e.handshake(0, Ok(())).is_ok());
    assert_eq!(e.phase(0), Some(Phase::Established));
    assert_eq!(e.stream_accepted(0), Some(0));
    assert_eq!(e.in_flight(0), Some(1));
    assert!(matches!(e.accept_failed(0, ConnectionError::TimedOut), Ok(Terminal::TimedOut)));
    assert_eq!(e.phase(0), Some(Phase::Draining));
    assert_eq!(e.stream_accepted(0), None);
    assert_eq!(e.stream_finished(0, &Ok(())), None);
    assert!(!e.is_open(0));
    assert_eq!(e.phase(0), None);
    assert_eq!(e.in_flight(0), None);
    assert_eq!(e.open_sessions(), 0);
}

#[test]
fn endpoint_is_idle_once_every_session_has_closed() {
    let mut e = Endpoint::new();
    e.incoming(true);
    e.incoming(true);
    assert!(e.handshake(0, Ok(())).is_ok());
    assert!(e.handshake(1, Ok(())).is_ok());
    assert!(e.accept_failed(0, ConnectionError::LocallyClosed).is_ok());
    assert_eq!(e.open_sessions(), 1);
    assert!(!e.is_idle());
    e.close();
    assert!(!e.is_idle());
    assert!(e.accept_failed(1, ConnectionError::LocallyClosed).is_ok());
    assert!(e.is_idle());
    assert!(e.accept_failed(1, ConnectionError::LocallyClosed).is_ok());
    assert!(e.is_idle());
}

#[test]
fn open_endpoint_is_never_idle() {
    let mut e = Endpoint::new();
    assert!(!e.is_idle());
    e.incoming(true);
    assert!(e.handshake(0, Err(ConnectionError::TimedOut)).is_err());
    assert_eq!(e.open_sessions(), 0);
    assert!(!e.is_idle());
}

#[test]
fn failed_handshake_ends_the_session_at_the_endpoint() {
    let mut e = Endpoint::new();
    e.incoming(true);
    e.incoming(true);
    let r = e.handshake(0, Err(ConnectionError::VersionMismatch));
    assert!(matches!(r, Err(ServerError::Connection(ConnectionError::VersionMismatch))));
    assert!(!e.is_open(0));
    assert!(e.is_open(1));
    assert_eq!(e.stream_accepted(0), None);
    assert_eq!(e.phase(1), Some(Phase::Pending));
}

#[test]
fn sessions_of_an_endpoint_do_not_touch_each_other() {
    let mut e = Endpoint::new();
    for ordinal in 0u64..10 {
        assert_eq!(e.incoming(true), AcceptStep::Spawn { ordinal });
        assert!(e.handshake(ordinal, Ok(())).is_ok());
    }
    for round in 0u64..100 {
        for ordinal in 0u64..10 {
            assert_eq!(e.stream_accepted(ordinal), Some(round));
        }
    }
    let failure = Err(ServerError::Io(std::io::Error::other("reset")));
    assert_eq!(e.stream_finished(3, &failure), Some(LogLevel::Error));
    assert_eq!(e.in_flight(3), Some(99));
    assert_eq!(e.in_flight(4), Some(100));
    let r = e.accept_failed(7, ConnectionError::Reset);
    assert!(matches!(r, Err(ServerError::Connection(ConnectionError::Reset))));
    assert_eq!(e.phase(7), Some(Phase::Draining));
    assert_eq!(e.phase(8), Some(Phase::Established));
    assert_eq!(e.stream_accepted(7), None);
    assert_eq!(e.stream_accepted(8), Some(100));
    assert_eq!(e.open_sessions(), 10);
}

#[test]
fn events_of_a_session_that_is_not_kept_change_nothing() {
    let mut e = Endpoint::new();
    e.incoming(true);
    assert!(e.handshake(5, Ok(())).is_ok());
    assert_eq!(e.phase(0), Some(Phase::Pending));
    assert_eq!(e.stream_accepted(5), None);
    assert!(matches!(e.accept_failed(5, ConnectionError::TimedOut), Ok(Terminal::TimedOut)));
    let r = e.accept_failed(5, ConnectionError::Reset);
    assert!(matches!(r, Err(ServerError::Connection(ConnectionError::Reset))));
    assert_eq!(e.stream_finished(5, &Ok(())), None);
    let failure = Err(ServerError::Io(std::io::Error::other("reset")));
    assert_eq!(e.stream_finished(5, &failure), Some(LogLevel::Error));
    assert_eq!(e.open_sessions(), 1);
    assert_eq!(e.phase(0), Some(Phase::Pending));
}

#[test]
fn exchanges_in_flight_finish_before_the_server_is_idle() {
    let mut e = Endpoint::new();
    assert_eq!(e.incoming(true), AcceptStep::Spawn { ordinal: 0 });
    assert!(e.handshake(0, Ok(())).is_ok());
    assert_eq!(e.stream_accepted(0), Some(0));
    assert_eq!(e.stream_accepted(0), Some(1));
    let plan = serve(&mut e, Raced::Signal(Ok(Signal::Term)));
    assert!(plan.close.is_some());
    assert!(e.accept_failed(0, ConnectionError::LocallyClosed).is_ok());
    assert_eq!(e.stream_accepted(0), None);
    assert_eq!(e.phase(0), Some(Phase::Draining));
    assert!(!e.is_idle());
    e.stream_finished(0, &Ok(()));
    assert_eq!(e.in_flight(0), Some(1));
    assert!(!e.is_idle());
    e.stream_finished(0, &Ok(()));
    assert!(!e.is_open(0));
    assert!(e.is_idle());
    assert_eq!(e.incoming(true), AcceptStep::Refuse);
    assert_eq!(e.stream_accepted(0), None);
    assert!(plan.result.is_ok());
}

#[test]
fn signal_shuts_the_server_down() {
    for s in [Signal::Term, Signal::Quit, Signal::Int] {
        let mut e = Endpoint::new();
        let plan = serve(&mut e, Raced::Signal(Ok(s)));
        let frame = plan.close.unwrap();
        assert_eq!(frame.code, 0);
        assert_eq!(frame.reason, b"server shutdown".to_vec());
        assert_eq!(plan.trigger, Some(s));
        assert!(plan.result.is_ok());
        assert!(e.is_idle());
    }
}

#[test]
fn broken_signal_stream_ends_the_server_at_once() {
    let mut e = Endpoint::new();
    let plan = serve(&mut e, Raced::Signal(Err(ShutdownError::StreamClosed)));
    assert!(plan.close.is_none());
    assert_eq!(plan.trigger, None);
    assert!(matches!(plan.result, Err(ServerError::Shutdown(ShutdownError::StreamClosed))));
    assert!(!e.is_idle());
    assert_eq!(e.incoming(true), AcceptStep::Spawn { ordinal: 0 });
}

#[test]
fn end_of_the_accept_loop_shuts_the_server_down() {
    let mut e = Endpoint::new();
    let plan = serve(&mut e, Raced::AcceptLoop(Ok(())));
    assert!(plan.close.is_some());
    assert_eq!(plan.trigger, None);
    assert!(plan.result.is_ok());
    assert!(e.is_idle());
}

#[test]
fn failure_of_the_accept_loop_is_returned_after_the_drain() {
    let mut e = Endpoint::new();
    e.incoming(true);
    let failure = ServerError::Connection(ConnectionError::Reset);
    let plan = serve(&mut e, Raced::AcceptLoop(Err(failure)));
    assert_eq!(plan.close.unwrap().reason, b"server shutdown".to_vec());
    assert!(matches!(plan.result, Err(ServerError::Connection(ConnectionError::Reset))));
    assert!(!e.is_idle());
    assert!(e.handshake(0, Err(ConnectionError::LocallyClosed)).is_err());
    assert!(e.is_idle());
}

#[test]
fn three_signals_are_watched() {
    assert_eq!(watched(), vec![Signal::Term, Signal::Quit, Signal::Int]);
}

#[test]
fn signal_stream_item_is_read() {
    assert!(matches!(signal(Some(Ok(Signal::Int))), Ok(Signal::Int)));
    assert!(matches!(signal(Some(Ok(Signal::Term))), Ok(Signal::Term)));
    assert!(matches!(signal(None), Err(ShutdownError::StreamClosed)));
    let broken = std::io::Error::new(std::io::ErrorKind::PermissionDenied, "no signals");
    match signal(Some(Err(broken))) {
        Err(ShutdownError::Io(e)) => assert_eq!(e.kind(), std::io::ErrorKind::PermissionDenied),
        _ => panic!("the stream's error is lost"),
    }
}
