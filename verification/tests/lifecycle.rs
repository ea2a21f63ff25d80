//! Lifecycle behaviour: echo round trips, one-shot finish, and failure
//! containment between sibling streams and sibling connections.

use stream_lifecycle::connection::{ConnPhase, ConnectionTask, StreamProtocol, StreamTask};
use stream_lifecycle::echo::{EchoAction, EchoEvent, EchoPhase, EchoTask};
use stream_lifecycle::errors::ProtocolViolation;
use stream_lifecycle::half::WriteHalf;
use stream_lifecycle::supervisor::Supervisor;

fn echo_phase(conn: &ConnectionTask, i: usize) -> EchoPhase {
    match &conn.streams[i] {
        StreamTask::EchoStream(e) => e.phase,
        StreamTask::Exchange(_) => panic!("expected an echo stream"),
    }
}

/// Drives the echo stream at `i` through a clean run over `chunks`,
/// performing each ordered action on its own write half, which is
/// returned.
fn run_echo_stream(conn: &mut ConnectionTask, i: usize, chunks: &[&[u8]]) -> WriteHalf {
    let mut half = WriteHalf::new();
    for chunk in chunks {
        let action = conn.echo_event_at(i, EchoEvent::Data(chunk.to_vec()));
        match action {
            EchoAction::SendBytes(w) => {
                assert_eq!(w.as_slice(), *chunk);
                assert!(half.order_write(&w).is_ok());
            }
            _ => panic!("a read chunk must be echoed"),
        }
        let action = conn.echo_event_at(i, EchoEvent::WroteOk);
        assert!(matches!(action, EchoAction::ReadNext));
    }
    let action = conn.echo_event_at(i, EchoEvent::Fin);
    assert!(matches!(action, EchoAction::CloseWrite));
    assert!(half.finish().is_ok());
    let action = conn.echo_event_at(i, EchoEvent::FinishedOk);
    assert!(matches!(action, EchoAction::Halt));
    half
}

#[test]
fn echo_round_trip_exact_bytes() {
    let mut half = WriteHalf::new();
    let chunks = vec![b"hello ".to_vec(), b"multiplexed ".to_vec(), b"world".to_vec()];
    let task = stream_lifecycle::echo::echo_prerecorded(&chunks, &mut half);
    assert_eq!(half.sent, b"hello multiplexed world".to_vec());
    assert!(half.finished);
    assert_eq!(task.phase, EchoPhase::Done);
}

#[test]
fn echo_round_trip_zero_bytes_still_finishes() {
    let mut half = WriteHalf::new();
    let chunks: Vec<Vec<u8>> = Vec::new();
    let task = stream_lifecycle::echo::echo_prerecorded(&chunks, &mut half);
    assert!(half.sent.is_empty());
    assert!(half.finished, "FIN must be answered with a finish even when nothing was echoed");
    assert_eq!(task.phase, EchoPhase::Done);
}

#[test]
fn finish_is_one_shot_and_write_after_finish_rejected() {
    let mut half = WriteHalf::new();
    assert!(half.order_write(&b"payload".to_vec()).is_ok());
    assert!(half.finish().is_ok());
    assert!(half.finished);

    let second = half.finish();
    assert_eq!(second, Err(ProtocolViolation::DoubleFinish));
    assert_eq!(half.sent, b"payload".to_vec());
    assert!(half.finished);

    let late_write = half.order_write(&b"more".to_vec());
    assert_eq!(late_write, Err(ProtocolViolation::WriteAfterFinish));
    assert_eq!(half.sent, b"payload".to_vec());
}

#[test]
fn double_finish_has_no_cross_stream_effect() {
    let mut conn = ConnectionTask::start(StreamProtocol::Echo);
    conn.on_handshake(true);
    let a = conn.accept_stream();
    let b = conn.accept_stream();

    // Run stream `b` up to its FIN, then force a double finish on its half.
    let mut half_b = WriteHalf::new();
    let action = conn.echo_event_at(b, EchoEvent::Fin);
    assert!(matches!(action, EchoAction::CloseWrite));
    assert!(half_b.finish().is_ok());
    assert_eq!(half_b.finish(), Err(ProtocolViolation::DoubleFinish));
    let _ = conn.echo_event_at(b, EchoEvent::FinishedOk);

    // Stream `a` is untouched and completes its echo normally.
    assert_eq!(echo_phase(&conn, a), EchoPhase::AwaitingRead);
    let half_a = run_echo_stream(&mut conn, a, &[b"unaffected"]);
    assert_eq!(half_a.sent, b"unaffected".to_vec());
    assert!(half_a.finished);
    assert_eq!(echo_phase(&conn, a), EchoPhase::Done);
    assert_eq!(conn.phase, ConnPhase::Accepting);
}

#[test]
fn read_failure_on_one_stream_leaves_sibling_echo_intact() {
    let mut conn = ConnectionTask::start(StreamProtocol::Echo);
    conn.on_handshake(true);
    let a = conn.accept_stream();
    let b = conn.accept_stream();

    // Inject a read failure on stream A.
    let action = conn.echo_event_at(a, EchoEvent::ReadFailed);
    assert!(matches!(action, EchoAction::Halt));
    assert_eq!(echo_phase(&conn, a), EchoPhase::Failed);

    // Stream B, concurrently open on the same connection, still echoes.
    let half_b = run_echo_stream(&mut conn, b, &[b"still ", b"alive"]);
    assert_eq!(half_b.sent, b"still alive".to_vec());
    assert!(half_b.finished);
    assert_eq!(echo_phase(&conn, b), EchoPhase::Done);

    // The accept loop was never disturbed.
    assert_eq!(conn.phase, ConnPhase::Accepting);
    assert_eq!(conn.streams.len(), 2);
}

#[test]
fn handshake_failure_does_not_stop_the_listener() {
    let mut sup = Supervisor::start();

    let first = sup.on_attempt(StreamProtocol::Echo);
    sup.conn_handshake(first, false);
    assert!(sup.accepting, "a failed handshake must not close the listener");
    assert_eq!(sup.conns[first].phase, ConnPhase::Failed);
    assert_eq!(sup.conns[first].streams.len(), 0, "no accept loop runs after a failed handshake");

    // A subsequent connection is accepted and completes normally.
    let second = sup.on_attempt(StreamProtocol::Echo);
    sup.conn_handshake(second, true);
    assert_eq!(sup.conns[second].phase, ConnPhase::Accepting);
    let conn = sup.conn_at(second);
    let s = conn.accept_stream();
    let half = run_echo_stream(conn, s, &[b"after the failure"]);
    assert_eq!(half.sent, b"after the failure".to_vec());
    assert!(half.finished);

    // The failed sibling is still exactly as it was.
    assert_eq!(sup.conns[first].phase, ConnPhase::Failed);
    assert_eq!(sup.conns[first].streams.len(), 0);
    assert!(sup.accepting);
}

#[test]
fn endpoint_closure_ends_the_loop_and_keeps_connections() {
    let mut sup = Supervisor::start();
    let i = sup.on_attempt(StreamProtocol::RequestResponse);
    sup.conn_handshake(i, true);
    sup.on_endpoint_closed();
    assert!(!sup.accepting);
    assert_eq!(sup.conns.len(), 1);
    assert_eq!(sup.conns[i].phase, ConnPhase::Accepting);
}

#[test]
fn connection_close_and_accept_error_end_only_that_connection() {
    let mut sup = Supervisor::start();
    let i = sup.on_attempt(StreamProtocol::Echo);
    let j = sup.on_attempt(StreamProtocol::Echo);
    sup.conn_handshake(i, true);
    sup.conn_handshake(j, true);

    sup.conn_at(i).on_closed();
    assert_eq!(sup.conns[i].phase, ConnPhase::ClosedByPeer);
    assert_eq!(sup.conns[j].phase, ConnPhase::Accepting);

    sup.conn_at(j).on_accept_error();
    assert_eq!(sup.conns[j].phase, ConnPhase::Failed);
    assert!(sup.accepting);
}

#[test]
fn three_concurrent_streams_echo_their_own_bytes() {
    let mut conn = ConnectionTask::start(StreamProtocol::Echo);
    conn.on_handshake(true);
    let s0 = conn.accept_stream();
    let s1 = conn.accept_stream();
    let s2 = conn.accept_stream();
    let mut halves = vec![WriteHalf::new(), WriteHalf::new(), WriteHalf::new()];
    let payloads: [&[u8]; 3] = [b"A", b"BB", b"CCC"];

    // All three streams send their bytes, interleaved, with no FIN yet.
    for &i in &[s2, s0, s1] {
        let action = conn.echo_event_at(i, EchoEvent::Data(payloads[i].to_vec()));
        match action {
            EchoAction::SendBytes(w) => {
                assert_eq!(w.as_slice(), payloads[i]);
                assert!(halves[i].order_write(&w).is_ok());
            }
            _ => panic!("a read chunk must be echoed"),
        }
    }
    for &i in &[s1, s2, s0] {
        let action = conn.echo_event_at(i, EchoEvent::WroteOk);
        assert!(matches!(action, EchoAction::ReadNext));
    }

    // Now each peer sends FIN, again out of accept order.
    for &i in &[s1, s0, s2] {
        let action = conn.echo_event_at(i, EchoEvent::Fin);
        assert!(matches!(action, EchoAction::CloseWrite));
        assert!(halves[i].finish().is_ok());
        let action = conn.echo_event_at(i, EchoEvent::FinishedOk);
        assert!(matches!(action, EchoAction::Halt));
    }

    // Each stream echoed its own bytes on its own half and finished it.
    assert_eq!(halves[s0].sent, b"A".to_vec());
    assert_eq!(halves[s1].sent, b"BB".to_vec());
    assert_eq!(halves[s2].sent, b"CCC".to_vec());
    for h in &halves {
        assert!(h.finished);
    }
    for &i in &[s0, s1, s2] {
        assert_eq!(echo_phase(&conn, i), EchoPhase::Done);
    }
    assert_eq!(conn.phase, ConnPhase::Accepting);
}

#[test]
fn finish_failure_fails_the_stream_after_fin() {
    let mut task = EchoTask::start();
    let action = task.on_event(EchoEvent::Fin);
    assert!(matches!(action, EchoAction::CloseWrite));
    let action = task.on_event(EchoEvent::FinishedErr);
    assert!(matches!(action, EchoAction::Halt));
    assert_eq!(task.phase, EchoPhase::Failed);
}

#[test]
fn write_failure_ends_only_that_stream() {
    let mut conn = ConnectionTask::start(StreamProtocol::Echo);
    conn.on_handshake(true);
    let a = conn.accept_stream();
    let b = conn.accept_stream();

    let action = conn.echo_event_at(a, EchoEvent::Data(b"x".to_vec()));
    assert!(matches!(action, EchoAction::SendBytes(_)));
    let action = conn.echo_event_at(a, EchoEvent::WroteErr);
    assert!(matches!(action, EchoAction::Halt));
    assert_eq!(echo_phase(&conn, a), EchoPhase::Failed);

    let half_b = run_echo_stream(&mut conn, b, &[b"fine"]);
    assert_eq!(half_b.sent, b"fine".to_vec());
    assert_eq!(conn.phase, ConnPhase::Accepting);
}
