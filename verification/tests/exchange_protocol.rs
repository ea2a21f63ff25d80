//! Request/response exchange ordering: head exactly once, chunks in
//! order, terminal one-shot finish, and local rejection of every misuse.

use stream_lifecycle::connection::{ConnectionTask, StreamProtocol};
use stream_lifecycle::errors::{FaultKind, ProtocolViolation};
use stream_lifecycle::exchange::{serve_exchange, ExchangePhase, ResponseTask};
use stream_lifecycle::payload;

fn served_response(chunks: &[&[u8]]) -> ResponseTask {
    let mut t = ResponseTask::start();
    assert!(t.on_resolve(true).is_ok());
    let owned: Vec<Vec<u8>> = chunks.iter().map(|c| c.to_vec()).collect();
    assert!(serve_exchange(&mut t, 200, &owned).is_ok());
    t
}

#[test]
fn response_with_no_chunks() {
    let t = served_response(&[]);
    assert_eq!(t.phase, ExchangePhase::Completed);
    assert_eq!(t.status, Some(200));
    assert!(t.body.is_empty());
}

#[test]
fn response_with_one_chunk() {
    let t = served_response(&[b"Hello from HTTP/3\n"]);
    assert_eq!(t.phase, ExchangePhase::Completed);
    assert_eq!(t.status, Some(200));
    assert_eq!(t.body, b"Hello from HTTP/3\n".to_vec());
}

#[test]
fn response_with_hundred_chunks_in_order() {
    let chunks: Vec<Vec<u8>> = (0..100u8).map(|i| vec![i, i.wrapping_mul(3)]).collect();
    let mut t = ResponseTask::start();
    assert!(t.on_resolve(true).is_ok());
    assert!(serve_exchange(&mut t, 206, &chunks).is_ok());
    let expected: Vec<u8> = chunks.concat();
    assert_eq!(t.phase, ExchangePhase::Completed);
    assert_eq!(t.status, Some(206));
    assert_eq!(t.body, expected, "chunks must arrive concatenated, in order, unreordered");
}

#[test]
fn head_before_resolve_rejected() {
    let mut t = ResponseTask::start();
    assert_eq!(t.send_head(200), Err(ProtocolViolation::HeadTooEarly));
    assert_eq!(t.phase, ExchangePhase::AwaitingResolve);
}

#[test]
fn body_and_finish_before_head_rejected() {
    let mut t = ResponseTask::start();
    assert!(t.on_resolve(true).is_ok());
    assert_eq!(t.send_chunk(&b"early".to_vec()), Err(ProtocolViolation::BodyBeforeHead));
    assert_eq!(t.finish(), Err(ProtocolViolation::FinishBeforeHead));
    assert_eq!(t.phase, ExchangePhase::HeadPending);
    assert!(t.body.is_empty());
}

#[test]
fn second_head_rejected_without_effect() {
    let mut t = ResponseTask::start();
    assert!(t.on_resolve(true).is_ok());
    assert!(t.send_head(200).is_ok());
    assert_eq!(t.send_head(500), Err(ProtocolViolation::DoubleHead));
    assert_eq!(t.status, Some(200), "the declared status must survive a rejected second head");
}

#[test]
fn finish_is_terminal_and_one_shot_on_an_exchange() {
    let mut t = ResponseTask::start();
    assert!(t.on_resolve(true).is_ok());
    assert!(t.send_head(200).is_ok());
    assert!(t.send_chunk(&b"body".to_vec()).is_ok());
    assert!(t.finish().is_ok());
    assert_eq!(t.finish(), Err(ProtocolViolation::DoubleFinish));
    assert_eq!(t.send_chunk(&b"late".to_vec()), Err(ProtocolViolation::WriteAfterFinish));
    assert_eq!(t.body, b"body".to_vec());
    assert_eq!(t.phase, ExchangePhase::Completed);
}

#[test]
fn second_resolve_report_rejected() {
    let mut t = ResponseTask::start();
    assert!(t.on_resolve(true).is_ok());
    assert_eq!(t.on_resolve(true), Err(ProtocolViolation::DoubleResolve));
}

#[test]
fn resolve_failure_terminates_the_exchange_alone() {
    let mut t = ResponseTask::start();
    assert!(t.on_resolve(false).is_ok());
    assert_eq!(t.phase, ExchangePhase::Failed);
    assert_eq!(t.send_head(200), Err(ProtocolViolation::TaskTerminated));
    assert_eq!(t.send_chunk(&b"x".to_vec()), Err(ProtocolViolation::TaskTerminated));
    assert_eq!(t.finish(), Err(ProtocolViolation::TaskTerminated));
}

#[test]
fn send_failure_terminates_the_exchange() {
    let mut t = ResponseTask::start();
    assert!(t.on_resolve(true).is_ok());
    assert!(t.send_head(200).is_ok());
    assert!(t.on_send_failed().is_ok());
    assert_eq!(t.phase, ExchangePhase::Failed);
    assert_eq!(t.send_chunk(&b"x".to_vec()), Err(ProtocolViolation::TaskTerminated));
    assert_eq!(t.on_send_failed(), Err(ProtocolViolation::TaskTerminated));
}

#[test]
fn exchange_failure_is_contained_to_its_stream() {
    let mut conn = ConnectionTask::start(StreamProtocol::RequestResponse);
    conn.on_handshake(true);
    let a = conn.accept_stream();
    let b = conn.accept_stream();

    {
        let xa = conn.exchange_at(a);
        assert!(xa.on_resolve(false).is_ok());
        assert_eq!(xa.phase, ExchangePhase::Failed);
    }
    {
        let xb = conn.exchange_at(b);
        assert!(xb.on_resolve(true).is_ok());
        assert!(serve_exchange(xb, 200, &vec![b"ok".to_vec()]).is_ok());
        assert_eq!(xb.phase, ExchangePhase::Completed);
        assert_eq!(xb.body, b"ok".to_vec());
    }
}

#[test]
fn violation_labels_are_fixed() {
    assert_eq!(ProtocolViolation::WriteAfterFinish.label(), "write after finish");
    assert_eq!(ProtocolViolation::DoubleFinish.label(), "finish after finish");
    assert_eq!(ProtocolViolation::HeadTooEarly.label(), "response head before resolve");
    assert_eq!(ProtocolViolation::DoubleHead.label(), "second response head");
    assert_eq!(ProtocolViolation::BodyBeforeHead.label(), "body chunk before head");
    assert_eq!(ProtocolViolation::FinishBeforeHead.label(), "finish before head");
    assert_eq!(ProtocolViolation::DoubleResolve.label(), "second resolve report");
    assert_eq!(ProtocolViolation::TaskTerminated.label(), "operation on terminated task");
}

#[test]
fn fault_labels_are_fixed() {
    assert_eq!(FaultKind::Setup.label(), "setup failed");
    assert_eq!(FaultKind::Handshake.label(), "handshake failed");
    assert_eq!(FaultKind::Connection.label(), "connection closed with error");
    assert_eq!(FaultKind::StreamRead.label(), "stream read failed");
    assert_eq!(FaultKind::StreamWrite.label(), "stream write failed");
    assert_eq!(FaultKind::StreamFinish.label(), "stream finish failed");
    assert_eq!(FaultKind::StreamResolve.label(), "request resolve failed");
}

#[test]
fn fixed_payloads() {
    let (status, body) = payload::h3_hello();
    assert_eq!(status, 200);
    assert_eq!(body, "Hello from HTTP/3\n");
    let (status, body) = payload::h2_hello();
    assert_eq!(status, 200);
    assert_eq!(body, "hello from hyper http/2 (no TLS)");
    assert_eq!(payload::client_greeting(), "hello over QUIC");
}
