use bittower::auth::{AuthSession, Session};
use bittower::client::QbtError;
use bittower::transport::{
    probe_payload, process_message, CloseFrame, Message, MessageKind, SessionPhase, SocketAction,
    SocketEvent, TransportSession,
};
use std::ops::ControlFlow;

fn session() -> TransportSession {
    let auth = AuthSession::new(Some(Session::new("sid-1".to_string())));
    TransportSession::accept(7, &auth, 30_000, 10_000).unwrap()
}

#[test]
fn accept_needs_a_credential() {
    let r = TransportSession::accept(1, &AuthSession::new(None), 30_000, 10_000);
    assert!(matches!(r, Err(QbtError::Unauthenticated)));
    let s = session();
    assert_eq!(s.id(), 7);
    assert_eq!(s.session().sid, "sid-1");
    assert_eq!(s.phase(), SessionPhase::Opening);
    assert_eq!(s.last_rid(), None);
    assert_eq!(s.received(), 0);
}

#[test]
fn probe_payload_bytes() {
    assert_eq!(probe_payload(), vec![1u8, 2, 3]);
}

#[test]
fn process_message_breaks_on_close_only() {
    assert_eq!(process_message(&Message::Text("hi".to_string())), ControlFlow::Continue(()));
    assert_eq!(process_message(&Message::Binary(vec![1])), ControlFlow::Continue(()));
    assert_eq!(process_message(&Message::Ping(vec![])), ControlFlow::Continue(()));
    assert_eq!(process_message(&Message::Pong(vec![1, 2, 3])), ControlFlow::Continue(()));
    assert_eq!(process_message(&Message::Close(None)), ControlFlow::Break(()));
    let frame = CloseFrame { code: 1000, reason: "bye".to_string() };
    assert_eq!(process_message(&Message::Close(Some(frame))), ControlFlow::Break(()));
    assert_eq!(Message::Pong(vec![]).kind(), MessageKind::Pong);
    assert_eq!(Message::Close(None).kind(), MessageKind::Close);
}

#[test]
fn accepted_sends_probe_and_streams() {
    let mut s = session();
    assert_eq!(s.handle_socket(SocketEvent::Published { rid: 1 }, 0), SocketAction::SkipFrame);
    assert_eq!(s.handle_socket(SocketEvent::Accepted, 5), SocketAction::SendProbe);
    assert_eq!(s.phase(), SessionPhase::Streaming);
    assert_eq!(s.handle_socket(SocketEvent::Accepted, 6), SocketAction::Idle);
    assert_eq!(s.handle_socket(SocketEvent::Published { rid: 4 }, 7), SocketAction::SendFrame);
    assert_eq!(s.last_rid(), Some(4));
    assert_eq!(s.handle_socket(SocketEvent::Published { rid: 4 }, 8), SocketAction::SkipFrame);
    assert_eq!(s.handle_socket(SocketEvent::Published { rid: 2 }, 8), SocketAction::SkipFrame);
    assert_eq!(s.handle_socket(SocketEvent::Published { rid: 5 }, 9), SocketAction::SendFrame);
    assert_eq!(s.last_rid(), Some(5));
}

#[test]
fn failed_probe_tears_down() {
    let mut s = session();
    s.handle_socket(SocketEvent::Accepted, 0);
    assert_eq!(s.handle_socket(SocketEvent::SendFailed, 1), SocketAction::Teardown);
    assert_eq!(s.phase(), SessionPhase::Closed);
    assert_eq!(s.handle_socket(SocketEvent::Published { rid: 9 }, 2), SocketAction::Teardown);
    assert_eq!(s.handle_socket(SocketEvent::Tick, 3), SocketAction::Teardown);
    assert_eq!(s.last_rid(), None);
}

#[test]
fn close_message_and_stream_end_tear_down() {
    let mut s = session();
    s.handle_socket(SocketEvent::Accepted, 0);
    assert_eq!(s.handle_socket(SocketEvent::Inbound(MessageKind::Text), 1), SocketAction::Idle);
    assert_eq!(s.handle_socket(SocketEvent::Inbound(MessageKind::Close), 2), SocketAction::Teardown);
    assert_eq!(s.received(), 2);
    assert_eq!(s.phase(), SessionPhase::Closed);
    let mut t = session();
    t.handle_socket(SocketEvent::Accepted, 0);
    assert_eq!(t.handle_socket(SocketEvent::InboundEnded, 1), SocketAction::Teardown);
    assert_eq!(t.phase(), SessionPhase::Closed);
}

#[test]
fn liveness_probe_cycle() {
    let mut s = session();
    s.handle_socket(SocketEvent::Accepted, 100);
    assert_eq!(s.handle_socket(SocketEvent::Tick, 10_099), SocketAction::Idle);
    assert_eq!(s.handle_socket(SocketEvent::Inbound(MessageKind::Pong), 200), SocketAction::Idle);
    assert_eq!(s.handle_socket(SocketEvent::Tick, 30_099), SocketAction::Idle);
    assert_eq!(s.handle_socket(SocketEvent::Tick, 30_100), SocketAction::SendProbe);
    assert_eq!(s.handle_socket(SocketEvent::Tick, 40_099), SocketAction::Idle);
    assert_eq!(s.handle_socket(SocketEvent::Tick, 40_100), SocketAction::Teardown);
    assert_eq!(s.phase(), SessionPhase::Closed);
}
