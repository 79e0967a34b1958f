//! One transport session: the sending side's view of one connection.
//!
//! A session is made when a connection is accepted, with the credential
//! that was bound to the connection at the handshake. From then on the
//! caller reports what happens on the socket and performs what the session
//! decides: probe the peer, send a frame, tear the connection down. Time is
//! a count of milliseconds from a monotonic clock.

use crate::auth::{AuthSession, Session};
use crate::client::{QbtError, QbtErrorView};
use std::ops::ControlFlow;
use vstd::prelude::*;

verus! {

/// Why a peer closes the connection.
#[derive(Clone, Debug)]
pub struct CloseFrame {
    pub code: u16,
    pub reason: String,
}

/// A message that the peer sent. The protocol pushes data one way only:
/// whatever the peer sends is control traffic.
#[derive(Clone, Debug)]
pub enum Message {
    Text(String),
    Binary(Vec<u8>),
    Ping(Vec<u8>),
    Pong(Vec<u8>),
    Close(Option<CloseFrame>),
}

/// What kind of message the peer sent.
#[derive(Clone, Copy, Debug, PartialEq, Eq, Structural)]
pub enum MessageKind {
    Text,
    Binary,
    Ping,
    Pong,
    Close,
}

impl Message {
    pub open spec fn spec_kind(&self) -> MessageKind {
        match self {
            Message::Text(_) => MessageKind::Text,
            Message::Binary(_) => MessageKind::Binary,
            Message::Ping(_) => MessageKind::Ping,
            Message::Pong(_) => MessageKind::Pong,
            Message::Close(_) => MessageKind::Close,
        }
    }

    /// The kind of the message.
    #[verifier::when_used_as_spec(spec_kind)]
    pub fn kind(&self) -> (k: MessageKind)
        ensures
            k == self.spec_kind(),
    {
        match self {
            Message::Text(_) => MessageKind::Text,
            Message::Binary(_) => MessageKind::Binary,
            Message::Ping(_) => MessageKind::Ping,
            Message::Pong(_) => MessageKind::Pong,
            Message::Close(_) => MessageKind::Close,
        }
    }
}

/// Whether reading goes on after a message of the given kind: it ends with
/// a close message and with nothing else.
pub open spec fn reading_continues(kind: MessageKind) -> bool {
    kind != MessageKind::Close
}

/// Looks at one message from the peer. A close message breaks the reading;
/// every other message is taken note of and reading continues.
pub fn process_message(msg: &Message) -> (flow: ControlFlow<(), ()>)
    ensures
        flow is Continue <==> reading_continues(msg.kind()),
{
    match msg {
        Message::Close(_) => ControlFlow::Break(()),
        _ => ControlFlow::Continue(()),
    }
}

/// The payload of a liveness probe.
pub fn probe_payload() -> (payload: Vec<u8>)
    ensures
        payload@ == seq![1u8, 2u8, 3u8],
{
    let mut payload: Vec<u8> = Vec::new();
    payload.push(1);
    payload.push(2);
    payload.push(3);
    assert(payload@ =~= seq![1u8, 2u8, 3u8]);
    payload
}

/// Where a session stands.
#[derive(Clone, Copy, Debug, PartialEq, Eq, Structural)]
pub enum SessionPhase {
    /// Accepted, nothing sent yet.
    Opening,
    /// Frames flow to the peer.
    Streaming,
    /// Torn down. Nothing leaves this phase.
    Closed,
}

/// What the caller reports to a session.
#[derive(Clone, Copy, Debug, PartialEq, Eq, Structural)]
pub enum SocketEvent {
    /// The connection is up.
    Accepted,
    /// The loop published a frame tagged `rid`.
    Published { rid: u64 },
    /// A send to the peer failed.
    SendFailed,
    /// The peer sent a message of the given kind.
    Inbound(MessageKind),
    /// The inbound direction ended, by its own end or by an error.
    InboundEnded,
    /// Time has passed.
    Tick,
}

/// What a session asks the caller to do.
#[derive(Clone, Copy, Debug, PartialEq, Eq, Structural)]
pub enum SocketAction {
    /// Nothing to do.
    Idle,
    /// Send a liveness probe.
    SendProbe,
    /// Serialize the published frame and send it.
    SendFrame,
    /// Drop the published frame: sending it would break the order of
    /// revisions on this connection.
    SkipFrame,
    /// End both directions and give up the session's place in the fan-out.
    Teardown,
}

/// The time from `since` to `now`; zero where the clock did not advance.
pub open spec fn elapsed(now: u64, since: u64) -> u64 {
    if now >= since {
        (now - since) as u64
    } else {
        0
    }
}

/// One more than `n`, held at the end of the range.
pub open spec fn counted(n: u64) -> u64 {
    if n < u64::MAX {
        (n + 1) as u64
    } else {
        n
    }
}

/// One transport session.
#[derive(Clone, Debug)]
pub struct TransportSession {
    id: u64,
    session: Session,
    phase: SessionPhase,
    last_rid: Option<u64>,
    awaiting_ack: bool,
    probe_at: u64,
    probe_interval_ms: u64,
    probe_timeout_ms: u64,
    received: u64,
}

/// The mathematical value of a [`TransportSession`].
pub struct TransportSessionView {
    /// The session's name in the fan-out.
    pub id: u64,
    /// The id of the upstream session it was accepted with.
    pub sid: Seq<char>,
    pub phase: SessionPhase,
    /// The revision of the last frame sent, if any.
    pub last_rid: Option<u64>,
    /// Whether a probe is out that the peer has not answered.
    pub awaiting_ack: bool,
    /// When the last probe was sent.
    pub probe_at: u64,
    /// How long after an answered probe the next one is sent.
    pub probe_interval_ms: u64,
    /// How long the peer may take to answer a probe.
    pub probe_timeout_ms: u64,
    /// How many messages the peer has sent.
    pub received: u64,
}

impl View for TransportSession {
    type V = TransportSessionView;

    closed spec fn view(&self) -> TransportSessionView {
        TransportSessionView {
            id: self.id,
            sid: self.session@,
            phase: self.phase,
            last_rid: self.last_rid,
            awaiting_ack: self.awaiting_ack,
            probe_at: self.probe_at,
            probe_interval_ms: self.probe_interval_ms,
            probe_timeout_ms: self.probe_timeout_ms,
            received: self.received,
        }
    }
}

impl TransportSessionView {
    /// A session just accepted.
    pub open spec fn accepted(
        id: u64,
        sid: Seq<char>,
        probe_interval_ms: u64,
        probe_timeout_ms: u64,
    ) -> TransportSessionView {
        TransportSessionView {
            id,
            sid,
            phase: SessionPhase::Opening,
            last_rid: None,
            awaiting_ack: false,
            probe_at: 0,
            probe_interval_ms,
            probe_timeout_ms,
            received: 0,
        }
    }

    /// The session torn down.
    pub open spec fn closed(self) -> TransportSessionView {
        TransportSessionView { phase: SessionPhase::Closed, ..self }
    }

    /// The session with a probe sent at `now`.
    pub open spec fn probing(self, now: u64) -> TransportSessionView {
        TransportSessionView {
            phase: SessionPhase::Streaming,
            awaiting_ack: true,
            probe_at: now,
            ..self
        }
    }

    /// Whether a frame tagged `rid` keeps the revisions sent on this
    /// connection rising.
    pub open spec fn in_order(self, rid: u64) -> bool {
        match self.last_rid {
            None => true,
            Some(last) => rid > last,
        }
    }

    /// Whether the peer has left a probe unanswered for too long.
    pub open spec fn peer_silent(self, now: u64) -> bool {
        self.awaiting_ack && elapsed(now, self.probe_at) >= self.probe_timeout_ms
    }

    /// Whether it is time for the next probe.
    pub open spec fn probe_due(self, now: u64) -> bool {
        !self.awaiting_ack && elapsed(now, self.probe_at) >= self.probe_interval_ms
    }

    /// The session after `event` at time `now`.
    pub open spec fn next_state(self, event: SocketEvent, now: u64) -> TransportSessionView {
        match (self.phase, event) {
            (SessionPhase::Closed, _) => self,
            (SessionPhase::Opening, SocketEvent::Accepted) => self.probing(now),
            (_, SocketEvent::SendFailed) => self.closed(),
            (_, SocketEvent::InboundEnded) => self.closed(),
            (_, SocketEvent::Inbound(kind)) => {
                let noted = TransportSessionView { received: counted(self.received), ..self };
                if !reading_continues(kind) {
                    noted.closed()
                } else if kind == MessageKind::Pong {
                    TransportSessionView { awaiting_ack: false, ..noted }
                } else {
                    noted
                }
            },
            (SessionPhase::Streaming, SocketEvent::Published { rid }) => if self.in_order(rid) {
                TransportSessionView { last_rid: Some(rid), ..self }
            } else {
                self
            },
            (SessionPhase::Streaming, SocketEvent::Tick) => if self.peer_silent(now) {
                self.closed()
            } else if self.probe_due(now) {
                self.probing(now)
            } else {
                self
            },
            _ => self,
        }
    }

    /// What the caller is to do after `event` at time `now`.
    pub open spec fn next_action(self, event: SocketEvent, now: u64) -> SocketAction {
        match (self.phase, event) {
            (SessionPhase::Closed, _) => SocketAction::Teardown,
            (SessionPhase::Opening, SocketEvent::Accepted) => SocketAction::SendProbe,
            (_, SocketEvent::SendFailed) => SocketAction::Teardown,
            (_, SocketEvent::InboundEnded) => SocketAction::Teardown,
            (_, SocketEvent::Inbound(kind)) => if reading_continues(kind) {
                SocketAction::Idle
            } else {
                SocketAction::Teardown
            },
            (SessionPhase::Streaming, SocketEvent::Published { rid }) => if self.in_order(rid) {
                SocketAction::SendFrame
            } else {
                SocketAction::SkipFrame
            },
            (SessionPhase::Opening, SocketEvent::Published { rid }) => SocketAction::SkipFrame,
            (SessionPhase::Streaming, SocketEvent::Tick) => if self.peer_silent(now) {
                SocketAction::Teardown
            } else if self.probe_due(now) {
                SocketAction::SendProbe
            } else {
                SocketAction::Idle
            },
            _ => SocketAction::Idle,
        }
    }
}

impl TransportSession {
    /// Makes the session of a connection that was accepted with the
    /// credential `auth`. Without a credential there is no session.
    pub fn accept(
        id: u64,
        auth: &AuthSession,
        probe_interval_ms: u64,
        probe_timeout_ms: u64,
    ) -> (r: Result<TransportSession, QbtError>)
        ensures
            r is Ok <==> auth@ is Some,
            r matches Ok(session) ==> session@ == TransportSessionView::accepted(
                id,
                auth@->Some_0,
                probe_interval_ms,
                probe_timeout_ms,
            ),
            r matches Err(e) ==> e@ == QbtErrorView::Unauthenticated,
    {
        match auth.credential() {
            Ok(credential) => Ok(
                TransportSession {
                    id,
                    session: Session::new(credential.sid.clone()),
                    phase: SessionPhase::Opening,
                    last_rid: None,
                    awaiting_ack: false,
                    probe_at: 0,
                    probe_interval_ms,
                    probe_timeout_ms,
                    received: 0,
                },
            ),
            Err(e) => Err(e),
        }
    }

    /// The session's name in the fan-out.
    pub fn id(&self) -> (id: u64)
        ensures
            id == self@.id,
    {
        self.id
    }

    /// The credential the session was accepted with.
    pub fn session(&self) -> (s: &Session)
        ensures
            s@ == self@.sid,
    {
        &self.session
    }

    /// Where the session stands.
    pub fn phase(&self) -> (p: SessionPhase)
        ensures
            p == self@.phase,
    {
        self.phase
    }

    /// The revision of the last frame sent.
    pub fn last_rid(&self) -> (r: Option<u64>)
        ensures
            r == self@.last_rid,
    {
        self.last_rid
    }

    /// How many messages the peer has sent.
    pub fn received(&self) -> (n: u64)
        ensures
            n == self@.received,
    {
        self.received
    }

    /// Takes in one event at time `now` and says what to do about it.
    pub fn handle_socket(&mut self, event: SocketEvent, now: u64) -> (action: SocketAction)
        ensures
            final(self)@ == old(self)@.next_state(event, now),
            action == old(self)@.next_action(event, now),
    {
        if self.phase == SessionPhase::Closed {
            return SocketAction::Teardown;
        }
        match event {
            SocketEvent::Accepted => {
                if self.phase == SessionPhase::Opening {
                    self.phase = SessionPhase::Streaming;
                    self.awaiting_ack = true;
                    self.probe_at = now;
                    SocketAction::SendProbe
                } else {
                    SocketAction::Idle
                }
            },
            SocketEvent::SendFailed => {
                self.phase = SessionPhase::Closed;
                SocketAction::Teardown
            },
            SocketEvent::InboundEnded => {
                self.phase = SessionPhase::Closed;
                SocketAction::Teardown
            },
            SocketEvent::Inbound(kind) => {
                if self.received < u64::MAX {
                    self.received = self.received + 1;
                }
                match kind {
                    MessageKind::Close => {
                        self.phase = SessionPhase::Closed;
                        SocketAction::Teardown
                    },
                    MessageKind::Pong => {
                        self.awaiting_ack = false;
                        SocketAction::Idle
                    },
                    _ => SocketAction::Idle,
                }
            },
            SocketEvent::Published { rid } => {
                if self.phase == SessionPhase::Streaming {
                    let in_order = match self.last_rid {
                        None => true,
                        Some(last) => rid > last,
                    };
                    if in_order {
                        self.last_rid = Some(rid);
                        SocketAction::SendFrame
                    } else {
                        SocketAction::SkipFrame
                    }
                } else {
                    SocketAction::SkipFrame
                }
            },
            SocketEvent::Tick => {
                if self.phase == SessionPhase::Streaming {
                    let waited = if now >= self.probe_at {
                        now - self.probe_at
                    } else {
                        0
                    };
                    if self.awaiting_ack && waited >= self.probe_timeout_ms {
                        self.phase = SessionPhase::Closed;
                        SocketAction::Teardown
                    } else if !self.awaiting_ack && waited >= self.probe_interval_ms {
                        self.awaiting_ack = true;
                        self.probe_at = now;
                        SocketAction::SendProbe
                    } else {
                        SocketAction::Idle
                    }
                } else {
                    SocketAction::Idle
                }
            },
        }
    }
}

/// A session that is closed stays closed, and asks for the teardown
/// whatever happens.
pub proof fn law_closed_is_final(s: TransportSessionView, event: SocketEvent, now: u64)
    requires
        s.phase == SessionPhase::Closed,
    ensures
        s.next_state(event, now) == s,
        s.next_action(event, now) == SocketAction::Teardown,
{
}

/// When either direction ends, the whole session ends: a failed send, the
/// end of the inbound stream and a close message from the peer each close
/// the session and ask for the teardown.
pub proof fn law_either_direction_ends_both(s: TransportSessionView, now: u64)
    ensures
        s.next_state(SocketEvent::SendFailed, now).phase == SessionPhase::Closed,
        s.next_action(SocketEvent::SendFailed, now) == SocketAction::Teardown,
        s.next_state(SocketEvent::InboundEnded, now).phase == SessionPhase::Closed,
        s.next_action(SocketEvent::InboundEnded, now) == SocketAction::Teardown,
        s.next_state(SocketEvent::Inbound(MessageKind::Close), now).phase == SessionPhase::Closed,
        s.next_action(SocketEvent::Inbound(MessageKind::Close), now) == SocketAction::Teardown,
{
}

/// The revisions of the frames sent on one connection rise strictly.
pub proof fn law_sent_revisions_rise(s: TransportSessionView, first: u64, second: u64, now: u64)
    requires
        s.next_action(SocketEvent::Published { rid: first }, now) == SocketAction::SendFrame,
        s.next_state(SocketEvent::Published { rid: first }, now).next_action(
            SocketEvent::Published { rid: second },
            now,
        ) == SocketAction::SendFrame,
    ensures
        second > first,
{
}

/// A peer that leaves a probe unanswered for the whole timeout is given up.
pub proof fn law_silent_peer_is_dropped(s: TransportSessionView, now: u64)
    requires
        s.phase == SessionPhase::Streaming,
        s.awaiting_ack,
        now >= s.probe_at,
        now - s.probe_at >= s.probe_timeout_ms,
    ensures
        s.next_state(SocketEvent::Tick, now).phase == SessionPhase::Closed,
        s.next_action(SocketEvent::Tick, now) == SocketAction::Teardown,
{
}

} // verus!
