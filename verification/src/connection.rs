//! The lifecycle of the receiving side's connection.
//!
//! The manager decides; the caller acts. The caller reports what happened to
//! the transport (it opened, it was lost), what the user asked for (open,
//! close) and the passing of time, and performs the action that the manager
//! answers with. Time is a count of milliseconds from a monotonic clock.

use vstd::prelude::*;

verus! {

/// Where the connection stands.
#[derive(Clone, Copy, Debug, PartialEq, Eq, Structural)]
pub enum ConnectionReadyState {
    Connecting,
    Open,
    Closing,
    Closed,
}

impl ConnectionReadyState {
    pub open spec fn label_text(self) -> Seq<char> {
        match self {
            ConnectionReadyState::Open => "Open"@,
            ConnectionReadyState::Closed => "Closed"@,
            ConnectionReadyState::Closing => "Closing"@,
            ConnectionReadyState::Connecting => "Opening"@,
        }
    }

    /// The word shown to the user for the state.
    pub fn label(&self) -> (s: &'static str)
        ensures
            s@ == self.label_text(),
    {
        match self {
            ConnectionReadyState::Open => "Open",
            ConnectionReadyState::Closed => "Closed",
            ConnectionReadyState::Closing => "Closing",
            ConnectionReadyState::Connecting => "Opening",
        }
    }
}

/// What the caller reports to the manager.
#[derive(Clone, Copy, Debug, PartialEq, Eq, Structural)]
pub enum ConnectionEvent {
    /// The transport is established.
    Opened,
    /// The transport is gone: closed by either side, or failed.
    Lost,
    /// Time has passed.
    Tick,
    /// The user asks for a connection.
    OpenRequested,
    /// The user asks for the connection to end, and to stay ended.
    CloseRequested,
}

/// What the manager asks the caller to do.
#[derive(Clone, Copy, Debug, PartialEq, Eq, Structural)]
pub enum ConnectionAction {
    /// Nothing to do.
    Idle,
    /// Establish a transport.
    Connect,
    /// The connection is open: start a sync session from revision `rid`.
    Subscribe { rid: u64 },
    /// Give up the transport handle.
    Release,
}

/// The revision a fresh sync session starts from. The backend answers a
/// poll from revision zero with a full frame.
pub const SESSION_START_RID: u64 = 0;

/// The point in time `delay` milliseconds after `now`, held at the end of
/// the clock's range.
pub open spec fn time_after(now: u64, delay: u64) -> u64 {
    if now + delay > u64::MAX {
        u64::MAX
    } else {
        (now + delay) as u64
    }
}

/// The connection lifecycle manager.
#[derive(Clone, Copy, Debug, PartialEq, Eq, Structural)]
pub struct ConnectionManager {
    /// Where the connection stands.
    pub ready_state: ConnectionReadyState,
    /// Whether the user has asked for the connection to stay closed.
    pub stopped: bool,
    /// While connecting: when the attempt is given up. While closed: when
    /// the next attempt starts. `None` where no timer runs.
    pub deadline: Option<u64>,
    /// How long to wait after a loss before connecting again.
    pub reconnect_delay_ms: u64,
    /// How long an attempt to connect may take.
    pub connect_timeout_ms: u64,
}

impl ConnectionManager {
    /// The manager before any attempt: closed, not stopped, no timer.
    pub open spec fn initial(reconnect_delay_ms: u64, connect_timeout_ms: u64) -> ConnectionManager {
        ConnectionManager {
            ready_state: ConnectionReadyState::Closed,
            stopped: false,
            deadline: None,
            reconnect_delay_ms,
            connect_timeout_ms,
        }
    }

    /// Whether the connection is ready for traffic.
    pub open spec fn is_connected(self) -> bool {
        self.ready_state == ConnectionReadyState::Open
    }

    /// The manager with the connection closed at `now`: unless the user
    /// stopped it, the next attempt is due one reconnect delay later.
    pub open spec fn closed_at(self, now: u64) -> ConnectionManager {
        ConnectionManager {
            ready_state: ConnectionReadyState::Closed,
            deadline: if self.stopped {
                None
            } else {
                Some(time_after(now, self.reconnect_delay_ms))
            },
            ..self
        }
    }

    /// The manager with an attempt to connect started at `now`.
    pub open spec fn connecting_at(self, now: u64) -> ConnectionManager {
        ConnectionManager {
            ready_state: ConnectionReadyState::Connecting,
            stopped: false,
            deadline: Some(time_after(now, self.connect_timeout_ms)),
            ..self
        }
    }

    /// The manager after the user asked for the connection to end.
    pub open spec fn stopping(self) -> ConnectionManager {
        ConnectionManager {
            ready_state: if self.ready_state == ConnectionReadyState::Closed {
                ConnectionReadyState::Closed
            } else {
                ConnectionReadyState::Closing
            },
            stopped: true,
            deadline: None,
            ..self
        }
    }

    /// Whether the running timer has run out at `now`.
    pub open spec fn is_due(self, now: u64) -> bool {
        self.deadline matches Some(at) && now >= at
    }

    /// The manager after `event` at time `now`.
    pub open spec fn next_state(self, event: ConnectionEvent, now: u64) -> ConnectionManager {
        match (self.ready_state, event) {
            (ConnectionReadyState::Connecting, ConnectionEvent::Opened) => ConnectionManager {
                ready_state: ConnectionReadyState::Open,
                deadline: None,
                ..self
            },
            (ConnectionReadyState::Connecting, ConnectionEvent::Tick) => if self.is_due(now) {
                self.closed_at(now)
            } else {
                self
            },
            (ConnectionReadyState::Closed, ConnectionEvent::Tick) => if !self.stopped
                && self.is_due(now) {
                self.connecting_at(now)
            } else {
                self
            },
            (ConnectionReadyState::Closed, ConnectionEvent::OpenRequested) => self.connecting_at(
                now,
            ),
            (ConnectionReadyState::Closing, ConnectionEvent::OpenRequested) => ConnectionManager {
                stopped: false,
                ..self
            },
            (ConnectionReadyState::Closed, ConnectionEvent::Lost) => self,
            (_, ConnectionEvent::Lost) => self.closed_at(now),
            (_, ConnectionEvent::CloseRequested) => self.stopping(),
            _ => self,
        }
    }

    /// What the caller is to do after `event` at time `now`.
    pub open spec fn next_action(self, event: ConnectionEvent, now: u64) -> ConnectionAction {
        match (self.ready_state, event) {
            (ConnectionReadyState::Connecting, ConnectionEvent::Opened) => ConnectionAction::Subscribe {
                rid: SESSION_START_RID,
            },
            (ConnectionReadyState::Connecting, ConnectionEvent::Tick) => if self.is_due(now) {
                ConnectionAction::Release
            } else {
                ConnectionAction::Idle
            },
            (ConnectionReadyState::Closed, ConnectionEvent::Tick) => if !self.stopped
                && self.is_due(now) {
                ConnectionAction::Connect
            } else {
                ConnectionAction::Idle
            },
            (ConnectionReadyState::Closed, ConnectionEvent::OpenRequested) => ConnectionAction::Connect,
            (ConnectionReadyState::Closed, ConnectionEvent::CloseRequested) => ConnectionAction::Idle,
            (ConnectionReadyState::Closing, ConnectionEvent::CloseRequested) => ConnectionAction::Idle,
            (_, ConnectionEvent::CloseRequested) => ConnectionAction::Release,
            _ => ConnectionAction::Idle,
        }
    }

    /// A manager for a connection that is yet to be opened.
    pub fn new(reconnect_delay_ms: u64, connect_timeout_ms: u64) -> (m: ConnectionManager)
        ensures
            m == ConnectionManager::initial(reconnect_delay_ms, connect_timeout_ms),
    {
        ConnectionManager {
            ready_state: ConnectionReadyState::Closed,
            stopped: false,
            deadline: None,
            reconnect_delay_ms,
            connect_timeout_ms,
        }
    }

    /// Where the connection stands.
    pub fn ready_state(&self) -> (s: ConnectionReadyState)
        ensures
            s == self.ready_state,
    {
        self.ready_state
    }

    /// Whether the connection is ready for traffic: the ready state is open.
    pub fn connected(&self) -> (b: bool)
        ensures
            b == self.is_connected(),
    {
        self.ready_state == ConnectionReadyState::Open
    }

    fn due(&self, now: u64) -> (b: bool)
        ensures
            b == self.is_due(now),
    {
        match self.deadline {
            Some(at) => now >= at,
            None => false,
        }
    }

    fn close_at(&mut self, now: u64)
        ensures
            *final(self) == old(self).closed_at(now),
    {
        self.ready_state = ConnectionReadyState::Closed;
        self.deadline = if self.stopped {
            None
        } else {
            Some(now.saturating_add(self.reconnect_delay_ms))
        };
    }

    fn connect_at(&mut self, now: u64)
        ensures
            *final(self) == old(self).connecting_at(now),
    {
        self.ready_state = ConnectionReadyState::Connecting;
        self.stopped = false;
        self.deadline = Some(now.saturating_add(self.connect_timeout_ms));
    }

    /// Takes in one event at time `now` and says what to do about it.
    pub fn handle(&mut self, event: ConnectionEvent, now: u64) -> (action: ConnectionAction)
        ensures
            *final(self) == old(self).next_state(event, now),
            action == old(self).next_action(event, now),
    {
        match event {
            ConnectionEvent::Opened => {
                if self.ready_state == ConnectionReadyState::Connecting {
                    self.ready_state = ConnectionReadyState::Open;
                    self.deadline = None;
                    ConnectionAction::Subscribe { rid: SESSION_START_RID }
                } else {
                    ConnectionAction::Idle
                }
            },
            ConnectionEvent::Lost => {
                if self.ready_state != ConnectionReadyState::Closed {
                    self.close_at(now);
                }
                ConnectionAction::Idle
            },
            ConnectionEvent::Tick => {
                if self.ready_state == ConnectionReadyState::Connecting && self.due(now) {
                    self.close_at(now);
                    ConnectionAction::Release
                } else if self.ready_state == ConnectionReadyState::Closed && !self.stopped
                    && self.due(now) {
                    self.connect_at(now);
                    ConnectionAction::Connect
                } else {
                    ConnectionAction::Idle
                }
            },
            ConnectionEvent::OpenRequested => {
                if self.ready_state == ConnectionReadyState::Closed {
                    self.connect_at(now);
                    ConnectionAction::Connect
                } else {
                    if self.ready_state == ConnectionReadyState::Closing {
                        self.stopped = false;
                    }
                    ConnectionAction::Idle
                }
            },
            ConnectionEvent::CloseRequested => {
                let release = self.ready_state == ConnectionReadyState::Connecting
                    || self.ready_state == ConnectionReadyState::Open;
                if self.ready_state != ConnectionReadyState::Closed {
                    self.ready_state = ConnectionReadyState::Closing;
                }
                self.stopped = true;
                self.deadline = None;
                if release {
                    ConnectionAction::Release
                } else {
                    ConnectionAction::Idle
                }
            },
        }
    }
}

/// Every way into the open state starts a sync session from revision zero:
/// the manager never resumes from a revision it saw before.
pub proof fn law_open_subscribes_from_zero(m: ConnectionManager, event: ConnectionEvent, now: u64)
    requires
        !m.is_connected(),
        m.next_state(event, now).is_connected(),
    ensures
        m.next_action(event, now) == (ConnectionAction::Subscribe { rid: 0 }),
{
}

/// After a connection was open, lost and opened again, the session that
/// starts is a fresh one, from revision zero.
pub proof fn law_reconnect_resyncs(
    m: ConnectionManager,
    lost_at: u64,
    retry_at: u64,
    opened_at: u64,
)
    requires
        m.is_connected(),
        !m.stopped,
        retry_at >= time_after(lost_at, m.reconnect_delay_ms),
    ensures
        ({
            let lost = m.next_state(ConnectionEvent::Lost, lost_at);
            let retrying = lost.next_state(ConnectionEvent::Tick, retry_at);
            let open = retrying.next_state(ConnectionEvent::Opened, opened_at);
            &&& lost.ready_state == ConnectionReadyState::Closed
            &&& lost.next_action(ConnectionEvent::Tick, retry_at) == ConnectionAction::Connect
            &&& retrying.ready_state == ConnectionReadyState::Connecting
            &&& open.is_connected()
            &&& retrying.next_action(ConnectionEvent::Opened, opened_at) == (
            ConnectionAction::Subscribe { rid: 0 })
        }),
{
}

/// Once the user has asked for the connection to end, no timer brings it
/// back: only a request to open does.
pub proof fn law_close_stops_reconnect(m: ConnectionManager, closed_at: u64, now: u64)
    ensures
        ({
            let stopping = m.next_state(ConnectionEvent::CloseRequested, closed_at);
            let ended = stopping.next_state(ConnectionEvent::Lost, closed_at);
            &&& stopping.stopped
            &&& stopping.deadline is None
            &&& !stopping.is_connected()
            &&& ended.ready_state == ConnectionReadyState::Closed
            &&& ended.next_state(ConnectionEvent::Tick, now) == ended
            &&& ended.next_action(ConnectionEvent::Tick, now) == ConnectionAction::Idle
        }),
{
}

} // verus!
