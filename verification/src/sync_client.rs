//! The receiving side as a whole: a connection and the state it feeds.

use crate::connection::{ConnectionAction, ConnectionEvent, ConnectionManager, ConnectionReadyState};
use crate::proto::sync::{MainData, MainDataView};
use crate::reconciler::{Reconciler, ReconcilerView, SyncError};
use crate::syncstate::SyncState;
use vstd::prelude::*;

verus! {

/// One subscription to a backend's state: where to connect, how the
/// connection stands, and what has been learned so far.
#[derive(Clone, Debug)]
pub struct SyncClient {
    url: String,
    connection: ConnectionManager,
    reconciler: Reconciler,
}

/// The mathematical value of a [`SyncClient`].
pub struct SyncClientView {
    pub url: Seq<char>,
    pub connection: ConnectionManager,
    pub reconciler: ReconcilerView,
}

impl View for SyncClient {
    type V = SyncClientView;

    closed spec fn view(&self) -> SyncClientView {
        SyncClientView {
            url: self.url@,
            connection: self.connection,
            reconciler: self.reconciler@,
        }
    }
}

impl SyncClientView {
    /// A subscription that has not connected yet.
    pub open spec fn initial(
        url: Seq<char>,
        reconnect_delay_ms: u64,
        connect_timeout_ms: u64,
    ) -> SyncClientView {
        SyncClientView {
            url,
            connection: ConnectionManager::initial(reconnect_delay_ms, connect_timeout_ms),
            reconciler: ReconcilerView::initial(),
        }
    }

    /// Whether `event` at `now` opens the connection.
    pub open spec fn opens(self, event: ConnectionEvent, now: u64) -> bool {
        !self.connection.is_connected() && self.connection.next_state(event, now).is_connected()
    }

    /// The subscription after `event` at time `now`. Where the event opens
    /// the connection, a new sync session starts: no revision counts as
    /// seen any more.
    pub open spec fn next_state(self, event: ConnectionEvent, now: u64) -> SyncClientView {
        SyncClientView {
            url: self.url,
            connection: self.connection.next_state(event, now),
            reconciler: if self.opens(event, now) {
                self.reconciler.restarted()
            } else {
                self.reconciler
            },
        }
    }

    /// The subscription after something arrived from the transport.
    pub open spec fn received(self, arrival: Option<MainDataView>) -> SyncClientView {
        SyncClientView { reconciler: self.reconciler.received(arrival), ..self }
    }
}

impl SyncClient {
    /// A subscription to the stream at `url`, not yet connected.
    pub fn new(url: &str, reconnect_delay_ms: u64, connect_timeout_ms: u64) -> (c: SyncClient)
        ensures
            c@ == SyncClientView::initial(url@, reconnect_delay_ms, connect_timeout_ms),
    {
        SyncClient {
            url: url.to_owned(),
            connection: ConnectionManager::new(reconnect_delay_ms, connect_timeout_ms),
            reconciler: Reconciler::new(),
        }
    }

    /// Where to connect.
    pub fn url(&self) -> (s: &str)
        ensures
            s@ == self@.url,
    {
        self.url.as_str()
    }

    /// Where the connection stands.
    pub fn ready_state(&self) -> (s: ConnectionReadyState)
        ensures
            s == self@.connection.ready_state,
    {
        self.connection.ready_state()
    }

    /// Whether the connection is ready for traffic.
    pub fn connected(&self) -> (b: bool)
        ensures
            b == self@.connection.is_connected(),
    {
        self.connection.connected()
    }

    /// The state on show.
    pub fn data(&self) -> (s: &SyncState)
        ensures
            s@ == self@.reconciler.state,
    {
        self.reconciler.state()
    }

    /// The revision id of the last frame applied in the running session.
    pub fn last_rid(&self) -> (r: Option<u64>)
        ensures
            r == self@.reconciler.last_rid,
    {
        self.reconciler.last_rid()
    }

    /// Takes in one connection event at time `now` and says what to do
    /// about it.
    pub fn handle(&mut self, event: ConnectionEvent, now: u64) -> (action: ConnectionAction)
        ensures
            final(self)@ == old(self)@.next_state(event, now),
            action == old(self)@.connection.next_action(event, now),
    {
        let was_connected = self.connection.connected();
        let action = self.connection.handle(event, now);
        if !was_connected && self.connection.connected() {
            self.reconciler.begin_session();
        }
        action
    }

    /// Asks for a connection.
    pub fn open(&mut self, now: u64) -> (action: ConnectionAction)
        ensures
            final(self)@ == old(self)@.next_state(ConnectionEvent::OpenRequested, now),
            action == old(self)@.connection.next_action(ConnectionEvent::OpenRequested, now),
    {
        self.handle(ConnectionEvent::OpenRequested, now)
    }

    /// Asks for the connection to end and to stay ended.
    pub fn close(&mut self, now: u64) -> (action: ConnectionAction)
        ensures
            final(self)@ == old(self)@.next_state(ConnectionEvent::CloseRequested, now),
            action == old(self)@.connection.next_action(ConnectionEvent::CloseRequested, now),
    {
        self.handle(ConnectionEvent::CloseRequested, now)
    }

    /// Takes what the transport delivered: `Some` frame, or `None` where
    /// the bytes that arrived could not be decoded.
    pub fn receive(&mut self, arrival: Option<MainData>) -> (r: Result<(), SyncError>)
        ensures
            final(self)@ == old(self)@.received(
                match arrival {
                    Some(frame) => Some(frame@),
                    None => None,
                },
            ),
            r is Ok <==> (arrival matches Some(frame) && old(self)@.reconciler.accepts(
                frame@.rid(),
            )),
            r matches Err(e) ==> match arrival {
                None => e == SyncError::Unparseable,
                Some(frame) => old(self)@.reconciler.last_rid matches Some(last) && e == (
                SyncError::StaleRevision { last, got: frame@.rid() }),
            },
    {
        self.reconciler.receive(arrival)
    }
}

/// A reconnect starts over. After the connection was open, was lost and is
/// open again, the session is a fresh one from revision zero, and the first
/// frame to arrive takes effect whatever its revision id: nothing of the
/// old session's revisions is carried on.
pub proof fn law_reconnect_starts_over(
    c: SyncClientView,
    lost_at: u64,
    retry_at: u64,
    opened_at: u64,
    frame: MainDataView,
)
    requires
        c.connection.is_connected(),
        !c.connection.stopped,
        retry_at >= crate::connection::time_after(lost_at, c.connection.reconnect_delay_ms),
    ensures
        ({
            let lost = c.next_state(ConnectionEvent::Lost, lost_at);
            let retrying = lost.next_state(ConnectionEvent::Tick, retry_at);
            let open = retrying.next_state(ConnectionEvent::Opened, opened_at);
            &&& !lost.connection.is_connected()
            &&& open.connection.is_connected()
            &&& retrying.connection.next_action(ConnectionEvent::Opened, opened_at) == (
            ConnectionAction::Subscribe { rid: 0 })
            &&& open.reconciler.last_rid is None
            &&& open.reconciler.state == c.reconciler.state
            &&& open.received(Some(frame)).reconciler.last_rid == Some(frame.rid())
            &&& frame matches MainDataView::Full(full) ==> open.received(
                Some(frame),
            ).reconciler.state == crate::syncstate::SyncStateView::snapshot(full)
        }),
{
}

} // verus!
