use bittower::connection::{
    ConnectionAction, ConnectionEvent, ConnectionManager, ConnectionReadyState,
};
use bittower::keyed::KeyedMap;
use bittower::proto::sync::{MainData, SyncMainDataFull};
use bittower::proto::transfer::ServerStateFull;
use bittower::sync_client::SyncClient;

#[test]
fn manager_starts_closed() {
    let m = ConnectionManager::new(3000, 5000);
    assert_eq!(m.ready_state(), ConnectionReadyState::Closed);
    assert!(!m.connected());
    assert_eq!(m.deadline, None);
}

#[test]
fn open_request_connects_then_subscribes_from_zero() {
    let mut m = ConnectionManager::new(3000, 5000);
    assert_eq!(m.handle(ConnectionEvent::OpenRequested, 10), ConnectionAction::Connect);
    assert_eq!(m.ready_state(), ConnectionReadyState::Connecting);
    assert_eq!(m.deadline, Some(5010));
    assert_eq!(m.handle(ConnectionEvent::Opened, 20), ConnectionAction::Subscribe { rid: 0 });
    assert!(m.connected());
    assert_eq!(m.deadline, None);
}

#[test]
fn loss_schedules_reconnect_after_delay() {
    let mut m = ConnectionManager::new(3000, 5000);
    m.handle(ConnectionEvent::OpenRequested, 0);
    m.handle(ConnectionEvent::Opened, 1);
    assert_eq!(m.handle(ConnectionEvent::Lost, 100), ConnectionAction::Idle);
    assert_eq!(m.ready_state(), ConnectionReadyState::Closed);
    assert_eq!(m.deadline, Some(3100));
    assert_eq!(m.handle(ConnectionEvent::Tick, 3099), ConnectionAction::Idle);
    assert_eq!(m.ready_state(), ConnectionReadyState::Closed);
    assert_eq!(m.handle(ConnectionEvent::Tick, 3100), ConnectionAction::Connect);
    assert_eq!(m.ready_state(), ConnectionReadyState::Connecting);
    assert_eq!(m.handle(ConnectionEvent::Opened, 3200), ConnectionAction::Subscribe { rid: 0 });
}

#[test]
fn connect_attempt_times_out() {
    let mut m = ConnectionManager::new(3000, 5000);
    m.handle(ConnectionEvent::OpenRequested, 0);
    assert_eq!(m.handle(ConnectionEvent::Tick, 4999), ConnectionAction::Idle);
    assert_eq!(m.handle(ConnectionEvent::Tick, 5000), ConnectionAction::Release);
    assert_eq!(m.ready_state(), ConnectionReadyState::Closed);
    assert_eq!(m.deadline, Some(8000));
}

#[test]
fn close_request_stops_reconnect() {
    let mut m = ConnectionManager::new(3000, 5000);
    m.handle(ConnectionEvent::OpenRequested, 0);
    m.handle(ConnectionEvent::Opened, 1);
    assert_eq!(m.handle(ConnectionEvent::CloseRequested, 2), ConnectionAction::Release);
    assert_eq!(m.ready_state(), ConnectionReadyState::Closing);
    assert_eq!(m.handle(ConnectionEvent::CloseRequested, 2), ConnectionAction::Idle);
    assert_eq!(m.handle(ConnectionEvent::Lost, 3), ConnectionAction::Idle);
    assert_eq!(m.ready_state(), ConnectionReadyState::Closed);
    assert_eq!(m.deadline, None);
    assert_eq!(m.handle(ConnectionEvent::Tick, u64::MAX), ConnectionAction::Idle);
    assert_eq!(m.ready_state(), ConnectionReadyState::Closed);
    assert_eq!(m.handle(ConnectionEvent::OpenRequested, 10), ConnectionAction::Connect);
}

#[test]
fn close_while_waiting_cancels_pending_reconnect() {
    let mut m = ConnectionManager::new(3000, 5000);
    m.handle(ConnectionEvent::OpenRequested, 0);
    m.handle(ConnectionEvent::Opened, 1);
    m.handle(ConnectionEvent::Lost, 2);
    assert_eq!(m.handle(ConnectionEvent::CloseRequested, 3), ConnectionAction::Idle);
    assert_eq!(m.deadline, None);
    assert_eq!(m.handle(ConnectionEvent::Tick, 10_000), ConnectionAction::Idle);
}

#[test]
fn deadline_saturates() {
    let mut m = ConnectionManager::new(3000, 5000);
    m.handle(ConnectionEvent::OpenRequested, u64::MAX - 10);
    assert_eq!(m.deadline, Some(u64::MAX));
}

#[test]
fn ready_state_labels() {
    assert_eq!(ConnectionReadyState::Open.label(), "Open");
    assert_eq!(ConnectionReadyState::Closed.label(), "Closed");
    assert_eq!(ConnectionReadyState::Closing.label(), "Closing");
    assert_eq!(ConnectionReadyState::Connecting.label(), "Opening");
}

#[test]
fn sync_client_reconnect_starts_fresh_session() {
    let frame = |rid: u64| {
        MainData::Full(SyncMainDataFull {
            full_update: true,
            rid,
            torrents: KeyedMap::new(),
            server_state: ServerStateFull::default(),
        })
    };
    let mut c = SyncClient::new("ws://localhost:3010/ws", 3000, 5000);
    assert_eq!(c.url(), "ws://localhost:3010/ws");
    assert_eq!(c.ready_state(), ConnectionReadyState::Closed);
    assert_eq!(c.open(0), ConnectionAction::Connect);
    assert_eq!(c.handle(ConnectionEvent::Opened, 1), ConnectionAction::Subscribe { rid: 0 });
    assert!(c.connected());
    assert_eq!(c.receive(Some(frame(40))), Ok(()));
    assert_eq!(c.last_rid(), Some(40));
    c.handle(ConnectionEvent::Lost, 2);
    assert!(!c.connected());
    assert_eq!(c.last_rid(), Some(40));
    assert_eq!(c.handle(ConnectionEvent::Tick, 3002), ConnectionAction::Connect);
    assert_eq!(c.handle(ConnectionEvent::Opened, 3003), ConnectionAction::Subscribe { rid: 0 });
    assert_eq!(c.last_rid(), None);
    assert_eq!(c.receive(Some(frame(3))), Ok(()));
    assert_eq!(c.last_rid(), Some(3));
    assert_eq!(c.close(4000), ConnectionAction::Release);
    assert!(c.data().torrents.is_empty());
}
