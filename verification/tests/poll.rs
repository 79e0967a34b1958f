use bittower::client::QbtError;
use bittower::keyed::KeyedMap;
use bittower::poll::{PollAction, PollLoop, PollPhase, PollVerdict, DEFAULT_MIN_INTERVAL_MS};
use bittower::proto::sync::{MainData, SyncMainDataFull, SyncMainDataPartial};
use bittower::proto::transfer::ServerStateFull;

fn full(rid: u64) -> MainData {
    MainData::Full(SyncMainDataFull {
        full_update: true,
        rid,
        torrents: KeyedMap::new(),
        server_state: ServerStateFull::default(),
    })
}

fn partial(rid: u64) -> MainData {
    MainData::Partial(SyncMainDataPartial { rid, torrents: None, server_state: None })
}

#[test]
fn first_fetch_is_from_revision_zero() {
    let mut l = PollLoop::new(DEFAULT_MIN_INTERVAL_MS);
    assert_eq!(DEFAULT_MIN_INTERVAL_MS, 1000);
    assert_eq!(l.cursor(), 0);
    assert_eq!(l.phase(), PollPhase::Idle);
    assert_eq!(l.poll(0), PollAction::Fetch { rid: 0 });
    assert_eq!(l.phase(), PollPhase::Polling);
    assert_eq!(l.poll(0), PollAction::InFlight);
}

#[test]
fn publish_then_throttle() {
    let mut l = PollLoop::new(1000);
    l.attach(1);
    l.poll(50);
    assert_eq!(l.on_frame(&full(17), 60), vec![1]);
    assert_eq!(l.cursor(), 17);
    assert_eq!(l.phase(), PollPhase::Idle);
    assert_eq!(l.poll(60), PollAction::Wait { until: 1060 });
    assert_eq!(l.poll(1059), PollAction::Wait { until: 1060 });
    assert_eq!(l.poll(1060), PollAction::Fetch { rid: 17 });
    assert_eq!(l.on_frame(&partial(18), 1060), vec![1]);
    assert_eq!(l.poll(2059), PollAction::Wait { until: 2060 });
    assert_eq!(l.poll(2060), PollAction::Fetch { rid: 18 });
}

#[test]
fn retryable_error_keeps_cursor() {
    let mut l = PollLoop::new(1000);
    l.poll(0);
    l.on_frame(&full(5), 10);
    assert_eq!(l.poll(1010), PollAction::Fetch { rid: 5 });
    assert_eq!(
        l.on_error(&QbtError::Transport("timed out".to_string()), 1500),
        PollVerdict::Retry { at: 2500 }
    );
    assert_eq!(l.cursor(), 5);
    assert_eq!(l.poll(2499), PollAction::Wait { until: 2500 });
    assert_eq!(l.poll(2500), PollAction::Fetch { rid: 5 });
    assert_eq!(l.on_error(&QbtError::Malformed, 2600), PollVerdict::Retry { at: 3600 });
    assert_eq!(l.cursor(), 5);
}

#[test]
fn invalid_credential_is_fatal() {
    let mut l = PollLoop::new(1000);
    l.poll(0);
    assert_eq!(l.on_error(&QbtError::Unauthenticated, 5), PollVerdict::Fatal);
    assert_eq!(l.phase(), PollPhase::Stopped);
    assert_eq!(l.poll(10_000), PollAction::Halt);
    assert_eq!(l.on_frame(&full(1), 10_001), Vec::<u64>::new());
    assert_eq!(l.cursor(), 0);
}

#[test]
fn stray_reports_are_ignored() {
    let mut l = PollLoop::new(1000);
    assert_eq!(l.on_error(&QbtError::Malformed, 5), PollVerdict::Ignored);
    assert_eq!(l.on_frame(&full(9), 5), Vec::<u64>::new());
    assert_eq!(l.cursor(), 0);
    assert_eq!(l.phase(), PollPhase::Idle);
}

#[test]
fn attach_resets_cursor_and_detach_keeps_it() {
    let mut l = PollLoop::new(1000);
    assert!(l.attach(1));
    l.poll(0);
    l.on_frame(&full(30), 1);
    assert_eq!(l.cursor(), 30);
    assert!(!l.attach(1));
    assert_eq!(l.cursor(), 30);
    assert!(l.attach(2));
    assert_eq!(l.cursor(), 0);
    assert_eq!(l.session_count(), 2);
    assert_eq!(l.poll(1001), PollAction::Fetch { rid: 0 });
    assert_eq!(l.on_frame(&full(31), 1002), vec![1, 2]);
    assert!(l.detach(1));
    assert!(!l.detach(1));
    assert_eq!(l.cursor(), 31);
    assert!(l.is_attached(2));
    assert!(!l.is_attached(1));
}

#[test]
fn failing_one_session_leaves_the_other() {
    let mut l = PollLoop::new(1000);
    l.attach(1);
    l.attach(2);
    l.poll(0);
    assert_eq!(l.on_frame(&full(3), 1), vec![1, 2]);
    l.on_delivery_failed(1);
    assert_eq!(l.poll(500), PollAction::Wait { until: 1001 });
    assert_eq!(l.poll(1001), PollAction::Fetch { rid: 3 });
    assert_eq!(l.on_frame(&partial(4), 1001), vec![2]);
    assert_eq!(l.cursor(), 4);
}

#[test]
fn resume_time_saturates() {
    let mut l = PollLoop::new(1000);
    l.poll(u64::MAX - 1);
    l.on_frame(&full(1), u64::MAX - 1);
    assert_eq!(l.poll(u64::MAX - 1), PollAction::Wait { until: u64::MAX });
    assert_eq!(l.poll(u64::MAX), PollAction::Fetch { rid: 1 });
}

#[test]
fn session_joining_during_a_fetch_gets_a_full_frame_first() {
    let mut l = PollLoop::new(1000);
    l.attach(1);
    assert!(l.is_waiting(1));
    assert_eq!(l.poll(0), PollAction::Fetch { rid: 0 });
    assert_eq!(l.on_frame(&full(7), 1), vec![1]);
    assert!(!l.is_waiting(1));
    assert_eq!(l.poll(1001), PollAction::Fetch { rid: 7 });
    assert!(l.attach(2));
    assert!(l.is_waiting(2));
    assert_eq!(l.cursor(), 0);
    assert_eq!(l.on_frame(&partial(8), 1002), vec![1]);
    assert!(l.is_waiting(2));
    assert_eq!(l.cursor(), 0);
    assert_eq!(l.poll(2001), PollAction::Wait { until: 2002 });
    assert_eq!(l.poll(2002), PollAction::Fetch { rid: 0 });
    assert_eq!(l.on_frame(&full(9), 2003), vec![1, 2]);
    assert!(!l.is_waiting(2));
    assert_eq!(l.cursor(), 9);
    assert_eq!(l.poll(3003), PollAction::Fetch { rid: 9 });
    assert_eq!(l.on_frame(&partial(10), 3004), vec![1, 2]);
}

#[test]
fn session_joining_during_a_fetch_from_zero_is_served_by_it() {
    let mut l = PollLoop::new(1000);
    l.attach(1);
    assert_eq!(l.poll(0), PollAction::Fetch { rid: 0 });
    l.attach(2);
    assert_eq!(l.on_frame(&full(3), 1), vec![1, 2]);
    assert!(!l.is_waiting(2));
    assert_eq!(l.cursor(), 3);
}

#[test]
fn waiting_session_that_leaves_does_not_force_a_full_frame() {
    let mut l = PollLoop::new(1000);
    l.attach(1);
    l.poll(0);
    l.on_frame(&full(5), 1);
    l.attach(2);
    assert_eq!(l.cursor(), 0);
    assert!(l.detach(2));
    assert!(!l.is_waiting(2));
    assert_eq!(l.cursor(), 5);
    assert!(!l.unobserved());
    l.detach(1);
    assert!(l.unobserved());
}

#[test]
fn failed_fetch_keeps_a_session_waiting() {
    let mut l = PollLoop::new(1000);
    l.attach(1);
    l.poll(0);
    l.on_frame(&full(5), 1);
    assert_eq!(l.poll(1001), PollAction::Fetch { rid: 5 });
    l.attach(2);
    assert_eq!(l.on_error(&QbtError::Malformed, 1002), PollVerdict::Retry { at: 2002 });
    assert!(l.is_waiting(2));
    assert_eq!(l.poll(2002), PollAction::Fetch { rid: 0 });
    assert_eq!(l.on_frame(&full(6), 2003), vec![1, 2]);
}
