use std::sync::Arc;
use tokio::sync::broadcast::error::TryRecvError;
use ton_connection::bus::{reached, NotificationBus, NOTIFICATION_BACKLOG};
use ton_connection::types::{SyncState, TonNotification, UpdateSyncState};

fn progress(current_seqno: i32) -> TonNotification {
    TonNotification::UpdateSyncState(UpdateSyncState {
        sync_state: SyncState::InProgress { from_seqno: 0, to_seqno: i32::MAX, current_seqno },
    })
}

#[test]
fn backlog_is_ten_thousand() {
    assert_eq!(NOTIFICATION_BACKLOG, 10000);
}

#[test]
fn reached_reads_both_answers() {
    assert_eq!(reached(Ok(3)), 3);
    assert_eq!(reached(Ok(1)), 1);
    assert_eq!(reached(Err(Arc::new(progress(1)))), 0);
}

#[test]
fn publish_without_subscribers_is_discarded() {
    let mut bus = NotificationBus::new();
    assert_eq!(bus.publish(progress(1)), Ok(1));
    assert_eq!(reached(bus.publish(progress(2))), 1);
    let mut late = bus.subscribe();
    assert_eq!(late.try_recv(), Err(TryRecvError::Empty));
}

#[test]
fn publish_counts_the_subscriptions() {
    let mut bus = NotificationBus::new();
    let _first = bus.subscribe();
    let _second = bus.subscribe();
    assert_eq!(bus.publish(progress(1)), Ok(3));
    drop(_first);
    assert_eq!(bus.publish(progress(2)), Ok(2));
}

#[test]
fn subscriber_receives_all_in_order() {
    let mut bus = NotificationBus::new();
    let mut subscriber = bus.subscribe();
    for n in 0..100 {
        assert!(bus.publish(progress(n)).is_ok());
    }
    for n in 0..100 {
        assert_eq!(*subscriber.try_recv().unwrap(), progress(n));
    }
    assert_eq!(subscriber.try_recv(), Err(TryRecvError::Empty));
}

#[test]
fn late_subscriber_misses_what_came_before() {
    let mut bus = NotificationBus::new();
    let mut early = bus.subscribe();
    assert!(bus.publish(progress(1)).is_ok());
    let mut late = bus.subscribe();
    assert!(bus.publish(progress(2)).is_ok());
    assert_eq!(*early.try_recv().unwrap(), progress(1));
    assert_eq!(*early.try_recv().unwrap(), progress(2));
    assert_eq!(*late.try_recv().unwrap(), progress(2));
    assert_eq!(late.try_recv(), Err(TryRecvError::Empty));
}

#[test]
fn subscribers_are_independent() {
    let mut bus = NotificationBus::new();
    let mut fast = bus.subscribe();
    let mut slow = bus.subscribe();
    assert!(bus.publish(progress(1)).is_ok());
    assert_eq!(*fast.try_recv().unwrap(), progress(1));
    assert!(bus.publish(progress(2)).is_ok());
    assert_eq!(*fast.try_recv().unwrap(), progress(2));
    assert_eq!(*slow.try_recv().unwrap(), progress(1));
    assert_eq!(*slow.try_recv().unwrap(), progress(2));
}

#[test]
fn backlog_holds_at_least_ten_thousand() {
    let mut bus = NotificationBus::new();
    let mut subscriber = bus.subscribe();
    for n in 0..10000 {
        assert!(bus.publish(progress(n)).is_ok());
    }
    for n in 0..10000 {
        assert_eq!(*subscriber.try_recv().unwrap(), progress(n));
    }
    assert_eq!(subscriber.try_recv(), Err(TryRecvError::Empty));
}

#[test]
fn overflow_shows_as_lag_and_then_resumes() {
    let mut bus = NotificationBus::new();
    let mut slow = bus.subscribe();
    let mut prompt = bus.subscribe();
    let total: i32 = 40000;
    for n in 0..total {
        assert!(reached(bus.publish(progress(n))) >= 2);
        assert_eq!(*prompt.try_recv().unwrap(), progress(n));
    }
    let skipped = match slow.try_recv() {
        Err(TryRecvError::Lagged(skipped)) => skipped,
        other => panic!("expected a lag, got {:?}", other),
    };
    assert!(skipped > 0);
    assert!(skipped <= (total as u64) - 10000);
    let mut expected = skipped as i32;
    while expected < total {
        assert_eq!(*slow.try_recv().unwrap(), progress(expected));
        expected += 1;
    }
    assert_eq!(slow.try_recv(), Err(TryRecvError::Empty));
    assert_eq!(prompt.try_recv(), Err(TryRecvError::Empty));
}
