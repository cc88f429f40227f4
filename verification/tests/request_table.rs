use tokio::sync::oneshot;
use ton_connection::table::{InvokeResult, RequestData, RequestTable};
use ton_connection::types::{SyncState, TonResult, UpdateSyncState};

fn request(method: &'static str, send_time: u64) -> (RequestData, oneshot::Receiver<InvokeResult>) {
    let (sender, receiver) = oneshot::channel();
    (RequestData { method, send_time, sender }, receiver)
}

fn done() -> TonResult {
    TonResult::UpdateSyncState(UpdateSyncState { sync_state: SyncState::Done })
}

#[test]
fn new_table_holds_nothing() {
    let mut table = RequestTable::new();
    assert!(table.remove(0).is_none());
    assert!(table.remove(17).is_none());
}

#[test]
fn insert_then_remove_gives_the_entry_back() {
    let mut table = RequestTable::new();
    let (data, mut receiver) = request("Init", 11);
    assert!(table.insert(3, data).is_none());
    let found = table.remove(3).unwrap();
    assert_eq!(found.method, "Init");
    assert_eq!(found.send_time, 11);
    found.sender.send(Ok(done())).unwrap();
    assert_eq!(receiver.try_recv(), Ok(Ok(done())));
}

#[test]
fn remove_is_safe_to_repeat() {
    let mut table = RequestTable::new();
    let (data, _receiver) = request("Init", 1);
    table.insert(5, data);
    assert!(table.remove(5).is_some());
    assert!(table.remove(5).is_none());
    assert!(table.remove(5).is_none());
}

#[test]
fn remove_leaves_other_entries_alone() {
    let mut table = RequestTable::new();
    let (first, _first_receiver) = request("Init", 1);
    let (second, _second_receiver) = request("SmcRunGetMethod", 2);
    table.insert(0, first);
    table.insert(1, second);
    assert!(table.remove(7).is_none());
    let found = table.remove(1).unwrap();
    assert_eq!(found.method, "SmcRunGetMethod");
    assert_eq!(found.send_time, 2);
    let found = table.remove(0).unwrap();
    assert_eq!(found.method, "Init");
    assert_eq!(found.send_time, 1);
}

#[test]
fn insert_over_an_entry_returns_the_old_one() {
    let mut table = RequestTable::new();
    let (old, mut old_receiver) = request("Init", 1);
    let (new, _new_receiver) = request("SmcRunGetMethod", 9);
    assert!(table.insert(4, old).is_none());
    let previous = table.insert(4, new).unwrap();
    assert_eq!(previous.method, "Init");
    assert_eq!(previous.send_time, 1);
    drop(previous);
    assert_eq!(old_receiver.try_recv(), Err(oneshot::error::TryRecvError::Closed));
    let found = table.remove(4).unwrap();
    assert_eq!(found.method, "SmcRunGetMethod");
    assert_eq!(found.send_time, 9);
}

#[test]
fn dropping_the_table_closes_every_channel() {
    let mut table = RequestTable::new();
    let (data, receiver) = request("Init", 1);
    table.insert(0, data);
    drop(table);
    assert!(receiver.blocking_recv().is_err());
}
