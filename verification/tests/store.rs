use relayer::apply::{all_decodable, write_page};
use relayer::error::RelayerError;
use relayer::memory::MemoryDb;
use relayer::message::{Bytes32, ContractAddress, EthEventLog, Message};
use relayer::ports::RelayerDb;
use relayer::service::{poll_at_least_synced, poll_synced, Poll, SharedState};
use relayer::state::ConsistencyState;
use relayer::synced::{is_at_least_synced, update_synced};
use tokio::sync::watch::channel;

fn message(nonce: u128, da_height: u64, amount: u64) -> Message {
    Message {
        sender: Bytes32::new(1, 2),
        recipient: Bytes32::new(3, 4),
        nonce: Bytes32::new(0, nonce),
        amount,
        data: vec![1, 2, 3],
        da_height,
    }
}

#[test]
fn marker_is_raised_never_lowered() {
    let mut db = MemoryDb::new();
    db.set_finalized_da_height_to_at_least(100);
    assert_eq!(db.get_finalized_da_height(), 100);
    db.set_finalized_da_height_to_at_least(40);
    assert_eq!(db.get_finalized_da_height(), 100);
    db.set_finalized_da_height_to_at_least(100);
    assert_eq!(db.get_finalized_da_height(), 100);
    db.set_finalized_da_height_to_at_least(101);
    assert_eq!(db.get_finalized_da_height(), 101);
}

#[test]
fn message_is_found_under_its_nonce() {
    let mut db = MemoryDb::new();
    assert_eq!(db.get_message(&Bytes32::new(0, 7)), None);
    db.insert_message(&message(7, 150, 9));
    assert_eq!(db.get_message(&Bytes32::new(0, 7)), Some(message(7, 150, 9)));
    assert_eq!(db.get_message(&Bytes32::new(7, 0)), None);
    assert_eq!(db.get_message(&Bytes32::new(0, 8)), None);
    assert_eq!(db.len(), 1);
}

#[test]
fn stored_message_is_never_replaced() {
    let mut db = MemoryDb::new();
    db.insert_message(&message(7, 150, 9));
    db.insert_message(&message(7, 150, 9));
    assert_eq!(db.len(), 1);
    db.insert_message(&message(7, 160, 10));
    assert_eq!(db.len(), 1);
    assert_eq!(db.get_message(&Bytes32::new(0, 7)), Some(message(7, 150, 9)));
}

#[test]
fn duplicate_keeps_every_field() {
    let m = message(5, 6, 7);
    let copy = m.duplicate();
    assert_eq!(copy, m);
    assert_eq!(copy.id(), Bytes32::new(0, 5));
    let c = ContractAddress::new(1, 2);
    assert_eq!(c, ContractAddress { hi: 1, lo: 2 });
}

#[test]
fn page_is_applied_in_order() {
    let mut db = MemoryDb::new();
    let page = vec![
        EthEventLog::Message(message(1, 101, 10)),
        EthEventLog::Ignored,
        EthEventLog::Message(message(2, 102, 20)),
        EthEventLog::Message(message(1, 103, 30)),
    ];
    assert!(all_decodable(&page));
    assert_eq!(write_page(&mut db, &page), Ok(()));
    assert_eq!(db.entries, vec![message(1, 101, 10), message(2, 102, 20)]);
    assert_eq!(db.marker, None);
}

#[test]
fn applying_a_page_twice_changes_nothing() {
    let mut db = MemoryDb::new();
    db.set_finalized_da_height_to_at_least(100);
    let page = vec![
        EthEventLog::Message(message(1, 101, 10)),
        EthEventLog::Message(message(2, 102, 20)),
    ];
    assert_eq!(write_page(&mut db, &page), Ok(()));
    let once = db.clone();
    assert_eq!(write_page(&mut db, &page), Ok(()));
    assert_eq!(db.entries, once.entries);
    assert_eq!(db.marker, once.marker);
    assert_eq!(db.marker, Some(100));
}

#[test]
fn undecodable_event_leaves_the_store() {
    let mut db = MemoryDb::new();
    db.insert_message(&message(9, 90, 1));
    let page = vec![
        EthEventLog::Message(message(1, 101, 10)),
        EthEventLog::Undecodable,
        EthEventLog::Message(message(2, 102, 20)),
    ];
    assert!(!all_decodable(&page));
    assert_eq!(write_page(&mut db, &page), Err(RelayerError::Decode));
    assert_eq!(db.entries, vec![message(9, 90, 1)]);
}

#[test]
fn empty_page_is_applied() {
    let mut db = MemoryDb::new();
    let page: Vec<EthEventLog> = Vec::new();
    assert!(all_decodable(&page));
    assert_eq!(write_page(&mut db, &page), Ok(()));
    assert_eq!(db.len(), 0);
}

#[test]
fn published_height_only_rises() {
    let mut synced: Option<u64> = None;
    assert!(!update_synced(&mut synced, &ConsistencyState::Behind));
    assert_eq!(synced, None);
    assert!(update_synced(&mut synced, &ConsistencyState::ConsistentAsOf(200)));
    assert_eq!(synced, Some(200));
    assert!(!update_synced(&mut synced, &ConsistencyState::ConsistentAsOf(150)));
    assert_eq!(synced, Some(200));
    assert!(!update_synced(&mut synced, &ConsistencyState::ConsistentAsOf(200)));
    assert_eq!(synced, Some(200));
    assert!(!update_synced(&mut synced, &ConsistencyState::Behind));
    assert_eq!(synced, Some(200));
    assert!(update_synced(&mut synced, &ConsistencyState::ConsistentAsOf(201)));
    assert_eq!(synced, Some(201));
    assert!(update_synced(&mut None, &ConsistencyState::ConsistentAsOf(0)));
}

#[test]
fn reached_heights() {
    assert!(!is_at_least_synced(None, 0));
    assert!(is_at_least_synced(Some(0), 0));
    assert!(is_at_least_synced(Some(200), 200));
    assert!(is_at_least_synced(Some(200), 199));
    assert!(!is_at_least_synced(Some(200), 201));
}

#[test]
fn waits_of_the_handle() {
    let (tx, rx) = channel(None);
    let shared = SharedState { synced: rx, database: MemoryDb::new() };
    assert_eq!(shared.await_synced(), Poll::Pending);
    assert_eq!(shared.await_at_least_synced(&0), Poll::Pending);
    tx.send_replace(Some(150));
    assert_eq!(shared.await_synced(), Poll::Ready);
    assert_eq!(shared.await_at_least_synced(&150), Poll::Ready);
    assert_eq!(shared.await_at_least_synced(&151), Poll::Pending);
    tx.send_replace(Some(200));
    assert_eq!(shared.await_at_least_synced(&151), Poll::Ready);
}

#[test]
fn polls_on_a_seen_height() {
    assert_eq!(poll_synced(None), Poll::Pending);
    assert_eq!(poll_synced(Some(0)), Poll::Ready);
    assert_eq!(poll_at_least_synced(None, 0), Poll::Pending);
    assert_eq!(poll_at_least_synced(Some(9), 10), Poll::Pending);
    assert_eq!(poll_at_least_synced(Some(10), 10), Poll::Ready);
    assert_eq!(poll_at_least_synced(Some(11), 10), Poll::Ready);
}

#[test]
fn message_above_the_asked_height_is_absent() {
    let mut db = MemoryDb::new();
    db.set_finalized_da_height_to_at_least(200);
    db.insert_message(&message(7, 150, 9));
    let (_tx, rx) = channel(Some(200));
    let shared = SharedState { synced: rx, database: db };
    assert_eq!(shared.get_message(&Bytes32::new(0, 7), &200), Some(message(7, 150, 9)));
    assert_eq!(shared.get_message(&Bytes32::new(0, 7), &150), Some(message(7, 150, 9)));
    assert_eq!(shared.get_message(&Bytes32::new(0, 7), &149), None);
    assert_eq!(shared.get_message(&Bytes32::new(0, 8), &200), None);
    assert_eq!(shared.get_finalized_da_height(), 200);
}

#[test]
fn texts_of_the_errors() {
    assert_eq!(RelayerError::Stopped.describe(), "The relayer got a stop signal");
    assert_eq!(RelayerError::BlockPending.describe(), "Block pending");
    assert_eq!(
        RelayerError::MissingEthClient.describe(),
        "Tried to start Relayer without setting an eth_client in the config"
    );
    assert_eq!(RelayerError::Remote.describe(), "The remote node failed to answer");
    assert_eq!(RelayerError::Decode.describe(), "An event could not be decoded");
}
