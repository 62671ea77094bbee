use relayer::config::Config;
use relayer::error::RelayerError;
use relayer::memory::MemoryDb;
use relayer::message::{Bytes32, ContractAddress, EthEventLog, Message};
use relayer::ports::RelayerDb;
use relayer::run::{Action, Event, Phase};
use relayer::service::{
    new_service, new_service_test, NotInitializedTask, Poll, SharedState, Task,
};
use relayer::state::ConsistencyState;
use relayer::syncing::{time_left, time_since, GuardStep, SyncingGuard, SyncingStatus};

fn config(deploy: u64, page: u64) -> Config {
    Config {
        da_deploy_height: deploy,
        relayer: Some(String::from("http://localhost:8545")),
        eth_v2_listening_contracts: vec![ContractAddress::new(1, 2)],
        log_page_size: page,
        sync_minimum_duration: 50,
        syncing_call_frequency: 5,
        syncing_log_frequency: 10,
    }
}

fn message(nonce: u128, da_height: u64) -> Message {
    Message {
        sender: Bytes32::new(0, 1),
        recipient: Bytes32::new(0, 2),
        nonce: Bytes32::new(0, nonce),
        amount: 3,
        data: vec![4],
        da_height,
    }
}

fn task(deploy: u64, page: u64) -> Task<MemoryDb> {
    new_service(MemoryDb::new(), config(deploy, page)).unwrap().into_task()
}

fn service(deploy: u64, page: u64) -> (Task<MemoryDb>, SharedState<MemoryDb>) {
    let service = new_service(MemoryDb::new(), config(deploy, page)).unwrap();
    let shared = service.shared_data();
    (service.into_task(), shared)
}

fn to_height(task: &mut Task<MemoryDb>, now: u128, remote: u64) -> Action {
    assert_eq!(task.run(now, Event::Begin), Action::GetStatus);
    assert_eq!(
        task.run(now, Event::Status(SyncingStatus::NotSyncing)),
        Action::GetFinalized
    );
    task.run(now, Event::Finalized(Some(remote)))
}

#[test]
fn service_needs_a_remote_node() {
    let mut c = config(0, 5);
    c.relayer = None;
    let r = new_service(MemoryDb::new(), c.clone());
    assert!(matches!(r, Err(RelayerError::MissingEthClient)));
    let t = new_service_test(MemoryDb::new(), c);
    assert_eq!(t.synced(), None);
    assert_eq!(t.config.relayer, None);
    let ok = new_service(MemoryDb::new(), config(3, 5)).unwrap();
    assert_eq!(ok.synced(), None);
    assert_eq!(ok.config.da_deploy_height, 3);
    assert_eq!(ok.database.marker, None);
}

#[test]
fn deploy_height_is_the_floor() {
    let (t, mut shared) = service(100, 20);
    assert_eq!(t.observed(), Some(100));
    assert_eq!(t.synced(), None);
    assert_eq!(t.phase, Phase::Idle);
    shared.database = t.database.clone();
    assert_eq!(shared.await_synced(), Poll::Pending);
    assert_eq!(shared.get_finalized_da_height(), 100);
}

#[test]
fn deploy_height_does_not_lower_the_marker() {
    let mut db = MemoryDb::new();
    db.set_finalized_da_height_to_at_least(250);
    let t = NotInitializedTask::new(db, config(100, 20)).into_task();
    assert_eq!(t.observed(), Some(250));
    let mut t = t;
    t.set_deploy_height();
    assert_eq!(t.observed(), Some(250));
}

#[test]
fn shared_data_sees_the_store() {
    let mut db = MemoryDb::new();
    db.insert_message(&message(1, 10));
    let t = NotInitializedTask::new(db, config(0, 5));
    let shared = t.shared_data();
    assert_eq!(shared.await_synced(), Poll::Pending);
    assert_eq!(shared.get_message(&Bytes32::new(0, 1), &10), Some(message(1, 10)));
}

#[test]
fn stable_remote_height_is_published() {
    let (mut t, mut shared) = service(100, 60);
    assert_eq!(
        to_height(&mut t, 0, 200),
        Action::GetLogs { oldest: 101, latest: 160 }
    );
    assert_eq!(t.contracts(), &vec![ContractAddress::new(1, 2)]);
    assert_eq!(
        t.run(1, Event::Logs(vec![EthEventLog::Message(message(7, 150))])),
        Action::GetLogs { oldest: 161, latest: 200 }
    );
    assert_eq!(t.observed(), Some(100));
    assert_eq!(t.run(2, Event::Logs(vec![EthEventLog::Ignored])), Action::Done(Ok(true)));
    assert_eq!(t.observed(), Some(200));
    assert_eq!(t.synced(), None);
    assert_eq!(t.phase, Phase::Idle);
    assert_eq!(shared.await_synced(), Poll::Pending);

    assert_eq!(to_height(&mut t, 10, 200), Action::Sleep { delay: 50 });
    assert_eq!(t.synced(), Some(200));
    assert_eq!(t.run(60, Event::Woke), Action::Done(Ok(true)));

    shared.database = t.database.clone();
    assert_eq!(shared.await_synced(), Poll::Ready);
    assert_eq!(shared.await_at_least_synced(&200), Poll::Ready);
    assert_eq!(shared.await_at_least_synced(&201), Poll::Pending);
    assert_eq!(shared.get_finalized_da_height(), 200);
    assert_eq!(shared.get_message(&Bytes32::new(0, 7), &200), Some(message(7, 150)));
}

#[test]
fn syncing_node_is_polled_and_logged() {
    let mut t = task(100, 20);
    assert_eq!(t.run(0, Event::Begin), Action::GetStatus);
    assert_eq!(
        t.run(2, Event::Status(SyncingStatus::Syncing)),
        Action::Pause { delay: 3, log: false }
    );
    assert_eq!(t.run(5, Event::Woke), Action::GetStatus);
    assert_eq!(
        t.run(11, Event::Status(SyncingStatus::Syncing)),
        Action::Pause { delay: 0, log: true }
    );
    assert_eq!(t.run(11, Event::Woke), Action::GetStatus);
    assert_eq!(
        t.run(12, Event::Status(SyncingStatus::Syncing)),
        Action::Pause { delay: 4, log: false }
    );
    assert_eq!(t.run(16, Event::Woke), Action::GetStatus);
    assert_eq!(
        t.run(17, Event::Status(SyncingStatus::NotSyncing)),
        Action::GetFinalized
    );
    assert_eq!(t.phase, Phase::AwaitingHeight { started: 0 });
}

#[test]
fn stop_during_a_poll_ends_the_wait() {
    let mut t = task(100, 20);
    assert_eq!(t.run(0, Event::Begin), Action::GetStatus);
    assert_eq!(
        t.run(1, Event::Status(SyncingStatus::Syncing)),
        Action::Pause { delay: 4, log: false }
    );
    assert_eq!(t.run(5, Event::Woke), Action::GetStatus);
    assert_eq!(t.run(6, Event::Stop), Action::Done(Err(RelayerError::Stopped)));
    assert_eq!(t.phase, Phase::Idle);
    assert_eq!(t.observed(), Some(100));
    assert_eq!(t.synced(), None);
}

#[test]
fn stop_during_a_pause_ends_the_wait() {
    let mut t = task(100, 20);
    assert_eq!(t.run(0, Event::Begin), Action::GetStatus);
    assert_eq!(
        t.run(1, Event::Status(SyncingStatus::Syncing)),
        Action::Pause { delay: 4, log: false }
    );
    assert_eq!(t.run(2, Event::Stop), Action::Done(Err(RelayerError::Stopped)));
    assert_eq!(t.phase, Phase::Idle);
}

#[test]
fn failed_page_leaves_the_marker() {
    let mut t = task(100, 20);
    assert_eq!(
        to_height(&mut t, 0, 150),
        Action::GetLogs { oldest: 101, latest: 120 }
    );
    assert_eq!(
        t.run(1, Event::Logs(vec![EthEventLog::Message(message(1, 110))])),
        Action::GetLogs { oldest: 121, latest: 140 }
    );
    assert_eq!(t.run(8, Event::Failed), Action::Sleep { delay: 42 });
    assert_eq!(t.observed(), Some(100));
    assert_eq!(t.synced(), None);
    assert_eq!(t.run(50, Event::Woke), Action::Done(Err(RelayerError::Remote)));

    assert_eq!(
        to_height(&mut t, 60, 150),
        Action::GetLogs { oldest: 101, latest: 120 }
    );
    assert_eq!(
        t.run(61, Event::Logs(vec![EthEventLog::Message(message(1, 110))])),
        Action::GetLogs { oldest: 121, latest: 140 }
    );
    assert_eq!(t.database.len(), 1);
    assert_eq!(
        t.run(62, Event::Logs(Vec::new())),
        Action::GetLogs { oldest: 141, latest: 150 }
    );
    assert_eq!(t.run(63, Event::Logs(Vec::new())), Action::Done(Ok(true)));
    assert_eq!(t.observed(), Some(150));
}

#[test]
fn undecodable_page_fails_the_iteration() {
    let mut t = task(100, 20);
    assert_eq!(
        to_height(&mut t, 0, 150),
        Action::GetLogs { oldest: 101, latest: 120 }
    );
    let page = vec![EthEventLog::Message(message(1, 110)), EthEventLog::Undecodable];
    assert_eq!(t.run(60, Event::Logs(page)), Action::Sleep { delay: 0 });
    assert_eq!(t.database.len(), 0);
    assert_eq!(t.observed(), Some(100));
    assert_eq!(t.phase, Phase::Sleeping { failure: Some(RelayerError::Decode) });
    assert_eq!(t.run(61, Event::Stop), Action::Done(Err(RelayerError::Decode)));
}

#[test]
fn stop_between_pages_keeps_what_was_applied() {
    let mut t = task(100, 20);
    assert_eq!(
        to_height(&mut t, 0, 150),
        Action::GetLogs { oldest: 101, latest: 120 }
    );
    assert_eq!(
        t.run(1, Event::Logs(vec![EthEventLog::Message(message(1, 110))])),
        Action::GetLogs { oldest: 121, latest: 140 }
    );
    assert_eq!(t.run(2, Event::Stop), Action::Done(Ok(true)));
    assert_eq!(t.observed(), Some(120));
    assert_eq!(t.database.len(), 1);
    assert_eq!(t.synced(), None);
}

#[test]
fn stop_before_the_first_page_changes_nothing() {
    let mut t = task(100, 20);
    assert_eq!(
        to_height(&mut t, 0, 150),
        Action::GetLogs { oldest: 101, latest: 120 }
    );
    assert_eq!(t.run(2, Event::Stop), Action::Done(Ok(true)));
    assert_eq!(t.observed(), Some(100));
}

#[test]
fn remote_failures_back_off() {
    let mut t = task(100, 20);
    assert_eq!(t.run(100, Event::Begin), Action::GetStatus);
    assert_eq!(t.run(130, Event::Failed), Action::Sleep { delay: 20 });
    assert_eq!(t.run(150, Event::Woke), Action::Done(Err(RelayerError::Remote)));

    assert_eq!(t.run(200, Event::Begin), Action::GetStatus);
    assert_eq!(
        t.run(201, Event::Status(SyncingStatus::NotSyncing)),
        Action::GetFinalized
    );
    assert_eq!(t.run(300, Event::Failed), Action::Sleep { delay: 0 });
    assert_eq!(t.run(300, Event::Woke), Action::Done(Err(RelayerError::Remote)));

    assert_eq!(t.run(400, Event::Begin), Action::GetStatus);
    assert_eq!(
        t.run(401, Event::Status(SyncingStatus::NotSyncing)),
        Action::GetFinalized
    );
    assert_eq!(t.run(410, Event::Finalized(None)), Action::Sleep { delay: 40 });
    assert_eq!(t.run(450, Event::Woke), Action::Done(Err(RelayerError::BlockPending)));

    assert_eq!(t.run(500, Event::Begin), Action::GetStatus);
    assert_eq!(
        t.run(501, Event::Status(SyncingStatus::NotSyncing)),
        Action::GetFinalized
    );
    assert_eq!(t.run(502, Event::Stop), Action::Done(Err(RelayerError::Stopped)));
}

#[test]
fn clock_that_runs_backwards_counts_as_no_time() {
    let mut t = task(100, 20);
    assert_eq!(t.run(100, Event::Begin), Action::GetStatus);
    assert_eq!(t.run(90, Event::Failed), Action::Sleep { delay: 50 });
    assert_eq!(time_since(100, 90), 0);
    assert_eq!(time_since(90, 100), 10);
    assert_eq!(time_left(50, 10), 40);
    assert_eq!(time_left(50, 60), 0);
}

#[test]
fn unexpected_events_are_ignored() {
    let mut t = task(100, 20);
    assert_eq!(t.run(0, Event::Woke), Action::Ignored);
    assert_eq!(t.run(0, Event::Stop), Action::Ignored);
    assert_eq!(t.run(0, Event::Finalized(Some(500))), Action::Ignored);
    assert_eq!(t.phase, Phase::Idle);
    assert_eq!(t.run(0, Event::Begin), Action::GetStatus);
    assert_eq!(t.run(0, Event::Begin), Action::Ignored);
    assert_eq!(t.run(0, Event::Logs(Vec::new())), Action::Ignored);
    assert_eq!(
        t.phase,
        Phase::AwaitingStatus { started: 0, guard: SyncingGuard { logged_at: 0, polled_at: 0 } }
    );
    assert_eq!(to_height_from_status(&mut t), Action::Sleep { delay: 50 });
    assert_eq!(t.run(1, Event::Begin), Action::Ignored);
    assert_eq!(t.run(1, Event::Failed), Action::Ignored);
    assert_eq!(t.phase, Phase::Sleeping { failure: None });
    assert_eq!(t.observed(), Some(100));
}

fn to_height_from_status(task: &mut Task<MemoryDb>) -> Action {
    assert_eq!(
        task.run(0, Event::Status(SyncingStatus::NotSyncing)),
        Action::GetFinalized
    );
    assert_eq!(task.run(0, Event::Status(SyncingStatus::NotSyncing)), Action::Ignored);
    task.run(0, Event::Finalized(Some(100)))
}

#[test]
fn heights_never_decrease() {
    let mut t = task(100, 1000);
    let remotes: Vec<u64> = vec![150, 120, 200, 200, 90, 300];
    let mut marker: u64 = 100;
    let mut synced: Option<u64> = None;
    let mut highest: u64 = 100;
    for (i, remote) in remotes.iter().enumerate() {
        if *remote > highest {
            highest = *remote;
        }
        let now = (i as u128) * 1000;
        match to_height(&mut t, now, *remote) {
            Action::GetLogs { oldest, latest } => {
                assert_eq!((oldest, latest), (marker + 1, *remote));
                assert_eq!(t.run(now, Event::Logs(Vec::new())), Action::Done(Ok(true)));
            }
            Action::Sleep { delay } => {
                assert_eq!(delay, 50);
                assert_eq!(t.run(now + 50, Event::Woke), Action::Done(Ok(true)));
            }
            other => panic!("{:?}", other),
        }
        let m = t.observed().unwrap();
        assert!(m >= marker && m <= highest);
        marker = m;
        match (synced, t.synced()) {
            (Some(before), Some(after)) => assert!(after >= before && after <= highest),
            (Some(_), None) => panic!("published height was cleared"),
            _ => {}
        }
        synced = t.synced();
    }
    assert_eq!(marker, 300);
    assert_eq!(synced, Some(200));
}

#[test]
fn guard_steps() {
    let mut g = SyncingGuard::start(100);
    assert_eq!(g, SyncingGuard { logged_at: 100, polled_at: 100 });
    assert_eq!(g.observe(SyncingStatus::NotSyncing, 500, 5, 10), GuardStep::Ready);
    assert_eq!(g, SyncingGuard { logged_at: 100, polled_at: 100 });
    assert_eq!(
        g.observe(SyncingStatus::Syncing, 110, 5, 10),
        GuardStep::Wait { delay: 0, log: false }
    );
    assert_eq!(
        g.observe(SyncingStatus::Syncing, 111, 20, 10),
        GuardStep::Wait { delay: 9, log: true }
    );
    assert_eq!(g, SyncingGuard { logged_at: 111, polled_at: 100 });
    let g = g.polling(120);
    assert_eq!(g, SyncingGuard { logged_at: 111, polled_at: 120 });
}

#[test]
fn task_publishes_and_shuts_down() {
    let mut t = task(100, 20);
    assert!(!t.update_synced(&ConsistencyState::Behind));
    assert!(t.update_synced(&ConsistencyState::ConsistentAsOf(100)));
    assert_eq!(t.synced(), Some(100));
    assert!(!t.update_synced(&ConsistencyState::ConsistentAsOf(50)));
    assert_eq!(t.synced(), Some(100));
    assert_eq!(t.shutdown(), Ok(()));
}
