use relayer::config::Config;
use relayer::get_logs::page_bounds;
use relayer::log::Log;
use relayer::run::{Action, CycleState, Event, GatePoll};
use relayer::service::{new_service, new_service_test, remaining_delay, ConfigError, Task};
use relayer::state::EthSyncGap;
use relayer::storage::Database;
use relayer::synced::{at_least_synced, synced_reached};

fn config() -> Config {
    Config {
        eth_client: Some(String::from("http://localhost:8545")),
        eth_v2_listening_contracts: vec![0xbeef],
        da_deploy_height: 100,
        da_finalization: 10,
        log_page_size: 5,
        syncing_call_frequency: 100,
        syncing_log_frequency: 300,
        sync_minimum_duration: 1000,
    }
}

fn ready_task() -> Task {
    new_service_test(Database::empty(), config()).into_task()
}

fn log_for(id: u64, block_height: u64) -> Log {
    Log { address: 0xbeef, block_height, data: id.to_le_bytes().to_vec() }
}

#[test]
fn service_needs_a_remote_endpoint() {
    let mut c = config();
    c.eth_client = None;
    let r = new_service(Database::empty(), c);
    assert!(matches!(r, Err(ConfigError::MissingEthClient)));
    let ok = new_service(Database::empty(), config());
    assert!(ok.is_ok());
}

#[test]
fn startup_floor_sets_the_watermark() {
    let task = ready_task();
    let shared = task.shared_data();
    assert_eq!(shared.get_finalized_da_height(), Ok(100));
    // Idempotent: running startup against an already-higher watermark keeps it.
    let mut db = Database::empty();
    db.set_finalized_da_height_to_at_least(250);
    let task = new_service_test(db, config()).into_task();
    assert_eq!(task.shared_data().get_finalized_da_height(), Ok(250));
}

#[test]
fn gate_blocks_while_remote_is_syncing() {
    // Three syncing polls in a row: the machine only re-polls, and neither
    // computes a gap nor fetches anything, until the remote reports synced.
    let mut task = ready_task();
    for poll in 0..3 {
        let action = task.step(Event::Gate(GatePoll::Syncing));
        // Progress logs come at the coarser frequency: 300 ms of 100 ms
        // polls means only the third poll emits one.
        let expect_log = poll == 2;
        assert_eq!(
            action,
            Action::PollGate { delay: 100, emit_progress_log: expect_log }
        );
        assert_eq!(task.state, CycleState::WaitingForGate);
    }
    assert_eq!(task.shared_data().get_finalized_da_height(), Ok(100));
    assert_eq!(task.synced.latest(), None);
    let action = task.step(Event::Gate(GatePoll::Synced));
    assert_eq!(action, Action::SampleRemote);
    assert_eq!(task.state, CycleState::WaitingForRemote);
}

#[test]
fn gate_retries_on_transient_status_errors() {
    let mut task = ready_task();
    let action = task.step(Event::Gate(GatePoll::Unavailable));
    assert_eq!(action, Action::PollGate { delay: 100, emit_progress_log: false });
    assert_eq!(task.state, CycleState::WaitingForGate);
}

#[test]
fn normal_advance_commits_and_notifies() {
    let mut task = ready_task();
    assert_eq!(task.step(Event::Gate(GatePoll::Synced)), Action::SampleRemote);
    // watermark 100, remote current 120, finalization period 10: gap [101, 110].
    let action = task.step(Event::Remote(Some(120)));
    assert_eq!(action, Action::FetchLogs { start: 101, end: 110, page_size: 5 });
    let logs = vec![log_for(1, 105), log_for(2, 110)];
    let action = task.step(Event::Logs(Some(logs)));
    assert_eq!(action, Action::EndCycle { ok: true });
    // The watermark advanced to the gap end, the events are visible, and the
    // synced height was published only after the commit.
    let shared = task.shared_data();
    assert_eq!(shared.get_finalized_da_height(), Ok(110));
    assert_eq!(shared.synced, Some(110));
    assert_eq!(shared.get_message(1, 110).unwrap().da_height, 105);
    assert_eq!(shared.get_message(2, 110).unwrap().da_height, 110);
    // A reader pinned below the committed range sees none of it.
    assert!(shared.get_message(1, 100).is_none());
}

#[test]
fn empty_gap_completes_without_fetching() {
    let mut task = ready_task();
    task.step(Event::Gate(GatePoll::Synced));
    // watermark 100, remote current 105, finalization period 10: finalized
    // remote 95 < 101, so there is nothing to do and no fetch is issued.
    let action = task.step(Event::Remote(Some(105)));
    assert_eq!(action, Action::EndCycle { ok: true });
    assert_eq!(task.shared_data().get_finalized_da_height(), Ok(100));
    assert_eq!(task.synced.latest(), Some(100));
}

#[test]
fn remote_sample_error_fails_the_cycle() {
    let mut task = ready_task();
    task.step(Event::Gate(GatePoll::Synced));
    let action = task.step(Event::Remote(None));
    assert_eq!(action, Action::EndCycle { ok: false });
    assert_eq!(task.shared_data().get_finalized_da_height(), Ok(100));
    assert_eq!(task.synced.latest(), None);
}

#[test]
fn failed_download_retries_the_same_gap_next_cycle() {
    let mut task = ready_task();
    task.step(Event::Gate(GatePoll::Synced));
    let first = task.step(Event::Remote(Some(120)));
    // The download fails: nothing is committed, nothing published.
    let action = task.step(Event::Logs(None));
    assert_eq!(action, Action::EndCycle { ok: false });
    assert_eq!(task.shared_data().get_finalized_da_height(), Ok(100));
    assert_eq!(task.synced.latest(), None);
    // The retry derives the identical gap from the unchanged watermark and
    // committing it produces the state the failure postponed.
    task.begin_cycle();
    task.step(Event::Gate(GatePoll::Synced));
    let second = task.step(Event::Remote(Some(120)));
    assert_eq!(second, first);
    task.step(Event::Logs(Some(vec![log_for(1, 105)])));
    let shared = task.shared_data();
    assert_eq!(shared.get_finalized_da_height(), Ok(110));
    assert_eq!(shared.synced, Some(110));
}

#[test]
fn malformed_log_aborts_the_batch() {
    let mut task = ready_task();
    task.step(Event::Gate(GatePoll::Synced));
    task.step(Event::Remote(Some(120)));
    // The second log is too short to decode: the whole batch is dropped.
    let bad = Log { address: 0xbeef, block_height: 106, data: vec![1, 2] };
    let action = task.step(Event::Logs(Some(vec![log_for(1, 105), bad])));
    assert_eq!(action, Action::EndCycle { ok: false });
    let shared = task.shared_data();
    assert_eq!(shared.get_finalized_da_height(), Ok(100));
    assert_eq!(shared.synced, None);
    assert!(shared.get_message(1, u64::MAX).is_none());
}

#[test]
fn synced_heights_never_regress_across_cycles() {
    let mut task = ready_task();
    let mut observed: Vec<u64> = Vec::new();
    for current in [120u64, 105, 130, 110] {
        task.step(Event::Gate(GatePoll::Synced));
        match task.step(Event::Remote(Some(current))) {
            Action::FetchLogs { start, end, .. } => {
                task.step(Event::Logs(Some(vec![log_for(start, end)])));
            }
            Action::EndCycle { .. } => {}
            other => panic!("unexpected action {:?}", other),
        }
        observed.push(task.synced.latest().unwrap());
        task.begin_cycle();
    }
    assert_eq!(observed, vec![110, 110, 120, 120]);
    for pair in observed.windows(2) {
        assert!(pair[0] <= pair[1]);
    }
}

#[test]
fn pages_cover_the_gap_in_bounded_ascending_ranges() {
    let gap = EthSyncGap { start: 101, end: 110 };
    assert_eq!(
        page_bounds(&gap, 5),
        vec![EthSyncGap { start: 101, end: 105 }, EthSyncGap { start: 106, end: 110 }]
    );
    assert_eq!(
        page_bounds(&gap, 4),
        vec![
            EthSyncGap { start: 101, end: 104 },
            EthSyncGap { start: 105, end: 108 },
            EthSyncGap { start: 109, end: 110 },
        ]
    );
    assert_eq!(page_bounds(&gap, 1000), vec![EthSyncGap { start: 101, end: 110 }]);
    assert_eq!(page_bounds(&gap, 1).len(), 10);
    let single = EthSyncGap { start: 101, end: 101 };
    assert_eq!(page_bounds(&single, 5), vec![single]);
}

#[test]
fn every_poll_emits_when_frequencies_coincide() {
    // With the log frequency no coarser than the poll frequency, each poll
    // while the remote syncs carries a progress indication.
    let mut c = config();
    c.syncing_log_frequency = 100;
    let mut task = new_service_test(Database::empty(), c).into_task();
    for _ in 0..2 {
        let action = task.step(Event::Gate(GatePoll::Syncing));
        assert_eq!(action, Action::PollGate { delay: 100, emit_progress_log: true });
    }
}

#[test]
fn rate_floor_sleep_tops_up_fast_cycles_only() {
    // minimum 1000 ms: a 250 ms cycle sleeps 750 ms, a slow cycle none.
    assert_eq!(remaining_delay(1000, 250), 750);
    assert_eq!(remaining_delay(1000, 1000), 0);
    assert_eq!(remaining_delay(1000, 5000), 0);
    let start: u64 = 40_000;
    for elapsed in [0u64, 250, 999, 1000, 5000] {
        let next_start = start + elapsed + remaining_delay(1000, elapsed);
        assert!(next_start >= start + 1000);
    }
}

#[test]
fn waiters_resolve_exactly_at_their_threshold() {
    // A waiter on 110 stays suspended while the watermark is 100.
    assert!(!at_least_synced(&None, 110));
    assert!(!at_least_synced(&Some(100), 110));
    assert!(at_least_synced(&Some(110), 110));
    assert!(at_least_synced(&Some(111), 110));
    assert!(!synced_reached(&None));
    assert!(synced_reached(&Some(100)));
}

#[test]
fn waiter_on_threshold_resolves_after_the_commit() {
    let mut task = ready_task();
    // Waiter target 110 while the watermark is 100: unresolved before any
    // cycle, still unresolved after an empty-gap cycle at height 100.
    assert!(!at_least_synced(&task.synced.latest(), 110));
    task.step(Event::Gate(GatePoll::Synced));
    task.step(Event::Remote(Some(105)));
    assert!(!at_least_synced(&task.synced.latest(), 110));
    // Only a cycle that commits watermark >= 110 resolves it.
    task.begin_cycle();
    task.step(Event::Gate(GatePoll::Synced));
    task.step(Event::Remote(Some(120)));
    task.step(Event::Logs(Some(vec![log_for(1, 110)])));
    assert!(at_least_synced(&task.synced.latest(), 110));
}
