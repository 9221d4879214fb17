use deathfr::executor::CallError;
use deathfr::poller::Phase;
use deathfr::poller::PollDirective;
use deathfr::poller::Poller;
use deathfr::poller::RecordStore;
use deathfr::poller::WakeSignal;
use deathfr::poller::duplicate_conflicts_only;
use deathfr::poller::request_update;
use deathfr::structures::ReviveEntry;
use deathfr::structures::TargetLastAction;

fn entry(id: &str, timestamp: u64) -> ReviveEntry {
    ReviveEntry {
        id: id.to_string(),
        timestamp,
        result: "success".to_string(),
        chance: "50".to_string(),
        reviver_id: 1,
        reviver_faction: 2,
        target_id: 3,
        target_faction: 4,
        target_hospital_reason: "".to_string(),
        target_early_discharge: false,
        target_last_action: TargetLastAction { status: "Okay".to_string(), timestamp: 0 },
    }
}

#[test]
fn cursor_advances_to_the_batch_maximum_not_the_last_element() {
    let mut poller = Poller::new(1000, 123);
    assert_eq!(poller.begin_cycle(), PollDirective::Fetch { from: 1000 });
    let batch = (vec![entry("a", 1010), entry("b", 1020), entry("c", 1005)], 123u64);
    assert_eq!(poller.on_fetch(Ok(&batch)), PollDirective::Ingest);
    assert_eq!(poller.on_ingest(true), PollDirective::PersistCursor { value: 1020 });
    assert_eq!(poller.on_persist(true), PollDirective::PersistHeartbeat);
    assert_eq!(poller.cursor(), 1020);
}

#[test]
fn cursor_never_moves_backwards() {
    let mut poller = Poller::new(2000, 123);
    let _ = poller.begin_cycle();
    // A batch whose every timestamp sits below the cursor cannot rewind it.
    let batch = (vec![entry("a", 1500)], 123u64);
    let _ = poller.on_fetch(Ok(&batch));
    assert_eq!(poller.on_ingest(true), PollDirective::PersistCursor { value: 2000 });
    let _ = poller.on_persist(true);
    assert_eq!(poller.cursor(), 2000);
}

#[test]
fn partition_mismatch_discards_the_batch() {
    let mut poller = Poller::new(1000, 123);
    let _ = poller.begin_cycle();
    let batch = (vec![entry("a", 1010)], 999u64);
    // No ingestion directive, no cursor movement: the cycle is skipped.
    assert_eq!(
        poller.on_fetch(Ok(&batch)),
        PollDirective::SleepTick { seconds: 60 }
    );
    assert_eq!(poller.phase(), Phase::Waiting);
    assert_eq!(poller.cursor(), 1000);
}

#[test]
fn failed_fetch_skips_the_cycle() {
    let mut poller = Poller::new(1000, 123);
    let _ = poller.begin_cycle();
    assert_eq!(poller.on_fetch(Err(CallError::Transport)), PollDirective::SleepTick { seconds: 60 });
    assert_eq!(poller.cursor(), 1000);
}

#[test]
fn pool_exhaustion_during_fetch_aborts_the_loop() {
    let mut poller = Poller::new(1000, 123);
    let _ = poller.begin_cycle();
    // Fatal key exhaustion, alone among fetch failures, terminates the
    // loop instead of skipping the cycle.
    assert_eq!(poller.on_fetch(Err(CallError::Exhausted)), PollDirective::Halt);
    assert_eq!(poller.phase(), Phase::Aborted);
    assert_eq!(poller.cursor(), 1000);
}

#[test]
fn resume_requires_a_seeded_cursor() {
    assert!(Poller::resume(None, 123).is_none());
    let poller = Poller::resume(Some(1000), 123).expect("a seeded cursor resumes");
    assert_eq!(poller.cursor(), 1000);
    assert_eq!(poller.phase(), Phase::Fetching);
}

#[test]
fn ingest_failure_aborts_the_loop() {
    let mut poller = Poller::new(1000, 123);
    let _ = poller.begin_cycle();
    let batch = (vec![entry("a", 1010)], 123u64);
    let _ = poller.on_fetch(Ok(&batch));
    assert_eq!(poller.on_ingest(false), PollDirective::Halt);
    assert_eq!(poller.phase(), Phase::Aborted);
    assert_eq!(poller.cursor(), 1000);
}

#[test]
fn cursor_persist_failure_aborts_the_loop() {
    let mut poller = Poller::new(1000, 123);
    let _ = poller.begin_cycle();
    let batch = (vec![entry("a", 1010)], 123u64);
    let _ = poller.on_fetch(Ok(&batch));
    let _ = poller.on_ingest(true);
    assert_eq!(poller.on_persist(false), PollDirective::Halt);
    assert_eq!(poller.phase(), Phase::Aborted);
    // The in-memory cursor still shows only what was durably persisted.
    assert_eq!(poller.cursor(), 1000);
}

#[test]
fn wake_request_starts_the_next_cycle_within_one_tick() {
    let mut poller = Poller::new(1000, 123);
    let _ = poller.begin_cycle();
    let _ = poller.on_fetch(Err(CallError::Transport));
    let mut signal = WakeSignal::new();
    // A quiet tick sleeps on.
    assert_eq!(
        poller.wait_tick(signal.take_and_clear()),
        PollDirective::SleepTick { seconds: 60 }
    );
    // A wake request is observed by the very next tick.
    request_update(&mut signal);
    assert_eq!(
        poller.wait_tick(signal.take_and_clear()),
        PollDirective::Fetch { from: 1000 }
    );
    assert_eq!(poller.phase(), Phase::Fetching);
    // The signal was cleared by being taken.
    assert!(!signal.take_and_clear());
}

#[test]
fn waiting_ends_after_the_bounded_maximum() {
    let mut poller = Poller::new(1000, 123);
    let _ = poller.begin_cycle();
    let _ = poller.on_fetch(Err(CallError::Transport));
    let mut ticks = 0u64;
    loop {
        match poller.wait_tick(false) {
            PollDirective::SleepTick { seconds } => {
                assert_eq!(seconds, 60);
                ticks += 1;
                assert!(ticks <= 60, "the wait must be bounded");
            },
            PollDirective::Fetch { from } => {
                assert_eq!(from, 1000);
                break;
            },
            _ => panic!("unexpected directive while waiting"),
        }
    }
    assert_eq!(ticks, 60);
}

#[test]
fn reingesting_a_stored_batch_changes_nothing() {
    let mut store = RecordStore::new();
    let batch = vec![entry("a", 1010), entry("b", 1020), entry("c", 1005)];
    store.insert_many(&batch);
    assert_eq!(store.count(), 3);
    // A crash before cursor persistence replays the same batch: the visible
    // record count is unchanged and nothing fails.
    store.insert_many(&batch);
    assert_eq!(store.count(), 3);
}

#[test]
fn overlapping_batches_store_each_identity_once() {
    let mut store = RecordStore::new();
    store.insert_many(&vec![entry("a", 1010), entry("b", 1020)]);
    store.insert_many(&vec![entry("b", 1020), entry("c", 1030)]);
    assert_eq!(store.count(), 3);
}

#[test]
fn duplicate_conflict_codes_are_tolerated() {
    assert!(duplicate_conflicts_only(&vec![11000, 11000, 11000]));
    assert!(duplicate_conflicts_only(&vec![]));
    assert!(!duplicate_conflicts_only(&vec![11000, 121]));
}
