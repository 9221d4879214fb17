//! The crash-resumable incremental polling cycle.
//!
//! The poller keeps a local store synchronized with a remote,
//! timestamp-ordered event feed.  Each cycle fetches every event newer than
//! a persisted cursor, validates that the batch belongs to the configured
//! partition, hands it to an idempotent bulk-ingestion sink, persists the
//! advanced cursor and a heartbeat, and then waits — in bounded ticks, and
//! cut short by an out-of-band wake request.
//!
//! Fetching, ingesting and persisting are outside work; the decisions
//! between them live here, as a state machine the surrounding application
//! drives: every transition is a verified step function, and durable state
//! is only ever advanced after a successful ingestion.  Ordinary fetch
//! failures skip a cycle; the executor's fatal key-exhaustion, and any
//! persistence failure, abort the loop for an operator restart.

use vstd::prelude::*;

use crate::executor::CallError;
use crate::structures::ReviveEntry;
use crate::structures::ReviveEntryModel;

verus! {

/// Length of one waiting-phase sleep increment, in seconds.
pub const TICK_SECONDS: u64 = 60;

/// Number of sleep increments after which a cycle starts regardless of wake
/// requests.
pub const MAX_WAIT_TICKS: u64 = 60;

/// Error code with which the ingestion sink reports a duplicate-identity
/// conflict, which at-least-once feed semantics expect on overlap.
pub const DUPLICATE_KEY_CODE: i32 = 11000;

/// Out-of-band request to start the next polling cycle early.  Producers
/// set it; the poller reads and clears it once per waiting tick.
pub struct WakeSignal {
    requested: bool,
}

impl WakeSignal {
    pub closed spec fn spec_requested(&self) -> bool {
        self.requested
    }

    pub fn new() -> (r: WakeSignal)
        ensures
            !r.spec_requested(),
    {
        WakeSignal { requested: false }
    }

    /// Reads and clears the signal in one step.
    pub fn take_and_clear(&mut self) -> (r: bool)
        ensures
            r == old(self).spec_requested(),
            !final(self).spec_requested(),
    {
        let r = self.requested;
        self.requested = false;
        r
    }
}

/// Requests that the next polling cycle start early.  Idempotent: a second
/// request before the signal is read changes nothing further.
pub fn request_update(signal: &mut WakeSignal)
    ensures
        final(signal).spec_requested(),
{
    signal.requested = true;
}

/// The views of a fetched batch.
pub open spec fn batch_views(batch: Seq<ReviveEntry>) -> Seq<ReviveEntryModel> {
    batch.map(|i: int, e: ReviveEntry| e@)
}

/// The largest timestamp observed in a batch; 0 for an empty batch.  The
/// feed's order is not guaranteed, so the maximum — not the last element —
/// is what the cursor may advance to.
pub open spec fn max_timestamp(s: Seq<ReviveEntryModel>) -> u64
    decreases s.len(),
{
    if s.len() == 0 {
        0
    } else {
        let rest = max_timestamp(s.drop_last());
        if s.last().timestamp > rest {
            s.last().timestamp
        } else {
            rest
        }
    }
}

/// Out-of-order safety law: no event in a batch has a timestamp above the
/// batch maximum.
pub proof fn lemma_max_timestamp_dominates(s: Seq<ReviveEntryModel>)
    ensures
        forall|i: int| 0 <= i < s.len() ==> s[i].timestamp <= max_timestamp(s),
    decreases s.len(),
{
    if s.len() > 0 {
        lemma_max_timestamp_dominates(s.drop_last());
        assert forall|i: int| 0 <= i < s.len() implies s[i].timestamp <= max_timestamp(s) by {
            if i < s.len() - 1 {
                assert(s.drop_last()[i] == s[i]);
            }
        }
    }
}

/// The cursor a successfully ingested batch advances to: the largest
/// timestamp observed in the batch, and never below the cursor already
/// persisted.
pub open spec fn advanced_cursor(cursor: u64, batch: Seq<ReviveEntryModel>) -> u64 {
    if max_timestamp(batch) > cursor {
        max_timestamp(batch)
    } else {
        cursor
    }
}

/// Cursor monotonicity and out-of-order safety law: the cursor a cycle
/// persists is the maximum timestamp of the batch — not the last element's —
/// whenever the batch reaches past the prior cursor; it sits at or above
/// every timestamp in the batch, and it never moves backwards.
pub proof fn lemma_cursor_advance(cursor: u64, batch: Seq<ReviveEntryModel>)
    ensures
        advanced_cursor(cursor, batch) >= cursor,
        forall|i: int| 0 <= i < batch.len() ==> batch[i].timestamp <= advanced_cursor(
            cursor,
            batch,
        ),
        max_timestamp(batch) > cursor ==> advanced_cursor(cursor, batch) == max_timestamp(batch),
        max_timestamp(batch) <= cursor ==> advanced_cursor(cursor, batch) == cursor,
{
    lemma_max_timestamp_dominates(batch);
}

/// Computes the largest timestamp in a fetched batch.
pub fn batch_max_timestamp(batch: &Vec<ReviveEntry>) -> (r: u64)
    ensures
        r == max_timestamp(batch_views(batch@)),
{
    let n = batch.len();
    let mut acc: u64 = 0;
    let mut i: usize = 0;
    proof {
        assert(batch_views(batch@.take(0)).len() == 0);
    }
    while i < n
        invariant
            i <= n,
            n == batch@.len(),
            acc == max_timestamp(batch_views(batch@.take(i as int))),
        decreases n - i,
    {
        let t = batch[i].timestamp;
        proof {
            let pre = batch_views(batch@.take(i as int));
            let post = batch_views(batch@.take(i as int + 1));
            assert(post.drop_last() =~= pre);
            assert(post.last() == batch@[i as int]@);
        }
        if t > acc {
            acc = t;
        }
        i += 1;
    }
    proof {
        assert(batch@.take(n as int) =~= batch@);
    }
    acc
}

/// The set of event identities an ingestion leaves visible in the sink:
/// what was stored before, together with the batch's identities.  Records
/// already present are not errors — they are already satisfied.
pub open spec fn sink_after_ingest(stored: Set<Seq<char>>, batch: Seq<ReviveEntryModel>) -> Set<
    Seq<char>,
> {
    stored + batch.map(|i: int, e: ReviveEntryModel| e.id).to_set()
}

/// Idempotent-ingestion law: re-ingesting an already-stored batch — as
/// happens when a crash hits between ingestion and cursor persistence —
/// leaves the sink's visible records unchanged.
pub proof fn lemma_ingest_idempotent(stored: Set<Seq<char>>, batch: Seq<ReviveEntryModel>)
    ensures
        sink_after_ingest(sink_after_ingest(stored, batch), batch) == sink_after_ingest(
            stored,
            batch,
        ),
{
    assert(sink_after_ingest(sink_after_ingest(stored, batch), batch) =~= sink_after_ingest(
        stored,
        batch,
    ));
}

/// Whether every conflict a bulk insert reported is a duplicate-identity
/// conflict — in which case the ingestion counts as successful.
pub fn duplicate_conflicts_only(codes: &Vec<i32>) -> (r: bool)
    ensures
        r == (forall|i: int| 0 <= i < codes@.len() ==> codes@[i] == DUPLICATE_KEY_CODE),
{
    let n = codes.len();
    let mut i: usize = 0;
    while i < n
        invariant
            i <= n,
            n == codes@.len(),
            forall|j: int| 0 <= j < i ==> codes@[j] == DUPLICATE_KEY_CODE,
        decreases n - i,
    {
        if codes[i] != DUPLICATE_KEY_CODE {
            return false;
        }
        i += 1;
    }
    true
}

proof fn lemma_push_to_set<A>(s: Seq<A>, x: A)
    ensures
        s.push(x).to_set() == s.to_set().insert(x),
{
    assert forall|y: A| s.push(x).to_set().contains(y) implies s.to_set().insert(x).contains(
        y,
    ) by {
        let w = choose|w: int| 0 <= w < s.push(x).len() && s.push(x)[w] == y;
        if w < s.len() {
            assert(s.contains(y));
        }
    }
    assert forall|y: A| s.to_set().insert(x).contains(y) implies s.push(x).to_set().contains(
        y,
    ) by {
        if s.to_set().contains(y) {
            let w = choose|w: int| 0 <= w < s.len() && s[w] == y;
            assert(s.push(x)[w] == y);
        } else {
            assert(s.push(x)[s.len() as int] == y);
        }
    }
    assert(s.push(x).to_set() =~= s.to_set().insert(x));
}

/// An in-memory reference sink: what the consumed ingestion-sink interface
/// promises, as a verified model.  Bulk insertion is idempotent — records
/// whose identity is already present are skipped, never errors.
pub struct RecordStore {
    ids: Vec<String>,
}

impl RecordStore {
    /// The set of event identities visible in the store.
    pub closed spec fn spec_ids(&self) -> Set<Seq<char>> {
        self.ids@.map(|i: int, s: String| s@).to_set()
    }

    /// The number of records visible in the store.
    pub closed spec fn spec_count(&self) -> nat {
        self.ids@.len()
    }

    pub closed spec fn wf(&self) -> bool {
        forall|i: int, j: int| 0 <= i < j < self.ids@.len() ==> self.ids@[i]@ != self.ids@[j]@
    }

    pub fn new() -> (r: RecordStore)
        ensures
            r.wf(),
            r.spec_ids() == Set::<Seq<char>>::empty(),
            r.spec_count() == 0,
    {
        let r = RecordStore { ids: Vec::new() };
        proof {
            assert(r.spec_ids() =~= Set::<Seq<char>>::empty());
        }
        r
    }

    /// The store never holds two records of one identity, so the record
    /// count is exactly the size of the identity set.
    pub proof fn lemma_count_is_cardinality(&self)
        requires
            self.wf(),
        ensures
            self.spec_count() == self.spec_ids().len(),
    {
        let mapped = self.ids@.map(|i: int, s: String| s@);
        assert forall|i: int, j: int| 0 <= i < mapped.len() && 0 <= j < mapped.len() && i != j
            implies mapped[i] != mapped[j] by {
            if i < j {
                assert(self.ids@[i]@ != self.ids@[j]@);
            } else {
                assert(self.ids@[j]@ != self.ids@[i]@);
            }
        }
        mapped.unique_seq_to_set();
    }

    pub fn count(&self) -> (r: usize)
        ensures
            r == self.spec_count(),
    {
        self.ids.len()
    }

    fn contains_id(&self, id: &String) -> (r: bool)
        ensures
            r == self.spec_ids().contains(id@),
    {
        let ghost mapped = self.ids@.map(|i: int, s: String| s@);
        let n = self.ids.len();
        let mut i: usize = 0;
        while i < n
            invariant
                i <= n,
                n == self.ids@.len(),
                mapped == self.ids@.map(|k: int, s: String| s@),
                forall|j: int| 0 <= j < i ==> mapped[j] != id@,
            decreases n - i,
        {
            proof {
                assert(mapped[i as int] == self.ids@[i as int]@);
            }
            if self.ids[i] == *id {
                proof {
                    assert(mapped.contains(id@));
                }
                return true;
            }
            i += 1;
        }
        proof {
            assert forall|j: int| 0 <= j < mapped.len() implies mapped[j] != id@ by {}
            assert(!mapped.contains(id@));
        }
        false
    }

    /// Hands a batch to the store as one idempotent bulk insert: afterwards
    /// the visible identities are what was stored before together with the
    /// batch's identities, and duplicate identities are not errors.
    pub fn insert_many(&mut self, batch: &Vec<ReviveEntry>)
        requires
            old(self).wf(),
        ensures
            final(self).wf(),
            final(self).spec_ids() == sink_after_ingest(
                old(self).spec_ids(),
                batch_views(batch@),
            ),
    {
        let n = batch.len();
        let mut k: usize = 0;
        proof {
            assert(self.spec_ids() =~= sink_after_ingest(
                old(self).spec_ids(),
                batch_views(batch@.take(0)),
            ));
        }
        while k < n
            invariant
                k <= n,
                n == batch@.len(),
                self.wf(),
                self.spec_ids() == sink_after_ingest(
                    old(self).spec_ids(),
                    batch_views(batch@.take(k as int)),
                ),
            decreases n - k,
        {
            let ghost pre = self.spec_ids();
            let entry = &batch[k];
            let present = self.contains_id(&entry.id);
            if !present {
                let ghost old_ids = self.ids@;
                self.ids.push(entry.id.clone());
                proof {
                    let old_mapped = old_ids.map(|i: int, s: String| s@);
                    let new_mapped = self.ids@.map(|i: int, s: String| s@);
                    assert(new_mapped =~= old_mapped.push(entry.id@));
                    assert forall|i: int, j: int|
                        0 <= i < j < self.ids@.len() implies self.ids@[i]@ != self.ids@[j]@ by {
                        if j == self.ids@.len() - 1 {
                            assert(old_mapped[i] == self.ids@[i]@);
                            assert(old_mapped.contains(self.ids@[i]@));
                        }
                    }
                    lemma_push_to_set(old_mapped, entry.id@);
                    assert(self.spec_ids() == pre.insert(entry.id@));
                }
            }
            proof {
                let tv_next = batch_views(batch@.take(k as int + 1));
                let ids_next = tv_next.map(|i: int, e: ReviveEntryModel| e.id);
                let tv_cur = batch_views(batch@.take(k as int));
                let ids_cur = tv_cur.map(|i: int, e: ReviveEntryModel| e.id);
                assert(ids_next =~= ids_cur.push(entry.id@));
                lemma_push_to_set(ids_cur, entry.id@);
                assert(ids_next.to_set() == ids_cur.to_set().insert(entry.id@));
                if present {
                    assert(self.spec_ids() =~= sink_after_ingest(
                        old(self).spec_ids(),
                        tv_next,
                    ));
                } else {
                    assert(self.spec_ids() =~= sink_after_ingest(
                        old(self).spec_ids(),
                        tv_next,
                    ));
                }
            }
            k += 1;
        }
        proof {
            assert(batch@.take(n as int) =~= batch@);
        }
    }
}

/// The states of the polling cycle.
#[derive(Clone, Copy, Debug, PartialEq, Eq, Structural)]
pub enum Phase {
    /// A fetch of the feed is due or in flight.
    Fetching,
    /// A validated batch is being handed to the sink.
    Ingesting,
    /// The advanced cursor is being written to the store.
    Persisting,
    /// The last-successful-run heartbeat is being written.
    Heartbeat,
    /// Sleeping between cycles, in ticks.
    Waiting,
    /// A fatal persistence failure: the loop must stop and wait for an
    /// operator restart.
    Aborted,
}

/// What the application must do next.
#[derive(Clone, Copy, Debug, PartialEq, Eq, Structural)]
pub enum PollDirective {
    /// Fetch every event with a timestamp strictly greater than `from`.
    Fetch { from: u64 },
    /// Hand the validated batch to the ingestion sink.
    Ingest,
    /// Write this cursor value to the store.
    PersistCursor { value: u64 },
    /// Write the last-successful-run heartbeat to the store.
    PersistHeartbeat,
    /// Sleep this many seconds, then report the wake flag in `wait_tick`.
    SleepTick { seconds: u64 },
    /// Stop the loop: a fatal failure needs an operator restart.
    Halt,
}

/// The polling cycle's decision state: the durable cursor as last known,
/// the partition the feed must belong to, and the phase of the cycle.
pub struct Poller {
    cursor: u64,
    partition: u64,
    phase: Phase,
    pending_cursor: u64,
    ticks: u64,
}

impl Poller {
    pub closed spec fn spec_cursor(&self) -> u64 {
        self.cursor
    }

    pub closed spec fn spec_partition(&self) -> u64 {
        self.partition
    }

    pub closed spec fn spec_phase(&self) -> Phase {
        self.phase
    }

    pub closed spec fn spec_pending(&self) -> u64 {
        self.pending_cursor
    }

    pub closed spec fn spec_ticks(&self) -> u64 {
        self.ticks
    }

    pub open spec fn wf(&self) -> bool {
        &&& self.spec_pending() >= self.spec_cursor()
        &&& self.spec_ticks() <= MAX_WAIT_TICKS
    }

    /// A poller resuming from the persisted `cursor`, configured for
    /// `partition`, with the first fetch due.
    pub fn new(cursor: u64, partition: u64) -> (r: Poller)
        ensures
            r.wf(),
            r.spec_cursor() == cursor,
            r.spec_partition() == partition,
            r.spec_phase() == Phase::Fetching,
    {
        Poller {
            cursor,
            partition,
            phase: Phase::Fetching,
            pending_cursor: cursor,
            ticks: 0,
        }
    }

    /// Builds the poller from what the cursor store held.  The operator
    /// must seed an initial cursor: an unset (or unreadable) one refuses to
    /// start, before any fetch.
    pub fn resume(stored_cursor: Option<u64>, partition: u64) -> (r: Option<Poller>)
        ensures
            r is Some <==> stored_cursor is Some,
            match r {
                Option::Some(p) => {
                    &&& p.wf()
                    &&& p.spec_cursor() == stored_cursor->Some_0
                    &&& p.spec_partition() == partition
                    &&& p.spec_phase() == Phase::Fetching
                },
                Option::None => true,
            },
    {
        match stored_cursor {
            Option::Some(cursor) => Option::Some(Poller::new(cursor, partition)),
            Option::None => Option::None,
        }
    }

    /// The phase the cycle is in.
    pub fn phase(&self) -> (r: Phase)
        ensures
            r == self.spec_phase(),
    {
        self.phase
    }

    /// The cursor as last durably persisted (or as resumed from).
    pub fn cursor(&self) -> (r: u64)
        ensures
            r == self.spec_cursor(),
    {
        self.cursor
    }

    /// The fetch that opens a cycle: every event strictly newer than the
    /// cursor, for the configured partition.
    pub fn begin_cycle(&self) -> (r: PollDirective)
        requires
            self.spec_phase() == Phase::Fetching,
        ensures
            r == (PollDirective::Fetch { from: self.spec_cursor() }),
    {
        PollDirective::Fetch { from: self.cursor }
    }

    /// Takes the outcome of the fetch.  A transport or decode failure skips
    /// the cycle: the poller waits without touching the cursor.  A batch
    /// reporting a partition other than the configured one is discarded the
    /// same way — nothing is ingested and the cursor is untouched.  The
    /// executor's fatal key-exhaustion, alone among fetch failures, is an
    /// unrecoverable configuration fault: it aborts the loop.  A valid
    /// batch moves to ingestion, with the cursor candidate advanced to the
    /// largest timestamp observed (never below the current cursor).
    pub fn on_fetch(&mut self, result: Result<&(Vec<ReviveEntry>, u64), CallError>) -> (r:
        PollDirective)
        requires
            old(self).wf(),
            old(self).spec_phase() == Phase::Fetching,
        ensures
            final(self).wf(),
            final(self).spec_cursor() == old(self).spec_cursor(),
            final(self).spec_partition() == old(self).spec_partition(),
            match result {
                Result::Ok(pair) => {
                    if pair.1 == old(self).spec_partition() {
                        &&& final(self).spec_phase() == Phase::Ingesting
                        &&& r == PollDirective::Ingest
                        &&& final(self).spec_pending() == advanced_cursor(
                            old(self).spec_cursor(),
                            batch_views(pair.0@),
                        )
                    } else {
                        &&& final(self).spec_phase() == Phase::Waiting
                        &&& r == (PollDirective::SleepTick { seconds: TICK_SECONDS })
                        &&& final(self).spec_ticks() == 0
                    }
                },
                Result::Err(e) => {
                    if e == CallError::Exhausted {
                        &&& final(self).spec_phase() == Phase::Aborted
                        &&& r == PollDirective::Halt
                    } else {
                        &&& final(self).spec_phase() == Phase::Waiting
                        &&& r == (PollDirective::SleepTick { seconds: TICK_SECONDS })
                        &&& final(self).spec_ticks() == 0
                    }
                },
            },
    {
        match result {
            Result::Ok(pair) => {
                if pair.1 == self.partition {
                    let top = batch_max_timestamp(&pair.0);
                    self.pending_cursor = if top > self.cursor {
                        top
                    } else {
                        self.cursor
                    };
                    self.phase = Phase::Ingesting;
                    PollDirective::Ingest
                } else {
                    self.phase = Phase::Waiting;
                    self.ticks = 0;
                    PollDirective::SleepTick { seconds: TICK_SECONDS }
                }
            },
            Result::Err(e) => {
                if e == CallError::Exhausted {
                    self.phase = Phase::Aborted;
                    PollDirective::Halt
                } else {
                    self.phase = Phase::Waiting;
                    self.ticks = 0;
                    PollDirective::SleepTick { seconds: TICK_SECONDS }
                }
            },
        }
    }

    /// Takes the sink's verdict on the batch.  Any failure other than
    /// duplicate-identity conflicts aborts the loop: partial, un-persisted
    /// progress must not be retried automatically.
    pub fn on_ingest(&mut self, ok: bool) -> (r: PollDirective)
        requires
            old(self).wf(),
            old(self).spec_phase() == Phase::Ingesting,
        ensures
            final(self).wf(),
            final(self).spec_cursor() == old(self).spec_cursor(),
            final(self).spec_partition() == old(self).spec_partition(),
            final(self).spec_pending() == old(self).spec_pending(),
            if ok {
                &&& final(self).spec_phase() == Phase::Persisting
                &&& r == (PollDirective::PersistCursor { value: old(self).spec_pending() })
            } else {
                &&& final(self).spec_phase() == Phase::Aborted
                &&& r == PollDirective::Halt
            },
    {
        if ok {
            self.phase = Phase::Persisting;
            PollDirective::PersistCursor { value: self.pending_cursor }
        } else {
            self.phase = Phase::Aborted;
            PollDirective::Halt
        }
    }

    /// Takes the store's verdict on the cursor write.  Only a durably
    /// persisted cursor advances the in-memory one — and never downward;
    /// a write failure aborts the loop.
    pub fn on_persist(&mut self, ok: bool) -> (r: PollDirective)
        requires
            old(self).wf(),
            old(self).spec_phase() == Phase::Persisting,
        ensures
            final(self).wf(),
            final(self).spec_cursor() >= old(self).spec_cursor(),
            final(self).spec_partition() == old(self).spec_partition(),
            if ok {
                &&& final(self).spec_cursor() == old(self).spec_pending()
                &&& final(self).spec_phase() == Phase::Heartbeat
                &&& r == PollDirective::PersistHeartbeat
            } else {
                &&& final(self).spec_cursor() == old(self).spec_cursor()
                &&& final(self).spec_phase() == Phase::Aborted
                &&& r == PollDirective::Halt
            },
    {
        if ok {
            self.cursor = self.pending_cursor;
            self.phase = Phase::Heartbeat;
            PollDirective::PersistHeartbeat
        } else {
            self.phase = Phase::Aborted;
            PollDirective::Halt
        }
    }

    /// Takes the store's verdict on the heartbeat write, closing the cycle.
    pub fn on_heartbeat(&mut self, ok: bool) -> (r: PollDirective)
        requires
            old(self).wf(),
            old(self).spec_phase() == Phase::Heartbeat,
        ensures
            final(self).wf(),
            final(self).spec_cursor() == old(self).spec_cursor(),
            final(self).spec_partition() == old(self).spec_partition(),
            if ok {
                &&& final(self).spec_phase() == Phase::Waiting
                &&& final(self).spec_ticks() == 0
                &&& r == (PollDirective::SleepTick { seconds: TICK_SECONDS })
            } else {
                &&& final(self).spec_phase() == Phase::Aborted
                &&& r == PollDirective::Halt
            },
    {
        if ok {
            self.phase = Phase::Waiting;
            self.ticks = 0;
            PollDirective::SleepTick { seconds: TICK_SECONDS }
        } else {
            self.phase = Phase::Aborted;
            PollDirective::Halt
        }
    }

    /// One waiting tick.  `wake` is what `WakeSignal::take_and_clear`
    /// returned for this tick: a requested wake — or the bounded maximum
    /// wait running out — starts the next cycle immediately; otherwise the
    /// poller sleeps one more tick.
    pub fn wait_tick(&mut self, wake: bool) -> (r: PollDirective)
        requires
            old(self).wf(),
            old(self).spec_phase() == Phase::Waiting,
        ensures
            final(self).wf(),
            final(self).spec_cursor() == old(self).spec_cursor(),
            final(self).spec_partition() == old(self).spec_partition(),
            if wake || old(self).spec_ticks() >= MAX_WAIT_TICKS {
                &&& final(self).spec_phase() == Phase::Fetching
                &&& r == (PollDirective::Fetch { from: old(self).spec_cursor() })
            } else {
                &&& final(self).spec_phase() == Phase::Waiting
                &&& final(self).spec_ticks() == old(self).spec_ticks() + 1
                &&& r == (PollDirective::SleepTick { seconds: TICK_SECONDS })
            },
    {
        if wake || self.ticks >= MAX_WAIT_TICKS {
            self.phase = Phase::Fetching;
            PollDirective::Fetch { from: self.cursor }
        } else {
            self.ticks = self.ticks + 1;
            PollDirective::SleepTick { seconds: TICK_SECONDS }
        }
    }
}

} // verus!
