//! Credential rotation under per-credential call budgets.
//!
//! A pool of API credentials shares a fixed rate-limit window.  Each
//! acquisition consumes one unit of the selected credential's budget;
//! budgets are restored for every credential — including ones evicted
//! during the window — exactly when the window elapses.  Selection walks
//! the credentials round-robin, skipping exhausted and evicted entries.
//!
//! Waiting for a window reset requires sleeping, which the library does
//! not do itself: [`TornAPI::acquire_step`] is a step function that either
//! hands out a credential, asks the caller to sleep, or reports that the
//! pool is fatally exhausted.

use vstd::prelude::*;

verus! {

/// Length of the remote rate-limit window, in seconds.
pub const WINDOW_SECONDS: u64 = 60;

/// One API credential: a secret, a label identifying its owner, and the
/// number of calls it may make within one rate-limit window.
#[derive(Clone, Debug)]
pub struct APIKey {
    pub key: String,
    pub rate_limit: u32,
    pub owner: String,
}

/// Ghost model of the pool: capacities, remaining budgets, the window-scoped
/// eviction flags, the window start, the rotation cursor, and the index of
/// the credential most recently handed out.
pub struct PoolModel {
    pub caps: Seq<u32>,
    pub remaining: Seq<u32>,
    pub evicted: Seq<bool>,
    pub window_start: int,
    pub cursor: int,
    pub issued: Option<int>,
}

impl PoolModel {
    pub open spec fn len(self) -> int {
        self.caps.len() as int
    }

    pub open spec fn wf(self) -> bool {
        &&& self.remaining.len() == self.caps.len()
        &&& self.evicted.len() == self.caps.len()
        &&& self.caps.len() > 0
        &&& 0 <= self.cursor < self.len()
        &&& 0 <= self.window_start
        &&& forall|i: int| 0 <= i < self.len() ==> self.remaining[i] <= self.caps[i]
        &&& match self.issued {
            Some(i) => 0 <= i < self.len(),
            None => true,
        }
    }

    /// A credential can be selected when it is not evicted and still has
    /// budget left in the current window.
    pub open spec fn usable(self, i: int) -> bool {
        &&& 0 <= i < self.len()
        &&& !self.evicted[i]
        &&& self.remaining[i] > 0
    }

    pub open spec fn all_evicted(self) -> bool {
        forall|i: int| 0 <= i < self.len() ==> self.evicted[i]
    }

    /// The index examined `off` steps after the rotation cursor, wrapping
    /// around at the end of the credential list (meaningful for
    /// `0 <= off < len`).
    pub open spec fn slot(self, off: int) -> int {
        if self.cursor + off < self.len() {
            self.cursor + off
        } else {
            self.cursor + off - self.len()
        }
    }
}

/// The fully reset pool: every budget restored to capacity, every eviction
/// forgiven, the cursor and window start rewound.
pub open spec fn reset_model(m: PoolModel, now: int) -> PoolModel {
    PoolModel {
        caps: m.caps,
        remaining: m.caps,
        evicted: Seq::new(m.caps.len(), |i: int| false),
        window_start: now,
        cursor: 0,
        issued: m.issued,
    }
}

/// Resets the pool if the window has elapsed, and leaves it alone otherwise.
pub open spec fn maybe_reset(m: PoolModel, now: int) -> PoolModel {
    if now - m.window_start >= WINDOW_SECONDS {
        reset_model(m, now)
    } else {
        m
    }
}

/// The first usable index at or after `off` steps past the cursor, walking
/// round-robin; `None` when a full lap finds nothing.
pub open spec fn scan_from(m: PoolModel, off: int) -> Option<int>
    decreases m.len() - off,
{
    if off < 0 || off >= m.len() {
        None
    } else if m.usable(m.slot(off)) {
        Some(m.slot(off))
    } else {
        scan_from(m, off + 1)
    }
}

/// The index the rotation selects next: the nearest usable credential at or
/// after the cursor.
pub open spec fn selected(m: PoolModel) -> Option<int> {
    scan_from(m, 0)
}

/// Outcome of one acquisition step.
pub enum AcquireDecision {
    /// The credential at this index was selected and one budget unit consumed.
    Granted(int),
    /// No budget is left but not every credential is evicted: sleep this many
    /// seconds (until the window elapses) and try again.
    Pause(int),
    /// Every credential is evicted mid-window: fatal.
    Exhausted,
}

/// One acquisition step on the model: reset the window if it elapsed, then
/// select the nearest usable credential and consume one unit of its budget;
/// with no usable credential, pause until the window end, or fail fatally
/// when every credential is evicted.
pub open spec fn acquire_model(m: PoolModel, now: int) -> (PoolModel, AcquireDecision) {
    let m1 = maybe_reset(m, now);
    match selected(m1) {
        Some(i) => (
            PoolModel {
                remaining: m1.remaining.update(i, (m1.remaining[i] - 1) as u32),
                cursor: if i + 1 < m1.len() {
                    i + 1
                } else {
                    0
                },
                issued: Some(i),
                ..m1
            },
            AcquireDecision::Granted(i),
        ),
        None => if m1.all_evicted() {
            (m1, AcquireDecision::Exhausted)
        } else {
            (m1, AcquireDecision::Pause(WINDOW_SECONDS - (now - m1.window_start)))
        },
    }
}

/// The model after evicting index `i` for the rest of the window.
pub open spec fn evict_model(m: PoolModel, i: int) -> PoolModel {
    PoolModel { evicted: m.evicted.update(i, true), ..m }
}

/// What `acquire_step` hands back to the caller.
pub enum AcquireOutcome {
    /// Use this credential; `index` identifies it for a later eviction.
    Acquired { key: APIKey, index: usize },
    /// Sleep `seconds`, then call `acquire_step` again.
    Wait { seconds: u64 },
    /// Every credential is evicted and the window has not elapsed: fatal.
    Exhausted,
}

/// The credential pool with its rotation state.
pub struct TornAPI {
    keys: Vec<APIKey>,
    remaining: Vec<u32>,
    evicted: Vec<bool>,
    last_reset: i64,
    key_used: usize,
    issued: Option<usize>,
    name: String,
}

impl TornAPI {
    pub closed spec fn model(self) -> PoolModel {
        PoolModel {
            caps: self.keys@.map(|i: int, k: APIKey| k.rate_limit),
            remaining: self.remaining@,
            evicted: self.evicted@,
            window_start: self.last_reset as int,
            cursor: self.key_used as int,
            issued: match self.issued {
                Some(i) => Some(i as int),
                None => None,
            },
        }
    }

    /// The configured credentials, which eviction and resets never change.
    pub closed spec fn spec_keys(self) -> Seq<APIKey> {
        self.keys@
    }

    /// The caller-identifying comment appended to every request.
    pub closed spec fn spec_name(self) -> Seq<char> {
        self.name@
    }

    pub open spec fn wf(self) -> bool {
        &&& self.model().wf()
        &&& self.spec_keys().len() == self.model().len()
    }

    /// Builds a pool over `keys` with every budget full, a window starting
    /// at the wall clock's current time, and the rotation cursor at the
    /// first credential.
    pub fn new(keys: Vec<APIKey>) -> (r: TornAPI)
        requires
            keys@.len() > 0,
        ensures
            r.wf(),
            r.spec_keys() == keys@,
            forall|i: int|
                0 <= i < keys@.len() ==> r.model().remaining[i] == keys@[i].rate_limit,
            forall|i: int| 0 <= i < keys@.len() ==> !r.model().evicted[i],
            r.model().cursor == 0,
            r.model().issued is None,
            r.spec_name() == "TornAPI"@,
    {
        let t = now_timestamp();
        let start = if t < 0 {
            0
        } else {
            t
        };
        TornAPI::new_at(keys, start)
    }

    /// Builds a pool as [`TornAPI::new`] does, with the window starting at
    /// the given time — the injectable-clock form that makes the window and
    /// reset logic independently testable.
    pub fn new_at(keys: Vec<APIKey>, start: i64) -> (r: TornAPI)
        requires
            keys@.len() > 0,
            start >= 0,
        ensures
            r.wf(),
            r.spec_keys() == keys@,
            r.model().window_start == start,
            forall|i: int|
                0 <= i < keys@.len() ==> r.model().remaining[i] == keys@[i].rate_limit,
            forall|i: int| 0 <= i < keys@.len() ==> !r.model().evicted[i],
            r.model().cursor == 0,
            r.model().issued is None,
            r.spec_name() == "TornAPI"@,
    {
        let n = keys.len();
        let mut remaining: Vec<u32> = Vec::new();
        let mut evicted: Vec<bool> = Vec::new();
        let mut i: usize = 0;
        while i < n
            invariant
                i <= n,
                n == keys@.len(),
                remaining@.len() == i,
                evicted@.len() == i,
                forall|j: int| 0 <= j < i ==> remaining@[j] == keys@[j].rate_limit,
                forall|j: int| 0 <= j < i ==> !evicted@[j],
            decreases n - i,
        {
            remaining.push(keys[i].rate_limit);
            evicted.push(false);
            i += 1;
        }
        let r = TornAPI {
            keys,
            remaining,
            evicted,
            last_reset: start,
            key_used: 0,
            issued: None,
            name: "TornAPI".to_owned(),
        };
        proof {
            assert(r.model().caps =~= r.keys@.map(|i: int, k: APIKey| k.rate_limit));
        }
        r
    }

    /// Replaces the caller-identifying comment sent with every request.
    pub fn set_name(&mut self, name: String)
        ensures
            final(self).spec_name() == name@,
            final(self).model() == old(self).model(),
            final(self).spec_keys() == old(self).spec_keys(),
    {
        self.name = name;
    }

    /// The start of the current rate-limit window, as a Unix timestamp.
    pub fn window_start(&self) -> (r: i64)
        ensures
            r == self.model().window_start,
    {
        self.last_reset
    }

    /// The index of the credential most recently handed out, if any.
    pub fn issued_index(&self) -> (r: Option<usize>)
        ensures
            match r {
                Some(i) => self.model().issued == Some(i as int),
                None => self.model().issued is None,
            },
    {
        self.issued
    }

    /// The caller-identifying comment appended to every request.
    pub fn name(&self) -> (r: &String)
        ensures
            r@ == self.spec_name(),
    {
        &self.name
    }

    /// Evicts the credential most recently handed out by `acquire_step`:
    /// the one a just-classified response was obtained with.
    pub fn evict_issued(&mut self)
        requires
            old(self).wf(),
            old(self).model().issued is Some,
        ensures
            final(self).wf(),
            final(self).model() == evict_model(
                old(self).model(),
                old(self).model().issued->Some_0,
            ),
            final(self).spec_keys() == old(self).spec_keys(),
            final(self).spec_name() == old(self).spec_name(),
    {
        if let Some(i) = self.issued {
            self.evict(i);
        }
    }

    /// Removes the credential at `index` from the current window's usable
    /// set.  It is reinstated automatically at the next window reset.
    pub fn evict(&mut self, index: usize)
        requires
            old(self).wf(),
            index < old(self).model().len(),
        ensures
            final(self).wf(),
            final(self).model() == evict_model(old(self).model(), index as int),
            final(self).spec_keys() == old(self).spec_keys(),
            final(self).spec_name() == old(self).spec_name(),
    {
        self.evicted.set(index, true);
        proof {
            assert(final(self).model() =~= evict_model(old(self).model(), index as int));
        }
    }

    /// One acquisition step: resets the window if it has elapsed, then either
    /// hands out the nearest usable credential (consuming one unit of its
    /// budget and advancing the rotation cursor past it), asks the caller to
    /// sleep until the window end, or reports fatal exhaustion when every
    /// credential is evicted mid-window.
    ///
    /// `now` is the current Unix timestamp; the clock may not run backwards
    /// past the window start.
    pub fn acquire_step(&mut self, now: i64) -> (r: AcquireOutcome)
        requires
            old(self).wf(),
            now >= old(self).model().window_start,
        ensures
            final(self).wf(),
            final(self).spec_keys() == old(self).spec_keys(),
            final(self).spec_name() == old(self).spec_name(),
            final(self).model() == acquire_model(old(self).model(), now as int).0,
            ({
                let d = acquire_model(old(self).model(), now as int).1;
                match r {
                    AcquireOutcome::Acquired { key, index } => {
                        &&& d == AcquireDecision::Granted(index as int)
                        &&& index < old(self).spec_keys().len()
                        &&& key == old(self).spec_keys()[index as int]
                    },
                    AcquireOutcome::Wait { seconds } => d == AcquireDecision::Pause(
                        seconds as int,
                    ),
                    AcquireOutcome::Exhausted => d == AcquireDecision::Exhausted,
                }
            }),
    {
        let n = self.keys.len();
        // Window-elapsed check and reset.
        if now - self.last_reset >= WINDOW_SECONDS as i64 {
            let mut remaining: Vec<u32> = Vec::new();
            let mut evicted: Vec<bool> = Vec::new();
            let mut i: usize = 0;
            while i < n
                invariant
                    i <= n,
                    n == self.keys@.len(),
                    remaining@.len() == i,
                    evicted@.len() == i,
                    forall|j: int| 0 <= j < i ==> remaining@[j] == self.keys@[j].rate_limit,
                    forall|j: int| 0 <= j < i ==> !evicted@[j],
                decreases n - i,
            {
                remaining.push(self.keys[i].rate_limit);
                evicted.push(false);
                i += 1;
            }
            self.remaining = remaining;
            self.evicted = evicted;
            self.last_reset = now;
            self.key_used = 0;
            proof {
                assert(self.model().remaining =~= reset_model(
                    old(self).model(),
                    now as int,
                ).remaining);
                assert(self.model().evicted =~= reset_model(old(self).model(), now as int).evicted);
                assert(self.model() =~= maybe_reset(old(self).model(), now as int));
            }
        }
        let ghost m1 = maybe_reset(old(self).model(), now as int);
        proof {
            assert(self.model() == m1);
        }
        // Round-robin scan for the nearest usable credential.
        let mut off: usize = 0;
        let mut idx: usize = self.key_used;
        let mut found: Option<usize> = None;
        while off < n
            invariant_except_break
                found is None,
                idx == m1.slot(off as int) || off == n,
            invariant
                self.wf(),
                self.model() == m1,
                self.spec_keys() == old(self).spec_keys(),
                self.spec_name() == old(self).spec_name(),
                n == m1.len(),
                0 <= off <= n,
                forall|k: int| 0 <= k < off ==> !m1.usable(m1.slot(k)),
            ensures
                match found {
                    Some(i) => i == m1.slot(off as int) && m1.usable(i as int),
                    None => forall|k: int| 0 <= k < n ==> !m1.usable(m1.slot(k)),
                },
            decreases n - off,
        {
            if !self.evicted[idx] && self.remaining[idx] > 0 {
                found = Some(idx);
                break ;
            }
            off += 1;
            if off < n {
                idx = if idx + 1 < n {
                    idx + 1
                } else {
                    0
                };
            }
        }
        match found {
            Some(i) => {
                proof {
                    lemma_scan_skip(m1, off as int);
                    assert(selected(m1) == Some(i as int));
                }
                let dec = self.remaining[i] - 1;
                self.remaining.set(i, dec);
                self.key_used = if i + 1 < n {
                    i + 1
                } else {
                    0
                };
                self.issued = Some(i);
                let k = &self.keys[i];
                let key = APIKey { key: k.key.clone(), rate_limit: k.rate_limit, owner: k.owner.clone() };
                proof {
                    assert(self.model() =~= acquire_model(old(self).model(), now as int).0);
                    assert(key == old(self).spec_keys()[i as int]);
                }
                AcquireOutcome::Acquired { key, index: i }
            },
            None => {
                proof {
                    lemma_scan_skip(m1, n as int);
                    assert(selected(m1) is None);
                }
                // Distinguish full eviction (fatal) from exhausted budgets
                // (wait for the reset).
                let mut all_gone = true;
                let mut j: usize = 0;
                while j < n
                    invariant
                        self.wf(),
                        self.model() == m1,
                        self.spec_keys() == old(self).spec_keys(),
                        self.spec_name() == old(self).spec_name(),
                        n == m1.len(),
                        0 <= j <= n,
                        all_gone <==> (forall|k: int| 0 <= k < j ==> m1.evicted[k]),
                    decreases n - j,
                {
                    if !self.evicted[j] {
                        all_gone = false;
                    }
                    j += 1;
                }
                if all_gone {
                    AcquireOutcome::Exhausted
                } else {
                    // The window cannot have elapsed here: a reset would have
                    // cleared every eviction and refilled every budget, and a
                    // budget-less, eviction-free pool only pauses.
                    let seconds = WINDOW_SECONDS as i64 - (now - self.last_reset);
                    AcquireOutcome::Wait { seconds: seconds as u64 }
                }
            },
        }
    }
}

/// Scanning from the cursor equals scanning from `off` steps in when every
/// slot before `off` is unusable.
proof fn lemma_scan_skip(m: PoolModel, off: int)
    requires
        m.wf(),
        0 <= off <= m.len(),
        forall|k: int| 0 <= k < off ==> !m.usable(m.slot(k)),
    ensures
        scan_from(m, 0) == scan_from(m, off),
    decreases off,
{
    if off > 0 {
        lemma_scan_skip(m, off - 1);
        assert(!m.usable(m.slot(off - 1)));
    }
}

/// Relies on chrono's `Utc::now`: the current Unix timestamp in seconds.
/// Nothing is assumed about the value, which depends on the wall clock.
#[verifier::external_body]
fn now_timestamp() -> i64 {
    chrono::Utc::now().timestamp()
}

pub open spec fn no_evictions(m: PoolModel) -> bool {
    forall|i: int| 0 <= i < m.len() ==> !m.evicted[i]
}

/// The pool's total remaining budget for the current window.
pub open spec fn sum_budget(s: Seq<u32>) -> int
    decreases s.len(),
{
    if s.len() == 0 {
        0
    } else {
        sum_budget(s.drop_last()) + s.last()
    }
}

pub open spec fn total_remaining(m: PoolModel) -> int {
    sum_budget(m.remaining)
}

/// The offset (distance from the cursor) of the first usable credential at
/// or after `off` steps in.
pub open spec fn scan_offset(m: PoolModel, off: int) -> Option<int>
    decreases m.len() - off,
{
    if off < 0 || off >= m.len() {
        None
    } else if m.usable(m.slot(off)) {
        Some(off)
    } else {
        scan_offset(m, off + 1)
    }
}

proof fn lemma_scan_from_offset(m: PoolModel, off: int)
    requires
        m.wf(),
        0 <= off <= m.len(),
    ensures
        match scan_offset(m, off) {
            Some(o) => {
                &&& off <= o < m.len()
                &&& m.usable(m.slot(o))
                &&& scan_from(m, off) == Some(m.slot(o))
                &&& forall|k: int| off <= k < o ==> !m.usable(m.slot(k))
            },
            None => {
                &&& scan_from(m, off) is None
                &&& forall|k: int| off <= k < m.len() ==> !m.usable(m.slot(k))
            },
        },
    decreases m.len() - off,
{
    if off < m.len() && !m.usable(m.slot(off)) {
        lemma_scan_from_offset(m, off + 1);
    }
}

/// Every index is reached by some offset of the round-robin walk.
proof fn lemma_slot_covers(m: PoolModel, i: int)
    requires
        m.wf(),
        0 <= i < m.len(),
    ensures
        exists|off: int| 0 <= off < m.len() && m.slot(off) == i,
{
    if i >= m.cursor {
        assert(m.slot(i - m.cursor) == i);
    } else {
        assert(m.slot(i + m.len() - m.cursor) == i);
    }
}

proof fn lemma_sum_update(s: Seq<u32>, i: int, v: u32)
    requires
        0 <= i < s.len(),
    ensures
        sum_budget(s.update(i, v)) == sum_budget(s) - s[i] + v,
    decreases s.len(),
{
    if i == s.len() - 1 {
        assert(s.update(i, v).drop_last() =~= s.drop_last());
    } else {
        lemma_sum_update(s.drop_last(), i, v);
        assert(s.update(i, v).drop_last() =~= s.drop_last().update(i, v));
    }
}

proof fn lemma_sum_lower_bound(s: Seq<u32>, i: int)
    requires
        0 <= i < s.len(),
    ensures
        sum_budget(s) >= s[i],
    decreases s.len(),
{
    lemma_sum_nonneg(s.drop_last());
    if i < s.len() - 1 {
        lemma_sum_lower_bound(s.drop_last(), i);
        lemma_sum_nonneg(s.drop_last());
        assert(sum_budget(s) == sum_budget(s.drop_last()) + s.last());
    }
}

proof fn lemma_sum_nonneg(s: Seq<u32>)
    ensures
        sum_budget(s) >= 0,
    decreases s.len(),
{
    if s.len() > 0 {
        lemma_sum_nonneg(s.drop_last());
    }
}

proof fn lemma_sum_zero(s: Seq<u32>)
    requires
        forall|i: int| 0 <= i < s.len() ==> s[i] == 0,
    ensures
        sum_budget(s) == 0,
    decreases s.len(),
{
    if s.len() > 0 {
        lemma_sum_zero(s.drop_last());
    }
}

/// Round-robin selection law: when a credential is selected, it is the
/// usable credential nearest the rotation cursor — every slot strictly
/// between the cursor and it is exhausted or evicted — and when none is
/// selected, no credential is usable at all.
pub proof fn lemma_round_robin_selection(m: PoolModel)
    requires
        m.wf(),
    ensures
        match selected(m) {
            Some(i) => {
                &&& m.usable(i)
                &&& exists|off: int|
                    {
                        &&& 0 <= off < m.len()
                        &&& m.slot(off) == i
                        &&& forall|k: int| 0 <= k < off ==> !m.usable(#[trigger] m.slot(k))
                    }
            },
            None => forall|i: int| 0 <= i < m.len() ==> !m.usable(i),
        },
{
    lemma_scan_from_offset(m, 0);
    match scan_offset(m, 0) {
        Some(o) => {
            assert(0 <= o < m.len() && m.slot(o) == selected(m)->Some_0 && forall|k: int|
                0 <= k < o ==> !m.usable(#[trigger] m.slot(k)));
        },
        None => {
            assert forall|i: int| 0 <= i < m.len() implies !m.usable(i) by {
                lemma_slot_covers(m, i);
                let off = choose|off: int| 0 <= off < m.len() && m.slot(off) == i;
                assert(!m.usable(m.slot(off)));
            }
        },
    }
}

/// Window-reset law: once the window has elapsed, the next acquisition step
/// first restores every credential's remaining budget to its full capacity
/// and clears every eviction — including credentials evicted during the
/// prior window — and, as long as any credential has a nonzero capacity,
/// that step is granted a credential (a pool of all-zero capacities has
/// nothing to grant).
pub proof fn lemma_window_reset_restores_capacity(m: PoolModel, now: int)
    requires
        m.wf(),
        now - m.window_start >= WINDOW_SECONDS,
    ensures
        maybe_reset(m, now).remaining == m.caps,
        no_evictions(maybe_reset(m, now)),
        maybe_reset(m, now).window_start == now,
        maybe_reset(m, now).cursor == 0,
        acquire_model(m, now).0.caps == m.caps,
        (exists|i: int| 0 <= i < m.len() && m.caps[i] > 0) ==> acquire_model(m, now).1 is Granted,
{
    let m1 = maybe_reset(m, now);
    if exists|i: int| 0 <= i < m.len() && m.caps[i] > 0 {
        let w = choose|i: int| 0 <= i < m.len() && m.caps[i] > 0;
        assert(m1.usable(w));
        lemma_round_robin_selection(m1);
    }
}

/// Eviction law: an evicted credential is never selected again before the
/// window resets — even if every other credential is exhausted — and it
/// stays evicted through any mid-window acquisition step.
pub proof fn lemma_eviction_window_scoped(m: PoolModel, now: int, i: int)
    requires
        m.wf(),
        0 <= i < m.len(),
        m.evicted[i],
        now - m.window_start < WINDOW_SECONDS,
    ensures
        acquire_model(m, now).1 != AcquireDecision::Granted(i),
        acquire_model(m, now).0.evicted[i],
{
    lemma_scan_from_offset(m, 0);
}

/// Exhaustion law: with every credential evicted and the window not yet
/// elapsed, an acquisition step fails fatally rather than looping or
/// pausing.
pub proof fn lemma_pool_exhaustion_fatal(m: PoolModel, now: int)
    requires
        m.wf(),
        m.all_evicted(),
        now - m.window_start < WINDOW_SECONDS,
    ensures
        acquire_model(m, now).1 == AcquireDecision::Exhausted,
{
    lemma_scan_from_offset(m, 0);
}

/// One step of the fairness law: with no evictions and the window still
/// open, an acquisition is granted exactly when budget remains, and a grant
/// consumes exactly one unit of the pool's total budget.
pub proof fn lemma_acquire_grants_iff_budget(m: PoolModel, now: int)
    requires
        m.wf(),
        no_evictions(m),
        now - m.window_start < WINDOW_SECONDS,
    ensures
        (acquire_model(m, now).1 is Granted) <==> total_remaining(m) > 0,
        acquire_model(m, now).1 is Granted ==> {
            let m2 = acquire_model(m, now).0;
            &&& m2.wf()
            &&& no_evictions(m2)
            &&& m2.window_start == m.window_start
            &&& m2.caps == m.caps
            &&& total_remaining(m2) == total_remaining(m) - 1
        },
        !(acquire_model(m, now).1 is Granted) ==> acquire_model(m, now).1 matches
            AcquireDecision::Pause(_),
{
    lemma_round_robin_selection(m);
    match selected(m) {
        Some(i) => {
            lemma_sum_lower_bound(m.remaining, i);
            lemma_sum_update(m.remaining, i, (m.remaining[i] - 1) as u32);
        },
        None => {
            assert forall|i: int| 0 <= i < m.remaining.len() implies m.remaining[i] == 0 by {
                assert(!m.usable(i));
            }
            lemma_sum_zero(m.remaining);
            assert(!m.evicted[0]);
            assert(!m.all_evicted());
        },
    }
}

/// The pool after `k` acquisition steps, all taken at time `now`.
pub open spec fn acquire_many(m: PoolModel, now: int, k: nat) -> PoolModel
    decreases k,
{
    if k == 0 {
        m
    } else {
        acquire_many(acquire_model(m, now).0, now, (k - 1) as nat)
    }
}

/// Whether the first `k` acquisition steps are all granted.
pub open spec fn all_granted(m: PoolModel, now: int, k: nat) -> bool
    decreases k,
{
    k == 0 || (acquire_model(m, now).1 is Granted && all_granted(
        acquire_model(m, now).0,
        now,
        (k - 1) as nat,
    ))
}

/// Rotation fairness law: with `N` credentials, no errors (no evictions) and
/// the window still open, every one of the first `sum of capacities`
/// acquisitions is granted without waiting, and the very next step pauses.
/// Together with `lemma_round_robin_selection`, each grant goes to the
/// usable credential nearest the rotation cursor.
pub proof fn lemma_rotation_fairness(m: PoolModel, now: int, k: nat)
    requires
        m.wf(),
        no_evictions(m),
        now - m.window_start < WINDOW_SECONDS,
        k <= total_remaining(m),
    ensures
        all_granted(m, now, k),
        acquire_many(m, now, k).wf(),
        no_evictions(acquire_many(m, now, k)),
        acquire_many(m, now, k).window_start == m.window_start,
        total_remaining(acquire_many(m, now, k)) == total_remaining(m) - k,
        k == total_remaining(m) ==> acquire_model(acquire_many(m, now, k), now).1 matches
            AcquireDecision::Pause(_),
    decreases k,
{
    lemma_acquire_grants_iff_budget(m, now);
    if k > 0 {
        lemma_rotation_fairness(acquire_model(m, now).0, now, (k - 1) as nat);
    }
}

} // verus!
