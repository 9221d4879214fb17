use deathfr::key_pool::APIKey;
use deathfr::key_pool::AcquireOutcome;
use deathfr::key_pool::TornAPI;

fn keys(n: usize, capacity: u32) -> Vec<APIKey> {
    let mut v = Vec::new();
    for i in 0..n {
        v.push(APIKey {
            key: format!("secret-{}", i),
            rate_limit: capacity,
            owner: format!("owner-{}", i),
        });
    }
    v
}

fn expect_index(pool: &mut TornAPI, now: i64) -> usize {
    match pool.acquire_step(now) {
        AcquireOutcome::Acquired { index, .. } => index,
        AcquireOutcome::Wait { .. } => panic!("expected a grant, got a wait"),
        AcquireOutcome::Exhausted => panic!("expected a grant, got exhaustion"),
    }
}

#[test]
fn rotation_fairness_three_keys_capacity_two() {
    let mut pool = TornAPI::new_at(keys(3, 2), 1000);
    // Exactly 3 * 2 grants, in round-robin order, before any wait.
    let order: Vec<usize> = (0..6).map(|_| expect_index(&mut pool, 1000)).collect();
    assert_eq!(order, vec![0, 1, 2, 0, 1, 2]);
    // The seventh acquisition must wait for the window to elapse.
    match pool.acquire_step(1000) {
        AcquireOutcome::Wait { seconds } => assert_eq!(seconds, 60),
        _ => panic!("expected a wait after the budget is spent"),
    }
}

#[test]
fn rotation_skips_exhausted_credentials() {
    let mut pool = TornAPI::new_at(
        vec![
            APIKey { key: "a".to_string(), rate_limit: 1, owner: "a".to_string() },
            APIKey { key: "b".to_string(), rate_limit: 3, owner: "b".to_string() },
        ],
        0,
    );
    assert_eq!(expect_index(&mut pool, 0), 0);
    assert_eq!(expect_index(&mut pool, 0), 1);
    // Credential 0 is out of budget: the walk skips it.
    assert_eq!(expect_index(&mut pool, 0), 1);
    assert_eq!(expect_index(&mut pool, 0), 1);
}

#[test]
fn acquired_credential_carries_the_configured_secret() {
    let mut pool = TornAPI::new_at(keys(2, 1), 50);
    match pool.acquire_step(50) {
        AcquireOutcome::Acquired { key, index } => {
            assert_eq!(index, 0);
            assert_eq!(key.key, "secret-0");
            assert_eq!(key.owner, "owner-0");
        },
        _ => panic!("expected a grant"),
    }
}

#[test]
fn window_reset_restores_capacity() {
    let mut pool = TornAPI::new_at(keys(2, 1), 100);
    // Spend the window's whole budget and evict credential 0 on top.
    assert_eq!(expect_index(&mut pool, 100), 0);
    assert_eq!(expect_index(&mut pool, 100), 1);
    pool.evict(0);
    // Once the window has elapsed, every credential is whole again —
    // including the evicted one, which is selected first (cursor rewound).
    assert_eq!(expect_index(&mut pool, 161), 0);
    assert_eq!(expect_index(&mut pool, 161), 1);
}

#[test]
fn eviction_is_window_scoped() {
    let mut pool = TornAPI::new_at(keys(3, 2), 0);
    pool.evict(1);
    // The evicted credential is never selected before the reset, even as
    // the others run dry.
    assert_eq!(expect_index(&mut pool, 10), 0);
    assert_eq!(expect_index(&mut pool, 10), 2);
    assert_eq!(expect_index(&mut pool, 10), 0);
    assert_eq!(expect_index(&mut pool, 10), 2);
    match pool.acquire_step(10) {
        AcquireOutcome::Wait { seconds } => assert_eq!(seconds, 50),
        _ => panic!("expected a wait: a non-evicted credential exists, so this is not fatal"),
    }
}

#[test]
fn pool_exhaustion_is_fatal() {
    let mut pool = TornAPI::new_at(keys(2, 5), 0);
    pool.evict(0);
    pool.evict(1);
    // Every credential evicted, window still open: fatal, not a sleep loop.
    match pool.acquire_step(30) {
        AcquireOutcome::Exhausted => {},
        _ => panic!("expected fatal exhaustion"),
    }
    // After the window elapses, the pool recovers by the reset.
    assert_eq!(expect_index(&mut pool, 60), 0);
}

#[test]
fn wait_counts_down_to_the_window_end() {
    let mut pool = TornAPI::new_at(keys(1, 1), 0);
    assert_eq!(expect_index(&mut pool, 41), 0);
    match pool.acquire_step(41) {
        AcquireOutcome::Wait { seconds } => assert_eq!(seconds, 19),
        _ => panic!("expected a wait"),
    }
}
