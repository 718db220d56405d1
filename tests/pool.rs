use sui_indexer::error::{ErrorKind, IndexerError};
use sui_indexer::pool::{
    retry_after_pool_error, AcquireOutcome, PoolLedger, DEFAULT_POOL_SIZE, NO_FREE_CONNECTION,
};
use sui_indexer::retry::{RetryPolicy, RetryRun};

fn short_policy() -> RetryPolicy {
    RetryPolicy {
        initial_interval_ms: 10,
        multiplier_pct: 200,
        max_interval_ms: 100,
        max_elapsed_ms: Some(50),
    }
}

#[test]
fn default_pool_size_is_ten() {
    let l = PoolLedger::with_default_size();
    assert_eq!(DEFAULT_POOL_SIZE, 10);
    assert_eq!(l.max_size_of(), 10);
    assert_eq!(l.lent_count(), 0);
}

#[test]
fn more_borrowers_than_connections_never_exceed_the_size() {
    let mut l = PoolLedger::new(3);
    let mut leases = Vec::new();
    let mut refused = 0;
    for _ in 0..7 {
        match l.try_acquire() {
            Some(lease) => leases.push(lease),
            None => refused += 1,
        }
        assert!(l.lent_count() <= 3);
    }
    assert_eq!(leases.len(), 3);
    assert_eq!(refused, 4);
    assert_eq!(l.lent_count(), 3);
}

#[test]
fn released_connection_goes_to_the_next_borrower() {
    let mut l = PoolLedger::new(1);
    let first = l.try_acquire().expect("a free connection");
    assert!(l.try_acquire().is_none());
    l.release(first);
    assert_eq!(l.lent_count(), 0);
    assert!(l.try_acquire().is_some());
}

#[test]
fn lease_is_returned_on_success_and_on_failure() {
    let mut l = PoolLedger::new(2);
    let a = l.try_acquire().unwrap();
    let ok: Result<u32, IndexerError> = l.release_after(a, Ok(7));
    assert_eq!(ok.unwrap(), 7);
    assert_eq!(l.lent_count(), 0);

    let b = l.try_acquire().unwrap();
    let failed: Result<u32, IndexerError> =
        l.release_after(b, Err(IndexerError::PgPoolConnectionError("query failed".to_string())));
    let e = failed.unwrap_err();
    assert_eq!(e.kind(), ErrorKind::PgPoolConnection);
    assert_eq!(e.detail(), "query failed");
    assert_eq!(l.lent_count(), 0);
}

#[test]
fn second_borrower_waits_until_the_first_releases() {
    let mut l = PoolLedger::new(1);
    let mut first_run = RetryRun::new(short_policy());
    let first = match l.acquire_attempt(&mut first_run, 0) {
        AcquireOutcome::Acquired(lease) => lease,
        _ => panic!("the pool was empty"),
    };
    let mut run = RetryRun::new(short_policy());
    match l.acquire_attempt(&mut run, 0) {
        AcquireOutcome::Wait(w) => assert_eq!(w, 10),
        _ => panic!("the second borrower must wait"),
    }
    l.release(first);
    match l.acquire_attempt(&mut run, 10) {
        AcquireOutcome::Acquired(_) => {}
        _ => panic!("the released connection must be lent"),
    }
    assert_eq!(l.lent_count(), 1);
}

#[test]
fn acquisition_gives_up_with_pool_connection_error() {
    let mut l = PoolLedger::new(1);
    let _held = l.try_acquire().unwrap();
    let mut run = RetryRun::new(short_policy());
    let mut elapsed = 0;
    let mut waits = Vec::new();
    loop {
        match l.acquire_attempt(&mut run, elapsed) {
            AcquireOutcome::Wait(w) => {
                waits.push(w);
                elapsed += w;
            }
            AcquireOutcome::Failed(e) => {
                assert_eq!(e.kind(), ErrorKind::PgPoolConnection);
                assert_eq!(e.detail(), NO_FREE_CONNECTION);
                assert_eq!(
                    e.message(),
                    "Failed to get pool connection from PG connection pool with error: no free connection"
                );
                break;
            }
            AcquireOutcome::Acquired(_) => panic!("the pool is full"),
        }
    }
    assert_eq!(waits, vec![10, 20]);
    assert_eq!(l.lent_count(), 1);
}

#[test]
fn pool_error_carries_the_last_cause() {
    let mut run = RetryRun::new(short_policy());
    assert_eq!(retry_after_pool_error(&mut run, 0, "timed out".to_string()).unwrap(), 10);
    let e = retry_after_pool_error(&mut run, 45, "timed out again".to_string()).unwrap_err();
    assert_eq!(e.kind(), ErrorKind::PgPoolConnection);
    assert_eq!(e.detail(), "timed out again");
    assert_eq!(
        e.message(),
        "Failed to get pool connection from PG connection pool with error: timed out again"
    );
}

#[test]
fn empty_pool_lends_nothing() {
    let mut l = PoolLedger::new(0);
    assert!(l.try_acquire().is_none());
    assert_eq!(l.lent_count(), 0);
}

#[test]
fn borrow_gets_a_free_connection_or_gives_up() {
    let mut l = PoolLedger::new(1);
    assert!(l.borrow(short_policy()).is_ok());
    assert_eq!(l.lent_count(), 1);
    let e = l.borrow(short_policy()).err().unwrap();
    assert_eq!(e.kind(), ErrorKind::PgPoolConnection);
    assert_eq!(e.detail(), "no free connection");
    assert_eq!(l.lent_count(), 1);
}

#[test]
fn borrowers_beyond_the_size_end_with_pool_connection_error() {
    let mut l = PoolLedger::new(3);
    let results = l.serve_borrowers(5, short_policy());
    assert_eq!(results.len(), 5);
    assert!(results[..3].iter().all(|r| r.is_ok()));
    for r in &results[3..] {
        match r {
            Err(e) => assert_eq!(e.kind(), ErrorKind::PgPoolConnection),
            Ok(_) => panic!("more lent than the pool holds"),
        }
    }
    assert_eq!(l.lent_count(), 3);
}

#[test]
fn fewer_borrowers_than_connections_all_succeed() {
    let mut l = PoolLedger::new(4);
    let results = l.serve_borrowers(2, short_policy());
    assert!(results.iter().all(|r| r.is_ok()));
    assert_eq!(l.lent_count(), 2);
}
