use exercises::pool::{PoolCreationError, ThreadPool};

#[test]
fn build_positive_sizes_yield_live_workers() {
    for size in 1..6usize {
        let pool = ThreadPool::build(size).unwrap();
        assert_eq!(pool.workers.len(), size);
        assert!(pool.workers.iter().all(|w| w.live));
        assert!(pool.sender_open);
        assert!(pool.pending.is_empty());
        assert!(pool.executed.is_empty());
    }
}

#[test]
fn build_zero_is_empty_pool() {
    let r = ThreadPool::build(0);
    assert!(matches!(r, Err(PoolCreationError::EmptyPool)));
}

#[test]
fn every_submitted_job_executes_exactly_once() {
    let mut pool = ThreadPool::build(3).unwrap();
    let ids: Vec<u128> = (1..=10u128).collect();
    for id in &ids {
        assert!(pool.execute(*id));
    }
    pool.teardown();
    assert_eq!(pool.executed, ids);
    for id in &ids {
        assert_eq!(pool.executed.iter().filter(|e| *e == id).count(), 1);
    }
}

#[test]
fn panicking_job_leaves_workers_alive() {
    // Pool of two; job 2 aborts inside its body; jobs 1 and 3 still run and
    // both workers survive.
    let mut pool = ThreadPool::build(2).unwrap();
    assert!(pool.execute(1));
    assert!(pool.execute(2));
    assert!(pool.execute(3));
    assert_eq!(pool.step_worker(0, false), Some(1));
    assert_eq!(pool.step_worker(1, true), Some(2));
    assert_eq!(pool.step_worker(0, false), Some(3));
    assert_eq!(pool.workers.len(), 2);
    assert!(pool.workers[0].live);
    assert!(pool.workers[1].live);
    assert_eq!(pool.executed, vec![1, 2, 3]);
    assert_eq!(pool.workers[0].completed, vec![1, 3]);
    assert_eq!(pool.workers[1].completed, vec![2]);
    pool.teardown();
    assert!(!pool.workers[0].live);
    assert!(!pool.workers[1].live);
}

#[test]
fn teardown_waits_for_queued_jobs() {
    let mut pool = ThreadPool::build(2).unwrap();
    for id in 1..=4u128 {
        assert!(pool.execute(id));
    }
    pool.teardown();
    assert!(pool.pending.is_empty());
    assert_eq!(pool.executed.len(), 4);
    assert!(pool.workers.iter().all(|w| !w.live));
}

#[test]
fn submit_after_teardown_never_runs() {
    let mut pool = ThreadPool::build(2).unwrap();
    assert!(pool.execute(7));
    pool.teardown();
    assert!(!pool.execute(99));
    assert!(!pool.pending.contains(&99));
    pool.teardown();
    assert!(!pool.executed.contains(&99));
    assert_eq!(pool.executed, vec![7]);
}

#[test]
fn single_worker_runs_in_submission_order() {
    let mut pool = ThreadPool::build(1).unwrap();
    for id in [11u128, 12, 13, 14, 15] {
        assert!(pool.execute(id));
    }
    pool.teardown();
    assert_eq!(pool.workers[0].completed, vec![11, 12, 13, 14, 15]);
    for id in [11u128, 12, 13, 14, 15] {
        assert_eq!(
            pool.workers[0].completed.iter().filter(|e| **e == id).count(),
            1
        );
    }
}
