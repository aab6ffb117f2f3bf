use thread_pool::{Claim, ThreadPool, WorkerState};

#[test]
fn jobs_are_claimed_in_submission_order_by_whoever_asks() {
    let mut pool = ThreadPool::new(3).ok().unwrap();
    for job in [11u32, 22, 33, 44] {
        pool.execute(job);
    }
    assert!(matches!(pool.claim(2), Claim::Job(11)));
    assert!(matches!(pool.claim(0), Claim::Job(22)));
    pool.complete(2);
    assert!(matches!(pool.claim(2), Claim::Job(33)));
    assert!(matches!(pool.claim(1), Claim::Job(44)));
    assert_eq!(pool.pending(), 0);
}

#[test]
fn a_claim_on_an_empty_open_pool_changes_nothing() {
    let mut pool = ThreadPool::<u32>::new(2).ok().unwrap();
    assert!(matches!(pool.claim(1), Claim::Empty));
    let worker = pool.worker(1).unwrap();
    assert_eq!(worker.state(), WorkerState::Running);
    assert!(worker.is_idle());
    assert!(pool.is_open());
    assert_eq!(pool.pending(), 0);
    assert_eq!(pool.live_workers(), 2);
}

#[test]
fn a_claim_makes_only_the_claimant_busy() {
    let mut pool = ThreadPool::new(3).ok().unwrap();
    pool.execute(1u32);
    assert!(matches!(pool.claim(1), Claim::Job(1)));
    assert!(pool.worker(1).unwrap().is_busy());
    assert!(pool.worker(0).unwrap().is_idle());
    assert!(pool.worker(2).unwrap().is_idle());
    pool.complete(1);
    assert!(pool.worker(1).unwrap().is_idle());
}

#[test]
fn jobs_submitted_before_closure_are_still_handed_out() {
    let mut pool = ThreadPool::new(2).ok().unwrap();
    pool.execute(5u32);
    pool.execute(6u32);
    pool.close();
    assert!(!pool.is_open());
    assert_eq!(pool.pending(), 2);
    assert!(matches!(pool.claim(0), Claim::Job(5)));
    assert!(matches!(pool.claim(1), Claim::Job(6)));
    pool.complete(0);
    assert!(matches!(pool.claim(0), Claim::Closed));
    assert_eq!(pool.worker(0).unwrap().state(), WorkerState::ShuttingDown);
    assert_eq!(pool.worker(1).unwrap().state(), WorkerState::Running);
    assert!(pool.worker(1).unwrap().is_busy());
}

#[test]
fn live_workers_fall_as_workers_terminate() {
    let mut pool = ThreadPool::<u32>::new(3).ok().unwrap();
    pool.close();
    assert_eq!(pool.live_workers(), 3);
    assert!(matches!(pool.claim(1), Claim::Closed));
    assert_eq!(pool.live_workers(), 3);
    pool.exit(1);
    assert_eq!(pool.live_workers(), 2);
    assert!(matches!(pool.claim(0), Claim::Closed));
    pool.exit(0);
    assert_eq!(pool.live_workers(), 1);
    assert!(matches!(pool.claim(2), Claim::Closed));
    pool.exit(2);
    assert_eq!(pool.live_workers(), 0);
    assert!(!pool.is_torn_down());
}

#[test]
fn workers_are_joined_in_order_of_identifier() {
    let mut pool = ThreadPool::<u32>::new(3).ok().unwrap();
    pool.close();
    for id in [2usize, 0, 1] {
        assert!(matches!(pool.claim(id), Claim::Closed));
        pool.exit(id);
    }
    assert_eq!(pool.next_to_join(), Some(0));
    pool.join(0);
    assert_eq!(pool.next_to_join(), Some(1));
    assert!(!pool.is_torn_down());
    pool.join(1);
    assert_eq!(pool.next_to_join(), Some(2));
    pool.join(2);
    assert_eq!(pool.next_to_join(), None);
    assert!(pool.is_torn_down());
}

#[test]
fn the_owner_waits_for_the_lowest_worker_even_if_others_are_done() {
    let mut pool = ThreadPool::new(2).ok().unwrap();
    pool.execute(9u32);
    assert!(matches!(pool.claim(0), Claim::Job(9)));
    pool.close();
    assert!(matches!(pool.claim(1), Claim::Closed));
    pool.exit(1);
    assert_eq!(pool.next_to_join(), Some(0));
    assert_eq!(pool.worker(0).unwrap().state(), WorkerState::Running);
    pool.complete(0);
    assert!(matches!(pool.claim(0), Claim::Closed));
    pool.exit(0);
    pool.join(0);
    assert_eq!(pool.next_to_join(), Some(1));
    pool.join(1);
    assert!(pool.is_torn_down());
}

#[test]
fn closing_a_closed_pool_changes_nothing() {
    let mut pool = ThreadPool::new(1).ok().unwrap();
    pool.execute(3u32);
    pool.close();
    pool.close();
    assert!(!pool.is_open());
    assert_eq!(pool.pending(), 1);
    assert_eq!(pool.live_workers(), 1);
    assert!(matches!(pool.claim(0), Claim::Job(3)));
}

#[test]
fn a_closed_pool_with_unjoined_workers_is_not_torn_down() {
    let mut pool = ThreadPool::<u32>::new(1).ok().unwrap();
    assert!(!pool.is_torn_down());
    pool.close();
    assert!(!pool.is_torn_down());
    assert!(matches!(pool.claim(0), Claim::Closed));
    pool.exit(0);
    assert!(!pool.is_torn_down());
    pool.join(0);
    assert!(pool.is_torn_down());
}
