use std::cell::RefCell;
use std::collections::BTreeSet;
use std::rc::Rc;
use thread_pool::{Claim, ThreadPool, WorkerState};

type Job = Box<dyn FnOnce()>;

/// Lets the workers take turns, in order of identifier, until each has
/// terminated; a worker runs the job it claims before its turn ends.
fn run_workers(pool: &mut ThreadPool<Job>) {
    while pool.live_workers() > 0 {
        for id in 0..pool.size() {
            let worker = pool.worker(id).unwrap();
            if worker.is_idle() {
                match pool.claim(id) {
                    Claim::Job(job) => {
                        job();
                        pool.complete(id);
                    },
                    Claim::Empty => panic!("the pool is closed"),
                    Claim::Closed => pool.exit(id),
                }
            }
        }
    }
}

/// The owner's part of teardown: close, let the workers finish, join each.
fn tear_down(pool: &mut ThreadPool<Job>) -> Vec<usize> {
    pool.close();
    run_workers(pool);
    let mut joined = Vec::new();
    while let Some(id) = pool.next_to_join() {
        assert_eq!(pool.worker(id).unwrap().state(), WorkerState::Terminated);
        pool.join(id);
        joined.push(id);
    }
    joined
}

#[test]
fn every_job_runs_exactly_once_before_teardown_ends() {
    let runs = Rc::new(RefCell::new(vec![0u32; 25]));
    let mut pool = ThreadPool::<Job>::new(3).ok().unwrap();
    for index in 0..25usize {
        let runs = Rc::clone(&runs);
        pool.execute(Box::new(move || runs.borrow_mut()[index] += 1));
    }
    assert_eq!(pool.pending(), 25);
    tear_down(&mut pool);
    assert!(pool.is_torn_down());
    assert_eq!(pool.pending(), 0);
    assert_eq!(*runs.borrow(), vec![1u32; 25]);
}

#[test]
fn submissions_from_several_callers_are_all_counted() {
    let counter = Rc::new(RefCell::new(0u32));
    let mut pool = ThreadPool::<Job>::new(4).ok().unwrap();
    let callers = 5usize;
    let each = 40usize;
    let mut served = 0usize;
    for round in 0..each {
        for caller in 0..callers {
            let counter = Rc::clone(&counter);
            pool.execute(Box::new(move || *counter.borrow_mut() += 1));
            // Between submissions, some worker takes a turn.
            let id = (round + caller) % pool.size();
            if pool.worker(id).unwrap().is_idle() {
                if let Claim::Job(job) = pool.claim(id) {
                    job();
                    pool.complete(id);
                    served += 1;
                }
            }
        }
    }
    assert_eq!(pool.pending(), callers * each - served);
    tear_down(&mut pool);
    assert_eq!(*counter.borrow(), (callers * each) as u32);
}

#[test]
fn no_worker_is_alive_after_teardown() {
    let mut pool = ThreadPool::<Job>::new(6).ok().unwrap();
    pool.execute(Box::new(|| ()));
    assert_eq!(pool.live_workers(), 6);
    let joined = tear_down(&mut pool);
    assert_eq!(joined, vec![0, 1, 2, 3, 4, 5]);
    assert_eq!(pool.live_workers(), 0);
    assert!(pool.is_torn_down());
    assert!(!pool.is_open());
    for id in 0..6 {
        let worker = pool.worker(id).unwrap();
        assert_eq!(worker.state(), WorkerState::Terminated);
        assert!(worker.is_joined());
        assert!(!worker.is_busy());
    }
}

#[test]
fn two_jobs_in_a_row_both_run() {
    let log = Rc::new(RefCell::new(Vec::new()));
    let mut pool = ThreadPool::<Job>::new(2).ok().unwrap();
    let first = Rc::clone(&log);
    pool.execute(Box::new(move || first.borrow_mut().push('A')));
    let second = Rc::clone(&log);
    pool.execute(Box::new(move || second.borrow_mut().push('B')));
    tear_down(&mut pool);
    let mut seen = log.borrow().clone();
    assert_eq!(seen.len(), 2);
    seen.sort();
    assert_eq!(seen, vec!['A', 'B']);
}

#[test]
fn four_workers_run_ten_jobs_without_gap_or_repeat() {
    let seen = Rc::new(RefCell::new(Vec::new()));
    {
        let mut pool = ThreadPool::<Job>::new(4).ok().unwrap();
        for index in 0..10u32 {
            let seen = Rc::clone(&seen);
            pool.execute(Box::new(move || seen.borrow_mut().push(index)));
        }
        tear_down(&mut pool);
        assert!(pool.is_torn_down());
    }
    let seen = seen.borrow();
    assert_eq!(seen.len(), 10);
    let distinct: BTreeSet<u32> = seen.iter().copied().collect();
    let expected: BTreeSet<u32> = (0..10).collect();
    assert_eq!(distinct, expected);
}

#[test]
fn one_worker_runs_jobs_in_the_order_submitted() {
    let order = Rc::new(RefCell::new(Vec::new()));
    let mut pool = ThreadPool::<Job>::new(1).ok().unwrap();
    for index in 0..3u32 {
        let order = Rc::clone(&order);
        pool.execute(Box::new(move || order.borrow_mut().push(index)));
    }
    tear_down(&mut pool);
    assert_eq!(*order.borrow(), vec![0, 1, 2]);
}

#[test]
fn a_pool_without_jobs_tears_down() {
    let mut pool = ThreadPool::<Job>::new(3).ok().unwrap();
    let joined = tear_down(&mut pool);
    assert_eq!(joined, vec![0, 1, 2]);
    assert!(pool.is_torn_down());
    assert_eq!(pool.live_workers(), 0);
}

#[test]
fn a_second_teardown_finds_nothing_to_do() {
    let mut pool = ThreadPool::<Job>::new(2).ok().unwrap();
    tear_down(&mut pool);
    assert!(pool.is_torn_down());
    pool.close();
    assert_eq!(pool.next_to_join(), None);
    assert!(pool.is_torn_down());
    assert_eq!(pool.live_workers(), 0);
    assert_eq!(pool.size(), 2);
}
