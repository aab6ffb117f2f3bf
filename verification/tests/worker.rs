use thread_pool::{Claim, Worker, WorkerState};

#[test]
fn a_new_worker_runs_and_waits() {
    let worker = Worker::new(7);
    assert_eq!(worker.id(), 7);
    assert_eq!(worker.state(), WorkerState::Running);
    assert!(worker.is_idle());
    assert!(worker.is_live());
    assert!(!worker.is_busy());
    assert!(!worker.is_joined());
}

#[test]
fn a_job_makes_the_worker_busy_until_it_is_done() {
    let mut worker = Worker::new(0);
    worker.observe(&Claim::Job(5u32));
    assert_eq!(worker.state(), WorkerState::Running);
    assert!(worker.is_busy());
    assert!(!worker.is_idle());
    worker.finish();
    assert!(!worker.is_busy());
    assert!(worker.is_idle());
    assert_eq!(worker.state(), WorkerState::Running);
}

#[test]
fn nothing_to_take_leaves_the_worker_as_it_is() {
    let mut worker = Worker::new(2);
    worker.observe(&Claim::<u32>::Empty);
    assert_eq!(worker.state(), WorkerState::Running);
    assert!(worker.is_idle());
}

#[test]
fn closure_takes_the_worker_through_shutdown() {
    let mut worker = Worker::new(1);
    worker.observe(&Claim::<u32>::Closed);
    assert_eq!(worker.state(), WorkerState::ShuttingDown);
    assert!(worker.is_live());
    assert!(!worker.is_idle());
    worker.exit();
    assert_eq!(worker.state(), WorkerState::Terminated);
    assert!(!worker.is_live());
    assert!(!worker.is_joined());
    worker.join();
    assert!(worker.is_joined());
    assert_eq!(worker.state(), WorkerState::Terminated);
    assert_eq!(worker.id(), 1);
}
