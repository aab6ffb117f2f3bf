//! The pool: a fixed set of workers around one queue.
//!
//! Each method is one atomic step of the pool's life. The caller's side is
//! `new`, `execute`, and at teardown `close`, then `next_to_join` and `join`
//! until every worker is joined. A worker's side is `claim` at the top of its
//! loop, `complete` after it ran the job it got, and `exit` once a claim
//! told it that the queue is closed.

use crate::error::PoolCreationError;
use crate::history::Event;
use crate::laws::lemma_step_keeps_well_formed;
use crate::model::{count, lemma_count_uniform, PoolModel};
use crate::queue::{Claim, JobQueue};
use crate::worker::{Worker, WorkerModel};
use vstd::prelude::*;

verus! {

/// A pool of a fixed number of workers that share one queue of jobs of type `J`.
pub struct ThreadPool<J> {
    workers: Vec<Worker>,
    queue: JobQueue<J>,
}

impl<J> View for ThreadPool<J> {
    type V = PoolModel<J>;

    closed spec fn view(&self) -> PoolModel<J> {
        PoolModel { workers: self.workers@.map_values(|w: Worker| w@), queue: self.queue@ }
    }
}

impl<J> ThreadPool<J> {
    /// Creates a pool of `size` workers, numbered from zero, all running and
    /// waiting on an open, empty queue.
    ///
    /// Fails with `InvalidSize` if and only if `size` is zero; nothing is
    /// built then.
    pub fn new(size: usize) -> (made: Result<ThreadPool<J>, PoolCreationError>)
        ensures
            size == 0 <==> made == Err::<ThreadPool<J>, PoolCreationError>(
                PoolCreationError::InvalidSize,
            ),
            size >= 1 <==> made is Ok,
            made matches Ok(pool) ==> {
                &&& pool@ == PoolModel::<J>::init(size as nat)
                &&& pool@.wf()
                &&& pool@.size() == size
                &&& pool@.live_workers() == size
            },
    {
        if size == 0 {
            Err(PoolCreationError::InvalidSize)
        } else {
            let mut workers: Vec<Worker> = Vec::new();
            let mut id: usize = 0;
            while id < size
                invariant
                    id <= size,
                    workers@.len() == id,
                    forall|i: int| 0 <= i < id ==> (#[trigger] workers@[i])@ == WorkerModel::fresh(i as nat),
                decreases size - id,
            {
                workers.push(Worker::new(id));
                id = id + 1;
            }
            let pool = ThreadPool { workers, queue: JobQueue::new() };
            proof {
                assert(pool@.workers =~= PoolModel::<J>::init(size as nat).workers);
                lemma_count_uniform(pool@.workers, |w: WorkerModel| w.live());
            }
            Ok(pool)
        }
    }

    /// Hands `job` to the queue, behind every job submitted before it.
    ///
    /// The pool must be open: submitting after `close` is a caller's error.
    pub fn execute(&mut self, job: J)
        requires
            old(self)@.wf(),
            old(self)@.is_open(),
        ensures
            final(self)@ == old(self)@.submit(job),
            final(self)@.wf(),
    {
        let _ = self.queue.enqueue(job);
        proof {
            lemma_step_keeps_well_formed(old(self)@, Event::Submit(job));
        }
    }

    /// One turn of worker `id`'s loop: it takes the oldest waiting job, or
    /// learns that there is none yet, or that none will come. With a job the
    /// worker becomes busy; on closure it starts to shut down.
    pub fn claim(&mut self, id: usize) -> (claim: Claim<J>)
        requires
            old(self)@.wf(),
            old(self)@.can_claim(id as int),
        ensures
            claim == old(self)@.queue.front(),
            final(self)@ == old(self)@.claim(id as int),
            final(self)@.wf(),
    {
        let claim = self.queue.claim();
        let mut worker = self.workers[id];
        worker.observe(&claim);
        self.workers.set(id, worker);
        proof {
            lemma_step_keeps_well_formed(old(self)@, Event::Claim(id as nat));
            assert(self@.workers =~= old(self)@.claim(id as int).workers);
        }
        claim
    }

    /// Worker `id` has run the job it held to the end.
    pub fn complete(&mut self, id: usize)
        requires
            old(self)@.wf(),
            old(self)@.can_complete(id as int),
        ensures
            final(self)@ == old(self)@.complete(id as int),
            final(self)@.wf(),
    {
        let mut worker = self.workers[id];
        worker.finish();
        self.workers.set(id, worker);
        proof {
            lemma_step_keeps_well_formed(old(self)@, Event::Complete(id as nat));
            assert(self@.workers =~= old(self)@.complete(id as int).workers);
        }
    }

    /// Drops the producing end: the pool accepts no further job, and workers
    /// learn of it once the queue is empty. Closing twice changes nothing.
    pub fn close(&mut self)
        requires
            old(self)@.wf(),
        ensures
            final(self)@ == old(self)@.close(),
            !old(self)@.is_open() ==> final(self)@ == old(self)@,
            final(self)@.wf(),
    {
        self.queue.close();
        proof {
            lemma_step_keeps_well_formed(old(self)@, Event::Close);
        }
    }

    /// Worker `id`, which saw the queue closed, leaves its loop and terminates.
    pub fn exit(&mut self, id: usize)
        requires
            old(self)@.wf(),
            old(self)@.can_exit(id as int),
        ensures
            final(self)@ == old(self)@.exit(id as int),
            final(self)@.wf(),
    {
        let mut worker = self.workers[id];
        worker.exit();
        self.workers.set(id, worker);
        proof {
            lemma_step_keeps_well_formed(old(self)@, Event::Exit(id as nat));
            assert(self@.workers =~= old(self)@.exit(id as int).workers);
        }
    }

    /// The worker that the owner joins next: the first, in order of
    /// identifier, whose handle has not been taken. `None` once every worker
    /// has been joined, so that a second teardown finds nothing to do.
    pub fn next_to_join(&self) -> (next: Option<usize>)
        ensures
            match next {
                Some(id) => self@.joins_next(id as int),
                None => self@.all_joined(),
            },
    {
        let mut id: usize = 0;
        while id < self.workers.len()
            invariant
                id <= self.workers@.len(),
                forall|k: int| 0 <= k < id ==> (#[trigger] self@.workers[k]).joined,
            decreases self.workers@.len() - id,
        {
            if !self.workers[id].is_joined() {
                return Some(id);
            }
            id = id + 1;
        }
        None
    }

    /// The owner takes the handle of worker `id` and joins it. A join returns
    /// only when the worker's thread has, so the worker has terminated.
    pub fn join(&mut self, id: usize)
        requires
            old(self)@.wf(),
            old(self)@.can_join(id as int),
        ensures
            final(self)@ == old(self)@.join(id as int),
            final(self)@.wf(),
    {
        let mut worker = self.workers[id];
        worker.join();
        self.workers.set(id, worker);
        proof {
            lemma_step_keeps_well_formed(old(self)@, Event::Join(id as nat));
            assert(self@.workers =~= old(self)@.join(id as int).workers);
        }
    }

    /// The number of workers.
    pub fn size(&self) -> (size: usize)
        ensures
            size == self@.size(),
    {
        self.workers.len()
    }

    /// Whether the pool accepts submissions.
    pub fn is_open(&self) -> (open: bool)
        ensures
            open == self@.is_open(),
    {
        self.queue.is_open()
    }

    /// The number of jobs that wait in the queue.
    pub fn pending(&self) -> (n: usize)
        ensures
            n == self@.queue.pending.len(),
    {
        self.queue.len()
    }

    /// Worker `id`, if the pool has one of that identifier.
    pub fn worker(&self, id: usize) -> (found: Option<Worker>)
        ensures
            match found {
                Some(w) => self@.has(id as int) && w@ == self@.workers[id as int],
                None => !self@.has(id as int),
            },
    {
        if id < self.workers.len() {
            Some(self.workers[id])
        } else {
            None
        }
    }

    /// The number of workers whose thread has not returned.
    pub fn live_workers(&self) -> (n: usize)
        ensures
            n == self@.live_workers(),
    {
        let mut n: usize = 0;
        let mut id: usize = 0;
        let ghost live = |w: WorkerModel| w.live();
        while id < self.workers.len()
            invariant
                id <= self.workers@.len(),
                n == count(self@.workers.take(id as int), live),
                n <= id,
                live == (|w: WorkerModel| w.live()),
            decreases self.workers@.len() - id,
        {
            proof {
                let upto = self@.workers.take(id as int + 1);
                assert(upto.drop_last() =~= self@.workers.take(id as int));
                assert(upto.last() == self.workers@[id as int]@);
            }
            if self.workers[id].is_live() {
                n = n + 1;
            }
            id = id + 1;
        }
        proof {
            assert(self@.workers.take(id as int) =~= self@.workers);
        }
        n
    }

    /// Whether teardown is complete: the pool is closed and every worker has
    /// been joined.
    pub fn is_torn_down(&self) -> (done: bool)
        ensures
            done == self@.torn_down(),
    {
        if self.queue.is_open() {
            false
        } else {
            self.next_to_join().is_none()
        }
    }
}

} // verus!
