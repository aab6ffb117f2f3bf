//! The pool as a mathematical object: its workers, its queue, and what each
//! atomic step does to them.

use crate::queue::QueueModel;
use crate::worker::WorkerModel;
use vstd::prelude::*;

verus! {

/// How many of `workers` satisfy `pick`.
pub open spec fn count(workers: Seq<WorkerModel>, pick: spec_fn(WorkerModel) -> bool) -> nat
    decreases workers.len(),
{
    if workers.len() == 0 {
        0
    } else {
        count(workers.drop_last(), pick) + if pick(workers.last()) {
            1nat
        } else {
            0nat
        }
    }
}

/// The mathematical content of a pool.
#[verifier::ext_equal]
pub struct PoolModel<J> {
    /// The workers, each at the position that is its identifier.
    pub workers: Seq<WorkerModel>,
    /// The queue that the workers share.
    pub queue: QueueModel<J>,
}

impl<J> PoolModel<J> {
    /// A pool as it is built: `size` fresh workers on an open, empty queue.
    pub open spec fn init(size: nat) -> Self {
        PoolModel {
            workers: Seq::new(size, |i: int| WorkerModel::fresh(i as nat)),
            queue: QueueModel::fresh(),
        }
    }

    /// The number of workers, fixed for the life of the pool.
    pub open spec fn size(self) -> nat {
        self.workers.len()
    }

    /// Whether `id` names a worker of this pool.
    pub open spec fn has(self, id: int) -> bool {
        0 <= id < self.workers.len()
    }

    /// What holds of every pool that was built and then stepped: it has at
    /// least one worker, each worker is well-formed and sits at its
    /// identifier, and a worker has left the running state only after it saw
    /// the queue closed and empty, which the queue then stays.
    pub open spec fn wf(self) -> bool {
        &&& self.workers.len() >= 1
        &&& forall|i: int|
            0 <= i < self.workers.len() ==> (#[trigger] self.workers[i]).wf() && self.workers[i].id
                == i
        &&& forall|i: int|
            0 <= i < self.workers.len() && !((#[trigger] self.workers[i]).state is Running)
                ==> self.queue.drained()
    }

    /// The pool accepts submissions.
    pub open spec fn is_open(self) -> bool {
        self.queue.open
    }

    /// Worker `id` is at the top of its loop and may claim.
    pub open spec fn can_claim(self, id: int) -> bool {
        self.has(id) && self.workers[id].idle()
    }

    /// Worker `id` holds a job and may finish it.
    pub open spec fn can_complete(self, id: int) -> bool {
        self.has(id) && self.workers[id].busy
    }

    /// Worker `id` has seen closure and may terminate.
    pub open spec fn can_exit(self, id: int) -> bool {
        self.has(id) && self.workers[id].state is ShuttingDown
    }

    /// Worker `id` has terminated and its handle has not been taken: a join
    /// on it returns.
    pub open spec fn can_join(self, id: int) -> bool {
        self.has(id) && self.workers[id].state is Terminated && !self.workers[id].joined
    }

    /// The pool after `job` was submitted.
    pub open spec fn submit(self, job: J) -> Self {
        PoolModel { workers: self.workers, queue: self.queue.with(job) }
    }

    /// The pool after worker `id` made one claim: the queue lost its oldest
    /// job, if it had one, and the worker took note of what it got.
    pub open spec fn claim(self, id: int) -> Self {
        PoolModel {
            workers: self.workers.update(id, self.workers[id].observed(self.queue.front())),
            queue: self.queue.after_claim(),
        }
    }

    /// The pool after worker `id` finished its job.
    pub open spec fn complete(self, id: int) -> Self {
        PoolModel { workers: self.workers.update(id, self.workers[id].finished()), queue: self.queue }
    }

    /// The pool after its producing end was dropped.
    pub open spec fn close(self) -> Self {
        PoolModel { workers: self.workers, queue: self.queue.shut() }
    }

    /// The pool after worker `id` terminated.
    pub open spec fn exit(self, id: int) -> Self {
        PoolModel { workers: self.workers.update(id, self.workers[id].exited()), queue: self.queue }
    }

    /// The pool after the owner joined worker `id`.
    pub open spec fn join(self, id: int) -> Self {
        PoolModel { workers: self.workers.update(id, self.workers[id].reaped()), queue: self.queue }
    }

    /// The number of workers whose thread has not returned.
    pub open spec fn live_workers(self) -> nat {
        count(self.workers, |w: WorkerModel| w.live())
    }

    /// The number of workers that hold an unfinished job.
    pub open spec fn busy_workers(self) -> nat {
        count(self.workers, |w: WorkerModel| w.busy)
    }

    /// Worker `id` is the one the owner joins next: the first, in order of
    /// identifier, that has not been joined.
    pub open spec fn joins_next(self, id: int) -> bool {
        &&& self.has(id)
        &&& !self.workers[id].joined
        &&& forall|k: int| 0 <= k < id ==> (#[trigger] self.workers[k]).joined
    }

    /// The owner has joined every worker.
    pub open spec fn all_joined(self) -> bool {
        forall|k: int| 0 <= k < self.workers.len() ==> (#[trigger] self.workers[k]).joined
    }

    /// Teardown is complete: the producing end is gone and every worker has
    /// been joined.
    pub open spec fn torn_down(self) -> bool {
        !self.queue.open && self.all_joined()
    }

    /// The number of steps that workers and owner have yet to take before
    /// teardown is complete, once the pool is closed: two for each waiting job
    /// (its claim and its completion), one for each job in progress, and for
    /// each worker what is left of seeing closure, terminating and being
    /// joined.
    pub open spec fn steps_to_teardown(self) -> nat {
        2 * self.queue.pending.len() + self.busy_workers() + 3 * count(
            self.workers,
            |w: WorkerModel| w.state is Running,
        ) + 2 * count(self.workers, |w: WorkerModel| w.state is ShuttingDown) + count(
            self.workers,
            |w: WorkerModel| w.state is Terminated && !w.joined,
        )
    }
}

/// Counting is unchanged by replacing a worker with one that `pick` judges alike.
pub proof fn lemma_count_update(
    workers: Seq<WorkerModel>,
    pick: spec_fn(WorkerModel) -> bool,
    id: int,
    worker: WorkerModel,
)
    requires
        0 <= id < workers.len(),
    ensures
        count(workers.update(id, worker), pick) + (if pick(workers[id]) {
            1nat
        } else {
            0nat
        }) == count(workers, pick) + (if pick(worker) {
            1nat
        } else {
            0nat
        }),
    decreases workers.len(),
{
    let updated = workers.update(id, worker);
    if id == workers.len() - 1 {
        assert(updated.drop_last() =~= workers.drop_last());
    } else {
        assert(updated.drop_last() =~= workers.drop_last().update(id, worker));
        lemma_count_update(workers.drop_last(), pick, id, worker);
    }
}

/// Where `pick` holds of every worker, all are counted; where of none, none.
pub proof fn lemma_count_uniform(workers: Seq<WorkerModel>, pick: spec_fn(WorkerModel) -> bool)
    ensures
        (forall|i: int| 0 <= i < workers.len() ==> pick(#[trigger] workers[i])) ==> count(
            workers,
            pick,
        ) == workers.len(),
        (forall|i: int| 0 <= i < workers.len() ==> !pick(#[trigger] workers[i])) ==> count(
            workers,
            pick,
        ) == 0,
        count(workers, pick) <= workers.len(),
    decreases workers.len(),
{
    if workers.len() > 0 {
        lemma_count_uniform(workers.drop_last(), pick);
        assert(forall|i: int|
            0 <= i < workers.drop_last().len() ==> workers.drop_last()[i] == workers[i]);
    }
}

} // verus!
