//! What holds of every pool, whatever the interleaving of its steps.

use crate::history::{completed, delivered, run, submitted, valid, Event};
use crate::model::{count, lemma_count_uniform, lemma_count_update, PoolModel};
use crate::worker::WorkerModel;
use vstd::prelude::*;

verus! {

/// A pool of at least one worker is well-formed as it is built, with every
/// worker live and none busy.
pub proof fn lemma_init_well_formed<J>(size: nat)
    requires
        size >= 1,
    ensures
        PoolModel::<J>::init(size).wf(),
        PoolModel::<J>::init(size).size() == size,
        PoolModel::<J>::init(size).live_workers() == size,
        PoolModel::<J>::init(size).busy_workers() == 0,
        PoolModel::<J>::init(size).is_open(),
{
    let pool = PoolModel::<J>::init(size);
    lemma_count_uniform(pool.workers, |w: WorkerModel| w.live());
    lemma_count_uniform(pool.workers, |w: WorkerModel| w.busy);
}

/// A step that is possible keeps a well-formed pool well-formed, and never
/// changes the number of workers.
pub proof fn lemma_step_keeps_well_formed<J>(pool: PoolModel<J>, event: Event<J>)
    requires
        pool.wf(),
        pool.enabled(event),
    ensures
        pool.step(event).wf(),
        pool.step(event).size() == pool.size(),
{
    let next = pool.step(event);
    assert forall|i: int| 0 <= i < next.workers.len() implies (#[trigger] next.workers[i]).wf()
        && next.workers[i].id == i by {
        assert(pool.workers[i].wf());
    }
    assert forall|i: int|
        0 <= i < next.workers.len() && !((#[trigger] next.workers[i]).state
            is Running) implies next.queue.drained() by {
        match event {
            Event::Submit(_) => {
                assert(pool.workers[i].state is Running);
            },
            Event::Claim(id) => {
                if i != id {
                    assert(!(pool.workers[i].state is Running));
                }
            },
            Event::Complete(_) | Event::Close => {
                assert(!(pool.workers[i].state is Running));
            },
            Event::Exit(id) | Event::Join(id) => {
                assert(!(pool.workers[id as int].state is Running));
            },
        }
    }
}

/// A history of possible steps leads from a well-formed pool to a well-formed
/// pool of the same size.
pub proof fn lemma_run_keeps_well_formed<J>(start: PoolModel<J>, history: Seq<Event<J>>)
    requires
        start.wf(),
        valid(start, history),
    ensures
        run(start, history).wf(),
        run(start, history).size() == start.size(),
    decreases history.len(),
{
    if history.len() > 0 {
        lemma_run_keeps_well_formed(start, history.drop_last());
        lemma_step_keeps_well_formed(run(start, history.drop_last()), history.last());
    }
}

/// The queue is first in, first out, and loses nothing: what waited at the
/// start followed by what was submitted since is what was handed to workers
/// followed by what still waits, job for job and in that order.
pub proof fn lemma_queue_conserves_jobs<J>(start: PoolModel<J>, history: Seq<Event<J>>)
    ensures
        start.queue.pending + submitted(history) == delivered(start, history) + run(
            start,
            history,
        ).queue.pending,
    decreases history.len(),
{
    if history.len() == 0 {
        assert(start.queue.pending + submitted(history) =~= delivered(start, history) + run(
            start,
            history,
        ).queue.pending);
    } else {
        let earlier = history.drop_last();
        let waited = start.queue.pending;
        let sent = submitted(earlier);
        let taken = delivered(start, earlier);
        let waiting = run(start, earlier).queue.pending;
        lemma_queue_conserves_jobs(start, earlier);
        match history.last() {
            Event::Submit(job) => {
                assert(waited + sent.push(job) =~= (waited + sent).push(job));
                assert(taken + waiting.push(job) =~= (taken + waiting).push(job));
            },
            Event::Claim(_) => {
                if waiting.len() > 0 {
                    assert(taken.push(waiting[0]) + waiting.subrange(1, waiting.len() as int)
                        =~= taken + waiting);
                }
            },
            _ => {},
        }
    }
}

/// Every job handed to a worker is either finished or still held by a busy
/// worker: the jobs handed out, together with those held at the start, are as
/// many as the jobs finished together with the workers now busy.
pub proof fn lemma_claimed_jobs_are_held_or_finished<J>(
    start: PoolModel<J>,
    history: Seq<Event<J>>,
)
    requires
        start.wf(),
        valid(start, history),
    ensures
        delivered(start, history).len() + start.busy_workers() == completed(history) + run(
            start,
            history,
        ).busy_workers(),
    decreases history.len(),
{
    if history.len() > 0 {
        let earlier = history.drop_last();
        let before = run(start, earlier);
        let event = history.last();
        let busy = |w: WorkerModel| w.busy;
        lemma_claimed_jobs_are_held_or_finished(start, earlier);
        lemma_run_keeps_well_formed(start, earlier);
        match event {
            Event::Submit(_) | Event::Close => {},
            Event::Claim(id) => {
                lemma_count_update(
                    before.workers,
                    busy,
                    id as int,
                    before.workers[id as int].observed(before.queue.front()),
                );
            },
            Event::Complete(id) => {
                lemma_count_update(before.workers, busy, id as int, before.workers[id as int].finished());
            },
            Event::Exit(id) => {
                lemma_count_update(before.workers, busy, id as int, before.workers[id as int].exited());
            },
            Event::Join(id) => {
                lemma_count_update(before.workers, busy, id as int, before.workers[id as int].reaped());
            },
        }
    }
}

/// Once teardown is complete no worker is alive, none holds a job, and
/// nothing waits in the queue: the owner's joins returned only after every
/// worker's thread had.
pub proof fn lemma_teardown_leaves_nothing_behind<J>(pool: PoolModel<J>)
    requires
        pool.wf(),
        pool.torn_down(),
    ensures
        pool.live_workers() == 0,
        pool.busy_workers() == 0,
        pool.queue.drained(),
        forall|i: int| 0 <= i < pool.workers.len() ==> (#[trigger] pool.workers[i]).state is Terminated,
{
    assert forall|i: int| 0 <= i < pool.workers.len() implies (#[trigger] pool.workers[i]).state
        is Terminated by {
        assert(pool.workers[i].joined);
        assert(pool.workers[i].wf());
    }
    assert(!(pool.workers[0].state is Running));
    lemma_count_uniform(pool.workers, |w: WorkerModel| w.live());
    lemma_count_uniform(pool.workers, |w: WorkerModel| w.busy);
}

/// Every job submitted to a pool is run exactly once before teardown
/// completes. In any history that leads from a new pool to a torn-down one,
/// the jobs handed to workers are the jobs submitted, each once and in the
/// order of submission, and each of them was run to the end.
pub proof fn lemma_every_job_runs_once<J>(size: nat, history: Seq<Event<J>>)
    requires
        size >= 1,
        valid(PoolModel::<J>::init(size), history),
        run(PoolModel::<J>::init(size), history).torn_down(),
    ensures
        delivered(PoolModel::<J>::init(size), history) == submitted(history),
        completed(history) == submitted(history).len(),
{
    let start = PoolModel::<J>::init(size);
    let end = run(start, history);
    lemma_init_well_formed::<J>(size);
    lemma_run_keeps_well_formed(start, history);
    lemma_teardown_leaves_nothing_behind(end);
    lemma_queue_conserves_jobs(start, history);
    lemma_claimed_jobs_are_held_or_finished(start, history);
    assert(start.queue.pending + submitted(history) =~= submitted(history));
    assert(delivered(start, history) + end.queue.pending =~= delivered(start, history));
}

/// However the submissions of several callers and the claims of several
/// workers interleave, no job is lost and none is duplicated: once teardown
/// is complete, each job was handed to workers as many times as it was
/// submitted.
pub proof fn lemma_no_job_lost_or_duplicated<J>(size: nat, history: Seq<Event<J>>, job: J)
    requires
        size >= 1,
        valid(PoolModel::<J>::init(size), history),
        run(PoolModel::<J>::init(size), history).torn_down(),
    ensures
        delivered(PoolModel::<J>::init(size), history).to_multiset().count(job) == submitted(
            history,
        ).to_multiset().count(job),
        delivered(PoolModel::<J>::init(size), history).len() == submitted(history).len(),
{
    lemma_every_job_runs_once(size, history);
}

/// Jobs are claimed in the order in which they were submitted. At every
/// moment the jobs handed to workers so far are the first of the jobs
/// submitted so far, so of two jobs the one submitted later is never claimed
/// before the other, and whenever it has been claimed, so has the other.
pub proof fn lemma_claims_follow_submissions<J>(size: nat, history: Seq<Event<J>>)
    requires
        size >= 1,
    ensures
        delivered(PoolModel::<J>::init(size), history).len() <= submitted(history).len(),
        forall|i: int|
            0 <= i < delivered(PoolModel::<J>::init(size), history).len() ==> (#[trigger] delivered(
                PoolModel::<J>::init(size),
                history,
            )[i]) == submitted(history)[i],
{
    let start = PoolModel::<J>::init(size);
    lemma_queue_conserves_jobs(start, history);
    let all = delivered(start, history) + run(start, history).queue.pending;
    assert(start.queue.pending + submitted(history) =~= submitted(history));
    assert(all == submitted(history));
    assert forall|i: int| 0 <= i < delivered(start, history).len() implies (#[trigger] delivered(
        start,
        history,
    )[i]) == submitted(history)[i] by {
        assert(all[i] == delivered(start, history)[i]);
    }
}

/// A worker that has left the running state never runs again, and one that
/// has terminated stays terminated.
pub proof fn lemma_stopped_workers_stay_stopped<J>(
    start: PoolModel<J>,
    history: Seq<Event<J>>,
    id: int,
)
    requires
        start.wf(),
        valid(start, history),
        start.has(id),
    ensures
        run(start, history).has(id),
        !(start.workers[id].state is Running) ==> !(run(start, history).workers[id].state
            is Running),
        start.workers[id].state is Terminated ==> run(start, history).workers[id].state
            is Terminated,
        start.workers[id].joined ==> run(start, history).workers[id].joined,
    decreases history.len(),
{
    if history.len() > 0 {
        let before = run(start, history.drop_last());
        lemma_stopped_workers_stay_stopped(start, history.drop_last(), id);
        lemma_run_keeps_well_formed(start, history.drop_last());
        assert(before.workers[id].wf());
    }
}

/// Once the pool is closed it stays closed, and nothing more is submitted.
pub proof fn lemma_closed_pool_stays_closed<J>(start: PoolModel<J>, history: Seq<Event<J>>)
    requires
        !start.is_open(),
        valid(start, history),
    ensures
        !run(start, history).is_open(),
        submitted(history).len() == 0,
    decreases history.len(),
{
    if history.len() > 0 {
        lemma_closed_pool_stays_closed(start, history.drop_last());
    }
}

/// Teardown never stalls: in a closed pool, every worker that has not been
/// joined has a step to take, or a step is ready to be taken on it. An idle
/// worker can claim, a busy one can finish its job, one that saw closure can
/// terminate, and one that terminated can be joined.
pub proof fn lemma_teardown_never_stalls<J>(pool: PoolModel<J>, id: nat)
    requires
        pool.wf(),
        !pool.is_open(),
        pool.has(id as int),
        !pool.workers[id as int].joined,
    ensures
        pool.enabled(Event::Claim(id)) || pool.enabled(Event::Complete(id)) || pool.enabled(
            Event::Exit(id),
        ) || pool.enabled(Event::Join(id)),
{
}

/// Teardown is finite, and as long as the work it finds. In a closed pool
/// each step of a worker or of the owner brings teardown exactly one step
/// nearer, whichever step it is and whoever takes it.
pub proof fn lemma_each_step_nears_teardown<J>(pool: PoolModel<J>, event: Event<J>)
    requires
        pool.wf(),
        !pool.is_open(),
        pool.enabled(event),
        !(event is Close),
    ensures
        !pool.step(event).is_open(),
        pool.step(event).steps_to_teardown() + 1 == pool.steps_to_teardown(),
{
    match event {
        Event::Submit(_) | Event::Close => {},
        Event::Claim(id) => {
            lemma_tallies_after_update(
                pool.workers,
                id as int,
                pool.workers[id as int].observed(pool.queue.front()),
            );
        },
        Event::Complete(id) => {
            assert(pool.workers[id as int].wf());
            lemma_tallies_after_update(pool.workers, id as int, pool.workers[id as int].finished());
        },
        Event::Exit(id) => {
            assert(pool.workers[id as int].wf());
            lemma_tallies_after_update(pool.workers, id as int, pool.workers[id as int].exited());
        },
        Event::Join(id) => {
            assert(pool.workers[id as int].wf());
            lemma_tallies_after_update(pool.workers, id as int, pool.workers[id as int].reaped());
        },
    }
}

/// Teardown takes exactly the steps that are left, in whatever order workers
/// and owner take them: the steps taken since the pool was closed and the
/// steps still to take add up to the steps that were left at the start.
pub proof fn lemma_teardown_takes_the_steps_left<J>(start: PoolModel<J>, history: Seq<Event<J>>)
    requires
        start.wf(),
        !start.is_open(),
        valid(start, history),
        forall|i: int| 0 <= i < history.len() ==> !((#[trigger] history[i]) is Close),
    ensures
        history.len() + run(start, history).steps_to_teardown() == start.steps_to_teardown(),
    decreases history.len(),
{
    if history.len() > 0 {
        let earlier = history.drop_last();
        assert(!(history[history.len() - 1] is Close));
        assert forall|i: int| 0 <= i < earlier.len() implies !((#[trigger] earlier[i]) is Close) by {
            assert(earlier[i] == history[i]);
        }
        lemma_teardown_takes_the_steps_left(start, earlier);
        lemma_run_keeps_well_formed(start, earlier);
        lemma_closed_pool_stays_closed(start, earlier);
        lemma_each_step_nears_teardown(run(start, earlier), history.last());
    }
}

/// A closed pool is torn down exactly when no step is left to take.
pub proof fn lemma_teardown_complete_when_no_step_left<J>(pool: PoolModel<J>)
    requires
        pool.wf(),
        !pool.is_open(),
    ensures
        pool.torn_down() <==> pool.steps_to_teardown() == 0,
{
    let running = |w: WorkerModel| w.state is Running;
    let stopping = |w: WorkerModel| w.state is ShuttingDown;
    let unjoined = |w: WorkerModel| w.state is Terminated && !w.joined;
    if pool.torn_down() {
        lemma_teardown_leaves_nothing_behind(pool);
        lemma_count_uniform(pool.workers, running);
        lemma_count_uniform(pool.workers, stopping);
        lemma_count_uniform(pool.workers, unjoined);
    }
    if pool.steps_to_teardown() == 0 {
        assert forall|k: int| 0 <= k < pool.workers.len() implies (#[trigger] pool.workers[k]).joined by {
            let w = pool.workers[k];
            assert(w.wf());
            if running(w) {
                lemma_count_positive(pool.workers, running, k);
            } else if stopping(w) {
                lemma_count_positive(pool.workers, stopping, k);
            } else if unjoined(w) {
                lemma_count_positive(pool.workers, unjoined, k);
            }
        }
    }
}

/// A worker that is counted makes the count positive.
proof fn lemma_count_positive(
    workers: Seq<WorkerModel>,
    pick: spec_fn(WorkerModel) -> bool,
    id: int,
)
    requires
        0 <= id < workers.len(),
        pick(workers[id]),
    ensures
        count(workers, pick) >= 1,
    decreases workers.len(),
{
    if id < workers.len() - 1 {
        lemma_count_positive(workers.drop_last(), pick, id);
    }
}

/// How the four tallies of workers change when one worker is replaced.
proof fn lemma_tallies_after_update(workers: Seq<WorkerModel>, id: int, worker: WorkerModel)
    requires
        0 <= id < workers.len(),
    ensures
        count(workers.update(id, worker), |w: WorkerModel| w.busy) + (if workers[id].busy {
            1nat
        } else {
            0nat
        }) == count(workers, |w: WorkerModel| w.busy) + (if worker.busy {
            1nat
        } else {
            0nat
        }),
        count(workers.update(id, worker), |w: WorkerModel| w.state is Running) + (
        if workers[id].state is Running {
            1nat
        } else {
            0nat
        }) == count(workers, |w: WorkerModel| w.state is Running) + (if worker.state is Running {
            1nat
        } else {
            0nat
        }),
        count(workers.update(id, worker), |w: WorkerModel| w.state is ShuttingDown) + (
        if workers[id].state is ShuttingDown {
            1nat
        } else {
            0nat
        }) == count(workers, |w: WorkerModel| w.state is ShuttingDown) + (
        if worker.state is ShuttingDown {
            1nat
        } else {
            0nat
        }),
        count(workers.update(id, worker), |w: WorkerModel| w.state is Terminated && !w.joined) + (
        if workers[id].state is Terminated && !workers[id].joined {
            1nat
        } else {
            0nat
        }) == count(workers, |w: WorkerModel| w.state is Terminated && !w.joined) + (
        if worker.state is Terminated && !worker.joined {
            1nat
        } else {
            0nat
        }),
{
    lemma_count_update(workers, |w: WorkerModel| w.busy, id, worker);
    lemma_count_update(workers, |w: WorkerModel| w.state is Running, id, worker);
    lemma_count_update(workers, |w: WorkerModel| w.state is ShuttingDown, id, worker);
    lemma_count_update(workers, |w: WorkerModel| w.state is Terminated && !w.joined, id, worker);
}

} // verus!
