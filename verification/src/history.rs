//! Histories: the steps that a pool has taken, in the order in which it took
//! them.
//!
//! Threads interleave their steps in an order that nobody controls. Whatever
//! the order, it is one sequence of events, each taken in a state in which it
//! was possible. What is proved of every such sequence holds of every run.

use crate::model::PoolModel;
use vstd::prelude::*;

verus! {

/// One atomic step of a pool. Each is what one method of `ThreadPool` does:
/// `execute`, `claim`, `complete`, `close`, `exit`, `join`.
pub enum Event<J> {
    /// A caller submits a job.
    Submit(J),
    /// The worker with this identifier makes one claim.
    Claim(nat),
    /// The worker with this identifier finishes the job it holds.
    Complete(nat),
    /// The owner drops the producing end.
    Close,
    /// The worker with this identifier terminates.
    Exit(nat),
    /// The owner joins the worker with this identifier.
    Join(nat),
}

impl<J> PoolModel<J> {
    /// Whether `event` can be taken in this state.
    pub open spec fn enabled(self, event: Event<J>) -> bool {
        match event {
            Event::Submit(_) => self.is_open(),
            Event::Claim(id) => self.can_claim(id as int),
            Event::Complete(id) => self.can_complete(id as int),
            Event::Close => true,
            Event::Exit(id) => self.can_exit(id as int),
            Event::Join(id) => self.can_join(id as int),
        }
    }

    /// The state after `event`.
    pub open spec fn step(self, event: Event<J>) -> Self {
        match event {
            Event::Submit(job) => self.submit(job),
            Event::Claim(id) => self.claim(id as int),
            Event::Complete(id) => self.complete(id as int),
            Event::Close => self.close(),
            Event::Exit(id) => self.exit(id as int),
            Event::Join(id) => self.join(id as int),
        }
    }

    /// The job that `event` hands to a worker, if it hands one: a claim on a
    /// queue in which a job waits hands out the oldest.
    pub open spec fn hands_out(self, event: Event<J>) -> Option<J> {
        match event {
            Event::Claim(_) => if self.queue.pending.len() > 0 {
                Some(self.queue.pending[0])
            } else {
                None
            },
            _ => None,
        }
    }
}

/// The state that `history` leads to from `start`.
pub open spec fn run<J>(start: PoolModel<J>, history: Seq<Event<J>>) -> PoolModel<J>
    decreases history.len(),
{
    if history.len() == 0 {
        start
    } else {
        run(start, history.drop_last()).step(history.last())
    }
}

/// Whether each event of `history` was possible in the state in which it was
/// taken, starting from `start`.
pub open spec fn valid<J>(start: PoolModel<J>, history: Seq<Event<J>>) -> bool
    decreases history.len(),
{
    history.len() == 0 || (valid(start, history.drop_last()) && run(
        start,
        history.drop_last(),
    ).enabled(history.last()))
}

/// The jobs submitted in `history`, in order of submission.
pub open spec fn submitted<J>(history: Seq<Event<J>>) -> Seq<J>
    decreases history.len(),
{
    if history.len() == 0 {
        Seq::empty()
    } else {
        match history.last() {
            Event::Submit(job) => submitted(history.drop_last()).push(job),
            _ => submitted(history.drop_last()),
        }
    }
}

/// The jobs handed to workers in `history`, in the order in which they were
/// claimed.
pub open spec fn delivered<J>(start: PoolModel<J>, history: Seq<Event<J>>) -> Seq<J>
    decreases history.len(),
{
    if history.len() == 0 {
        Seq::empty()
    } else {
        match run(start, history.drop_last()).hands_out(history.last()) {
            Some(job) => delivered(start, history.drop_last()).push(job),
            None => delivered(start, history.drop_last()),
        }
    }
}

/// The number of jobs that workers ran to the end in `history`.
pub open spec fn completed<J>(history: Seq<Event<J>>) -> nat
    decreases history.len(),
{
    if history.len() == 0 {
        0
    } else {
        completed(history.drop_last()) + match history.last() {
            Event::Complete(_) => 1nat,
            _ => 0nat,
        }
    }
}

} // verus!
