//! The job queue: unbounded, first in first out, closed once and for all.
//!
//! Producers append at the back, workers take from the front. Closing the
//! queue stops further appends; what is already waiting is still handed out,
//! and only an empty closed queue answers a claim with closure.

use std::collections::VecDeque;
use vstd::prelude::*;

verus! {

/// What one attempt to take a job from the queue yields.
#[derive(Debug)]
pub enum Claim<J> {
    /// The oldest waiting job, now owned by the claimant.
    Job(J),
    /// Nothing is waiting, but more may come: the claimant must wait and try again.
    Empty,
    /// Nothing is waiting and nothing will ever come.
    Closed,
}

/// The mathematical content of a queue.
#[verifier::ext_equal]
pub struct QueueModel<J> {
    /// The waiting jobs, oldest first.
    pub pending: Seq<J>,
    /// Whether the producing end still exists.
    pub open: bool,
}

impl<J> QueueModel<J> {
    /// The queue as it starts: nothing waiting, producing end in place.
    pub open spec fn fresh() -> Self {
        QueueModel { pending: Seq::empty(), open: true }
    }

    /// The queue with `job` appended behind all that is waiting.
    pub open spec fn with(self, job: J) -> Self {
        QueueModel { pending: self.pending.push(job), open: self.open }
    }

    /// What a claim on this queue yields.
    pub open spec fn front(self) -> Claim<J> {
        if self.pending.len() > 0 {
            Claim::Job(self.pending[0])
        } else if self.open {
            Claim::Empty
        } else {
            Claim::Closed
        }
    }

    /// The queue after one claim: without its oldest job, if it had one.
    pub open spec fn after_claim(self) -> Self {
        if self.pending.len() > 0 {
            QueueModel { pending: self.pending.subrange(1, self.pending.len() as int), open: self.open }
        } else {
            self
        }
    }

    /// The queue without its producing end; what is waiting stays.
    pub open spec fn shut(self) -> Self {
        QueueModel { pending: self.pending, open: false }
    }

    /// Closed and empty: every later claim is answered with closure.
    pub open spec fn drained(self) -> bool {
        !self.open && self.pending.len() == 0
    }
}

/// An unbounded first-in-first-out queue of jobs with a producing end that
/// can be closed.
pub struct JobQueue<J> {
    pending: VecDeque<J>,
    open: bool,
}

impl<J> View for JobQueue<J> {
    type V = QueueModel<J>;

    closed spec fn view(&self) -> QueueModel<J> {
        QueueModel { pending: self.pending@, open: self.open }
    }
}

impl<J> JobQueue<J> {
    /// An open queue with nothing waiting.
    pub fn new() -> (queue: Self)
        ensures
            queue@ == QueueModel::<J>::fresh(),
    {
        JobQueue { pending: VecDeque::new(), open: true }
    }

    /// Appends `job` behind all waiting jobs. A closed queue accepts nothing
    /// and hands the job back.
    pub fn enqueue(&mut self, job: J) -> (outcome: Result<(), J>)
        ensures
            old(self)@.open ==> outcome == Ok::<(), J>(()) && final(self)@ == old(self)@.with(job),
            !old(self)@.open ==> outcome == Err::<(), J>(job) && final(self)@ == old(self)@,
    {
        if self.open {
            self.pending.push_back(job);
            Ok(())
        } else {
            Err(job)
        }
    }

    /// Takes the oldest waiting job, or tells why there is none: the queue
    /// is empty for now, or closed for good.
    pub fn claim(&mut self) -> (claim: Claim<J>)
        ensures
            claim == old(self)@.front(),
            final(self)@ == old(self)@.after_claim(),
    {
        match self.pending.pop_front() {
            Some(job) => Claim::Job(job),
            None => {
                if self.open {
                    Claim::Empty
                } else {
                    Claim::Closed
                }
            },
        }
    }

    /// Drops the producing end. Closing a closed queue changes nothing.
    pub fn close(&mut self)
        ensures
            final(self)@ == old(self)@.shut(),
    {
        self.open = false;
    }

    /// Whether the producing end still exists.
    pub fn is_open(&self) -> (open: bool)
        ensures
            open == self@.open,
    {
        self.open
    }

    /// The number of waiting jobs.
    pub fn len(&self) -> (n: usize)
        ensures
            n == self@.pending.len(),
    {
        self.pending.len()
    }

    /// Whether no job is waiting.
    pub fn is_empty(&self) -> (empty: bool)
        ensures
            empty == (self@.pending.len() == 0),
    {
        self.pending.len() == 0
    }
}

} // verus!
