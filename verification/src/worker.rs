//! One worker: an identifier and the life cycle of its claim loop.
//!
//! A worker runs until it sees the queue closed, then shuts down and
//! terminates; it never runs again. While running it is either waiting for a
//! job or busy with the one job it holds. The owner joins a worker once, after
//! it has terminated.
//!
//! A job that fails takes its worker's thread with it. Nothing here catches
//! that: such a worker never finishes its job, stays busy for good, and can
//! be neither stopped nor joined, so the pool it belongs to never completes
//! its teardown.

use crate::queue::Claim;
use vstd::prelude::*;

verus! {

/// Where a worker stands in its life cycle.
#[derive(Clone, Copy, Debug, PartialEq, Eq, Structural)]
pub enum WorkerState {
    /// The claim loop is going: the worker waits for a job or executes one.
    Running,
    /// The worker has seen the queue closed and is leaving its loop.
    ShuttingDown,
    /// The loop has ended and the worker's thread has returned.
    Terminated,
}

/// The mathematical content of a worker.
pub struct WorkerModel {
    /// The worker's identifier: its position in the pool.
    pub id: nat,
    /// Where the worker stands in its life cycle.
    pub state: WorkerState,
    /// Whether the worker holds a job that it has not finished.
    pub busy: bool,
    /// Whether the owner has joined the worker.
    pub joined: bool,
}

impl WorkerModel {
    /// A worker as it starts: running, idle, not joined.
    pub open spec fn fresh(id: nat) -> Self {
        WorkerModel { id, state: WorkerState::Running, busy: false, joined: false }
    }

    /// Only a running worker is busy, and only a terminated one is joined.
    pub open spec fn wf(self) -> bool {
        &&& self.busy ==> self.state is Running
        &&& self.joined ==> self.state is Terminated
    }

    /// The worker is at the top of its loop, ready to claim.
    pub open spec fn idle(self) -> bool {
        self.state is Running && !self.busy
    }

    /// The worker's thread has not returned yet.
    pub open spec fn live(self) -> bool {
        !(self.state is Terminated)
    }

    /// The worker after one claim that yielded `claim`: busy with a job,
    /// shutting down on closure, unchanged when there was nothing to take.
    pub open spec fn observed<J>(self, claim: Claim<J>) -> Self {
        match claim {
            Claim::Job(_) => WorkerModel { busy: true, ..self },
            Claim::Empty => self,
            Claim::Closed => WorkerModel { state: WorkerState::ShuttingDown, ..self },
        }
    }

    /// The worker after it finished the job it held.
    pub open spec fn finished(self) -> Self {
        WorkerModel { busy: false, ..self }
    }

    /// The worker after its loop ended and its thread returned.
    pub open spec fn exited(self) -> Self {
        WorkerModel { state: WorkerState::Terminated, ..self }
    }

    /// The worker after the owner joined it.
    pub open spec fn reaped(self) -> Self {
        WorkerModel { joined: true, ..self }
    }
}

/// A worker of the pool.
#[derive(Clone, Copy, Debug)]
pub struct Worker {
    id: usize,
    state: WorkerState,
    busy: bool,
    joined: bool,
}

impl View for Worker {
    type V = WorkerModel;

    closed spec fn view(&self) -> WorkerModel {
        WorkerModel { id: self.id as nat, state: self.state, busy: self.busy, joined: self.joined }
    }
}

impl Worker {
    /// A worker with the given identifier, about to enter its claim loop.
    pub fn new(id: usize) -> (worker: Worker)
        ensures
            worker@ == WorkerModel::fresh(id as nat),
    {
        Worker { id, state: WorkerState::Running, busy: false, joined: false }
    }

    /// The worker's identifier.
    pub fn id(&self) -> (id: usize)
        ensures
            id == self@.id,
    {
        self.id
    }

    /// Where the worker stands in its life cycle.
    pub fn state(&self) -> (state: WorkerState)
        ensures
            state == self@.state,
    {
        self.state
    }

    /// Whether the worker holds a job that it has not finished.
    pub fn is_busy(&self) -> (busy: bool)
        ensures
            busy == self@.busy,
    {
        self.busy
    }

    /// Whether the owner has joined the worker.
    pub fn is_joined(&self) -> (joined: bool)
        ensures
            joined == self@.joined,
    {
        self.joined
    }

    /// Whether the worker is at the top of its loop, ready to claim.
    pub fn is_idle(&self) -> (idle: bool)
        ensures
            idle == self@.idle(),
    {
        match self.state {
            WorkerState::Running => !self.busy,
            _ => false,
        }
    }

    /// Whether the worker's thread has not returned yet.
    pub fn is_live(&self) -> (live: bool)
        ensures
            live == self@.live(),
    {
        match self.state {
            WorkerState::Terminated => false,
            _ => true,
        }
    }

    /// One turn of the claim loop, seen from the worker: it takes note of what
    /// its claim yielded. With a job it becomes busy, on closure it starts to
    /// shut down, and with nothing to take it stays as it is.
    pub fn observe<J>(&mut self, claim: &Claim<J>)
        requires
            old(self)@.idle(),
        ensures
            final(self)@ == old(self)@.observed(*claim),
    {
        match claim {
            Claim::Job(_) => {
                self.busy = true;
            },
            Claim::Empty => {},
            Claim::Closed => {
                self.state = WorkerState::ShuttingDown;
            },
        }
    }

    /// The worker has run its job to the end and is back at the top of its loop.
    pub fn finish(&mut self)
        requires
            old(self)@.busy,
        ensures
            final(self)@ == old(self)@.finished(),
    {
        self.busy = false;
    }

    /// The worker's loop has ended: it terminates, for good.
    pub fn exit(&mut self)
        requires
            old(self)@.state is ShuttingDown,
        ensures
            final(self)@ == old(self)@.exited(),
    {
        self.state = WorkerState::Terminated;
    }

    /// The owner takes the worker's handle and joins it. Joining waits for the
    /// thread to return, so only a terminated worker is ever joined.
    pub fn join(&mut self)
        requires
            old(self)@.state is Terminated,
            !old(self)@.joined,
        ensures
            final(self)@ == old(self)@.reaped(),
    {
        self.joined = true;
    }
}

} // verus!
