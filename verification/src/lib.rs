//! A fixed-size worker pool, as a sequential state machine.
//!
//! The pool owns a first-in-first-out queue of jobs and a fixed set of workers.
//! Every operation here is one atomic step: a submission, one turn of a
//! worker's claim loop, the closing of the queue, a worker's exit, the owner's
//! join. A threaded shell takes these steps under a lock; what the steps do to
//! the pool, in any interleaving, is proved here.

pub mod error;
pub mod history;
pub mod laws;
pub mod model;
pub mod pool;
pub mod queue;
pub mod worker;

pub use crate::error::PoolCreationError;
pub use crate::history::Event;
pub use crate::model::PoolModel;
pub use crate::pool::ThreadPool;
pub use crate::queue::{Claim, JobQueue, QueueModel};
pub use crate::worker::{Worker, WorkerModel, WorkerState};
