//! Priority gating for cooperatively scheduled tasks.
//!
//! A gate wraps one asynchronous computation together with a priority level.
//! Each time the executor offers the computation a chance to run, its gate
//! consults a table of the levels that are currently contending and lets the
//! computation advance only if no strictly more urgent level is active.
//! Lower numbers are more urgent.
//!
//! - [`task_id`]: task identities and the counter that issues them.
//! - [`state`]: the mathematical model of the scheduling tables.
//! - [`scheduler`]: the tables themselves.
//! - [`gate`]: one gate and the two halves of a resumption.
//! - [`shared`]: one scheduler behind a lock, for gates that are resumed from
//!   several execution contexts.
//! - [`laws`]: what holds of all of these, proved once and for all.

pub mod gate;
pub mod laws;
pub mod scheduler;
pub mod shared;
pub mod state;
pub mod task_id;

pub use gate::{GateState, PrioFuture};
pub use scheduler::PrioScheduler;
pub use shared::SharedScheduler;
pub use state::{Prio, SchedulerState, MAX_PRIO};
pub use task_id::{TaskId, TaskIdAllocator};
