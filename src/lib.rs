//! An access queue: a gate that lets at most a given number of holders use a
//! guarded value at the same time, and lets further callers wait for a slot.
//!
//! The slot arithmetic, with its laws, lives in [`slots`]; the decisions of a
//! waiting request in [`poll_step`]; the queue, its requests and its guards
//! in [`queue`].
mod slots;
mod poll_step;
mod queue;

pub use poll_step::{next_poll_step, waiting_step, PollStep};
pub use slots::{next_count, SlotChange};
pub use queue::{Access, AccessGuard, AccessQueue};
