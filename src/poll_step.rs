//! What one poll of a request does next, from what it has just seen.
use vstd::prelude::*;

verus! {

/// The next move of a request being polled.
#[derive(Clone, Copy, Debug, PartialEq, Eq, Structural)]
pub enum PollStep {
    /// A slot was taken: resolve to a guard.
    Resolve,
    /// Try to take a slot (again), without suspending.
    Retry,
    /// Keep the listener and suspend until it is notified.
    Suspend,
}

/// The move after trying to take a slot: resolve where one was taken;
/// otherwise, where the listener registered after the failed attempt was
/// already notified (a release came in between), try again, and else suspend.
pub fn next_poll_step(slot_taken: bool, listener_fired: bool) -> (r: PollStep)
    ensures
        r == (if slot_taken {
            PollStep::Resolve
        } else if listener_fired {
            PollStep::Retry
        } else {
            PollStep::Suspend
        }),
{
    if slot_taken {
        PollStep::Resolve
    } else if listener_fired {
        PollStep::Retry
    } else {
        PollStep::Suspend
    }
}

/// The move of a request that was waiting, once its listener is polled:
/// where the listener fired, go on to take a slot; else stay suspended on
/// that same listener.
pub fn waiting_step(listener_fired: bool) -> (r: PollStep)
    ensures
        r == (if listener_fired {
            PollStep::Retry
        } else {
            PollStep::Suspend
        }),
{
    if listener_fired {
        PollStep::Retry
    } else {
        PollStep::Suspend
    }
}

} // verus!
