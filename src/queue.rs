//! The queue itself, the request that waits in it for a slot, and the guard
//! that holds one.
use std::future::Future;
use std::mem::ManuallyDrop;
use std::ops::Deref;
use std::pin::Pin;
use std::sync::atomic::AtomicUsize;
use std::sync::atomic::Ordering;
use std::task::Context;
use std::task::Poll;
use std::task::Waker;

use event_listener::Event;
use event_listener::EventListener;
use vstd::prelude::*;

use crate::poll_step::next_poll_step;
use crate::poll_step::waiting_step;
use crate::poll_step::PollStep;
use crate::slots::next_count;
use crate::slots::next_count_spec;
use crate::slots::SlotChange;

verus! {

/// event_listener's broadcast channel, opaque here.
#[verifier::external_type_specification]
#[verifier::external_body]
pub struct ExEvent(Event);

/// event_listener's handle of one registered listener, opaque here.
#[verifier::external_type_specification]
#[verifier::external_body]
pub struct ExEventListener(EventListener);

/// std's task context, opaque here.
#[verifier::external_type_specification]
#[verifier::external_body]
pub struct ExContext<'a>(Context<'a>);

/// std's waker, opaque here.
#[verifier::external_type_specification]
#[verifier::external_body]
pub struct ExWaker(Waker);

/// std's pinned pointer, opaque here.
#[verifier::external_type_specification]
#[verifier::external_body]
#[verifier::reject_recursive_types(P)]
pub struct ExPin<P>(Pin<P>);

/// std's poll result, with its two variants visible.
#[verifier::external_type_specification]
#[verifier::reject_recursive_types(T)]
pub struct ExPoll<T>(Poll<T>);

/// Relies on event_listener's `Event::new`: an event with no listeners.
pub assume_specification[ Event::new ]() -> Event;

/// Relies on event_listener's `Event::listen`: registers a new listener.
pub assume_specification[ Event::listen ](event: &Event) -> EventListener;


/// Relies on std's `Context::waker`.
pub assume_specification<'a>[ Context::<'a>::waker ](cx: &Context<'a>) -> &'a Waker;

/// Relies on std's `Waker::wake_by_ref`: asks the executor to poll again.
pub assume_specification[ Waker::wake_by_ref ](waker: &Waker);

/// Relies on std's `Pin::get_mut`: the pinned reference, unpinned.
pub assume_specification<'a, T: ?Sized>[ Pin::<&'a mut T>::get_mut ](
    pin: Pin<&'a mut T>,
) -> &'a mut T
    where
        T: Unpin,
;

/// Relies on std's `AtomicUsize::fetch_update`: it reads the value, applies
/// the closure, and stores the closure's `Some` result if the value is still
/// the one it read, retrying otherwise; `Ok(previous)` where the closure gave
/// `Some`, `Err(previous)` where it gave `None`. The closure is `next_count`.
#[verifier::external_body]
fn update_count(count: &AtomicUsize, change: SlotChange) -> (r: Result<usize, usize>)
    ensures
        r matches Ok(p) ==> next_count_spec(p as nat, change) is Some,
        r matches Err(p) ==> next_count_spec(p as nat, change) is None,
    opens_invariants none
    no_unwind
{
    count.fetch_update(Ordering::SeqCst, Ordering::SeqCst, |c| next_count(c, change))
}

/// Relies on event_listener's `Event::notify_additional`: wakes up to `n`
/// listeners that were not notified yet. It panics only where the event's
/// inner mutex was poisoned, by a panic while it was held; the one such panic
/// in event_listener is polling a spent listener, which `poll_listener` rules
/// out.
#[verifier::external_body]
fn notify(event: &Event, n: usize)
    opens_invariants none
    no_unwind
{
    event.notify_additional(n)
}

/// Relies on event_listener's `impl Future for EventListener`: polls the
/// listener once. `None` where it was notified (the listener is then spent
/// and dropped), the listener back where it is still waiting. Polling a spent
/// listener panics; taking it by value keeps that from happening.
#[verifier::external_body]
fn poll_listener(listener: EventListener, cx: &mut Context<'_>) -> (r: Option<EventListener>)
    ensures
        r matches Some(l) ==> l == listener,
{
    let mut listener = listener;
    match Pin::new(&mut listener).poll(cx) {
        Poll::Ready(()) => None,
        Poll::Pending => Some(listener),
    }
}

/// A gate guarding a value: it allows only a number of simultaneous accesses
/// to the value, and lets further accesses wait for a free slot.
#[derive(Debug)]
pub struct AccessQueue<T> {
    count: AtomicUsize,
    event: Event,
    inner: T,
}

impl<T> AccessQueue<T> {
    /// The guarded value.
    pub closed spec fn value(&self) -> T {
        self.inner
    }

    /// Constructs a queue that guards `inner` and allows `count` accesses at
    /// the same time (possibly none).
    pub fn new(inner: T, count: usize) -> (r: AccessQueue<T>)
        ensures
            r.value() == inner,
    {
        AccessQueue { count: AtomicUsize::new(count), event: Event::new(), inner }
    }

    /// Takes `amt` slots if at least `amt` are available, atomically, and
    /// says whether it did; takes nothing otherwise. Each attempt is one
    /// compare-and-swap from the value read to `next_count` of it, retried
    /// while other callers change the count in between.
    pub fn block(&self, amt: usize) -> (r: bool)
        ensures
            amt == 0 ==> r,
    {
        update_count(&self.count, SlotChange::Block(amt)).is_ok()
    }

    /// Gives back `amt` slots (the count stops at `usize::MAX` rather than
    /// wrapping), then wakes up to `amt` waiting requests. Paired with
    /// `block`, this raises and lowers the limit.
    pub fn release(&self, amt: usize)
        opens_invariants none
        no_unwind
    {
        let _previous = update_count(&self.count, SlotChange::Release(amt));
        notify(&self.event, amt);
    }

    /// The number of slots available at the moment of the call.
    pub fn available(&self) -> usize {
        self.count.load(Ordering::SeqCst)
    }

    /// A new request to access the guarded value, not yet waiting.
    pub fn access(&self) -> (r: Access<'_, T>)
        ensures
            r.queue() == self,
            !r.is_waiting(),
    {
        Access { queue: self, listener: None }
    }

    /// The guarded value, without taking a slot or waiting for one.
    pub fn skip_queue(&self) -> (r: &T)
        ensures
            *r == self.value(),
        opens_invariants none
        no_unwind
    {
        &self.inner
    }

    /// The guarded value, mutably: holding the queue mutably means that no
    /// request or guard borrows it.
    pub fn get_mut(&mut self) -> (r: &mut T)
        ensures
            *r == old(self).value(),
    {
        &mut self.inner
    }
}

/// A request to access the guarded value: polled as a future, it resolves to
/// an [`AccessGuard`] once it has taken a slot.
#[derive(Debug)]
pub struct Access<'a, T> {
    queue: &'a AccessQueue<T>,
    listener: Option<EventListener>,
}

impl<'a, T> Access<'a, T> {
    /// The queue this request waits in.
    pub closed spec fn queue(&self) -> &'a AccessQueue<T> {
        self.queue
    }

    /// Whether the request holds a listener, registered while it waits.
    pub closed spec fn is_waiting(&self) -> bool {
        self.listener is Some
    }

    /// The guarded value, without waiting in the queue.
    pub fn skip_queue(&self) -> (r: &T)
        ensures
            *r == self.queue().value(),
    {
        self.queue.skip_queue()
    }

    /// One poll of the request. A request that waits first polls its
    /// listener: while that is not notified it stays pending with the same
    /// listener. Then it tries to take a slot; where none is free it registers
    /// a new listener and polls it at once, so that a release between the
    /// failed attempt and the registration is not missed. `next_poll_step`
    /// decides, from the two outcomes, whether to resolve, retry or suspend.
    /// After `usize::MAX` retries in one poll it keeps a fresh listener and
    /// asks to be polled again. It is pending exactly when it keeps a
    /// listener, and a guard it resolves to holds a slot of its queue.
    pub fn poll_access(&mut self, cx: &mut Context<'_>) -> (r: Poll<AccessGuard<'a, T>>)
        ensures
            final(self).queue() == old(self).queue(),
            final(self).is_waiting() <==> r is Pending,
            r matches Poll::Ready(g) ==> g.queue() == old(self).queue(),
    {
        let waiting = self.listener.take();
        if let Some(listener) = waiting {
            let kept = poll_listener(listener, cx);
            match waiting_step(kept.is_none()) {
                PollStep::Suspend => {
                    self.listener = kept;
                    return Poll::Pending;
                },
                _ => {},
            }
        }
        let mut tries: usize = usize::MAX;
        loop
            invariant
                self.queue() == old(self).queue(),
                self.listener is None,
            decreases tries,
        {
            let taken = self.queue.block(1);
            let mut kept: Option<EventListener> = None;
            if !taken {
                kept = poll_listener(self.queue.event.listen(), cx);
            }
            match next_poll_step(taken, kept.is_none()) {
                PollStep::Resolve => {
                    return Poll::Ready(AccessGuard { queue: self.queue });
                },
                PollStep::Suspend => {
                    self.listener = kept;
                    return Poll::Pending;
                },
                PollStep::Retry => {
                    if tries == 0 {
                        self.listener = Some(self.queue.event.listen());
                        cx.waker().wake_by_ref();
                        return Poll::Pending;
                    }
                    tries = tries - 1;
                },
            }
        }
    }
}

/// A request holds only a reference and a listener, so moving it is fine.
impl<'a, T> Unpin for Access<'a, T> {

}

impl<'a, T> Future for Access<'a, T> {
    type Output = AccessGuard<'a, T>;

    fn poll(self: Pin<&mut Self>, cx: &mut Context<'_>) -> Poll<AccessGuard<'a, T>> {
        Pin::get_mut(self).poll_access(cx)
    }
}

/// A held slot of a queue, which dereferences to the guarded value. When it
/// goes out of scope it gives its slot back, exactly once, and wakes one
/// waiting request.
#[derive(Debug)]
pub struct AccessGuard<'a, T> {
    queue: &'a AccessQueue<T>,
}

impl<'a, T> AccessGuard<'a, T> {
    /// The queue whose slot this guard holds.
    pub closed spec fn queue(&self) -> &'a AccessQueue<T> {
        self.queue
    }

    /// Keeps the slot for good: the guard becomes a plain reference to the
    /// guarded value, and its slot is never given back.
    pub fn hold_indefinitely(self) -> (r: &'a T)
        ensures
            *r == self.queue().value(),
    {
        let held = ManuallyDrop::new(self);
        let queue: &'a AccessQueue<T> = held.deref().queue;
        queue.skip_queue()
    }

    /// Hands the slot to the next waiting request: one slot is given back
    /// and one waiter is woken to take it, so the number of slots held stays
    /// the same once it has; with no waiter this is a plain release. The
    /// holder joins the queue again with the request it gets back.
    pub fn reenqueue(self) -> (r: Access<'a, T>)
        ensures
            r.queue() == self.queue(),
            !r.is_waiting(),
    {
        let queue: &'a AccessQueue<T> = self.queue;
        let _slot = ManuallyDrop::new(self);
        queue.release(1);
        queue.access()
    }
}

impl<'a, T> Deref for AccessGuard<'a, T> {
    type Target = T;

    fn deref(&self) -> (r: &T)
        ensures
            *r == self.queue().value(),
    {
        self.queue.skip_queue()
    }
}

impl<'a, T> Drop for AccessGuard<'a, T> {
    fn drop(&mut self)
        opens_invariants none
        no_unwind
    {
        self.queue.release(1);
    }
}

} // verus!
