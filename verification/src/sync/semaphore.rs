//! A counting semaphore whose waiters subscribe to its event bus.

use vstd::prelude::*;

use crate::sync::event_bus::{changed_events, lemma_fired_is_woken, Event, EventBus, EventHandler, Poll};
use crate::syscall::SysError;

verus! {

/// A counting semaphore. A negative count is allowed.
pub struct Semaphore {
    pub count: isize,
    pub pid: usize,
    pub removed: bool,
    pub eventbus: EventBus,
}

/// One resource taken from a semaphore, to be given back by `release_guard`.
pub struct SemaphoreGuard;

/// Setting or clearing `SEMAPHORE_CAN_ACQUIRE` leaves the
/// `SEMAPHORE_REMOVED` bit as it was; setting that bit sets it.
proof fn lemma_removed_bit(e: u32)
    ensures
        changed_events(e, 0, Event::SEMAPHORE_CAN_ACQUIRE) & Event::SEMAPHORE_REMOVED == e & Event::SEMAPHORE_REMOVED,
        changed_events(e, Event::SEMAPHORE_CAN_ACQUIRE, 0) & Event::SEMAPHORE_REMOVED == e & Event::SEMAPHORE_REMOVED,
        changed_events(e, 0, Event::SEMAPHORE_REMOVED) & Event::SEMAPHORE_REMOVED != 0,
{
    assert(((e & !0u32) | 0x20_0000u32) & 0x10_0000u32 == e & 0x10_0000u32) by (bit_vector);
    assert(((e & !0x20_0000u32) | 0u32) & 0x10_0000u32 == e & 0x10_0000u32) by (bit_vector);
    assert(((e & !0u32) | 0x10_0000u32) & 0x10_0000u32 != 0) by (bit_vector);
}

impl Semaphore {
    /// The semaphore is marked removed exactly when its bus has the
    /// `SEMAPHORE_REMOVED` event set.
    pub open spec fn wf(&self) -> bool {
        self.removed == (self.eventbus.event.0 & Event::SEMAPHORE_REMOVED != 0)
    }

    /// A semaphore with `count` resources.
    pub fn new(count: isize) -> (s: Semaphore)
        ensures
            s.count == count,
            s.pid == 0,
            !s.removed,
            s.eventbus.event.0 == 0,
            s.eventbus.callbacks@.len() == 0,
            s.wf(),
    {
        assert(0u32 & 0x10_0000u32 == 0) by (bit_vector);
        Semaphore { count, removed: false, pid: 0, eventbus: EventBus::new() }
    }

    /// Marks the semaphore removed and signals it; returns the wakers woken.
    pub fn remove(&mut self) -> (woken: Vec<usize>)
        ensures
            final(self).removed,
            final(self).count == old(self).count,
            final(self).pid == old(self).pid,
            final(self).eventbus.event.0 == changed_events(old(self).eventbus.event.0, 0, Event::SEMAPHORE_REMOVED),
            EventBus::changed(old(self).eventbus, final(self).eventbus, woken@),
            final(self).wf(),
    {
        proof {
            lemma_removed_bit(self.eventbus.event.0);
        }
        self.removed = true;
        self.eventbus.set(Event(Event::SEMAPHORE_REMOVED))
    }

    /// One poll of `acquire`: fails with `EIDRM` once the semaphore is
    /// removed; takes a resource where the count is at least 1 (and clears
    /// `SEMAPHORE_CAN_ACQUIRE` when none is left); else subscribes with
    /// `waker` and waits.
    pub fn poll_acquire(&mut self, waker: usize) -> (r: Poll<Result<(), SysError>>)
        ensures
            final(self).pid == old(self).pid,
            final(self).removed == old(self).removed,
            old(self).wf() ==> final(self).wf(),
            old(self).removed ==> r == Poll::Ready(Err::<(), SysError>(SysError::EIDRM)) && *final(self) == *old(self),
            !old(self).removed && old(self).count >= 1 ==> {
                &&& r == Poll::Ready(Ok::<(), SysError>(()))
                &&& final(self).count == old(self).count - 1
                &&& final(self).count >= 1 ==> final(self).eventbus == old(self).eventbus
                &&& final(self).count < 1 ==> final(self).eventbus.event.0 == changed_events(
                    old(self).eventbus.event.0, Event::SEMAPHORE_CAN_ACQUIRE, 0)
                    && exists|w: Seq<usize>| EventBus::changed(old(self).eventbus, final(self).eventbus, w)
            },
            !old(self).removed && old(self).count < 1 ==> {
                &&& r == Poll::<Result<(), SysError>>::Pending
                &&& final(self).count == old(self).count
                &&& final(self).eventbus.event == old(self).eventbus.event
                &&& final(self).eventbus.callbacks@ == old(self).eventbus.callbacks@.push(EventHandler::Any { waker })
            },
    {
        proof {
            lemma_removed_bit(self.eventbus.event.0);
        }
        if self.removed {
            return Poll::Ready(Err(SysError::EIDRM));
        } else if self.count >= 1 {
            self.count = self.count - 1;
            if self.count < 1 {
                let ghost before = self.eventbus;
                let woken = self.eventbus.clear(Event(Event::SEMAPHORE_CAN_ACQUIRE));
                proof {
                    assert(EventBus::changed(before, self.eventbus, woken@));
                }
            }
            return Poll::Ready(Ok(()));
        }
        self.eventbus.subscribe(EventHandler::Any { waker });
        Poll::Pending
    }

    /// One poll of `access`: as `poll_acquire`, with a guard for the resource.
    pub fn poll_access(&mut self, waker: usize) -> (r: Poll<Result<SemaphoreGuard, SysError>>)
        ensures
            old(self).wf() ==> final(self).wf(),
            old(self).removed ==> (r matches Poll::Ready(Err(SysError::EIDRM))),
            !old(self).removed && old(self).count >= 1 ==> (r matches Poll::Ready(Ok(_)))
                && final(self).count == old(self).count - 1,
            !old(self).removed && old(self).count < 1 ==> r is Pending && final(self).count == old(self).count,
    {
        match self.poll_acquire(waker) {
            Poll::Ready(Ok(())) => Poll::Ready(Ok(SemaphoreGuard)),
            Poll::Ready(Err(e)) => Poll::Ready(Err(e)),
            Poll::Pending => Poll::Pending,
        }
    }

    /// Gives a resource back: the count goes up by one, and where it is at
    /// least 1, `SEMAPHORE_CAN_ACQUIRE` is set and every pending waiter is
    /// notified, whether or not the event was set before: the handlers run
    /// at the new set of events. Returns the wakers woken.
    pub fn release(&mut self) -> (woken: Vec<usize>)
        requires
            old(self).count < isize::MAX,
        ensures
            final(self).count == old(self).count + 1,
            final(self).pid == old(self).pid,
            final(self).removed == old(self).removed,
            old(self).wf() ==> final(self).wf(),
            final(self).count >= 1 ==> final(self).eventbus.event.0 == changed_events(
                old(self).eventbus.event.0, 0, Event::SEMAPHORE_CAN_ACQUIRE)
                && EventBus::fired(
                    EventBus { event: final(self).eventbus.event, callbacks: old(self).eventbus.callbacks },
                    final(self).eventbus,
                    woken@,
                ),
            final(self).count >= 1 ==> forall|i: int|
                0 <= i < old(self).eventbus.callbacks@.len() && #[trigger] old(self).eventbus.callbacks@[i] is Any
                    ==> woken@.contains(old(self).eventbus.callbacks@[i].waker_of()),
            final(self).count < 1 ==> final(self).eventbus == old(self).eventbus && woken@.len() == 0,
    {
        proof {
            lemma_removed_bit(self.eventbus.event.0);
        }
        self.count = self.count + 1;
        if self.count >= 1 {
            let ghost cbs = self.eventbus.callbacks@;
            let orig = self.eventbus.event.0;
            let woken = self.eventbus.set(Event(Event::SEMAPHORE_CAN_ACQUIRE));
            let woken = if self.eventbus.event.0 == orig {
                self.eventbus.notify()
            } else {
                woken
            };
            proof {
                let new = self.eventbus.event.0;
                assert forall|i: int| 0 <= i < cbs.len() && #[trigger] cbs[i] is Any implies woken@.contains(
                    cbs[i].waker_of(),
                ) by {
                    lemma_fired_is_woken(cbs, new, i);
                }
            }
            woken
        } else {
            Vec::new()
        }
    }

    /// Gives back the resource that `guard` holds.
    pub fn release_guard(&mut self, guard: SemaphoreGuard) -> (woken: Vec<usize>)
        requires
            old(self).count < isize::MAX,
        ensures
            final(self).count == old(self).count + 1,
            old(self).wf() ==> final(self).wf(),
    {
        let SemaphoreGuard = guard;
        self.release()
    }

    /// The count.
    pub fn get(&self) -> (c: isize)
        ensures
            c == self.count,
    {
        self.count
    }

    /// The number of waiters.
    pub fn get_ncnt(&self) -> (n: usize)
        ensures
            n == self.eventbus.callbacks@.len(),
    {
        self.eventbus.get_callback_len()
    }

    /// The pid of the last process that operated on the semaphore.
    pub fn get_pid(&self) -> (p: usize)
        ensures
            p == self.pid,
    {
        self.pid
    }

    pub fn set_pid(&mut self, pid: usize)
        ensures
            final(self).pid == pid,
            old(self).wf() ==> final(self).wf(),
            final(self).count == old(self).count,
            final(self).removed == old(self).removed,
            final(self).eventbus == old(self).eventbus,
    {
        self.pid = pid;
    }

    /// Sets the count; where it is at least 1, `SEMAPHORE_CAN_ACQUIRE` is
    /// set. Returns the wakers woken.
    pub fn set(&mut self, value: isize) -> (woken: Vec<usize>)
        ensures
            final(self).count == value,
            final(self).pid == old(self).pid,
            final(self).removed == old(self).removed,
            old(self).wf() ==> final(self).wf(),
            value >= 1 ==> final(self).eventbus.event.0 == changed_events(
                old(self).eventbus.event.0, 0, Event::SEMAPHORE_CAN_ACQUIRE)
                && EventBus::changed(old(self).eventbus, final(self).eventbus, woken@),
            value < 1 ==> final(self).eventbus == old(self).eventbus && woken@.len() == 0,
    {
        proof {
            lemma_removed_bit(self.eventbus.event.0);
        }
        self.count = value;
        if self.count >= 1 {
            self.eventbus.set(Event(Event::SEMAPHORE_CAN_ACQUIRE))
        } else {
            Vec::new()
        }
    }
}

/// The count after a run of completed operations from count `c`, each as
/// its contract states it: an acquire (`true`, `poll_acquire` or
/// `poll_access` ready with `Ok`) takes one, a release (`false`, `release`
/// or `release_guard`) gives one back.
pub open spec fn count_after_run(c: int, run: Seq<bool>) -> int
    decreases run.len(),
{
    if run.len() == 0 {
        c
    } else {
        count_after_run(c, run.drop_last()) + if run.last() { -1int } else { 1int }
    }
}

/// The number of acquires in a run.
pub open spec fn acquires_in(run: Seq<bool>) -> nat
    decreases run.len(),
{
    if run.len() == 0 {
        0
    } else {
        acquires_in(run.drop_last()) + if run.last() { 1nat } else { 0nat }
    }
}

/// After `k` acquires and `m` releases in any order, the count is
/// `c - k + m`; in particular an access whose guard is given back leaves
/// the count as it was.
pub proof fn lemma_count_after_run(c: int, run: Seq<bool>)
    ensures
        count_after_run(c, run) == c - acquires_in(run) + (run.len() - acquires_in(run)),
        count_after_run(c, seq![true, false]) == c,
    decreases run.len(),
{
    if run.len() > 0 {
        lemma_count_after_run(c, run.drop_last());
    }
    let r = seq![true, false];
    assert(r.drop_last() =~= seq![true]);
    assert(seq![true].drop_last() =~= Seq::<bool>::empty());
    assert(count_after_run(c, Seq::<bool>::empty()) == c);
    assert(count_after_run(c, seq![true]) == c - 1);
    assert(count_after_run(c, r) == c);
}

} // verus!
