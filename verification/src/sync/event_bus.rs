//! A set of pending events and the handlers that wait for them.

use vstd::prelude::*;

verus! {

/// A set of events, as bits.
#[derive(Debug, Clone, Copy, PartialEq, Eq, Structural)]
pub struct Event(pub u32);

impl Event {
    pub const READABLE: u32 = 1;
    pub const WRITABLE: u32 = 2;
    pub const ERROR: u32 = 4;
    pub const PROCESS_QUIT: u32 = 0x400;
    pub const CHILD_PROCESS_QUIT: u32 = 0x800;
    pub const RECEIVE_SIGNAL: u32 = 0x1000;
    pub const SEMAPHORE_REMOVED: u32 = 0x10_0000;
    pub const SEMAPHORE_CAN_ACQUIRE: u32 = 0x20_0000;

    /// No event.
    pub fn empty() -> (e: Event)
        ensures
            e.0 == 0,
    {
        Event(0)
    }

    /// Whether no event is in the set.
    pub fn is_empty(&self) -> (b: bool)
        ensures
            b == (self.0 == 0),
    {
        self.0 == 0
    }
}

/// What a subscriber waits for. When it fires it is removed from the bus and
/// its waker is woken.
#[derive(Debug, Clone, Copy, PartialEq, Eq, Structural)]
pub enum EventHandler {
    /// Fires on a change after which one of the events in `mask` is set.
    Mask { mask: u32, waker: usize },
    /// Fires on any change.
    Any { waker: usize },
}

impl EventHandler {
    pub open spec fn fires(self, new: u32) -> bool {
        match self {
            EventHandler::Mask { mask, .. } => new & mask != 0,
            EventHandler::Any { .. } => true,
        }
    }

    pub open spec fn waker_of(self) -> usize {
        match self {
            EventHandler::Mask { waker, .. } => waker,
            EventHandler::Any { waker } => waker,
        }
    }

    /// The waker that the handler wakes when it fires at `new`.
    pub open spec fn woken_at(self, new: u32) -> Option<usize> {
        if self.fires(new) {
            Some(self.waker_of())
        } else {
            None
        }
    }

    fn fires_at(&self, new: u32) -> (b: bool)
        ensures
            b == self.fires(new),
    {
        match self {
            EventHandler::Mask { mask, .. } => new & *mask != 0,
            EventHandler::Any { .. } => true,
        }
    }

    fn waker(&self) -> (w: usize)
        ensures
            w == self.waker_of(),
    {
        match self {
            EventHandler::Mask { waker, .. } => *waker,
            EventHandler::Any { waker } => *waker,
        }
    }
}

/// The events that are set, and the handlers that wait for a change.
pub struct EventBus {
    pub event: Event,
    pub callbacks: Vec<EventHandler>,
}

/// The set `old` with `reset` taken out and `set` put in.
pub open spec fn changed_events(old: u32, reset: u32, set: u32) -> u32 {
    (old & !reset) | set
}

/// Clearing what was just set undoes it: events that were clear before a
/// `set` are clear again after a `clear` of the same events, and the other
/// events are as they were.
pub proof fn lemma_set_then_clear(old: u32, e: u32)
    requires
        old & e == 0,
    ensures
        changed_events(changed_events(old, 0, e), e, 0) == old,
{
    assert(((((old & !0u32) | e) & !e) | 0u32) == old) by (bit_vector)
        requires
            old & e == 0,
    ;
}

impl EventBus {
    /// A bus with no event set and no subscriber.
    pub fn new() -> (b: Self)
        ensures
            b.event.0 == 0,
            b.callbacks@ == Seq::<EventHandler>::empty(),
    {
        EventBus { event: Event(0), callbacks: Vec::new() }
    }

    /// Sets the events of `set`; see `change`.
    pub fn set(&mut self, set: Event) -> (woken: Vec<usize>)
        ensures
            final(self).event.0 == changed_events(old(self).event.0, 0, set.0),
            Self::changed(*old(self), *final(self), woken@),
    {
        self.change(Event(0), set)
    }

    /// Clears the events of `reset`; see `change`.
    pub fn clear(&mut self, reset: Event) -> (woken: Vec<usize>)
        ensures
            final(self).event.0 == changed_events(old(self).event.0, reset.0, 0),
            Self::changed(*old(self), *final(self), woken@),
    {
        self.change(reset, Event(0))
    }

    /// What a change of the events does to the subscribers: where the set
    /// differs from before, the handlers that fire at the new set leave the
    /// bus, in order, and their wakers are woken; where it does not, nothing
    /// else changes.
    pub open spec fn changed(before: EventBus, after: EventBus, woken: Seq<usize>) -> bool {
        let new = after.event.0;
        if new != before.event.0 {
            &&& after.callbacks@ == before.callbacks@.filter(|h: EventHandler| !h.fires(new))
            &&& woken == before.callbacks@.filter_map(|h: EventHandler| h.woken_at(new))
        } else {
            &&& after.callbacks@ == before.callbacks@
            &&& woken == Seq::<usize>::empty()
        }
    }

    /// What running the handlers at the current set does: those that fire
    /// at it leave the bus, in order, and their wakers are woken; the set
    /// itself stays.
    pub open spec fn fired(before: EventBus, after: EventBus, woken: Seq<usize>) -> bool {
        let new = after.event.0;
        &&& after.event == before.event
        &&& after.callbacks@ == before.callbacks@.filter(|h: EventHandler| !h.fires(new))
        &&& woken == before.callbacks@.filter_map(|h: EventHandler| h.woken_at(new))
    }

    /// Runs every handler against the current set of events, whether or not
    /// it changed; returns the wakers of the handlers that fired.
    pub fn notify(&mut self) -> (woken: Vec<usize>)
        ensures
            Self::fired(*old(self), *final(self), woken@),
    {
        let new = self.event.0;
        let ghost before = self.callbacks@;
        let ghost keep = |h: EventHandler| !h.fires(new);
        let ghost wake = |h: EventHandler| h.woken_at(new);
        let mut woken: Vec<usize> = Vec::new();
        let mut kept: Vec<EventHandler> = Vec::new();
        let mut i: usize = 0;
        while i < self.callbacks.len()
            invariant
                i <= before.len(),
                self.callbacks@ == before,
                self.event.0 == new,
                self.event == old(self).event,
                before == old(self).callbacks@,
                keep == (|h: EventHandler| !h.fires(new)),
                wake == (|h: EventHandler| h.woken_at(new)),
                kept@ == before.take(i as int).filter(keep),
                woken@ == before.take(i as int).filter_map(wake),
            decreases before.len() - i,
        {
            let h = self.callbacks[i];
            proof {
                assert(keep(h) == !h.fires(new));
                assert(wake(before[i as int]) == h.woken_at(new));
                assert(before.take(i + 1) =~= before.take(i as int).push(h));
                before.take(i as int).lemma_filter_push(h, keep);
                before.lemma_filter_map_take_succ(wake, i as int);
            }
            if h.fires_at(new) {
                woken.push(h.waker());
            } else {
                kept.push(h);
            }
            i = i + 1;
        }
        proof {
            assert(before.take(before.len() as int) =~= before);
        }
        self.callbacks = kept;
        woken
    }

    /// Clears `reset` and sets `set`; returns the wakers of the handlers
    /// that fired.
    pub fn change(&mut self, reset: Event, set: Event) -> (woken: Vec<usize>)
        ensures
            final(self).event.0 == changed_events(old(self).event.0, reset.0, set.0),
            Self::changed(*old(self), *final(self), woken@),
    {
        let orig = self.event.0;
        let new = (orig & !reset.0) | set.0;
        self.event = Event(new);
        if new != orig {
            self.notify()
        } else {
            Vec::new()
        }
    }

    /// Adds a subscriber.
    pub fn subscribe(&mut self, callback: EventHandler)
        ensures
            final(self).event == old(self).event,
            final(self).callbacks@ == old(self).callbacks@.push(callback),
    {
        self.callbacks.push(callback);
    }

    /// The number of subscribers.
    pub fn get_callback_len(&self) -> (n: usize)
        ensures
            n == self.callbacks@.len(),
    {
        self.callbacks.len()
    }
}

/// A handler that fires at `new` has its waker among those woken when the
/// handlers run at `new`.
pub proof fn lemma_fired_is_woken(s: Seq<EventHandler>, new: u32, i: int)
    requires
        0 <= i < s.len(),
        s[i].fires(new),
    ensures
        s.filter_map(|h: EventHandler| h.woken_at(new)).contains(s[i].waker_of()),
    decreases s.len(),
{
    let f = |h: EventHandler| h.woken_at(new);
    let rest = s.drop_last();
    if i == s.len() - 1 {
        assert(f(s.last()) == Some(s[i].waker_of()));
        assert(s.filter_map(f) == rest.filter_map(f) + seq![s[i].waker_of()]);
        assert(s.filter_map(f)[rest.filter_map(f).len() as int] == s[i].waker_of());
    } else {
        lemma_fired_is_woken(rest, new, i);
        assert(rest[i] == s[i]);
        let j = choose|j: int| 0 <= j < rest.filter_map(f).len() && rest.filter_map(f)[j] == s[i].waker_of();
        match f(s.last()) {
            Some(x) => {
                assert(s.filter_map(f) == rest.filter_map(f) + seq![x]);
                assert(s.filter_map(f)[j] == s[i].waker_of());
            },
            None => {
                assert(s.filter_map(f) == rest.filter_map(f));
            },
        }
    }
}

/// The result of polling a task that may have to wait.
#[derive(Debug, Clone, Copy, PartialEq, Eq, Structural)]
pub enum Poll<T> {
    Ready(T),
    Pending,
}

/// One poll of a wait for one of the events of `mask`: ready with the set of
/// events if one of them is set; else the task subscribes with `waker` and
/// waits.
pub fn wait_for_event(bus: &mut EventBus, mask: Event, waker: usize) -> (r: Poll<Event>)
    ensures
        old(bus).event.0 & mask.0 != 0 ==> r == Poll::Ready(old(bus).event) && *final(bus) == *old(bus),
        old(bus).event.0 & mask.0 == 0 ==> r == Poll::<Event>::Pending
            && final(bus).event == old(bus).event
            && final(bus).callbacks@ == old(bus).callbacks@.push(EventHandler::Mask { mask: mask.0, waker }),
{
    if bus.event.0 & mask.0 != 0 {
        return Poll::Ready(bus.event);
    }
    bus.subscribe(EventHandler::Mask { mask: mask.0, waker });
    Poll::Pending
}

} // verus!
