//! Tick counters, the timer queue and the console input of interrupts.

use vstd::prelude::*;

use crate::syscall::time::Duration;

verus! {

/// A counter after one more tick: it wraps to 0 past the largest value.
pub open spec fn next_tick(t: usize) -> usize {
    if t == usize::MAX {
        0
    } else {
        (t + 1) as usize
    }
}

/// The tick counters: ticks of the boot CPU (the wall clock) and ticks of
/// all CPUs together. Both wrap around.
#[derive(Debug, Clone, Copy, PartialEq, Eq, Structural)]
pub struct Ticks {
    pub tick: usize,
    pub tick_all_processors: usize,
}

impl Ticks {
    pub fn new() -> (t: Self)
        ensures
            t.tick == 0 && t.tick_all_processors == 0,
    {
        Ticks { tick: 0, tick_all_processors: 0 }
    }

    /// The ticks of the boot CPU.
    pub fn wall_tick(&self) -> (n: usize)
        ensures
            n == self.tick,
    {
        self.tick
    }

    /// The ticks of all CPUs.
    pub fn cpu_tick(&self) -> (n: usize)
        ensures
            n == self.tick_all_processors,
    {
        self.tick_all_processors
    }

    /// A tick on CPU `cpu_id`: the boot CPU also advances the wall clock.
    pub fn do_tick(&mut self, cpu_id: usize)
        ensures
            final(self).tick == if cpu_id == 0 { next_tick(old(self).tick) } else { old(self).tick },
            final(self).tick_all_processors == next_tick(old(self).tick_all_processors),
    {
        if cpu_id == 0 {
            self.tick = self.tick.wrapping_add(1);
        }
        self.tick_all_processors = self.tick_all_processors.wrapping_add(1);
    }

    /// Milliseconds since boot by the wall clock.
    pub fn uptime_msec(&self, usec_per_tick: usize) -> (m: usize)
        requires
            self.tick * usec_per_tick <= usize::MAX,
        ensures
            m == self.tick * usec_per_tick / 1000,
    {
        self.tick * usec_per_tick / 1000
    }
}

/// A wake-up that the timer holds: when it is due, and whom it wakes.
#[derive(Debug, Clone, Copy, PartialEq, Eq, Structural)]
pub struct TimerEvent {
    pub deadline: Duration,
    pub waker: usize,
}

impl TimerEvent {
    pub open spec fn due(self, now: Duration) -> bool {
        self.deadline.total_nanos() <= now.total_nanos()
    }
}

/// The wakers of `events`, in order.
pub open spec fn wakers(events: Seq<TimerEvent>) -> Seq<usize> {
    events.map_values(|e: TimerEvent| e.waker)
}

/// Whether the wake-ups are in deadline order.
pub open spec fn deadline_ordered(events: Seq<TimerEvent>) -> bool {
    forall|i: int, j: int|
        0 <= i <= j < events.len() ==> #[trigger] events[i].deadline.total_nanos() <= #[trigger] events[j].deadline.total_nanos()
}

/// The wake-ups that wait for their time, earliest first; of two with the
/// same deadline the one added first comes first.
pub struct Timer {
    pub events: Vec<TimerEvent>,
}

impl Timer {
    pub open spec fn wf(&self) -> bool {
        &&& forall|i: int| 0 <= i < self.events@.len() ==> (#[trigger] self.events@[i]).deadline.wf()
        &&& deadline_ordered(self.events@)
    }

    pub fn new() -> (t: Self)
        ensures
            t.wf(),
            t.events@ == Seq::<TimerEvent>::empty(),
    {
        Timer { events: Vec::new() }
    }

    /// Asks for `waker` to be woken at `deadline`: the wake-up goes after
    /// every one due no later, and before the rest.
    pub fn add(&mut self, deadline: Duration, waker: usize)
        requires
            old(self).wf(),
            deadline.wf(),
        ensures
            final(self).wf(),
            exists|pos: int|
                0 <= pos <= old(self).events@.len() && final(self).events@ == old(self).events@.insert(
                    pos,
                    TimerEvent { deadline, waker },
                ) && (forall|i: int| 0 <= i < pos ==> (#[trigger] old(self).events@[i]).deadline.total_nanos()
                    <= deadline.total_nanos()) && (forall|i: int|
                    pos <= i < old(self).events@.len() ==> (#[trigger] old(self).events@[i]).deadline.total_nanos()
                        > deadline.total_nanos()),
    {
        let ghost before = self.events@;
        let mut pos: usize = 0;
        while pos < self.events.len() && deadline.ge(&self.events[pos].deadline)
            invariant
                pos <= before.len(),
                self.events@ == before,
                self.wf(),
                deadline.wf(),
                forall|i: int| 0 <= i < pos ==> (#[trigger] before[i]).deadline.total_nanos() <= deadline.total_nanos(),
            decreases before.len() - pos,
        {
            pos = pos + 1;
        }
        proof {
            assert forall|i: int| pos <= i < before.len() implies (#[trigger] before[i]).deadline.total_nanos()
                > deadline.total_nanos() by {
                assert(before[pos as int].deadline.total_nanos() <= before[i].deadline.total_nanos());
            }
        }
        let e = TimerEvent { deadline, waker };
        self.events.insert(pos, e);
        proof {
            let after = self.events@;
            assert(after =~= before.insert(pos as int, e));
            assert forall|i: int| 0 <= i < after.len() implies (#[trigger] after[i]).deadline.wf() by {
                if i < pos {
                    assert(after[i] == before[i]);
                } else if i > pos {
                    assert(after[i] == before[i - 1]);
                }
            }
            assert forall|i: int, j: int| 0 <= i <= j < after.len() implies #[trigger] after[i].deadline.total_nanos()
                <= #[trigger] after[j].deadline.total_nanos() by {
                if i < pos && j < pos {
                    assert(after[i] == before[i] && after[j] == before[j]);
                } else if i < pos && j == pos {
                    assert(after[i] == before[i]);
                } else if i < pos && j > pos {
                    assert(after[i] == before[i] && after[j] == before[j - 1]);
                    assert(before[i].deadline.total_nanos() <= before[j - 1].deadline.total_nanos());
                } else if i == pos && j > pos {
                    assert(after[j] == before[j - 1]);
                } else if i > pos {
                    assert(after[i] == before[i - 1] && after[j] == before[j - 1]);
                    assert(before[i - 1].deadline.total_nanos() <= before[j - 1].deadline.total_nanos());
                }
            }
        }
    }

    /// Takes out the wake-ups that are due at `now`, which come first;
    /// returns whom they wake, earliest first.
    pub fn expire(&mut self, now: Duration) -> (woken: Vec<usize>)
        requires
            old(self).wf(),
            now.wf(),
        ensures
            final(self).wf(),
            woken@.len() <= old(self).events@.len(),
            woken@ == wakers(old(self).events@.take(woken@.len() as int)),
            final(self).events@ == old(self).events@.skip(woken@.len() as int),
            forall|i: int| 0 <= i < woken@.len() ==> (#[trigger] old(self).events@[i]).due(now),
            forall|i: int| woken@.len() <= i < old(self).events@.len() ==> !(#[trigger] old(self).events@[i]).due(now),
    {
        let ghost before = self.events@;
        let mut k: usize = 0;
        while k < self.events.len() && now.ge(&self.events[k].deadline)
            invariant
                k <= before.len(),
                self.events@ == before,
                self.wf(),
                now.wf(),
                forall|i: int| 0 <= i < k ==> (#[trigger] before[i]).due(now),
            decreases before.len() - k,
        {
            k = k + 1;
        }
        proof {
            assert forall|i: int| k <= i < before.len() implies !(#[trigger] before[i]).due(now) by {
                assert(before[k as int].deadline.total_nanos() <= before[i].deadline.total_nanos());
            }
        }
        let mut woken: Vec<usize> = Vec::new();
        let mut i: usize = 0;
        while i < k
            invariant
                i <= k,
                k <= before.len(),
                self.events@ == before,
                woken@ == wakers(before.take(i as int)),
            decreases k - i,
        {
            woken.push(self.events[i].waker);
            i = i + 1;
            assert(woken@ =~= wakers(before.take(i as int)));
        }
        let mut rest: Vec<TimerEvent> = Vec::new();
        let mut j: usize = k;
        while j < self.events.len()
            invariant
                k <= j <= before.len(),
                self.events@ == before,
                rest@ == before.subrange(k as int, j as int),
            decreases before.len() - j,
        {
            rest.push(self.events[j]);
            j = j + 1;
            assert(rest@ =~= before.subrange(k as int, j as int));
        }
        proof {
            assert(rest@ =~= before.skip(k as int));
            assert forall|a: int| 0 <= a < rest@.len() implies (#[trigger] rest@[a]).deadline.wf() by {
                assert(rest@[a] == before[a + k]);
            }
            assert forall|a: int, b: int| 0 <= a <= b < rest@.len() implies #[trigger] rest@[a].deadline.total_nanos()
                <= #[trigger] rest@[b].deadline.total_nanos() by {
                assert(rest@[a] == before[a + k] && rest@[b] == before[b + k]);
            }
        }
        self.events = rest;
        woken
    }
}

/// The timer interrupt on CPU `cpu_id` at time `now`: a tick, then the
/// wake-ups that are due, earliest first.
pub fn timer(ticks: &mut Ticks, queue: &mut Timer, cpu_id: usize, now: Duration) -> (woken: Vec<usize>)
    requires
        old(queue).wf(),
        now.wf(),
    ensures
        ({
            *final(ticks) == Ticks {
                tick: if cpu_id == 0 { next_tick(old(ticks).tick) } else { old(ticks).tick },
                tick_all_processors: next_tick(old(ticks).tick_all_processors),
            }
        }),
        final(queue).wf(),
        woken@.len() <= old(queue).events@.len(),
        woken@ == wakers(old(queue).events@.take(woken@.len() as int)),
        final(queue).events@ == old(queue).events@.skip(woken@.len() as int),
        forall|i: int| 0 <= i < woken@.len() ==> (#[trigger] old(queue).events@[i]).due(now),
        forall|i: int| woken@.len() <= i < old(queue).events@.len() ==> !(#[trigger] old(queue).events@[i]).due(now),
{
    ticks.do_tick(cpu_id);
    queue.expire(now)
}

/// The byte that a character from the serial line puts into the terminal:
/// a carriage return becomes a newline.
pub fn serial(c: u8) -> (b: u8)
    ensures
        b == if c == 0x0d { 0x0au8 } else { c },
{
    if c == 0x0d {
        0x0a
    } else {
        c
    }
}

/// Expiring splits the wake-ups, held in deadline order, into those woken
/// (the first ones, all due) and those kept (none due): together they are
/// what was held, and each part is still in deadline order.
pub proof fn lemma_expire_keeps_order(events: Seq<TimerEvent>, k: int, now: Duration)
    requires
        deadline_ordered(events),
        0 <= k <= events.len(),
        forall|i: int| 0 <= i < k ==> (#[trigger] events[i]).due(now),
        forall|i: int| k <= i < events.len() ==> !(#[trigger] events[i]).due(now),
    ensures
        deadline_ordered(events.take(k)),
        deadline_ordered(events.skip(k)),
        forall|i: int| 0 <= i < events.skip(k).len() ==> !(#[trigger] events.skip(k)[i]).due(now),
        events.take(k) + events.skip(k) == events,
{
    assert(events.take(k) + events.skip(k) =~= events);
    assert forall|i: int, j: int| 0 <= i <= j < events.take(k).len() implies #[trigger] events.take(k)[i].deadline.total_nanos()
        <= #[trigger] events.take(k)[j].deadline.total_nanos() by {
        assert(events.take(k)[i] == events[i] && events.take(k)[j] == events[j]);
    }
    assert forall|i: int, j: int| 0 <= i <= j < events.skip(k).len() implies #[trigger] events.skip(k)[i].deadline.total_nanos()
        <= #[trigger] events.skip(k)[j].deadline.total_nanos() by {
        assert(events.skip(k)[i] == events[i + k] && events.skip(k)[j] == events[j + k]);
    }
    assert forall|i: int| 0 <= i < events.skip(k).len() implies !(#[trigger] events.skip(k)[i]).due(now) by {
        assert(events.skip(k)[i] == events[i + k]);
    }
}

} // verus!
