//! Condition variables: the threads that wait on one, and the epoll
//! instances that a notification marks ready.

use vstd::prelude::*;

use std::collections::VecDeque;

verus! {

/// An epoll registration: thread `tid` watches `fd` through epoll instance
/// `epfd`.
#[derive(Debug, Clone, Copy, PartialEq, Eq, Structural)]
pub struct RegisteredProcess {
    pub tid: usize,
    pub epfd: usize,
    pub fd: usize,
}

/// The waiting threads, first come first, and the epoll registrations.
pub struct Condvar {
    pub wait_queue: VecDeque<usize>,
    pub epoll_queue: Vec<RegisteredProcess>,
}

/// The (epoll instance, descriptor) pairs that waking `tid` marks ready.
pub open spec fn epoll_ready(regs: Seq<RegisteredProcess>, tid: usize) -> Seq<(usize, usize)> {
    regs.filter_map(|r: RegisteredProcess| if r.tid == tid { Some((r.epfd, r.fd)) } else { None })
}

impl Condvar {
    pub fn new() -> (c: Self)
        ensures
            c.wait_queue@ == Seq::<usize>::empty(),
            c.epoll_queue@ == Seq::<RegisteredProcess>::empty(),
    {
        Condvar { wait_queue: VecDeque::new(), epoll_queue: Vec::new() }
    }

    /// Thread `tid` joins the waiters.
    pub fn add_to_wait_queue(&mut self, tid: usize)
        ensures
            final(self).wait_queue@ == old(self).wait_queue@.push(tid),
            final(self).epoll_queue@ == old(self).epoll_queue@,
    {
        self.wait_queue.push_back(tid);
    }

    /// The epoll entries that waking `tid` marks ready.
    pub fn epoll_callback(&self, tid: usize) -> (ready: Vec<(usize, usize)>)
        ensures
            ready@ == epoll_ready(self.epoll_queue@, tid),
    {
        let ghost f = |r: RegisteredProcess| if r.tid == tid { Some((r.epfd, r.fd)) } else { None };
        let mut ready: Vec<(usize, usize)> = Vec::new();
        let mut i: usize = 0;
        while i < self.epoll_queue.len()
            invariant
                i <= self.epoll_queue@.len(),
                f == (|r: RegisteredProcess| if r.tid == tid { Some((r.epfd, r.fd)) } else { None }),
                ready@ == self.epoll_queue@.take(i as int).filter_map(f),
            decreases self.epoll_queue@.len() - i,
        {
            let r = self.epoll_queue[i];
            proof {
                self.epoll_queue@.lemma_filter_map_take_succ(f, i as int);
            }
            if r.tid == tid {
                ready.push((r.epfd, r.fd));
            }
            i = i + 1;
        }
        proof {
            assert(self.epoll_queue@.take(self.epoll_queue@.len() as int) =~= self.epoll_queue@);
        }
        ready
    }

    /// A thread that stops waiting (its condition held) leaves the queue;
    /// the other waiters keep their order. `wait_events` registers the
    /// thread on each of its condition variables and takes it out of each.
    pub fn remove_waiter(&mut self, tid: usize)
        ensures
            final(self).wait_queue@ == old(self).wait_queue@.filter(|t: usize| t != tid),
            final(self).epoll_queue@ == old(self).epoll_queue@,
    {
        let ghost before = self.wait_queue@;
        let ghost keep = |t: usize| t != tid;
        let mut kept: VecDeque<usize> = VecDeque::new();
        let mut i: usize = 0;
        while i < self.wait_queue.len()
            invariant
                i <= before.len(),
                self.wait_queue@ == before,
                keep == (|t: usize| t != tid),
                kept@ == before.take(i as int).filter(keep),
            decreases before.len() - i,
        {
            let t = self.wait_queue[i];
            proof {
                assert(before.take(i + 1) =~= before.take(i as int).push(t));
                before.take(i as int).lemma_filter_push(t, keep);
            }
            if t != tid {
                kept.push_back(t);
            }
            i = i + 1;
        }
        proof {
            assert(before.take(before.len() as int) =~= before);
        }
        self.wait_queue = kept;
    }

    /// Wakes the first waiter, which stays in the queue: gives it, with the
    /// epoll entries that it marks ready.
    pub fn notify_one(&self) -> (r: Option<(usize, Vec<(usize, usize)>)>)
        ensures
            self.wait_queue@.len() == 0 ==> r is None,
            self.wait_queue@.len() > 0 ==> (r matches Some((t, ready)) && t == self.wait_queue@[0]
                && ready@ == epoll_ready(self.epoll_queue@, t)),
    {
        if self.wait_queue.len() == 0 {
            return None;
        }
        let t = self.wait_queue[0];
        let ready = self.epoll_callback(t);
        Some((t, ready))
    }

    /// Wakes every waiter; gives them in order.
    pub fn notify_all(&self) -> (woken: Vec<usize>)
        ensures
            woken@ == self.wait_queue@,
    {
        let mut woken: Vec<usize> = Vec::new();
        let mut i: usize = 0;
        while i < self.wait_queue.len()
            invariant
                i <= self.wait_queue@.len(),
                woken@ == self.wait_queue@.take(i as int),
            decreases self.wait_queue@.len() - i,
        {
            woken.push(self.wait_queue[i]);
            i = i + 1;
            assert(woken@ =~= self.wait_queue@.take(i as int));
        }
        assert(woken@ =~= self.wait_queue@);
        woken
    }

    /// Wakes up to `n` waiters, the first ones; gives them (their number is
    /// what `notify_n` returns).
    pub fn notify_n(&self, n: usize) -> (woken: Vec<usize>)
        ensures
            woken@ == self.wait_queue@.take(if n < self.wait_queue@.len() { n as int } else { self.wait_queue@.len() as int }),
    {
        let mut woken: Vec<usize> = Vec::new();
        let mut i: usize = 0;
        while i < self.wait_queue.len() && i < n
            invariant
                i <= self.wait_queue@.len(),
                i <= n,
                woken@ == self.wait_queue@.take(i as int),
            decreases self.wait_queue@.len() - i,
        {
            woken.push(self.wait_queue[i]);
            i = i + 1;
            assert(woken@ =~= self.wait_queue@.take(i as int));
        }
        woken
    }

    /// Records an epoll registration.
    pub fn register_epoll_list(&mut self, tid: usize, epfd: usize, fd: usize)
        ensures
            final(self).epoll_queue@ == old(self).epoll_queue@.push(RegisteredProcess { tid, epfd, fd }),
            final(self).wait_queue@ == old(self).wait_queue@,
    {
        self.epoll_queue.push(RegisteredProcess { tid, epfd, fd });
    }

    /// Removes the first registration of (`tid`, `epfd`, `fd`); returns
    /// whether there was one.
    pub fn unregister_epoll_list(&mut self, tid: usize, epfd: usize, fd: usize) -> (found: bool)
        ensures
            final(self).wait_queue@ == old(self).wait_queue@,
            found == old(self).epoll_queue@.contains(RegisteredProcess { tid, epfd, fd }),
            found ==> exists|i: int| 0 <= i < old(self).epoll_queue@.len()
                && old(self).epoll_queue@[i] == (RegisteredProcess { tid, epfd, fd })
                && (forall|j: int| 0 <= j < i ==> old(self).epoll_queue@[j] != (RegisteredProcess { tid, epfd, fd }))
                && final(self).epoll_queue@ == old(self).epoll_queue@.remove(i),
            !found ==> final(self).epoll_queue@ == old(self).epoll_queue@,
    {
        let target = RegisteredProcess { tid, epfd, fd };
        let mut idx: usize = 0;
        while idx < self.epoll_queue.len()
            invariant
                idx <= self.epoll_queue@.len(),
                self.epoll_queue@ == old(self).epoll_queue@,
                self.wait_queue@ == old(self).wait_queue@,
                target == (RegisteredProcess { tid, epfd, fd }),
                forall|j: int| 0 <= j < idx ==> self.epoll_queue@[j] != target,
            decreases self.epoll_queue@.len() - idx,
        {
            let r = self.epoll_queue[idx];
            if r.tid == tid && r.epfd == epfd && r.fd == fd {
                proof {
                    assert(old(self).epoll_queue@[idx as int] == target);
                }
                self.epoll_queue.remove(idx);
                return true;
            }
            idx = idx + 1;
        }
        proof {
            if old(self).epoll_queue@.contains(target) {
                let k = choose|k: int| 0 <= k < old(self).epoll_queue@.len() && old(self).epoll_queue@[k] == target;
                assert(old(self).epoll_queue@[k] != target);
            }
        }
        false
    }

    /// How `wait_events` starts: thread `tid` joins the waiters of each of
    /// `condvars`. It then sleeps until one of them is notified.
    pub fn wait_events_register(condvars: &mut Vec<Condvar>, tid: usize)
        ensures
            final(condvars)@.len() == old(condvars)@.len(),
            forall|i: int| 0 <= i < old(condvars)@.len() ==> (#[trigger] final(condvars)@[i]).wait_queue@
                == old(condvars)@[i].wait_queue@.push(tid) && final(condvars)@[i].epoll_queue@
                == old(condvars)@[i].epoll_queue@,
    {
        let mut i: usize = 0;
        while i < condvars.len()
            invariant
                i <= condvars@.len(),
                condvars@.len() == old(condvars)@.len(),
                forall|k: int| 0 <= k < i ==> (#[trigger] condvars@[k]).wait_queue@ == old(condvars)@[k].wait_queue@.push(tid)
                    && condvars@[k].epoll_queue@ == old(condvars)@[k].epoll_queue@,
                forall|k: int| i <= k < condvars@.len() ==> #[trigger] condvars@[k] == old(condvars)@[k],
            decreases condvars@.len() - i,
        {
            condvars[i].add_to_wait_queue(tid);
            i = i + 1;
        }
    }

    /// What `wait_events` does each time thread `tid` wakes, given what its
    /// condition gave, `outcome`: where the condition holds, the thread
    /// leaves the waiters of each of `condvars` (the others keep their
    /// order) and the wait ends with the outcome; where it does not, nothing
    /// changes and the thread yields and sleeps again.
    pub fn wait_events_check<T>(condvars: &mut Vec<Condvar>, tid: usize, outcome: Option<T>) -> (r: Option<T>)
        ensures
            r == outcome,
            final(condvars)@.len() == old(condvars)@.len(),
            outcome is None ==> final(condvars)@ == old(condvars)@,
            outcome is Some ==> forall|i: int| 0 <= i < old(condvars)@.len() ==> (#[trigger] final(condvars)@[i]).wait_queue@
                == old(condvars)@[i].wait_queue@.filter(|t: usize| t != tid) && final(condvars)@[i].epoll_queue@
                == old(condvars)@[i].epoll_queue@,
    {
        if outcome.is_none() {
            return outcome;
        }
        let mut i: usize = 0;
        while i < condvars.len()
            invariant
                i <= condvars@.len(),
                condvars@.len() == old(condvars)@.len(),
                forall|k: int| 0 <= k < i ==> (#[trigger] condvars@[k]).wait_queue@ == old(condvars)@[k].wait_queue@.filter(
                    |t: usize| t != tid,
                ) && condvars@[k].epoll_queue@ == old(condvars)@[k].epoll_queue@,
                forall|k: int| i <= k < condvars@.len() ==> #[trigger] condvars@[k] == old(condvars)@[k],
            decreases condvars@.len() - i,
        {
            condvars[i].remove_waiter(tid);
            i = i + 1;
        }
        outcome
    }
}

} // verus!
