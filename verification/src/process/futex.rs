//! Futexes: queues of waiters that a wake call releases in order.

use vstd::prelude::*;

use std::collections::BTreeMap;
use std::collections::VecDeque;

use crate::sync::event_bus::Poll;
use crate::syscall::SysResult;

verus! {

broadcast use vstd::std_specs::btree::group_btree_axioms;

/// A thread waiting on a futex.
#[derive(Debug, Clone, Copy, PartialEq, Eq, Structural)]
pub struct Waiter {
    /// The waker to call when woken, once the waiter has queued.
    pub waker: Option<usize>,
    pub woken: bool,
    /// The futex waited on.
    pub futex: usize,
}

/// The waiters of a futex, by id, first come first.
pub struct FutexInner {
    pub waiters: VecDeque<usize>,
}

pub struct Futex {
    pub inner: FutexInner,
}

/// The waiter table after waiter `id` is woken: marked woken, its waker
/// taken. An id that is not in the table changes nothing.
pub open spec fn mark_woken(ws: Map<usize, Waiter>, id: usize) -> Map<usize, Waiter> {
    if ws.contains_key(id) {
        ws.insert(id, Waiter { waker: None, woken: true, futex: ws[id].futex })
    } else {
        ws
    }
}

/// The waker that waking waiter `id` calls: its own, where it has one.
pub open spec fn waker_taken(ws: Map<usize, Waiter>, id: usize) -> Seq<usize> {
    if ws.contains_key(id) && ws[id].waker is Some {
        seq![ws[id].waker->0]
    } else {
        Seq::empty()
    }
}

/// Waking the waiters `ids` one after another, first to last: the waiter
/// table afterwards, and the wakers called, in order.
pub open spec fn wake_all(ws: Map<usize, Waiter>, ids: Seq<usize>) -> (Map<usize, Waiter>, Seq<usize>)
    decreases ids.len(),
{
    if ids.len() == 0 {
        (ws, Seq::empty())
    } else {
        let before = wake_all(ws, ids.drop_last());
        (mark_woken(before.0, ids.last()), before.1 + waker_taken(before.0, ids.last()))
    }
}

/// Waking keeps the table's ids, and every waiter woken that is in the
/// table is marked woken.
pub proof fn lemma_wake_all_marks(ws: Map<usize, Waiter>, ids: Seq<usize>)
    ensures
        wake_all(ws, ids).0.dom() == ws.dom(),
        forall|j: int| 0 <= j < ids.len() && ws.contains_key(#[trigger] ids[j]) ==> wake_all(ws, ids).0[ids[j]].woken,
    decreases ids.len(),
{
    if ids.len() > 0 {
        let rest = ids.drop_last();
        lemma_wake_all_marks(ws, rest);
        let m = wake_all(ws, rest).0;
        assert(mark_woken(m, ids.last()).dom() =~= ws.dom());
        assert forall|j: int| 0 <= j < ids.len() && ws.contains_key(#[trigger] ids[j]) implies wake_all(ws, ids).0[ids[j]].woken by {
            if j < ids.len() - 1 {
                assert(rest[j] == ids[j]);
            }
        }
    }
}

impl Futex {
    /// A futex with no waiter.
    pub fn new() -> (f: Self)
        ensures
            f.inner.waiters@ == Seq::<usize>::empty(),
    {
        Futex { inner: FutexInner { waiters: VecDeque::new() } }
    }

    /// Releases the first `wake_count` waiters, or all where there are
    /// fewer: each leaves the queue, is marked woken in the waiter table
    /// `waiters` and has its waker called. Returns how many were released
    /// (what `futex` returns) and the wakers to call, in order. A released
    /// waiter's next poll is ready (see `poll_wait`).
    pub fn wake(&mut self, waiters: &mut BTreeMap<usize, Waiter>, wake_count: usize) -> (r: (usize, Vec<usize>))
        ensures
            r.0 == if wake_count < old(self).inner.waiters@.len() {
                wake_count as int
            } else {
                old(self).inner.waiters@.len() as int
            },
            final(self).inner.waiters@ == old(self).inner.waiters@.skip(r.0 as int),
            final(waiters)@ == wake_all(old(waiters)@, old(self).inner.waiters@.take(r.0 as int)).0,
            r.1@ == wake_all(old(waiters)@, old(self).inner.waiters@.take(r.0 as int)).1,
            forall|j: int|
                0 <= j < r.0 && old(waiters)@.contains_key(#[trigger] old(self).inner.waiters@[j])
                    ==> final(waiters)@[old(self).inner.waiters@[j]].woken,
    {
        let ghost q = self.inner.waiters@;
        let ghost ws0 = waiters@;
        let mut wakers: Vec<usize> = Vec::new();
        let mut i: usize = 0;
        while i < wake_count && self.inner.waiters.len() > 0
            invariant
                i <= wake_count,
                i <= q.len(),
                self.inner.waiters@ == q.skip(i as int),
                waiters@ == wake_all(ws0, q.take(i as int)).0,
                wakers@ == wake_all(ws0, q.take(i as int)).1,
            decreases wake_count - i,
        {
            match self.inner.waiters.pop_front() {
                Some(id) => {
                    proof {
                        assert(q.skip(i as int)[0] == q[i as int]);
                        assert(self.inner.waiters@ =~= q.skip(i + 1));
                        assert(q.take(i + 1).drop_last() =~= q.take(i as int));
                        assert(q.take(i + 1).last() == id);
                    }
                    let ghost before = waiters@;
                    match waiters.get(&id) {
                        Some(w) => {
                            let w = *w;
                            match w.waker {
                                Some(k) => wakers.push(k),
                                None => {},
                            }
                            waiters.insert(id, Waiter { waker: None, woken: true, futex: w.futex });
                        },
                        None => {},
                    }
                    proof {
                        assert(waiters@ =~= mark_woken(before, id));
                    }
                },
                None => {},
            }
            i = i + 1;
        }
        proof {
            lemma_wake_all_marks(ws0, q.take(i as int));
            assert forall|j: int| 0 <= j < i implies q.take(i as int)[j] == #[trigger] q[j] by {}
        }
        (i, wakers)
    }

    /// A new waiter on the futex numbered `futex`.
    pub fn wait(futex: usize) -> (w: Waiter)
        ensures
            w.waker is None,
            !w.woken,
            w.futex == futex,
    {
        Waiter { waker: None, woken: false, futex }
    }

    /// One poll of the wait of waiter `id` of the table `waiters` on this
    /// futex: done, with 0, once it was woken; on its first poll the waiter
    /// joins the queue and keeps `waker`; else it goes on waiting.
    pub fn poll_wait(&mut self, waiters: &mut BTreeMap<usize, Waiter>, id: usize, waker: usize) -> (r: Poll<SysResult>)
        requires
            old(waiters)@.contains_key(id),
        ensures
            old(waiters)@[id].woken ==> r == Poll::Ready(Ok::<usize, crate::syscall::SysError>(0))
                && final(waiters)@ == old(waiters)@ && final(self).inner.waiters@ == old(self).inner.waiters@,
            !old(waiters)@[id].woken && old(waiters)@[id].waker is None ==> r is Pending
                && final(waiters)@ == old(waiters)@.insert(id, Waiter { waker: Some(waker), ..old(waiters)@[id] })
                && final(self).inner.waiters@ == old(self).inner.waiters@.push(id),
            !old(waiters)@[id].woken && old(waiters)@[id].waker is Some ==> r is Pending
                && final(waiters)@ == old(waiters)@ && final(self).inner.waiters@ == old(self).inner.waiters@,
    {
        let w = match waiters.get(&id) {
            Some(w) => *w,
            None => {
                return Poll::Pending;
            },
        };
        if w.woken {
            return Poll::Ready(Ok(0));
        }
        if w.waker.is_none() {
            self.inner.waiters.push_back(id);
            waiters.insert(id, Waiter { waker: Some(waker), ..w });
        }
        Poll::Pending
    }
}

} // verus!
