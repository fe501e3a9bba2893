//! A channel: what is sent comes out in the order it went in, while the
//! receiving side exists; once every sending side is gone and nothing is
//! left, receiving fails.

use vstd::prelude::*;

use std::collections::VecDeque;

use crate::sync::event_bus::Poll;

verus! {

/// The receiving side is gone, so nothing more can come.
#[derive(Debug)]
pub struct RecvError;

/// The receiving side is gone; the value comes back.
#[derive(Debug)]
pub struct SendError<T>(pub T);

/// The queue of a channel, whether its receiving side still exists, and
/// how many sending sides it has.
pub struct Channel<T> {
    deque: VecDeque<T>,
    receiver_alive: bool,
    senders: usize,
}

impl<T> Channel<T> {
    /// The values sent and not yet received, oldest first.
    pub closed spec fn queue(&self) -> Seq<T> {
        self.deque@
    }

    pub closed spec fn receiver_alive(&self) -> bool {
        self.receiver_alive
    }

    /// The number of sending sides.
    pub closed spec fn senders(&self) -> nat {
        self.senders as nat
    }

    /// Whether the channel has hung up: no sending side is left.
    pub open spec fn hung_up(&self) -> bool {
        self.senders() == 0
    }

    /// A new sending side, cloned from one that exists.
    pub fn clone_sender(&mut self)
        requires
            old(self).senders() > 0,
            old(self).senders() < usize::MAX,
        ensures
            final(self).senders() == old(self).senders() + 1,
            final(self).queue() == old(self).queue(),
            final(self).receiver_alive() == old(self).receiver_alive(),
    {
        self.senders = self.senders + 1;
    }

    /// A sending side is dropped.
    pub fn drop_sender(&mut self)
        requires
            old(self).senders() > 0,
        ensures
            final(self).senders() == old(self).senders() - 1,
            final(self).queue() == old(self).queue(),
            final(self).receiver_alive() == old(self).receiver_alive(),
    {
        self.senders = self.senders - 1;
    }

    /// Sends `t`: it joins the queue while the receiving side exists, else it
    /// comes back in the error.
    pub fn send(&mut self, t: T) -> (r: Result<(), SendError<T>>)
        ensures
            final(self).receiver_alive() == old(self).receiver_alive(),
            final(self).senders() == old(self).senders(),
            old(self).receiver_alive() ==> r is Ok && final(self).queue() == old(self).queue().push(t),
            !old(self).receiver_alive() ==> r == Err::<(), SendError<T>>(SendError(t))
                && final(self).queue() == old(self).queue(),
    {
        if self.receiver_alive {
            self.deque.push_back(t);
            Ok(())
        } else {
            Err(SendError(t))
        }
    }

    /// One poll of a receive: the oldest value where one waits; `RecvError`
    /// where none waits and the channel has hung up; else the receiver
    /// waits for a send.
    pub fn poll_recv(&mut self) -> (r: Poll<Result<T, RecvError>>)
        ensures
            final(self).receiver_alive() == old(self).receiver_alive(),
            final(self).senders() == old(self).senders(),
            old(self).queue().len() > 0 ==> (r matches Poll::Ready(Ok(v)) && v == old(self).queue()[0])
                && final(self).queue() == old(self).queue().drop_first(),
            old(self).queue().len() == 0 ==> final(self).queue() == old(self).queue(),
            old(self).queue().len() == 0 && old(self).hung_up() ==> (r matches Poll::Ready(Err(_))),
            old(self).queue().len() == 0 && !old(self).hung_up() ==> r is Pending,
    {
        match self.deque.pop_front() {
            Some(v) => {
                proof {
                    assert(self.deque@ =~= old(self).deque@.drop_first());
                }
                Poll::Ready(Ok(v))
            },
            None => {
                if self.senders == 0 {
                    Poll::Ready(Err(RecvError))
                } else {
                    Poll::Pending
                }
            },
        }
    }

    /// Receives the oldest value, or fails with `RecvError` where none is
    /// left and the channel has hung up. (With nothing to receive and a
    /// sending side left, `recv` waits for a send; see `poll_recv`.)
    pub fn recv(&mut self) -> (r: Result<T, RecvError>)
        requires
            old(self).queue().len() > 0 || old(self).hung_up(),
        ensures
            old(self).queue().len() > 0 ==> (r matches Ok(v) && v == old(self).queue()[0]),
            old(self).queue().len() == 0 ==> r is Err,
            final(self).queue() == if old(self).queue().len() > 0 {
                old(self).queue().drop_first()
            } else {
                old(self).queue()
            },
            final(self).receiver_alive() == old(self).receiver_alive(),
            final(self).senders() == old(self).senders(),
    {
        match self.poll_recv() {
            Poll::Ready(r) => r,
            Poll::Pending => Err(RecvError),
        }
    }

    /// Whether a value is waiting.
    pub fn is_empty(&self) -> (b: bool)
        ensures
            b == (self.queue().len() == 0),
    {
        self.deque.len() == 0
    }

    /// Drops the receiving side.
    pub fn drop_receiver(&mut self)
        ensures
            !final(self).receiver_alive(),
            final(self).queue() == old(self).queue(),
            final(self).senders() == old(self).senders(),
    {
        self.receiver_alive = false;
    }
}

/// A new channel: empty, with its receiving side and one sending side.
pub fn channel<T>() -> (c: Channel<T>)
    ensures
        c.queue() == Seq::<T>::empty(),
        c.receiver_alive(),
        c.senders() == 1,
{
    Channel { deque: VecDeque::new(), receiver_alive: true, senders: 1 }
}

/// A channel is first in, first out: after `x` is sent, the next value
/// received is the oldest one waiting, or `x` where none was, and the rest
/// keep their order with `x` last.
pub proof fn lemma_channel_fifo<T>(queue: Seq<T>, x: T)
    ensures
        queue.len() == 0 ==> queue.push(x)[0] == x && queue.push(x).drop_first() == Seq::<T>::empty(),
        queue.len() > 0 ==> queue.push(x)[0] == queue[0] && queue.push(x).drop_first() == queue.drop_first().push(x),
{
    if queue.len() == 0 {
        assert(queue.push(x).drop_first() =~= Seq::<T>::empty());
    } else {
        assert(queue.push(x).drop_first() =~= queue.drop_first().push(x));
    }
}

/// The queue after the values `vs` are sent one by one, in order, to a
/// live channel whose queue is `queue`: each `send` puts one at the back.
pub open spec fn queue_after_sends<T>(queue: Seq<T>, vs: Seq<T>) -> Seq<T>
    decreases vs.len(),
{
    if vs.len() == 0 {
        queue
    } else {
        queue_after_sends(queue.push(vs[0]), vs.drop_first())
    }
}

/// The values that `n` calls of `recv` give, in order, from a channel whose
/// queue is `queue`: each takes the one at the front.
pub open spec fn values_received<T>(queue: Seq<T>, n: nat) -> Seq<T>
    decreases n,
{
    if n == 0 || queue.len() == 0 {
        Seq::empty()
    } else {
        seq![queue[0]] + values_received(queue.drop_first(), (n - 1) as nat)
    }
}

/// The queue after `n` calls of `recv` on a channel whose queue is `queue`.
pub open spec fn queue_after_receives<T>(queue: Seq<T>, n: nat) -> Seq<T>
    decreases n,
{
    if n == 0 || queue.len() == 0 {
        queue
    } else {
        queue_after_receives(queue.drop_first(), (n - 1) as nat)
    }
}

/// The model's single steps are those of the contracts: a `send` pushes
/// at the back, a `recv` takes the front.
pub proof fn lemma_channel_steps<T>(queue: Seq<T>, x: T)
    ensures
        queue_after_sends(queue, seq![x]) == queue.push(x),
        queue.len() > 0 ==> values_received(queue, 1) == seq![queue[0]],
        queue.len() > 0 ==> queue_after_receives(queue, 1) == queue.drop_first(),
{
    assert(seq![x].drop_first() =~= Seq::<T>::empty());
    assert(seq![x][0] == x);
    assert(queue_after_sends(queue.push(x), Seq::<T>::empty()) == queue.push(x));
    if queue.len() > 0 {
        assert(queue_after_receives(queue.drop_first(), 0) == queue.drop_first());
        assert(values_received(queue.drop_first(), 0) == Seq::<T>::empty());
        assert(seq![queue[0]] + Seq::<T>::empty() =~= seq![queue[0]]);
    }
}

proof fn lemma_sends_append<T>(queue: Seq<T>, vs: Seq<T>)
    ensures
        queue_after_sends(queue, vs) == queue + vs,
    decreases vs.len(),
{
    if vs.len() > 0 {
        lemma_sends_append(queue.push(vs[0]), vs.drop_first());
        assert(queue.push(vs[0]) + vs.drop_first() =~= queue + vs);
    } else {
        assert(queue + vs =~= queue);
    }
}

proof fn lemma_receives_take<T>(queue: Seq<T>, n: nat)
    requires
        n <= queue.len(),
    ensures
        values_received(queue, n) == queue.take(n as int),
        queue_after_receives(queue, n) == queue.skip(n as int),
    decreases n,
{
    if n == 0 {
        assert(queue.take(0) =~= Seq::<T>::empty());
        assert(queue.skip(0) =~= queue);
    } else {
        lemma_receives_take(queue.drop_first(), (n - 1) as nat);
        assert(seq![queue[0]] + queue.drop_first().take(n - 1) =~= queue.take(n as int));
        assert(queue.drop_first().skip(n - 1) =~= queue.skip(n as int));
    }
}

/// A channel is first in, first out for any number of values: where the
/// values `vs` are sent in order to a live channel holding `queue`, the
/// next `queue.len() + vs.len()` calls of `recv` give the values waiting
/// before and then `vs`, in order, and leave the channel empty; in
/// particular, from a new channel, `vs.len()` receives give back exactly
/// `vs`.
pub proof fn lemma_channel_fifo_all<T>(queue: Seq<T>, vs: Seq<T>)
    ensures
        values_received(queue_after_sends(queue, vs), queue.len() + vs.len()) == queue + vs,
        queue_after_receives(queue_after_sends(queue, vs), queue.len() + vs.len()) == Seq::<T>::empty(),
        values_received(queue_after_sends(Seq::<T>::empty(), vs), vs.len()) == vs,
{
    lemma_sends_append(queue, vs);
    lemma_receives_take(queue + vs, queue.len() + vs.len());
    assert((queue + vs).take((queue.len() + vs.len()) as int) =~= queue + vs);
    assert((queue + vs).skip((queue.len() + vs.len()) as int) =~= Seq::<T>::empty());
    lemma_sends_append(Seq::<T>::empty(), vs);
    lemma_receives_take(Seq::<T>::empty() + vs, vs.len());
    assert(Seq::<T>::empty() + vs =~= vs);
    assert(vs.take(vs.len() as int) =~= vs);
}

} // verus!
