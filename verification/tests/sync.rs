use std::collections::BTreeMap;
use rcore::process::futex::{Futex, Waiter};
use rcore::sync::atomic_lock::riscv32::AtomicLock as WordLock;
use rcore::sync::atomic_lock::x86_64::AtomicLock;
use rcore::sync::condvar::Condvar;
use rcore::sync::event_bus::{wait_for_event, Event, EventBus, EventHandler, Poll};
use rcore::sync::mpsc::{channel, SendError};
use rcore::sync::mutex::{Mutex, Spin, SpinNoIrq};
use rcore::sync::semaphore::Semaphore;
use rcore::syscall::SysError;

#[test]
fn smoke() {
    let mut ch = channel::<i32>();
    ch.send(1).unwrap();
    assert_eq!(ch.recv().unwrap(), 1);
}

#[test]
fn drop_full() {
    let mut ch = channel::<Box<isize>>();
    ch.send(Box::new(1)).unwrap();
}

#[test]
fn drop_full_shared() {
    let mut ch = channel::<Box<isize>>();
    ch.send(Box::new(1)).unwrap();
    assert!(!ch.is_empty());
}

#[test]
fn smoke_shared() {
    let mut ch = channel::<i32>();
    ch.send(1).unwrap();
    assert_eq!(ch.recv().unwrap(), 1);
    ch.send(1).unwrap();
    assert_eq!(ch.recv().unwrap(), 1);
}

#[test]
fn smoke_threads() {
    let mut ch = channel::<i32>();
    ch.send(1).unwrap();
    assert_eq!(ch.recv().unwrap(), 1);
}

#[test]
fn smoke_port_gone() {
    let mut ch = channel::<i32>();
    ch.drop_receiver();
    assert!(ch.send(1).is_err());
}

#[test]
fn channel_is_first_in_first_out() {
    let mut ch = channel::<i32>();
    ch.send(1).unwrap();
    ch.send(2).unwrap();
    ch.send(3).unwrap();
    assert_eq!(ch.recv().unwrap(), 1);
    assert_eq!(ch.recv().unwrap(), 2);
    ch.send(4).unwrap();
    assert_eq!(ch.recv().unwrap(), 3);
    assert_eq!(ch.recv().unwrap(), 4);
    assert!(ch.is_empty());
}

#[test]
fn recv_fails_once_every_sender_is_gone() {
    let mut ch = channel::<i32>();
    ch.clone_sender();
    ch.send(1).unwrap();
    assert!(matches!(ch.poll_recv(), Poll::Ready(Ok(1))));
    assert!(matches!(ch.poll_recv(), Poll::Pending));
    ch.drop_sender();
    assert!(matches!(ch.poll_recv(), Poll::Pending));
    ch.send(2).unwrap();
    ch.drop_sender();
    assert_eq!(ch.recv().unwrap(), 2);
    assert!(ch.recv().is_err());
    assert!(matches!(ch.poll_recv(), Poll::Ready(Err(_))));
}

#[test]
fn send_after_receiver_gone_gives_value_back() {
    let mut ch = channel::<i32>();
    ch.drop_receiver();
    match ch.send(7) {
        Err(SendError(v)) => assert_eq!(v, 7),
        Ok(()) => panic!("sent to a channel without receiver"),
    }
}

#[test]
fn event_bus_set_wakes_matching_subscribers_once() {
    let mut bus = EventBus::new();
    bus.subscribe(EventHandler::Mask { mask: Event::READABLE, waker: 1 });
    bus.subscribe(EventHandler::Mask { mask: Event::WRITABLE, waker: 2 });
    bus.subscribe(EventHandler::Any { waker: 3 });
    let woken = bus.set(Event(Event::READABLE));
    assert_eq!(woken, vec![1, 3]);
    assert_eq!(bus.get_callback_len(), 1);
    assert_eq!(bus.event.0, Event::READABLE);
    // setting the same event again changes nothing and wakes nobody
    let woken = bus.set(Event(Event::READABLE));
    assert!(woken.is_empty());
    assert_eq!(bus.get_callback_len(), 1);
    let woken = bus.clear(Event(Event::READABLE));
    assert!(woken.is_empty());
    assert_eq!(bus.event.0, 0);
    let woken = bus.change(Event(0), Event(Event::WRITABLE | Event::ERROR));
    assert_eq!(woken, vec![2]);
    assert_eq!(bus.event.0, Event::WRITABLE | Event::ERROR);
}

#[test]
fn wait_for_event_ready_or_subscribes() {
    let mut bus = EventBus::new();
    match wait_for_event(&mut bus, Event(Event::CHILD_PROCESS_QUIT), 5) {
        Poll::Pending => {}
        Poll::Ready(_) => panic!("nothing was set"),
    }
    assert_eq!(bus.get_callback_len(), 1);
    let woken = bus.set(Event(Event::CHILD_PROCESS_QUIT));
    assert_eq!(woken, vec![5]);
    match wait_for_event(&mut bus, Event(Event::CHILD_PROCESS_QUIT), 5) {
        Poll::Ready(e) => assert_eq!(e.0, Event::CHILD_PROCESS_QUIT),
        Poll::Pending => panic!("the event is set"),
    }
    assert!(Event::empty().is_empty());
}

#[test]
fn semaphore_counts_and_waits() {
    let mut sem = Semaphore::new(1);
    assert_eq!(sem.get(), 1);
    assert_eq!(sem.poll_acquire(10), Poll::Ready(Ok(())));
    assert_eq!(sem.get(), 0);
    assert_eq!(sem.poll_acquire(11), Poll::Pending);
    assert_eq!(sem.get_ncnt(), 1);
    let woken = sem.release();
    assert_eq!(woken, vec![11]);
    assert_eq!(sem.get(), 1);
    assert_eq!(sem.get_ncnt(), 0);
    sem.set_pid(42);
    assert_eq!(sem.get_pid(), 42);
    let _ = sem.set(5);
    assert_eq!(sem.get(), 5);
    let _ = sem.remove();
    assert_eq!(sem.poll_acquire(12), Poll::Ready(Err(SysError::EIDRM)));
}

#[test]
fn semaphore_negative_count_and_guard() {
    let mut sem = Semaphore::new(-1);
    assert_eq!(sem.poll_access(1).is_pending(), true);
    let woken = sem.release();
    assert!(woken.is_empty());
    assert_eq!(sem.get(), 0);
    let _ = sem.release();
    let guard = match sem.poll_access(2) {
        Poll::Ready(Ok(g)) => g,
        _ => panic!("a resource is free"),
    };
    assert_eq!(sem.get(), 0);
    let _ = sem.release_guard(guard);
    assert_eq!(sem.get(), 1);
}

#[test]
fn semaphore_release_notifies_waiters_though_the_event_stays_set() {
    let mut sem = Semaphore::new(0);
    let _ = sem.set(2);
    let _ = sem.set(-1);
    assert_eq!(sem.poll_acquire(7), Poll::Pending);
    assert_eq!(sem.poll_acquire(8), Poll::Pending);
    assert!(sem.release().is_empty());
    assert_eq!(sem.release(), vec![7, 8]);
    assert_eq!(sem.get(), 1);
    assert_eq!(sem.get_ncnt(), 0);
    assert_eq!(sem.poll_acquire(9), Poll::Ready(Ok(())));
}

trait IsPending {
    fn is_pending(&self) -> bool;
}

impl<T> IsPending for Poll<T> {
    fn is_pending(&self) -> bool {
        matches!(self, Poll::Pending)
    }
}

#[test]
fn futex_wakes_in_order() {
    let mut futex = Futex::new();
    let mut waiters = BTreeMap::new();
    waiters.insert(1usize, Futex::wait(0));
    waiters.insert(2usize, Futex::wait(0));
    waiters.insert(3usize, Futex::wait(0));
    assert!(futex.poll_wait(&mut waiters, 1, 101).is_pending());
    assert!(futex.poll_wait(&mut waiters, 2, 102).is_pending());
    assert!(futex.poll_wait(&mut waiters, 3, 103).is_pending());
    // a second poll does not queue again
    assert!(futex.poll_wait(&mut waiters, 1, 101).is_pending());
    assert_eq!(futex.wake(&mut waiters, 2), (2, vec![101, 102]));
    let a: Waiter = waiters[&1];
    assert!(a.woken && a.waker.is_none());
    assert_eq!(futex.poll_wait(&mut waiters, 1, 101), Poll::Ready(Ok(0)));
    assert_eq!(futex.poll_wait(&mut waiters, 2, 102), Poll::Ready(Ok(0)));
    assert!(futex.poll_wait(&mut waiters, 3, 103).is_pending());
    assert_eq!(futex.wake(&mut waiters, 5), (1, vec![103]));
    assert_eq!(futex.poll_wait(&mut waiters, 3, 103), Poll::Ready(Ok(0)));
    assert_eq!(futex.wake(&mut waiters, 5), (0, vec![]));
}

#[test]
fn atomic_locks() {
    let mut l = AtomicLock::new();
    assert!(!l.load());
    assert!(l.try_lock());
    assert!(l.load());
    assert!(!l.try_lock());
    l.store();
    assert!(!l.load());

    let mut w = WordLock::new();
    assert!(!w.load());
    assert!(w.try_lock());
    assert!(w.load());
    assert!(!w.try_lock());
    w.store();
    assert!(w.try_lock());
}

#[test]
fn mutex_lock_and_try_lock() {
    let mut flags: usize = 0x202;
    let mut m: Mutex<u32, Spin> = Mutex::new(7);
    assert!(!m.locked);
    let g = m.lock(&mut flags, 1, 2);
    assert!(m.locked);
    assert_eq!(m.user, (1, 2));
    assert!(m.try_lock(&mut flags).is_none());
    m.unlock(g, &mut flags);
    assert!(!m.locked);
    let g = m.try_lock(&mut flags).unwrap();
    m.unlock(g, &mut flags);
    assert_eq!(flags, 0x202);
    assert_eq!(m.into_inner(), 7);

    let mut n: Mutex<u8, SpinNoIrq> = Mutex::new(1);
    let g = n.lock(&mut flags, 0, 0);
    assert_eq!(flags, 0x002);
    assert_eq!(g.support_guard.flags(), 0x202);
    assert!(n.try_lock(&mut flags).is_none());
    assert_eq!(flags, 0x002);
    n.unlock(g, &mut flags);
    assert_eq!(flags, 0x202);
    let g = n.try_lock(&mut flags).unwrap();
    assert_eq!(flags, 0x002);
    assert!(n.try_lock(&mut flags).is_none());
    assert_eq!(flags, 0x002);
    n.unlock(g, &mut flags);
    assert_eq!(flags, 0x202);
    let mut off: usize = 0x2;
    let g = n.try_lock(&mut off).unwrap();
    n.unlock(g, &mut off);
    assert_eq!(off, 0x2);
    let _g = n.try_lock(&mut flags).unwrap();
    n.force_unlock();
    assert!(!n.locked);
    n.force_unlock();
    assert!(!n.locked);
    assert_eq!(n.into_inner(), 1);
}

#[test]
fn condvar_notifications() {
    let mut cv = Condvar::new();
    assert!(cv.notify_one().is_none());
    cv.add_to_wait_queue(4);
    cv.add_to_wait_queue(5);
    cv.add_to_wait_queue(6);
    cv.register_epoll_list(4, 9, 3);
    cv.register_epoll_list(5, 9, 4);
    let (t, ready) = cv.notify_one().unwrap();
    assert_eq!(t, 4);
    assert_eq!(ready, vec![(9, 3)]);
    assert_eq!(cv.notify_all(), vec![4, 5, 6]);
    assert_eq!(cv.notify_n(2), vec![4, 5]);
    assert_eq!(cv.notify_n(10), vec![4, 5, 6]);
    assert!(cv.unregister_epoll_list(4, 9, 3));
    assert!(!cv.unregister_epoll_list(4, 9, 3));
    assert_eq!(cv.epoll_callback(5), vec![(9, 4)]);
}

#[test]
fn condvar_wait_events_registers_then_leaves() {
    let mut a = Condvar::new();
    a.add_to_wait_queue(1);
    let b = Condvar::new();
    let mut cvs = vec![a, b];
    Condvar::wait_events_register(&mut cvs, 7);
    assert_eq!(cvs[0].wait_queue.iter().copied().collect::<Vec<_>>(), vec![1, 7]);
    assert_eq!(cvs[1].wait_queue.iter().copied().collect::<Vec<_>>(), vec![7]);
    assert_eq!(Condvar::wait_events_check::<u32>(&mut cvs, 7, None), None);
    assert_eq!(cvs[1].wait_queue.len(), 1);
    assert_eq!(Condvar::wait_events_check(&mut cvs, 7, Some(5u32)), Some(5));
    assert_eq!(cvs[0].wait_queue.iter().copied().collect::<Vec<_>>(), vec![1]);
    assert!(cvs[1].wait_queue.is_empty());
}
