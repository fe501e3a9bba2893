//! System V semaphores: the checks of `semget`, and what `semop` and
//! `semctl` do to one semaphore of a set.

use vstd::prelude::*;

use crate::sync::event_bus::{changed_events, Event, EventBus, Poll};
use crate::sync::semaphore::Semaphore;
use crate::memory::{MemoryAttr, PAGE_SIZE};
use crate::syscall::{SysError, SysResult};

verus! {

/// The most semaphores of a set.
pub const SEMMSL: usize = 256;

/// `semget`'s check of the number of semaphores: from 0 to 256, else
/// `EINVAL`.
pub fn semget_nsems(nsems: isize) -> (r: Result<usize, SysError>)
    ensures
        r == if nsems < 0 || nsems > SEMMSL { Err::<usize, SysError>(SysError::EINVAL) } else { Ok(nsems as usize) },
{
    if nsems < 0 || nsems as usize > SEMMSL {
        Err(SysError::EINVAL)
    } else {
        Ok(nsems as usize)
    }
}

pub const IPC_RMID: usize = 0;
pub const IPC_SET: usize = 1;
pub const IPC_STAT: usize = 2;
pub const GETPID: usize = 11;
pub const GETVAL: usize = 12;
pub const GETALL: usize = 13;
pub const GETNCNT: usize = 14;
pub const GETZCNT: usize = 15;
pub const SETVAL: usize = 16;
pub const SETALL: usize = 17;

/// The commands of `semctl` on one semaphore.
pub open spec fn semctl_one_cmd(cmd: usize) -> bool {
    cmd == GETPID || cmd == GETVAL || cmd == GETNCNT || cmd == GETZCNT || cmd == SETVAL
}

/// `semctl` on one semaphore of a set, by the process `pid`: the pid of the
/// last operation, the count (as an unsigned word), the number of waiters,
/// 0 waiting for zero, or setting the count.
pub fn semctl_one(sem: &mut Semaphore, cmd: usize, arg: isize, pid: usize) -> (r: SysResult)
    requires
        semctl_one_cmd(cmd),
    ensures
        cmd == GETPID ==> r == Ok::<usize, SysError>(old(sem).pid) && *final(sem) == *old(sem),
        cmd == GETVAL ==> r == Ok::<usize, SysError>(old(sem).count as usize) && *final(sem) == *old(sem),
        cmd == GETNCNT ==> r == Ok::<usize, SysError>(old(sem).eventbus.callbacks@.len() as usize) && *final(sem) == *old(sem),
        cmd == GETZCNT ==> r == Ok::<usize, SysError>(0) && *final(sem) == *old(sem),
        cmd == SETVAL ==> {
            &&& r == Ok::<usize, SysError>(0)
            &&& final(sem).count == arg
            &&& final(sem).pid == pid
            &&& final(sem).removed == old(sem).removed
            &&& arg >= 1 ==> final(sem).eventbus.event.0 == changed_events(
                old(sem).eventbus.event.0, 0, Event::SEMAPHORE_CAN_ACQUIRE)
                && exists|w: Seq<usize>| EventBus::changed(old(sem).eventbus, final(sem).eventbus, w)
            &&& arg < 1 ==> final(sem).eventbus == old(sem).eventbus
        },
{
    if cmd == GETPID {
        Ok(sem.get_pid())
    } else if cmd == GETVAL {
        Ok(sem.get() as usize)
    } else if cmd == GETNCNT {
        Ok(sem.get_ncnt())
    } else if cmd == GETZCNT {
        Ok(0)
    } else {
        let ghost before = sem.eventbus;
        let woken = sem.set(arg);
        proof {
            if arg >= 1 {
                assert(EventBus::changed(before, sem.eventbus, woken@));
            }
        }
        sem.set_pid(pid);
        Ok(0)
    }
}

pub const IPC_NOWAIT: i16 = 0x800;
pub const SEM_UNDO: i16 = 0x1000;

/// One operation of `semop`.
#[derive(Debug, Clone, Copy, PartialEq, Eq, Structural)]
pub struct SemBuf {
    pub num: u16,
    pub op: i16,
    pub flags: i16,
}

/// One poll of a `semop` operation on its semaphore by process `pid`:
/// `1` gives a resource back, `-1` takes one (or waits). Once done, the
/// semaphore records `pid`; the result tells whether the operation is to be
/// undone when the process ends.
pub fn semop_one(sem: &mut Semaphore, op: &SemBuf, pid: usize, waker: usize) -> (r: Poll<Result<bool, SysError>>)
    requires
        op.op == 1 || op.op == -1,
        op.flags & IPC_NOWAIT == 0,
        op.op == 1 ==> old(sem).count < isize::MAX,
    ensures
        op.op == 1 ==> r == Poll::Ready(Ok::<bool, SysError>(op.flags & SEM_UNDO == SEM_UNDO))
            && final(sem).count == old(sem).count + 1 && final(sem).pid == pid,
        op.op == -1 && old(sem).removed ==> r == Poll::Ready(Err::<bool, SysError>(SysError::EIDRM)),
        op.op == -1 && !old(sem).removed && old(sem).count >= 1 ==> r == Poll::Ready(Ok::<bool, SysError>(
            op.flags & SEM_UNDO == SEM_UNDO,
        )) && final(sem).count == old(sem).count - 1 && final(sem).pid == pid,
        op.op == -1 && !old(sem).removed && old(sem).count < 1 ==> r == Poll::<Result<bool, SysError>>::Pending
            && final(sem).count == old(sem).count,
{
    if op.op == 1 {
        let _woken = sem.release();
    } else {
        match sem.poll_acquire(waker) {
            Poll::Ready(Ok(())) => {},
            Poll::Ready(Err(e)) => {
                return Poll::Ready(Err(e));
            },
            Poll::Pending => {
                return Poll::Pending;
            },
        }
    }
    sem.set_pid(pid);
    Poll::Ready(Ok(op.flags & SEM_UNDO == SEM_UNDO))
}

/// `shmat`: an unknown segment is `EINVAL`; else the search for a free
/// area starts at `addr`, or at the second page for a null address, and
/// the area is user-accessible, writable and executable.
pub fn shmat_plan(known: bool, addr: usize) -> (r: Result<(usize, MemoryAttr), SysError>)
    ensures
        r == if !known {
            Err::<(usize, MemoryAttr), SysError>(SysError::EINVAL)
        } else {
            Ok((if addr == 0 { PAGE_SIZE } else { addr }, MemoryAttr { user: true, readonly: false, execute: true, mmio: 0 }))
        },
{
    if !known {
        return Err(SysError::EINVAL);
    }
    let start = if addr == 0 { PAGE_SIZE } else { addr };
    Ok((start, MemoryAttr::default().user().execute().writable()))
}

} // verus!
