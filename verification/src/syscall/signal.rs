//! The signal system calls' checks and what they change: actions, the
//! blocked mask, the targets of `kill`, and the alternate stack.

use vstd::prelude::*;

use crate::signal::action::{
    Siginfo, SignalAction, SignalStack, Sigset, SI_TKILL, SI_USER, SS_AUTODISARM, SS_DISABLE, SS_ONSTACK,
};
use crate::signal::delivery::{HandlerFrame, ThreadSignals, UserRegs};
use crate::signal::{signal_number, Signal};
use crate::syscall::{SysError, SysResult};

verus! {

/// `rt_sigaction`'s checks: the signal must exist and be neither `SIGKILL`
/// nor `SIGSTOP`, and the set size must be 8; else `EINVAL`.
pub fn sigaction_check(signum: usize, sigsetsize: usize) -> (r: Result<Signal, SysError>)
    ensures
        r is Ok <==> (1 <= signum <= 64 && signum != 9 && signum != 19 && sigsetsize == 8),
        r matches Ok(sig) ==> signal_number(sig) == signum,
        r is Err ==> r == Err::<Signal, SysError>(SysError::EINVAL),
{
    match Signal::from_usize(signum) {
        Some(sig) => {
            let n = sig.number();
            if n == 9 || n == 19 || sigsetsize != 8 {
                Err(SysError::EINVAL)
            } else {
                Ok(sig)
            }
        },
        None => Err(SysError::EINVAL),
    }
}

/// `rt_sigaction` on the table of actions: gives the old action of
/// `signum`, and installs `act` where one is given.
pub fn sigaction_apply(dispositions: &mut Vec<SignalAction>, signum: usize, act: Option<SignalAction>) -> (prev: SignalAction)
    requires
        signum < old(dispositions)@.len(),
    ensures
        prev == old(dispositions)@[signum as int],
        final(dispositions)@ == match act {
            Some(a) => old(dispositions)@.update(signum as int, a),
            None => old(dispositions)@,
        },
{
    let prev = dispositions[signum];
    if let Some(a) = act {
        dispositions.set(signum, a);
    }
    prev
}

pub const SIG_BLOCK: usize = 0;
pub const SIG_UNBLOCK: usize = 1;
pub const SIG_SETMASK: usize = 2;

/// `rt_sigprocmask` on the blocked mask: a set size other than 8 is
/// `EINVAL`; with a set, `how` blocks, unblocks or replaces (another `how`
/// is `EINVAL`).
pub fn sigprocmask(mask: &mut Sigset, how: usize, set: Option<Sigset>, sigsetsize: usize) -> (r: SysResult)
    ensures
        sigsetsize != 8 ==> r == Err::<usize, SysError>(SysError::EINVAL) && *final(mask) == *old(mask),
        sigsetsize == 8 && set is None ==> r == Ok::<usize, SysError>(0) && *final(mask) == *old(mask),
        sigsetsize == 8 && set is Some ==> {
            let s = set.unwrap();
            &&& how == SIG_BLOCK ==> r == Ok::<usize, SysError>(0) && final(mask)@ == old(mask)@.union(s@)
            &&& how == SIG_UNBLOCK ==> r == Ok::<usize, SysError>(0) && final(mask)@ == old(mask)@.difference(s@)
            &&& how == SIG_SETMASK ==> r == Ok::<usize, SysError>(0) && *final(mask) == s
            &&& how > SIG_SETMASK ==> r == Err::<usize, SysError>(SysError::EINVAL) && *final(mask) == *old(mask)
        },
{
    if sigsetsize != 8 {
        return Err(SysError::EINVAL);
    }
    match set {
        None => Ok(0),
        Some(s) => {
            if how == SIG_BLOCK {
                mask.add_set(&s);
                Ok(0)
            } else if how == SIG_UNBLOCK {
                mask.remove_set(&s);
                Ok(0)
            } else if how == SIG_SETMASK {
                *mask = s;
                Ok(0)
            } else {
                Err(SysError::EINVAL)
            }
        },
    }
}

/// The processes that `kill` signals.
#[derive(Debug, Clone, Copy, PartialEq, Eq, Structural)]
pub enum KillTarget {
    /// The process with this pid.
    Process(usize),
    /// The caller's own process group.
    OwnGroup,
    /// Every process.
    All,
    /// The process group with this id.
    Group(usize),
}

/// `kill`'s reading of `pid`, and the information sent; an unknown signal
/// is `EINVAL`.
pub fn kill_target(pid: isize, signum: usize) -> (r: Result<(KillTarget, Siginfo), SysError>)
    requires
        pid > isize::MIN,
    ensures
        !(1 <= signum <= 64) ==> r == Err::<(KillTarget, Siginfo), SysError>(SysError::EINVAL),
        1 <= signum <= 64 ==> r == Ok::<(KillTarget, Siginfo), SysError>((
            if pid > 0 {
                KillTarget::Process(pid as usize)
            } else if pid == 0 {
                KillTarget::OwnGroup
            } else if pid == -1 {
                KillTarget::All
            } else {
                KillTarget::Group((-pid) as usize)
            },
            Siginfo { signo: signum as i32, errno: 0, code: SI_USER },
        )),
{
    match Signal::from_usize(signum) {
        None => Err(SysError::EINVAL),
        Some(_) => {
            let target = if pid > 0 {
                KillTarget::Process(pid as usize)
            } else if pid == 0 {
                KillTarget::OwnGroup
            } else if pid == -1 {
                KillTarget::All
            } else {
                KillTarget::Group((-pid) as usize)
            };
            Ok((target, Siginfo { signo: signum as i32, errno: 0, code: SI_USER }))
        },
    }
}

/// `kill`'s result once the targets are known: a missing process, or an
/// empty group named by a negative pid, is `ESRCH`.
pub fn kill_result(target: KillTarget, targets_found: usize) -> (r: SysResult)
    ensures
        r == match target {
            KillTarget::Process(_) | KillTarget::Group(_) => if targets_found == 0 {
                Err::<usize, SysError>(SysError::ESRCH)
            } else {
                Ok(0)
            },
            _ => Ok::<usize, SysError>(0),
        },
{
    match target {
        KillTarget::Process(_) | KillTarget::Group(_) => if targets_found == 0 {
            Err(SysError::ESRCH)
        } else {
            Ok(0)
        },
        _ => Ok(0),
    }
}

/// `tkill`'s information for thread `tid`; an unknown signal is `EINVAL`.
pub fn tkill_info(signum: usize) -> (r: Result<Siginfo, SysError>)
    ensures
        r == if 1 <= signum <= 64 {
            Ok::<Siginfo, SysError>(Siginfo { signo: signum as i32, errno: 0, code: SI_TKILL })
        } else {
            Err(SysError::EINVAL)
        },
{
    match Signal::from_usize(signum) {
        None => Err(SysError::EINVAL),
        Some(_) => Ok(Siginfo { signo: signum as i32, errno: 0, code: SI_TKILL }),
    }
}

/// The least size of an alternate stack.
pub const MINSIGSTKSZ: usize = 2048;

/// `sigaltstack` with a new stack `ss`: an enabled one (no `SS_DISABLE`)
/// smaller than the least size is `ENOMEM`; flags beyond `SS_AUTODISARM` and `SS_DISABLE`
/// are `EINVAL`; while the thread runs on its stack it is `EPERM`; else the
/// new stack replaces the old.
pub fn sigaltstack(stack: &mut SignalStack, ss: SignalStack) -> (r: SysResult)
    ensures
        r == if ss.flags & SS_DISABLE == 0 && ss.size < MINSIGSTKSZ {
            Err::<usize, SysError>(SysError::ENOMEM)
        } else if ss.flags != ss.flags & (SS_AUTODISARM | SS_DISABLE) {
            Err::<usize, SysError>(SysError::EINVAL)
        } else if old(stack).flags & SS_ONSTACK == SS_ONSTACK {
            Err::<usize, SysError>(SysError::EPERM)
        } else {
            Ok::<usize, SysError>(0)
        },
        r is Ok ==> *final(stack) == ss,
        r is Err ==> *final(stack) == *old(stack),
{
    if ss.flags & SS_DISABLE == 0 && ss.size < MINSIGSTKSZ {
        return Err(SysError::ENOMEM);
    }
    if ss.flags != ss.flags & (SS_AUTODISARM | SS_DISABLE) {
        return Err(SysError::EINVAL);
    }
    if stack.flags & SS_ONSTACK == SS_ONSTACK {
        return Err(SysError::EPERM);
    }
    *stack = ss;
    Ok(0)
}

/// Where `rt_sigreturn` finds the signal frame: just above the return
/// address that the handler's return popped, 8 bytes below the stack
/// pointer.
pub fn sigreturn_frame_addr(sp: usize) -> (addr: usize)
    requires
        sp >= 8,
    ensures
        addr == sp - 8,
{
    sp - 8
}

/// `rt_sigreturn` with the frame that delivery wrote: the alternate stack
/// and the registers go back to what the frame saved.
pub fn rt_sigreturn(frame: &HandlerFrame, t: &mut ThreadSignals, regs: &mut UserRegs)
    ensures
        final(t).alternate_stack == frame.saved_stack,
        final(t).tid == old(t).tid,
        final(t).sig_mask == old(t).sig_mask,
        *final(regs) == frame.saved_regs,
{
    t.alternate_stack = frame.saved_stack;
    *regs = frame.saved_regs;
}

} // verus!
