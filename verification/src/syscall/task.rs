//! The process system calls' decisions: what a `clone` makes, whom `wait4`
//! waits for and what it finds, and what a thread's exit does.

use vstd::prelude::*;

use std::collections::BTreeMap;

use crate::process::proc::FdTable;
use crate::process::thread::ThreadContext;
use crate::syscall::{SysError, SysResult};

verus! {

broadcast use {vstd::std_specs::btree::group_btree_axioms, vstd::laws_cmp::group_laws_cmp};

/// What a `clone` makes.
#[derive(Debug, Clone, Copy, PartialEq, Eq, Structural)]
pub enum CloneKind {
    /// A new process, as `fork`.
    Fork,
    /// A new thread of the process, as musl's `pthread_create`.
    Thread,
}

pub const CLONE_CHILD_CLEARTID: usize = 0x200000;

/// The `clone` flags that are served: those of `fork` (0x4111 and 0x11) and
/// those of a thread (0x7d0f00, and 0x5d0f00 from Alpine's gcc); others are
/// `ENOSYS`.
pub fn clone_kind(flags: usize) -> (r: Result<CloneKind, SysError>)
    ensures
        r == if flags == 0x4111 || flags == 0x11 {
            Ok::<CloneKind, SysError>(CloneKind::Fork)
        } else if flags == 0x7d0f00 || flags == 0x5d0f00 {
            Ok::<CloneKind, SysError>(CloneKind::Thread)
        } else {
            Err(SysError::ENOSYS)
        },
{
    if flags == 0x4111 || flags == 0x11 {
        Ok(CloneKind::Fork)
    } else if flags == 0x7d0f00 || flags == 0x5d0f00 {
        Ok(CloneKind::Thread)
    } else {
        Err(SysError::ENOSYS)
    }
}

/// Whether the new thread clears its tid word when it exits.
pub fn clone_clears_child_tid(flags: usize) -> (b: bool)
    ensures
        b == (flags & CLONE_CHILD_CLEARTID == CLONE_CHILD_CLEARTID),
{
    flags & CLONE_CHILD_CLEARTID == CLONE_CHILD_CLEARTID
}

/// Whom `wait4` waits for.
#[derive(Debug, Clone, Copy, PartialEq, Eq, Structural)]
pub enum WaitFor {
    AnyChild,
    AnyChildInGroup,
    Pid(usize),
}

/// `wait4`'s reading of `pid`: -1 any child, 0 any child in the group,
/// a positive one that process.
pub fn wait_target(pid: isize) -> (w: WaitFor)
    requires
        pid >= -1,
    ensures
        w == if pid == -1 {
            WaitFor::AnyChild
        } else if pid == 0 {
            WaitFor::AnyChildInGroup
        } else {
            WaitFor::Pid(pid as usize)
        },
{
    if pid == -1 {
        WaitFor::AnyChild
    } else if pid == 0 {
        WaitFor::AnyChildInGroup
    } else {
        WaitFor::Pid(pid as usize)
    }
}

/// A child as its parent sees it: whether it still exists and, if so,
/// whether it has exited and with what code.
#[derive(Debug, Clone, Copy, PartialEq, Eq, Structural)]
pub struct ChildInfo {
    pub pid: usize,
    pub alive: bool,
    pub exited: bool,
    pub exit_code: usize,
}

/// What one look of `wait4` finds.
#[derive(Debug, Clone, Copy, PartialEq, Eq, Structural)]
pub enum WaitOutcome {
    /// This process has exited with this code: reap it.
    Found { pid: usize, exit_code: usize },
    /// Nobody to wait for: `ECHILD`.
    NoChild,
    /// Wait for a child to quit, then look again.
    Sleep,
}

/// The first child that exists and has exited.
pub open spec fn first_exited(children: Seq<ChildInfo>) -> Option<int> {
    if exists|i: int| 0 <= i < children.len() && children[i].alive && children[i].exited {
        Some(choose|i: int| 0 <= i < children.len() && children[i].alive && children[i].exited
            && forall|j: int| 0 <= j < i ==> !(children[j].alive && children[j].exited))
    } else {
        None
    }
}

/// `wait4`'s look at the children (and, waiting for a pid, at that process
/// as the process table has it): an exited one is found; else it is
/// `ECHILD` where no existing child fits; else it waits.
pub open spec fn wait_outcome(target: WaitFor, children: Seq<ChildInfo>, target_proc: Option<(bool, usize)>) -> WaitOutcome {
    let live_fits = match target {
        WaitFor::Pid(p) => exists|i: int| 0 <= i < children.len() && children[i].alive && children[i].pid == p,
        _ => exists|i: int| 0 <= i < children.len() && children[i].alive,
    };
    match target {
        WaitFor::Pid(p) => match target_proc {
            Some((true, code)) => WaitOutcome::Found { pid: p, exit_code: code },
            _ => if live_fits { WaitOutcome::Sleep } else { WaitOutcome::NoChild },
        },
        _ => match first_exited(children) {
            Some(i) => WaitOutcome::Found { pid: children[i].pid, exit_code: children[i].exit_code },
            None => if live_fits { WaitOutcome::Sleep } else { WaitOutcome::NoChild },
        },
    }
}

/// One look of `wait4`.
pub fn wait_look(target: WaitFor, children: &Vec<ChildInfo>, target_proc: Option<(bool, usize)>) -> (o: WaitOutcome)
    ensures
        o == wait_outcome(target, children@, target_proc),
{
    let mut found: Option<usize> = None;
    let mut live: bool = false;
    let mut i: usize = 0;
    while i < children.len()
        invariant
            i <= children@.len(),
            found is None ==> forall|j: int| 0 <= j < i ==> !(children@[j].alive && children@[j].exited),
            found matches Some(k) ==> k < i && children@[k as int].alive && children@[k as int].exited
                && forall|j: int| 0 <= j < k ==> !(children@[j].alive && children@[j].exited),
            live == match target {
                WaitFor::Pid(p) => exists|j: int| 0 <= j < i && children@[j].alive && children@[j].pid == p,
                _ => exists|j: int| 0 <= j < i && children@[j].alive,
            },
        decreases children@.len() - i,
    {
        let c = children[i];
        if found.is_none() && c.alive && c.exited {
            found = Some(i);
        }
        let fits = match target {
            WaitFor::Pid(p) => c.alive && c.pid == p,
            _ => c.alive,
        };
        if fits {
            live = true;
        }
        proof {
            match target {
                WaitFor::Pid(p) => {
                    if fits {
                        assert(children@[i as int].alive && children@[i as int].pid == p);
                    }
                },
                _ => {
                    if fits {
                        assert(children@[i as int].alive);
                    }
                },
            }
        }
        i = i + 1;
    }
    match target {
        WaitFor::Pid(p) => match target_proc {
            Some((true, code)) => WaitOutcome::Found { pid: p, exit_code: code },
            _ => if live { WaitOutcome::Sleep } else { WaitOutcome::NoChild },
        },
        _ => match found {
            Some(k) => {
                proof {
                    let c = choose|i: int| 0 <= i < children@.len() && children@[i].alive && children@[i].exited
                        && forall|j: int| 0 <= j < i ==> !(children@[j].alive && children@[j].exited);
                    assert(c == k as int) by {
                        if c < k {
                            assert(!(children@[c].alive && children@[c].exited));
                        } else if c > k {
                            assert(!(children@[k as int].alive && children@[k as int].exited));
                        }
                    }
                }
                WaitOutcome::Found { pid: children[k].pid, exit_code: children[k].exit_code }
            },
            None => if live { WaitOutcome::Sleep } else { WaitOutcome::NoChild },
        },
    }
}

/// What one look of `wait4` decides, by what it finds:
/// - waiting for any child (of any group), an existing child that has
///   exited is reaped, the first such in order; with none exited, the call
///   sleeps exactly when some child still exists, and fails with `ECHILD`
///   exactly when none does;
/// - waiting for `p`, the process is reaped where it has exited; else the
///   call sleeps exactly when `p` is an existing child, and fails with
///   `ECHILD` exactly when it is not.
pub proof fn lemma_wait_outcome_cases(target: WaitFor, children: Seq<ChildInfo>, target_proc: Option<(bool, usize)>)
    ensures
        !(target is Pid) && (exists|i: int| 0 <= i < children.len() && children[i].alive && children[i].exited) ==> (
        wait_outcome(target, children, target_proc) matches WaitOutcome::Found { pid, exit_code } && exists|i: int|
            0 <= i < children.len() && #[trigger] children[i].alive && children[i].exited && children[i].pid == pid
                && children[i].exit_code == exit_code && forall|j: int|
                0 <= j < i ==> !(children[j].alive && children[j].exited)),
        !(target is Pid) && !(exists|i: int| 0 <= i < children.len() && children[i].alive && children[i].exited) ==> {
            &&& (exists|i: int| 0 <= i < children.len() && children[i].alive) ==> wait_outcome(target, children, target_proc)
                == WaitOutcome::Sleep
            &&& !(exists|i: int| 0 <= i < children.len() && children[i].alive) ==> wait_outcome(target, children, target_proc)
                == WaitOutcome::NoChild
        },
        target matches WaitFor::Pid(p) ==> match target_proc {
            Some((true, code)) => wait_outcome(target, children, target_proc) == (WaitOutcome::Found { pid: p, exit_code: code }),
            _ => {
                &&& (exists|i: int| 0 <= i < children.len() && children[i].alive && children[i].pid == p)
                    ==> wait_outcome(target, children, target_proc) == WaitOutcome::Sleep
                &&& !(exists|i: int| 0 <= i < children.len() && children[i].alive && children[i].pid == p)
                    ==> wait_outcome(target, children, target_proc) == WaitOutcome::NoChild
            },
        },
{
    if !(target is Pid) && (exists|i: int| 0 <= i < children.len() && children[i].alive && children[i].exited) {
        let w = choose|i: int| 0 <= i < children.len() && children[i].alive && children[i].exited;
        lemma_first_exited_exists(children, w);
    }
}

proof fn lemma_first_exited_exists(children: Seq<ChildInfo>, w: int)
    requires
        0 <= w < children.len() && children[w].alive && children[w].exited,
    ensures
        exists|i: int| 0 <= i < children.len() && children[i].alive && children[i].exited
            && forall|j: int| 0 <= j < i ==> !(children[j].alive && children[j].exited),
    decreases w,
{
    if exists|j: int| 0 <= j < w && children[j].alive && children[j].exited {
        let j = choose|j: int| 0 <= j < w && children[j].alive && children[j].exited;
        lemma_first_exited_exists(children, j);
    } else {
        assert(forall|j: int| 0 <= j < w ==> !(children[j].alive && children[j].exited));
    }
}

/// The children left after `pid` is reaped.
pub fn reap_child(children: &mut Vec<usize>, pid: usize)
    ensures
        final(children)@ == old(children)@.filter(|c: usize| c != pid),
{
    let ghost before = children@;
    let ghost keep = |c: usize| c != pid;
    let mut kept: Vec<usize> = Vec::new();
    let mut i: usize = 0;
    while i < children.len()
        invariant
            i <= before.len(),
            children@ == before,
            keep == (|c: usize| c != pid),
            kept@ == before.take(i as int).filter(keep),
        decreases before.len() - i,
    {
        let c = children[i];
        proof {
            assert(before.take(i + 1) =~= before.take(i as int).push(c));
            before.take(i as int).lemma_filter_push(c, keep);
        }
        if c != pid {
            kept.push(c);
        }
        i = i + 1;
    }
    proof {
        assert(before.take(before.len() as int) =~= before);
    }
    *children = kept;
}

/// A thread leaves its process: `exit` takes `tid` out of the threads;
/// the process exits with the last one. Returns whether it did.
pub fn exit_thread(threads: &mut Vec<usize>, tid: usize) -> (process_exits: bool)
    ensures
        final(threads)@ == old(threads)@.filter(|t: usize| t != tid),
        process_exits == (final(threads)@.len() == 0),
{
    reap_child(threads, tid);
    threads.len() == 0
}

/// `exec` once its arguments are read: `EINVAL` where there are none.
pub fn exec_check_args(argc: usize) -> (r: Result<(), SysError>)
    ensures
        r == if argc == 0 { Err::<(), SysError>(SysError::EINVAL) } else { Ok(()) },
{
    if argc == 0 {
        Err(SysError::EINVAL)
    } else {
        Ok(())
    }
}

/// `exec` once the new image is loaded with its entry at `entry_addr` and
/// its stack at `ustack_top`: only the calling thread `tid` is left, the
/// descriptors marked close-on-exec are closed, and the caller goes on at
/// the entry, on the new stack.
pub fn exec_commit(
    threads: &mut Vec<usize>,
    tid: usize,
    files: &mut FdTable,
    ctx: &mut ThreadContext,
    entry_addr: usize,
    ustack_top: usize,
)
    ensures
        final(threads)@ == old(threads)@.filter(|t: usize| t == tid),
        final(files).view() == old(files).view().restrict(
            old(files).view().dom().filter(|fd: usize| !old(files).closes_on_exec(fd)),
        ),
        *final(ctx) == (ThreadContext { ip: entry_addr, sp: ustack_top, ..*old(ctx) }),
{
    let ghost before = threads@;
    let ghost keep = |t: usize| t == tid;
    let mut kept: Vec<usize> = Vec::new();
    let mut i: usize = 0;
    while i < threads.len()
        invariant
            i <= before.len(),
            threads@ == before,
            keep == (|t: usize| t == tid),
            kept@ == before.take(i as int).filter(keep),
        decreases before.len() - i,
    {
        let t = threads[i];
        proof {
            assert(before.take(i + 1) =~= before.take(i as int).push(t));
            before.take(i as int).lemma_filter_push(t, keep);
        }
        if t == tid {
            kept.push(t);
        }
        i = i + 1;
    }
    proof {
        assert(before.take(before.len() as int) =~= before);
    }
    *threads = kept;
    files.close_on_exec();
    ctx.ip = entry_addr;
    ctx.sp = ustack_top;
}

/// `getppid`: the parent's pid while the parent exists, else 0.
pub fn getppid(parent_pid: usize, parent_alive: bool) -> (r: SysResult)
    ensures
        r == Ok::<usize, SysError>(if parent_alive { parent_pid } else { 0 }),
{
    if parent_alive {
        Ok(parent_pid)
    } else {
        Ok(0)
    }
}

/// `getpgid`: the group of `pid` (0 for the caller); `ESRCH` for an
/// unknown process.
pub fn getpgid(pgids: &BTreeMap<usize, i32>, pid: usize, current: usize) -> (r: SysResult)
    ensures
        ({
            let p = if pid == 0 { current } else { pid };
            r == if pgids@.contains_key(p) { Ok::<usize, SysError>(pgids@[p] as usize) } else { Err(SysError::ESRCH) }
        }),
{
    let p = if pid == 0 { current } else { pid };
    match pgids.get(&p) {
        Some(g) => Ok(*g as usize),
        None => Err(SysError::ESRCH),
    }
}

/// `setpgid`: sets the group of `pid` (0 for the caller); `ESRCH` for an
/// unknown process.
pub fn setpgid(pgids: &mut BTreeMap<usize, i32>, pid: usize, pgid: usize, current: usize) -> (r: SysResult)
    ensures
        ({
            let p = if pid == 0 { current } else { pid };
            &&& r == if old(pgids)@.contains_key(p) { Ok::<usize, SysError>(0) } else { Err(SysError::ESRCH) }
            &&& final(pgids)@ == if old(pgids)@.contains_key(p) { old(pgids)@.insert(p, pgid as i32) } else { old(pgids)@ }
        }),
{
    let p = if pid == 0 { current } else { pid };
    if pgids.contains_key(&p) {
        pgids.insert(p, pgid as i32);
        Ok(0)
    } else {
        Err(SysError::ESRCH)
    }
}

} // verus!
