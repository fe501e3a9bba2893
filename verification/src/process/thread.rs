//! The scheduler's side of a user thread: yielding, the init program, and
//! what the run loop does after each return from user mode.

use vstd::prelude::*;

use crate::process::proc::{is_lowest_free, lowest_free_key, FdTable, FileLike, Pid, Process};
use crate::signal::action::{SignalAction, SignalStack, Sigset, SIG_DFL};
use crate::signal::delivery::ProcessSignals;
use crate::sync::event_bus::Poll;
use crate::syscall::fs::OpenOptions;
use std::collections::BTreeMap;

verus! {

/// A yield: pending once, ready the next time.
pub struct YieldFuture {
    pub flag: bool,
}

/// Yields once to the other tasks.
pub fn yield_now() -> (f: YieldFuture)
    ensures
        !f.flag,
{
    YieldFuture { flag: false }
}

impl YieldFuture {
    /// One poll, by the task whose waker is `waker`: ready where the task
    /// has already yielded, with nothing woken; else it marks that it has,
    /// wakes its own waker at once, so that it runs again, and is pending.
    /// Returns the result and the waker woken.
    pub fn poll(&mut self, waker: usize) -> (r: (Poll<()>, Option<usize>))
        ensures
            old(self).flag ==> r == (Poll::Ready(()), None::<usize>),
            !old(self).flag ==> r == (Poll::<()>::Pending, Some(waker)),
            final(self).flag,
    {
        if self.flag {
            (Poll::Ready(()), None)
        } else {
            self.flag = true;
            (Poll::Pending, Some(waker))
        }
    }
}

/// The program that runs as the init process.
pub struct ShellCommand {
    pub path: String,
    pub args: Vec<String>,
    pub envs: Vec<String>,
}

/// The shell that starts as the init process: busybox's `ash`, with the
/// search path of the x86_64 build.
pub fn add_user_shell() -> (c: ShellCommand)
    ensures
        c.path@ == "/busybox"@,
        c.args@.len() == 2,
        c.args@[0]@ == "busybox"@,
        c.args@[1]@ == "ash"@,
        c.envs@.len() == 1,
        c.envs@[0]@ == "PATH=/usr/sbin:/usr/bin:/sbin:/bin:/usr/x86_64-alpine-linux-musl/bin"@,
{
    let path = "/busybox".to_owned();
    let mut args: Vec<String> = Vec::new();
    args.push("busybox".to_owned());
    args.push("ash".to_owned());
    let mut envs: Vec<String> = Vec::new();
    envs.push("PATH=/usr/sbin:/usr/bin:/sbin:/bin:/usr/x86_64-alpine-linux-musl/bin".to_owned());
    ShellCommand { path, args, envs }
}

/// The init process: the user shell.
pub fn init() -> (c: ShellCommand)
    ensures
        c.path@ == "/busybox"@,
        c.args@.len() == 2,
        c.args@[0]@ == "busybox"@,
        c.args@[1]@ == "ash"@,
        c.envs@.len() == 1,
        c.envs@[0]@ == "PATH=/usr/sbin:/usr/bin:/sbin:/bin:/usr/x86_64-alpine-linux-musl/bin"@,
{
    add_user_shell()
}

pub const TRAP_SYSCALL: usize = 0x100;
pub const TRAP_PAGE_FAULT: usize = 0xe;
pub const IRQ_BASE: usize = 0x20;
pub const IRQ_LAST: usize = 0x3f;
pub const IRQ_TIMER: usize = 0x20;
pub const IRQ_COM1: usize = 0x24;

/// What the run loop of a user thread does after a trap.
#[derive(Debug, Clone, Copy, PartialEq, Eq, Structural)]
pub enum TrapAction {
    /// Serve the system call.
    Syscall,
    /// Acknowledge the interrupt; then run the timer, read the serial
    /// line, or neither.
    Interrupt { timer: bool, serial: bool },
    /// Resolve the page fault at the faulting address.
    PageFault,
    /// Nothing.
    Ignore,
}

/// The run loop's reading of a trap number: a system call, an interrupt
/// line (the timer and the serial line named), a page fault; on any other
/// trap the loop does nothing and runs the thread again.
pub fn trap_action(trap_num: usize) -> (a: TrapAction)
    ensures
        a == if trap_num == TRAP_SYSCALL {
            TrapAction::Syscall
        } else if IRQ_BASE <= trap_num <= IRQ_LAST {
            TrapAction::Interrupt { timer: trap_num == IRQ_TIMER, serial: trap_num == IRQ_COM1 }
        } else if trap_num == TRAP_PAGE_FAULT {
            TrapAction::PageFault
        } else {
            TrapAction::Ignore
        },
{
    if trap_num == TRAP_SYSCALL {
        TrapAction::Syscall
    } else if IRQ_BASE <= trap_num && trap_num <= IRQ_LAST {
        TrapAction::Interrupt { timer: trap_num == IRQ_TIMER, serial: trap_num == IRQ_COM1 }
    } else if trap_num == TRAP_PAGE_FAULT {
        TrapAction::PageFault
    } else {
        TrapAction::Ignore
    }
}

/// The registers of a user thread that the kernel sets: where it runs,
/// its stack, the value a system call returns, its thread pointer and its
/// flags.
#[derive(Debug, Clone, Copy, PartialEq, Eq, Structural)]
pub struct ThreadContext {
    pub ip: usize,
    pub sp: usize,
    pub syscall_ret: usize,
    pub tls: usize,
    pub rflags: usize,
}

/// Interrupts on, and the reserved bits, for a new user thread on x86_64.
pub const USER_RFLAGS: usize = 0x3202;

/// The first context of a program: at its entry, on its stack.
pub fn new_user_context(entry_addr: usize, ustack_top: usize) -> (c: ThreadContext)
    ensures
        c == (ThreadContext { ip: entry_addr, sp: ustack_top, syscall_ret: 0, tls: 0, rflags: USER_RFLAGS }),
{
    ThreadContext { ip: entry_addr, sp: ustack_top, syscall_ret: 0, tls: 0, rflags: USER_RFLAGS }
}

/// The child of a `fork` goes on where the parent is, seeing 0 returned.
pub fn fork_context(parent: &ThreadContext) -> (c: ThreadContext)
    ensures
        c == (ThreadContext { syscall_ret: 0, ..*parent }),
{
    ThreadContext { syscall_ret: 0, ..*parent }
}

/// A new thread of the process goes on where the caller is, on its own
/// stack and thread pointer, seeing 0 returned.
pub fn clone_context(parent: &ThreadContext, stack_top: usize, tls: usize) -> (c: ThreadContext)
    ensures
        c == (ThreadContext { syscall_ret: 0, sp: stack_top, tls, ..*parent }),
{
    ThreadContext { syscall_ret: 0, sp: stack_top, tls, ..*parent }
}

/// How each of the first three descriptors of a program opens the
/// terminal: 0 for reading, 1 and 2 for writing.
pub fn initial_open_options(fd: usize) -> (o: OpenOptions)
    requires
        fd < 3,
    ensures
        o == (OpenOptions { read: fd == 0, write: fd != 0, append: false, nonblock: false }),
{
    OpenOptions { read: fd == 0, write: fd != 0, append: false, nonblock: false }
}

/// The id of a new thread: the lowest from `Pid::INIT` up that no thread
/// has.
pub fn alloc_tid<V>(threads: &BTreeMap<usize, V>) -> (tid: usize)
    requires
        Pid::INIT + threads@.dom().len() < usize::MAX,
    ensures
        is_lowest_free(threads@, Pid::INIT, tid),
{
    lowest_free_key(threads, Pid::INIT)
}

/// An open file description: the path it was opened with and how.
pub struct OpenDescription {
    pub path: String,
    pub options: OpenOptions,
}

/// A thread: its id, the registers it resumes with, the user address to
/// clear when it exits, its signal mask and its alternate signal stack.
#[derive(Debug, Clone, Copy, PartialEq, Eq, Structural)]
pub struct Thread {
    pub tid: usize,
    pub context: ThreadContext,
    pub clear_child_tid: usize,
    pub sig_mask: Sigset,
    pub alternate_stack: SignalStack,
}

/// The action a new process has for every signal: the default one.
pub open spec fn is_default_action(a: SignalAction) -> bool {
    &&& a.handler == SIG_DFL
    &&& a.flags == 0
    &&& a.restorer == 0
    &&& a.mask.view() == Set::<int>::empty()
}

/// The actions of a new process: the default one for each of the signal
/// numbers 0 to 64.
pub fn default_dispositions() -> (d: Vec<SignalAction>)
    ensures
        d@.len() == 65,
        forall|i: int| 0 <= i < 65 ==> is_default_action(#[trigger] d@[i]),
{
    let mut d: Vec<SignalAction> = Vec::new();
    let mut i: usize = 0;
    while i < 65
        invariant
            i <= 65,
            d@.len() == i,
            forall|k: int| 0 <= k < i ==> is_default_action(#[trigger] d@[k]),
        decreases 65 - i,
    {
        d.push(SignalAction { handler: SIG_DFL, flags: 0, restorer: 0, mask: Sigset::empty() });
        i = i + 1;
    }
    d
}

/// The actions `d` copied one by one.
fn copy_dispositions(d: &Vec<SignalAction>) -> (c: Vec<SignalAction>)
    ensures
        c@ == d@,
{
    let mut c: Vec<SignalAction> = Vec::new();
    let mut i: usize = 0;
    while i < d.len()
        invariant
            i <= d@.len(),
            c@ == d@.take(i as int),
        decreases d@.len() - i,
    {
        c.push(d[i]);
        proof {
            assert(d@.take(i + 1) =~= d@.take(i as int).push(d@[i as int]));
        }
        i = i + 1;
    }
    proof {
        assert(d@.take(d@.len() as int) =~= d@);
    }
    c
}

impl Thread {
    /// Puts the thread into the thread table under the lowest free id from
    /// `Pid::INIT` up, which becomes its tid.
    pub fn add_to_table(self, threads: &mut BTreeMap<usize, Thread>) -> (t: Thread)
        requires
            Pid::INIT + old(threads)@.dom().len() < usize::MAX,
        ensures
            is_lowest_free(old(threads)@, Pid::INIT, t.tid),
            t == (Thread { tid: t.tid, ..self }),
            final(threads)@ == old(threads)@.insert(t.tid, t),
    {
        let tid = lowest_free_key(threads, Pid::INIT);
        let t = Thread { tid, ..self };
        threads.insert(tid, t);
        t
    }

    /// A new user process running a program whose memory is laid out, with
    /// entry point `entry_addr` and stack top `ustack_top`. Three open file
    /// descriptions of `/dev/tty` join the table `descriptions` (where a
    /// description's id is its place), opened as `initial_open_options`
    /// says: the first for reading only, the other two for writing only;
    /// descriptors 0, 1 and 2 refer to them in that order. The one thread
    /// takes the lowest free tid, which is also the pid. The process has
    /// exactly those three descriptors, works in `/`, runs `exec_path`, is
    /// in group 0, has no futex, no child, no live parent, no queued or
    /// pending signal and the default action for every signal; the thread
    /// starts at the entry point on the stack with no signal masked and no
    /// alternate stack.
    pub fn new_user(
        threads: &mut BTreeMap<usize, Thread>,
        descriptions: &mut Vec<OpenDescription>,
        exec_path: &str,
        entry_addr: usize,
        ustack_top: usize,
    ) -> (r: (Thread, Process))
        requires
            Pid::INIT + old(threads)@.dom().len() < usize::MAX,
            old(descriptions)@.len() + 3 <= usize::MAX,
        ensures
            ({
                let (t, p) = r;
                let d = old(descriptions)@.len();
                &&& is_lowest_free(old(threads)@, Pid::INIT, t.tid)
                &&& t == (Thread {
                    tid: t.tid,
                    context: ThreadContext { ip: entry_addr, sp: ustack_top, syscall_ret: 0, tls: 0, rflags: USER_RFLAGS },
                    clear_child_tid: 0,
                    sig_mask: t.sig_mask,
                    alternate_stack: SignalStack { sp: 0, flags: crate::signal::action::SS_DISABLE, size: 0 },
                })
                &&& t.sig_mask.view() == Set::<int>::empty()
                &&& final(threads)@ == old(threads)@.insert(t.tid, t)
                &&& final(descriptions)@.len() == d + 3
                &&& final(descriptions)@.take(d as int) == old(descriptions)@
                &&& forall|i: int| 0 <= i < 3 ==> (#[trigger] final(descriptions)@[d + i]).path@ == "/dev/tty"@
                    && final(descriptions)@[d + i].options == (OpenOptions {
                        read: i == 0,
                        write: i != 0,
                        append: false,
                        nonblock: false,
                    })
                &&& p.files.view() == map![
                    0usize => FileLike::File { description: d as usize, cloexec: false },
                    1usize => FileLike::File { description: (d + 1) as usize, cloexec: false },
                    2usize => FileLike::File { description: (d + 2) as usize, cloexec: false },
                ]
                &&& p.cwd@ == "/"@
                &&& p.exec_path@ == exec_path@
                &&& p.futexes@ == Map::<usize, usize>::empty()
                &&& p.pid == t.tid
                &&& p.pgid == 0
                &&& p.parent == 0
                &&& !p.parent_alive
                &&& p.children@ == Seq::<usize>::empty()
                &&& p.threads@ == Seq::<usize>::empty()
                &&& p.child_exit_code@ == Map::<usize, usize>::empty()
                &&& p.signals.sig_queue@.len() == 0
                &&& p.signals.pending_sigset.view() == Set::<int>::empty()
                &&& p.signals.dispositions@.len() == 65
                &&& forall|i: int| 0 <= i < 65 ==> is_default_action(#[trigger] p.signals.dispositions@[i])
            }),
    {
        let ghost before = descriptions@;
        let base = descriptions.len();
        let mut files = FdTable::new();
        let mut fd: usize = 0;
        while fd < 3
            invariant
                fd <= 3,
                base == before.len(),
                base + 3 <= usize::MAX,
                descriptions@.len() == base + fd,
                descriptions@.take(base as int) == before,
                forall|i: int| 0 <= i < fd ==> (#[trigger] descriptions@[base + i]).path@ == "/dev/tty"@
                    && descriptions@[base + i].options == (OpenOptions {
                        read: i == 0,
                        write: i != 0,
                        append: false,
                        nonblock: false,
                    }),
                forall|k: usize| #[trigger] files.view().contains_key(k) <==> k < fd,
                forall|k: usize| k < fd ==> #[trigger] files.view()[k] == (FileLike::File { description: (base + k) as usize, cloexec: false }),
            decreases 3 - fd,
        {
            let ghost prev = descriptions@;
            descriptions.push(OpenDescription { path: "/dev/tty".to_owned(), options: initial_open_options(fd) });
            proof {
                assert(descriptions@.take(base as int) =~= prev.take(base as int));
                assert forall|i: int| 0 <= i < fd implies #[trigger] descriptions@[base + i] == prev[base + i] by {}
            }
            files.insert(fd, FileLike::File { description: base + fd, cloexec: false });
            fd = fd + 1;
        }
        let thread = Thread {
            tid: 0,
            context: new_user_context(entry_addr, ustack_top),
            clear_child_tid: 0,
            sig_mask: Sigset::empty(),
            alternate_stack: SignalStack::default(),
        };
        let t = thread.add_to_table(threads);
        let p = Process {
            files,
            cwd: "/".to_owned(),
            exec_path: exec_path.to_owned(),
            futexes: BTreeMap::new(),
            pid: t.tid,
            pgid: 0,
            parent: 0,
            parent_alive: false,
            children: Vec::new(),
            threads: Vec::new(),
            child_exit_code: BTreeMap::new(),
            signals: ProcessSignals {
                sig_queue: Vec::new(),
                pending_sigset: Sigset::empty(),
                dispositions: default_dispositions(),
            },
        };
        proof {
            assert(p.files.view() =~= map![
                0usize => FileLike::File { description: base, cloexec: false },
                1usize => FileLike::File { description: (base + 1) as usize, cloexec: false },
                2usize => FileLike::File { description: (base + 2) as usize, cloexec: false },
            ]);
        }
        (t, p)
    }

    /// `fork`: a new process that copies `parent`, whose thread this is,
    /// with one thread that goes on from `tf` seeing 0 returned. The child
    /// shares the parent's open file descriptions under the same
    /// descriptors, has its working directory, program, group and signal
    /// actions, no futex, no child, no exit code, no queued or pending
    /// signal; its parent is `parent`, alive. Its thread takes the lowest
    /// free tid, which is also its pid, keeps this thread's signal mask and
    /// alternate stack, and is the child's one thread; the parent records
    /// the child.
    pub fn fork(
        &self,
        parent: &mut Process,
        threads: &mut BTreeMap<usize, Thread>,
        tf: &ThreadContext,
    ) -> (r: (Thread, Process))
        requires
            Pid::INIT + old(threads)@.dom().len() < usize::MAX,
        ensures
            ({
                let (t, c) = r;
                &&& is_lowest_free(old(threads)@, Pid::INIT, t.tid)
                &&& t == (Thread {
                    tid: t.tid,
                    context: ThreadContext { syscall_ret: 0, ..*tf },
                    clear_child_tid: 0,
                    sig_mask: self.sig_mask,
                    alternate_stack: self.alternate_stack,
                })
                &&& final(threads)@ == old(threads)@.insert(t.tid, t)
                &&& c.files.view() == old(parent).files.view()
                &&& c.cwd@ == old(parent).cwd@
                &&& c.exec_path@ == old(parent).exec_path@
                &&& c.futexes@ == Map::<usize, usize>::empty()
                &&& c.pid == t.tid
                &&& c.pgid == old(parent).pgid
                &&& c.parent == old(parent).pid
                &&& c.parent_alive
                &&& c.children@ == Seq::<usize>::empty()
                &&& c.threads@ == seq![t.tid]
                &&& c.child_exit_code@ == Map::<usize, usize>::empty()
                &&& c.signals.sig_queue@.len() == 0
                &&& c.signals.pending_sigset.view() == Set::<int>::empty()
                &&& c.signals.dispositions@ == old(parent).signals.dispositions@
                &&& *final(parent) == (Process {
                    children: final(parent).children,
                    ..*old(parent)
                })
                &&& final(parent).children@ == old(parent).children@.push(t.tid)
            }),
    {
        let thread = Thread {
            tid: 0,
            context: fork_context(tf),
            clear_child_tid: 0,
            sig_mask: self.sig_mask,
            alternate_stack: self.alternate_stack,
        };
        let t = thread.add_to_table(threads);
        let mut child_threads: Vec<usize> = Vec::new();
        child_threads.push(t.tid);
        let c = Process {
            files: parent.files.clone_table(),
            cwd: parent.cwd.clone(),
            exec_path: parent.exec_path.clone(),
            futexes: BTreeMap::new(),
            pid: t.tid,
            pgid: parent.pgid,
            parent: parent.pid,
            parent_alive: true,
            children: Vec::new(),
            threads: child_threads,
            child_exit_code: BTreeMap::new(),
            signals: ProcessSignals {
                sig_queue: Vec::new(),
                pending_sigset: Sigset::empty(),
                dispositions: copy_dispositions(&parent.signals.dispositions),
            },
        };
        parent.children.push(t.tid);
        (t, c)
    }

    /// `clone` of a thread: a new thread of `process`, whose thread this is,
    /// that goes on from `context` on its own stack and thread pointer,
    /// seeing 0 returned, and clears `clear_child_tid` when it exits. It
    /// takes the lowest free tid, keeps this thread's signal mask and
    /// alternate stack, and joins the process's threads.
    pub fn new_clone(
        &self,
        process: &mut Process,
        threads: &mut BTreeMap<usize, Thread>,
        context: &ThreadContext,
        stack_top: usize,
        tls: usize,
        clear_child_tid: usize,
    ) -> (t: Thread)
        requires
            Pid::INIT + old(threads)@.dom().len() < usize::MAX,
        ensures
            is_lowest_free(old(threads)@, Pid::INIT, t.tid),
            t == (Thread {
                tid: t.tid,
                context: ThreadContext { syscall_ret: 0, sp: stack_top, tls, ..*context },
                clear_child_tid,
                sig_mask: self.sig_mask,
                alternate_stack: self.alternate_stack,
            }),
            final(threads)@ == old(threads)@.insert(t.tid, t),
            final(process).threads@ == old(process).threads@.push(t.tid),
            *final(process) == (Process { threads: final(process).threads, ..*old(process) }),
    {
        let thread = Thread {
            tid: 0,
            context: clone_context(context, stack_top, tls),
            clear_child_tid,
            sig_mask: self.sig_mask,
            alternate_stack: self.alternate_stack,
        };
        let t = thread.add_to_table(threads);
        process.threads.push(t.tid);
        t
    }
}

} // verus!
