//! Queuing a signal for a process, and delivering queued signals to a thread
//! that is about to return to user space.

use vstd::prelude::*;

use super::action::{
    SignalAction, SignalStack, Siginfo, Sigset, SA_ONSTACK, SA_RESTORER, SIG_DFL, SIG_ERR,
    SIG_IGN, SS_AUTODISARM, SS_DISABLE, SS_ONSTACK,
};
use super::{signal_number, Signal};
use crate::process::proc::{process_exit, FdTable};
use std::collections::BTreeMap;

verus! {

/// The x86_64 number of `rt_sigreturn`, which the return trampoline calls.
pub const SYS_RT_SIGRETURN: u32 = 15;

/// A signal waiting in a process's queue, for thread `tid` (or for any
/// thread when `tid` is -1).
#[derive(Clone, Copy, Debug, PartialEq, Eq, Structural)]
pub struct QueuedSignal {
    pub info: Siginfo,
    pub tid: isize,
}

/// The signal state of a process.
#[derive(Clone, Debug)]
pub struct ProcessSignals {
    /// queued signals, oldest first
    pub sig_queue: Vec<QueuedSignal>,
    /// the signals that are queued, as a set
    pub pending_sigset: Sigset,
    /// the action of each signal, indexed by signal number (0..=64)
    pub dispositions: Vec<SignalAction>,
}

/// The signal state of a thread.
#[derive(Clone, Copy, Debug, PartialEq, Eq, Structural)]
pub struct ThreadSignals {
    pub tid: usize,
    /// signals that this thread does not take
    pub sig_mask: Sigset,
    pub alternate_stack: SignalStack,
}

/// The user registers that signal delivery reads and sets: the stack
/// pointer, the instruction pointer and the first three argument registers
/// (`rdi`, `rsi`, `rdx` on x86_64).
#[derive(Clone, Copy, Debug, PartialEq, Eq, Structural)]
pub struct UserRegs {
    pub sp: usize,
    pub ip: usize,
    pub arg0: usize,
    pub arg1: usize,
    pub arg2: usize,
}

/// Where the parts of a signal frame lie, as the compiler lays it out.
#[derive(Clone, Copy, Debug, PartialEq, Eq, Structural)]
pub struct FrameLayout {
    /// size of the whole frame
    pub size: usize,
    /// offset of the `siginfo_t`
    pub info_offset: usize,
    /// offset of the `ucontext`
    pub ucontext_offset: usize,
    /// offset of the seven bytes of return trampoline code
    pub ret_code_offset: usize,
}

/// The signal frame that delivery writes on the user stack.
#[derive(Clone, Copy, Debug, PartialEq, Eq, Structural)]
pub struct HandlerFrame {
    /// user address of the frame
    pub addr: usize,
    /// where the handler returns to
    pub ret_code_addr: usize,
    pub info: Siginfo,
    /// the alternate stack before delivery
    pub saved_stack: SignalStack,
    /// the registers before delivery (the rest of the context is unchanged)
    pub saved_regs: UserRegs,
    /// the thread's signal mask
    pub sig_mask: Sigset,
    /// whether the frame holds the kernel's return trampoline; without it the
    /// handler returns through the action's restorer and the code bytes of
    /// the frame are not written
    pub writes_trampoline: bool,
}

/// What delivering one signal does.
#[derive(Clone, Copy, Debug, PartialEq, Eq, Structural)]
pub enum SignalOutcome {
    /// No queued signal is for this thread.
    Nothing,
    /// The default action terminates the process with this exit code.
    Terminate { signal: Signal, exit_code: usize },
    /// The signal is ignored, or its default action is not to terminate.
    Ignored { signal: Signal },
    /// The thread enters the handler; the frame is to be written.
    Handler { signal: Signal, frame: HandlerFrame },
}

/// The trampoline that returns from a handler: `mov $SYS_RT_SIGRETURN, %eax; syscall`.
pub open spec fn ret_code_bytes() -> Seq<u8> {
    seq![0xb8u8, 15u8, 0u8, 0u8, 0u8, 0x0fu8, 0x05u8]
}

/// The trampoline's bytes.
pub fn ret_code() -> (b: [u8; 7])
    ensures
        b@ == ret_code_bytes(),
{
    let b = [0xb8u8, (SYS_RT_SIGRETURN % 256) as u8, 0, 0, 0, 0x0f, 0x05];
    assert(b@ =~= ret_code_bytes());
    b
}

/// The frame that delivering `info` to a handler for `action` writes, for
/// thread `t` with registers `regs`: below the handler's stack top, with the
/// return through the action's restorer or the frame's own trampoline.
pub open spec fn handler_frame(action: SignalAction, info: Siginfo, t: ThreadSignals, regs: UserRegs, layout: FrameLayout) -> HandlerFrame {
    let top = handler_stack_top(action, t.alternate_stack, regs.sp);
    let sig_sp = (top - layout.size) as usize;
    let restorer = action.flags & SA_RESTORER != 0;
    HandlerFrame {
        addr: sig_sp,
        ret_code_addr: if restorer { action.restorer } else { (sig_sp + layout.ret_code_offset) as usize },
        info,
        saved_stack: t.alternate_stack,
        saved_regs: regs,
        sig_mask: t.sig_mask,
        writes_trampoline: !restorer,
    }
}

/// Returning from a handler undoes its delivery: the frame that delivery
/// writes saves the registers and the alternate stack that the thread had,
/// which `rt_sigreturn` restores.
pub proof fn lemma_sigreturn_restores(action: SignalAction, info: Siginfo, t: ThreadSignals, regs: UserRegs, layout: FrameLayout)
    ensures
        handler_frame(action, info, t, regs, layout).saved_regs == regs,
        handler_frame(action, info, t, regs, layout).saved_stack == t.alternate_stack,
        handler_frame(action, info, t, regs, layout).sig_mask == t.sig_mask,
{
}

/// Whether a queued signal may be taken by thread `t`.
pub open spec fn deliverable(q: QueuedSignal, t: ThreadSignals) -> bool {
    (q.tid == -1 || q.tid as usize == t.tid) && !t.sig_mask.view().contains(q.info.signo as int)
}

/// The index of the oldest queued signal, at `from` or after, that thread `t` may take.
pub open spec fn first_deliverable(q: Seq<QueuedSignal>, t: ThreadSignals, from: nat) -> Option<nat>
    decreases q.len() - from,
{
    if from >= q.len() {
        None
    } else if deliverable(q[from as int], t) {
        Some(from)
    } else {
        first_deliverable(q, t, from + 1)
    }
}

/// `first_deliverable` finds the oldest signal from `from` on that the
/// thread may take, and none comes before it.
pub proof fn lemma_first_deliverable(q: Seq<QueuedSignal>, t: ThreadSignals, from: nat)
    ensures
        first_deliverable(q, t, from) matches Some(i) ==> from <= i < q.len() && deliverable(q[i as int], t)
            && forall|k: int| from <= k < i ==> !deliverable(#[trigger] q[k], t),
        first_deliverable(q, t, from) is None ==> forall|k: int| from <= k < q.len() ==> !deliverable(#[trigger] q[k], t),
    decreases q.len() - from,
{
    if from < q.len() && !deliverable(q[from as int], t) {
        lemma_first_deliverable(q, t, from + 1);
    }
}

/// Every queued signal and every action is well formed: signal numbers lie
/// in 1..=63, and there is an action for each of 0..=64.
pub open spec fn signals_wf(p: ProcessSignals) -> bool {
    &&& p.dispositions@.len() == 65
    &&& forall|i: int| 0 <= i < p.sig_queue@.len() ==> 1 <= #[trigger] p.sig_queue@[i].info.signo <= 63
}

/// Whether the default action of a signal terminates the process (SIGHUP,
/// SIGINT, SIGALRM; the others are not implemented and do nothing).
pub open spec fn default_terminates(signo: int) -> bool {
    signo == 1 || signo == 2 || signo == 14
}

/// The stack top that a handler for `action` starts from, before the frame.
pub open spec fn handler_stack_top(action: SignalAction, stack: SignalStack, sp: usize) -> int {
    if action.flags & SA_ONSTACK != 0 && stack.flags & SS_DISABLE == 0 {
        stack.sp + stack.size
    } else {
        sp as int
    }
}

/// The alternate stack after a handler for `action` starts.
pub open spec fn stack_after_delivery(action: SignalAction, stack: SignalStack) -> SignalStack {
    if action.flags & SA_ONSTACK != 0 && stack.flags & SS_DISABLE == 0 {
        let f = stack.flags | SS_ONSTACK;
        SignalStack { flags: if stack.flags & SS_AUTODISARM != 0 { f | SS_DISABLE } else { f }, ..stack }
    } else {
        stack
    }
}

/// Whether the first signal that thread `t` may take can be delivered
/// without an arithmetic fault: its action is not `SIG_ERR`, and a handler's
/// frame fits below its stack top.
pub open spec fn delivery_defined(p: ProcessSignals, t: ThreadSignals, regs: UserRegs, layout: FrameLayout) -> bool {
    match first_deliverable(p.sig_queue@, t, 0) {
        None => true,
        Some(i) => {
            let action = p.dispositions@[p.sig_queue@[i as int].info.signo as int];
            &&& action.handler != SIG_ERR
            &&& (action.handler != SIG_DFL && action.handler != SIG_IGN) ==> {
                let top = handler_stack_top(action, t.alternate_stack, regs.sp);
                &&& top <= usize::MAX
                &&& top >= layout.size
            }
        },
    }
}

/// A frame layout in which every part lies inside the frame.
pub open spec fn layout_wf(layout: FrameLayout) -> bool {
    &&& layout.info_offset < layout.size
    &&& layout.ucontext_offset < layout.size
    &&& layout.ret_code_offset + 7 <= layout.size
}

/// The registers with which a handler for `action` is entered, for `info`
/// delivered with `frame`.
pub open spec fn handler_regs(action: SignalAction, info: Siginfo, frame: HandlerFrame, layout: FrameLayout) -> UserRegs {
    UserRegs {
        sp: frame.addr,
        ip: action.handler,
        arg0: info.signo as usize,
        arg1: (frame.addr + layout.info_offset) as usize,
        arg2: (frame.addr + layout.ucontext_offset) as usize,
    }
}

/// Delivering, one after another, every signal that thread `t` may take,
/// from a process whose queue is `queue`, pending set `pending` and actions
/// `disp`: until no queued signal is for the thread, or one terminates the
/// process. Gives the queue, the pending set, the thread and its registers
/// afterwards, the frames to write (in the order the handlers were
/// entered), and the exit code where the process terminates.
pub open spec fn drain(
    queue: Seq<QueuedSignal>,
    pending: Set<int>,
    disp: Seq<SignalAction>,
    t: ThreadSignals,
    regs: UserRegs,
    layout: FrameLayout,
) -> (Seq<QueuedSignal>, Set<int>, ThreadSignals, UserRegs, Seq<HandlerFrame>, Option<usize>)
    decreases queue.len(),
{
    match first_deliverable(queue, t, 0) {
        None => (queue, pending, t, regs, Seq::empty(), None),
        Some(i) => {
            proof {
                lemma_first_deliverable(queue, t, 0);
            }
            let info = queue[i as int].info;
            let signo = info.signo as int;
            let action = disp[signo];
            let q2 = queue.remove(i as int);
            let p2 = pending.remove(signo);
            if action.handler == SIG_DFL && default_terminates(signo) {
                (q2, p2, t, regs, Seq::empty(), Some((signo + 128) as usize))
            } else if action.handler == SIG_DFL || action.handler == SIG_IGN {
                drain(q2, p2, disp, t, regs, layout)
            } else {
                let frame = handler_frame(action, info, t, regs, layout);
                let t2 = ThreadSignals { alternate_stack: stack_after_delivery(action, t.alternate_stack), ..t };
                let d = drain(q2, p2, disp, t2, handler_regs(action, info, frame, layout), layout);
                (d.0, d.1, d.2, d.3, seq![frame] + d.4, d.5)
            }
        },
    }
}

/// Whether every delivery that `drain` makes is defined: no action met is
/// `SIG_ERR`, and each handler's frame fits below its stack top.
pub open spec fn drain_defined(
    queue: Seq<QueuedSignal>,
    disp: Seq<SignalAction>,
    t: ThreadSignals,
    regs: UserRegs,
    layout: FrameLayout,
) -> bool
    decreases queue.len(),
{
    match first_deliverable(queue, t, 0) {
        None => true,
        Some(i) => {
            proof {
                lemma_first_deliverable(queue, t, 0);
            }
            let info = queue[i as int].info;
            let signo = info.signo as int;
            let action = disp[signo];
            let q2 = queue.remove(i as int);
            &&& action.handler != SIG_ERR
            &&& if action.handler == SIG_DFL && default_terminates(signo) {
                true
            } else if action.handler == SIG_DFL || action.handler == SIG_IGN {
                drain_defined(q2, disp, t, regs, layout)
            } else {
                let top = handler_stack_top(action, t.alternate_stack, regs.sp);
                let frame = handler_frame(action, info, t, regs, layout);
                let t2 = ThreadSignals { alternate_stack: stack_after_delivery(action, t.alternate_stack), ..t };
                &&& top <= usize::MAX
                &&& top >= layout.size
                &&& drain_defined(q2, disp, t2, handler_regs(action, info, frame, layout), layout)
            }
        },
    }
}

/// Delivery with the default action ends the process on a hang-up, an
/// interrupt or an alarm: where the first signal that the thread may take
/// is SIGHUP (1), SIGINT (2) or SIGALRM (14) and its action is `SIG_DFL`,
/// draining the queue stops there, with no handler entered, that signal
/// taken out of the queue and the pending set, and exit code `signo + 128`.
pub proof fn lemma_default_action_terminates(
    queue: Seq<QueuedSignal>,
    pending: Set<int>,
    disp: Seq<SignalAction>,
    t: ThreadSignals,
    regs: UserRegs,
    layout: FrameLayout,
    i: nat,
)
    requires
        first_deliverable(queue, t, 0) == Some(i),
        disp[queue[i as int].info.signo as int].handler == SIG_DFL,
        queue[i as int].info.signo == 1 || queue[i as int].info.signo == 2 || queue[i as int].info.signo == 14,
    ensures
        drain(queue, pending, disp, t, regs, layout).5 == Some((queue[i as int].info.signo + 128) as usize),
        drain(queue, pending, disp, t, regs, layout).4 == Seq::<HandlerFrame>::empty(),
        drain(queue, pending, disp, t, regs, layout).0 == queue.remove(i as int),
        drain(queue, pending, disp, t, regs, layout).1 == pending.remove(queue[i as int].info.signo as int),
        drain(queue, pending, disp, t, regs, layout).2 == t,
        drain(queue, pending, disp, t, regs, layout).3 == regs,
{
    lemma_first_deliverable(queue, t, 0);
}

impl ProcessSignals {
    /// Whether a queued signal is for thread `t` (or for any thread) and not
    /// blocked by it.
    pub fn has_signal_to_handle(&self, t: &ThreadSignals) -> (b: bool)
        requires
            signals_wf(*self),
        ensures
            b == exists|i: int| 0 <= i < self.sig_queue@.len() && deliverable(self.sig_queue@[i], *t),
    {
        let mut i: usize = 0;
        while i < self.sig_queue.len()
            invariant
                i <= self.sig_queue@.len(),
                signals_wf(*self),
                forall|j: int| 0 <= j < i ==> !deliverable(self.sig_queue@[j], *t),
            decreases self.sig_queue@.len() - i,
        {
            let q = &self.sig_queue[i];
            assert(1 <= self.sig_queue@[i as int].info.signo <= 63);
            let for_me = q.tid == -1 || q.tid as usize == t.tid;
            if for_me {
                match Signal::from_i32(q.info.signo) {
                    Some(sig) => {
                        if !t.sig_mask.contains(sig) {
                            return true;
                        }
                    },
                    None => {},
                }
            }
            i = i + 1;
        }
        false
    }

    /// Queues `info` for thread `tid` (-1: any thread) and returns whether it
    /// was queued. A standard signal that is already pending is dropped; the
    /// caller announces a queued signal on the process's event bus.
    pub fn send_signal(&mut self, tid: isize, info: Siginfo) -> (queued: bool)
        requires
            1 <= info.signo <= 63,
            signals_wf(*old(self)),
        ensures
            signals_wf(*final(self)),
            final(self).dispositions@ == old(self).dispositions@,
            queued == !(info.signo < 32 && old(self).pending_sigset.view().contains(info.signo as int)),
            queued ==> final(self).sig_queue@ == old(self).sig_queue@.push(QueuedSignal { info, tid })
                && final(self).pending_sigset.view() == old(self).pending_sigset.view().insert(info.signo as int),
            !queued ==> final(self).sig_queue@ == old(self).sig_queue@
                && final(self).pending_sigset == old(self).pending_sigset,
    {
        let signal = match Signal::from_i32(info.signo) {
            Some(s) => s,
            None => {
                return false;
            },
        };
        if signal.is_standard() && self.pending_sigset.contains(signal) {
            return false;
        }
        self.sig_queue.push(QueuedSignal { info, tid });
        self.pending_sigset.add(signal);
        true
    }

    /// Takes the oldest queued signal that thread `t` may take and acts on
    /// it: the signal leaves the queue and the pending set; then the
    /// default action terminates the process (SIGHUP, SIGINT, SIGALRM) or does
    /// nothing, `SIG_IGN` does nothing, and a handler gets a frame below its
    /// stack top (the alternate stack when the action asks for it and the
    /// stack is enabled) with the registers set to enter it.
    pub fn handle_signal_step(
        &mut self,
        t: &mut ThreadSignals,
        regs: &mut UserRegs,
        layout: &FrameLayout,
    ) -> (o: SignalOutcome)
        requires
            signals_wf(*old(self)),
            layout_wf(*layout),
            delivery_defined(*old(self), *old(t), *old(regs), *layout),
        ensures
            signals_wf(*final(self)),
            final(self).dispositions@ == old(self).dispositions@,
            final(t).tid == old(t).tid,
            final(t).sig_mask == old(t).sig_mask,
            first_deliverable(old(self).sig_queue@, *old(t), 0) matches Some(i) ==> {
                let signo = old(self).sig_queue@[i as int].info.signo as int;
                // SIGHUP, SIGINT and SIGALRM with the default action end the process
                old(self).dispositions@[signo].handler == SIG_DFL && (signo == 1 || signo == 2 || signo == 14) ==> (
                o matches SignalOutcome::Terminate { signal, exit_code } && exit_code == signo + 128
                    && signal_number(signal) == signo)
            },
            match first_deliverable(old(self).sig_queue@, *old(t), 0) {
                None => {
                    &&& o == SignalOutcome::Nothing
                    &&& final(self).sig_queue@ == old(self).sig_queue@
                    &&& final(self).pending_sigset == old(self).pending_sigset
                    &&& *final(t) == *old(t)
                    &&& *final(regs) == *old(regs)
                },
                Some(i) => {
                    let info = old(self).sig_queue@[i as int].info;
                    let signo = info.signo as int;
                    let action = old(self).dispositions@[signo];
                    &&& final(self).sig_queue@ == old(self).sig_queue@.remove(i as int)
                    &&& final(self).pending_sigset.view() == old(self).pending_sigset.view().remove(signo)
                    &&& if action.handler == SIG_DFL && default_terminates(signo) {
                        &&& o matches SignalOutcome::Terminate { signal, exit_code }
                        &&& signal_number(signal) == signo
                        &&& exit_code == signo + 128
                        &&& *final(t) == *old(t)
                        &&& *final(regs) == *old(regs)
                    } else if action.handler == SIG_DFL || action.handler == SIG_IGN {
                        &&& o matches SignalOutcome::Ignored { signal }
                        &&& signal_number(signal) == signo
                        &&& *final(t) == *old(t)
                        &&& *final(regs) == *old(regs)
                    } else {
                        let sig_sp = handler_frame(action, info, *old(t), *old(regs), *layout).addr;
                        &&& o matches SignalOutcome::Handler { signal, frame }
                        &&& signal_number(signal) == signo
                        &&& frame == handler_frame(action, info, *old(t), *old(regs), *layout)
                        &&& final(t).alternate_stack == stack_after_delivery(action, old(t).alternate_stack)
                        &&& *final(regs) == (UserRegs {
                            sp: sig_sp,
                            ip: action.handler,
                            arg0: signo as usize,
                            arg1: (sig_sp + layout.info_offset) as usize,
                            arg2: (sig_sp + layout.ucontext_offset) as usize,
                        })
                    }
                },
            },
    {
        proof {
            lemma_first_deliverable(self.sig_queue@, *t, 0);
        }
        let mut idx: usize = 0;
        while idx < self.sig_queue.len()
            invariant
                signals_wf(*self),
                *self == *old(self),
                *t == *old(t),
                idx <= self.sig_queue@.len(),
                first_deliverable(self.sig_queue@, *t, 0) == first_deliverable(self.sig_queue@, *t, idx as nat),
            ensures
                signals_wf(*self),
                *self == *old(self),
                *t == *old(t),
                idx <= self.sig_queue@.len(),
                first_deliverable(self.sig_queue@, *t, 0) == first_deliverable(self.sig_queue@, *t, idx as nat),
                idx < self.sig_queue@.len() ==> deliverable(self.sig_queue@[idx as int], *t),
            decreases self.sig_queue.len() - idx,
        {
            let q = self.sig_queue[idx];
            let sig = Signal::from_i32(q.info.signo).unwrap();
            let for_me = q.tid == -1 || q.tid as usize == t.tid;
            if for_me && !t.sig_mask.contains(sig) {
                break;
            }
            idx = idx + 1;
        }
        if idx == self.sig_queue.len() {
            return SignalOutcome::Nothing;
        }
        proof {
            assert(first_deliverable(self.sig_queue@, *t, idx as nat) == Some(idx as nat));
        }
        let q = self.sig_queue.remove(idx);
        let info = q.info;
        let signal = Signal::from_i32(info.signo).unwrap();
        self.pending_sigset.remove(signal);
        proof {
            assert forall|k: int| 0 <= k < self.sig_queue@.len() implies 1 <= #[trigger] self.sig_queue@[k].info.signo <= 63 by {
                if k < idx {
                    assert(self.sig_queue@[k] == old(self).sig_queue@[k]);
                } else {
                    assert(self.sig_queue@[k] == old(self).sig_queue@[k + 1]);
                }
            }
        }
        let action = self.dispositions[info.signo as usize];
        if action.handler == SIG_DFL {
            let signo = info.signo;
            if signo == 1 || signo == 2 || signo == 14 {
                return SignalOutcome::Terminate { signal, exit_code: (signo + 128) as usize };
            }
            return SignalOutcome::Ignored { signal };
        }
        if action.handler == SIG_IGN {
            return SignalOutcome::Ignored { signal };
        }
        let stack = t.alternate_stack;
        let base = if action.flags & SA_ONSTACK != 0 {
            if stack.flags & SS_DISABLE != 0 {
                regs.sp
            } else {
                let mut flags = t.alternate_stack.flags | SS_ONSTACK;
                if stack.flags & SS_AUTODISARM != 0 {
                    flags = flags | SS_DISABLE;
                }
                t.alternate_stack = SignalStack { flags, ..stack };
                stack.sp + stack.size
            }
        } else {
            regs.sp
        };
        let sig_sp = base - layout.size;
        let restorer = action.flags & SA_RESTORER != 0;
        let ret_code_addr = if restorer { action.restorer } else { sig_sp + layout.ret_code_offset };
        let frame = HandlerFrame {
            addr: sig_sp,
            ret_code_addr,
            info,
            saved_stack: stack,
            saved_regs: *regs,
            sig_mask: t.sig_mask,
            writes_trampoline: !restorer,
        };
        *regs = UserRegs {
            sp: sig_sp,
            ip: action.handler,
            arg0: info.signo as usize,
            arg1: sig_sp + layout.info_offset,
            arg2: sig_sp + layout.ucontext_offset,
        };
        SignalOutcome::Handler { signal, frame }
    }

    /// Delivers every signal that thread `t` may take, oldest first, as
    /// `handle_signal_step` does one; stops when none is left for the
    /// thread, or when one terminates the process, which then exits with
    /// the signal's number plus 128 (see `process_exit`: its descriptors
    /// `files` and threads `threads` go, and its parent, where alive, keeps
    /// the code under `pid`). Returns the exit code where the process
    /// exited (so the thread exits), and the frames of the handlers
    /// entered, to be written in that order.
    pub fn handle_signal(
        &mut self,
        t: &mut ThreadSignals,
        regs: &mut UserRegs,
        layout: &FrameLayout,
        files: &mut FdTable,
        threads: &mut Vec<usize>,
        parent_exit_codes: &mut BTreeMap<usize, usize>,
        parent_alive: bool,
        pid: usize,
    ) -> (r: (Option<usize>, Vec<HandlerFrame>))
        requires
            signals_wf(*old(self)),
            layout_wf(*layout),
            drain_defined(old(self).sig_queue@, old(self).dispositions@, *old(t), *old(regs), *layout),
        ensures
            signals_wf(*final(self)),
            final(self).dispositions@ == old(self).dispositions@,
            ({
                let d = drain(
                    old(self).sig_queue@,
                    old(self).pending_sigset.view(),
                    old(self).dispositions@,
                    *old(t),
                    *old(regs),
                    *layout,
                );
                &&& final(self).sig_queue@ == d.0
                &&& final(self).pending_sigset.view() == d.1
                &&& *final(t) == d.2
                &&& *final(regs) == d.3
                &&& r.1@ == d.4
                &&& r.0 == d.5
            }),
            r.0 matches Some(code) ==> {
                &&& final(files).view() == Map::<usize, crate::process::proc::FileLike>::empty()
                &&& final(threads)@ == Seq::<usize>::empty()
                &&& final(parent_exit_codes)@ == if parent_alive {
                    old(parent_exit_codes)@.insert(pid, code)
                } else {
                    old(parent_exit_codes)@
                }
            },
            r.0 is None ==> final(files).view() == old(files).view() && final(threads)@ == old(threads)@
                && final(parent_exit_codes)@ == old(parent_exit_codes)@,
    {
        let ghost d0 = drain(
            self.sig_queue@,
            self.pending_sigset.view(),
            self.dispositions@,
            *t,
            *regs,
            *layout,
        );
        let mut frames: Vec<HandlerFrame> = Vec::new();
        loop
            invariant
                signals_wf(*self),
                layout_wf(*layout),
                self.dispositions@ == old(self).dispositions@,
                drain_defined(self.sig_queue@, self.dispositions@, *t, *regs, *layout),
                files.view() == old(files).view(),
                threads@ == old(threads)@,
                parent_exit_codes@ == old(parent_exit_codes)@,
                d0 == drain(old(self).sig_queue@, old(self).pending_sigset.view(), old(self).dispositions@, *old(t), *old(regs), *layout),
                ({
                    let d = drain(self.sig_queue@, self.pending_sigset.view(), self.dispositions@, *t, *regs, *layout);
                    &&& d0.0 == d.0
                    &&& d0.1 == d.1
                    &&& d0.2 == d.2
                    &&& d0.3 == d.3
                    &&& d0.4 == frames@ + d.4
                    &&& d0.5 == d.5
                }),
            decreases self.sig_queue@.len(),
        {
            let ghost q = self.sig_queue@;
            let ghost pend = self.pending_sigset.view();
            let ghost t0 = *t;
            let ghost r0 = *regs;
            proof {
                lemma_first_deliverable(q, t0, 0);
            }
            let o = self.handle_signal_step(t, regs, layout);
            match o {
                SignalOutcome::Nothing => {
                    proof {
                        assert(frames@ + Seq::<HandlerFrame>::empty() =~= frames@);
                    }
                    return (None, frames);
                },
                SignalOutcome::Terminate { signal, exit_code } => {
                    proof {
                        assert(frames@ + Seq::<HandlerFrame>::empty() =~= frames@);
                    }
                    let _ = process_exit(files, threads, parent_exit_codes, parent_alive, pid, exit_code);
                    return (Some(exit_code), frames);
                },
                SignalOutcome::Ignored { signal } => {},
                SignalOutcome::Handler { signal, frame } => {
                    let ghost before = frames@;
                    frames.push(frame);
                    proof {
                        let d = drain(self.sig_queue@, self.pending_sigset.view(), self.dispositions@, *t, *regs, *layout);
                        assert(before + (seq![frame] + d.4) =~= frames@ + d.4);
                    }
                },
            }
        }
    }
}

} // verus!
