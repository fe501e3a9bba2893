//! Signal sets, dispositions, signal information and alternate stacks.

use vstd::prelude::*;

use super::{signal_number, Signal};

verus! {

/// `sa_handler` value: something went wrong.
pub const SIG_ERR: usize = usize::MAX - 1;
/// `sa_handler` value: the default action.
pub const SIG_DFL: usize = 0;
/// `sa_handler` value: ignore the signal.
pub const SIG_IGN: usize = 1;

/// `si_code`: sent by the asynchronous name lookup completion.
pub const SI_ASYNCNL: i32 = -60;
/// `si_code`: sent by `tkill`.
pub const SI_TKILL: i32 = -6;
/// `si_code`: sent by queued SIGIO.
pub const SI_SIGIO: i32 = -5;
/// `si_code`: sent by AIO completion.
pub const SI_ASYNCIO: i32 = -4;
/// `si_code`: sent by a real-time message queue state change.
pub const SI_MESGQ: i32 = -3;
/// `si_code`: sent by a timer expiration.
pub const SI_TIMER: i32 = -2;
/// `si_code`: sent by `sigqueue`.
pub const SI_QUEUE: i32 = -1;
/// `si_code`: sent by `kill` or `raise`.
pub const SI_USER: i32 = 0;
/// `si_code`: sent by the kernel.
pub const SI_KERNEL: i32 = 128;

/// `sa_flags`: no SIGCHLD when children stop.
pub const SA_NOCLDSTOP: usize = 1;
/// `sa_flags`: do not create zombie children.
pub const SA_NOCLDWAIT: usize = 2;
/// `sa_flags`: the handler takes three arguments.
pub const SA_SIGINFO: usize = 4;
/// `sa_flags`: run the handler on the alternate signal stack.
pub const SA_ONSTACK: usize = 0x08000000;
/// `sa_flags`: restart interrupted system calls.
pub const SA_RESTART: usize = 0x10000000;
/// `sa_flags`: do not block the signal in its own handler.
pub const SA_NODEFER: usize = 0x40000000;
/// `sa_flags`: reset the handler to the default on delivery.
pub const SA_RESETHAND: usize = 0x80000000;
/// `sa_flags`: `sa_restorer` holds the return trampoline.
pub const SA_RESTORER: usize = 0x04000000;

/// `ss_flags`: the thread is running on the alternate stack.
pub const SS_ONSTACK: u32 = 1;
/// `ss_flags`: the alternate stack is disabled.
pub const SS_DISABLE: u32 = 2;
/// `ss_flags`: disable the alternate stack when a handler starts on it.
pub const SS_AUTODISARM: u32 = 0x80000000;

/// Whether bit `n` of `bits` is set.
pub open spec fn bit_set(bits: u64, n: int) -> bool {
    0 <= n < 64 && (bits >> (n as u64)) & 1 == 1
}

/// A set of signals, one bit per signal number. Signal 64 has no bit.
#[derive(Default, Clone, Copy, Debug, PartialEq, Eq, Structural)]
pub struct Sigset(u64);

impl Sigset {
    /// The bits of the set.
    pub closed spec fn bits(&self) -> u64 {
        self.0
    }

    /// The signal numbers in the set.
    pub closed spec fn view(&self) -> Set<int> {
        Set::new(|n: int| bit_set(self.0, n))
    }

    pub fn empty() -> (s: Self)
        ensures
            s.bits() == 0,
            s.view() == Set::<int>::empty(),
    {
        let s = Sigset(0);
        assert forall|n: int| !#[trigger] bit_set(0, n) by {
            if 0 <= n < 64 {
                let k = n as u64;
                assert((0u64 >> k) & 1 == 0) by (bit_vector);
            }
        }
        assert(s.view() =~= Set::<int>::empty());
        s
    }

    /// The set with exactly the given bits.
    pub fn from_bits(bits: u64) -> (s: Self)
        ensures
            s.bits() == bits,
    {
        Sigset(bits)
    }

    /// The bits of the set.
    pub fn to_bits(&self) -> (b: u64)
        ensures
            b == self.bits(),
    {
        self.0
    }

    pub fn contains(&self, sig: Signal) -> (b: bool)
        requires
            signal_number(sig) < 64,
        ensures
            b == self.view().contains(signal_number(sig)),
    {
        let n = sig.number() as u64;
        let b = (self.0 >> n & 1) != 0;
        let x = self.0;
        assert(((x >> n) & 1 != 0) == ((x >> n) & 1 == 1)) by (bit_vector);
        b
    }

    pub fn add(&mut self, sig: Signal)
        requires
            signal_number(sig) < 64,
        ensures
            final(self).view() == old(self).view().insert(signal_number(sig)),
    {
        let n = sig.number() as u64;
        let x = self.0;
        self.0 = self.0 | (1u64 << n);
        assert forall|m: int| bit_set(x | (1u64 << n), m) == (bit_set(x, m) || m == n) by {
            if 0 <= m < 64 {
                let k = m as u64;
                assert((((x | (1u64 << n)) >> k) & 1 == 1) == (((x >> k) & 1 == 1) || k == n))
                    by (bit_vector)
                    requires
                        n < 64,
                        k < 64,
                ;
            }
        }
        assert(n == signal_number(sig));
        assert forall|m: int| #[trigger] final(self).view().contains(m) == old(self).view().insert(signal_number(sig)).contains(m) by {
            assert(bit_set(x | (1u64 << n), m) == (bit_set(x, m) || m == n));
        }
        assert(final(self).view() =~= old(self).view().insert(signal_number(sig)));
    }

    pub fn add_set(&mut self, sigset: &Sigset)
        ensures
            final(self).view() == old(self).view().union(sigset.view()),
    {
        let x = self.0;
        let y = sigset.0;
        self.0 = self.0 | sigset.0;
        assert forall|m: int| bit_set(x | y, m) == (bit_set(x, m) || bit_set(y, m)) by {
            if 0 <= m < 64 {
                let k = m as u64;
                assert((((x | y) >> k) & 1 == 1) == (((x >> k) & 1 == 1) || ((y >> k) & 1 == 1)))
                    by (bit_vector);
            }
        }
        assert(final(self).view() =~= old(self).view().union(sigset.view()));
    }

    pub fn remove(&mut self, sig: Signal)
        requires
            signal_number(sig) < 64,
        ensures
            final(self).view() == old(self).view().remove(signal_number(sig)),
    {
        let n = sig.number() as u64;
        let x = self.0;
        self.0 = self.0 ^ (self.0 & (1u64 << n));
        assert forall|m: int| bit_set(x ^ (x & (1u64 << n)), m) == (bit_set(x, m) && m != n) by {
            if 0 <= m < 64 {
                let k = m as u64;
                assert((((x ^ (x & (1u64 << n))) >> k) & 1 == 1) == (((x >> k) & 1 == 1) && k != n))
                    by (bit_vector)
                    requires
                        n < 64,
                        k < 64,
                ;
            }
        }
        assert(final(self).view() =~= old(self).view().remove(signal_number(sig)));
    }

    pub fn remove_set(&mut self, sigset: &Sigset)
        ensures
            final(self).view() == old(self).view().difference(sigset.view()),
    {
        let x = self.0;
        let y = sigset.0;
        self.0 = self.0 ^ (self.0 & sigset.0);
        assert forall|m: int| bit_set(x ^ (x & y), m) == (bit_set(x, m) && !bit_set(y, m)) by {
            if 0 <= m < 64 {
                let k = m as u64;
                assert((((x ^ (x & y)) >> k) & 1 == 1) == (((x >> k) & 1 == 1) && !((y >> k) & 1
                    == 1))) by (bit_vector);
            }
        }
        assert(final(self).view() =~= old(self).view().difference(sigset.view()));
    }
}

/// What a process does when a signal arrives (`struct sigaction`).
#[derive(Clone, Copy, Default, Debug, PartialEq, Eq, Structural)]
pub struct SignalAction {
    /// the handler's address, or `SIG_DFL`, `SIG_IGN`, `SIG_ERR`
    pub handler: usize,
    pub flags: usize,
    /// the return trampoline, used when `SA_RESTORER` is set
    pub restorer: usize,
    pub mask: Sigset,
}

/// Information about a delivered signal (`siginfo_t`); the rest of the
/// structure is zero.
#[derive(Clone, Copy, Debug, PartialEq, Eq, Structural)]
pub struct Siginfo {
    pub signo: i32,
    pub errno: i32,
    pub code: i32,
}

/// A thread's alternate signal stack (`stack_t`).
#[derive(Copy, Clone, Debug, PartialEq, Eq, Structural)]
pub struct SignalStack {
    pub sp: usize,
    pub flags: u32,
    pub size: usize,
}

impl SignalStack {
    /// The stack of a new thread: none, disabled.
    pub fn default() -> (s: Self)
        ensures
            s == (SignalStack { sp: 0, flags: SS_DISABLE, size: 0 }),
    {
        SignalStack { sp: 0, flags: SS_DISABLE, size: 0 }
    }
}

/// Removing a signal that was just added undoes the addition, where the
/// set did not hold it before.
pub proof fn lemma_add_then_remove(set: Set<int>, n: int)
    requires
        !set.contains(n),
    ensures
        set.insert(n).remove(n) == set,
{
    assert(set.insert(n).remove(n) =~= set);
}

} // verus!
