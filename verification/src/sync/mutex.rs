//! A lock around data, with a pluggable policy for what happens around
//! taking and giving back the lock. The CPU's flags register, whose
//! interrupt-enable bit the policies may clear and restore, is passed in.

use vstd::prelude::*;

verus! {

/// The interrupt-enable bit of the x86_64 flags register.
pub const IRQ_ENABLE: usize = 0x200;

/// The flags with interrupts disabled.
pub open spec fn irq_disabled(flags: usize) -> usize {
    flags & !IRQ_ENABLE
}

/// The flags after the interrupt state of `saved` is restored on a CPU
/// whose flags are `cur`: interrupts are enabled again exactly where they
/// were in `saved`.
pub open spec fn irq_restored(saved: usize, cur: usize) -> usize {
    (cur & !IRQ_ENABLE) | (saved & IRQ_ENABLE)
}

/// Disabling interrupts and then restoring the state saved before gives
/// back the flags as they were.
pub proof fn lemma_disable_then_restore(flags: usize)
    ensures
        irq_restored(flags, irq_disabled(flags)) == flags,
        irq_disabled(flags) & IRQ_ENABLE == 0,
{
    assert(((flags & !0x200usize) & !0x200usize) | (flags & 0x200usize) == flags) by (bit_vector);
    assert((flags & !0x200usize) & 0x200usize == 0) by (bit_vector);
}

/// What a kind of lock does around taking it and giving it back.
pub trait MutexSupport: Sized {
    /// What is kept while the lock is held and given back on unlock.
    type GuardData;

    fn new() -> Self;

    /// What `before_lock` keeps, given the CPU's flags.
    spec fn guard_for(flags: usize) -> Self::GuardData;

    /// The CPU's flags after `before_lock`.
    spec fn flags_held(flags: usize) -> usize;

    /// The CPU's flags, `flags` before, after what was kept is given back.
    spec fn flags_released(data: Self::GuardData, flags: usize) -> usize;

    /// Taking the lock and giving it back at once leaves the flags as
    /// they were.
    proof fn lemma_release_restores(flags: usize)
        ensures
            Self::flags_released(Self::guard_for(flags), Self::flags_held(flags)) == flags;

    /// Called before taking the lock.
    fn before_lock(cpu_flags: &mut usize) -> (d: Self::GuardData)
        ensures
            d == Self::guard_for(*old(cpu_flags)),
            *final(cpu_flags) == Self::flags_held(*old(cpu_flags));

    /// Called when the lock is given back, with what `before_lock` kept.
    fn after_unlock(d: Self::GuardData, cpu_flags: &mut usize)
        ensures
            *final(cpu_flags) == Self::flags_released(d, *old(cpu_flags));
}

/// A plain spin lock: nothing happens around it.
#[derive(Debug)]
pub struct Spin;

impl MutexSupport for Spin {
    type GuardData = ();

    fn new() -> Self {
        Spin
    }

    open spec fn guard_for(flags: usize) -> Self::GuardData {
        ()
    }

    open spec fn flags_held(flags: usize) -> usize {
        flags
    }

    open spec fn flags_released(data: Self::GuardData, flags: usize) -> usize {
        flags
    }

    proof fn lemma_release_restores(flags: usize) {
    }

    fn before_lock(cpu_flags: &mut usize) -> (d: Self::GuardData) {
    }

    fn after_unlock(d: Self::GuardData, cpu_flags: &mut usize) {
    }
}

/// A spin lock that holds interrupts off while it is held: they are
/// disabled before the lock is tried, and their state from before is
/// restored when a try fails or the lock is given back.
#[derive(Debug)]
pub struct SpinNoIrq;

/// The flags from before interrupts were disabled, to be restored.
pub struct FlagsGuard(pub usize);

impl FlagsGuard {
    /// The flags to restore.
    pub fn flags(&self) -> (f: usize)
        ensures
            f == self.0,
    {
        self.0
    }

    /// Saves the flags and disables interrupts.
    pub fn no_irq_region(cpu_flags: &mut usize) -> (g: FlagsGuard)
        ensures
            g.0 == *old(cpu_flags),
            *final(cpu_flags) == irq_disabled(*old(cpu_flags)),
    {
        let g = FlagsGuard(*cpu_flags);
        *cpu_flags = *cpu_flags & !IRQ_ENABLE;
        g
    }

    /// Restores the interrupt state that was saved.
    pub fn restore(self, cpu_flags: &mut usize)
        ensures
            *final(cpu_flags) == irq_restored(self.0, *old(cpu_flags)),
    {
        *cpu_flags = (*cpu_flags & !IRQ_ENABLE) | (self.0 & IRQ_ENABLE);
    }
}

impl MutexSupport for SpinNoIrq {
    type GuardData = FlagsGuard;

    fn new() -> Self {
        SpinNoIrq
    }

    open spec fn guard_for(flags: usize) -> Self::GuardData {
        FlagsGuard(flags)
    }

    open spec fn flags_held(flags: usize) -> usize {
        irq_disabled(flags)
    }

    open spec fn flags_released(data: Self::GuardData, flags: usize) -> usize {
        irq_restored(data.0, flags)
    }

    proof fn lemma_release_restores(flags: usize) {
        lemma_disable_then_restore(flags);
    }

    fn before_lock(cpu_flags: &mut usize) -> (d: Self::GuardData) {
        FlagsGuard::no_irq_region(cpu_flags)
    }

    fn after_unlock(d: Self::GuardData, cpu_flags: &mut usize) {
        d.restore(cpu_flags);
    }
}

/// Data behind a lock, with the (cpu, thread) that took it last.
pub struct Mutex<T, S: MutexSupport> {
    pub locked: bool,
    pub support: S,
    pub user: (usize, usize),
    pub data: T,
}

/// Proof that the lock is held, with what the support keeps meanwhile.
pub struct MutexGuard<S: MutexSupport> {
    pub support_guard: S::GuardData,
}

impl<T, S: MutexSupport> Mutex<T, S> {
    /// A free lock around `user_data`.
    pub fn new(user_data: T) -> (m: Self)
        ensures
            !m.locked,
            m.data == user_data,
            m.user == (0usize, 0usize),
    {
        Mutex { locked: false, support: S::new(), user: (0, 0), data: user_data }
    }

    /// The data.
    pub fn into_inner(self) -> (t: T)
        ensures
            t == self.data,
    {
        self.data
    }

    /// Takes the lock, which is free, for thread `tid` on cpu `cid`; the
    /// support acts on the CPU's flags first (`SpinNoIrq` disables
    /// interrupts until the lock is given back).
    pub fn lock(&mut self, cpu_flags: &mut usize, cid: usize, tid: usize) -> (g: MutexGuard<S>)
        requires
            !old(self).locked,
        ensures
            final(self).locked,
            final(self).user == (cid, tid),
            final(self).data == old(self).data,
            g.support_guard == S::guard_for(*old(cpu_flags)),
            *final(cpu_flags) == S::flags_held(*old(cpu_flags)),
    {
        let support_guard = S::before_lock(cpu_flags);
        self.locked = true;
        self.user = (cid, tid);
        MutexGuard { support_guard }
    }

    /// Takes the lock if it is free. The support acts on the CPU's flags
    /// first; where the lock is free the guard keeps what the support gave
    /// (for `SpinNoIrq`, the flags to restore, interrupts staying disabled
    /// while it is held); where it is held, that is given back at once and
    /// the flags are as on entry.
    pub fn try_lock(&mut self, cpu_flags: &mut usize) -> (g: Option<MutexGuard<S>>)
        ensures
            g is Some == !old(self).locked,
            g matches Some(guard) ==> guard.support_guard == S::guard_for(*old(cpu_flags))
                && *final(cpu_flags) == S::flags_held(*old(cpu_flags)),
            g is None ==> *final(cpu_flags) == *old(cpu_flags),
            final(self).locked,
            final(self).user == old(self).user,
            final(self).data == old(self).data,
    {
        proof {
            S::lemma_release_restores(*cpu_flags);
        }
        let support_guard = S::before_lock(cpu_flags);
        if !self.locked {
            self.locked = true;
            Some(MutexGuard { support_guard })
        } else {
            S::after_unlock(support_guard, cpu_flags);
            None
        }
    }

    /// Frees the lock whoever holds it; nothing where it is free.
    pub fn force_unlock(&mut self)
        ensures
            !final(self).locked,
            final(self).user == old(self).user,
            final(self).data == old(self).data,
    {
        self.locked = false;
    }

    /// Gives the lock back; the support gives back what it kept (for
    /// `SpinNoIrq`, the interrupt state from before the lock was taken).
    pub fn unlock(&mut self, guard: MutexGuard<S>, cpu_flags: &mut usize)
        ensures
            !final(self).locked,
            final(self).user == old(self).user,
            final(self).data == old(self).data,
            *final(cpu_flags) == S::flags_released(guard.support_guard, *old(cpu_flags)),
    {
        self.locked = false;
        S::after_unlock(guard.support_guard, cpu_flags);
    }
}

/// A `SpinNoIrq` lock taken and given back leaves the CPU's flags as they
/// were before it was taken.
pub proof fn lemma_lock_unlock_restores_flags(flags: usize)
    ensures
        SpinNoIrq::flags_released(SpinNoIrq::guard_for(flags), SpinNoIrq::flags_held(flags)) == flags,
        SpinNoIrq::flags_held(flags) & IRQ_ENABLE == 0,
{
    lemma_disable_then_restore(flags);
}

} // verus!
