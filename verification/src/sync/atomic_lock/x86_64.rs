//! The lock word as a boolean.

use vstd::prelude::*;

verus! {

/// A lock word: `true` while the lock is held.
pub struct AtomicLock {
    lock: bool,
}

impl AtomicLock {
    /// Whether the lock is held.
    pub closed spec fn held(&self) -> bool {
        self.lock
    }

    /// A free lock.
    pub fn new() -> (l: AtomicLock)
        ensures
            !l.held(),
    {
        AtomicLock { lock: false }
    }

    /// Takes the lock if it is free; returns whether it did.
    pub fn try_lock(&mut self) -> (acquired: bool)
        ensures
            acquired == !old(self).held(),
            final(self).held(),
    {
        if !self.lock {
            self.lock = true;
            true
        } else {
            false
        }
    }

    /// Whether the lock is held.
    pub fn load(&self) -> (b: bool)
        ensures
            b == self.held(),
    {
        self.lock
    }

    /// Gives the lock back.
    pub fn store(&mut self)
        ensures
            !final(self).held(),
    {
        self.lock = false;
    }
}

} // verus!
