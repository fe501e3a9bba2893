//! The lock word as a 32-bit integer: 1 while held, 0 while free.

use vstd::prelude::*;

verus! {

/// A lock word: 1 while the lock is held, 0 while it is free.
pub struct AtomicLock {
    lock: u32,
}

impl AtomicLock {
    /// The value of the lock word.
    pub closed spec fn word(&self) -> u32 {
        self.lock
    }

    /// A free lock.
    pub fn new() -> (l: Self)
        ensures
            l.word() == 0,
    {
        AtomicLock { lock: 0 }
    }

    /// Compares the word with 0 and, where it is 0, sets it to 1; returns
    /// whether it did.
    pub fn try_lock(&mut self) -> (acquired: bool)
        ensures
            acquired == (old(self).word() == 0),
            acquired ==> final(self).word() == 1,
            !acquired ==> final(self).word() == old(self).word(),
    {
        if self.lock == 0 {
            self.lock = 1;
            true
        } else {
            false
        }
    }

    /// Whether the word is 1.
    pub fn load(&self) -> (b: bool)
        ensures
            b == (self.word() == 1),
    {
        self.lock == 1
    }

    /// Sets the word to 0.
    pub fn store(&mut self)
        ensures
            final(self).word() == 0,
    {
        self.lock = 0;
    }
}

} // verus!
