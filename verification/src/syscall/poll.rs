//! `select` and `poll`: the descriptor sets, what one round of polling
//! records, and when the wait ends.

use vstd::prelude::*;

use crate::process::proc::FdTable;
use crate::syscall::time::TimeSpec;
use crate::syscall::{SysError, SysResult};

verus! {

/// The descriptors in one 32-bit word of a set.
pub const FD_PER_ITEM: usize = 32;

/// The most words of a set: 1024 descriptors.
pub const MAX_FDSET_SIZE: usize = 32;

/// A wait of `1 << 31` milliseconds or more never times out.
pub const TIMEOUT_INFINITY: usize = 0x8000_0000;

/// Whether bit `fd` of `words` is set, lowest bits first.
pub open spec fn fd_bit(words: Seq<u32>, fd: int) -> bool {
    (words[fd / 32] >> ((fd % 32) as u32)) & 1 == 1
}

/// `words` with bit `fd` set.
pub open spec fn with_bit(words: Seq<u32>, fd: int) -> Seq<u32> {
    words.update(fd / 32, words[fd / 32] | (1u32 << ((fd % 32) as u32)))
}

/// The number of words that `nfds` descriptors take; `EINVAL` where more
/// than 1024.
pub fn fdset_len(nfds: usize) -> (r: Result<usize, SysError>)
    ensures
        r == if (nfds + 31) / 32 > MAX_FDSET_SIZE {
            Err::<usize, SysError>(SysError::EINVAL)
        } else {
            Ok(((nfds + 31) / 32) as usize)
        },
{
    let len = nfds / 32 + if nfds % 32 != 0 { 1usize } else { 0 };
    if len > MAX_FDSET_SIZE {
        Err(SysError::EINVAL)
    } else {
        Ok(len)
    }
}

/// A set of `select`: the words that the caller passed, and the words that
/// go back, which start cleared. A null set has no words.
pub struct FdSet {
    pub bitset: Vec<u32>,
    pub origin: Vec<u32>,
}

impl FdSet {
    pub open spec fn wf(&self) -> bool {
        self.bitset@.len() == self.origin@.len()
    }

    /// The set for the words the caller passed, or an empty one for a null
    /// pointer; the words that go back are cleared.
    pub fn new(words: Option<Vec<u32>>) -> (s: FdSet)
        ensures
            s.wf(),
            words is None ==> s.origin@.len() == 0,
            words matches Some(w) ==> s.origin@ == w@,
            forall|i: int| 0 <= i < s.bitset@.len() ==> #[trigger] s.bitset@[i] == 0,
    {
        match words {
            None => FdSet { bitset: Vec::new(), origin: Vec::new() },
            Some(w) => {
                let mut cleared: Vec<u32> = Vec::new();
                let mut i: usize = 0;
                while i < w.len()
                    invariant
                        i <= w@.len(),
                        cleared@.len() == i,
                        forall|j: int| 0 <= j < i ==> #[trigger] cleared@[j] == 0,
                    decreases w@.len() - i,
                {
                    cleared.push(0);
                    i = i + 1;
                }
                FdSet { bitset: cleared, origin: w }
            },
        }
    }

    /// Whether `fd` was in the set that the caller passed.
    pub open spec fn has(&self, fd: int) -> bool {
        0 <= fd < self.bitset@.len() * 32 && fd_bit(self.origin@, fd)
    }

    pub fn contains(&self, fd: usize) -> (b: bool)
        requires
            self.wf(),
        ensures
            b == self.has(fd as int),
    {
        if fd / 32 < self.bitset.len() {
            let w = self.origin[fd / 32];
            (w >> ((fd % 32) as u32)) & 1 == 1
        } else {
            false
        }
    }

    /// Puts `fd`, which is within the set, into the words that go back;
    /// false for a null set.
    pub fn set(&mut self, fd: usize) -> (ok: bool)
        requires
            old(self).wf(),
            old(self).bitset@.len() > 0 ==> fd / 32 < old(self).bitset@.len(),
        ensures
            final(self).wf(),
            final(self).origin@ == old(self).origin@,
            ok == (old(self).bitset@.len() > 0),
            !ok ==> final(self).bitset@ == old(self).bitset@,
            ok ==> final(self).bitset@ == with_bit(old(self).bitset@, fd as int),
    {
        if self.bitset.len() == 0 {
            return false;
        }
        let i = fd / 32;
        let w = self.bitset[i] | (1u32 << ((fd % 32) as u32));
        self.bitset.set(i, w);
        true
    }
}

/// What polling a file tells.
#[derive(Debug, Clone, Copy, PartialEq, Eq, Structural)]
pub struct PollStatus {
    pub read: bool,
    pub write: bool,
    pub error: bool,
}

/// The three sets of a `select`, and the events found so far.
pub struct Select {
    pub read: FdSet,
    pub write: FdSet,
    pub err: FdSet,
    pub events: usize,
}

impl Select {
    pub open spec fn wf(&self) -> bool {
        self.read.wf() && self.write.wf() && self.err.wf()
    }

    /// Whether open descriptor `fd` is polled: it is below `nfds` and in one
    /// of the sets.
    pub fn should_poll(&self, fd: usize, nfds: usize) -> (b: bool)
        requires
            self.wf(),
        ensures
            b == (fd < nfds && (self.err.has(fd as int) || self.read.has(fd as int) || self.write.has(fd as int))),
    {
        if fd >= nfds {
            return false;
        }
        self.err.contains(fd) || self.read.contains(fd) || self.write.contains(fd)
    }

    /// Records what polling `fd` told: an error, readiness to read and
    /// readiness to write each count one event where `fd` is in that set.
    pub fn record(&mut self, fd: usize, status: PollStatus)
        requires
            old(self).wf(),
            old(self).events + 3 <= usize::MAX,
        ensures
            final(self).wf(),
            final(self).events == old(self).events
                + (if status.error && old(self).err.has(fd as int) { 1int } else { 0 })
                + (if status.read && old(self).read.has(fd as int) { 1int } else { 0 })
                + (if status.write && old(self).write.has(fd as int) { 1int } else { 0 }),
            final(self).err.origin@ == old(self).err.origin@,
            final(self).read.origin@ == old(self).read.origin@,
            final(self).write.origin@ == old(self).write.origin@,
            status.error && old(self).err.has(fd as int) ==> final(self).err.bitset@ == with_bit(old(self).err.bitset@, fd as int),
            !(status.error && old(self).err.has(fd as int)) ==> final(self).err.bitset@ == old(self).err.bitset@,
            status.read && old(self).read.has(fd as int) ==> final(self).read.bitset@ == with_bit(old(self).read.bitset@, fd as int),
            !(status.read && old(self).read.has(fd as int)) ==> final(self).read.bitset@ == old(self).read.bitset@,
            status.write && old(self).write.has(fd as int) ==> final(self).write.bitset@ == with_bit(old(self).write.bitset@, fd as int),
            !(status.write && old(self).write.has(fd as int)) ==> final(self).write.bitset@ == old(self).write.bitset@,
    {
        if status.error && self.err.contains(fd) {
            self.err.set(fd);
            self.events = self.events + 1;
        }
        if status.read && self.read.contains(fd) {
            self.read.set(fd);
            self.events = self.events + 1;
        }
        if status.write && self.write.contains(fd) {
            self.write.set(fd);
            self.events = self.events + 1;
        }
    }
}

/// The end of a round of `select`: the events where there are any; 0 at
/// once for a zero timeout, or once the timeout has passed (a timeout of
/// `1 << 31` milliseconds or more never passes); else the wait goes on.
pub fn select_done(events: usize, timeout_msecs: usize, begin_ms: usize, now_ms: usize) -> (r: Option<SysResult>)
    requires
        begin_ms <= now_ms,
    ensures
        r == if events > 0 {
            Some(Ok::<usize, SysError>(events))
        } else if timeout_msecs == 0 {
            Some(Ok::<usize, SysError>(0))
        } else if timeout_msecs < TIMEOUT_INFINITY && now_ms - begin_ms > timeout_msecs {
            Some(Ok::<usize, SysError>(0))
        } else {
            None::<SysResult>
        },
{
    if events > 0 {
        return Some(Ok(events));
    }
    if timeout_msecs == 0 {
        return Some(Ok(0));
    }
    if timeout_msecs < TIMEOUT_INFINITY && now_ms - begin_ms > timeout_msecs {
        return Some(Ok(0));
    }
    None
}

pub const POLLIN: u16 = 0x1;
pub const POLLOUT: u16 = 0x4;
pub const POLLERR: u16 = 0x8;
pub const POLLHUP: u16 = 0x10;
pub const POLLINVAL: u16 = 0x20;

/// An entry of `poll`: a descriptor, the events asked for and those found.
#[derive(Debug, Clone, Copy, PartialEq, Eq, Structural)]
pub struct PollFd {
    pub fd: u32,
    pub events: u16,
    pub revents: u16,
}

/// `poll`'s check before waiting: every descriptor must be open, else
/// `EINVAL`.
pub fn poll_check(files: &FdTable, polls: &Vec<PollFd>) -> (r: Result<(), SysError>)
    ensures
        r == if forall|i: int| 0 <= i < polls@.len() ==> files.view().contains_key(#[trigger] polls@[i].fd as usize) {
            Ok::<(), SysError>(())
        } else {
            Err(SysError::EINVAL)
        },
{
    let mut i: usize = 0;
    while i < polls.len()
        invariant
            i <= polls@.len(),
            forall|j: int| 0 <= j < i ==> files.view().contains_key(#[trigger] polls@[j].fd as usize),
        decreases polls@.len() - i,
    {
        if !files.contains(polls[i].fd as usize) {
            return Err(SysError::EINVAL);
        }
        i = i + 1;
    }
    Ok(())
}

/// The events found on one entry: hang-up for an error, input and output
/// where asked for and ready; `ERR` alone where the descriptor is no longer
/// open (`status` is `None`).
pub open spec fn poll_revents(events: u16, status: Option<PollStatus>) -> (u16, int) {
    match status {
        None => (POLLERR, 1),
        Some(s) => {
            let hup: u16 = if s.error { POLLHUP } else { 0 };
            let inp: u16 = if s.read && events & POLLIN == POLLIN { POLLIN } else { 0 };
            let out: u16 = if s.write && events & POLLOUT == POLLOUT { POLLOUT } else { 0 };
            (hup | inp | out, (if s.error { 1int } else { 0 }) + (if s.read && events & POLLIN == POLLIN { 1int } else { 0 }) + (if s.write && events & POLLOUT == POLLOUT { 1int } else { 0 }))
        },
    }
}

proof fn lemma_revent_bits(h: u16, i: u16, o: u16, events: u16)
    by (bit_vector)
    requires
        h == 0 || h == 0x10,
        i == 0 || i == 1,
        o == 0 || o == 4,
    ensures
        ((h | i | o) & 0x4 != 0) == (o != 0),
        ((h | i | o) & 0x1 != 0) == (i != 0),
        ((h | i | o) & 0x10 != 0) == (h != 0),
        (h | i | o) & !0x15u16 == 0,
        (events & 0x4 == 0x4) == (events & 0x4 != 0),
        (events & 0x1 == 0x1) == (events & 0x1 != 0),
{
}

/// What `poll` reports on one entry, bit by bit: an output event exactly
/// where the file can be written and output was asked for, an input event
/// exactly where it can be read and input was asked for, a hang-up exactly
/// where it has an error, nothing else; the count is the number of events
/// reported. A descriptor that is no longer open reports `ERR` alone, once.
pub proof fn lemma_poll_revents_report(events: u16, status: Option<PollStatus>)
    ensures
        match status {
            None => poll_revents(events, status) == (POLLERR, 1int),
            Some(s) => {
                let (rev, n) = poll_revents(events, status);
                &&& (rev & POLLOUT != 0) == (s.write && events & POLLOUT != 0)
                &&& (rev & POLLIN != 0) == (s.read && events & POLLIN != 0)
                &&& (rev & POLLHUP != 0) == s.error
                &&& rev & !(POLLIN | POLLOUT | POLLHUP) == 0
                &&& n == (if rev & POLLIN != 0 { 1int } else { 0 }) + (if rev & POLLOUT != 0 { 1int } else { 0 }) + (
                if rev & POLLHUP != 0 { 1int } else { 0 })
            },
        },
{
    match status {
        None => {},
        Some(s) => {
            let h: u16 = if s.error { POLLHUP } else { 0 };
            let i: u16 = if s.read && events & POLLIN == POLLIN { POLLIN } else { 0 };
            let o: u16 = if s.write && events & POLLOUT == POLLOUT { POLLOUT } else { 0 };
            lemma_revent_bits(h, i, o, events);
            assert(POLLIN | POLLOUT | POLLHUP == 0x15u16) by (bit_vector);
        },
    }
}

/// Records the events found on one entry; returns how many.
pub fn poll_record(poll: &mut PollFd, status: Option<PollStatus>) -> (n: usize)
    ensures
        final(poll).fd == old(poll).fd,
        final(poll).events == old(poll).events,
        (final(poll).revents, n as int) == poll_revents(old(poll).events, status),
{
    poll.revents = 0;
    match status {
        None => {
            poll.revents = POLLERR;
            1
        },
        Some(s) => {
            let mut n: usize = 0;
            let hup: u16 = if s.error { POLLHUP } else { 0 };
            let inp: u16 = if s.read && poll.events & POLLIN == POLLIN { POLLIN } else { 0 };
            let out: u16 = if s.write && poll.events & POLLOUT == POLLOUT { POLLOUT } else { 0 };
            if s.error {
                n = n + 1;
            }
            if s.read && poll.events & POLLIN == POLLIN {
                n = n + 1;
            }
            if s.write && poll.events & POLLOUT == POLLOUT {
                n = n + 1;
            }
            poll.revents = hup | inp | out;
            n
        },
    }
}

/// The end of a round of `poll`: the events where there are any; 0 once
/// the timeout has passed (one of `1 << 31` milliseconds or more never
/// passes); else the wait goes on.
pub fn poll_done(events: usize, timeout_msecs: usize, begin_ms: usize, now_ms: usize) -> (r: Option<SysResult>)
    requires
        begin_ms <= now_ms,
    ensures
        r == if events > 0 {
            Some(Ok::<usize, SysError>(events))
        } else if timeout_msecs < TIMEOUT_INFINITY && now_ms - begin_ms > timeout_msecs {
            Some(Ok::<usize, SysError>(0))
        } else {
            None::<SysResult>
        },
{
    if events > 0 {
        return Some(Ok(events));
    }
    if timeout_msecs < TIMEOUT_INFINITY && now_ms - begin_ms > timeout_msecs {
        return Some(Ok(0));
    }
    None
}

/// The timeout that stands for none: 2^31 milliseconds.
pub const POLL_FOREVER_MSEC: usize = 0x8000_0000;

/// `ppoll`'s timeout in milliseconds, for `poll`: none waits for ever.
pub fn ppoll_timeout(timeout: Option<TimeSpec>) -> (msec: usize)
    requires
        timeout matches Some(t) ==> t.msec() <= usize::MAX,
    ensures
        msec == match timeout {
            None => POLL_FOREVER_MSEC as int,
            Some(t) => t.msec(),
        },
{
    match timeout {
        None => POLL_FOREVER_MSEC,
        Some(t) => t.to_msec() as usize,
    }
}

} // verus!
