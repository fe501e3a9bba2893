//! Time values of the system call ABI, the wall clock, and sleeping.

use vstd::prelude::*;

use crate::sync::event_bus::Poll;

verus! {

pub const USEC_PER_SEC: u64 = 1_000_000;
pub const MSEC_PER_SEC: u64 = 1_000;
pub const USEC_PER_MSEC: u64 = 1_000;
pub const NSEC_PER_USEC: u64 = 1_000;
pub const NSEC_PER_MSEC: u64 = 1_000_000;
pub const NSEC_PER_SEC: u64 = 1_000_000_000;

/// A reading of the timer with what it is measured against: the tick count
/// now and at boot, the seconds since the epoch at boot, and the length of a
/// tick.
#[derive(Debug, Clone, Copy)]
pub struct WallClock {
    pub tick: u64,
    pub tick_base: u64,
    pub epoch_base: u64,
    pub usec_per_tick: u64,
}

impl WallClock {
    /// Microseconds since the epoch.
    pub open spec fn epoch_usec_spec(&self) -> int {
        (self.tick - self.tick_base) * self.usec_per_tick + self.epoch_base * USEC_PER_SEC
    }

    /// Microseconds since boot.
    pub open spec fn uptime_usec_spec(&self) -> int {
        (self.tick - self.tick_base) * self.usec_per_tick
    }

    /// Whether the reading is consistent and its microseconds since the
    /// epoch fit in 64 bits.
    pub open spec fn valid(&self) -> bool {
        &&& self.tick_base <= self.tick
        &&& 0 <= self.epoch_usec_spec() <= u64::MAX
    }

    /// Microseconds since boot.
    pub fn uptime_usec(&self) -> (u: u64)
        requires
            self.valid(),
        ensures
            u == self.uptime_usec_spec(),
    {
        let ticks = self.tick - self.tick_base;
        assert(ticks * self.usec_per_tick <= self.epoch_usec_spec()) by (nonlinear_arith)
            requires
                ticks * self.usec_per_tick + self.epoch_base * USEC_PER_SEC == self.epoch_usec_spec(),
                self.epoch_base * USEC_PER_SEC >= 0,
        ;
        ticks * self.usec_per_tick
    }

    /// Microseconds since the epoch.
    pub fn epoch_usec(&self) -> (u: u64)
        requires
            self.valid(),
        ensures
            u == self.epoch_usec_spec(),
    {
        let ticks = self.tick - self.tick_base;
        let up = self.uptime_usec();
        assert(self.epoch_base * USEC_PER_SEC <= self.epoch_usec_spec()) by (nonlinear_arith)
            requires
                up + self.epoch_base * USEC_PER_SEC == self.epoch_usec_spec(),
                up >= 0,
        ;
        up + self.epoch_base * USEC_PER_SEC
    }
}

/// Seconds and microseconds.
#[derive(Debug, Clone, Copy, PartialEq, Eq, Structural)]
pub struct TimeVal {
    pub sec: usize,
    pub usec: usize,
}

impl TimeVal {
    /// Whole milliseconds.
    pub open spec fn msec(&self) -> int {
        self.sec * MSEC_PER_SEC + (self.usec as int) / (USEC_PER_MSEC as int)
    }

    /// The time in milliseconds; it fits in 64 bits.
    pub fn to_msec(&self) -> (m: u64)
        requires
            self.msec() <= u64::MAX,
        ensures
            m == self.msec(),
    {
        let s = self.sec as u64;
        let u = self.usec as u64;
        assert(s * MSEC_PER_SEC <= self.msec()) by (nonlinear_arith)
            requires
                s * MSEC_PER_SEC + u / USEC_PER_MSEC == self.msec(),
                u / USEC_PER_MSEC >= 0,
        ;
        s * MSEC_PER_SEC + u / USEC_PER_MSEC
    }

    /// `usec` microseconds as seconds and the microseconds left over.
    pub fn from_usec(usec: u64) -> (t: Self)
        requires
            usec / USEC_PER_SEC <= usize::MAX,
        ensures
            t.sec == usec / USEC_PER_SEC,
            t.usec == usec % USEC_PER_SEC,
    {
        TimeVal { sec: (usec / USEC_PER_SEC) as usize, usec: (usec % USEC_PER_SEC) as usize }
    }

    /// The time since the epoch by `clock`, as seconds and microseconds.
    pub open spec fn epoch_spec(clock: WallClock) -> TimeVal {
        TimeVal {
            sec: (clock.epoch_usec_spec() / (USEC_PER_SEC as int)) as usize,
            usec: (clock.epoch_usec_spec() % (USEC_PER_SEC as int)) as usize,
        }
    }

    /// The time since the epoch by `clock`.
    pub fn get_epoch(clock: &WallClock) -> (t: Self)
        requires
            clock.valid(),
            clock.epoch_usec_spec() / (USEC_PER_SEC as int) <= usize::MAX,
        ensures
            t.sec == clock.epoch_usec_spec() / (USEC_PER_SEC as int),
            t.usec == clock.epoch_usec_spec() % (USEC_PER_SEC as int),
            t == Self::epoch_spec(*clock),
    {
        Self::from_usec(clock.epoch_usec())
    }
}

/// The two readings of the epoch agree: at the same clock reading the
/// seconds are the same, and the nanoseconds are the microseconds times a
/// thousand, a whole number of microseconds below one second.
pub proof fn lemma_epoch_readings_agree(clock: WallClock)
    requires
        clock.valid(),
        clock.epoch_usec_spec() / (USEC_PER_SEC as int) <= usize::MAX,
    ensures
        TimeSpec::epoch_spec(clock).sec == TimeVal::epoch_spec(clock).sec,
        TimeSpec::epoch_spec(clock).nsec == TimeVal::epoch_spec(clock).usec * NSEC_PER_USEC,
        TimeSpec::epoch_spec(clock).nsec < NSEC_PER_SEC,
        TimeSpec::epoch_spec(clock).nsec % 1000 == 0,
{
    let u = clock.epoch_usec_spec();
    let r = u % (USEC_PER_SEC as int);
    assert(0 <= r < 1_000_000);
    assert(0 <= r * 1000 < 1_000_000_000) by (nonlinear_arith)
        requires
            0 <= r < 1_000_000,
    ;
    assert((r * 1000) % 1000 == 0) by (nonlinear_arith);
}

/// The time stamp of the file system interface.
#[derive(Debug, Clone, Copy, PartialEq, Eq, Structural)]
pub struct VfsTimespec {
    pub sec: i64,
    pub nsec: i32,
}

/// The times that a file records.
#[derive(Debug, Clone, Copy, PartialEq, Eq, Structural)]
pub struct FileTimes {
    pub atime: VfsTimespec,
    pub mtime: VfsTimespec,
    pub ctime: VfsTimespec,
}

/// A span of time, in seconds and the nanoseconds below a second.
#[derive(Debug, Clone, Copy, PartialEq, Eq, Structural)]
pub struct Duration {
    pub secs: u64,
    pub nanos: u32,
}

impl Duration {
    pub open spec fn wf(&self) -> bool {
        self.nanos < NSEC_PER_SEC
    }

    /// The span in nanoseconds.
    pub open spec fn total_nanos(&self) -> int {
        self.secs * NSEC_PER_SEC + self.nanos
    }

    /// `secs` seconds and `nanos` nanoseconds, with whole seconds of `nanos`
    /// carried into the seconds; the seconds fit in 64 bits.
    pub fn new(secs: u64, nanos: u32) -> (d: Self)
        requires
            secs + (nanos as int) / (NSEC_PER_SEC as int) <= u64::MAX,
        ensures
            d.wf(),
            d.total_nanos() == secs * NSEC_PER_SEC + nanos,
    {
        let carry = (nanos as u64) / NSEC_PER_SEC;
        let rest = (nanos as u64) % NSEC_PER_SEC;
        Duration { secs: secs + carry, nanos: rest as u32 }
    }

    /// The sum of two spans; its seconds fit in 64 bits.
    pub fn add(&self, other: &Duration) -> (d: Duration)
        requires
            self.wf(),
            other.wf(),
            self.secs + other.secs + 1 <= u64::MAX,
        ensures
            d.wf(),
            d.total_nanos() == self.total_nanos() + other.total_nanos(),
    {
        let n = self.nanos as u64 + other.nanos as u64;
        if n >= NSEC_PER_SEC {
            Duration { secs: self.secs + other.secs + 1, nanos: (n - NSEC_PER_SEC) as u32 }
        } else {
            Duration { secs: self.secs + other.secs, nanos: n as u32 }
        }
    }

    /// Whether `self` is at least `other`.
    pub fn ge(&self, other: &Duration) -> (b: bool)
        requires
            self.wf(),
            other.wf(),
        ensures
            b == (self.total_nanos() >= other.total_nanos()),
    {
        self.secs > other.secs || (self.secs == other.secs && self.nanos >= other.nanos)
    }

    /// Whether the span is shorter than `i64::MAX` nanoseconds.
    pub fn is_finite(&self) -> (b: bool)
        requires
            self.wf(),
        ensures
            b == (self.total_nanos() < i64::MAX),
    {
        // i64::MAX nanoseconds is 9223372036 seconds and 854775807 nanoseconds.
        self.secs < 9_223_372_036 || (self.secs == 9_223_372_036 && self.nanos < 854_775_807)
    }
}

/// Seconds and nanoseconds.
#[derive(Debug, Clone, Copy, PartialEq, Eq, Structural)]
pub struct TimeSpec {
    pub sec: usize,
    pub nsec: usize,
}

impl TimeSpec {
    /// Whole milliseconds.
    pub open spec fn msec(&self) -> int {
        self.sec * MSEC_PER_SEC + (self.nsec as int) / (NSEC_PER_MSEC as int)
    }

    /// The time in milliseconds; it fits in 64 bits.
    pub fn to_msec(&self) -> (m: u64)
        requires
            self.msec() <= u64::MAX,
        ensures
            m == self.msec(),
    {
        let s = self.sec as u64;
        let n = self.nsec as u64;
        assert(s * MSEC_PER_SEC <= self.msec()) by (nonlinear_arith)
            requires
                s * MSEC_PER_SEC + n / NSEC_PER_MSEC == self.msec(),
                n / NSEC_PER_MSEC >= 0,
        ;
        s * MSEC_PER_SEC + n / NSEC_PER_MSEC
    }

    /// The time as a span: the nanoseconds are cut to 32 bits, and whole
    /// seconds among them are carried.
    pub fn to_duration(&self) -> (d: Duration)
        requires
            self.sec + (self.nsec as u32 as int) / (NSEC_PER_SEC as int) <= u64::MAX,
        ensures
            d.wf(),
            d.total_nanos() == self.sec * NSEC_PER_SEC + (self.nsec as u32),
    {
        Duration::new(self.sec as u64, self.nsec as u32)
    }

    /// `usec` microseconds as seconds and the nanoseconds left over.
    pub fn from_usec(usec: u64) -> (t: Self)
        requires
            usec / USEC_PER_SEC <= usize::MAX,
        ensures
            t.sec == usec / USEC_PER_SEC,
            t.nsec == usec % USEC_PER_SEC * NSEC_PER_USEC,
    {
        let rest = usec % USEC_PER_SEC;
        assert(rest * NSEC_PER_USEC < 1_000_000_000) by (nonlinear_arith)
            requires
                rest < USEC_PER_SEC,
        ;
        TimeSpec { sec: (usec / USEC_PER_SEC) as usize, nsec: (rest * NSEC_PER_USEC) as usize }
    }

    /// The time since the epoch by `clock`, as seconds and nanoseconds.
    pub open spec fn epoch_spec(clock: WallClock) -> TimeSpec {
        TimeSpec {
            sec: (clock.epoch_usec_spec() / (USEC_PER_SEC as int)) as usize,
            nsec: (clock.epoch_usec_spec() % (USEC_PER_SEC as int) * NSEC_PER_USEC) as usize,
        }
    }

    /// The time since the epoch by `clock`.
    pub fn get_epoch(clock: &WallClock) -> (t: Self)
        requires
            clock.valid(),
            clock.epoch_usec_spec() / (USEC_PER_SEC as int) <= usize::MAX,
        ensures
            t.sec == clock.epoch_usec_spec() / (USEC_PER_SEC as int),
            t.nsec == clock.epoch_usec_spec() % (USEC_PER_SEC as int) * NSEC_PER_USEC,
            t == Self::epoch_spec(*clock),
    {
        Self::from_usec(clock.epoch_usec())
    }

    /// The time stamp of the file system interface: the seconds and the
    /// nanoseconds cut to its widths.
    pub fn to_vfs(&self) -> (t: VfsTimespec)
        ensures
            t.sec == self.sec as i64,
            t.nsec == self.nsec as i32,
    {
        VfsTimespec { sec: self.sec as i64, nsec: self.nsec as i32 }
    }

    /// Stamps access, modification and change time of a file with the time
    /// since the epoch by `clock`.
    pub fn update(times: &mut FileTimes, clock: &WallClock)
        requires
            clock.valid(),
            clock.epoch_usec_spec() / (USEC_PER_SEC as int) <= usize::MAX,
        ensures
            ({
                let now = VfsTimespec {
                    sec: (clock.epoch_usec_spec() / (USEC_PER_SEC as int)) as usize as i64,
                    nsec: (clock.epoch_usec_spec() % (USEC_PER_SEC as int) * NSEC_PER_USEC) as usize as i32,
                };
                *final(times) == FileTimes { atime: now, mtime: now, ctime: now }
            }),
    {
        let now = TimeSpec::get_epoch(clock).to_vfs();
        times.atime = now;
        times.mtime = now;
        times.ctime = now;
    }

    /// Whether both parts are zero.
    pub fn is_zero(&self) -> (b: bool)
        ensures
            b == (self.sec == 0 && self.nsec == 0),
    {
        self.sec == 0 && self.nsec == 0
    }
}

/// Time spent by a process: user and system time.
#[derive(Debug, Clone, Copy, PartialEq, Eq, Structural)]
pub struct RUsage {
    pub utime: TimeVal,
    pub stime: TimeVal,
}

impl RUsage {
    /// `getrusage`: both times are the time since boot by `clock`.
    pub fn since_boot(clock: &WallClock) -> (r: Self)
        requires
            clock.valid(),
            clock.uptime_usec_spec() / (USEC_PER_SEC as int) <= usize::MAX,
        ensures
            r.utime.sec == clock.uptime_usec_spec() / (USEC_PER_SEC as int),
            r.utime.usec == clock.uptime_usec_spec() % (USEC_PER_SEC as int),
            r.stime == r.utime,
    {
        let t = TimeVal::from_usec(clock.uptime_usec());
        RUsage { utime: t, stime: t }
    }
}

/// Process times, in ticks.
#[derive(Debug, Clone, Copy, PartialEq, Eq, Structural)]
pub struct Tms {
    pub tms_utime: u64,
    pub tms_stime: u64,
    pub tms_cutime: u64,
    pub tms_cstime: u64,
}

impl Tms {
    /// `times` fills in zeros.
    pub fn zero() -> (t: Self)
        ensures
            t == (Tms { tms_utime: 0, tms_stime: 0, tms_cutime: 0, tms_cstime: 0 }),
    {
        Tms { tms_utime: 0, tms_stime: 0, tms_cutime: 0, tms_cstime: 0 }
    }
}

/// A wait until the timer reaches `deadline`.
#[derive(Debug, Clone, Copy, PartialEq, Eq, Structural)]
pub struct SleepFuture {
    pub deadline: Duration,
}

/// What a poll of a sleep asks of the timer: nothing more, or a wake-up at
/// the deadline (none for a deadline too far to count in nanoseconds).
#[derive(Debug, Clone, Copy, PartialEq, Eq, Structural)]
pub enum SleepAction {
    Done,
    Wait { wake_at: Option<Duration> },
}

/// A sleep of `span` from `now`.
pub fn sleep_for(now: Duration, span: Duration) -> (f: SleepFuture)
    requires
        now.wf(),
        span.wf(),
        now.secs + span.secs + 1 <= u64::MAX,
    ensures
        f.deadline.wf(),
        f.deadline.total_nanos() == now.total_nanos() + span.total_nanos(),
{
    SleepFuture { deadline: now.add(&span) }
}

impl SleepFuture {
    /// One poll at time `now`: done once the deadline is reached; else a
    /// wake-up at the deadline is asked for where the deadline is below
    /// `i64::MAX` nanoseconds.
    pub fn poll(&self, now: Duration) -> (a: SleepAction)
        requires
            now.wf(),
            self.deadline.wf(),
        ensures
            now.total_nanos() >= self.deadline.total_nanos() ==> a == SleepAction::Done,
            now.total_nanos() < self.deadline.total_nanos() ==> a == (SleepAction::Wait {
                wake_at: if self.deadline.total_nanos() < i64::MAX { Some(self.deadline) } else { None },
            }),
    {
        if now.ge(&self.deadline) {
            return SleepAction::Done;
        }
        if self.deadline.is_finite() {
            SleepAction::Wait { wake_at: Some(self.deadline) }
        } else {
            SleepAction::Wait { wake_at: None }
        }
    }

    /// The same poll, as a `Poll`.
    pub fn poll_ready(&self, now: Duration) -> (r: Poll<()>)
        requires
            now.wf(),
            self.deadline.wf(),
        ensures
            (r is Ready) == (now.total_nanos() >= self.deadline.total_nanos()),
    {
        match self.poll(now) {
            SleepAction::Done => Poll::Ready(()),
            SleepAction::Wait { .. } => Poll::Pending,
        }
    }
}

} // verus!
