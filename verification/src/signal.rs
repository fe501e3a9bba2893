//! Signals: their numbers, sets of signals, and what a process does with a
//! signal that is delivered to one of its threads.

use vstd::prelude::*;

pub mod action;
pub mod delivery;

verus! {

/// The signals, numbered as Linux numbers them (1..=64).
#[allow(non_camel_case_types)]
#[derive(Debug, Clone, Copy, PartialEq, Eq, Structural)]
pub enum Signal {
    SIGHUP,
    SIGINT,
    SIGQUIT,
    SIGILL,
    SIGTRAP,
    SIGABRT,
    SIGBUS,
    SIGFPE,
    SIGKILL,
    SIGUSR1,
    SIGSEGV,
    SIGUSR2,
    SIGPIPE,
    SIGALRM,
    SIGTERM,
    SIGSTKFLT,
    SIGCHLD,
    SIGCONT,
    SIGSTOP,
    SIGTSTP,
    SIGTTIN,
    SIGTTOU,
    SIGURG,
    SIGXCPU,
    SIGXFSZ,
    SIGVTALRM,
    SIGPROF,
    SIGWINCH,
    SIGIO,
    SIGPWR,
    SIGSYS,
    SIGRT32,
    SIGRT33,
    SIGRT34,
    SIGRT35,
    SIGRT36,
    SIGRT37,
    SIGRT38,
    SIGRT39,
    SIGRT40,
    SIGRT41,
    SIGRT42,
    SIGRT43,
    SIGRT44,
    SIGRT45,
    SIGRT46,
    SIGRT47,
    SIGRT48,
    SIGRT49,
    SIGRT50,
    SIGRT51,
    SIGRT52,
    SIGRT53,
    SIGRT54,
    SIGRT55,
    SIGRT56,
    SIGRT57,
    SIGRT58,
    SIGRT59,
    SIGRT60,
    SIGRT61,
    SIGRT62,
    SIGRT63,
    SIGRT64,
}

/// The number of a signal.
pub open spec fn signal_number(s: Signal) -> int {
    match s {
        Signal::SIGHUP => 1,
        Signal::SIGINT => 2,
        Signal::SIGQUIT => 3,
        Signal::SIGILL => 4,
        Signal::SIGTRAP => 5,
        Signal::SIGABRT => 6,
        Signal::SIGBUS => 7,
        Signal::SIGFPE => 8,
        Signal::SIGKILL => 9,
        Signal::SIGUSR1 => 10,
        Signal::SIGSEGV => 11,
        Signal::SIGUSR2 => 12,
        Signal::SIGPIPE => 13,
        Signal::SIGALRM => 14,
        Signal::SIGTERM => 15,
        Signal::SIGSTKFLT => 16,
        Signal::SIGCHLD => 17,
        Signal::SIGCONT => 18,
        Signal::SIGSTOP => 19,
        Signal::SIGTSTP => 20,
        Signal::SIGTTIN => 21,
        Signal::SIGTTOU => 22,
        Signal::SIGURG => 23,
        Signal::SIGXCPU => 24,
        Signal::SIGXFSZ => 25,
        Signal::SIGVTALRM => 26,
        Signal::SIGPROF => 27,
        Signal::SIGWINCH => 28,
        Signal::SIGIO => 29,
        Signal::SIGPWR => 30,
        Signal::SIGSYS => 31,
        Signal::SIGRT32 => 32,
        Signal::SIGRT33 => 33,
        Signal::SIGRT34 => 34,
        Signal::SIGRT35 => 35,
        Signal::SIGRT36 => 36,
        Signal::SIGRT37 => 37,
        Signal::SIGRT38 => 38,
        Signal::SIGRT39 => 39,
        Signal::SIGRT40 => 40,
        Signal::SIGRT41 => 41,
        Signal::SIGRT42 => 42,
        Signal::SIGRT43 => 43,
        Signal::SIGRT44 => 44,
        Signal::SIGRT45 => 45,
        Signal::SIGRT46 => 46,
        Signal::SIGRT47 => 47,
        Signal::SIGRT48 => 48,
        Signal::SIGRT49 => 49,
        Signal::SIGRT50 => 50,
        Signal::SIGRT51 => 51,
        Signal::SIGRT52 => 52,
        Signal::SIGRT53 => 53,
        Signal::SIGRT54 => 54,
        Signal::SIGRT55 => 55,
        Signal::SIGRT56 => 56,
        Signal::SIGRT57 => 57,
        Signal::SIGRT58 => 58,
        Signal::SIGRT59 => 59,
        Signal::SIGRT60 => 60,
        Signal::SIGRT61 => 61,
        Signal::SIGRT62 => 62,
        Signal::SIGRT63 => 63,
        Signal::SIGRT64 => 64,
    }
}

impl Signal {
    /// The first real-time signal.
    pub const RTMIN: usize = 32;
    /// The last real-time signal.
    pub const RTMAX: usize = 64;

    /// The number of the signal.
    pub fn number(self) -> (n: usize)
        ensures
            n == signal_number(self),
            1 <= n <= 64,
    {
        match self {
            Signal::SIGHUP => 1,
            Signal::SIGINT => 2,
            Signal::SIGQUIT => 3,
            Signal::SIGILL => 4,
            Signal::SIGTRAP => 5,
            Signal::SIGABRT => 6,
            Signal::SIGBUS => 7,
            Signal::SIGFPE => 8,
            Signal::SIGKILL => 9,
            Signal::SIGUSR1 => 10,
            Signal::SIGSEGV => 11,
            Signal::SIGUSR2 => 12,
            Signal::SIGPIPE => 13,
            Signal::SIGALRM => 14,
            Signal::SIGTERM => 15,
            Signal::SIGSTKFLT => 16,
            Signal::SIGCHLD => 17,
            Signal::SIGCONT => 18,
            Signal::SIGSTOP => 19,
            Signal::SIGTSTP => 20,
            Signal::SIGTTIN => 21,
            Signal::SIGTTOU => 22,
            Signal::SIGURG => 23,
            Signal::SIGXCPU => 24,
            Signal::SIGXFSZ => 25,
            Signal::SIGVTALRM => 26,
            Signal::SIGPROF => 27,
            Signal::SIGWINCH => 28,
            Signal::SIGIO => 29,
            Signal::SIGPWR => 30,
            Signal::SIGSYS => 31,
            Signal::SIGRT32 => 32,
            Signal::SIGRT33 => 33,
            Signal::SIGRT34 => 34,
            Signal::SIGRT35 => 35,
            Signal::SIGRT36 => 36,
            Signal::SIGRT37 => 37,
            Signal::SIGRT38 => 38,
            Signal::SIGRT39 => 39,
            Signal::SIGRT40 => 40,
            Signal::SIGRT41 => 41,
            Signal::SIGRT42 => 42,
            Signal::SIGRT43 => 43,
            Signal::SIGRT44 => 44,
            Signal::SIGRT45 => 45,
            Signal::SIGRT46 => 46,
            Signal::SIGRT47 => 47,
            Signal::SIGRT48 => 48,
            Signal::SIGRT49 => 49,
            Signal::SIGRT50 => 50,
            Signal::SIGRT51 => 51,
            Signal::SIGRT52 => 52,
            Signal::SIGRT53 => 53,
            Signal::SIGRT54 => 54,
            Signal::SIGRT55 => 55,
            Signal::SIGRT56 => 56,
            Signal::SIGRT57 => 57,
            Signal::SIGRT58 => 58,
            Signal::SIGRT59 => 59,
            Signal::SIGRT60 => 60,
            Signal::SIGRT61 => 61,
            Signal::SIGRT62 => 62,
            Signal::SIGRT63 => 63,
            Signal::SIGRT64 => 64,
        }
    }

    /// The signal numbered `n`, if there is one.
    pub fn from_usize(n: usize) -> (s: Option<Signal>)
        ensures
            s is Some <==> 1 <= n <= 64,
            s matches Some(sig) ==> signal_number(sig) == n,
    {
        match n {
            1 => Some(Signal::SIGHUP),
            2 => Some(Signal::SIGINT),
            3 => Some(Signal::SIGQUIT),
            4 => Some(Signal::SIGILL),
            5 => Some(Signal::SIGTRAP),
            6 => Some(Signal::SIGABRT),
            7 => Some(Signal::SIGBUS),
            8 => Some(Signal::SIGFPE),
            9 => Some(Signal::SIGKILL),
            10 => Some(Signal::SIGUSR1),
            11 => Some(Signal::SIGSEGV),
            12 => Some(Signal::SIGUSR2),
            13 => Some(Signal::SIGPIPE),
            14 => Some(Signal::SIGALRM),
            15 => Some(Signal::SIGTERM),
            16 => Some(Signal::SIGSTKFLT),
            17 => Some(Signal::SIGCHLD),
            18 => Some(Signal::SIGCONT),
            19 => Some(Signal::SIGSTOP),
            20 => Some(Signal::SIGTSTP),
            21 => Some(Signal::SIGTTIN),
            22 => Some(Signal::SIGTTOU),
            23 => Some(Signal::SIGURG),
            24 => Some(Signal::SIGXCPU),
            25 => Some(Signal::SIGXFSZ),
            26 => Some(Signal::SIGVTALRM),
            27 => Some(Signal::SIGPROF),
            28 => Some(Signal::SIGWINCH),
            29 => Some(Signal::SIGIO),
            30 => Some(Signal::SIGPWR),
            31 => Some(Signal::SIGSYS),
            32 => Some(Signal::SIGRT32),
            33 => Some(Signal::SIGRT33),
            34 => Some(Signal::SIGRT34),
            35 => Some(Signal::SIGRT35),
            36 => Some(Signal::SIGRT36),
            37 => Some(Signal::SIGRT37),
            38 => Some(Signal::SIGRT38),
            39 => Some(Signal::SIGRT39),
            40 => Some(Signal::SIGRT40),
            41 => Some(Signal::SIGRT41),
            42 => Some(Signal::SIGRT42),
            43 => Some(Signal::SIGRT43),
            44 => Some(Signal::SIGRT44),
            45 => Some(Signal::SIGRT45),
            46 => Some(Signal::SIGRT46),
            47 => Some(Signal::SIGRT47),
            48 => Some(Signal::SIGRT48),
            49 => Some(Signal::SIGRT49),
            50 => Some(Signal::SIGRT50),
            51 => Some(Signal::SIGRT51),
            52 => Some(Signal::SIGRT52),
            53 => Some(Signal::SIGRT53),
            54 => Some(Signal::SIGRT54),
            55 => Some(Signal::SIGRT55),
            56 => Some(Signal::SIGRT56),
            57 => Some(Signal::SIGRT57),
            58 => Some(Signal::SIGRT58),
            59 => Some(Signal::SIGRT59),
            60 => Some(Signal::SIGRT60),
            61 => Some(Signal::SIGRT61),
            62 => Some(Signal::SIGRT62),
            63 => Some(Signal::SIGRT63),
            64 => Some(Signal::SIGRT64),
            _ => None,
        }
    }

    /// The signal numbered `n`, if there is one.
    pub fn from_i32(n: i32) -> (s: Option<Signal>)
        ensures
            s is Some <==> 1 <= n <= 64,
            s matches Some(sig) ==> signal_number(sig) == n,
    {
        if n < 1 || n > 64 {
            None
        } else {
            Signal::from_usize(n as usize)
        }
    }

    /// Whether the signal is a standard (not real-time) one.
    pub fn is_standard(self) -> (b: bool)
        ensures
            b == (signal_number(self) < 32),
    {
        self.number() < Self::RTMIN
    }
}

/// Distinct signals have distinct numbers.
pub proof fn lemma_signal_number_injective(a: Signal, b: Signal)
    ensures
        signal_number(a) == signal_number(b) ==> a == b,
        1 <= signal_number(a) <= 64,
{
}

} // verus!
