//! Miscellaneous system calls: machine name, limits, futex requests, reboot
//! and the architecture's control call.

use vstd::prelude::*;

use crate::syscall::{SysError, SysResult};

verus! {

pub const ARCH_SET_FS: i32 = 0x1002;

/// `arch_prctl`: `ARCH_SET_FS` sets the FS base register of the thread to
/// `addr`; any other code is `EINVAL`.
pub fn sys_arch_prctl(code: i32, addr: usize, fsbase: &mut usize) -> (r: SysResult)
    ensures
        code == ARCH_SET_FS ==> r == Ok::<usize, SysError>(0) && *final(fsbase) == addr,
        code != ARCH_SET_FS ==> r == Err::<usize, SysError>(SysError::EINVAL) && *final(fsbase) == *old(fsbase),
{
    if code == ARCH_SET_FS {
        *fsbase = addr;
        Ok(0)
    } else {
        Err(SysError::EINVAL)
    }
}

/// The width of each field of `struct utsname`.
pub const UTS_FIELD_LEN: usize = 65;

/// The fields that `uname` reports: system, node, release, version,
/// machine and domain.
pub open spec fn uname_field(i: int) -> Seq<u8> {
    if i == 0 {
        seq![0x72u8, 0x43, 0x6f, 0x72, 0x65]
    } else if i == 1 {
        seq![0x6fu8, 0x72, 0x7a]
    } else if i == 2 {
        seq![0x30u8, 0x2e, 0x31, 0x2e, 0x30]
    } else if i == 3 {
        seq![0x31u8]
    } else if i == 4 {
        seq![0x6du8, 0x61, 0x63, 0x68, 0x69, 0x6e, 0x65]
    } else {
        seq![0x64u8, 0x6f, 0x6d, 0x61, 0x69, 0x6e]
    }
}

fn uname_field_bytes(i: usize) -> (v: Vec<u8>)
    requires
        i < 6,
    ensures
        v@ == uname_field(i as int),
{
    let v: Vec<u8> = if i == 0 {
        vec![0x72u8, 0x43, 0x6f, 0x72, 0x65]
    } else if i == 1 {
        vec![0x6fu8, 0x72, 0x7a]
    } else if i == 2 {
        vec![0x30u8, 0x2e, 0x31, 0x2e, 0x30]
    } else if i == 3 {
        vec![0x31u8]
    } else if i == 4 {
        vec![0x6du8, 0x61, 0x63, 0x68, 0x69, 0x6e, 0x65]
    } else {
        vec![0x64u8, 0x6f, 0x6d, 0x61, 0x69, 0x6e]
    };
    assert(v@ =~= uname_field(i as int));
    v
}

/// `uname`: writes each field, NUL-terminated, at the start of its 65-byte
/// slot of `buf`; the other bytes keep their values.
pub fn sys_uname(buf: &mut Vec<u8>)
    requires
        old(buf)@.len() == 6 * UTS_FIELD_LEN,
    ensures
        final(buf)@.len() == old(buf)@.len(),
        forall|i: int, j: int|
            #![trigger final(buf)@[i * 65 + j]]
            0 <= i < 6 && 0 <= j < 65 ==> final(buf)@[i * 65 + j] == if j < uname_field(i).len() {
                uname_field(i)[j]
            } else if j == uname_field(i).len() {
                0u8
            } else {
                old(buf)@[i * 65 + j]
            },
{
    let mut i: usize = 0;
    while i < 6
        invariant
            i <= 6,
            buf@.len() == 6 * UTS_FIELD_LEN,
            forall|a: int, j: int|
                #![trigger buf@[a * 65 + j]]
                0 <= a < 6 && 0 <= j < 65 ==> buf@[a * 65 + j] == if a < i && j < uname_field(a).len() {
                    uname_field(a)[j]
                } else if a < i && j == uname_field(a).len() {
                    0u8
                } else {
                    old(buf)@[a * 65 + j]
                },
        decreases 6 - i,
    {
        let s = uname_field_bytes(i);
        let mut j: usize = 0;
        while j <= s.len()
            invariant
                i < 6,
                s@ == uname_field(i as int),
                s@.len() < 65,
                j <= s@.len() + 1,
                buf@.len() == 6 * UTS_FIELD_LEN,
                forall|a: int, c: int|
                    #![trigger buf@[a * 65 + c]]
                    0 <= a < 6 && 0 <= c < 65 ==> buf@[a * 65 + c] == if a < i && c < uname_field(a).len() {
                        uname_field(a)[c]
                    } else if a < i && c == uname_field(a).len() {
                        0u8
                    } else if a == i && c < j {
                        if c < s@.len() { s@[c] } else { 0u8 }
                    } else {
                        old(buf)@[a * 65 + c]
                    },
            decreases s@.len() + 1 - j,
        {
            let b = if j < s.len() { s[j] } else { 0u8 };
            let ghost before = buf@;
            buf.set(i * 65 + j, b);
            proof {
                assert forall|a: int, c: int| 0 <= a < 6 && 0 <= c < 65 implies #[trigger] buf@[a * 65 + c] == if a < i && c < uname_field(a).len() {
                    uname_field(a)[c]
                } else if a < i && c == uname_field(a).len() {
                    0u8
                } else if a == i && c < j + 1 {
                    if c < s@.len() { s@[c] } else { 0u8 }
                } else {
                    old(buf)@[a * 65 + c]
                } by {
                    lemma_slot(a, c, i as int, j as int);
                    assert(before[a * 65 + c] == before[a * 65 + c]);
                }
            }
            j = j + 1;
        }
        i = i + 1;
    }
}

proof fn lemma_slot(a: int, c: int, i: int, j: int)
    requires
        0 <= a < 6,
        0 <= c < 65,
        0 <= i < 6,
        0 <= j < 65,
    ensures
        (a * 65 + c == i * 65 + j) <==> (a == i && c == j),
        0 <= a * 65 + c < 390,
{
    assert(0 <= a * 65 + c < 390) by (nonlinear_arith)
        requires 0 <= a < 6, 0 <= c < 65;
    if a < i {
        assert(a * 65 + c < i * 65) by (nonlinear_arith)
            requires a < i, c < 65;
    } else if a > i {
        assert(a * 65 + c >= i * 65 + 65) by (nonlinear_arith)
            requires a > i, c >= 0;
    }
}

/// `sched_getaffinity`: every one of the four CPUs.
pub fn sys_sched_getaffinity(mask: &mut Vec<u32>)
    requires
        old(mask)@.len() > 0,
    ensures
        final(mask)@ == old(mask)@.update(0, 0b1111u32),
{
    mask.set(0, 0b1111);
}

/// What `sysinfo` reports: zeros.
#[derive(Debug, Clone, Copy)]
pub struct SysInfo {
    pub uptime: u64,
    pub loads: [u64; 3],
    pub totalram: u64,
    pub freeram: u64,
    pub sharedram: u64,
    pub bufferram: u64,
    pub totalswap: u64,
    pub freeswap: u64,
    pub procs: u16,
    pub totalhigh: u64,
    pub freehigh: u64,
    pub mem_unit: u32,
}

impl SysInfo {
    pub fn zero() -> (s: Self)
        ensures
            s.uptime == 0 && s.loads@ == seq![0u64, 0, 0] && s.totalram == 0 && s.freeram == 0
                && s.sharedram == 0 && s.bufferram == 0 && s.totalswap == 0 && s.freeswap == 0
                && s.procs == 0 && s.totalhigh == 0 && s.freehigh == 0 && s.mem_unit == 0,
    {
        let s = SysInfo {
            uptime: 0,
            loads: [0, 0, 0],
            totalram: 0,
            freeram: 0,
            sharedram: 0,
            bufferram: 0,
            totalswap: 0,
            freeswap: 0,
            procs: 0,
            totalhigh: 0,
            freehigh: 0,
            mem_unit: 0,
        };
        assert(s.loads@ =~= seq![0u64, 0, 0]);
        s
    }
}

pub const RLIMIT_STACK: usize = 3;
pub const RLIMIT_RSS: usize = 5;
pub const RLIMIT_NOFILE: usize = 7;
pub const RLIMIT_AS: usize = 9;

/// A resource limit: soft and hard.
#[derive(Debug, Clone, Copy, PartialEq, Eq, Structural)]
pub struct RLimit {
    pub cur: u64,
    pub max: u64,
}

/// The limit that `prlimit64` reports for `resource`: the user stack size
/// for the stack, 1024 files, 1 GiB of memory; `ENOSYS` for the others.
pub fn prlimit_old(resource: usize, user_stack_size: u64) -> (r: Result<RLimit, SysError>)
    ensures
        resource == RLIMIT_STACK ==> r == Ok::<RLimit, SysError>(RLimit { cur: user_stack_size, max: user_stack_size }),
        resource == RLIMIT_NOFILE ==> r == Ok::<RLimit, SysError>(RLimit { cur: 1024, max: 1024 }),
        resource == RLIMIT_RSS || resource == RLIMIT_AS ==> r == Ok::<RLimit, SysError>(
            RLimit { cur: 0x4000_0000, max: 0x4000_0000 },
        ),
        resource != RLIMIT_STACK && resource != RLIMIT_NOFILE && resource != RLIMIT_RSS && resource != RLIMIT_AS
            ==> r == Err::<RLimit, SysError>(SysError::ENOSYS),
{
    if resource == RLIMIT_STACK {
        Ok(RLimit { cur: user_stack_size, max: user_stack_size })
    } else if resource == RLIMIT_NOFILE {
        Ok(RLimit { cur: 1024, max: 1024 })
    } else if resource == RLIMIT_RSS || resource == RLIMIT_AS {
        Ok(RLimit { cur: 1024 * 1024 * 1024, max: 1024 * 1024 * 1024 })
    } else {
        Err(SysError::ENOSYS)
    }
}

pub const FUTEX_WAIT: u32 = 0;
pub const FUTEX_WAKE: u32 = 1;
pub const FUTEX_PRIVATE: u32 = 0x80;

/// What a futex call asks for.
#[derive(Debug, Clone, Copy, PartialEq, Eq, Structural)]
pub enum FutexRequest {
    /// Wait on the futex at the address.
    Wait,
    /// Wake up to this many waiters.
    Wake(usize),
}

/// `futex`'s check of the address: it must be 4-byte aligned.
pub fn futex_check_addr(uaddr: usize) -> (r: Result<(), SysError>)
    ensures
        r == if uaddr % 4 == 0 { Ok::<(), SysError>(()) } else { Err(SysError::EINVAL) },
{
    if uaddr % 4 != 0 {
        Err(SysError::EINVAL)
    } else {
        Ok(())
    }
}

/// `futex`'s decision once the word at the address reads `word`: a wait
/// goes ahead only while the word still holds `val` (`EAGAIN` else), a
/// wake wakes `val` waiters, and another operation is `ENOSYS`.
pub fn futex_request(op: u32, val: i32, word: i32) -> (r: Result<FutexRequest, SysError>)
    ensures
        op & 0xf == FUTEX_WAIT ==> r == if word != val {
            Err::<FutexRequest, SysError>(SysError::EAGAIN)
        } else {
            Ok(FutexRequest::Wait)
        },
        op & 0xf == FUTEX_WAKE ==> r == Ok::<FutexRequest, SysError>(FutexRequest::Wake(val as usize)),
        op & 0xf != FUTEX_WAIT && op & 0xf != FUTEX_WAKE ==> r == Err::<FutexRequest, SysError>(SysError::ENOSYS),
{
    let cmd = op & 0xf;
    if cmd == FUTEX_WAIT {
        if word != val {
            Err(SysError::EAGAIN)
        } else {
            Ok(FutexRequest::Wait)
        }
    } else if cmd == FUTEX_WAKE {
        Ok(FutexRequest::Wake(val as usize))
    } else {
        Err(SysError::ENOSYS)
    }
}

pub const LINUX_REBOOT_CMD_RESTART: u32 = 0x01234567;
pub const LINUX_REBOOT_CMD_HALT: u32 = 0xCDEF0123;

/// What `reboot` does to the machine.
#[derive(Debug, Clone, Copy, PartialEq, Eq, Structural)]
pub enum RebootAction {
    Halt,
    Restart,
    Nothing,
}

/// `reboot`: halt and restart are carried out; other commands do nothing.
pub fn reboot_action(cmd: u32) -> (a: RebootAction)
    ensures
        a == if cmd == LINUX_REBOOT_CMD_HALT {
            RebootAction::Halt
        } else if cmd == LINUX_REBOOT_CMD_RESTART {
            RebootAction::Restart
        } else {
            RebootAction::Nothing
        },
{
    if cmd == LINUX_REBOOT_CMD_HALT {
        RebootAction::Halt
    } else if cmd == LINUX_REBOOT_CMD_RESTART {
        RebootAction::Restart
    } else {
        RebootAction::Nothing
    }
}

/// `getrandom`'s bytes: byte `k` is `k` plus the tick count, both cut to
/// a byte, wrapping.
pub fn getrandom_bytes(len: usize, tick: usize) -> (v: Vec<u8>)
    ensures
        v@.len() == len,
        forall|k: int| 0 <= k < len ==> #[trigger] v@[k] == ((k as u8) as int + (tick as u8) as int) % 256,
{
    let t = tick as u8;
    let mut v: Vec<u8> = Vec::new();
    let mut k: usize = 0;
    while k < len
        invariant
            k <= len,
            t == tick as u8,
            v@.len() == k,
            forall|c: int| 0 <= c < k ==> #[trigger] v@[c] == ((c as u8) as int + (tick as u8) as int) % 256,
        decreases len - k,
    {
        v.push((k as u8).wrapping_add(t));
        k = k + 1;
    }
    v
}

} // verus!
