//! The system calls of the uCore teaching interface: their numbers, results
//! and the bookkeeping that they do on a process.

use vstd::prelude::*;

use std::collections::BTreeMap;

use crate::process::proc::{is_lowest_free, lowest_free_key};

verus! {

broadcast use {vstd::std_specs::btree::group_btree_axioms, vstd::laws_cmp::group_laws_cmp};

/// The errors of the interface; every one of them is reported as -1.
#[derive(Debug, Clone, Copy, PartialEq, Eq, Structural)]
pub enum SysError {
    VfsError,
    InvalidFile,
    InvalidArgument,
}

pub type SysResult = Result<i32, SysError>;

/// A call of the interface, with its arguments.
#[allow(inconsistent_fields)]
#[derive(Debug, Clone, Copy, PartialEq, Eq, Structural)]
pub enum UcoreCall {
    Open { path: usize, flags: usize },
    Close { fd: usize },
    Read { fd: usize, base: usize, len: usize },
    Write { fd: usize, base: usize, len: usize },
    Putc { c: u8 },
    Fstat { fd: usize, stat: usize },
    GetDirEntry { fd: usize, dentry: usize },
    Dup { fd1: usize, fd2: usize },
    Exit { code: i32 },
    Fork,
    Wait { pid: usize, code: usize },
    Exec { name: usize, argc: usize, argv: usize },
    Yield,
    Sleep { time: usize },
    Kill { pid: usize },
    GetTime,
    GetPid,
    SetPriority { priority: usize },
    /// A number the interface does not have: the trap is an error.
    Unknown,
}

/// The call that number `id` names, with its arguments taken from `args`.
pub open spec fn ucore_call(id: usize, args: [usize; 6]) -> UcoreCall {
    if id == 100 {
        UcoreCall::Open { path: args@[0], flags: args@[1] }
    } else if id == 101 {
        UcoreCall::Close { fd: args@[0] }
    } else if id == 102 {
        UcoreCall::Read { fd: args@[0], base: args@[1], len: args@[2] }
    } else if id == 103 {
        UcoreCall::Write { fd: args@[0], base: args@[1], len: args@[2] }
    } else if id == 30 {
        UcoreCall::Putc { c: args@[0] as u8 }
    } else if id == 110 {
        UcoreCall::Fstat { fd: args@[0], stat: args@[1] }
    } else if id == 128 {
        UcoreCall::GetDirEntry { fd: args@[0], dentry: args@[1] }
    } else if id == 130 {
        UcoreCall::Dup { fd1: args@[0], fd2: args@[1] }
    } else if id == 1 {
        UcoreCall::Exit { code: args@[0] as i32 }
    } else if id == 2 {
        UcoreCall::Fork
    } else if id == 3 {
        UcoreCall::Wait { pid: args@[0], code: args@[1] }
    } else if id == 4 {
        UcoreCall::Exec { name: args@[0], argc: args@[1], argv: args@[2] }
    } else if id == 10 {
        UcoreCall::Yield
    } else if id == 11 {
        UcoreCall::Sleep { time: args@[0] }
    } else if id == 12 {
        UcoreCall::Kill { pid: args@[0] }
    } else if id == 17 {
        UcoreCall::GetTime
    } else if id == 18 {
        UcoreCall::GetPid
    } else if id == 255 {
        UcoreCall::SetPriority { priority: args@[0] }
    } else {
        UcoreCall::Unknown
    }
}

/// The dispatcher's decoding of call number `id` with arguments `args`.
pub fn syscall(id: usize, args: [usize; 6]) -> (c: UcoreCall)
    ensures
        c == ucore_call(id, args),
{
    if id == 100 {
        UcoreCall::Open { path: args[0], flags: args[1] }
    } else if id == 101 {
        UcoreCall::Close { fd: args[0] }
    } else if id == 102 {
        UcoreCall::Read { fd: args[0], base: args[1], len: args[2] }
    } else if id == 103 {
        UcoreCall::Write { fd: args[0], base: args[1], len: args[2] }
    } else if id == 30 {
        UcoreCall::Putc { c: args[0] as u8 }
    } else if id == 110 {
        UcoreCall::Fstat { fd: args[0], stat: args[1] }
    } else if id == 128 {
        UcoreCall::GetDirEntry { fd: args[0], dentry: args[1] }
    } else if id == 130 {
        UcoreCall::Dup { fd1: args[0], fd2: args[1] }
    } else if id == 1 {
        UcoreCall::Exit { code: args[0] as i32 }
    } else if id == 2 {
        UcoreCall::Fork
    } else if id == 3 {
        UcoreCall::Wait { pid: args[0], code: args[1] }
    } else if id == 4 {
        UcoreCall::Exec { name: args[0], argc: args[1], argv: args[2] }
    } else if id == 10 {
        UcoreCall::Yield
    } else if id == 11 {
        UcoreCall::Sleep { time: args[0] }
    } else if id == 12 {
        UcoreCall::Kill { pid: args[0] }
    } else if id == 17 {
        UcoreCall::GetTime
    } else if id == 18 {
        UcoreCall::GetPid
    } else if id == 255 {
        UcoreCall::SetPriority { priority: args[0] }
    } else {
        UcoreCall::Unknown
    }
}

/// The value that a call returns to the program: its result, or -1 for
/// any error.
pub fn return_value(ret: SysResult) -> (v: i32)
    ensures
        v == match ret {
            Ok(code) => code,
            Err(_) => -1i32,
        },
{
    match ret {
        Ok(code) => code,
        Err(_) => -1,
    }
}

/// What a call asks of the thread manager.
#[derive(Debug, Clone, Copy, PartialEq, Eq, Structural)]
pub enum ManagerOp {
    /// End thread `pid` with `code`.
    Exit { pid: usize, code: usize },
    /// Give the CPU to another thread.
    Yield,
    /// Sleep for this many milliseconds.
    Sleep { msec: u64 },
    /// Set the priority of thread `pid`.
    SetPriority { pid: usize, priority: u8 },
}

/// The files that a process has open: descriptor to file.
pub struct UcoreFiles {
    pub files: BTreeMap<usize, usize>,
}

impl UcoreFiles {
    pub open spec fn view(&self) -> Map<usize, usize> {
        self.files@
    }
}

/// `close`: `InvalidFile` where `fd` is not open.
pub fn sys_close(files: &mut UcoreFiles, fd: usize) -> (r: SysResult)
    ensures
        final(files).view() == old(files).view().remove(fd),
        r == if old(files).view().contains_key(fd) { Ok::<i32, SysError>(0) } else { Err(SysError::InvalidFile) },
{
    match files.files.remove(&fd) {
        Some(_) => Ok(0),
        None => Err(SysError::InvalidFile),
    }
}

/// `dup`: makes `fd2`, which must be free, refer to the file of `fd1`.
pub fn sys_dup(files: &mut UcoreFiles, fd1: usize, fd2: usize) -> (r: SysResult)
    ensures
        !old(files).view().contains_key(fd1) ==> r == Err::<i32, SysError>(SysError::InvalidFile)
            && final(files).view() == old(files).view(),
        old(files).view().contains_key(fd1) && old(files).view().contains_key(fd2) ==> r == Err::<i32, SysError>(
            SysError::InvalidFile,
        ) && final(files).view() == old(files).view(),
        old(files).view().contains_key(fd1) && !old(files).view().contains_key(fd2) ==> r == Ok::<i32, SysError>(0)
            && final(files).view() == old(files).view().insert(fd2, old(files).view()[fd1]),
{
    let file = match files.files.get(&fd1) {
        Some(f) => *f,
        None => return Err(SysError::InvalidFile),
    };
    if files.files.contains_key(&fd2) {
        return Err(SysError::InvalidFile);
    }
    files.files.insert(fd2, file);
    Ok(0)
}

/// `fork`: the child, that the manager added as `child_pid`, is returned.
pub fn sys_fork(child_pid: usize) -> (r: SysResult)
    ensures
        r == Ok::<i32, SysError>(child_pid as i32),
{
    Ok(child_pid as i32)
}

/// `yield`.
pub fn sys_yield() -> (r: (SysResult, ManagerOp))
    ensures
        r == (Ok::<i32, SysError>(0), ManagerOp::Yield),
{
    (Ok(0), ManagerOp::Yield)
}

/// `kill`: ends `pid` with code 0x100, and yields where it is the caller.
pub fn sys_kill(current: usize, pid: usize) -> (r: (SysResult, Vec<ManagerOp>))
    ensures
        r.0 == Ok::<i32, SysError>(0),
        r.1@ == if pid == current {
            seq![ManagerOp::Exit { pid, code: 0x100 }, ManagerOp::Yield]
        } else {
            seq![ManagerOp::Exit { pid, code: 0x100 }]
        },
{
    let mut ops: Vec<ManagerOp> = Vec::new();
    ops.push(ManagerOp::Exit { pid, code: 0x100 });
    if pid == current {
        ops.push(ManagerOp::Yield);
    }
    (Ok(0), ops)
}

/// `getpid`.
pub fn sys_getpid(current: usize) -> (r: SysResult)
    ensures
        r == Ok::<i32, SysError>(current as i32),
{
    Ok(current as i32)
}

/// `exit`: ends the caller with `exit_code` and yields for good.
pub fn sys_exit(current: usize, exit_code: i32) -> (ops: Vec<ManagerOp>)
    ensures
        ops@ == seq![ManagerOp::Exit { pid: current, code: exit_code as usize }, ManagerOp::Yield],
{
    let mut ops: Vec<ManagerOp> = Vec::new();
    ops.push(ManagerOp::Exit { pid: current, code: exit_code as usize });
    ops.push(ManagerOp::Yield);
    ops
}

/// `sleep`: `time` ticks of 10 milliseconds.
pub fn sys_sleep(time: usize) -> (r: (SysResult, ManagerOp))
    requires
        time * 10 <= u64::MAX,
    ensures
        r == (Ok::<i32, SysError>(0), ManagerOp::Sleep { msec: (time * 10) as u64 }),
{
    (Ok(0), ManagerOp::Sleep { msec: time as u64 * 10 })
}

/// `lab6_set_priority`: the priority is cut to a byte.
pub fn sys_lab6_set_priority(current: usize, priority: usize) -> (r: (SysResult, ManagerOp))
    ensures
        r == (Ok::<i32, SysError>(0), ManagerOp::SetPriority { pid: current, priority: priority as u8 }),
{
    (Ok(0), ManagerOp::SetPriority { pid: current, priority: priority as u8 })
}

/// The open flags of the file system: readable, writable, create,
/// exclusive, truncate, append.
#[derive(Debug, Clone, Copy, PartialEq, Eq, Structural)]
pub struct VfsFlags(pub usize);

impl VfsFlags {
    pub const READABLE: usize = 1;
    pub const WRITABLE: usize = 2;
    pub const CREATE: usize = 4;
    pub const EXCLUSIVE: usize = 8;
    pub const TRUNCATE: usize = 16;
    pub const APPEND: usize = 32;

    /// The flags of a uCore open mode: the access mode 0, 1 or 2 plus one
    /// gives the read and write bits; the bits beyond the six flags are
    /// dropped. An access mode of 3 is not allowed.
    pub fn from_ucore_flags(f: usize) -> (v: VfsFlags)
        requires
            f & 3 != 3,
        ensures
            v.0 == ((f + 1) as usize) & 0x3f,
    {
        assert(f & 3 == f % 4) by (bit_vector);
        assert(usize::MAX % 4 == 3);
        VfsFlags((f + 1) & 0x3f)
    }

    /// Whether every bit of `flag` is set.
    pub fn contains(&self, flag: usize) -> (b: bool)
        ensures
            b == (self.0 & flag == flag),
    {
        self.0 & flag == flag
    }
}

/// A directory entry as `getdirentry` exchanges it: the offset counts
/// entries 256 apart, and the name is NUL-terminated.
pub struct DirEntry {
    pub offset: u32,
    pub name: [u8; 256],
}

impl DirEntry {
    /// Whether the offset is on an entry boundary.
    pub fn check(&self) -> (b: bool)
        ensures
            b == (self.offset % 256 == 0),
    {
        self.offset % 256 == 0
    }

    /// The number of the entry that the offset points at.
    pub fn entry_id(&self) -> (id: usize)
        ensures
            id == self.offset / 256,
    {
        (self.offset / 256) as usize
    }

    /// Stores `name`, NUL-terminated, and moves to the next entry.
    pub fn set_name(&mut self, name: &[u8])
        requires
            name@.len() < 256,
            old(self).offset + 256 <= u32::MAX,
        ensures
            final(self).offset == old(self).offset + 256,
            final(self).name@ == name@ + seq![0u8] + old(self).name@.skip(name@.len() as int + 1),
    {
        let mut i: usize = 0;
        while i < name.len()
            invariant
                i <= name@.len(),
                name@.len() < 256,
                self.offset == old(self).offset,
                self.name@ == name@.take(i as int) + old(self).name@.skip(i as int),
            decreases name@.len() - i,
        {
            self.name[i] = name[i];
            proof {
                assert(self.name@ =~= name@.take(i + 1) + old(self).name@.skip(i + 1));
            }
            i = i + 1;
        }
        self.name[i] = 0;
        assert(self.name@ =~= name@ + seq![0u8] + old(self).name@.skip(name@.len() as int + 1));
        self.offset = self.offset + 256;
    }
}

/// The kinds of file that `fstat` tells apart.
#[derive(Debug, Clone, Copy, PartialEq, Eq, Structural)]
pub enum UcoreFileType {
    File,
    Dir,
    Other,
}

/// What the file system tells of a file.
#[derive(Debug, Clone, Copy, PartialEq, Eq, Structural)]
pub struct FileInfo {
    pub type_: UcoreFileType,
    pub nlinks: usize,
    pub blocks: usize,
    pub size: usize,
}

/// What `fstat` writes: mode, links, blocks and size.
#[derive(Debug, Clone, Copy, PartialEq, Eq, Structural)]
pub struct Stat {
    pub mode: u32,
    pub nlinks: u32,
    pub blocks: u32,
    pub size: u32,
}

pub const STAT_MODE_NULL: u32 = 0;
pub const STAT_MODE_FILE: u32 = 0o10000;
pub const STAT_MODE_DIR: u32 = 0o20000;

impl Stat {
    /// The status of a file: its type's mode bits, and its counts cut to 32
    /// bits.
    pub fn from_info(info: FileInfo) -> (s: Stat)
        ensures
            s.mode == match info.type_ {
                UcoreFileType::File => STAT_MODE_FILE,
                UcoreFileType::Dir => STAT_MODE_DIR,
                UcoreFileType::Other => STAT_MODE_NULL,
            },
            s.nlinks == info.nlinks as u32,
            s.blocks == info.blocks as u32,
            s.size == info.size as u32,
    {
        Stat {
            mode: match info.type_ {
                UcoreFileType::File => STAT_MODE_FILE,
                UcoreFileType::Dir => STAT_MODE_DIR,
                UcoreFileType::Other => STAT_MODE_NULL,
            },
            nlinks: info.nlinks as u32,
            blocks: info.blocks as u32,
            size: info.size as u32,
        }
    }
}

/// `getdirentry`'s checks: the offset must be on an entry boundary, the
/// file a directory, and the entry within it; else `InvalidArgument`.
pub fn check_dir_entry(dentry: &DirEntry, info: &FileInfo) -> (r: Result<usize, SysError>)
    ensures
        r == if dentry.offset % 256 != 0 || info.type_ != UcoreFileType::Dir || info.size <= dentry.offset / 256 {
            Err::<usize, SysError>(SysError::InvalidArgument)
        } else {
            Ok((dentry.offset / 256) as usize)
        },
{
    if !dentry.check() {
        return Err(SysError::InvalidArgument);
    }
    let id = dentry.entry_id();
    match info.type_ {
        UcoreFileType::Dir => {},
        _ => {
            return Err(SysError::InvalidArgument);
        },
    }
    if info.size <= id {
        return Err(SysError::InvalidArgument);
    }
    Ok(id)
}

/// Storing a name moves a directory entry on to the next entry: the offset
/// stays on an entry boundary and the entry number goes up by one.
pub proof fn lemma_set_name_next_entry(offset: u32)
    requires
        offset % 256 == 0,
        offset + 256 <= u32::MAX,
    ensures
        (offset + 256) % 256 == 0,
        (offset + 256) / 256 == offset / 256 + 1,
{
}

/// What the thread manager reports of a process that `wait` looks at.
#[derive(Debug, Clone, Copy, PartialEq, Eq, Structural)]
pub enum ProcStatus {
    /// It exited with this code.
    Exited(usize),
    /// It still runs, or waits.
    Alive,
    /// There is no such process.
    Gone,
}

/// A child that `wait` reaps, and its exit code.
#[derive(Debug, Clone, Copy, PartialEq, Eq, Structural)]
pub struct Reaped {
    pub pid: usize,
    pub code: usize,
}

/// What one look of `wait` decides.
#[derive(Debug, Clone, Copy, PartialEq, Eq, Structural)]
pub enum WaitStep {
    /// `wait` returns this; where a child exited it is reaped, and its
    /// exit code stored for the caller.
    Return { result: i32, reaped: Option<Reaped> },
    /// Nothing exited yet: the caller sleeps until a child exits.
    Sleep,
}

/// The processes that `wait(pid)` waits for: every child for 0, else `pid`.
pub open spec fn wait_set(pid: usize, children: Seq<usize>) -> Seq<usize> {
    if pid == 0 { children } else { seq![pid] }
}

/// The first of the processes that has exited or is gone, at `from` or
/// after.
pub open spec fn first_settled(statuses: Seq<ProcStatus>, from: nat) -> Option<nat>
    decreases statuses.len() - from,
{
    if from >= statuses.len() {
        None
    } else if statuses[from as int] != ProcStatus::Alive {
        Some(from)
    } else {
        first_settled(statuses, from + 1)
    }
}

/// The decision on processes `wait_set(pid, children)` with `statuses`.
pub open spec fn wait_decision(pid: usize, children: Seq<usize>, statuses: Seq<ProcStatus>) -> WaitStep {
    match first_settled(statuses, 0) {
        None => WaitStep::Sleep,
        Some(i) => match statuses[i as int] {
            ProcStatus::Exited(code) => WaitStep::Return {
                result: wait_set(pid, children)[i as int] as i32,
                reaped: Some(Reaped { pid: wait_set(pid, children)[i as int], code }),
            },
            _ => WaitStep::Return { result: -1i32, reaped: None },
        },
    }
}

/// `wait`'s decision on one look: with nothing to wait for it returns -1;
/// the first process in order that exited is reaped and its pid returned, unless
/// a process before it is gone, which returns -1; else the caller sleeps.
/// `statuses` are those of the processes waited for, in order.
pub fn ucore_wait_step(pid: usize, children: &Vec<usize>, statuses: &Vec<ProcStatus>) -> (w: WaitStep)
    requires
        statuses@.len() == wait_set(pid, children@).len(),
    ensures
        wait_set(pid, children@).len() == 0 ==> w == (WaitStep::Return { result: -1i32, reaped: None }),
        wait_set(pid, children@).len() > 0 ==> w == wait_decision(pid, children@, statuses@),
{
    let n = if pid == 0 { children.len() } else { 1 };
    if n == 0 {
        return WaitStep::Return { result: -1i32, reaped: None };
    }
    let mut i: usize = 0;
    while i < statuses.len()
        invariant
            i <= statuses@.len(),
            statuses@.len() == wait_set(pid, children@).len(),
            first_settled(statuses@, 0) == first_settled(statuses@, i as nat),
        decreases statuses@.len() - i,
    {
        match statuses[i] {
            ProcStatus::Exited(code) => {
                let who = if pid == 0 { children[i] } else { pid };
                return WaitStep::Return { result: who as i32, reaped: Some(Reaped { pid: who, code }) };
            },
            ProcStatus::Gone => {
                return WaitStep::Return { result: -1i32, reaped: None };
            },
            ProcStatus::Alive => {},
        }
        i = i + 1;
    }
    WaitStep::Sleep
}

/// Where `open` takes a file from: the console's input or output, or the
/// file system at the path.
#[derive(Debug, Clone, Copy, PartialEq, Eq, Structural)]
pub enum OpenSource {
    Stdin,
    Stdout,
    Lookup,
}

/// What `open` does: the descriptor, where the file comes from, and whether
/// it is opened for reading and for writing.
#[derive(Debug, Clone, Copy, PartialEq, Eq, Structural)]
pub struct OpenPlan {
    pub fd: usize,
    pub source: OpenSource,
    pub readable: bool,
    pub writable: bool,
}

/// `open(path, flags)`: `stdin:` is descriptor 0 and `stdout:` descriptor
/// 1; any other path is looked up and gets the lowest free descriptor from
/// 3 up. The access mode of `flags` gives the read and write rights.
pub fn ucore_open_plan(files: &UcoreFiles, path: &[u8], flags: usize) -> (p: OpenPlan)
    requires
        flags & 3 != 3,
        3 + files.view().dom().len() < usize::MAX,
    ensures
        p.readable == ((((flags + 1) as usize) & 0x3f) & VfsFlags::READABLE == VfsFlags::READABLE),
        p.writable == ((((flags + 1) as usize) & 0x3f) & VfsFlags::WRITABLE == VfsFlags::WRITABLE),
        path@ == seq![0x73u8, 0x74, 0x64, 0x69, 0x6e, 0x3a] ==> p.fd == 0 && p.source == OpenSource::Stdin,
        path@ == seq![0x73u8, 0x74, 0x64, 0x6f, 0x75, 0x74, 0x3a] ==> p.fd == 1 && p.source == OpenSource::Stdout,
        path@ != seq![0x73u8, 0x74, 0x64, 0x69, 0x6e, 0x3a] && path@ != seq![0x73u8, 0x74, 0x64, 0x6f, 0x75, 0x74, 0x3a]
            ==> p.source == OpenSource::Lookup && is_lowest_free(files.view(), 3, p.fd),
{
    let f = VfsFlags::from_ucore_flags(flags);
    let readable = f.contains(VfsFlags::READABLE);
    let writable = f.contains(VfsFlags::WRITABLE);
    let stdin: [u8; 6] = [0x73, 0x74, 0x64, 0x69, 0x6e, 0x3a];
    let stdout: [u8; 7] = [0x73, 0x74, 0x64, 0x6f, 0x75, 0x74, 0x3a];
    assert(stdin@ =~= seq![0x73u8, 0x74, 0x64, 0x69, 0x6e, 0x3a]);
    assert(stdout@ =~= seq![0x73u8, 0x74, 0x64, 0x6f, 0x75, 0x74, 0x3a]);
    if bytes_eq(path, stdin.as_slice()) {
        OpenPlan { fd: 0, source: OpenSource::Stdin, readable, writable }
    } else if bytes_eq(path, stdout.as_slice()) {
        OpenPlan { fd: 1, source: OpenSource::Stdout, readable, writable }
    } else {
        let fd = lowest_free_key(&files.files, 3);
        OpenPlan { fd, source: OpenSource::Lookup, readable, writable }
    }
}

fn bytes_eq(a: &[u8], b: &[u8]) -> (r: bool)
    ensures
        r == (a@ == b@),
{
    if a.len() != b.len() {
        return false;
    }
    let mut i: usize = 0;
    while i < a.len()
        invariant
            i <= a@.len(),
            a@.len() == b@.len(),
            forall|j: int| 0 <= j < i ==> a@[j] == b@[j],
        decreases a@.len() - i,
    {
        if a[i] != b[i] {
            return false;
        }
        i = i + 1;
    }
    assert(a@ =~= b@);
    true
}

} // verus!
