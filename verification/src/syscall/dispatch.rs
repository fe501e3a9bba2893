use vstd::prelude::*;

use super::error::SysError;
use super::error::SysResult;

verus! {

/// A path is interpreted relative to the current working directory when the
/// directory descriptor is this value (`-100` as an unsigned word).
pub const AT_FDCWD: usize = usize::MAX - 99;

/// Do not follow a symbolic link at the end of the path.
pub const AT_SYMLINK_NOFOLLOW: usize = 0x100;

pub const SYS_READ: usize = 0;
pub const SYS_WRITE: usize = 1;
pub const SYS_OPEN: usize = 2;
pub const SYS_CLOSE: usize = 3;
pub const SYS_STAT: usize = 4;
pub const SYS_FSTAT: usize = 5;
pub const SYS_LSTAT: usize = 6;
pub const SYS_POLL: usize = 7;
pub const SYS_LSEEK: usize = 8;
pub const SYS_MMAP: usize = 9;
pub const SYS_MPROTECT: usize = 10;
pub const SYS_MADVISE: usize = 28;
pub const SYS_MUNMAP: usize = 11;
pub const SYS_BRK: usize = 12;
pub const SYS_RT_SIGACTION: usize = 13;
pub const SYS_RT_SIGPROCMASK: usize = 14;
pub const SYS_IOCTL: usize = 16;
pub const SYS_PREAD64: usize = 17;
pub const SYS_PWRITE64: usize = 18;
pub const SYS_READV: usize = 19;
pub const SYS_WRITEV: usize = 20;
pub const SYS_ACCESS: usize = 21;
pub const SYS_PIPE: usize = 22;
pub const SYS_SELECT: usize = 23;
pub const SYS_SCHED_YIELD: usize = 24;
pub const SYS_DUP2: usize = 33;
pub const SYS_NANOSLEEP: usize = 35;
pub const SYS_ALARM: usize = 37;
pub const SYS_SETITIMER: usize = 38;
pub const SYS_GETPID: usize = 39;
pub const SYS_SENDFILE: usize = 40;
pub const SYS_SOCKET: usize = 41;
pub const SYS_CONNECT: usize = 42;
pub const SYS_ACCEPT: usize = 43;
pub const SYS_SENDTO: usize = 44;
pub const SYS_RECVFROM: usize = 45;
pub const SYS_RECVMSG: usize = 47;
pub const SYS_SHUTDOWN: usize = 48;
pub const SYS_BIND: usize = 49;
pub const SYS_LISTEN: usize = 50;
pub const SYS_GETSOCKNAME: usize = 51;
pub const SYS_GETPEERNAME: usize = 52;
pub const SYS_SETSOCKOPT: usize = 54;
pub const SYS_GETSOCKOPT: usize = 55;
pub const SYS_CLONE: usize = 56;
pub const SYS_FORK: usize = 57;
pub const SYS_VFORK: usize = 58;
pub const SYS_EXECVE: usize = 59;
pub const SYS_EXIT: usize = 60;
pub const SYS_WAIT4: usize = 61;
pub const SYS_KILL: usize = 62;
pub const SYS_UNAME: usize = 63;
pub const SYS_FCNTL: usize = 72;
pub const SYS_FLOCK: usize = 73;
pub const SYS_FSYNC: usize = 74;
pub const SYS_FDATASYNC: usize = 75;
pub const SYS_TRUNCATE: usize = 76;
pub const SYS_FTRUNCATE: usize = 77;
pub const SYS_GETCWD: usize = 79;
pub const SYS_CHDIR: usize = 80;
pub const SYS_RENAME: usize = 82;
pub const SYS_MKDIR: usize = 83;
pub const SYS_RMDIR: usize = 84;
pub const SYS_LINK: usize = 86;
pub const SYS_UNLINK: usize = 87;
pub const SYS_READLINK: usize = 89;
pub const SYS_CHMOD: usize = 90;
pub const SYS_FCHMOD: usize = 91;
pub const SYS_CHOWN: usize = 92;
pub const SYS_FCHOWN: usize = 93;
pub const SYS_UMASK: usize = 95;
pub const SYS_GETTIMEOFDAY: usize = 96;
pub const SYS_GETRUSAGE: usize = 98;
pub const SYS_SYSINFO: usize = 99;
pub const SYS_TIMES: usize = 100;
pub const SYS_GETUID: usize = 102;
pub const SYS_GETGID: usize = 104;
pub const SYS_SETUID: usize = 105;
pub const SYS_GETEUID: usize = 107;
pub const SYS_GETEGID: usize = 108;
pub const SYS_SETPGID: usize = 109;
pub const SYS_GETPPID: usize = 110;
pub const SYS_SETSID: usize = 112;
pub const SYS_GETGROUPS: usize = 115;
pub const SYS_SETGROUPS: usize = 116;
pub const SYS_GETPGID: usize = 121;
pub const SYS_RT_SIGQUEUEINFO: usize = 129;
pub const SYS_SIGALTSTACK: usize = 131;
pub const SYS_STATFS: usize = 137;
pub const SYS_FSTATFS: usize = 138;
pub const SYS_SETPRIORITY: usize = 141;
pub const SYS_PRCTL: usize = 157;
pub const SYS_ARCH_PRCTL: usize = 158;
pub const SYS_SYNC: usize = 162;
pub const SYS_MOUNT: usize = 165;
pub const SYS_UMOUNT2: usize = 166;
pub const SYS_REBOOT: usize = 169;
pub const SYS_INIT_MODULE: usize = 175;
pub const SYS_DELETE_MODULE: usize = 176;
pub const SYS_GETTID: usize = 186;
pub const SYS_TKILL: usize = 200;
pub const SYS_TIME: usize = 201;
pub const SYS_FUTEX: usize = 202;
pub const SYS_SCHED_GETAFFINITY: usize = 204;
pub const SYS_EPOLL_CREATE: usize = 213;
pub const SYS_GETDENTS64: usize = 217;
pub const SYS_SET_TID_ADDRESS: usize = 218;
pub const SYS_CLOCK_GETTIME: usize = 228;
pub const SYS_EXIT_GROUP: usize = 231;
pub const SYS_OPENAT: usize = 257;
pub const SYS_MKDIRAT: usize = 258;
pub const SYS_FCHOWNAT: usize = 260;
pub const SYS_NEWFSTATAT: usize = 262;
pub const SYS_UNLINKAT: usize = 263;
pub const SYS_RENAMEAT: usize = 264;
pub const SYS_LINKAT: usize = 265;
pub const SYS_SYMLINKAT: usize = 266;
pub const SYS_READLINKAT: usize = 267;
pub const SYS_FCHMODAT: usize = 268;
pub const SYS_FACCESSAT: usize = 269;
pub const SYS_PPOLL: usize = 271;
pub const SYS_UTIMENSAT: usize = 280;
pub const SYS_ACCEPT4: usize = 288;
pub const SYS_EPOLL_CREATE1: usize = 291;
pub const SYS_DUP3: usize = 292;
pub const SYS_PIPE2: usize = 293;
pub const SYS_PRLIMIT64: usize = 302;
pub const SYS_FINIT_MODULE: usize = 313;
pub const SYS_GETRANDOM: usize = 318;
pub const SYS_MEMBARRIER: usize = 324;
pub const SYS_COPY_FILE_RANGE: usize = 326;
pub const SYS_GET_PADDR: usize = 998;
pub const SYS_MAP_PCI_DEVICE: usize = 999;

/// A system call that a handler serves, with its arguments decoded from the
/// six argument registers.
#[allow(inconsistent_fields)]
#[derive(Debug, Clone, Copy, PartialEq, Eq, Structural)]
pub enum SyscallRequest {
    Read { fd: usize, base: usize, len: usize },
    Write { fd: usize, base: usize, len: usize },
    Openat { dir_fd: usize, path: usize, flags: usize, mode: usize },
    Close { fd: usize },
    Fstatat { dir_fd: usize, path: usize, stat: usize, flags: usize },
    Fstat { fd: usize, stat: usize },
    Poll { ufds: usize, nfds: usize, timeout_msecs: usize },
    Lseek { fd: usize, offset: i64, whence: u8 },
    Mmap { addr: usize, len: usize, prot: usize, flags: usize, fd: usize, offset: usize },
    Mprotect { addr: usize, len: usize, prot: usize },
    Munmap { addr: usize, len: usize },
    Ioctl { fd: usize, request: usize, arg1: usize, arg2: usize, arg3: usize },
    Pread { fd: usize, base: usize, len: usize, offset: usize },
    Pwrite { fd: usize, base: usize, len: usize, offset: usize },
    Readv { fd: usize, iov: usize, iov_count: usize },
    Writev { fd: usize, iov: usize, iov_count: usize },
    Faccessat { dir_fd: usize, path: usize, mode: usize, flags: usize },
    Pipe { fds: usize },
    Select { nfds: usize, read: usize, write: usize, err: usize, timeout: usize },
    Yield,
    Dup2 { fd1: usize, fd2: usize },
    Nanosleep { req: usize },
    Getpid,
    CopyFileRange { in_fd: usize, in_offset: usize, out_fd: usize, out_offset: usize, count: usize, flags: usize },
    Socket { domain: usize, socket_type: usize, protocol: usize },
    Connect { fd: usize, addr: usize, addr_len: usize },
    Accept { fd: usize, addr: usize, addr_len: usize },
    Sendto { fd: usize, base: usize, len: usize, flags: usize, addr: usize, addr_len: usize },
    Recvfrom { fd: usize, base: usize, len: usize, flags: usize, addr: usize, addr_len: usize },
    Recvmsg { fd: usize, msg: usize, flags: usize },
    Shutdown { fd: usize, how: usize },
    Bind { fd: usize, addr: usize, addr_len: usize },
    Listen { fd: usize, backlog: usize },
    Getsockname { fd: usize, addr: usize, addr_len: usize },
    Getpeername { fd: usize, addr: usize, addr_len: usize },
    Setsockopt { fd: usize, level: usize, optname: usize, optval: usize, optlen: usize },
    Getsockopt { fd: usize, level: usize, optname: usize, optval: usize, optlen: usize },
    Clone { flags: usize, newsp: usize, parent_tid: usize, child_tid: usize, newtls: usize },
    Fork,
    Exec { path: usize, argv: usize, envp: usize },
    Exit { exit_code: usize },
    Wait4 { pid: isize, wstatus: usize },
    Kill { pid: isize, signum: usize },
    Uname { buf: usize },
    Fcntl { fd: usize, cmd: usize, arg: usize },
    Fsync { fd: usize },
    Fdatasync { fd: usize },
    Truncate { path: usize, len: usize },
    Ftruncate { fd: usize, len: usize },
    Getcwd { buf: usize, len: usize },
    Chdir { path: usize },
    Renameat { old_dir_fd: usize, old_path: usize, new_dir_fd: usize, new_path: usize },
    Mkdirat { dir_fd: usize, path: usize, mode: usize },
    Rmdir { path: usize },
    Linkat { old_dir_fd: usize, old_path: usize, new_dir_fd: usize, new_path: usize, flags: usize },
    Unlinkat { dir_fd: usize, path: usize, flags: usize },
    Readlinkat { dir_fd: usize, path: usize, base: usize, len: usize },
    Gettimeofday { tv: usize, tz: usize },
    Getrusage { who: usize, rusage: usize },
    Sysinfo { info: usize },
    Times { buf: usize },
    Getppid,
    SetPriority { priority: usize },
    ArchPrctl { code: i32, addr: usize },
    Sync,
    Reboot { magic: u32, magic2: u32, cmd: u32, arg: usize },
    InitModule { image: usize, len: usize, param_values: usize },
    DeleteModule { name: usize, flags: u32 },
    Gettid,
    Time { time: usize },
    Futex { uaddr: usize, op: u32, val: i32, timeout: usize },
    SchedGetaffinity { pid: usize, size: usize, mask: usize },
    Getdents64 { fd: usize, buf: usize, buf_size: usize },
    SetTidAddress { tidptr: usize },
    ClockGettime { clock: usize, ts: usize },
    ExitGroup { exit_code: usize },
    Ppoll { ufds: usize, nfds: usize, timeout: usize },
    Prlimit64 { pid: usize, resource: usize, new_limit: usize, old_limit: usize },
    Getrandom { buf: usize, len: usize, flags: u32 },
    GetPaddr { vaddrs: usize, paddrs: usize, count: usize },
    MapPciDevice { vendor: usize, product: usize },
}

/// What the dispatcher does with a system call number.
#[derive(Debug, Clone, Copy)]
pub enum Dispatch {
    /// Run the handler for this request.
    Handle(SyscallRequest),
    /// The call is accepted but not implemented: it answers this result at once.
    Fixed(SysResult),
    /// The number names no system call: the calling thread is faulted.
    Unknown,
}

/// The dispatch table of the kernel, indexed by the x86_64 system call number.
pub open spec fn dispatch_table(id: usize, args: Seq<usize>) -> Dispatch
    recommends
        args.len() == 6,
{
    match id {
        0 => Dispatch::Handle(SyscallRequest::Read { fd: args[0], base: args[1], len: args[2] }),
        1 => Dispatch::Handle(SyscallRequest::Write { fd: args[0], base: args[1], len: args[2] }),
        2 => Dispatch::Handle(SyscallRequest::Openat { dir_fd: AT_FDCWD, path: args[0], flags: args[1], mode: args[2] }),
        3 => Dispatch::Handle(SyscallRequest::Close { fd: args[0] }),
        4 => Dispatch::Handle(SyscallRequest::Fstatat { dir_fd: AT_FDCWD, path: args[0], stat: args[1], flags: 0 }),
        5 => Dispatch::Handle(SyscallRequest::Fstat { fd: args[0], stat: args[1] }),
        6 => Dispatch::Handle(SyscallRequest::Fstatat { dir_fd: AT_FDCWD, path: args[0], stat: args[1], flags: AT_SYMLINK_NOFOLLOW }),
        7 => Dispatch::Handle(SyscallRequest::Poll { ufds: args[0], nfds: args[1], timeout_msecs: args[2] }),
        8 => Dispatch::Handle(SyscallRequest::Lseek { fd: args[0], offset: args[1] as i64, whence: args[2] as u8 }),
        9 => Dispatch::Handle(SyscallRequest::Mmap { addr: args[0], len: args[1], prot: args[2], flags: args[3], fd: args[4], offset: args[5] }),
        10 => Dispatch::Handle(SyscallRequest::Mprotect { addr: args[0], len: args[1], prot: args[2] }),
        11 => Dispatch::Handle(SyscallRequest::Munmap { addr: args[0], len: args[1] }),
        12 => Dispatch::Fixed(Err(SysError::ENOMEM)),
        13 => Dispatch::Fixed(Ok(0)),
        14 => Dispatch::Fixed(Ok(0)),
        16 => Dispatch::Handle(SyscallRequest::Ioctl { fd: args[0], request: args[1], arg1: args[2], arg2: args[3], arg3: args[4] }),
        17 => Dispatch::Handle(SyscallRequest::Pread { fd: args[0], base: args[1], len: args[2], offset: args[3] }),
        18 => Dispatch::Handle(SyscallRequest::Pwrite { fd: args[0], base: args[1], len: args[2], offset: args[3] }),
        19 => Dispatch::Handle(SyscallRequest::Readv { fd: args[0], iov: args[1], iov_count: args[2] }),
        20 => Dispatch::Handle(SyscallRequest::Writev { fd: args[0], iov: args[1], iov_count: args[2] }),
        21 => Dispatch::Handle(SyscallRequest::Faccessat { dir_fd: AT_FDCWD, path: args[0], mode: args[1], flags: 0 }),
        22 => Dispatch::Handle(SyscallRequest::Pipe { fds: args[0] }),
        23 => Dispatch::Handle(SyscallRequest::Select { nfds: args[0], read: args[1], write: args[2], err: args[3], timeout: args[4] }),
        24 => Dispatch::Handle(SyscallRequest::Yield),
        28 => Dispatch::Fixed(Ok(0)),
        33 => Dispatch::Handle(SyscallRequest::Dup2 { fd1: args[0], fd2: args[1] }),
        35 => Dispatch::Handle(SyscallRequest::Nanosleep { req: args[0] }),
        37 => Dispatch::Fixed(Ok(0)),
        38 => Dispatch::Fixed(Ok(0)),
        39 => Dispatch::Handle(SyscallRequest::Getpid),
        40 => Dispatch::Handle(SyscallRequest::CopyFileRange { in_fd: args[1], in_offset: args[2], out_fd: args[0], out_offset: 0, count: args[3], flags: 0 }),
        41 => Dispatch::Handle(SyscallRequest::Socket { domain: args[0], socket_type: args[1], protocol: args[2] }),
        42 => Dispatch::Handle(SyscallRequest::Connect { fd: args[0], addr: args[1], addr_len: args[2] }),
        43 => Dispatch::Handle(SyscallRequest::Accept { fd: args[0], addr: args[1], addr_len: args[2] }),
        44 => Dispatch::Handle(SyscallRequest::Sendto { fd: args[0], base: args[1], len: args[2], flags: args[3], addr: args[4], addr_len: args[5] }),
        45 => Dispatch::Handle(SyscallRequest::Recvfrom { fd: args[0], base: args[1], len: args[2], flags: args[3], addr: args[4], addr_len: args[5] }),
        47 => Dispatch::Handle(SyscallRequest::Recvmsg { fd: args[0], msg: args[1], flags: args[2] }),
        48 => Dispatch::Handle(SyscallRequest::Shutdown { fd: args[0], how: args[1] }),
        49 => Dispatch::Handle(SyscallRequest::Bind { fd: args[0], addr: args[1], addr_len: args[2] }),
        50 => Dispatch::Handle(SyscallRequest::Listen { fd: args[0], backlog: args[1] }),
        51 => Dispatch::Handle(SyscallRequest::Getsockname { fd: args[0], addr: args[1], addr_len: args[2] }),
        52 => Dispatch::Handle(SyscallRequest::Getpeername { fd: args[0], addr: args[1], addr_len: args[2] }),
        54 => Dispatch::Handle(SyscallRequest::Setsockopt { fd: args[0], level: args[1], optname: args[2], optval: args[3], optlen: args[4] }),
        55 => Dispatch::Handle(SyscallRequest::Getsockopt { fd: args[0], level: args[1], optname: args[2], optval: args[3], optlen: args[4] }),
        56 => Dispatch::Handle(SyscallRequest::Clone { flags: args[0], newsp: args[1], parent_tid: args[2], child_tid: args[3], newtls: args[4] }),
        57 => Dispatch::Handle(SyscallRequest::Fork),
        58 => Dispatch::Handle(SyscallRequest::Fork),
        59 => Dispatch::Handle(SyscallRequest::Exec { path: args[0], argv: args[1], envp: args[2] }),
        60 => Dispatch::Handle(SyscallRequest::Exit { exit_code: args[0] }),
        61 => Dispatch::Handle(SyscallRequest::Wait4 { pid: args[0] as isize, wstatus: args[1] }),
        62 => Dispatch::Handle(SyscallRequest::Kill { pid: args[0] as isize, signum: args[1] }),
        63 => Dispatch::Handle(SyscallRequest::Uname { buf: args[0] }),
        72 => Dispatch::Handle(SyscallRequest::Fcntl { fd: args[0], cmd: args[1], arg: args[2] }),
        73 => Dispatch::Fixed(Ok(0)),
        74 => Dispatch::Handle(SyscallRequest::Fsync { fd: args[0] }),
        75 => Dispatch::Handle(SyscallRequest::Fdatasync { fd: args[0] }),
        76 => Dispatch::Handle(SyscallRequest::Truncate { path: args[0], len: args[1] }),
        77 => Dispatch::Handle(SyscallRequest::Ftruncate { fd: args[0], len: args[1] }),
        79 => Dispatch::Handle(SyscallRequest::Getcwd { buf: args[0], len: args[1] }),
        80 => Dispatch::Handle(SyscallRequest::Chdir { path: args[0] }),
        82 => Dispatch::Handle(SyscallRequest::Renameat { old_dir_fd: AT_FDCWD, old_path: args[0], new_dir_fd: AT_FDCWD, new_path: args[1] }),
        83 => Dispatch::Handle(SyscallRequest::Mkdirat { dir_fd: AT_FDCWD, path: args[0], mode: args[1] }),
        84 => Dispatch::Handle(SyscallRequest::Rmdir { path: args[0] }),
        86 => Dispatch::Handle(SyscallRequest::Linkat { old_dir_fd: AT_FDCWD, old_path: args[0], new_dir_fd: AT_FDCWD, new_path: args[1], flags: 0 }),
        87 => Dispatch::Handle(SyscallRequest::Unlinkat { dir_fd: AT_FDCWD, path: args[0], flags: 0 }),
        89 => Dispatch::Handle(SyscallRequest::Readlinkat { dir_fd: AT_FDCWD, path: args[0], base: args[1], len: args[2] }),
        90 => Dispatch::Fixed(Ok(0)),
        91 => Dispatch::Fixed(Ok(0)),
        92 => Dispatch::Fixed(Ok(0)),
        93 => Dispatch::Fixed(Ok(0)),
        95 => Dispatch::Fixed(Ok(0o777)),
        96 => Dispatch::Handle(SyscallRequest::Gettimeofday { tv: args[0], tz: args[1] }),
        98 => Dispatch::Handle(SyscallRequest::Getrusage { who: args[0], rusage: args[1] }),
        99 => Dispatch::Handle(SyscallRequest::Sysinfo { info: args[0] }),
        100 => Dispatch::Handle(SyscallRequest::Times { buf: args[0] }),
        102 => Dispatch::Fixed(Ok(0)),
        104 => Dispatch::Fixed(Ok(0)),
        105 => Dispatch::Fixed(Ok(0)),
        107 => Dispatch::Fixed(Ok(0)),
        108 => Dispatch::Fixed(Ok(0)),
        109 => Dispatch::Fixed(Ok(0)),
        110 => Dispatch::Handle(SyscallRequest::Getppid),
        112 => Dispatch::Fixed(Ok(0)),
        115 => Dispatch::Fixed(Ok(0)),
        116 => Dispatch::Fixed(Ok(0)),
        121 => Dispatch::Fixed(Ok(0)),
        129 => Dispatch::Fixed(Ok(0)),
        131 => Dispatch::Fixed(Ok(0)),
        137 => Dispatch::Fixed(Err(SysError::EACCES)),
        138 => Dispatch::Fixed(Err(SysError::EACCES)),
        141 => Dispatch::Handle(SyscallRequest::SetPriority { priority: args[0] }),
        157 => Dispatch::Fixed(Ok(0)),
        158 => Dispatch::Handle(SyscallRequest::ArchPrctl { code: args[0] as i32, addr: args[1] }),
        162 => Dispatch::Handle(SyscallRequest::Sync),
        165 => Dispatch::Fixed(Err(SysError::EACCES)),
        166 => Dispatch::Fixed(Err(SysError::EACCES)),
        169 => Dispatch::Handle(SyscallRequest::Reboot { magic: args[0] as u32, magic2: args[1] as u32, cmd: args[2] as u32, arg: args[3] }),
        175 => Dispatch::Handle(SyscallRequest::InitModule { image: args[0], len: args[1], param_values: args[2] }),
        176 => Dispatch::Handle(SyscallRequest::DeleteModule { name: args[0], flags: args[1] as u32 }),
        186 => Dispatch::Handle(SyscallRequest::Gettid),
        200 => Dispatch::Fixed(Ok(0)),
        201 => Dispatch::Handle(SyscallRequest::Time { time: args[0] }),
        202 => Dispatch::Handle(SyscallRequest::Futex { uaddr: args[0], op: args[1] as u32, val: args[2] as i32, timeout: args[3] }),
        204 => Dispatch::Handle(SyscallRequest::SchedGetaffinity { pid: args[0], size: args[1], mask: args[2] }),
        213 => Dispatch::Fixed(Err(SysError::ENOSYS)),
        217 => Dispatch::Handle(SyscallRequest::Getdents64 { fd: args[0], buf: args[1], buf_size: args[2] }),
        218 => Dispatch::Handle(SyscallRequest::SetTidAddress { tidptr: args[0] }),
        228 => Dispatch::Handle(SyscallRequest::ClockGettime { clock: args[0], ts: args[1] }),
        231 => Dispatch::Handle(SyscallRequest::ExitGroup { exit_code: args[0] }),
        257 => Dispatch::Handle(SyscallRequest::Openat { dir_fd: args[0], path: args[1], flags: args[2], mode: args[3] }),
        258 => Dispatch::Handle(SyscallRequest::Mkdirat { dir_fd: args[0], path: args[1], mode: args[2] }),
        260 => Dispatch::Fixed(Ok(0)),
        262 => Dispatch::Handle(SyscallRequest::Fstatat { dir_fd: args[0], path: args[1], stat: args[2], flags: args[3] }),
        263 => Dispatch::Handle(SyscallRequest::Unlinkat { dir_fd: args[0], path: args[1], flags: args[2] }),
        264 => Dispatch::Handle(SyscallRequest::Renameat { old_dir_fd: args[0], old_path: args[1], new_dir_fd: args[2], new_path: args[3] }),
        265 => Dispatch::Handle(SyscallRequest::Linkat { old_dir_fd: args[0], old_path: args[1], new_dir_fd: args[2], new_path: args[3], flags: args[4] }),
        266 => Dispatch::Fixed(Err(SysError::EACCES)),
        267 => Dispatch::Handle(SyscallRequest::Readlinkat { dir_fd: args[0], path: args[1], base: args[2], len: args[3] }),
        268 => Dispatch::Fixed(Ok(0)),
        269 => Dispatch::Handle(SyscallRequest::Faccessat { dir_fd: args[0], path: args[1], mode: args[2], flags: args[3] }),
        271 => Dispatch::Handle(SyscallRequest::Ppoll { ufds: args[0], nfds: args[1], timeout: args[2] }),
        280 => Dispatch::Fixed(Ok(0)),
        288 => Dispatch::Handle(SyscallRequest::Accept { fd: args[0], addr: args[1], addr_len: args[2] }),
        291 => Dispatch::Fixed(Err(SysError::ENOSYS)),
        292 => Dispatch::Handle(SyscallRequest::Dup2 { fd1: args[0], fd2: args[1] }),
        293 => Dispatch::Handle(SyscallRequest::Pipe { fds: args[0] }),
        302 => Dispatch::Handle(SyscallRequest::Prlimit64 { pid: args[0], resource: args[1], new_limit: args[2], old_limit: args[3] }),
        313 => Dispatch::Fixed(Err(SysError::ENOSYS)),
        318 => Dispatch::Handle(SyscallRequest::Getrandom { buf: args[0], len: args[1], flags: args[2] as u32 }),
        324 => Dispatch::Fixed(Ok(0)),
        326 => Dispatch::Handle(SyscallRequest::CopyFileRange { in_fd: args[0], in_offset: args[1], out_fd: args[2], out_offset: args[3], count: args[4], flags: args[5] }),
        998 => Dispatch::Handle(SyscallRequest::GetPaddr { vaddrs: args[0], paddrs: args[1], count: args[2] }),
        999 => Dispatch::Handle(SyscallRequest::MapPciDevice { vendor: args[0], product: args[1] }),
        _ => Dispatch::Unknown,
    }
}

/// The x86_64 calling convention of the data calls: the descriptor is the
/// first argument register, the user buffer the second, its length the
/// third and, for the positioned forms, the file offset the fourth; read
/// and write decode their registers alike, and so do their positioned and
/// vectored forms; `mmap` takes its six arguments in order.
pub proof fn lemma_dispatch_argument_order(args: Seq<usize>)
    requires
        args.len() == 6,
    ensures
        dispatch_table(SYS_READ, args) matches Dispatch::Handle(SyscallRequest::Read { fd, base, len })
            && fd == args[0] && base == args[1] && len == args[2],
        dispatch_table(SYS_WRITE, args) matches Dispatch::Handle(SyscallRequest::Write { fd, base, len })
            && fd == args[0] && base == args[1] && len == args[2],
        dispatch_table(SYS_PREAD64, args) matches Dispatch::Handle(SyscallRequest::Pread { fd, base, len, offset })
            && fd == args[0] && base == args[1] && len == args[2] && offset == args[3],
        dispatch_table(SYS_PWRITE64, args) matches Dispatch::Handle(SyscallRequest::Pwrite { fd, base, len, offset })
            && fd == args[0] && base == args[1] && len == args[2] && offset == args[3],
        dispatch_table(SYS_READV, args) matches Dispatch::Handle(SyscallRequest::Readv { fd, iov, iov_count })
            && fd == args[0] && iov == args[1] && iov_count == args[2],
        dispatch_table(SYS_WRITEV, args) matches Dispatch::Handle(SyscallRequest::Writev { fd, iov, iov_count })
            && fd == args[0] && iov == args[1] && iov_count == args[2],
        dispatch_table(SYS_CLOSE, args) matches Dispatch::Handle(SyscallRequest::Close { fd }) && fd == args[0],
        dispatch_table(SYS_MMAP, args) matches Dispatch::Handle(SyscallRequest::Mmap { addr, len, prot, flags, fd, offset })
            && addr == args[0] && len == args[1] && prot == args[2] && flags == args[3] && fd == args[4] && offset == args[5],
        dispatch_table(SYS_MUNMAP, args) matches Dispatch::Handle(SyscallRequest::Munmap { addr, len })
            && addr == args[0] && len == args[1],
{
}

/// Decodes system call `id` with the raw argument registers `args`.
pub fn dispatch(id: usize, args: &[usize; 6]) -> (d: Dispatch)
    ensures
        d == dispatch_table(id, args@),
{
    match id {
        SYS_READ => Dispatch::Handle(SyscallRequest::Read { fd: args[0], base: args[1], len: args[2] }),
        SYS_WRITE => Dispatch::Handle(SyscallRequest::Write { fd: args[0], base: args[1], len: args[2] }),
        SYS_OPEN => Dispatch::Handle(SyscallRequest::Openat { dir_fd: AT_FDCWD, path: args[0], flags: args[1], mode: args[2] }),
        SYS_CLOSE => Dispatch::Handle(SyscallRequest::Close { fd: args[0] }),
        SYS_STAT => Dispatch::Handle(SyscallRequest::Fstatat { dir_fd: AT_FDCWD, path: args[0], stat: args[1], flags: 0 }),
        SYS_FSTAT => Dispatch::Handle(SyscallRequest::Fstat { fd: args[0], stat: args[1] }),
        SYS_LSTAT => Dispatch::Handle(SyscallRequest::Fstatat { dir_fd: AT_FDCWD, path: args[0], stat: args[1], flags: AT_SYMLINK_NOFOLLOW }),
        SYS_POLL => Dispatch::Handle(SyscallRequest::Poll { ufds: args[0], nfds: args[1], timeout_msecs: args[2] }),
        SYS_LSEEK => Dispatch::Handle(SyscallRequest::Lseek { fd: args[0], offset: args[1] as i64, whence: args[2] as u8 }),
        SYS_MMAP => Dispatch::Handle(SyscallRequest::Mmap { addr: args[0], len: args[1], prot: args[2], flags: args[3], fd: args[4], offset: args[5] }),
        SYS_MPROTECT => Dispatch::Handle(SyscallRequest::Mprotect { addr: args[0], len: args[1], prot: args[2] }),
        SYS_MUNMAP => Dispatch::Handle(SyscallRequest::Munmap { addr: args[0], len: args[1] }),
        SYS_BRK => Dispatch::Fixed(Err(SysError::ENOMEM)),
        SYS_RT_SIGACTION => Dispatch::Fixed(Ok(0)),
        SYS_RT_SIGPROCMASK => Dispatch::Fixed(Ok(0)),
        SYS_IOCTL => Dispatch::Handle(SyscallRequest::Ioctl { fd: args[0], request: args[1], arg1: args[2], arg2: args[3], arg3: args[4] }),
        SYS_PREAD64 => Dispatch::Handle(SyscallRequest::Pread { fd: args[0], base: args[1], len: args[2], offset: args[3] }),
        SYS_PWRITE64 => Dispatch::Handle(SyscallRequest::Pwrite { fd: args[0], base: args[1], len: args[2], offset: args[3] }),
        SYS_READV => Dispatch::Handle(SyscallRequest::Readv { fd: args[0], iov: args[1], iov_count: args[2] }),
        SYS_WRITEV => Dispatch::Handle(SyscallRequest::Writev { fd: args[0], iov: args[1], iov_count: args[2] }),
        SYS_ACCESS => Dispatch::Handle(SyscallRequest::Faccessat { dir_fd: AT_FDCWD, path: args[0], mode: args[1], flags: 0 }),
        SYS_PIPE => Dispatch::Handle(SyscallRequest::Pipe { fds: args[0] }),
        SYS_SELECT => Dispatch::Handle(SyscallRequest::Select { nfds: args[0], read: args[1], write: args[2], err: args[3], timeout: args[4] }),
        SYS_SCHED_YIELD => Dispatch::Handle(SyscallRequest::Yield),
        SYS_MADVISE => Dispatch::Fixed(Ok(0)),
        SYS_DUP2 => Dispatch::Handle(SyscallRequest::Dup2 { fd1: args[0], fd2: args[1] }),
        SYS_NANOSLEEP => Dispatch::Handle(SyscallRequest::Nanosleep { req: args[0] }),
        SYS_ALARM => Dispatch::Fixed(Ok(0)),
        SYS_SETITIMER => Dispatch::Fixed(Ok(0)),
        SYS_GETPID => Dispatch::Handle(SyscallRequest::Getpid),
        SYS_SENDFILE => Dispatch::Handle(SyscallRequest::CopyFileRange { in_fd: args[1], in_offset: args[2], out_fd: args[0], out_offset: 0, count: args[3], flags: 0 }),
        SYS_SOCKET => Dispatch::Handle(SyscallRequest::Socket { domain: args[0], socket_type: args[1], protocol: args[2] }),
        SYS_CONNECT => Dispatch::Handle(SyscallRequest::Connect { fd: args[0], addr: args[1], addr_len: args[2] }),
        SYS_ACCEPT => Dispatch::Handle(SyscallRequest::Accept { fd: args[0], addr: args[1], addr_len: args[2] }),
        SYS_SENDTO => Dispatch::Handle(SyscallRequest::Sendto { fd: args[0], base: args[1], len: args[2], flags: args[3], addr: args[4], addr_len: args[5] }),
        SYS_RECVFROM => Dispatch::Handle(SyscallRequest::Recvfrom { fd: args[0], base: args[1], len: args[2], flags: args[3], addr: args[4], addr_len: args[5] }),
        SYS_RECVMSG => Dispatch::Handle(SyscallRequest::Recvmsg { fd: args[0], msg: args[1], flags: args[2] }),
        SYS_SHUTDOWN => Dispatch::Handle(SyscallRequest::Shutdown { fd: args[0], how: args[1] }),
        SYS_BIND => Dispatch::Handle(SyscallRequest::Bind { fd: args[0], addr: args[1], addr_len: args[2] }),
        SYS_LISTEN => Dispatch::Handle(SyscallRequest::Listen { fd: args[0], backlog: args[1] }),
        SYS_GETSOCKNAME => Dispatch::Handle(SyscallRequest::Getsockname { fd: args[0], addr: args[1], addr_len: args[2] }),
        SYS_GETPEERNAME => Dispatch::Handle(SyscallRequest::Getpeername { fd: args[0], addr: args[1], addr_len: args[2] }),
        SYS_SETSOCKOPT => Dispatch::Handle(SyscallRequest::Setsockopt { fd: args[0], level: args[1], optname: args[2], optval: args[3], optlen: args[4] }),
        SYS_GETSOCKOPT => Dispatch::Handle(SyscallRequest::Getsockopt { fd: args[0], level: args[1], optname: args[2], optval: args[3], optlen: args[4] }),
        SYS_CLONE => Dispatch::Handle(SyscallRequest::Clone { flags: args[0], newsp: args[1], parent_tid: args[2], child_tid: args[3], newtls: args[4] }),
        SYS_FORK => Dispatch::Handle(SyscallRequest::Fork),
        SYS_VFORK => Dispatch::Handle(SyscallRequest::Fork),
        SYS_EXECVE => Dispatch::Handle(SyscallRequest::Exec { path: args[0], argv: args[1], envp: args[2] }),
        SYS_EXIT => Dispatch::Handle(SyscallRequest::Exit { exit_code: args[0] }),
        SYS_WAIT4 => Dispatch::Handle(SyscallRequest::Wait4 { pid: args[0] as isize, wstatus: args[1] }),
        SYS_KILL => Dispatch::Handle(SyscallRequest::Kill { pid: args[0] as isize, signum: args[1] }),
        SYS_UNAME => Dispatch::Handle(SyscallRequest::Uname { buf: args[0] }),
        SYS_FCNTL => Dispatch::Handle(SyscallRequest::Fcntl { fd: args[0], cmd: args[1], arg: args[2] }),
        SYS_FLOCK => Dispatch::Fixed(Ok(0)),
        SYS_FSYNC => Dispatch::Handle(SyscallRequest::Fsync { fd: args[0] }),
        SYS_FDATASYNC => Dispatch::Handle(SyscallRequest::Fdatasync { fd: args[0] }),
        SYS_TRUNCATE => Dispatch::Handle(SyscallRequest::Truncate { path: args[0], len: args[1] }),
        SYS_FTRUNCATE => Dispatch::Handle(SyscallRequest::Ftruncate { fd: args[0], len: args[1] }),
        SYS_GETCWD => Dispatch::Handle(SyscallRequest::Getcwd { buf: args[0], len: args[1] }),
        SYS_CHDIR => Dispatch::Handle(SyscallRequest::Chdir { path: args[0] }),
        SYS_RENAME => Dispatch::Handle(SyscallRequest::Renameat { old_dir_fd: AT_FDCWD, old_path: args[0], new_dir_fd: AT_FDCWD, new_path: args[1] }),
        SYS_MKDIR => Dispatch::Handle(SyscallRequest::Mkdirat { dir_fd: AT_FDCWD, path: args[0], mode: args[1] }),
        SYS_RMDIR => Dispatch::Handle(SyscallRequest::Rmdir { path: args[0] }),
        SYS_LINK => Dispatch::Handle(SyscallRequest::Linkat { old_dir_fd: AT_FDCWD, old_path: args[0], new_dir_fd: AT_FDCWD, new_path: args[1], flags: 0 }),
        SYS_UNLINK => Dispatch::Handle(SyscallRequest::Unlinkat { dir_fd: AT_FDCWD, path: args[0], flags: 0 }),
        SYS_READLINK => Dispatch::Handle(SyscallRequest::Readlinkat { dir_fd: AT_FDCWD, path: args[0], base: args[1], len: args[2] }),
        SYS_CHMOD => Dispatch::Fixed(Ok(0)),
        SYS_FCHMOD => Dispatch::Fixed(Ok(0)),
        SYS_CHOWN => Dispatch::Fixed(Ok(0)),
        SYS_FCHOWN => Dispatch::Fixed(Ok(0)),
        SYS_UMASK => Dispatch::Fixed(Ok(0o777)),
        SYS_GETTIMEOFDAY => Dispatch::Handle(SyscallRequest::Gettimeofday { tv: args[0], tz: args[1] }),
        SYS_GETRUSAGE => Dispatch::Handle(SyscallRequest::Getrusage { who: args[0], rusage: args[1] }),
        SYS_SYSINFO => Dispatch::Handle(SyscallRequest::Sysinfo { info: args[0] }),
        SYS_TIMES => Dispatch::Handle(SyscallRequest::Times { buf: args[0] }),
        SYS_GETUID => Dispatch::Fixed(Ok(0)),
        SYS_GETGID => Dispatch::Fixed(Ok(0)),
        SYS_SETUID => Dispatch::Fixed(Ok(0)),
        SYS_GETEUID => Dispatch::Fixed(Ok(0)),
        SYS_GETEGID => Dispatch::Fixed(Ok(0)),
        SYS_SETPGID => Dispatch::Fixed(Ok(0)),
        SYS_GETPPID => Dispatch::Handle(SyscallRequest::Getppid),
        SYS_SETSID => Dispatch::Fixed(Ok(0)),
        SYS_GETGROUPS => Dispatch::Fixed(Ok(0)),
        SYS_SETGROUPS => Dispatch::Fixed(Ok(0)),
        SYS_GETPGID => Dispatch::Fixed(Ok(0)),
        SYS_RT_SIGQUEUEINFO => Dispatch::Fixed(Ok(0)),
        SYS_SIGALTSTACK => Dispatch::Fixed(Ok(0)),
        SYS_STATFS => Dispatch::Fixed(Err(SysError::EACCES)),
        SYS_FSTATFS => Dispatch::Fixed(Err(SysError::EACCES)),
        SYS_SETPRIORITY => Dispatch::Handle(SyscallRequest::SetPriority { priority: args[0] }),
        SYS_PRCTL => Dispatch::Fixed(Ok(0)),
        SYS_ARCH_PRCTL => Dispatch::Handle(SyscallRequest::ArchPrctl { code: args[0] as i32, addr: args[1] }),
        SYS_SYNC => Dispatch::Handle(SyscallRequest::Sync),
        SYS_MOUNT => Dispatch::Fixed(Err(SysError::EACCES)),
        SYS_UMOUNT2 => Dispatch::Fixed(Err(SysError::EACCES)),
        SYS_REBOOT => Dispatch::Handle(SyscallRequest::Reboot { magic: args[0] as u32, magic2: args[1] as u32, cmd: args[2] as u32, arg: args[3] }),
        SYS_INIT_MODULE => Dispatch::Handle(SyscallRequest::InitModule { image: args[0], len: args[1], param_values: args[2] }),
        SYS_DELETE_MODULE => Dispatch::Handle(SyscallRequest::DeleteModule { name: args[0], flags: args[1] as u32 }),
        SYS_GETTID => Dispatch::Handle(SyscallRequest::Gettid),
        SYS_TKILL => Dispatch::Fixed(Ok(0)),
        SYS_TIME => Dispatch::Handle(SyscallRequest::Time { time: args[0] }),
        SYS_FUTEX => Dispatch::Handle(SyscallRequest::Futex { uaddr: args[0], op: args[1] as u32, val: args[2] as i32, timeout: args[3] }),
        SYS_SCHED_GETAFFINITY => Dispatch::Handle(SyscallRequest::SchedGetaffinity { pid: args[0], size: args[1], mask: args[2] }),
        SYS_EPOLL_CREATE => Dispatch::Fixed(Err(SysError::ENOSYS)),
        SYS_GETDENTS64 => Dispatch::Handle(SyscallRequest::Getdents64 { fd: args[0], buf: args[1], buf_size: args[2] }),
        SYS_SET_TID_ADDRESS => Dispatch::Handle(SyscallRequest::SetTidAddress { tidptr: args[0] }),
        SYS_CLOCK_GETTIME => Dispatch::Handle(SyscallRequest::ClockGettime { clock: args[0], ts: args[1] }),
        SYS_EXIT_GROUP => Dispatch::Handle(SyscallRequest::ExitGroup { exit_code: args[0] }),
        SYS_OPENAT => Dispatch::Handle(SyscallRequest::Openat { dir_fd: args[0], path: args[1], flags: args[2], mode: args[3] }),
        SYS_MKDIRAT => Dispatch::Handle(SyscallRequest::Mkdirat { dir_fd: args[0], path: args[1], mode: args[2] }),
        SYS_FCHOWNAT => Dispatch::Fixed(Ok(0)),
        SYS_NEWFSTATAT => Dispatch::Handle(SyscallRequest::Fstatat { dir_fd: args[0], path: args[1], stat: args[2], flags: args[3] }),
        SYS_UNLINKAT => Dispatch::Handle(SyscallRequest::Unlinkat { dir_fd: args[0], path: args[1], flags: args[2] }),
        SYS_RENAMEAT => Dispatch::Handle(SyscallRequest::Renameat { old_dir_fd: args[0], old_path: args[1], new_dir_fd: args[2], new_path: args[3] }),
        SYS_LINKAT => Dispatch::Handle(SyscallRequest::Linkat { old_dir_fd: args[0], old_path: args[1], new_dir_fd: args[2], new_path: args[3], flags: args[4] }),
        SYS_SYMLINKAT => Dispatch::Fixed(Err(SysError::EACCES)),
        SYS_READLINKAT => Dispatch::Handle(SyscallRequest::Readlinkat { dir_fd: args[0], path: args[1], base: args[2], len: args[3] }),
        SYS_FCHMODAT => Dispatch::Fixed(Ok(0)),
        SYS_FACCESSAT => Dispatch::Handle(SyscallRequest::Faccessat { dir_fd: args[0], path: args[1], mode: args[2], flags: args[3] }),
        SYS_PPOLL => Dispatch::Handle(SyscallRequest::Ppoll { ufds: args[0], nfds: args[1], timeout: args[2] }),
        SYS_UTIMENSAT => Dispatch::Fixed(Ok(0)),
        SYS_ACCEPT4 => Dispatch::Handle(SyscallRequest::Accept { fd: args[0], addr: args[1], addr_len: args[2] }),
        SYS_EPOLL_CREATE1 => Dispatch::Fixed(Err(SysError::ENOSYS)),
        SYS_DUP3 => Dispatch::Handle(SyscallRequest::Dup2 { fd1: args[0], fd2: args[1] }),
        SYS_PIPE2 => Dispatch::Handle(SyscallRequest::Pipe { fds: args[0] }),
        SYS_PRLIMIT64 => Dispatch::Handle(SyscallRequest::Prlimit64 { pid: args[0], resource: args[1], new_limit: args[2], old_limit: args[3] }),
        SYS_FINIT_MODULE => Dispatch::Fixed(Err(SysError::ENOSYS)),
        SYS_GETRANDOM => Dispatch::Handle(SyscallRequest::Getrandom { buf: args[0], len: args[1], flags: args[2] as u32 }),
        SYS_MEMBARRIER => Dispatch::Fixed(Ok(0)),
        SYS_COPY_FILE_RANGE => Dispatch::Handle(SyscallRequest::CopyFileRange { in_fd: args[0], in_offset: args[1], out_fd: args[2], out_offset: args[3], count: args[4], flags: args[5] }),
        SYS_GET_PADDR => Dispatch::Handle(SyscallRequest::GetPaddr { vaddrs: args[0], paddrs: args[1], count: args[2] }),
        SYS_MAP_PCI_DEVICE => Dispatch::Handle(SyscallRequest::MapPciDevice { vendor: args[0], product: args[1] }),
        _ => Dispatch::Unknown,
    }
}

/// The value that a system call leaves in the return register: the result on
/// success, the negated error number on failure.
pub open spec fn return_value(ret: SysResult) -> isize {
    match ret {
        Ok(code) => code as isize,
        Err(e) => (-super::error::errno(e)) as isize,
    }
}

/// Encodes the result of a handler for the return register.
pub fn syscall_return_value(ret: SysResult) -> (r: isize)
    ensures
        r == return_value(ret),
{
    match ret {
        Ok(code) => code as isize,
        Err(e) => -e.code(),
    }
}

} // verus!
