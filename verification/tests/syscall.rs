use rcore::net::endpoint::{Endpoint, IpAddress, IpEndpoint, LinkLevelEndpoint, NetlinkEndpoint};
use rcore::process::proc::{FdTable, FileLike};
use rcore::signal::action::{Siginfo, SignalAction, SignalStack, Sigset, SI_TKILL, SI_USER, SS_AUTODISARM, SS_DISABLE, SS_ONSTACK};
use rcore::signal::Signal;
use rcore::sync::event_bus::Poll;
use rcore::sync::semaphore::Semaphore;
use rcore::syscall::copy::{copy_finish, CopyFileRange, CopyStep};
use rcore::syscall::fs::{
    check_getcwd_len, lookup_plan, open_create_action, parse_usize, pipe_fds, seek_from, split_path, DirentBufWriter,
    DirentType, FileType, FsError, IoVecs, LookupPlan, Metadata, OpenAction, OpenFlags, OpenOptions, SeekFrom, Stat,
    StatMode,
};
use rcore::syscall::ipc::{semctl_one, semget_nsems, semop_one, SemBuf, GETNCNT, GETPID, GETVAL, GETZCNT, SETVAL};
use rcore::syscall::mem::{mmap_file_area, mmap_request, MmapBacking, MmapProt};
use rcore::syscall::misc::{
    futex_check_addr, futex_request, getrandom_bytes, prlimit_old, reboot_action, sys_arch_prctl, sys_sched_getaffinity,
    sys_uname, FutexRequest, RLimit, RebootAction, SysInfo, LINUX_REBOOT_CMD_HALT, LINUX_REBOOT_CMD_RESTART,
};
use rcore::syscall::net::{getsockopt, socket_kind, EphemeralPorts, SocketKind};
use rcore::syscall::path::chdir_path;
use rcore::syscall::poll::{fdset_len, poll_check, poll_done, poll_record, select_done, FdSet, PollFd, PollStatus, Select};
use rcore::syscall::signal::{kill_result, kill_target, sigaction_apply, sigaction_check, sigaltstack, sigprocmask, tkill_info, KillTarget};
use rcore::syscall::task::{clone_kind, exit_thread, getpgid, getppid, reap_child, setpgid, wait_look, wait_target, ChildInfo, CloneKind, WaitFor, WaitOutcome};
use rcore::syscall::time::{Duration, FileTimes, RUsage, SleepAction, TimeSpec, TimeVal, Tms, VfsTimespec, WallClock};
use rcore::syscall::user::{In, InOut, Out, UserMemory, UserPtr};
use rcore::syscall::SysError;
use std::collections::BTreeMap;

#[test]
fn error_numbers_and_messages() {
    assert_eq!(SysError::EPERM.code(), 1);
    assert_eq!(SysError::EINVAL.code(), 22);
    assert_eq!(SysError::ENOSYS.code(), 38);
    assert_eq!(SysError::EIDRM.code(), 43);
    assert_eq!(SysError::ECONNREFUSED.code(), 111);
    assert_eq!(SysError::ENOENT.message(), "No such file or directory");
    assert_eq!(SysError::from(FsError::EntryNotFound), SysError::ENOENT);
    assert_eq!(SysError::from(FsError::NotFile), SysError::EISDIR);
    assert_eq!(SysError::from(FsError::SymLoop), SysError::ELOOP);
    assert_eq!(SysError::from(FsError::NoDeviceSpace), SysError::ENOMEM);
}

#[test]
fn time_values() {
    let tv = TimeVal { sec: 3, usec: 250_999 };
    assert_eq!(tv.to_msec(), 3250);
    let ts = TimeSpec { sec: 2, nsec: 1_500_000 };
    assert_eq!(ts.to_msec(), 2001);
    assert!(!ts.is_zero());
    assert!(TimeSpec { sec: 0, nsec: 0 }.is_zero());
    let d = TimeSpec { sec: 1, nsec: 2_500_000_000 }.to_duration();
    assert_eq!(d, Duration { secs: 3, nanos: 500_000_000 });
    let clock = WallClock { tick: 150, tick_base: 50, epoch_base: 1_000, usec_per_tick: 10_000 };
    assert_eq!(clock.epoch_usec(), 1_001_000_000);
    assert_eq!(TimeVal::get_epoch(&clock), TimeVal { sec: 1001, usec: 0 });
    let clock = WallClock { tick: 151, tick_base: 50, epoch_base: 1_000, usec_per_tick: 10_000 };
    assert_eq!(TimeSpec::get_epoch(&clock), TimeSpec { sec: 1001, nsec: 10_000_000 });
    let r = RUsage::since_boot(&clock);
    assert_eq!(r.utime, TimeVal { sec: 1, usec: 10_000 });
    assert_eq!(r.stime, r.utime);
    let t = Tms::zero();
    assert_eq!(t.tms_utime + t.tms_stime + t.tms_cutime + t.tms_cstime, 0);
    let mut times = FileTimes {
        atime: VfsTimespec { sec: 0, nsec: 0 },
        mtime: VfsTimespec { sec: 0, nsec: 0 },
        ctime: VfsTimespec { sec: 0, nsec: 0 },
    };
    TimeSpec::update(&mut times, &clock);
    assert_eq!(times.atime, VfsTimespec { sec: 1001, nsec: 10_000_000 });
    assert_eq!(times.ctime, times.mtime);
}

#[test]
fn sleeping() {
    let now = Duration::new(10, 0);
    let f = rcore::syscall::time::sleep_for(now, Duration::new(0, 1_500_000_000));
    assert_eq!(f.deadline, Duration { secs: 11, nanos: 500_000_000 });
    assert_eq!(f.poll(Duration::new(11, 0)), SleepAction::Wait { wake_at: Some(f.deadline) });
    assert_eq!(f.poll(Duration::new(11, 500_000_000)), SleepAction::Done);
    let far = rcore::syscall::time::SleepFuture { deadline: Duration::new(u64::MAX - 1, 0) };
    assert_eq!(far.poll(now), SleepAction::Wait { wake_at: None });
}

#[test]
fn open_flags_and_types() {
    assert!(OpenFlags(0).readable() && !OpenFlags(0).writable());
    assert!(!OpenFlags(1).readable() && OpenFlags(1).writable());
    assert!(OpenFlags(2).readable() && OpenFlags(2).writable());
    assert!(!OpenFlags(3).readable() && !OpenFlags(3).writable());
    assert_eq!(
        OpenFlags(OpenFlags::WRONLY | OpenFlags::APPEND).to_options(),
        OpenOptions { read: false, write: true, append: true, nonblock: false }
    );
    assert_eq!(DirentType::from_type(&FileType::Dir), DirentType::DT_DIR);
    assert_eq!(DirentType::from_type(&FileType::Socket), 12);
    assert_eq!(StatMode::from_type_mode(FileType::File, 0o644), 0o100644);
    assert_eq!(StatMode::from_type_mode(FileType::Dir, 0o1755), 0o40755);
}

#[test]
fn split_paths() {
    assert_eq!(split_path(b"/usr/bin/ls"), (b"/usr/bin".to_vec(), b"ls".to_vec()));
    assert_eq!(split_path(b"ls"), (b".".to_vec(), b"ls".to_vec()));
    assert_eq!(split_path(b"/ls"), (b"/".to_vec(), b"ls".to_vec()));
    assert_eq!(split_path(b"dir/sub//"), (b"dir".to_vec(), b"sub".to_vec()));
    assert_eq!(split_path(b""), (b".".to_vec(), b"".to_vec()));
}

#[test]
fn seek_and_getcwd() {
    assert_eq!(seek_from(-3, 0), Ok(SeekFrom::Start((-3i64) as u64)));
    assert_eq!(seek_from(-3, 1), Ok(SeekFrom::Current(-3)));
    assert_eq!(seek_from(5, 2), Ok(SeekFrom::End(5)));
    assert_eq!(seek_from(5, 3), Err(SysError::EINVAL));
    assert_eq!(check_getcwd_len(4, 5), Ok(()));
    assert_eq!(check_getcwd_len(5, 5), Err(SysError::ERANGE));
}

#[test]
fn dirent_writer() {
    let mut w = DirentBufWriter::new(vec![0xaa; 48]);
    assert!(w.try_write(7, DirentType::DT_REG, b"abc"));
    // 19 + 3 + 1 = 23, rounded up to 24
    assert_eq!(w.written_size, 24);
    assert_eq!(w.rest_size, 24);
    assert_eq!(&w.buf[0..8], &[7, 0, 0, 0, 0, 0, 0, 0]);
    assert_eq!(&w.buf[16..18], &[24, 0]);
    assert_eq!(w.buf[18], DirentType::DT_REG);
    assert_eq!(&w.buf[19..23], b"abc\0");
    assert_eq!(w.buf[23], 0xaa);
    assert!(!w.try_write(8, DirentType::DT_DIR, b"a-long-name"));
    assert_eq!(w.written_size, 24);
}

#[test]
fn iovecs_gather_and_scatter() {
    let mut v = IoVecs(vec![vec![1, 2], vec![], vec![3, 4, 5]]);
    assert_eq!(v.read_all_to_vec(), vec![1, 2, 3, 4, 5]);
    v.write_all_from_slice(&[9, 8, 7]);
    assert_eq!(v.0, vec![vec![9, 8], vec![], vec![7, 4, 5]]);
    assert_eq!(v.read_all_to_vec(), vec![9, 8, 7, 4, 5]);
    v.write_all_from_slice(&[1, 1, 1, 1, 1, 1, 1]);
    assert_eq!(v.read_all_to_vec(), vec![1, 1, 1, 1, 1]);
}

#[test]
fn parse_numbers() {
    assert_eq!(parse_usize(b"42"), Some(42));
    assert_eq!(parse_usize(b"+7"), Some(7));
    assert_eq!(parse_usize(b""), None);
    assert_eq!(parse_usize(b"+"), None);
    assert_eq!(parse_usize(b"4x"), None);
    assert_eq!(parse_usize(b"-1"), None);
    assert_eq!(parse_usize(b"99999999999999999999999"), None);
}

#[test]
fn lookups_and_open() {
    let mut files = FdTable::new();
    files.insert(0, FileLike::File { description: 100, cloexec: false });
    files.insert(3, FileLike::Socket { socket: 5 });
    assert_eq!(lookup_plan(&files, 0, b"/proc/self/exe", true), Ok(LookupPlan::ExeLink));
    assert_eq!(lookup_plan(&files, 0, b"/dev/fb0", true), Ok(LookupPlan::FrameBuffer));
    assert_eq!(lookup_plan(&files, 0, b"/proc/self/fd/0", true), Ok(LookupPlan::FdLink { description: 100 }));
    assert_eq!(lookup_plan(&files, 0, b"/proc/self/fd/x", true), Err(SysError::EINVAL));
    assert_eq!(lookup_plan(&files, 0, b"/proc/self/fd/3", true), Err(SysError::EBADF));
    let at_fdcwd = usize::MAX - 99;
    assert_eq!(lookup_plan(&files, at_fdcwd, b"a/b", false), Ok(LookupPlan::FromCwd { follow: false }));
    assert_eq!(lookup_plan(&files, 0, b"a/b", true), Ok(LookupPlan::FromDir { description: 100, follow: true }));
    assert_eq!(lookup_plan(&files, 3, b"a/b", true), Err(SysError::EBADF));
    assert_eq!(lookup_plan(&files, 3, b"/a/b", true), Ok(LookupPlan::FromRoot { follow: true }));
    assert_eq!(lookup_plan(&files, at_fdcwd, b"/a/b", false), Ok(LookupPlan::FromRoot { follow: false }));
    let create_excl = OpenFlags(OpenFlags::CREATE | OpenFlags::EXCLUSIVE);
    assert_eq!(open_create_action(create_excl, Ok(())), Err(SysError::EEXIST));
    assert_eq!(open_create_action(OpenFlags(OpenFlags::CREATE), Ok(())), Ok(OpenAction::OpenFound));
    assert_eq!(open_create_action(create_excl, Err(FsError::EntryNotFound)), Ok(OpenAction::Create));
    assert_eq!(open_create_action(create_excl, Err(FsError::NotDir)), Err(SysError::ENOTDIR));
    let (r, w) = pipe_fds(&mut files, 200, 201);
    assert_eq!((r, w), (1, 2));
    assert_eq!(files.get_file(2), Ok(201));
}

#[test]
fn stat_of_metadata() {
    let t = VfsTimespec { sec: 5, nsec: 6 };
    let m = Metadata {
        dev: 1,
        inode: 2,
        size: 3,
        blk_size: 512,
        blocks: 1,
        atime: t,
        mtime: t,
        ctime: t,
        type_: FileType::SymLink,
        mode: 0o777,
        nlinks: 1,
        uid: 0,
        gid: 0,
        rdev: 0,
    };
    let st = Stat::from_metadata(&m);
    assert_eq!(st.mode, 0o120777);
    assert_eq!(st.ino, 2);
    assert_eq!(st.blksize, 512);
}

#[test]
fn misc_calls() {
    let mut fs = 0usize;
    assert_eq!(sys_arch_prctl(0x1002, 0x1234, &mut fs), Ok(0));
    assert_eq!(fs, 0x1234);
    assert_eq!(sys_arch_prctl(0x1001, 0x9999, &mut fs), Err(SysError::EINVAL));
    assert_eq!(fs, 0x1234);
    let mut buf = vec![0xffu8; 390];
    sys_uname(&mut buf);
    assert_eq!(&buf[0..6], b"rCore\0");
    assert_eq!(buf[6], 0xff);
    assert_eq!(&buf[65..69], b"orz\0");
    assert_eq!(&buf[130..136], b"0.1.0\0");
    assert_eq!(&buf[195..197], b"1\0");
    assert_eq!(&buf[260..268], b"machine\0");
    assert_eq!(&buf[325..332], b"domain\0");
    let mut mask = vec![0u32, 7];
    sys_sched_getaffinity(&mut mask);
    assert_eq!(mask, vec![0b1111, 7]);
    assert_eq!(SysInfo::zero().procs, 0);
    assert_eq!(prlimit_old(3, 8192), Ok(RLimit { cur: 8192, max: 8192 }));
    assert_eq!(prlimit_old(7, 8192), Ok(RLimit { cur: 1024, max: 1024 }));
    assert_eq!(prlimit_old(9, 8192), Ok(RLimit { cur: 1 << 30, max: 1 << 30 }));
    assert_eq!(prlimit_old(4, 8192), Err(SysError::ENOSYS));
    assert_eq!(futex_check_addr(0x1002), Err(SysError::EINVAL));
    assert_eq!(futex_check_addr(0x1004), Ok(()));
    assert_eq!(futex_request(0x80, 3, 3), Ok(FutexRequest::Wait));
    assert_eq!(futex_request(0x80, 3, 4), Err(SysError::EAGAIN));
    assert_eq!(futex_request(0x81, 2, 0), Ok(FutexRequest::Wake(2)));
    assert_eq!(futex_request(0x5, 2, 0), Err(SysError::ENOSYS));
    assert_eq!(reboot_action(LINUX_REBOOT_CMD_HALT), RebootAction::Halt);
    assert_eq!(reboot_action(LINUX_REBOOT_CMD_RESTART), RebootAction::Restart);
    assert_eq!(reboot_action(0), RebootAction::Nothing);
    assert_eq!(getrandom_bytes(3, 0x1fe), vec![0xfe, 0xff, 0x00]);
}

#[test]
fn select_and_poll() {
    assert_eq!(fdset_len(0), Ok(0));
    assert_eq!(fdset_len(33), Ok(2));
    assert_eq!(fdset_len(1024), Ok(32));
    assert_eq!(fdset_len(1025), Err(SysError::EINVAL));
    let read = FdSet::new(Some(vec![0b1010]));
    let write = FdSet::new(None);
    let err = FdSet::new(Some(vec![0b0010]));
    assert!(read.contains(1) && read.contains(3) && !read.contains(2) && !read.contains(40));
    let mut s = Select { read, write, err, events: 0 };
    assert!(s.should_poll(1, 4));
    assert!(!s.should_poll(2, 4));
    assert!(!s.should_poll(3, 3));
    s.record(1, PollStatus { read: true, write: true, error: true });
    assert_eq!(s.events, 2);
    assert_eq!(s.read.bitset, vec![0b10]);
    assert_eq!(s.err.bitset, vec![0b10]);
    assert_eq!(select_done(2, 0, 0, 0), Some(Ok(2)));
    assert_eq!(select_done(0, 0, 0, 0), Some(Ok(0)));
    assert_eq!(select_done(0, 10, 0, 11), Some(Ok(0)));
    assert_eq!(select_done(0, 10, 0, 10), None);
    assert_eq!(select_done(0, 1 << 31, 0, 1 << 40), None);

    let mut files = FdTable::new();
    files.insert(0, FileLike::File { description: 1, cloexec: false });
    let polls = vec![PollFd { fd: 0, events: 1, revents: 0 }];
    assert_eq!(poll_check(&files, &polls), Ok(()));
    let bad = vec![PollFd { fd: 0, events: 1, revents: 0 }, PollFd { fd: 9, events: 1, revents: 0 }];
    assert_eq!(poll_check(&files, &bad), Err(SysError::EINVAL));
    let mut p = PollFd { fd: 0, events: 1, revents: 0xff };
    assert_eq!(poll_record(&mut p, Some(PollStatus { read: true, write: true, error: false })), 1);
    assert_eq!(p.revents, 1);
    assert_eq!(poll_record(&mut p, Some(PollStatus { read: false, write: false, error: true })), 1);
    assert_eq!(p.revents, 0x10);
    assert_eq!(poll_record(&mut p, None), 1);
    assert_eq!(p.revents, 8);
    assert_eq!(poll_done(1, 0, 0, 0), Some(Ok(1)));
    assert_eq!(poll_done(0, 0, 0, 0), None);
    assert_eq!(poll_done(0, 5, 2, 8), Some(Ok(0)));
}

#[test]
fn copy_file_range_steps() {
    let mut c = CopyFileRange::new(1500, 100);
    assert_eq!(c.next_step(), CopyStep::Read { offset: 100, len: 1024 });
    c.after_read(1024);
    assert_eq!(c.next_step(), CopyStep::Write { from: 0, len: 1024 });
    assert_eq!(c.after_write(1000), Ok(()));
    assert_eq!(c.next_step(), CopyStep::Write { from: 1000, len: 24 });
    assert_eq!(c.after_write(24), Ok(()));
    assert_eq!(c.next_step(), CopyStep::Read { offset: 1124, len: 476 });
    c.after_read(100);
    assert_eq!(c.after_write(100), Ok(()));
    assert_eq!(c.next_step(), CopyStep::Read { offset: 1224, len: 376 });
    c.after_read(0);
    assert_eq!(c.next_step(), CopyStep::Finish);
    let f = copy_finish(&c, false, true, 50, 7);
    assert_eq!(f.in_offset_store, None);
    assert_eq!(f.in_seek, Some(1124));
    assert_eq!(f.out_offset_store, Some(50 + 1124));
    assert_eq!(f.out_restore, Some(7));
    assert_eq!(f.result, Ok(1124));
    let mut d = CopyFileRange::new(10, 0);
    d.after_read(10);
    assert_eq!(d.after_write(0), Err(SysError::EBADF));
    assert_eq!(d.next_step(), CopyStep::Finish);
}

#[test]
fn semaphores_of_ipc() {
    assert_eq!(semget_nsems(-1), Err(SysError::EINVAL));
    assert_eq!(semget_nsems(257), Err(SysError::EINVAL));
    assert_eq!(semget_nsems(256), Ok(256));
    let mut sem = Semaphore::new(2);
    assert_eq!(semctl_one(&mut sem, GETVAL, 0, 9), Ok(2));
    assert_eq!(semctl_one(&mut sem, SETVAL, 5, 9), Ok(0));
    assert_eq!(semctl_one(&mut sem, GETPID, 0, 1), Ok(9));
    assert_eq!(semctl_one(&mut sem, GETZCNT, 0, 1), Ok(0));
    assert_eq!(semctl_one(&mut sem, GETNCNT, 0, 1), Ok(0));
    let down = SemBuf { num: 0, op: -1, flags: 0x1000 };
    assert_eq!(semop_one(&mut sem, &down, 3, 1), Poll::Ready(Ok(true)));
    assert_eq!(sem.get(), 4);
    let up = SemBuf { num: 0, op: 1, flags: 0 };
    assert_eq!(semop_one(&mut sem, &up, 4, 1), Poll::Ready(Ok(false)));
    assert_eq!(sem.get(), 5);
    assert_eq!(sem.get_pid(), 4);
}

#[test]
fn mmap_requests() {
    let r = mmap_request(0, 7, 0x22, 3);
    assert_eq!(r.addr, 4096);
    assert!(!r.fixed);
    assert_eq!(r.backing, MmapBacking::AnonPrivate);
    assert!(r.attr.user && r.attr.execute && !r.attr.readonly);
    let r = mmap_request(0x10000, 1, 0x31, 3);
    assert_eq!(r.addr, 0x10000);
    assert!(r.fixed);
    assert_eq!(r.backing, MmapBacking::AnonShared);
    assert!(!r.attr.execute);
    let r = mmap_request(0x10000, 0xff, 0x102, 3);
    assert_eq!(r.prot, 7);
    assert_eq!(r.flags, 2);
    assert_eq!(r.backing, MmapBacking::File { fd: 3 });
    let a = mmap_file_area(&r, 0x20000, 0x1000, 16);
    assert_eq!(a.end_vaddr, 0x21000);
    assert_eq!(MmapProt::from_bits_truncate(0xf).0, 7);
}

#[test]
fn signal_calls() {
    assert_eq!(sigaction_check(9, 8), Err(SysError::EINVAL));
    assert_eq!(sigaction_check(19, 8), Err(SysError::EINVAL));
    assert_eq!(sigaction_check(2, 4), Err(SysError::EINVAL));
    assert_eq!(sigaction_check(0, 8), Err(SysError::EINVAL));
    assert_eq!(sigaction_check(2, 8), Ok(Signal::SIGINT));
    let mut table = vec![SignalAction::default(); 65];
    let act = SignalAction { handler: 0x4000, flags: 4, restorer: 0, mask: Sigset::empty() };
    let prev = sigaction_apply(&mut table, 2, Some(act));
    assert_eq!(prev, SignalAction::default());
    assert_eq!(sigaction_apply(&mut table, 2, None), act);
    let mut mask = Sigset::empty();
    let mut set = Sigset::empty();
    set.add(Signal::SIGUSR1);
    assert_eq!(sigprocmask(&mut mask, 0, Some(set), 4), Err(SysError::EINVAL));
    assert_eq!(sigprocmask(&mut mask, 0, Some(set), 8), Ok(0));
    assert!(mask.contains(Signal::SIGUSR1));
    assert_eq!(sigprocmask(&mut mask, 1, Some(set), 8), Ok(0));
    assert!(!mask.contains(Signal::SIGUSR1));
    assert_eq!(sigprocmask(&mut mask, 2, Some(set), 8), Ok(0));
    assert_eq!(mask, set);
    assert_eq!(sigprocmask(&mut mask, 3, Some(Sigset::empty()), 8), Err(SysError::EINVAL));
    assert_eq!(mask, set);
    let info = Siginfo { signo: 15, errno: 0, code: SI_USER };
    assert_eq!(kill_target(12, 15), Ok((KillTarget::Process(12), info)));
    assert_eq!(kill_target(0, 15), Ok((KillTarget::OwnGroup, info)));
    assert_eq!(kill_target(-1, 15), Ok((KillTarget::All, info)));
    assert_eq!(kill_target(-7, 15), Ok((KillTarget::Group(7), info)));
    assert_eq!(kill_target(12, 65), Err(SysError::EINVAL));
    assert_eq!(kill_result(KillTarget::Group(7), 0), Err(SysError::ESRCH));
    assert_eq!(kill_result(KillTarget::OwnGroup, 0), Ok(0));
    assert_eq!(tkill_info(10), Ok(Siginfo { signo: 10, errno: 0, code: SI_TKILL }));
    let mut stack = SignalStack::default();
    let small = SignalStack { sp: 0x1000, flags: 0, size: 100 };
    assert_eq!(sigaltstack(&mut stack, small), Err(SysError::ENOMEM));
    assert_eq!(stack, SignalStack::default());
    let disabled_small = SignalStack { sp: 0, flags: SS_DISABLE, size: 100 };
    assert_eq!(sigaltstack(&mut stack, disabled_small), Ok(0));
    assert_eq!(stack, disabled_small);
    let odd = SignalStack { sp: 0x1000, flags: 4, size: 8192 };
    assert_eq!(sigaltstack(&mut stack, odd), Err(SysError::EINVAL));
    let good = SignalStack { sp: 0x1000, flags: SS_AUTODISARM, size: 8192 };
    assert_eq!(sigaltstack(&mut stack, good), Ok(0));
    assert_eq!(stack, good);
    let mut on = SignalStack { sp: 0x1000, flags: SS_ONSTACK, size: 8192 };
    assert_eq!(sigaltstack(&mut on, good), Err(SysError::EPERM));
}

#[test]
fn process_calls() {
    assert_eq!(clone_kind(0x11), Ok(CloneKind::Fork));
    assert_eq!(clone_kind(0x4111), Ok(CloneKind::Fork));
    assert_eq!(clone_kind(0x7d0f00), Ok(CloneKind::Thread));
    assert_eq!(clone_kind(0x5d0f00), Ok(CloneKind::Thread));
    assert_eq!(clone_kind(0x100), Err(SysError::ENOSYS));
    assert_eq!(wait_target(-1), WaitFor::AnyChild);
    assert_eq!(wait_target(0), WaitFor::AnyChildInGroup);
    assert_eq!(wait_target(5), WaitFor::Pid(5));
    let kids = vec![
        ChildInfo { pid: 3, alive: true, exited: false, exit_code: 0 },
        ChildInfo { pid: 4, alive: false, exited: true, exit_code: 1 },
        ChildInfo { pid: 5, alive: true, exited: true, exit_code: 9 },
    ];
    assert_eq!(wait_look(WaitFor::AnyChild, &kids, None), WaitOutcome::Found { pid: 5, exit_code: 9 });
    assert_eq!(wait_look(WaitFor::Pid(3), &kids, Some((false, 0))), WaitOutcome::Sleep);
    assert_eq!(wait_look(WaitFor::Pid(3), &kids, Some((true, 2))), WaitOutcome::Found { pid: 3, exit_code: 2 });
    assert_eq!(wait_look(WaitFor::Pid(4), &kids, None), WaitOutcome::NoChild);
    assert_eq!(wait_look(WaitFor::AnyChild, &vec![], None), WaitOutcome::NoChild);
    let mut children = vec![3, 5, 3];
    reap_child(&mut children, 3);
    assert_eq!(children, vec![5]);
    let mut threads = vec![7, 8];
    assert!(!exit_thread(&mut threads, 7));
    assert!(exit_thread(&mut threads, 8));
    assert_eq!(getppid(1, true), Ok(1));
    assert_eq!(getppid(1, false), Ok(0));
    let mut pgids = BTreeMap::new();
    pgids.insert(2usize, 0i32);
    assert_eq!(setpgid(&mut pgids, 0, 5, 2), Ok(0));
    assert_eq!(getpgid(&pgids, 2, 9), Ok(5));
    assert_eq!(getpgid(&pgids, 0, 2), Ok(5));
    assert_eq!(getpgid(&pgids, 3, 2), Err(SysError::ESRCH));
    assert_eq!(setpgid(&mut pgids, 3, 1, 2), Err(SysError::ESRCH));
}

#[test]
fn socket_calls() {
    assert_eq!(socket_kind(2, 1, 0), Ok(SocketKind::Tcp));
    assert_eq!(socket_kind(2, 0x80002, 0), Ok(SocketKind::Udp));
    assert_eq!(socket_kind(1, 3, 0x1ff), Ok(SocketKind::Raw(0xff)));
    assert_eq!(socket_kind(17, 3, 0), Ok(SocketKind::Packet));
    assert_eq!(socket_kind(17, 1, 0), Err(SysError::EINVAL));
    assert_eq!(socket_kind(16, 3, 0), Ok(SocketKind::Netlink));
    assert_eq!(socket_kind(2, 5, 0), Err(SysError::EINVAL));
    assert_eq!(socket_kind(10, 1, 0), Err(SysError::EAFNOSUPPORT));
    assert_eq!(getsockopt(1, 7), Ok(Some(512 * 1024)));
    assert_eq!(getsockopt(1, 8), Ok(Some(512 * 1024)));
    assert_eq!(getsockopt(6, 13), Ok(None));
    assert_eq!(getsockopt(1, 13), Err(SysError::ENOPROTOOPT));
    assert_eq!(getsockopt(0, 7), Err(SysError::ENOPROTOOPT));
    let mut ports = EphemeralPorts::new();
    let first = ports.get_ephemeral_port(16383);
    assert_eq!(first, 49152);
    assert_eq!(ports.get_ephemeral_port(0), 49153);
    ports.last = 65535;
    assert_eq!(ports.get_ephemeral_port(0), 49152);
}

#[test]
fn chdir_paths() {
    assert_eq!(chdir_path(b"/home/user", b"../other/./x"), b"/home/other/x".to_vec());
    assert_eq!(chdir_path(b"/home", b"/usr//bin/"), b"/usr/bin".to_vec());
    assert_eq!(chdir_path(b"/", b".."), b"/".to_vec());
    assert_eq!(chdir_path(b"/a", b""), b"/a".to_vec());
    assert_eq!(chdir_path(b"/a/b", b"../.."), b"/".to_vec());
}

#[test]
fn user_pointers() {
    let mut bytes = BTreeMap::new();
    for a in 0x1000usize..0x1010 {
        bytes.insert(a, (0u8, a < 0x1008));
    }
    let mut mem = UserMemory { limit: 0x8000, bytes };
    let mut p: UserPtr<u32, Out> = UserPtr::from_addr(0x1000);
    assert_eq!(p.write(&mut mem, 0x11223344), Ok(()));
    let q: UserPtr<u32, In> = UserPtr::from_addr(0x1000);
    assert_eq!(q.read(&mem), Ok(0x11223344));
    assert_eq!(mem.bytes[&0x1000].0, 0x44);
    let mut ro: UserPtr<u32, InOut> = UserPtr::from_addr(0x1008);
    assert_eq!(ro.write(&mut mem, 1), Err(SysError::EFAULT));
    assert_eq!(ro.read(&mem), Ok(0));
    let out_of_map: UserPtr<u64, In> = UserPtr::from_addr(0x100c);
    assert_eq!(out_of_map.read(&mem), Err(SysError::EFAULT));
    let null: UserPtr<u32, In> = UserPtr::from_addr(0);
    assert!(null.is_null());
    assert_eq!(null.read_if_not_null(&mem), Ok(None));
    assert_eq!(q.read_if_not_null(&mem), Ok(Some(0x11223344)));
    let mut null_out: UserPtr<u32, Out> = UserPtr::from_addr(0);
    assert_eq!(null_out.write_if_not_null(&mut mem, 5), Ok(()));
    assert_eq!(q.add(2).ptr(), 0x1008);
    assert_eq!(q.as_ptr(), 0x1000);
    let mut s: UserPtr<u8, InOut> = UserPtr::from_addr(0x1000);
    assert_eq!(s.write(&mut mem, b'h'), Ok(()));
    let t: UserPtr<u8, In> = UserPtr::from_addr(0x1000);
    let mut hi: UserPtr<u8, Out> = UserPtr::from_addr(0x1001);
    assert_eq!(hi.write(&mut mem, b'i'), Ok(()));
    assert_eq!(t.read_string(&mem, 2), Ok(String::from("hi")));
    let mut bad: UserPtr<u8, Out> = UserPtr::from_addr(0x1002);
    assert_eq!(bad.write(&mut mem, 0xff), Ok(()));
    assert_eq!(t.read_string(&mem, 3), Err(SysError::EINVAL));
    assert_eq!(t.read_string(&mem, 0x20), Err(SysError::EFAULT));
    let high: UserPtr<u8, In> = UserPtr::from_addr(0x7fff);
    assert_eq!(high.read(&mem), Err(SysError::EFAULT));
    let _ = s;
}

#[test]
fn user_range_may_end_at_the_limit() {
    let mut bytes = BTreeMap::new();
    bytes.insert(0x7ffe, (b'o', true));
    bytes.insert(0x7fff, (b'k', true));
    let mem = UserMemory { limit: 0x8000, bytes };
    assert!(mem.check_access(0x7ffe, 2));
    assert!(!mem.check_access(0x7ffe, 3));
    assert!(mem.check_access(0x8000, 0));
    let p: UserPtr<u8, In> = UserPtr::from_addr(0x7ffe);
    assert_eq!(p.read_string(&mem, 2), Ok(String::from("ok")));
    let kernel: UserPtr<u8, In> = UserPtr::from_addr(0x9000);
    assert_eq!(kernel.read_string(&mem, 0), Ok(String::new()));
    assert_eq!(kernel.read_bytes(&mem, 0), Ok(vec![]));
    assert_eq!(kernel.read_string(&mem, 1), Err(SysError::EFAULT));
}

#[test]
fn endpoints_unused_variants() {
    let _ = Endpoint::LinkLevel(LinkLevelEndpoint::new(1));
    let _ = Endpoint::Netlink(NetlinkEndpoint::new(1, 2));
    let _ = Endpoint::Ip(IpEndpoint { addr: IpAddress::Unspecified, port: 0 });
}
