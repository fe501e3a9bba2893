use std::collections::BTreeMap;

use rcore::lkm::{page_range, LinearManager, VirtualArea, VirtualSpace};
use rcore::memory::MemoryAttr;
use rcore::net::endpoint::{Endpoint, IpAddress, IpEndpoint};
use rcore::process::proc::{add_to_table, process_exit, process_group, FdTable, FileLike};
use rcore::process::thread::ThreadContext;
use rcore::rvm::{memory_region_area, RvmPageTableHandlerDelay};
use rcore::signal::action::{Siginfo, SignalAction, SignalStack, Sigset, SS_ONSTACK};
use rcore::signal::delivery::{FrameLayout, ProcessSignals, SignalOutcome, ThreadSignals, UserRegs};
use rcore::signal::Signal;
use rcore::sync::condvar::Condvar;
use rcore::sync::event_bus::{Event, EventBus};
use rcore::syscall::custom::{get_paddrs, map_pci_plan};
use rcore::syscall::fs::getdents64;
use rcore::syscall::ipc::shmat_plan;
use rcore::syscall::net::{recv_finish, socket_name};
use rcore::syscall::poll::{ppoll_timeout, POLL_FOREVER_MSEC};
use rcore::syscall::signal::{rt_sigreturn, sigreturn_frame_addr};
use rcore::syscall::task::{exec_check_args, exec_commit};
use rcore::syscall::time::TimeSpec;
use rcore::syscall::user::{check_and_clone_cstr, check_and_clone_cstr_array, In, Out, UserMemory, UserPtr};
use rcore::syscall::SysError;
use rcore::ucore::{ucore_open_plan, ucore_wait_step, OpenPlan, OpenSource, ProcStatus, Reaped, UcoreFiles, WaitStep};

#[test]
fn exec_keeps_caller_and_closes_cloexec() {
    assert_eq!(exec_check_args(0), Err(SysError::EINVAL));
    assert_eq!(exec_check_args(2), Ok(()));
    let mut threads = vec![3, 7, 9];
    let mut files = FdTable::new();
    files.insert(0, FileLike::File { description: 1, cloexec: false });
    files.insert(1, FileLike::File { description: 2, cloexec: true });
    files.insert(2, FileLike::Socket { socket: 5 });
    let mut ctx = ThreadContext { ip: 1, sp: 2, syscall_ret: 3, tls: 4, rflags: 5 };
    exec_commit(&mut threads, 7, &mut files, &mut ctx, 0x400000, 0x7fff0000);
    assert_eq!(threads, vec![7]);
    assert_eq!(files.fds(), vec![0, 2]);
    assert_eq!(ctx, ThreadContext { ip: 0x400000, sp: 0x7fff0000, syscall_ret: 3, tls: 4, rflags: 5 });
}

#[test]
fn process_exit_and_tables() {
    let mut files = FdTable::new();
    files.insert(4, FileLike::Socket { socket: 1 });
    let mut threads = vec![1, 2];
    let mut codes = BTreeMap::new();
    assert!(process_exit(&mut files, &mut threads, &mut codes, true, 5, 3));
    assert_eq!(files.len(), 0);
    assert!(threads.is_empty());
    assert_eq!(codes.get(&5), Some(&3));
    let mut codes2 = BTreeMap::new();
    assert!(!process_exit(&mut FdTable::new(), &mut vec![], &mut codes2, false, 5, 3));
    assert!(codes2.is_empty());

    let mut table = BTreeMap::new();
    assert_eq!(add_to_table(&mut table, "a"), 1);
    assert_eq!(add_to_table(&mut table, "b"), 2);
    table.remove(&1);
    assert_eq!(add_to_table(&mut table, "c"), 1);
    assert_eq!(table.get(&1), Some(&"c"));

    let mut pgids = BTreeMap::new();
    pgids.insert(1, 0);
    pgids.insert(4, 7);
    pgids.insert(2, 7);
    pgids.insert(9, 3);
    assert_eq!(process_group(&pgids, 7), vec![2, 4]);
    assert!(process_group(&pgids, 8).is_empty());
}

#[test]
fn condvar_waiter_leaves() {
    let mut c = Condvar::new();
    c.add_to_wait_queue(1);
    c.add_to_wait_queue(2);
    c.add_to_wait_queue(1);
    c.add_to_wait_queue(3);
    c.remove_waiter(1);
    assert_eq!(c.notify_all(), vec![2, 3]);
}

#[test]
fn ucore_wait_steps() {
    assert_eq!(ucore_wait_step(0, &vec![], &vec![]), WaitStep::Return { result: -1, reaped: None });
    let children = vec![4, 5, 6];
    assert_eq!(
        ucore_wait_step(0, &children, &vec![ProcStatus::Alive, ProcStatus::Exited(9), ProcStatus::Exited(1)]),
        WaitStep::Return { result: 5, reaped: Some(Reaped { pid: 5, code: 9 }) }
    );
    assert_eq!(
        ucore_wait_step(0, &children, &vec![ProcStatus::Alive, ProcStatus::Gone, ProcStatus::Exited(1)]),
        WaitStep::Return { result: -1, reaped: None }
    );
    assert_eq!(ucore_wait_step(0, &children, &vec![ProcStatus::Alive; 3]), WaitStep::Sleep);
    assert_eq!(
        ucore_wait_step(8, &children, &vec![ProcStatus::Exited(2)]),
        WaitStep::Return { result: 8, reaped: Some(Reaped { pid: 8, code: 2 }) }
    );
}

#[test]
fn guest_memory_faults() {
    let (start, end, attr) = memory_region_area(0x10_0000, 0x4000);
    assert_eq!((start, end), (0x10_0000, 0x10_4000));
    assert!(attr.user && !attr.readonly && !attr.execute);
    let h = RvmPageTableHandlerDelay::new(0x8000, 0x10_0000, 1);
    assert_eq!(h.fault_guest_paddr(true, 0x10_1000), None);
    assert_eq!(h.fault_guest_paddr(false, 0x10_1234), Some(0x9234));
    assert_eq!(h.fault_frame(Some(0x5000)), Some(0x5000));
    assert_eq!(h.fault_frame(Some(0)), None);
    assert_eq!(h.fault_frame(None), None);
}

#[test]
fn kernel_virtual_space() {
    assert_eq!(page_range(0x2000, 0x5000), vec![0x2000, 0x3000, 0x4000]);
    assert!(page_range(0x2000, 0x2000).is_empty());
    let mut m = LinearManager::new();
    let mut vs = VirtualSpace::new(&mut m, 0x2800, 0xe000_0000).unwrap();
    assert_eq!(vs.start(), 0xe000_0000);
    assert_eq!(vs.size(), 0x3000);
    assert_eq!(m.last_page, 3);
    let a = vs.add_area(0xe000_0100, 0xe000_1100, MemoryAttr::default());
    assert_eq!(a, VirtualArea { start: 0xe000_0000, end: 0xe000_2000, attr: MemoryAttr::default() });
    assert_eq!(a.pages(), vec![0xe000_0000, 0xe000_1000]);
    assert_eq!(vs.areas.len(), 1);
    assert_eq!(VirtualArea::new(0x1000, 0, MemoryAttr::default()).end, 0x1000);
}

#[test]
fn memory_calls() {
    let (start, attr) = shmat_plan(true, 0).unwrap();
    assert_eq!(start, 0x1000);
    assert!(attr.user && attr.execute && !attr.readonly);
    assert_eq!(shmat_plan(true, 0x5000).unwrap().0, 0x5000);
    assert_eq!(shmat_plan(false, 0x5000), Err(SysError::EINVAL));
    assert_eq!(map_pci_plan(false, None), Err(SysError::ENOENT));
    assert_eq!(map_pci_plan(true, None), Err(SysError::ENOENT));
    let (len, attr) = map_pci_plan(true, Some((0xfebf_0000, 0x2000))).unwrap();
    assert_eq!(len, 0x2000);
    assert!(attr.user && !attr.execute && !attr.readonly);
    assert_eq!(get_paddrs(&vec![Some(0x1234), None, Some(7)]), vec![0x1234, 0, 7]);
    assert_eq!(ppoll_timeout(None), POLL_FOREVER_MSEC);
    assert_eq!(ppoll_timeout(Some(TimeSpec { sec: 2, nsec: 3_000_000 })), 2003);
}

#[test]
fn sigreturn_restores_delivery() {
    let handler = SignalAction { handler: 0x401000, flags: 0, restorer: 0, mask: Sigset::empty() };
    let mut dispositions = vec![SignalAction::default(); 65];
    dispositions[10] = handler;
    let mut p = ProcessSignals { sig_queue: Vec::new(), pending_sigset: Sigset::empty(), dispositions };
    p.send_signal(-1, Siginfo { signo: 10, errno: 0, code: 0 });
    let stack = SignalStack::default();
    let mut t = ThreadSignals { tid: 1, sig_mask: Sigset::empty(), alternate_stack: stack };
    let before = UserRegs { sp: 0x7000, ip: 0x400123, arg0: 1, arg1: 2, arg2: 3 };
    let mut regs = before;
    let layout = FrameLayout { size: 0x400, info_offset: 0x10, ucontext_offset: 0x100, ret_code_offset: 0x3f0 };
    let frame = match p.handle_signal_step(&mut t, &mut regs, &layout) {
        SignalOutcome::Handler { frame, .. } => frame,
        other => panic!("{:?}", other),
    };
    assert_ne!(regs, before);
    assert_eq!(sigreturn_frame_addr(regs.sp + 8), regs.sp);
    t.alternate_stack = SignalStack { sp: 1, flags: SS_ONSTACK, size: 2 };
    rt_sigreturn(&frame, &mut t, &mut regs);
    assert_eq!(regs, before);
    assert_eq!(t.alternate_stack, stack);
}

#[test]
fn socket_addresses_out() {
    let ep = Endpoint::Ip(IpEndpoint { addr: IpAddress::Ipv4(1, 2, 3, 4), port: 0x1234 });
    assert_eq!(socket_name(true, Some(ep), 16), Err(SysError::EINVAL));
    assert_eq!(socket_name(false, None, 16), Err(SysError::EINVAL));
    let (bytes, len) = socket_name(false, Some(ep), 16).unwrap();
    assert_eq!(bytes, vec![2, 0, 0x12, 0x34, 1, 2, 3, 4, 0, 0, 0, 0, 0, 0, 0, 0]);
    assert_eq!(len, 16);
    let (r, out) = recv_finish(Ok(5), false, ep, 8);
    assert_eq!(r, Ok(5));
    assert_eq!(out, Some((vec![2, 0, 0x12, 0x34, 1, 2, 3, 4], 16)));
    assert_eq!(recv_finish(Ok(5), true, ep, 8), (Ok(5), None));
    assert_eq!(recv_finish(Err(SysError::ENOTCONN), false, ep, 8), (Err(SysError::ENOTCONN), None));
    let unspecified = Endpoint::Ip(IpEndpoint { addr: IpAddress::Unspecified, port: 0 });
    assert_eq!(recv_finish(Ok(5), false, unspecified, 8), (Err(SysError::EINVAL), None));
}

fn memory(contents: &[(usize, u8)]) -> UserMemory {
    let mut bytes = BTreeMap::new();
    for (a, b) in contents {
        bytes.insert(*a, (*b, true));
    }
    UserMemory { limit: 0x8000, bytes }
}

#[test]
fn user_strings() {
    let mut cells: Vec<(usize, u8)> = Vec::new();
    for (i, b) in b"ls\0-l\0".iter().enumerate() {
        cells.push((0x2000 + i, *b));
    }
    for (i, b) in 0x2000u64.to_le_bytes().iter().chain(0x2003u64.to_le_bytes().iter()).chain(0u64.to_le_bytes().iter()).enumerate() {
        cells.push((0x3000 + i, *b));
    }
    cells.push((0x4000, b'x'));
    cells.push((0x5000, 0xff));
    cells.push((0x5001, 0));
    let mem = memory(&cells);
    let p: UserPtr<u8, In> = UserPtr::from_addr(0x2000);
    assert_eq!(p.read_cstring(&mem), Ok(String::from("ls")));
    let unterminated: UserPtr<u8, In> = UserPtr::from_addr(0x4000);
    assert_eq!(unterminated.read_cstring(&mem), Err(SysError::EFAULT));
    let invalid: UserPtr<u8, In> = UserPtr::from_addr(0x5000);
    assert_eq!(invalid.read_cstring(&mem), Err(SysError::EINVAL));
    assert_eq!(check_and_clone_cstr(&mem, 0), Ok(String::new()));
    assert_eq!(check_and_clone_cstr(&mem, 0x2003), Ok(String::from("-l")));
    assert_eq!(check_and_clone_cstr(&mem, 0x5000), Err(SysError::EFAULT));
    assert_eq!(check_and_clone_cstr(&mem, 0x4000), Err(SysError::EFAULT));
    assert_eq!(check_and_clone_cstr_array(&mem, 0x3000), Ok(vec![String::from("ls"), String::from("-l")]));
    assert_eq!(check_and_clone_cstr_array(&mem, 0x3008), Ok(vec![String::from("-l")]));
    assert_eq!(check_and_clone_cstr_array(&mem, 0), Ok(vec![]));
    assert_eq!(check_and_clone_cstr_array(&mem, 0x4000), Err(SysError::EFAULT));
}

#[test]
fn user_array_writes_stop_at_fault() {
    let mut bytes = BTreeMap::new();
    for a in 0x1000usize..0x1008 {
        bytes.insert(a, (0u8, a < 0x1004));
    }
    let mut mem = UserMemory { limit: 0x8000, bytes };
    let mut p: UserPtr<u8, Out> = UserPtr::from_addr(0x1002);
    assert_eq!(p.write_array(&mut mem, &[1, 2, 3, 4]), Err(SysError::EFAULT));
    assert_eq!(mem.bytes[&0x1002].0, 1);
    assert_eq!(mem.bytes[&0x1003].0, 2);
    assert_eq!(mem.bytes[&0x1004].0, 0);
    let mut q: UserPtr<u8, Out> = UserPtr::from_addr(0x1000);
    assert_eq!(q.write_cstring(&mut mem, "hi"), Ok(()));
    assert_eq!((mem.bytes[&0x1000].0, mem.bytes[&0x1001].0, mem.bytes[&0x1002].0), (b'h', b'i', 0));
    let mut r: UserPtr<u8, Out> = UserPtr::from_addr(0x1002);
    assert_eq!(r.write_cstring(&mut mem, "ab"), Err(SysError::EFAULT));
    assert_eq!((mem.bytes[&0x1002].0, mem.bytes[&0x1003].0), (b'a', b'b'));
    assert_eq!(p.write_array(&mut mem, &[]), Ok(()));
}

#[test]
fn ucore_open_descriptors() {
    let mut m = BTreeMap::new();
    m.insert(3, 30);
    m.insert(5, 50);
    let files = UcoreFiles { files: m };
    let p = ucore_open_plan(&files, b"stdin:", 0);
    assert_eq!(p, OpenPlan { fd: 0, source: OpenSource::Stdin, readable: true, writable: false });
    let p = ucore_open_plan(&files, b"stdout:", 1);
    assert_eq!(p, OpenPlan { fd: 1, source: OpenSource::Stdout, readable: false, writable: true });
    let p = ucore_open_plan(&files, b"/bin/sh", 2);
    assert_eq!(p, OpenPlan { fd: 4, source: OpenSource::Lookup, readable: true, writable: true });
}

#[test]
fn getdents_fills_while_records_fit() {
    let names = vec![b"a".to_vec(), b"bb".to_vec(), b"ccc".to_vec()];
    assert!(matches!(getdents64(false, vec![0; 64], 4, &names), Err(SysError::ENOTDIR)));
    let (w, read) = match getdents64(true, vec![0xee; 64], 4, &names) {
        Ok(r) => r,
        Err(e) => panic!("{:?}", e),
    };
    assert_eq!(w.written_size, 48);
    assert_eq!(w.rest_size, 16);
    assert_eq!(read, 3);
    assert_eq!(&w.buf[0..16], &[0u8; 16]);
    assert_eq!(&w.buf[16..21], &[24, 0, 4, b'a', 0]);
    assert_eq!(&w.buf[21..24], &[0xee, 0xee, 0xee]);
    assert_eq!(&w.buf[40..46], &[24, 0, 4, b'b', b'b', 0]);
    assert_eq!(&w.buf[48..], &[0xee; 16]);
    let (w, read) = match getdents64(true, vec![0; 200], 8, &names) {
        Ok(r) => r,
        Err(e) => panic!("{:?}", e),
    };
    assert_eq!((w.written_size, read), (72, 3));
}

#[test]
fn clearing_undoes_setting() {
    let mut bus = EventBus::new();
    bus.set(Event(Event::READABLE));
    let before = bus.event.0;
    bus.set(Event(Event::ERROR | Event::WRITABLE));
    bus.clear(Event(Event::ERROR | Event::WRITABLE));
    assert_eq!(bus.event.0, before);

    let mut set = Sigset::empty();
    set.add(Signal::SIGINT);
    let before = set;
    set.add(Signal::SIGUSR1);
    set.remove(Signal::SIGUSR1);
    assert_eq!(set, before);
    assert!(set.contains(Signal::SIGINT));
}
