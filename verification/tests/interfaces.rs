use std::collections::BTreeMap;

use rcore::rvm::{
    decode_command, into_fs_error, rvm_dealloc_frames, rvm_phys_to_virt, rvm_riscv_check_hypervisor_extension,
    rvm_x86_is_host_serial_interrupt, rvm_x86_is_host_timer_interrupt, Guest, RvmCommand, RvmError, RvmINode,
    MAX_GUEST_NUM, RVM_GUEST_CREATE, RVM_VCPU_INTERRUPT, VCPU_IO, VCPU_STATE,
};
use rcore::signal::action::{Siginfo, SignalAction, SignalStack, Sigset, SA_ONSTACK, SA_RESTORER, SIG_IGN, SS_AUTODISARM, SS_DISABLE, SS_ONSTACK};
use rcore::signal::delivery::{ret_code, FrameLayout, ProcessSignals, SignalOutcome, ThreadSignals, UserRegs};
use rcore::process::proc::{FdTable, FileLike};
use rcore::signal::Signal;
use rcore::syscall::dispatch::{dispatch, syscall_return_value, Dispatch, SyscallRequest};
use rcore::syscall::fs::FsError;
use rcore::syscall::SysError;
use rcore::ucore::{
    check_dir_entry, return_value, sys_close, sys_dup, sys_exit, sys_fork, sys_getpid, sys_kill, sys_lab6_set_priority,
    sys_sleep, sys_yield, syscall, DirEntry, FileInfo, ManagerOp, Stat, UcoreCall, UcoreFileType, UcoreFiles, VfsFlags,
    SysError as UcoreError, STAT_MODE_DIR,
};

#[test]
fn ucore_numbers_decode() {
    let args = [3, 4, 5, 6, 7, 8];
    assert_eq!(syscall(100, args), UcoreCall::Open { path: 3, flags: 4 });
    assert_eq!(syscall(103, args), UcoreCall::Write { fd: 3, base: 4, len: 5 });
    assert_eq!(syscall(30, [0x141, 0, 0, 0, 0, 0]), UcoreCall::Putc { c: 0x41 });
    assert_eq!(syscall(1, [usize::MAX, 0, 0, 0, 0, 0]), UcoreCall::Exit { code: -1 });
    assert_eq!(syscall(18, args), UcoreCall::GetPid);
    assert_eq!(syscall(255, args), UcoreCall::SetPriority { priority: 3 });
    assert_eq!(syscall(999, args), UcoreCall::Unknown);
    assert_eq!(return_value(Ok(7)), 7);
    assert_eq!(return_value(Err(UcoreError::InvalidFile)), -1);
}

#[test]
fn ucore_files_close_and_dup() {
    let mut m = BTreeMap::new();
    m.insert(0, 100);
    m.insert(1, 101);
    let mut files = UcoreFiles { files: m };
    assert_eq!(sys_dup(&mut files, 0, 5), Ok(0));
    assert_eq!(files.files.get(&5), Some(&100));
    assert_eq!(sys_dup(&mut files, 0, 1), Err(UcoreError::InvalidFile));
    assert_eq!(sys_dup(&mut files, 9, 6), Err(UcoreError::InvalidFile));
    assert_eq!(sys_close(&mut files, 1), Ok(0));
    assert_eq!(sys_close(&mut files, 1), Err(UcoreError::InvalidFile));
    assert_eq!(files.files.len(), 2);
}

#[test]
fn ucore_process_calls() {
    assert_eq!(sys_fork(12), Ok(12));
    assert_eq!(sys_yield(), (Ok(0), ManagerOp::Yield));
    assert_eq!(sys_getpid(4), Ok(4));
    let (r, ops) = sys_kill(4, 4);
    assert_eq!(r, Ok(0));
    assert_eq!(ops, vec![ManagerOp::Exit { pid: 4, code: 0x100 }, ManagerOp::Yield]);
    let (_, ops) = sys_kill(4, 5);
    assert_eq!(ops, vec![ManagerOp::Exit { pid: 5, code: 0x100 }]);
    assert_eq!(sys_exit(3, 2), vec![ManagerOp::Exit { pid: 3, code: 2 }, ManagerOp::Yield]);
    assert_eq!(sys_sleep(5), (Ok(0), ManagerOp::Sleep { msec: 50 }));
    assert_eq!(sys_lab6_set_priority(2, 0x1ff), (Ok(0), ManagerOp::SetPriority { pid: 2, priority: 0xff }));
}

#[test]
fn ucore_open_flags() {
    assert_eq!(VfsFlags::from_ucore_flags(0).0, VfsFlags::READABLE);
    assert_eq!(VfsFlags::from_ucore_flags(1).0, VfsFlags::WRITABLE);
    assert_eq!(VfsFlags::from_ucore_flags(2).0, VfsFlags::READABLE | VfsFlags::WRITABLE);
    let f = VfsFlags::from_ucore_flags(2 | 4);
    assert!(f.contains(VfsFlags::CREATE));
    assert!(f.contains(VfsFlags::READABLE));
}

#[test]
fn ucore_dir_entries() {
    let mut d = DirEntry { offset: 256, name: [0xaa; 256] };
    assert!(d.check());
    assert_eq!(d.entry_id(), 1);
    d.set_name(b"foo");
    assert_eq!(d.offset, 512);
    assert_eq!(&d.name[..5], &[b'f', b'o', b'o', 0, 0xaa]);
    let dir = FileInfo { type_: UcoreFileType::Dir, nlinks: 2, blocks: 1, size: 3 };
    assert_eq!(check_dir_entry(&d, &dir), Ok(2));
    let file = FileInfo { type_: UcoreFileType::File, ..dir };
    assert_eq!(check_dir_entry(&d, &file), Err(UcoreError::InvalidArgument));
    let odd = DirEntry { offset: 100, name: [0; 256] };
    assert_eq!(check_dir_entry(&odd, &dir), Err(UcoreError::InvalidArgument));
    let past = DirEntry { offset: 768, name: [0; 256] };
    assert_eq!(check_dir_entry(&past, &dir), Err(UcoreError::InvalidArgument));
    let s = Stat::from_info(FileInfo { size: (1usize << 32) + 5, ..dir });
    assert_eq!(s.mode, STAT_MODE_DIR);
    assert_eq!(s.size, 5);
    assert_eq!(s.nlinks, 2);
}

#[test]
fn rvm_commands_and_errors() {
    assert_eq!(decode_command(RVM_GUEST_CREATE), Ok(RvmCommand::GuestCreate));
    assert_eq!(decode_command(RVM_VCPU_INTERRUPT), Ok(RvmCommand::VcpuInterrupt));
    assert_eq!(decode_command(0xAE00), Err(FsError::InvalidParam));
    assert_eq!(into_fs_error(RvmError::NoMemory), FsError::NoDeviceSpace);
    assert_eq!(into_fs_error(RvmError::Internal), FsError::DeviceError);
    assert_eq!(into_fs_error(RvmError::NotFound), FsError::InvalidParam);
}

#[test]
fn rvm_guests_and_vcpus() {
    let mut dev = RvmINode::new();
    assert_eq!(dev.guest_create_id(false), Err(RvmError::NotSupported));
    assert_eq!(dev.guest_create_id(true), Ok(1));
    dev.add_guest(1000, 1);
    assert_eq!(dev.guest(1), Ok(1000));
    assert_eq!(dev.guest(2), Err(RvmError::InvalidParam));
    assert_eq!(dev.get_free_vmid(), 2);
    assert_eq!(dev.vcpu_create_id(2), Err(RvmError::InvalidParam));
    assert_eq!(dev.vcpu_create_id(1), Ok(1));
    dev.add_vcpu(1, 1);
    assert_eq!(dev.vcpu(1), Ok(1));
    assert_eq!(dev.get_free_vcpu_id(), 2);
    assert_eq!(dev.vcpu_read_state_check(1, VCPU_STATE, 64, 64), Ok(()));
    assert_eq!(dev.vcpu_read_state_check(1, VCPU_IO, 64, 64), Err(RvmError::InvalidParam));
    assert_eq!(dev.vcpu_read_state_check(2, VCPU_STATE, 64, 64), Err(RvmError::InvalidParam));
    assert_eq!(dev.vcpu_write_state_check(1, VCPU_IO, 8, 64, 8), Ok(VCPU_IO));
    assert_eq!(dev.vcpu_write_state_check(1, VCPU_STATE, 8, 64, 8), Err(RvmError::InvalidParam));
    assert_eq!(dev.vcpu_write_state_check(1, 7, 8, 64, 8), Err(RvmError::InvalidParam));
    for id in 2..MAX_GUEST_NUM {
        dev.add_guest(id, id);
    }
    assert_eq!(dev.guest_create_id(true), Err(RvmError::NoMemory));
    assert_eq!(Guest::new(7, Ok(9)), Ok(Guest { gpm: 7, inner: 9 }));
    assert_eq!(Guest::new(7, Err(RvmError::NoMemory)), Err(RvmError::NoMemory));
}

#[test]
fn rvm_memory_helpers() {
    assert_eq!(rvm_phys_to_virt(0x2000, 0xffff_0000), 0xffff_2000);
    assert_eq!(rvm_dealloc_frames(0x8000, 3), vec![0x8000, 0x9000, 0xa000]);
    assert!(rvm_dealloc_frames(0x8000, 0).is_empty());
    assert!(!rvm_x86_is_host_timer_interrupt(32));
    assert!(!rvm_x86_is_host_serial_interrupt(36));
    assert!(rvm_riscv_check_hypervisor_extension(true));
    assert!(!rvm_riscv_check_hypervisor_extension(false));
}

#[test]
fn dispatch_table_entries() {
    let args = [1, 2, 3, 4, 5, 6];
    assert!(matches!(dispatch(39, &args), Dispatch::Handle(SyscallRequest::Getpid)));
    assert!(matches!(dispatch(0, &args), Dispatch::Handle(SyscallRequest::Read { fd: 1, base: 2, len: 3 })));
    assert!(matches!(dispatch(324, &args), Dispatch::Fixed(Ok(0))));
    assert!(matches!(dispatch(100_000, &args), Dispatch::Unknown));
    assert!(matches!(dispatch(28, &args), Dispatch::Fixed(Ok(0))));
    assert_eq!(syscall_return_value(Ok(5)), 5);
    assert_eq!(syscall_return_value(Err(SysError::EINVAL)), -22);
    assert_eq!(syscall_return_value(Err(SysError::ENOENT)), -2);
}

fn process_with(action_for: &[(usize, SignalAction)]) -> ProcessSignals {
    let mut dispositions = vec![SignalAction::default(); 65];
    for (n, a) in action_for {
        dispositions[*n] = *a;
    }
    ProcessSignals { sig_queue: Vec::new(), pending_sigset: Sigset::empty(), dispositions }
}

fn info(signo: i32) -> Siginfo {
    Siginfo { signo, errno: 0, code: 0 }
}

fn layout() -> FrameLayout {
    FrameLayout { size: 0x400, info_offset: 0x10, ucontext_offset: 0x100, ret_code_offset: 0x3f0 }
}

#[test]
fn default_sigint_terminates() {
    let mut p = process_with(&[]);
    assert!(p.send_signal(-1, info(2)));
    assert!(!p.send_signal(-1, info(2)));
    assert_eq!(p.sig_queue.len(), 1);
    let mut t = ThreadSignals { tid: 3, sig_mask: Sigset::empty(), alternate_stack: SignalStack::default() };
    assert!(p.has_signal_to_handle(&t));
    let mut regs = UserRegs { sp: 0x7000, ip: 0x400000, arg0: 0, arg1: 0, arg2: 0 };
    let o = p.handle_signal_step(&mut t, &mut regs, &layout());
    assert_eq!(o, SignalOutcome::Terminate { signal: Signal::SIGINT, exit_code: 130 });
    assert!(p.sig_queue.is_empty());
    assert!(!p.pending_sigset.contains(Signal::SIGINT));
    assert_eq!(p.handle_signal_step(&mut t, &mut regs, &layout()), SignalOutcome::Nothing);
}

#[test]
fn masked_and_ignored_signals() {
    let ignore = SignalAction { handler: SIG_IGN, ..SignalAction::default() };
    let mut p = process_with(&[(10, ignore)]);
    p.send_signal(7, info(10));
    p.send_signal(-1, info(12));
    let mut mask = Sigset::empty();
    mask.add(Signal::SIGUSR2);
    let mut other = ThreadSignals { tid: 8, sig_mask: mask, alternate_stack: SignalStack::default() };
    assert!(!p.has_signal_to_handle(&other));
    let mut regs = UserRegs { sp: 0x7000, ip: 0, arg0: 0, arg1: 0, arg2: 0 };
    assert_eq!(p.handle_signal_step(&mut other, &mut regs, &layout()), SignalOutcome::Nothing);
    let mut t = ThreadSignals { tid: 7, sig_mask: Sigset::empty(), alternate_stack: SignalStack::default() };
    assert_eq!(p.handle_signal_step(&mut t, &mut regs, &layout()), SignalOutcome::Ignored { signal: Signal::SIGUSR1 });
    assert_eq!(p.handle_signal_step(&mut t, &mut regs, &layout()), SignalOutcome::Ignored { signal: Signal::SIGUSR2 });
}

#[test]
fn handler_gets_frame_on_alternate_stack() {
    let handler = SignalAction { handler: 0x401000, flags: SA_ONSTACK, restorer: 0, mask: Sigset::empty() };
    let mut p = process_with(&[(10, handler)]);
    p.send_signal(-1, info(10));
    let stack = SignalStack { sp: 0x10000, flags: SS_AUTODISARM, size: 0x2000 };
    let mut t = ThreadSignals { tid: 1, sig_mask: Sigset::empty(), alternate_stack: stack };
    let mut regs = UserRegs { sp: 0x7000, ip: 0x400000, arg0: 0, arg1: 0, arg2: 0 };
    let before = regs;
    match p.handle_signal_step(&mut t, &mut regs, &layout()) {
        SignalOutcome::Handler { signal, frame } => {
            assert_eq!(signal, Signal::SIGUSR1);
            assert_eq!(frame.addr, 0x11c00);
            assert_eq!(frame.ret_code_addr, 0x11ff0);
            assert!(frame.writes_trampoline);
            assert_eq!(frame.saved_regs, before);
            assert_eq!(frame.saved_stack, stack);
        },
        other => panic!("{:?}", other),
    }
    assert_eq!(regs, UserRegs { sp: 0x11c00, ip: 0x401000, arg0: 10, arg1: 0x11c10, arg2: 0x11d00 });
    assert_eq!(t.alternate_stack.flags, SS_AUTODISARM | SS_ONSTACK | SS_DISABLE);
    assert_eq!(ret_code(), [0xb8, 15, 0, 0, 0, 0x0f, 0x05]);
}

#[test]
fn handler_with_restorer_on_thread_stack() {
    let handler = SignalAction { handler: 0x401000, flags: SA_RESTORER, restorer: 0x402000, mask: Sigset::empty() };
    let mut p = process_with(&[(14, handler)]);
    p.send_signal(-1, info(14));
    let mut t = ThreadSignals { tid: 1, sig_mask: Sigset::empty(), alternate_stack: SignalStack::default() };
    let mut regs = UserRegs { sp: 0x7000, ip: 0x400000, arg0: 0, arg1: 0, arg2: 0 };
    match p.handle_signal_step(&mut t, &mut regs, &layout()) {
        SignalOutcome::Handler { frame, .. } => {
            assert_eq!(frame.addr, 0x6c00);
            assert_eq!(frame.ret_code_addr, 0x402000);
            assert!(!frame.writes_trampoline);
        },
        other => panic!("{:?}", other),
    }
    assert_eq!(regs.sp, 0x6c00);
    assert_eq!(t.alternate_stack, SignalStack::default());
    assert_eq!(t.alternate_stack.flags, SS_DISABLE);
}

#[test]
fn handle_signal_drains_queue_then_exits() {
    let ignore = SignalAction { handler: SIG_IGN, ..SignalAction::default() };
    let handler = SignalAction { handler: 0x401000, flags: SA_RESTORER, restorer: 0x402000, mask: Sigset::empty() };
    let mut p = process_with(&[(10, ignore), (12, handler)]);
    p.send_signal(-1, info(10));
    p.send_signal(9, info(17));
    p.send_signal(-1, info(12));
    p.send_signal(-1, info(1));
    p.send_signal(-1, info(15));
    let mut t = ThreadSignals { tid: 3, sig_mask: Sigset::empty(), alternate_stack: SignalStack::default() };
    let mut regs = UserRegs { sp: 0x7000, ip: 0x400000, arg0: 0, arg1: 0, arg2: 0 };
    let mut files = FdTable::new();
    files.insert(0, FileLike::Socket { socket: 1 });
    let mut threads = vec![3, 4];
    let mut codes = BTreeMap::new();
    let (exit, frames) = p.handle_signal(&mut t, &mut regs, &layout(), &mut files, &mut threads, &mut codes, true, 6);
    assert_eq!(exit, Some(129));
    assert_eq!(frames.len(), 1);
    assert_eq!(frames[0].addr, 0x6c00);
    assert_eq!(regs.ip, 0x401000);
    assert_eq!(p.sig_queue.len(), 2);
    assert_eq!(p.sig_queue[0].info.signo, 17);
    assert_eq!(p.sig_queue[1].info.signo, 15);
    assert!(p.pending_sigset.contains(Signal::SIGTERM));
    assert!(!p.pending_sigset.contains(Signal::SIGHUP));
    assert_eq!(files.len(), 0);
    assert!(threads.is_empty());
    assert_eq!(codes.get(&6), Some(&129));
}

#[test]
fn handle_signal_without_exit_leaves_the_process() {
    let mut p = process_with(&[]);
    p.send_signal(-1, info(10));
    p.send_signal(5, info(2));
    let mut t = ThreadSignals { tid: 3, sig_mask: Sigset::empty(), alternate_stack: SignalStack::default() };
    let mut regs = UserRegs { sp: 0x7000, ip: 0x400000, arg0: 0, arg1: 0, arg2: 0 };
    let mut files = FdTable::new();
    files.insert(0, FileLike::Socket { socket: 1 });
    let mut threads = vec![3];
    let mut codes = BTreeMap::new();
    let (exit, frames) = p.handle_signal(&mut t, &mut regs, &layout(), &mut files, &mut threads, &mut codes, true, 6);
    assert_eq!(exit, None);
    assert!(frames.is_empty());
    assert_eq!(p.sig_queue.len(), 1);
    assert_eq!(files.len(), 1);
    assert_eq!(threads, vec![3]);
    assert!(codes.is_empty());
}
