use rcore::process::abi::ProcInitInfo;
use rcore::process::elf::{make_memory_set, ElfSummary, ProgramHeaderInfo, PF_R, PF_W, PF_X, PT_LOAD};
use rcore::process::proc::{FdTable, FileLike, Pid};
use rcore::process::thread::{
    add_user_shell, alloc_tid, clone_context, default_dispositions, fork_context, init, initial_open_options,
    new_user_context, trap_action, yield_now, OpenDescription, Thread, ThreadContext, TrapAction,
};
use rcore::signal::action::{SignalStack, SIG_DFL};
use rcore::signal::Signal;
use rcore::sync::event_bus::Poll;
use rcore::syscall::fs::OpenOptions;
use rcore::syscall::SysError;
use std::collections::BTreeMap;

#[test]
fn pids() {
    let p = Pid::new();
    assert_eq!(p.get(), 0);
    assert!(!p.is_init());
    assert!(Pid(1).is_init());
    assert_eq!(Pid::INIT, 1);
}

#[test]
fn fd_table_lowest_free() {
    let mut t = FdTable::new();
    let f = FileLike::File { description: 10, cloexec: false };
    assert_eq!(t.add_file(f), 0);
    assert_eq!(t.add_file(f), 1);
    assert_eq!(t.add_file(FileLike::Socket { socket: 4 }), 2);
    assert_eq!(t.close(1), Ok(0));
    assert_eq!(t.close(1), Err(SysError::EBADF));
    assert_eq!(t.get_free_fd(), 1);
    assert_eq!(t.get_free_fd_from(2), 3);
    assert_eq!(t.add_file(f), 1);
    assert_eq!(t.len(), 3);
    assert_eq!(t.get_socket(2), Ok(4));
    assert_eq!(t.get_socket(0), Err(SysError::EBADF));
    assert_eq!(t.get_file(2), Err(SysError::EBADF));
    assert_eq!(t.get_file(0), Ok(10));
    assert_eq!(t.fds(), vec![0, 1, 2]);
    t.insert(usize::MAX - 2, f);
    assert_eq!(t.get_free_fd_from(usize::MAX - 2), usize::MAX - 1);
}

#[test]
fn close_after_add_restores_table() {
    let mut t = FdTable::new();
    t.insert(0, FileLike::File { description: 1, cloexec: false });
    t.insert(2, FileLike::File { description: 2, cloexec: false });
    let before = t.fds();
    let fd = t.add_file(FileLike::Socket { socket: 3 });
    assert_eq!(fd, 1);
    assert_eq!(t.close(fd), Ok(0));
    assert_eq!(t.fds(), before);
    assert_eq!(t.get_file(2), Ok(2));
}

#[test]
fn dup2_and_cloexec() {
    let mut t = FdTable::new();
    t.insert(0, FileLike::File { description: 1, cloexec: true });
    t.insert(1, FileLike::File { description: 2, cloexec: false });
    assert_eq!(t.dup2(0, 5), Ok(5));
    assert_eq!(t.get_file_like(5), Ok(FileLike::File { description: 1, cloexec: true }));
    assert_eq!(t.dup2(7, 5), Err(SysError::EBADF));
    assert!(!t.contains(5));
    assert_eq!(t.dup2(1, 1), Err(SysError::EBADF));
    assert!(!t.contains(1));
    t.insert(3, FileLike::Socket { socket: 9 });
    t.insert(4, FileLike::File { description: 4, cloexec: false });
    t.close_on_exec();
    assert_eq!(t.fds(), vec![3, 4]);
    assert_eq!(t.remove(4), Some(FileLike::File { description: 4, cloexec: false }));
    assert_eq!(t.remove(4), None);
}

#[test]
fn initial_stack() {
    let info = ProcInitInfo { args: vec![String::from("a")], envs: vec![], auxv: vec![] };
    let (sp, writes) = info.push_at(0x1000);
    assert_eq!(sp, 0xfc8);
    assert_eq!(sp % 8, 0);
    assert_eq!(writes.len(), 10);
    assert_eq!(writes[0].addr, 0xfff);
    assert_eq!(writes[0].bytes, vec![0]);
    assert_eq!(writes[1].addr, 0xffe);
    assert_eq!(writes[1].bytes, b"a".to_vec());
    let last = &writes[writes.len() - 1];
    assert_eq!(last.addr, 0xfc8);
    assert_eq!(last.bytes, 1u64.to_le_bytes().to_vec());
}

#[test]
fn elf_areas_and_break() {
    let elf = ElfSummary {
        elf_type: 2,
        machine: 0x3e,
        entry_point: 0x401000,
        ph_offset: 64,
        ph_entry_size: 56,
        ph_count: 2,
        program_headers: vec![
            ProgramHeaderInfo { ph_type: PT_LOAD, flags: PF_R | PF_X, offset: 0, virtual_addr: 0x400000, file_size: 0x1000, mem_size: 0x1000 },
            ProgramHeaderInfo { ph_type: PT_LOAD, flags: PF_R | PF_W, offset: 0x1000, virtual_addr: 0x601000, file_size: 0x100, mem_size: 0x2345 },
        ],
    };
    let (areas, brk) = make_memory_set(&elf);
    assert_eq!(areas.len(), 2);
    assert_eq!(areas[0].start, 0x400000);
    assert_eq!(areas[0].end, 0x401000);
    assert!(areas[0].attr.execute && areas[0].attr.readonly);
    assert_eq!(areas[1].file_end, 0x1100);
    assert!(!areas[1].attr.readonly && !areas[1].attr.execute);
    assert_eq!(brk, 0x604000);
}

#[test]
fn thread_contexts() {
    let c = new_user_context(0x400000, 0x7fff0000);
    assert_eq!(c, ThreadContext { ip: 0x400000, sp: 0x7fff0000, syscall_ret: 0, tls: 0, rflags: 0x3202 });
    let running = ThreadContext { ip: 1, sp: 2, syscall_ret: 57, tls: 3, rflags: 0x246 };
    assert_eq!(fork_context(&running), ThreadContext { syscall_ret: 0, ..running });
    assert_eq!(clone_context(&running, 9, 8), ThreadContext { ip: 1, sp: 9, syscall_ret: 0, tls: 8, rflags: 0x246 });
    assert_eq!(initial_open_options(0), OpenOptions { read: true, write: false, append: false, nonblock: false });
    assert_eq!(initial_open_options(2), OpenOptions { read: false, write: true, append: false, nonblock: false });
    let mut threads = BTreeMap::new();
    threads.insert(1usize, ());
    threads.insert(2usize, ());
    assert_eq!(alloc_tid(&threads), 3);
    threads.remove(&1);
    assert_eq!(alloc_tid(&threads), 1);
}

#[test]
fn trap_kinds() {
    assert_eq!(trap_action(0x100), TrapAction::Syscall);
    assert_eq!(trap_action(0x20), TrapAction::Interrupt { timer: true, serial: false });
    assert_eq!(trap_action(0x24), TrapAction::Interrupt { timer: false, serial: true });
    assert_eq!(trap_action(0x3f), TrapAction::Interrupt { timer: false, serial: false });
    assert_eq!(trap_action(0xe), TrapAction::PageFault);
    assert_eq!(trap_action(0x40), TrapAction::Ignore);
}

#[test]
fn yield_once() {
    let mut f = yield_now();
    assert_eq!(f.poll(3), (Poll::Pending, Some(3)));
    assert_eq!(f.poll(3), (Poll::Ready(()), None));
}

#[test]
fn init_shell() {
    let c = add_user_shell();
    assert_eq!(c.path, "/busybox");
    assert_eq!(c.args, vec![String::from("busybox"), String::from("ash")]);
    assert_eq!(c.envs, vec![String::from("PATH=/usr/sbin:/usr/bin:/sbin:/bin:/usr/x86_64-alpine-linux-musl/bin")]);
    assert_eq!(init().path, c.path);
}

#[test]
fn new_user_builds_the_process() {
    let mut threads: BTreeMap<usize, Thread> = BTreeMap::new();
    let mut descriptions: Vec<OpenDescription> = Vec::new();
    for _ in 0..20 {
        descriptions.push(OpenDescription { path: String::from("/x"), options: initial_open_options(0) });
    }
    let (t, p) = Thread::new_user(&mut threads, &mut descriptions, "/bin/sh", 0x401000, 0x7fff_0000);
    assert_eq!(descriptions.len(), 23);
    assert!(descriptions[20..].iter().all(|d| d.path == "/dev/tty"));
    assert_eq!(descriptions[20].options, OpenOptions { read: true, write: false, append: false, nonblock: false });
    assert_eq!(descriptions[21].options, OpenOptions { read: false, write: true, append: false, nonblock: false });
    assert_eq!(descriptions[22].options, OpenOptions { read: false, write: true, append: false, nonblock: false });
    assert_eq!(t.tid, 1);
    assert_eq!(p.pid, 1);
    assert_eq!(threads.get(&1), Some(&t));
    assert_eq!(t.context, ThreadContext { ip: 0x401000, sp: 0x7fff_0000, syscall_ret: 0, tls: 0, rflags: 0x3202 });
    assert_eq!(t.clear_child_tid, 0);
    assert!(!t.sig_mask.contains(Signal::SIGINT));
    assert_eq!(t.alternate_stack, SignalStack::default());
    assert_eq!(p.files.fds(), vec![0, 1, 2]);
    assert_eq!(p.files.get_file(0), Ok(20));
    assert_eq!(p.files.get_file(1), Ok(21));
    assert_eq!(p.files.get_file(2), Ok(22));
    assert_eq!(p.cwd, "/");
    assert_eq!(p.exec_path, "/bin/sh");
    assert_eq!((p.pgid, p.parent, p.parent_alive), (0, 0, false));
    assert!(p.children.is_empty() && p.threads.is_empty() && p.futexes.is_empty() && p.child_exit_code.is_empty());
    assert!(p.signals.sig_queue.is_empty());
    assert_eq!(p.signals.dispositions.len(), 65);
    assert!(p.signals.dispositions.iter().all(|a| a.handler == SIG_DFL && a.flags == 0));
    assert_eq!(default_dispositions().len(), 65);
    let (t2, p2) = Thread::new_user(&mut threads, &mut descriptions, "/bin/ls", 0x1000, 0x2000);
    assert_eq!((t2.tid, p2.pid), (2, 2));
    assert_eq!(p2.files.get_file(0), Ok(23));
}

#[test]
fn fork_and_clone_copy_the_process() {
    let mut threads: BTreeMap<usize, Thread> = BTreeMap::new();
    let mut descriptions: Vec<OpenDescription> = Vec::new();
    let (t, mut p) = Thread::new_user(&mut threads, &mut descriptions, "/bin/sh", 0x401000, 0x7fff_0000);
    p.cwd = String::from("/home");
    p.pgid = 4;
    p.files.insert(5, FileLike::Socket { socket: 9 });
    let tf = ThreadContext { ip: 0x402000, sp: 0x7ffe_0000, syscall_ret: 57, tls: 0x9000, rflags: 0x3202 };
    let (ct, c) = t.fork(&mut p, &mut threads, &tf);
    assert_eq!(ct.tid, 2);
    assert_eq!(ct.context, ThreadContext { syscall_ret: 0, ..tf });
    assert_eq!(c.pid, 2);
    assert_eq!(c.parent, 1);
    assert!(c.parent_alive);
    assert_eq!(c.pgid, 4);
    assert_eq!(c.cwd, "/home");
    assert_eq!(c.exec_path, "/bin/sh");
    assert_eq!(c.files.fds(), vec![0, 1, 2, 5]);
    assert_eq!(c.files.get_socket(5), Ok(9));
    assert_eq!(c.threads, vec![2]);
    assert!(c.children.is_empty());
    assert_eq!(p.children, vec![2]);
    let nt = t.new_clone(&mut p, &mut threads, &tf, 0x5000, 0x6000, 0x7000);
    assert_eq!(nt.tid, 3);
    assert_eq!(nt.context, ThreadContext { syscall_ret: 0, sp: 0x5000, tls: 0x6000, ..tf });
    assert_eq!(nt.clear_child_tid, 0x7000);
    assert_eq!(p.threads, vec![3]);
    assert_eq!(threads.len(), 3);
}

#[test]
fn futexes_and_exit_of_a_process() {
    let mut threads: BTreeMap<usize, Thread> = BTreeMap::new();
    let mut descriptions: Vec<OpenDescription> = Vec::new();
    let (_, mut p) = Thread::new_user(&mut threads, &mut descriptions, "/bin/sh", 0x401000, 0x7fff_0000);
    assert_eq!(p.get_futex(0x1000, 7), 7);
    assert_eq!(p.get_futex(0x1000, 8), 7);
    assert_eq!(p.get_futex(0x2000, 8), 8);
    assert_eq!(p.futexes.len(), 2);
    p.threads.push(1);
    p.parent = 9;
    p.parent_alive = true;
    assert!(!p.exited());
    let mut codes = BTreeMap::new();
    assert!(p.exit(3, &mut codes));
    assert!(p.exited());
    assert_eq!(p.files.len(), 0);
    assert_eq!(codes.get(&1), Some(&3));
}
