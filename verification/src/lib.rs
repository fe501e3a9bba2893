//! Verified core logic of the rCore teaching kernel: console escape handling,
//! synchronization state machines, signal bookkeeping, system call decoding
//! and the byte-level formats that the kernel exchanges with user space.

pub mod lkm;
pub mod logging;
pub mod memory;
pub mod net;
pub mod process;
pub mod rvm;
pub mod signal;
pub mod sync;
pub mod syscall;
pub mod trap;
pub mod ucore;
pub mod util;
