//! Processes and threads: the initial stack of a program, futexes, process
//! ids and file descriptor tables, and the bookkeeping of threads.

pub mod abi;
pub mod elf;
pub mod futex;
pub mod proc;
pub mod thread;
