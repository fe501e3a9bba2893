# rcore

The logic of a small Unix-like teaching kernel, written in Verus and proved
against its contracts: the decoding and checking of system calls, file
descriptor tables, signal delivery, the netlink route protocol, socket
addresses and socket state, ELF loading plans, futexes, semaphores, event
buses, channels, the timer queue, the console's escape sequences, the log,
and the hypervisor device's bookkeeping.

Hardware, the network stack, the file system and the executor are outside
the library. Where a kernel path alternates between such outside work and
decisions, the library holds the decisions as functions from what was
observed to what to do next, for a caller that performs the work; the
host glue in `app/` does not run those loops.

Layout:

- `src/` — the verified library.
  - `syscall/` — one module per family of calls; `dispatch` decodes a call
    number and its arguments.
  - `process/`, `signal/`, `sync/`, `net/` — the kernel objects the calls act
    on.
  - `util/`, `logging`, `trap`, `memory`, `lkm`, `rvm`, `ucore` — console,
    log, interrupts, memory bookkeeping, loadable modules, the hypervisor
    device and the small teaching interface.
- `tests/` — tests of the library on concrete values.
- `app/` — host glue: the logger behind the `log` facade and the reading of
  ELF images with `xmas-elf`.
