//! Synchronisation primitives: locks, the event bus, semaphores and channels.

pub mod atomic_lock;
pub mod condvar;
pub mod event_bus;
pub mod mpsc;
pub mod mutex;
pub mod semaphore;
