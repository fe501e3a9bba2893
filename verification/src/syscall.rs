//! System calls: error numbers, the dispatcher's decoding of a call, and the
//! checks and computations that each handler makes on its arguments.

pub mod copy;
pub mod custom;
pub mod dispatch;
pub mod error;
pub mod fs;
pub mod ipc;
pub mod mem;
pub mod misc;
pub mod net;
pub mod path;
pub mod poll;
pub mod signal;
pub mod task;
pub mod time;
pub mod user;

pub use self::error::{errno, error_message, SysError, SysResult};
