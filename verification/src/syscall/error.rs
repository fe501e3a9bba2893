use vstd::prelude::*;

verus! {

/// Error numbers of the Linux system call ABI.
#[allow(non_camel_case_types)]
#[derive(Debug, Clone, Copy, PartialEq, Eq, Structural)]
pub enum SysError {
    EUNDEF,
    EPERM,
    ENOENT,
    ESRCH,
    EINTR,
    EIO,
    ENXIO,
    E2BIG,
    ENOEXEC,
    EBADF,
    ECHILD,
    EAGAIN,
    ENOMEM,
    EACCES,
    EFAULT,
    ENOTBLK,
    EBUSY,
    EEXIST,
    EXDEV,
    ENODEV,
    ENOTDIR,
    EISDIR,
    EINVAL,
    ENFILE,
    EMFILE,
    ENOTTY,
    ETXTBSY,
    EFBIG,
    ENOSPC,
    ESPIPE,
    EROFS,
    EMLINK,
    EPIPE,
    EDOM,
    ERANGE,
    EDEADLK,
    ENAMETOOLONG,
    ENOLCK,
    ENOSYS,
    ENOTEMPTY,
    ELOOP,
    EIDRM,
    ENOTSOCK,
    ENOPROTOOPT,
    EPFNOSUPPORT,
    EAFNOSUPPORT,
    ENOBUFS,
    EISCONN,
    ENOTCONN,
    ECONNREFUSED,
}

/// The number that stands for an error in the ABI (`errno`).
pub open spec fn errno(e: SysError) -> isize {
    match e {
        SysError::EUNDEF => 0,
        SysError::EPERM => 1,
        SysError::ENOENT => 2,
        SysError::ESRCH => 3,
        SysError::EINTR => 4,
        SysError::EIO => 5,
        SysError::ENXIO => 6,
        SysError::E2BIG => 7,
        SysError::ENOEXEC => 8,
        SysError::EBADF => 9,
        SysError::ECHILD => 10,
        SysError::EAGAIN => 11,
        SysError::ENOMEM => 12,
        SysError::EACCES => 13,
        SysError::EFAULT => 14,
        SysError::ENOTBLK => 15,
        SysError::EBUSY => 16,
        SysError::EEXIST => 17,
        SysError::EXDEV => 18,
        SysError::ENODEV => 19,
        SysError::ENOTDIR => 20,
        SysError::EISDIR => 21,
        SysError::EINVAL => 22,
        SysError::ENFILE => 23,
        SysError::EMFILE => 24,
        SysError::ENOTTY => 25,
        SysError::ETXTBSY => 26,
        SysError::EFBIG => 27,
        SysError::ENOSPC => 28,
        SysError::ESPIPE => 29,
        SysError::EROFS => 30,
        SysError::EMLINK => 31,
        SysError::EPIPE => 32,
        SysError::EDOM => 33,
        SysError::ERANGE => 34,
        SysError::EDEADLK => 35,
        SysError::ENAMETOOLONG => 36,
        SysError::ENOLCK => 37,
        SysError::ENOSYS => 38,
        SysError::ENOTEMPTY => 39,
        SysError::ELOOP => 40,
        SysError::EIDRM => 43,
        SysError::ENOTSOCK => 80,
        SysError::ENOPROTOOPT => 92,
        SysError::EPFNOSUPPORT => 96,
        SysError::EAFNOSUPPORT => 97,
        SysError::ENOBUFS => 105,
        SysError::EISCONN => 106,
        SysError::ENOTCONN => 107,
        SysError::ECONNREFUSED => 111,
    }
}

/// The message that describes an error.
pub open spec fn error_message(e: SysError) -> &'static str {
    match e {
        SysError::EUNDEF => "Unknown error",
        SysError::EPERM => "Operation not permitted",
        SysError::ENOENT => "No such file or directory",
        SysError::ESRCH => "No such process",
        SysError::EINTR => "Interrupted system call",
        SysError::EIO => "I/O error",
        SysError::ENXIO => "No such device or address",
        SysError::E2BIG => "Argument list too long",
        SysError::ENOEXEC => "Exec format error",
        SysError::EBADF => "Bad file number",
        SysError::ECHILD => "No child processes",
        SysError::EAGAIN => "Try again",
        SysError::ENOMEM => "Out of memory",
        SysError::EACCES => "Permission denied",
        SysError::EFAULT => "Bad address",
        SysError::ENOTBLK => "Block device required",
        SysError::EBUSY => "Device or resource busy",
        SysError::EEXIST => "File exists",
        SysError::EXDEV => "Cross-device link",
        SysError::ENODEV => "No such device",
        SysError::ENOTDIR => "Not a directory",
        SysError::EISDIR => "Is a directory",
        SysError::EINVAL => "Invalid argument",
        SysError::ENFILE => "File table overflow",
        SysError::EMFILE => "Too many open files",
        SysError::ENOTTY => "Not a typewriter",
        SysError::ETXTBSY => "Text file busy",
        SysError::EFBIG => "File too large",
        SysError::ENOSPC => "No space left on device",
        SysError::ESPIPE => "Illegal seek",
        SysError::EROFS => "Read-only file system",
        SysError::EMLINK => "Too many links",
        SysError::EPIPE => "Broken pipe",
        SysError::EDOM => "Math argument out of domain of func",
        SysError::ERANGE => "Math result not representable",
        SysError::EDEADLK => "Resource deadlock would occur",
        SysError::ENAMETOOLONG => "File name too long",
        SysError::ENOLCK => "No record locks available",
        SysError::ENOSYS => "Function not implemented",
        SysError::ENOTEMPTY => "Directory not empty",
        SysError::ELOOP => "Too many symbolic links encountered",
        SysError::EIDRM => "Identifier removed",
        SysError::ENOTSOCK => "Socket operation on non-socket",
        SysError::ENOPROTOOPT => "Protocol not available",
        SysError::EPFNOSUPPORT => "Protocol family not supported",
        SysError::EAFNOSUPPORT => "Address family not supported by protocol",
        SysError::ENOBUFS => "No buffer space available",
        SysError::EISCONN => "Transport endpoint is already connected",
        SysError::ENOTCONN => "Transport endpoint is not connected",
        SysError::ECONNREFUSED => "Connection refused",
    }
}

/// The result of a system call: a non-negative value or an error.
pub type SysResult = Result<usize, SysError>;

impl SysError {
    /// The error number, as `errno`.
    pub fn code(&self) -> (c: isize)
        ensures
            c == errno(*self),
            0 <= c <= 111,
    {
        match self {
            SysError::EUNDEF => 0,
            SysError::EPERM => 1,
            SysError::ENOENT => 2,
            SysError::ESRCH => 3,
            SysError::EINTR => 4,
            SysError::EIO => 5,
            SysError::ENXIO => 6,
            SysError::E2BIG => 7,
            SysError::ENOEXEC => 8,
            SysError::EBADF => 9,
            SysError::ECHILD => 10,
            SysError::EAGAIN => 11,
            SysError::ENOMEM => 12,
            SysError::EACCES => 13,
            SysError::EFAULT => 14,
            SysError::ENOTBLK => 15,
            SysError::EBUSY => 16,
            SysError::EEXIST => 17,
            SysError::EXDEV => 18,
            SysError::ENODEV => 19,
            SysError::ENOTDIR => 20,
            SysError::EISDIR => 21,
            SysError::EINVAL => 22,
            SysError::ENFILE => 23,
            SysError::EMFILE => 24,
            SysError::ENOTTY => 25,
            SysError::ETXTBSY => 26,
            SysError::EFBIG => 27,
            SysError::ENOSPC => 28,
            SysError::ESPIPE => 29,
            SysError::EROFS => 30,
            SysError::EMLINK => 31,
            SysError::EPIPE => 32,
            SysError::EDOM => 33,
            SysError::ERANGE => 34,
            SysError::EDEADLK => 35,
            SysError::ENAMETOOLONG => 36,
            SysError::ENOLCK => 37,
            SysError::ENOSYS => 38,
            SysError::ENOTEMPTY => 39,
            SysError::ELOOP => 40,
            SysError::EIDRM => 43,
            SysError::ENOTSOCK => 80,
            SysError::ENOPROTOOPT => 92,
            SysError::EPFNOSUPPORT => 96,
            SysError::EAFNOSUPPORT => 97,
            SysError::ENOBUFS => 105,
            SysError::EISCONN => 106,
            SysError::ENOTCONN => 107,
            SysError::ECONNREFUSED => 111,
        }
    }

    /// The text that describes the error.
    pub fn message(&self) -> (s: &'static str)
        ensures
            s == error_message(*self),
    {
        match self {
            SysError::EUNDEF => "Unknown error",
            SysError::EPERM => "Operation not permitted",
            SysError::ENOENT => "No such file or directory",
            SysError::ESRCH => "No such process",
            SysError::EINTR => "Interrupted system call",
            SysError::EIO => "I/O error",
            SysError::ENXIO => "No such device or address",
            SysError::E2BIG => "Argument list too long",
            SysError::ENOEXEC => "Exec format error",
            SysError::EBADF => "Bad file number",
            SysError::ECHILD => "No child processes",
            SysError::EAGAIN => "Try again",
            SysError::ENOMEM => "Out of memory",
            SysError::EACCES => "Permission denied",
            SysError::EFAULT => "Bad address",
            SysError::ENOTBLK => "Block device required",
            SysError::EBUSY => "Device or resource busy",
            SysError::EEXIST => "File exists",
            SysError::EXDEV => "Cross-device link",
            SysError::ENODEV => "No such device",
            SysError::ENOTDIR => "Not a directory",
            SysError::EISDIR => "Is a directory",
            SysError::EINVAL => "Invalid argument",
            SysError::ENFILE => "File table overflow",
            SysError::EMFILE => "Too many open files",
            SysError::ENOTTY => "Not a typewriter",
            SysError::ETXTBSY => "Text file busy",
            SysError::EFBIG => "File too large",
            SysError::ENOSPC => "No space left on device",
            SysError::ESPIPE => "Illegal seek",
            SysError::EROFS => "Read-only file system",
            SysError::EMLINK => "Too many links",
            SysError::EPIPE => "Broken pipe",
            SysError::EDOM => "Math argument out of domain of func",
            SysError::ERANGE => "Math result not representable",
            SysError::EDEADLK => "Resource deadlock would occur",
            SysError::ENAMETOOLONG => "File name too long",
            SysError::ENOLCK => "No record locks available",
            SysError::ENOSYS => "Function not implemented",
            SysError::ENOTEMPTY => "Directory not empty",
            SysError::ELOOP => "Too many symbolic links encountered",
            SysError::EIDRM => "Identifier removed",
            SysError::ENOTSOCK => "Socket operation on non-socket",
            SysError::ENOPROTOOPT => "Protocol not available",
            SysError::EPFNOSUPPORT => "Protocol family not supported",
            SysError::EAFNOSUPPORT => "Address family not supported by protocol",
            SysError::ENOBUFS => "No buffer space available",
            SysError::EISCONN => "Transport endpoint is already connected",
            SysError::ENOTCONN => "Transport endpoint is not connected",
            SysError::ECONNREFUSED => "Connection refused",
        }
    }
}

/// Two distinct errors have distinct numbers.
pub proof fn lemma_errno_injective(a: SysError, b: SysError)
    ensures
        errno(a) == errno(b) ==> a == b,
{
}

} // verus!
