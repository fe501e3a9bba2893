//! The file system calls' own logic: error and flag translation, paths,
//! directory entries and scatter/gather buffers.

use vstd::prelude::*;

use crate::logging::decimal;
use crate::net::bytes::{le16, le64, push_bytes, push_u16, push_u64};
use crate::process::proc::{is_lowest_free, FdTable, FileLike};
use crate::syscall::dispatch::AT_FDCWD;
use crate::syscall::time::VfsTimespec;
use crate::syscall::SysError;
use vstd::std_specs::convert::FromSpecImpl;

verus! {

/// The errors of the file system interface.
#[derive(Debug, Clone, Copy, PartialEq, Eq, Structural)]
pub enum FsError {
    NotSupported,
    NotFile,
    IsDir,
    NotDir,
    EntryNotFound,
    EntryExist,
    NotSameFs,
    InvalidParam,
    NoDeviceSpace,
    DirRemoved,
    DirNotEmpty,
    WrongFs,
    DeviceError,
    IOCTLError,
    NoDevice,
    Again,
    SymLoop,
    Busy,
}

/// The system call error that a file system error is reported as.
pub open spec fn fs_error_errno(e: FsError) -> SysError {
    match e {
        FsError::NotSupported => SysError::ENOSYS,
        FsError::NotFile => SysError::EISDIR,
        FsError::IsDir => SysError::EISDIR,
        FsError::NotDir => SysError::ENOTDIR,
        FsError::EntryNotFound => SysError::ENOENT,
        FsError::EntryExist => SysError::EEXIST,
        FsError::NotSameFs => SysError::EXDEV,
        FsError::InvalidParam => SysError::EINVAL,
        FsError::NoDeviceSpace => SysError::ENOMEM,
        FsError::DirRemoved => SysError::ENOENT,
        FsError::DirNotEmpty => SysError::ENOTEMPTY,
        FsError::WrongFs => SysError::EINVAL,
        FsError::DeviceError => SysError::EIO,
        FsError::IOCTLError => SysError::EINVAL,
        FsError::NoDevice => SysError::EINVAL,
        FsError::Again => SysError::EAGAIN,
        FsError::SymLoop => SysError::ELOOP,
        FsError::Busy => SysError::EBUSY,
    }
}

impl From<FsError> for SysError {
    fn from(error: FsError) -> (r: Self) {
        match error {
            FsError::NotSupported => SysError::ENOSYS,
            FsError::NotFile => SysError::EISDIR,
            FsError::IsDir => SysError::EISDIR,
            FsError::NotDir => SysError::ENOTDIR,
            FsError::EntryNotFound => SysError::ENOENT,
            FsError::EntryExist => SysError::EEXIST,
            FsError::NotSameFs => SysError::EXDEV,
            FsError::InvalidParam => SysError::EINVAL,
            FsError::NoDeviceSpace => SysError::ENOMEM,
            FsError::DirRemoved => SysError::ENOENT,
            FsError::DirNotEmpty => SysError::ENOTEMPTY,
            FsError::WrongFs => SysError::EINVAL,
            FsError::DeviceError => SysError::EIO,
            FsError::IOCTLError => SysError::EINVAL,
            FsError::NoDevice => SysError::EINVAL,
            FsError::Again => SysError::EAGAIN,
            FsError::SymLoop => SysError::ELOOP,
            FsError::Busy => SysError::EBUSY,
        }
    }
}

impl FromSpecImpl<FsError> for SysError {
    open spec fn obeys_from_spec() -> bool {
        true
    }

    open spec fn from_spec(error: FsError) -> SysError {
        fs_error_errno(error)
    }
}

/// The kinds of file.
#[derive(Debug, Clone, Copy, PartialEq, Eq, Structural)]
pub enum FileType {
    File,
    Dir,
    SymLink,
    CharDevice,
    BlockDevice,
    NamedPipe,
    Socket,
}

/// The `d_type` byte of a directory entry.
pub struct DirentType;

impl DirentType {
    pub const DT_UNKNOWN: u8 = 0;
    pub const DT_FIFO: u8 = 1;
    pub const DT_CHR: u8 = 2;
    pub const DT_DIR: u8 = 4;
    pub const DT_BLK: u8 = 6;
    pub const DT_REG: u8 = 8;
    pub const DT_LNK: u8 = 10;
    pub const DT_SOCK: u8 = 12;
    pub const DT_WHT: u8 = 14;

    pub open spec fn of(t: FileType) -> u8 {
        match t {
            FileType::File => Self::DT_REG,
            FileType::Dir => Self::DT_DIR,
            FileType::SymLink => Self::DT_LNK,
            FileType::CharDevice => Self::DT_CHR,
            FileType::BlockDevice => Self::DT_BLK,
            FileType::Socket => Self::DT_SOCK,
            FileType::NamedPipe => Self::DT_FIFO,
        }
    }

    /// The `d_type` of a kind of file.
    pub fn from_type(type_: &FileType) -> (d: u8)
        ensures
            d == Self::of(*type_),
    {
        match type_ {
            FileType::File => Self::DT_REG,
            FileType::Dir => Self::DT_DIR,
            FileType::SymLink => Self::DT_LNK,
            FileType::CharDevice => Self::DT_CHR,
            FileType::BlockDevice => Self::DT_BLK,
            FileType::Socket => Self::DT_SOCK,
            FileType::NamedPipe => Self::DT_FIFO,
        }
    }
}

/// The `st_mode` word: file type and permission bits.
pub struct StatMode;

impl StatMode {
    pub const TYPE_MASK: u32 = 0o170000;
    pub const FIFO: u32 = 0o010000;
    pub const CHAR: u32 = 0o020000;
    pub const DIR: u32 = 0o040000;
    pub const BLOCK: u32 = 0o060000;
    pub const FILE: u32 = 0o100000;
    pub const LINK: u32 = 0o120000;
    pub const SOCKET: u32 = 0o140000;
    /// Every bit that has a name: the type, set-user-ID, set-group-ID and
    /// the nine permission bits.
    pub const ALL: u32 = 0o176777;

    pub open spec fn type_bits(t: FileType) -> u32 {
        match t {
            FileType::File => Self::FILE,
            FileType::Dir => Self::DIR,
            FileType::SymLink => Self::LINK,
            FileType::CharDevice => Self::CHAR,
            FileType::BlockDevice => Self::BLOCK,
            FileType::Socket => Self::SOCKET,
            FileType::NamedPipe => Self::FIFO,
        }
    }

    /// The type bits of `type_` with the named bits of `mode`.
    pub fn from_type_mode(type_: FileType, mode: u16) -> (m: u32)
        ensures
            m == Self::type_bits(type_) | ((mode as u32) & Self::ALL),
    {
        let t = match type_ {
            FileType::File => Self::FILE,
            FileType::Dir => Self::DIR,
            FileType::SymLink => Self::LINK,
            FileType::CharDevice => Self::CHAR,
            FileType::BlockDevice => Self::BLOCK,
            FileType::Socket => Self::SOCKET,
            FileType::NamedPipe => Self::FIFO,
        };
        t | ((mode as u32) & Self::ALL)
    }
}

/// How a file is opened.
#[derive(Debug, Clone, Copy, PartialEq, Eq, Structural)]
pub struct OpenOptions {
    pub read: bool,
    pub write: bool,
    pub append: bool,
    pub nonblock: bool,
}

/// The flags of `open`.
#[derive(Debug, Clone, Copy, PartialEq, Eq, Structural)]
pub struct OpenFlags(pub usize);

impl OpenFlags {
    pub const RDONLY: usize = 0;
    pub const WRONLY: usize = 1;
    pub const RDWR: usize = 2;
    pub const CREATE: usize = 0x40;
    pub const EXCLUSIVE: usize = 0x80;
    pub const TRUNCATE: usize = 0x200;
    pub const APPEND: usize = 0x400;

    /// The access mode: the two lowest bits.
    pub open spec fn access_mode(&self) -> usize {
        self.0 & 3
    }

    /// Read-only or read-write.
    pub fn readable(&self) -> (b: bool)
        ensures
            b == (self.access_mode() == Self::RDONLY || self.access_mode() == Self::RDWR),
    {
        let b = self.0 & 3;
        b == Self::RDONLY || b == Self::RDWR
    }

    /// Write-only or read-write.
    pub fn writable(&self) -> (b: bool)
        ensures
            b == (self.access_mode() == Self::WRONLY || self.access_mode() == Self::RDWR),
    {
        let b = self.0 & 3;
        b == Self::WRONLY || b == Self::RDWR
    }

    /// Whether every bit of `flag` is set.
    pub fn contains(&self, flag: usize) -> (b: bool)
        ensures
            b == (self.0 & flag == flag),
    {
        self.0 & flag == flag
    }

    pub fn to_options(&self) -> (o: OpenOptions)
        ensures
            o == (OpenOptions {
                read: self.access_mode() == Self::RDONLY || self.access_mode() == Self::RDWR,
                write: self.access_mode() == Self::WRONLY || self.access_mode() == Self::RDWR,
                append: self.0 & Self::APPEND == Self::APPEND,
                nonblock: false,
            }),
    {
        OpenOptions {
            read: self.readable(),
            write: self.writable(),
            append: self.contains(Self::APPEND),
            nonblock: false,
        }
    }
}

/// The path with every trailing `/` taken off.
pub open spec fn trim_trailing_slashes(s: Seq<u8>) -> Seq<u8>
    decreases s.len(),
{
    if s.len() > 0 && s.last() == 0x2f {
        trim_trailing_slashes(s.drop_last())
    } else {
        s
    }
}

/// `i` is the position of the last `/` of `s`.
pub open spec fn is_last_slash(s: Seq<u8>, i: int) -> bool {
    &&& 0 <= i < s.len()
    &&& s[i] == 0x2f
    &&& forall|j: int| i < j < s.len() ==> s[j] != 0x2f
}

/// `path` split at its last `/` (trailing ones aside) into the directory
/// and the name in it: the directory is `.` where there is no `/`, and `/`
/// where the name is at the root.
pub open spec fn split_path_spec(path: Seq<u8>) -> (Seq<u8>, Seq<u8>) {
    let t = trim_trailing_slashes(path);
    if exists|i: int| is_last_slash(t, i) {
        let i = choose|i: int| is_last_slash(t, i);
        (if i == 0 { seq![0x2fu8] } else { t.take(i) }, t.skip(i + 1))
    } else {
        (seq![0x2eu8], t)
    }
}

proof fn lemma_last_slash_unique(s: Seq<u8>, i: int, j: int)
    requires
        is_last_slash(s, i),
        is_last_slash(s, j),
    ensures
        i == j,
{
}

/// Splits `path` into the directory and the name in it.
pub fn split_path(path: &[u8]) -> (r: (Vec<u8>, Vec<u8>))
    ensures
        (r.0@, r.1@) == split_path_spec(path@),
{
    let mut end = path.len();
    assert(path@.take(end as int) =~= path@);
    while end > 0 && path[end - 1] == 0x2f
        invariant
            end <= path@.len(),
            trim_trailing_slashes(path@.take(end as int)) == trim_trailing_slashes(path@),
        decreases end,
    {
        proof {
            assert(path@.take(end - 1) =~= path@.take(end as int).drop_last());
        }
        end = end - 1;
    }
    let ghost t = path@.take(end as int);
    assert(trim_trailing_slashes(t) == t);
    let mut i = end;
    while i > 0 && path[i - 1] != 0x2f
        invariant
            i <= end,
            end <= path@.len(),
            t == path@.take(end as int),
            forall|j: int| i <= j < end ==> t[j] != 0x2f,
        decreases i,
    {
        i = i - 1;
    }
    let mut name: Vec<u8> = Vec::new();
    let mut k = i;
    while k < end
        invariant
            i <= k <= end,
            end <= path@.len(),
            name@ == path@.subrange(i as int, k as int),
        decreases end - k,
    {
        name.push(path[k]);
        proof {
            assert(name@ =~= path@.subrange(i as int, k + 1));
        }
        k = k + 1;
    }
    let mut dir: Vec<u8> = Vec::new();
    if i == 0 {
        dir.push(0x2e);
        proof {
            assert(!exists|j: int| is_last_slash(t, j));
            assert(name@ =~= t);
            assert(dir@ =~= seq![0x2eu8]);
        }
    } else if i == 1 {
        dir.push(0x2f);
        proof {
            assert(is_last_slash(t, 0));
            let c = choose|j: int| is_last_slash(t, j);
            lemma_last_slash_unique(t, 0, c);
            assert(name@ =~= t.skip(1));
            assert(dir@ =~= seq![0x2fu8]);
        }
    } else {
        let mut k2: usize = 0;
        while k2 < i - 1
            invariant
                k2 <= i - 1,
                i <= end,
                end <= path@.len(),
                dir@ == path@.take(k2 as int),
            decreases i - 1 - k2,
        {
            dir.push(path[k2]);
            proof {
                assert(dir@ =~= path@.take(k2 + 1));
            }
            k2 = k2 + 1;
        }
        proof {
            assert(is_last_slash(t, i - 1));
            let c = choose|j: int| is_last_slash(t, j);
            lemma_last_slash_unique(t, i - 1, c);
            assert(name@ =~= t.skip(i as int));
            assert(dir@ =~= t.take(i - 1));
        }
    }
    (dir, name)
}

/// Where a seek counts from.
#[derive(Debug, Clone, Copy, PartialEq, Eq, Structural)]
pub enum SeekFrom {
    Start(u64),
    End(i64),
    Current(i64),
}

pub const SEEK_SET: u8 = 0;
pub const SEEK_CUR: u8 = 1;
pub const SEEK_END: u8 = 2;

/// `lseek`'s reading of `whence`; `EINVAL` for an unknown one.
pub fn seek_from(offset: i64, whence: u8) -> (r: Result<SeekFrom, SysError>)
    ensures
        whence == SEEK_SET ==> r == Ok::<SeekFrom, SysError>(SeekFrom::Start(offset as u64)),
        whence == SEEK_END ==> r == Ok::<SeekFrom, SysError>(SeekFrom::End(offset)),
        whence == SEEK_CUR ==> r == Ok::<SeekFrom, SysError>(SeekFrom::Current(offset)),
        whence > SEEK_END ==> r == Err::<SeekFrom, SysError>(SysError::EINVAL),
{
    match whence {
        SEEK_SET => Ok(SeekFrom::Start(offset as u64)),
        SEEK_END => Ok(SeekFrom::End(offset)),
        SEEK_CUR => Ok(SeekFrom::Current(offset)),
        _ => Err(SysError::EINVAL),
    }
}

/// `getcwd`: the buffer of `len` bytes must hold the directory and its
/// terminating NUL, else `ERANGE`.
pub fn check_getcwd_len(cwd_len: usize, len: usize) -> (r: Result<(), SysError>)
    ensures
        r == if cwd_len + 1 > len { Err::<(), SysError>(SysError::ERANGE) } else { Ok(()) },
{
    if cwd_len >= len {
        Err(SysError::ERANGE)
    } else {
        Ok(())
    }
}

/// The fixed part of a directory entry as `getdents64` lays it out.
#[derive(Debug, Clone, Copy, PartialEq, Eq, Structural)]
pub struct LinuxDirent64 {
    pub ino: u64,
    pub offset: u64,
    pub reclen: u16,
    pub type_: u8,
}

/// The size of the fixed part of a directory entry.
pub const DIRENT_HEADER_SIZE: usize = 19;

/// The length of the record for a name of `name_len` bytes: header, name
/// and NUL, rounded up to a multiple of 8.
pub open spec fn dirent_len(name_len: nat) -> nat {
    ((DIRENT_HEADER_SIZE + name_len + 1 + 7) / 8 * 8) as nat
}

/// The bytes of a record: header, name and NUL.
pub open spec fn dirent_bytes(ino: u64, reclen: u16, type_: u8, name: Seq<u8>) -> Seq<u8> {
    le64(ino) + le64(0) + le16(reclen) + seq![type_] + name + seq![0u8]
}

/// Fills a buffer with directory entries.
pub struct DirentBufWriter {
    pub buf: Vec<u8>,
    pub rest_size: usize,
    pub written_size: usize,
}

impl DirentBufWriter {
    pub open spec fn wf(&self) -> bool {
        self.written_size + self.rest_size == self.buf@.len()
    }

    /// A writer at the start of `buf`.
    pub fn new(buf: Vec<u8>) -> (w: Self)
        ensures
            w.wf(),
            w.buf@ == buf@,
            w.written_size == 0,
            w.rest_size == buf@.len(),
    {
        let n = buf.len();
        DirentBufWriter { buf, rest_size: n, written_size: 0 }
    }

    /// Writes the entry of `name` where its record fits in the rest of the
    /// buffer; returns whether it did. The padding bytes of the record keep
    /// what the buffer held.
    pub fn try_write(&mut self, inode: u64, type_: u8, name: &[u8]) -> (ok: bool)
        requires
            old(self).wf(),
            name@.len() + 27 <= usize::MAX,
        ensures
            final(self).wf(),
            final(self).buf@.len() == old(self).buf@.len(),
            ok == (old(self).rest_size >= dirent_len(name@.len())),
            !ok ==> *final(self) == *old(self),
            ok ==> {
                let len = dirent_len(name@.len());
                let at = old(self).written_size as int;
                let rec = dirent_bytes(inode, len as u16, type_, name@);
                &&& final(self).written_size == old(self).written_size + len
                &&& final(self).rest_size == old(self).rest_size - len
                &&& final(self).buf@ == old(self).buf@.take(at) + rec + old(self).buf@.skip(at + rec.len())
            },
    {
        let len = (DIRENT_HEADER_SIZE + name.len() + 1 + 7) / 8 * 8;
        if self.rest_size < len {
            return false;
        }
        let mut rec: Vec<u8> = Vec::new();
        push_u64(&mut rec, inode);
        push_u64(&mut rec, 0);
        push_u16(&mut rec, #[verifier::truncate] (len as u16));
        rec.push(type_);
        push_bytes(&mut rec, name);
        rec.push(0);
        let ghost at = self.written_size as int;
        let ghost before = self.buf@;
        let blen = self.buf.len();
        assert(rec@ =~= dirent_bytes(inode, len as u16, type_, name@));
        assert(rec@.len() <= len);
        let mut i: usize = 0;
        while i < rec.len()
            invariant
                i <= rec@.len(),
                rec@.len() <= len,
                at + len <= before.len(),
                at == self.written_size,
                self.written_size + self.rest_size == before.len(),
                len <= self.rest_size,
                before.len() == blen,
                self.buf@.len() == before.len(),
                self.buf@ == before.take(at) + rec@.take(i as int) + before.skip(at + i),
            decreases rec.len() - i,
        {
            self.buf.set(self.written_size + i, rec[i]);
            proof {
                assert(self.buf@ =~= before.take(at) + rec@.take(i + 1) + before.skip(at + i + 1));
            }
            i = i + 1;
        }
        proof {
            assert(rec@.take(rec@.len() as int) =~= rec@);
        }
        self.rest_size = self.rest_size - len;
        self.written_size = self.written_size + len;
        true
    }
}

/// What filling a buffer with the directory entries `names` gives, from a
/// writer that has written `written` bytes with `rest` left: entries are
/// written while their records fit; the first that does not fit is read
/// and dropped, and filling stops. Gives the buffer, the bytes written and
/// the number of entries read.
pub open spec fn fill_dirents(buf: Seq<u8>, written: nat, rest: nat, dtype: u8, names: Seq<Seq<u8>>) -> (Seq<u8>, nat, nat)
    decreases names.len(),
{
    if names.len() == 0 {
        (buf, written, 0)
    } else {
        let len = dirent_len(names[0].len());
        if rest < len {
            (buf, written, 1)
        } else {
            let rec = dirent_bytes(0, len as u16, dtype, names[0]);
            let next = buf.take(written as int) + rec + buf.skip((written + rec.len()) as int);
            let r = fill_dirents(next, written + len, (rest - len) as nat, dtype, names.drop_first());
            (r.0, r.1, r.2 + 1)
        }
    }
}

/// `getdents64` on the entries that the directory yields from its position
/// on, in order: `ENOTDIR` where the file is not a directory; else the
/// buffer is filled as `fill_dirents` says, with inode 0 and the type of
/// the directory for every entry. Gives the writer (its `written_size` is
/// the result) and the number of entries read.
pub fn getdents64(is_dir: bool, buf: Vec<u8>, dtype: u8, names: &Vec<Vec<u8>>) -> (r: Result<(DirentBufWriter, usize), SysError>)
    requires
        forall|i: int| 0 <= i < names@.len() ==> #[trigger] names@[i]@.len() + 27 <= usize::MAX,
    ensures
        !is_dir ==> r is Err && r == Err::<(DirentBufWriter, usize), SysError>(SysError::ENOTDIR),
        is_dir ==> (r matches Ok((w, n)) && {
            let f = fill_dirents(buf@, 0, buf@.len(), dtype, names@.map_values(|v: Vec<u8>| v@));
            &&& w.wf()
            &&& w.buf@ == f.0
            &&& w.written_size == f.1
            &&& n == f.2
        }),
{
    if !is_dir {
        return Err(SysError::ENOTDIR);
    }
    let ghost nv = names@.map_values(|v: Vec<u8>| v@);
    let ghost b0 = buf@;
    let ghost f = fill_dirents(b0, 0, b0.len(), dtype, nv);
    let mut w = DirentBufWriter::new(buf);
    let mut i: usize = 0;
    proof {
        assert(nv.skip(0) =~= nv);
    }
    while i < names.len()
        invariant
            i <= names@.len(),
            nv == names@.map_values(|v: Vec<u8>| v@),
            forall|j: int| 0 <= j < names@.len() ==> #[trigger] names@[j]@.len() + 27 <= usize::MAX,
            w.wf(),
            fill_dirents(w.buf@, w.written_size as nat, w.rest_size as nat, dtype, nv.skip(i as int)) == (f.0, f.1, (f.2 - i) as nat),
            f.2 >= i,
            is_dir,
            b0 == buf@,
            f == fill_dirents(b0, 0, b0.len(), dtype, nv),
        decreases names@.len() - i,
    {
        let ghost before = w;
        proof {
            assert(nv.skip(i as int)[0] == names@[i as int]@);
            assert(nv.skip(i as int).drop_first() =~= nv.skip(i + 1));
        }
        let ok = w.try_write(0, dtype, names[i].as_slice());
        if !ok {
            proof {
                assert(f.2 == i + 1);
                assert(w.buf@ == f.0 && w.written_size == f.1);
            }
            return Ok((w, i + 1));
        }
        i = i + 1;
    }
    proof {
        assert(nv.skip(i as int).len() == 0);
    }
    Ok((w, i))
}

/// A time stamp of `stat`.
#[derive(Debug, Clone, Copy, PartialEq, Eq, Structural)]
pub struct Timespec {
    pub sec: i32,
    pub nsec: i32,
}

/// A user buffer named by `readv`/`writev`: its address and length.
#[derive(Debug, Clone, Copy, PartialEq, Eq, Structural)]
pub struct IoVec {
    pub base: usize,
    pub len: usize,
}

/// The checked buffers of a `readv`/`writev` request, as their contents.
pub struct IoVecs(pub Vec<Vec<u8>>);

/// The total length of `bufs`.
pub open spec fn total_len(bufs: Seq<Seq<u8>>) -> nat
    decreases bufs.len(),
{
    if bufs.len() == 0 {
        0
    } else {
        total_len(bufs.drop_last()) + bufs.last().len()
    }
}

proof fn lemma_flatten_len(bufs: Seq<Seq<u8>>)
    ensures
        bufs.flatten().len() == total_len(bufs),
    decreases bufs.len(),
{
    if bufs.len() > 0 {
        lemma_flatten_len(bufs.drop_last());
        bufs.drop_last().lemma_flatten_push(bufs.last());
        assert(bufs.drop_last().push(bufs.last()) =~= bufs);
    }
}

impl IoVecs {
    /// The buffers' contents.
    pub open spec fn bufs(&self) -> Seq<Seq<u8>> {
        self.0@.map_values(|v: Vec<u8>| v@)
    }

    /// All the buffers' bytes, one after the other.
    pub fn read_all_to_vec(&self) -> (v: Vec<u8>)
        ensures
            v@ == self.bufs().flatten(),
    {
        let mut buf: Vec<u8> = Vec::new();
        let mut i: usize = 0;
        while i < self.0.len()
            invariant
                i <= self.0@.len(),
                buf@ == self.bufs().take(i as int).flatten(),
            decreases self.0@.len() - i,
        {
            push_bytes(&mut buf, self.0[i].as_slice());
            proof {
                assert(self.bufs().take(i + 1) =~= self.bufs().take(i as int).push(self.0@[i as int]@));
                self.bufs().take(i as int).lemma_flatten_push(self.0@[i as int]@);
            }
            i = i + 1;
        }
        proof {
            assert(self.bufs().take(self.0@.len() as int) =~= self.bufs());
        }
        buf
    }

    /// Copies `buf` into the buffers in order, as far as they reach: byte
    /// `j` of buffer `i` takes the byte of `buf` at its position in the
    /// run of all buffers, where `buf` reaches it, and keeps its own else.
    pub fn write_all_from_slice(&mut self, buf: &[u8])
        requires
            total_len(old(self).bufs()) <= usize::MAX,
        ensures
            written_over(old(self).bufs(), final(self).bufs(), buf@),
    {
        let ghost old_bufs = self.bufs();
        let mut out: Vec<Vec<u8>> = Vec::new();
        let mut off: usize = 0;
        let mut i: usize = 0;
        while i < self.0.len()
            invariant
                i <= self.0@.len(),
                old_bufs == self.bufs(),
                total_len(old_bufs) <= usize::MAX,
                off == total_len(old_bufs.take(i as int)),
                out@.len() == i,
                forall|a: int| 0 <= a < i ==> #[trigger] out@[a]@.len() == self.0@[a]@.len(),
                forall|a: int, j: int|
                    #![trigger out@[a]@[j]]
                    0 <= a < i && 0 <= j < self.0@[a]@.len() ==> out@[a]@[j] == if total_len(old_bufs.take(a)) + j < buf@.len() {
                        buf@[total_len(old_bufs.take(a)) + j]
                    } else {
                        self.0@[a]@[j]
                    },
            decreases self.0@.len() - i,
        {
            proof {
                lemma_total_len_prefix(old_bufs, i as int + 1);
                assert(old_bufs.take(i + 1).drop_last() =~= old_bufs.take(i as int));
            }
            let src = &self.0[i];
            let mut t: Vec<u8> = Vec::new();
            let mut j: usize = 0;
            while j < src.len()
                invariant
                    j <= src@.len(),
                    off + src@.len() <= usize::MAX,
                    t@.len() == j,
                    forall|c: int| 0 <= c < j ==> #[trigger] t@[c] == if off + c < buf@.len() { buf@[off + c] } else { src@[c] },
                decreases src@.len() - j,
            {
                if off + j < buf.len() {
                    t.push(buf[off + j]);
                } else {
                    t.push(src[j]);
                }
                j = j + 1;
            }
            out.push(t);
            off = off + src.len();
            i = i + 1;
        }
        self.0 = out;
        proof {
            assert forall|a: int, j: int| 0 <= a < old_bufs.len() && 0 <= j < old_bufs[a].len() implies #[trigger] self.bufs()[a][j] == if total_len(old_bufs.take(a)) + j < buf@.len() {
                buf@[total_len(old_bufs.take(a)) + j]
            } else {
                old_bufs[a][j]
            } by {
                assert(self.bufs()[a] == out@[a]@);
                assert(old_bufs[a] == old(self).0@[a]@);
            }
        }
    }
}

/// What `write_all_from_slice` leaves in buffers `new` that held `old`.
pub open spec fn written_over(old: Seq<Seq<u8>>, new: Seq<Seq<u8>>, buf: Seq<u8>) -> bool {
    &&& new.len() == old.len()
    &&& forall|i: int| 0 <= i < old.len() ==> #[trigger] new[i].len() == old[i].len()
    &&& forall|i: int, j: int|
        #![trigger new[i][j]]
        0 <= i < old.len() && 0 <= j < old[i].len() ==> new[i][j] == if total_len(old.take(i)) + j < buf.len() {
            buf[total_len(old.take(i)) + j]
        } else {
            old[i][j]
        }
}

proof fn lemma_total_len_same_shape(a: Seq<Seq<u8>>, b: Seq<Seq<u8>>)
    requires
        a.len() == b.len(),
        forall|i: int| 0 <= i < a.len() ==> #[trigger] a[i].len() == b[i].len(),
    ensures
        total_len(a) == total_len(b),
    decreases a.len(),
{
    if a.len() > 0 {
        lemma_total_len_same_shape(a.drop_last(), b.drop_last());
        assert(a.last().len() == b[b.len() - 1].len());
    }
}

proof fn lemma_flatten_same_shape(a: Seq<Seq<u8>>, b: Seq<Seq<u8>>)
    requires
        a.len() == b.len(),
        forall|i: int| 0 <= i < a.len() ==> #[trigger] a[i].len() == b[i].len(),
        a.flatten() == b.flatten(),
    ensures
        a == b,
    decreases a.len(),
{
    if a.len() > 0 {
        let (x, y) = (a.drop_last(), b.drop_last());
        assert(a =~= x.push(a.last()));
        assert(b =~= y.push(b.last()));
        x.lemma_flatten_push(a.last());
        y.lemma_flatten_push(b.last());
        lemma_total_len_same_shape(x, y);
        lemma_flatten_len(x);
        lemma_flatten_len(y);
        let n = x.flatten().len() as int;
        assert(x.flatten() =~= a.flatten().subrange(0, n));
        assert(y.flatten() =~= b.flatten().subrange(0, n));
        assert(a.last() =~= a.flatten().subrange(n, a.flatten().len() as int));
        assert(b.last() =~= b.flatten().subrange(n, b.flatten().len() as int));
        lemma_flatten_same_shape(x, y);
        assert(a =~= b);
    }
}

/// Writing back what was read leaves the buffers as they were: after
/// `write_all_from_slice` with the bytes that `read_all_to_vec` gave, every
/// buffer holds what it held.
pub proof fn lemma_write_back_what_was_read(old: Seq<Seq<u8>>, new: Seq<Seq<u8>>)
    requires
        written_over(old, new, old.flatten()),
    ensures
        new == old,
{
    lemma_flatten_len(old);
    lemma_write_then_read_all(old, new, old.flatten());
    let k = total_len(old) as int;
    assert(old.flatten().take(k) + old.flatten().skip(k) =~= old.flatten());
    lemma_flatten_same_shape(new, old);
}

/// Reading all the buffers after `write_all_from_slice` gives the bytes
/// written, as far as the buffers reach, and then what they held before.
pub proof fn lemma_write_then_read_all(old: Seq<Seq<u8>>, new: Seq<Seq<u8>>, buf: Seq<u8>)
    requires
        written_over(old, new, buf),
    ensures
        ({
            let k = if buf.len() < total_len(old) { buf.len() as int } else { total_len(old) as int };
            new.flatten() == buf.take(k) + old.flatten().skip(k)
        }),
    decreases old.len(),
{
    lemma_flatten_len(old);
    if old.len() == 0 {
        assert(new.flatten() =~= Seq::<u8>::empty());
        assert(old.flatten() =~= Seq::<u8>::empty());
        assert(buf.take(0) + old.flatten().skip(0) =~= Seq::<u8>::empty());
    } else {
        let o = old.drop_last();
        let n = new.drop_last();
        let m = old.len() - 1;
        assert forall|i: int| 0 <= i < o.len() implies #[trigger] o.take(i) == old.take(i) by {
            assert(o.take(i) =~= old.take(i));
        }
        assert(written_over(o, n, buf)) by {
            assert forall|i: int, j: int| 0 <= i < o.len() && 0 <= j < o[i].len() implies #[trigger] n[i][j] == if total_len(o.take(i)) + j < buf.len() {
                buf[total_len(o.take(i)) + j]
            } else {
                o[i][j]
            } by {
                assert(o.take(i) =~= old.take(i));
                assert(n[i][j] == new[i][j]);
            }
        }
        lemma_write_then_read_all(o, n, buf);
        lemma_flatten_len(o);
        assert(old.take(m) =~= o);
        let t = total_len(o);
        let last_old = old[m];
        let last_new = new[m];
        assert(old =~= o.push(last_old));
        assert(new =~= n.push(last_new));
        o.lemma_flatten_push(last_old);
        n.lemma_flatten_push(last_new);
        assert(total_len(old) == t + last_old.len());
        let k1 = if buf.len() < t { buf.len() as int } else { t as int };
        let k = if buf.len() < total_len(old) { buf.len() as int } else { total_len(old) as int };
        assert forall|j: int| 0 <= j < last_old.len() implies #[trigger] last_new[j] == if t + j < buf.len() {
            buf[t + j]
        } else {
            last_old[j]
        } by {
            assert(new[m][j] == last_new[j]);
        }
        let lhs = n.flatten() + last_new;
        let rhs = buf.take(k) + (o.flatten() + last_old).skip(k);
        assert(lhs.len() == rhs.len());
        assert forall|p: int| 0 <= p < lhs.len() implies lhs[p] == rhs[p] by {
            if p < t {
                if p < k1 {
                    assert(lhs[p] == buf[p]);
                } else {
                    assert(lhs[p] == o.flatten()[p]);
                }
            } else {
                assert(lhs[p] == last_new[p - t]);
            }
        }
        assert(lhs =~= rhs);
    }
}

/// The length of a prefix of the buffers is at most that of all of them.
proof fn lemma_total_len_prefix(bufs: Seq<Seq<u8>>, n: int)
    requires
        0 <= n <= bufs.len(),
    ensures
        total_len(bufs.take(n)) <= total_len(bufs),
    decreases bufs.len(),
{
    if n < bufs.len() {
        assert(bufs.drop_last().take(n) =~= bufs.take(n));
        lemma_total_len_prefix(bufs.drop_last(), n);
    } else {
        assert(bufs.take(n) =~= bufs);
    }
}

/// What the file system tells of a file.
#[derive(Debug, Clone, Copy, PartialEq, Eq, Structural)]
pub struct Metadata {
    pub dev: usize,
    pub inode: usize,
    pub size: usize,
    pub blk_size: usize,
    pub blocks: usize,
    pub atime: VfsTimespec,
    pub mtime: VfsTimespec,
    pub ctime: VfsTimespec,
    pub type_: FileType,
    pub mode: u16,
    pub nlinks: usize,
    pub uid: usize,
    pub gid: usize,
    pub rdev: usize,
}

/// `struct stat` as x86_64 lays it out.
#[derive(Debug, Clone, Copy, PartialEq, Eq, Structural)]
pub struct Stat {
    pub dev: u64,
    pub ino: u64,
    pub nlink: u64,
    pub mode: u32,
    pub uid: u32,
    pub gid: u32,
    pub pad0: u32,
    pub rdev: u64,
    pub size: u64,
    pub blksize: u64,
    pub blocks: u64,
    pub atime: VfsTimespec,
    pub mtime: VfsTimespec,
    pub ctime: VfsTimespec,
}

impl Stat {
    /// The status of a file: each count cut to its field's width, and the
    /// mode made of the type and the named permission bits.
    pub fn from_metadata(info: &Metadata) -> (st: Stat)
        ensures
            st == (Stat {
                dev: info.dev as u64,
                ino: info.inode as u64,
                nlink: info.nlinks as u64,
                mode: StatMode::type_bits(info.type_) | ((info.mode as u32) & StatMode::ALL),
                uid: info.uid as u32,
                gid: info.gid as u32,
                pad0: 0,
                rdev: info.rdev as u64,
                size: info.size as u64,
                blksize: info.blk_size as u64,
                blocks: info.blocks as u64,
                atime: info.atime,
                mtime: info.mtime,
                ctime: info.ctime,
            }),
    {
        Stat {
            dev: info.dev as u64,
            ino: info.inode as u64,
            nlink: info.nlinks as u64,
            mode: StatMode::from_type_mode(info.type_, info.mode),
            uid: info.uid as u32,
            gid: info.gid as u32,
            pad0: 0,
            rdev: info.rdev as u64,
            size: info.size as u64,
            blksize: info.blk_size as u64,
            blocks: info.blocks as u64,
            atime: info.atime,
            mtime: info.mtime,
            ctime: info.ctime,
        }
    }
}

/// The value of a run of decimal digits.
pub open spec fn digits_value(s: Seq<u8>) -> int
    decreases s.len(),
{
    if s.len() == 0 {
        0
    } else {
        digits_value(s.drop_last()) * 10 + (s.last() - 0x30)
    }
}

pub open spec fn all_digits(s: Seq<u8>) -> bool {
    forall|i: int| 0 <= i < s.len() ==> 0x30 <= #[trigger] s[i] <= 0x39
}

/// What `str::parse::<usize>` makes of `s`: an optional `+`, then at least
/// one digit and nothing else, with a value that fits.
pub open spec fn parse_usize_spec(s: Seq<u8>) -> Option<usize> {
    let d = if s.len() > 0 && s[0] == 0x2b { s.skip(1) } else { s };
    if d.len() > 0 && all_digits(d) && digits_value(d) <= usize::MAX {
        Some(digits_value(d) as usize)
    } else {
        None
    }
}

proof fn lemma_digits_value_nonneg(s: Seq<u8>)
    requires
        all_digits(s),
    ensures
        digits_value(s) >= 0,
    decreases s.len(),
{
    if s.len() > 0 {
        assert(all_digits(s.drop_last()));
        lemma_digits_value_nonneg(s.drop_last());
        assert(0x30 <= s[s.len() - 1] <= 0x39);
    }
}

proof fn lemma_digits_value_grows(s: Seq<u8>, i: int)
    requires
        all_digits(s),
        0 <= i <= s.len(),
    ensures
        digits_value(s.take(i)) <= digits_value(s),
    decreases s.len(),
{
    if i < s.len() {
        assert(all_digits(s.drop_last()));
        assert(s.drop_last().take(i) =~= s.take(i));
        lemma_digits_value_grows(s.drop_last(), i);
        lemma_digits_value_nonneg(s.drop_last());
        assert(0x30 <= s[s.len() - 1] <= 0x39);
    } else {
        assert(s.take(i) =~= s);
    }
}

/// Reads a decimal number as `str::parse::<usize>` does.
pub fn parse_usize(s: &[u8]) -> (r: Option<usize>)
    ensures
        r == parse_usize_spec(s@),
{
    let start: usize = if s.len() > 0 && s[0] == 0x2b { 1 } else { 0 };
    let ghost d = if s@.len() > 0 && s@[0] == 0x2b { s@.skip(1) } else { s@ };
    assert(d =~= s@.skip(start as int));
    if start >= s.len() {
        return None;
    }
    let mut v: usize = 0;
    let mut i: usize = start;
    while i < s.len()
        invariant
            start <= i <= s@.len(),
            d == s@.skip(start as int),
            d == (if s@.len() > 0 && s@[0] == 0x2b { s@.skip(1) } else { s@ }),
            all_digits(d.take(i - start)),
            v == digits_value(d.take(i - start)),
        decreases s@.len() - i,
    {
        let c = s[i];
        proof {
            assert(d.take(i - start + 1).drop_last() =~= d.take(i - start));
            assert(d[i - start] == c);
        }
        if c < 0x30 || c > 0x39 {
            proof {
                assert(!all_digits(d));
            }
            return None;
        }
        let digit = (c - 0x30) as usize;
        proof {
            assert(digits_value(d.take(i - start + 1)) == v * 10 + digit);
            assert(all_digits(d.take(i - start + 1)));
        }
        let t = v.checked_mul(10);
        let n = match t {
            Some(t) => t.checked_add(digit),
            None => None,
        };
        match n {
            Some(n) => {
                v = n;
            },
            None => {
                proof {
                    if all_digits(d) {
                        lemma_digits_value_grows(d, i - start + 1);
                    }
                }
                return None;
            },
        }
        i = i + 1;
    }
    proof {
        assert(d.take(i - start) =~= d);
    }
    Some(v)
}

/// Where a path is looked up.
#[derive(Debug, Clone, Copy, PartialEq, Eq, Structural)]
pub enum LookupPlan {
    /// `/proc/self/exe`: a link to the program the process runs.
    ExeLink,
    /// `/dev/fb0`: the frame buffer.
    FrameBuffer,
    /// `/proc/self/fd/N`: a link to the path that descriptor N was opened
    /// with, here its open file description.
    FdLink { description: usize },
    /// An absolute path: from the root directory, whatever `dirfd` is,
    /// following links where asked.
    FromRoot { follow: bool },
    /// From the working directory, following links where asked.
    FromCwd { follow: bool },
    /// From the directory whose open file description this is.
    FromDir { description: usize, follow: bool },
}

pub open spec fn proc_self_exe() -> Seq<u8> {
    seq![0x2fu8, 0x70, 0x72, 0x6f, 0x63, 0x2f, 0x73, 0x65, 0x6c, 0x66, 0x2f, 0x65, 0x78, 0x65]
}

pub open spec fn dev_fb0() -> Seq<u8> {
    seq![0x2fu8, 0x64, 0x65, 0x76, 0x2f, 0x66, 0x62, 0x30]
}

pub open spec fn proc_self_fd() -> Seq<u8> {
    seq![0x2fu8, 0x70, 0x72, 0x6f, 0x63, 0x2f, 0x73, 0x65, 0x6c, 0x66, 0x2f, 0x66, 0x64]
}

fn bytes_equal(a: &[u8], b: &[u8]) -> (r: bool)
    ensures
        r == (a@ == b@),
{
    if a.len() != b.len() {
        return false;
    }
    let mut i: usize = 0;
    while i < a.len()
        invariant
            i <= a@.len(),
            a@.len() == b@.len(),
            forall|j: int| 0 <= j < i ==> a@[j] == b@[j],
        decreases a@.len() - i,
    {
        if a[i] != b[i] {
            return false;
        }
        i = i + 1;
    }
    assert(a@ =~= b@);
    true
}

/// `lookup_inode_at`'s choice: the two special paths, then a descriptor's
/// link under `/proc/self/fd` (`EINVAL` for a name that is no number,
/// `EBADF` for a descriptor that is no open file); an absolute path from
/// the root, `dirfd` ignored; else from the working directory for
/// `AT_FDCWD`, or from the directory open at `dirfd` (`EBADF` where it is
/// no open file).
pub fn lookup_plan(files: &FdTable, dirfd: usize, path: &[u8], follow: bool) -> (r: Result<LookupPlan, SysError>)
    ensures
        r == if path@ == proc_self_exe() {
            Ok::<LookupPlan, SysError>(LookupPlan::ExeLink)
        } else if path@ == dev_fb0() {
            Ok::<LookupPlan, SysError>(LookupPlan::FrameBuffer)
        } else if split_path_spec(path@).0 == proc_self_fd() {
            match parse_usize_spec(split_path_spec(path@).1) {
                None => Err::<LookupPlan, SysError>(SysError::EINVAL),
                Some(fd) => if files.view().contains_key(fd) && files.view()[fd] is File {
                    Ok(LookupPlan::FdLink { description: files.view()[fd]->description })
                } else {
                    Err(SysError::EBADF)
                },
            }
        } else if path@.len() > 0 && path@[0] == 0x2fu8 {
            Ok::<LookupPlan, SysError>(LookupPlan::FromRoot { follow })
        } else if dirfd == AT_FDCWD {
            Ok::<LookupPlan, SysError>(LookupPlan::FromCwd { follow })
        } else if files.view().contains_key(dirfd) && files.view()[dirfd] is File {
            Ok::<LookupPlan, SysError>(LookupPlan::FromDir { description: files.view()[dirfd]->description, follow })
        } else {
            Err::<LookupPlan, SysError>(SysError::EBADF)
        },
{
    let exe: [u8; 14] = [0x2f, 0x70, 0x72, 0x6f, 0x63, 0x2f, 0x73, 0x65, 0x6c, 0x66, 0x2f, 0x65, 0x78, 0x65];
    let fb: [u8; 8] = [0x2f, 0x64, 0x65, 0x76, 0x2f, 0x66, 0x62, 0x30];
    let fdd: [u8; 13] = [0x2f, 0x70, 0x72, 0x6f, 0x63, 0x2f, 0x73, 0x65, 0x6c, 0x66, 0x2f, 0x66, 0x64];
    assert(exe@ =~= proc_self_exe());
    assert(fb@ =~= dev_fb0());
    assert(fdd@ =~= proc_self_fd());
    if bytes_equal(path, exe.as_slice()) {
        return Ok(LookupPlan::ExeLink);
    }
    if bytes_equal(path, fb.as_slice()) {
        return Ok(LookupPlan::FrameBuffer);
    }
    let (dir, name) = split_path(path);
    if bytes_equal(dir.as_slice(), fdd.as_slice()) {
        let fd = match parse_usize(name.as_slice()) {
            Some(fd) => fd,
            None => {
                return Err(SysError::EINVAL);
            },
        };
        let description = files.get_file(fd)?;
        return Ok(LookupPlan::FdLink { description });
    }
    if path.len() > 0 && path[0] == 0x2f {
        Ok(LookupPlan::FromRoot { follow })
    } else if dirfd == AT_FDCWD {
        Ok(LookupPlan::FromCwd { follow })
    } else {
        let description = files.get_file(dirfd)?;
        Ok(LookupPlan::FromDir { description, follow })
    }
}

/// What `openat` with `O_CREAT` does once the name is looked for in its
/// directory.
#[derive(Debug, Clone, Copy, PartialEq, Eq, Structural)]
pub enum OpenAction {
    /// Open the file found.
    OpenFound,
    /// Create the file.
    Create,
}

/// `openat`'s decision on the lookup of the name with `O_CREAT`: a found
/// file is opened, unless `O_EXCL` makes it `EEXIST`; a missing one is
/// created; another error is passed on.
pub fn open_create_action(flags: OpenFlags, found: Result<(), FsError>) -> (r: Result<OpenAction, SysError>)
    ensures
        r == match found {
            Ok(()) => if flags.0 & OpenFlags::EXCLUSIVE == OpenFlags::EXCLUSIVE {
                Err::<OpenAction, SysError>(SysError::EEXIST)
            } else {
                Ok(OpenAction::OpenFound)
            },
            Err(FsError::EntryNotFound) => Ok(OpenAction::Create),
            Err(e) => Err(fs_error_errno(e)),
        },
{
    match found {
        Ok(()) => if flags.contains(OpenFlags::EXCLUSIVE) {
            Err(SysError::EEXIST)
        } else {
            Ok(OpenAction::OpenFound)
        },
        Err(FsError::EntryNotFound) => Ok(OpenAction::Create),
        Err(e) => Err(SysError::from(e)),
    }
}

/// `pipe`: the read end and then the write end each take the lowest free
/// descriptor.
pub fn pipe_fds(files: &mut FdTable, read_end: usize, write_end: usize) -> (r: (usize, usize))
    requires
        old(files).view().dom().len() + 2 < usize::MAX,
    ensures
        is_lowest_free(old(files).view(), 0, r.0),
        is_lowest_free(old(files).view().insert(r.0, FileLike::File { description: read_end, cloexec: false }), 0, r.1),
        final(files).view() == old(files).view().insert(r.0, FileLike::File { description: read_end, cloexec: false }).insert(
            r.1,
            FileLike::File { description: write_end, cloexec: false },
        ),
{
    let rfd = files.add_file(FileLike::File { description: read_end, cloexec: false });
    let wfd = files.add_file(FileLike::File { description: write_end, cloexec: false });
    (rfd, wfd)
}

proof fn lemma_decimal_digits(n: nat)
    ensures
        decimal(n).len() > 0,
        all_digits(decimal(n)),
        digits_value(decimal(n)) == n,
        0x30 <= decimal(n)[0] <= 0x39,
    decreases n,
{
    if n >= 10 {
        lemma_decimal_digits(n / 10);
        let d = decimal(n / 10);
        assert(decimal(n).drop_last() =~= d);
        assert(decimal(n).last() == (48 + n % 10) as u8);
        assert(((48 + n % 10) as u8) as int == 48 + n % 10);
        assert((n / 10) * 10 + n % 10 == n) by (nonlinear_arith);
        assert(digits_value(decimal(n)) == digits_value(d) * 10 + (decimal(n).last() - 0x30));
        assert forall|i: int| 0 <= i < decimal(n).len() implies 0x30 <= #[trigger] decimal(n)[i] <= 0x39 by {
            if i < d.len() {
                assert(decimal(n)[i] == d[i]);
            }
        }
    } else {
        assert(decimal(n).drop_last() =~= Seq::<u8>::empty());
        assert(((48 + n) as u8) as int == 48 + n);
        assert(digits_value(decimal(n)) == digits_value(decimal(n).drop_last()) * 10 + (decimal(n).last() - 0x30));
        assert(digits_value(Seq::<u8>::empty()) == 0);
    }
}

/// Reading back a number that the log printed gives the number: the
/// decimal digits of `n` parse to `n`.
pub proof fn lemma_parse_decimal(n: usize)
    ensures
        parse_usize_spec(decimal(n as nat)) == Some(n),
{
    lemma_decimal_digits(n as nat);
}

} // verus!
