//! `copy_file_range` (and `sendfile`): the copy loop as a sequence of reads
//! and writes through a 1 KiB buffer, and the offsets it leaves behind.

use vstd::prelude::*;

use crate::syscall::{SysError, SysResult};

verus! {

/// The size of the buffer that bytes go through.
pub const COPY_BUF_SIZE: usize = 1024;

/// Where a copy stands.
pub struct CopyFileRange {
    /// Bytes asked for.
    pub count: usize,
    /// Bytes read so far.
    pub bytes_read: usize,
    /// Where the next read starts.
    pub read_offset: usize,
    /// Bytes written out of the chunks that are done.
    pub total_written: usize,
    /// The length of the chunk in the buffer, and how much of it is written.
    pub chunk_len: usize,
    pub chunk_written: usize,
    /// Whether the copy has ended.
    pub done: bool,
}

/// The next thing a copy asks of the files.
#[derive(Debug, Clone, Copy, PartialEq, Eq, Structural)]
pub enum CopyStep {
    /// Read up to `len` bytes at `offset` of the input into the buffer.
    Read { offset: usize, len: usize },
    /// Write the `len` bytes of the buffer from `from` to the output.
    Write { from: usize, len: usize },
    /// Nothing more.
    Finish,
}

impl CopyFileRange {
    pub open spec fn wf(&self) -> bool {
        &&& self.bytes_read <= self.count
        &&& self.chunk_written <= self.chunk_len <= COPY_BUF_SIZE
        &&& self.total_written + self.chunk_len == self.bytes_read
    }

    /// A copy of `count` bytes that reads from `read_offset`.
    pub fn new(count: usize, read_offset: usize) -> (c: Self)
        ensures
            c.wf(),
            c.count == count,
            c.read_offset == read_offset,
            c.bytes_read == 0,
            c.total_written == 0,
            c.chunk_len == 0,
            c.chunk_written == 0,
            !c.done,
    {
        CopyFileRange {
            count,
            bytes_read: 0,
            read_offset,
            total_written: 0,
            chunk_len: 0,
            chunk_written: 0,
            done: false,
        }
    }

    /// What comes next: the rest of the chunk in the buffer is written;
    /// then, while bytes are still asked for, the next chunk of at most
    /// 1 KiB is read; else the copy is over.
    pub fn next_step(&self) -> (s: CopyStep)
        requires
            self.wf(),
        ensures
            s == if self.done {
                CopyStep::Finish
            } else if self.chunk_written < self.chunk_len {
                CopyStep::Write { from: self.chunk_written, len: (self.chunk_len - self.chunk_written) as usize }
            } else if self.bytes_read < self.count {
                CopyStep::Read {
                    offset: self.read_offset,
                    len: if self.count - self.bytes_read < COPY_BUF_SIZE {
                        (self.count - self.bytes_read) as usize
                    } else {
                        COPY_BUF_SIZE
                    },
                }
            } else {
                CopyStep::Finish
            },
    {
        if self.done {
            CopyStep::Finish
        } else if self.chunk_written < self.chunk_len {
            CopyStep::Write { from: self.chunk_written, len: self.chunk_len - self.chunk_written }
        } else if self.bytes_read < self.count {
            let rest = self.count - self.bytes_read;
            CopyStep::Read { offset: self.read_offset, len: if rest < COPY_BUF_SIZE { rest } else { COPY_BUF_SIZE } }
        } else {
            CopyStep::Finish
        }
    }

    /// A read gave `read_len` bytes: none ends the copy; else they are the
    /// new chunk, and the read offset moves past them.
    pub fn after_read(&mut self, read_len: usize)
        requires
            old(self).wf(),
            !old(self).done,
            old(self).chunk_written == old(self).chunk_len,
            old(self).bytes_read < old(self).count,
            read_len <= old(self).count - old(self).bytes_read,
            read_len <= COPY_BUF_SIZE,
            old(self).read_offset + read_len <= usize::MAX,
        ensures
            final(self).wf(),
            final(self).count == old(self).count,
            read_len == 0 ==> final(self).done && final(self).bytes_read == old(self).bytes_read
                && final(self).read_offset == old(self).read_offset
                && final(self).total_written == old(self).total_written + old(self).chunk_len,
            read_len > 0 ==> !final(self).done && final(self).bytes_read == old(self).bytes_read + read_len
                && final(self).read_offset == old(self).read_offset + read_len
                && final(self).total_written == old(self).total_written + old(self).chunk_len
                && final(self).chunk_len == read_len && final(self).chunk_written == 0,
    {
        self.total_written = self.total_written + self.chunk_len;
        self.chunk_len = 0;
        self.chunk_written = 0;
        if read_len == 0 {
            self.done = true;
            return;
        }
        self.bytes_read = self.bytes_read + read_len;
        self.read_offset = self.read_offset + read_len;
        self.chunk_len = read_len;
    }

    /// A write took `write_len` bytes of the chunk: none fails the copy
    /// with `EBADF`.
    pub fn after_write(&mut self, write_len: usize) -> (r: Result<(), SysError>)
        requires
            old(self).wf(),
            !old(self).done,
            old(self).chunk_written < old(self).chunk_len,
            write_len <= old(self).chunk_len - old(self).chunk_written,
        ensures
            final(self).wf(),
            final(self).count == old(self).count,
            final(self).bytes_read == old(self).bytes_read,
            final(self).read_offset == old(self).read_offset,
            final(self).total_written == old(self).total_written,
            final(self).chunk_len == old(self).chunk_len,
            write_len == 0 ==> r == Err::<(), SysError>(SysError::EBADF) && final(self).done,
            write_len > 0 ==> r == Ok::<(), SysError>(()) && !final(self).done
                && final(self).chunk_written == old(self).chunk_written + write_len,
    {
        if write_len == 0 {
            self.done = true;
            return Err(SysError::EBADF);
        }
        self.chunk_written = self.chunk_written + write_len;
        Ok(())
    }

    /// The bytes written in all.
    pub open spec fn written(&self) -> int {
        self.total_written + self.chunk_written
    }
}

/// How the offsets are left when the copy is over.
#[derive(Debug, Clone, Copy)]
pub struct CopyFinish {
    /// Store this at the caller's input offset; else move the input file's
    /// offset on by `in_seek`.
    pub in_offset_store: Option<usize>,
    pub in_seek: Option<usize>,
    /// Store this at the caller's output offset and put the output file's
    /// offset back at `out_restore`.
    pub out_offset_store: Option<usize>,
    pub out_restore: Option<u64>,
    pub result: SysResult,
}

/// What a finished copy leaves: with an input offset of the caller, the
/// read offset goes there, else the input file moves on by the bytes read;
/// with an output offset, that offset moves on by the bytes written and the
/// output file's own offset goes back to where it was. The result is the
/// bytes written.
pub fn copy_finish(
    copy: &CopyFileRange,
    in_offset_given: bool,
    out_offset_given: bool,
    write_offset: usize,
    orig_out_offset: u64,
) -> (f: CopyFinish)
    requires
        copy.wf(),
        copy.chunk_written == copy.chunk_len,
        write_offset + copy.total_written + copy.chunk_written <= usize::MAX,
    ensures
        f == (CopyFinish {
            in_offset_store: if in_offset_given { Some(copy.read_offset) } else { None },
            in_seek: if in_offset_given { None } else { Some(copy.bytes_read) },
            out_offset_store: if out_offset_given { Some((write_offset + copy.written()) as usize) } else { None },
            out_restore: if out_offset_given { Some(orig_out_offset) } else { None },
            result: Ok((copy.written()) as usize),
        }),
{
    let written = copy.total_written + copy.chunk_written;
    CopyFinish {
        in_offset_store: if in_offset_given { Some(copy.read_offset) } else { None },
        in_seek: if in_offset_given { None } else { Some(copy.bytes_read) },
        out_offset_store: if out_offset_given { Some(write_offset + written) } else { None },
        out_restore: if out_offset_given { Some(orig_out_offset) } else { None },
        result: Ok(written),
    }
}

/// A copy that stops between chunks has written every byte it read.
pub proof fn lemma_copy_written_all_read(copy: CopyFileRange)
    requires
        copy.wf(),
        copy.chunk_written == copy.chunk_len,
    ensures
        copy.written() == copy.bytes_read,
        copy.bytes_read <= copy.count,
{
}

} // verus!
