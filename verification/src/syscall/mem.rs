//! `mmap`: the reading of its protection and flags, and the mapping it asks
//! for.

use vstd::prelude::*;

use crate::memory::{MemoryAttr, PAGE_SIZE};

verus! {

/// The protection bits of `mmap`.
#[derive(Debug, Clone, Copy, PartialEq, Eq, Structural)]
pub struct MmapProt(pub usize);

impl MmapProt {
    pub const NONE: usize = 0;
    pub const READ: usize = 1;
    pub const WRITE: usize = 2;
    pub const EXEC: usize = 4;

    /// The named bits of `bits`.
    pub fn from_bits_truncate(bits: usize) -> (p: Self)
        ensures
            p.0 == bits & 7,
    {
        MmapProt(bits & 7)
    }

    /// The attributes of the mapping: user memory, executable with `EXEC`;
    /// it stays writable whatever `WRITE` says.
    pub fn to_attr(self) -> (a: MemoryAttr)
        ensures
            a == (MemoryAttr { user: true, readonly: false, execute: self.0 & Self::EXEC == Self::EXEC, mmio: 0 }),
    {
        let mut attr = MemoryAttr::default().user();
        if self.0 & Self::EXEC == Self::EXEC {
            attr = attr.execute();
        }
        attr
    }
}

/// The flags of `mmap`.
#[derive(Debug, Clone, Copy, PartialEq, Eq, Structural)]
pub struct MmapFlags(pub usize);

impl MmapFlags {
    pub const SHARED: usize = 1;
    pub const PRIVATE: usize = 2;
    pub const FIXED: usize = 0x10;
    pub const ANONYMOUS: usize = 0x20;

    /// The named bits of `bits`.
    pub fn from_bits_truncate(bits: usize) -> (f: Self)
        ensures
            f.0 == bits & 0x33,
    {
        MmapFlags(bits & 0x33)
    }

    pub fn contains(&self, flag: usize) -> (b: bool)
        ensures
            b == (self.0 & flag == flag),
    {
        self.0 & flag == flag
    }
}

/// What backs a new mapping.
#[derive(Debug, Clone, Copy, PartialEq, Eq, Structural)]
pub enum MmapBacking {
    /// Zeroed frames shared with the children.
    AnonShared,
    /// Zeroed frames given on first touch.
    AnonPrivate,
    /// The file of the descriptor.
    File { fd: usize },
}

/// The mapping that `mmap` asks for.
#[derive(Debug, Clone, Copy, PartialEq, Eq, Structural)]
pub struct MmapRequest {
    /// Where it goes (exactly, with `fixed`) or from where a free range is
    /// looked for.
    pub addr: usize,
    pub fixed: bool,
    pub backing: MmapBacking,
    pub attr: MemoryAttr,
    pub prot: usize,
    pub flags: usize,
}

/// `mmap`'s reading of its arguments: address 0 becomes the first page
/// (a null result would read as failure); a fixed mapping replaces what
/// was there; anonymous mappings are shared or private, others map the
/// file of `fd`.
pub fn mmap_request(addr: usize, prot: usize, flags: usize, fd: usize) -> (r: MmapRequest)
    ensures
        r.addr == if addr == 0 { PAGE_SIZE } else { addr },
        r.prot == prot & 7,
        r.flags == flags & 0x33,
        r.fixed == (flags & 0x33 & MmapFlags::FIXED == MmapFlags::FIXED),
        r.backing == if flags & 0x33 & MmapFlags::ANONYMOUS == MmapFlags::ANONYMOUS {
            if flags & 0x33 & MmapFlags::SHARED == MmapFlags::SHARED {
                MmapBacking::AnonShared
            } else {
                MmapBacking::AnonPrivate
            }
        } else {
            MmapBacking::File { fd }
        },
        r.attr == (MemoryAttr { user: true, readonly: false, execute: prot & 7 & MmapProt::EXEC == MmapProt::EXEC, mmio: 0 }),
{
    let prot = MmapProt::from_bits_truncate(prot);
    let flags = MmapFlags::from_bits_truncate(flags);
    let start = if addr == 0 { PAGE_SIZE } else { addr };
    let backing = if flags.contains(MmapFlags::ANONYMOUS) {
        if flags.contains(MmapFlags::SHARED) {
            MmapBacking::AnonShared
        } else {
            MmapBacking::AnonPrivate
        }
    } else {
        MmapBacking::File { fd }
    };
    MmapRequest {
        addr: start,
        fixed: flags.contains(MmapFlags::FIXED),
        backing,
        attr: prot.to_attr(),
        prot: prot.0,
        flags: flags.0,
    }
}

/// The area that a file is asked to map.
#[derive(Debug, Clone, Copy, PartialEq, Eq, Structural)]
pub struct MMapArea {
    pub start_vaddr: usize,
    pub end_vaddr: usize,
    pub prot: usize,
    pub flags: usize,
    pub offset: usize,
}

/// The area of `len` bytes at `addr` for a file mapping.
pub fn mmap_file_area(req: &MmapRequest, addr: usize, len: usize, offset: usize) -> (a: MMapArea)
    requires
        addr + len <= usize::MAX,
    ensures
        a == (MMapArea { start_vaddr: addr, end_vaddr: (addr + len) as usize, prot: req.prot, flags: req.flags, offset }),
{
    MMapArea { start_vaddr: addr, end_vaddr: addr + len, prot: req.prot, flags: req.flags, offset }
}

} // verus!
