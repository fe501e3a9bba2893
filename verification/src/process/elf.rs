//! Loading an ELF program: the checks on its header, the areas that its
//! segments map, where its program headers and interpreter are, and the
//! auxiliary vector that tells the program about itself.

use vstd::prelude::*;

use super::abi::{AT_BASE, AT_ENTRY, AT_PAGESZ, AT_PHDR, AT_PHENT, AT_PHNUM};
use crate::memory::{page_floor, MemoryAttr, PAGE_SIZE};

verus! {

/// Program header type: a loadable segment.
pub const PT_LOAD: u32 = 1;
/// Program header type: the path of the interpreter.
pub const PT_INTERP: u32 = 3;
/// Program header type: the program header table itself.
pub const PT_PHDR: u32 = 6;

/// Segment flag: executable.
pub const PF_X: u32 = 1;
/// Segment flag: writable.
pub const PF_W: u32 = 2;
/// Segment flag: readable.
pub const PF_R: u32 = 4;

/// ELF type: executable file.
pub const ET_EXEC: u16 = 2;
/// ELF type: shared object.
pub const ET_DYN: u16 = 3;

/// ELF machine: x86_64.
pub const EM_X86_64: u16 = 0x3e;

/// A program header, as the ELF file states it.
#[derive(Clone, Copy, Debug, PartialEq, Eq, Structural)]
pub struct ProgramHeaderInfo {
    /// the raw segment type
    pub ph_type: u32,
    pub flags: u32,
    pub offset: u64,
    pub virtual_addr: u64,
    pub file_size: u64,
    pub mem_size: u64,
}

/// The parts of an ELF header that loading reads, and its program headers
/// in file order.
#[derive(Clone, Debug)]
pub struct ElfSummary {
    /// `e_type`
    pub elf_type: u16,
    /// `e_machine`
    pub machine: u16,
    pub entry_point: u64,
    pub ph_offset: u64,
    pub ph_entry_size: u16,
    pub ph_count: u16,
    pub program_headers: Vec<ProgramHeaderInfo>,
}

/// An area of a memory set backed by a file.
#[derive(Clone, Copy, Debug, PartialEq, Eq, Structural)]
pub struct FileMapArea {
    pub start: usize,
    pub end: usize,
    pub attr: MemoryAttr,
    /// where the file's bytes begin in memory
    pub mem_start: usize,
    pub file_start: usize,
    pub file_end: usize,
}

/// The access rights of a segment: user memory, executable when the
/// segment is, read-only when it is not writable.
pub open spec fn segment_attr(flags: u32) -> MemoryAttr {
    MemoryAttr {
        user: true,
        readonly: flags & PF_W != PF_W,
        execute: flags & PF_X == PF_X,
        mmio: 0,
    }
}

/// The access rights of a segment in the older loader: user memory,
/// executable when the segment is (never read-only).
pub open spec fn legacy_segment_attr(flags: u32) -> MemoryAttr {
    MemoryAttr { user: true, readonly: false, execute: flags & PF_X == PF_X, mmio: 0 }
}

/// The access rights of a segment.
pub fn segment_to_attr(flags: u32) -> (a: MemoryAttr)
    ensures
        a == segment_attr(flags),
{
    let mut attr = MemoryAttr::default().user();
    if flags & PF_X == PF_X {
        attr = attr.execute();
    }
    if flags & PF_W != PF_W {
        attr = attr.readonly();
    }
    attr
}

/// The access rights of a segment in the older loader.
pub fn memory_attr_from(flags: u32) -> (a: MemoryAttr)
    ensures
        a == legacy_segment_attr(flags),
{
    let mut attr = MemoryAttr::default().user();
    if flags & PF_X == PF_X {
        attr = attr.execute();
    }
    attr
}

/// The area that a loadable segment maps, moved up by `bias`.
pub open spec fn segment_area(ph: ProgramHeaderInfo, bias: int) -> FileMapArea {
    FileMapArea {
        start: (ph.virtual_addr as usize + bias) as usize,
        end: (ph.virtual_addr as usize + ph.mem_size as usize + bias) as usize,
        attr: segment_attr(ph.flags),
        mem_start: (ph.virtual_addr as usize + bias) as usize,
        file_start: ph.offset as usize,
        file_end: (ph.offset as usize + ph.file_size as usize) as usize,
    }
}

/// The loadable segments among `phs`, in order.
pub open spec fn load_segments(phs: Seq<ProgramHeaderInfo>) -> Seq<ProgramHeaderInfo> {
    phs.filter(|ph: ProgramHeaderInfo| ph.ph_type == PT_LOAD)
}

/// The areas of the loadable segments, moved up by `bias`.
pub open spec fn segment_areas(phs: Seq<ProgramHeaderInfo>, bias: int) -> Seq<FileMapArea> {
    load_segments(phs).map_values(|ph: ProgramHeaderInfo| segment_area(ph, bias))
}

/// Whether the addresses of every loadable segment, moved up by `bias`, fit
/// in a machine word, with a page to spare above the segment's end.
pub open spec fn segments_fit(phs: Seq<ProgramHeaderInfo>, bias: int) -> bool {
    forall|i: int| 0 <= i < phs.len() && (#[trigger] phs[i]).ph_type == PT_LOAD ==> {
        &&& phs[i].virtual_addr as usize + phs[i].mem_size as usize + bias + PAGE_SIZE <= usize::MAX
        &&& phs[i].offset as usize + phs[i].file_size as usize <= usize::MAX
    }
}

/// The highest end address among the loadable segments (0 if none).
pub open spec fn farthest_end(phs: Seq<ProgramHeaderInfo>) -> int
    decreases phs.len(),
{
    if phs.len() == 0 {
        0
    } else {
        let rest = farthest_end(phs.drop_last());
        let ph = phs.last();
        let end = ph.virtual_addr as usize + ph.mem_size as usize;
        if ph.ph_type == PT_LOAD && end > rest { end } else { rest }
    }
}

/// Where a program's memory ends: the page after the one that holds the
/// end of its farthest segment.
pub open spec fn program_break(phs: Seq<ProgramHeaderInfo>) -> int {
    page_floor(farthest_end(phs) + PAGE_SIZE)
}

/// Whether loadable segments fit in the address space.
pub fn check_segments_fit(phs: &Vec<ProgramHeaderInfo>, bias: usize) -> (b: bool)
    ensures
        b == segments_fit(phs@, bias as int),
{
    let mut i: usize = 0;
    while i < phs.len()
        invariant
            i <= phs@.len(),
            forall|k: int| 0 <= k < i && (#[trigger] phs@[k]).ph_type == PT_LOAD ==> {
                &&& phs@[k].virtual_addr as usize + phs@[k].mem_size as usize + bias + PAGE_SIZE <= usize::MAX
                &&& phs@[k].offset as usize + phs@[k].file_size as usize <= usize::MAX
            },
        decreases phs.len() - i,
    {
        let ph = phs[i];
        if ph.ph_type == PT_LOAD {
            let va = ph.virtual_addr as usize;
            let ms = ph.mem_size as usize;
            if va > usize::MAX - PAGE_SIZE || ms > usize::MAX - PAGE_SIZE - va || bias > usize::MAX - PAGE_SIZE - va - ms {
                return false;
            }
            let off = ph.offset as usize;
            let fs = ph.file_size as usize;
            if fs > usize::MAX - off {
                return false;
            }
        }
        i = i + 1;
    }
    true
}

proof fn lemma_farthest_end_bound(phs: Seq<ProgramHeaderInfo>)
    requires
        segments_fit(phs, 0),
    ensures
        0 <= farthest_end(phs) <= usize::MAX - PAGE_SIZE,
    decreases phs.len(),
{
    if phs.len() > 0 {
        let d = phs.drop_last();
        assert forall|i: int| 0 <= i < d.len() && (#[trigger] d[i]).ph_type == PT_LOAD implies {
            &&& d[i].virtual_addr as usize + d[i].mem_size as usize + 0 + PAGE_SIZE <= usize::MAX
            &&& d[i].offset as usize + d[i].file_size as usize <= usize::MAX
        } by {
            assert(d[i] == phs[i]);
        }
        lemma_farthest_end_bound(d);
        assert(phs.last() == phs[phs.len() - 1]);
    }
}

/// The areas that an ELF program maps (each named "elf" in its memory set),
/// and where the program's memory ends.
pub fn make_memory_set(elf: &ElfSummary) -> (r: (Vec<FileMapArea>, usize))
    requires
        segments_fit(elf.program_headers@, 0),
    ensures
        r.0@ == segment_areas(elf.program_headers@, 0),
        r.1 == program_break(elf.program_headers@),
        forall|i: int| 0 <= i < elf.program_headers@.len() && (#[trigger] elf.program_headers@[i]).ph_type == PT_LOAD
            ==> exists|k: int| 0 <= k < r.0@.len() && maps_segment(#[trigger] r.0@[k], elf.program_headers@[i], 0),
{
    let r = segment_memory_set(elf);
    proof {
        lemma_each_load_segment_mapped(elf.program_headers@, 0);
    }
    r
}

fn segment_memory_set(elf: &ElfSummary) -> (r: (Vec<FileMapArea>, usize))
    requires
        segments_fit(elf.program_headers@, 0),
    ensures
        r.0@ == segment_areas(elf.program_headers@, 0),
        r.1 == program_break(elf.program_headers@),
{
    let phs = &elf.program_headers;
    let mut areas: Vec<FileMapArea> = Vec::new();
    let mut farthest: usize = 0;
    let mut i: usize = 0;
    proof {
        assert(phs@.subrange(0, 0) =~= Seq::<ProgramHeaderInfo>::empty());
        assert(load_segments(phs@.subrange(0, 0)) =~= Seq::<ProgramHeaderInfo>::empty());
    }
    while i < phs.len()
        invariant
            i <= phs@.len(),
            phs == &elf.program_headers,
            segments_fit(phs@, 0),
            areas@ == segment_areas(phs@.subrange(0, i as int), 0),
            farthest == farthest_end(phs@.subrange(0, i as int)),
            farthest <= usize::MAX - PAGE_SIZE,
        decreases phs.len() - i,
    {
        let ph = phs[i];
        let ghost pre = phs@.subrange(0, i as int);
        let ghost post = phs@.subrange(0, i + 1);
        proof {
            assert(post.drop_last() =~= pre);
            assert(post.last() == ph);
            reveal(Seq::filter);
            assert(load_segments(post) == if ph.ph_type == PT_LOAD { load_segments(pre).push(ph) } else { load_segments(pre) });
        }
        if ph.ph_type == PT_LOAD {
            let start = ph.virtual_addr as usize;
            let end = ph.virtual_addr as usize + ph.mem_size as usize;
            let area = FileMapArea {
                start,
                end,
                attr: segment_to_attr(ph.flags),
                mem_start: start,
                file_start: ph.offset as usize,
                file_end: ph.offset as usize + ph.file_size as usize,
            };
            areas.push(area);
            proof {
                assert(areas@ =~= segment_areas(post, 0));
            }
            if end > farthest {
                farthest = end;
            }
        } else {
            proof {
                assert(areas@ =~= segment_areas(post, 0));
            }
        }
        i = i + 1;
    }
    assert(phs@.subrange(0, phs@.len() as int) =~= phs@);
    let brk = (farthest + PAGE_SIZE) - (farthest + PAGE_SIZE) % PAGE_SIZE;
    (areas, brk)
}

/// Whether `a` maps loadable segment `ph` moved up by `bias`: its
/// addresses are the segment's, from the segment's virtual address for its
/// memory size, and its file bytes are exactly the segment's, from its file
/// offset for its file size.
#[verifier::opaque]
pub open spec fn maps_segment(a: FileMapArea, ph: ProgramHeaderInfo, bias: int) -> bool {
    &&& a.start == ph.virtual_addr as usize + bias
    &&& a.mem_start == a.start
    &&& a.end - a.start == ph.mem_size as usize
    &&& a.file_start == ph.offset as usize
    &&& a.file_end - a.file_start == ph.file_size as usize
    &&& a.attr.user
    &&& a.attr.readonly == (ph.flags & PF_W != PF_W)
    &&& a.attr.execute == (ph.flags & PF_X == PF_X)
}

proof fn lemma_area_of_load_segment(phs: Seq<ProgramHeaderInfo>, bias: int, k: int) -> (i: int)
    requires
        bias >= 0,
        segments_fit(phs, bias),
        0 <= k < load_segments(phs).len(),
    ensures
        0 <= i < phs.len(),
        phs[i] == load_segments(phs)[k],
        phs[i].ph_type == PT_LOAD,
        segment_areas(phs, bias).len() == load_segments(phs).len(),
        maps_segment(segment_areas(phs, bias)[k], phs[i], bias),
{
    let pred = |ph: ProgramHeaderInfo| ph.ph_type == PT_LOAD;
    let ls = load_segments(phs);
    phs.lemma_filter_pred(pred, k);
    phs.lemma_filter_contains_rev(pred, ls[k]);
    let i = choose|i: int| 0 <= i < phs.len() && phs[i] == ls[k];
    assert(phs[i].ph_type == PT_LOAD);
    reveal(maps_segment);
    i
}

proof fn lemma_load_segment_has_area(phs: Seq<ProgramHeaderInfo>, bias: int, i: int) -> (k: int)
    requires
        bias >= 0,
        segments_fit(phs, bias),
        0 <= i < phs.len(),
        phs[i].ph_type == PT_LOAD,
    ensures
        0 <= k < segment_areas(phs, bias).len(),
        maps_segment(segment_areas(phs, bias)[k], phs[i], bias),
{
    let pred = |ph: ProgramHeaderInfo| ph.ph_type == PT_LOAD;
    phs.lemma_filter_contains(pred, i);
    let k = choose|k: int| 0 <= k < load_segments(phs).len() && load_segments(phs)[k] == phs[i];
    let _ = lemma_area_of_load_segment(phs, bias, k);
    k
}

/// Every loadable header of a program is mapped by one of its areas: an
/// area at the segment's addresses that holds exactly the segment's bytes
/// of the file.
pub proof fn lemma_each_load_segment_mapped(phs: Seq<ProgramHeaderInfo>, bias: int)
    requires
        bias >= 0,
        segments_fit(phs, bias),
    ensures
        forall|i: int| 0 <= i < phs.len() && (#[trigger] phs[i]).ph_type == PT_LOAD ==> exists|k: int|
            0 <= k < segment_areas(phs, bias).len() && maps_segment(#[trigger] segment_areas(phs, bias)[k], phs[i], bias),
{
    assert forall|i: int| 0 <= i < phs.len() && (#[trigger] phs[i]).ph_type == PT_LOAD implies exists|k: int|
        0 <= k < segment_areas(phs, bias).len() && maps_segment(#[trigger] segment_areas(phs, bias)[k], phs[i], bias) by {
        let k = lemma_load_segment_has_area(phs, bias, i);
    }
}

/// Every area of a program maps one of its loadable headers, and there are
/// as many areas as loadable headers (`load_segments` keeps exactly the
/// `PT_LOAD` headers, in order): the `k`-th area maps the `k`-th of them,
/// which is one of the program's `PT_LOAD` headers.
pub proof fn lemma_each_area_maps_a_load_segment(phs: Seq<ProgramHeaderInfo>, bias: int)
    requires
        bias >= 0,
        segments_fit(phs, bias),
    ensures
        segment_areas(phs, bias).len() == load_segments(phs).len(),
        forall|k: int| #![trigger segment_areas(phs, bias)[k]] 0 <= k < segment_areas(phs, bias).len() ==> {
            &&& maps_segment(segment_areas(phs, bias)[k], load_segments(phs)[k], bias)
            &&& load_segments(phs)[k].ph_type == PT_LOAD
            &&& exists|i: int| 0 <= i < phs.len() && #[trigger] phs[i] == load_segments(phs)[k]
        },
{
    assert forall|k: int| #![trigger segment_areas(phs, bias)[k]] 0 <= k < segment_areas(phs, bias).len() implies {
        &&& maps_segment(segment_areas(phs, bias)[k], load_segments(phs)[k], bias)
        &&& load_segments(phs)[k].ph_type == PT_LOAD
        &&& exists|i: int| 0 <= i < phs.len() && #[trigger] phs[i] == load_segments(phs)[k]
    } by {
        let i = lemma_area_of_load_segment(phs, bias, k);
    }
}

/// The areas that an interpreter maps when it is loaded `bias` bytes up
/// (each named "elf-interp" in the memory set).
pub fn append_as_interpreter(elf: &ElfSummary, bias: usize) -> (areas: Vec<FileMapArea>)
    requires
        segments_fit(elf.program_headers@, bias as int),
    ensures
        areas@ == segment_areas(elf.program_headers@, bias as int),
{
    let phs = &elf.program_headers;
    let mut areas: Vec<FileMapArea> = Vec::new();
    let mut i: usize = 0;
    proof {
        assert(load_segments(phs@.subrange(0, 0)) =~= Seq::<ProgramHeaderInfo>::empty());
    }
    while i < phs.len()
        invariant
            i <= phs@.len(),
            phs == &elf.program_headers,
            segments_fit(phs@, bias as int),
            areas@ == segment_areas(phs@.subrange(0, i as int), bias as int),
        decreases phs.len() - i,
    {
        let ph = phs[i];
        let ghost pre = phs@.subrange(0, i as int);
        let ghost post = phs@.subrange(0, i + 1);
        proof {
            assert(post.drop_last() =~= pre);
            assert(post.last() == ph);
            reveal(Seq::filter);
        }
        if ph.ph_type == PT_LOAD {
            let start = ph.virtual_addr as usize + bias;
            let area = FileMapArea {
                start,
                end: ph.virtual_addr as usize + ph.mem_size as usize + bias,
                attr: segment_to_attr(ph.flags),
                mem_start: start,
                file_start: ph.offset as usize,
                file_end: ph.offset as usize + ph.file_size as usize,
            };
            areas.push(area);
        }
        proof {
            assert(areas@ =~= segment_areas(post, bias as int));
        }
        i = i + 1;
    }
    assert(phs@.subrange(0, phs@.len() as int) =~= phs@);
    areas
}

/// The index of the first program header of type `t`, at `from` or after.
pub open spec fn first_of_type(phs: Seq<ProgramHeaderInfo>, t: u32, from: nat) -> Option<nat>
    decreases phs.len() - from,
{
    if from >= phs.len() {
        None
    } else if phs[from as int].ph_type == t {
        Some(from)
    } else {
        first_of_type(phs, t, from + 1)
    }
}

/// The index of the first loadable segment that starts at file offset 0.
pub open spec fn first_load_at_zero(phs: Seq<ProgramHeaderInfo>, from: nat) -> Option<nat>
    decreases phs.len() - from,
{
    if from >= phs.len() {
        None
    } else if phs[from as int].ph_type == PT_LOAD && phs[from as int].offset == 0 {
        Some(from)
    } else {
        first_load_at_zero(phs, from + 1)
    }
}

/// `s` without its trailing NUL bytes.
pub open spec fn trim_trailing_nuls(s: Seq<u8>) -> Seq<u8>
    decreases s.len(),
{
    if s.len() > 0 && s.last() == 0 {
        trim_trailing_nuls(s.drop_last())
    } else {
        s
    }
}

/// Converts bytes to a string slice if they are valid UTF-8
/// (`core::str::from_utf8`). The slice has exactly the given bytes.
#[verifier::external_body]
pub(crate) fn str_from_utf8(bytes: &[u8]) -> (r: Option<&str>)
    ensures
        r is Some <==> vstd::utf8::valid_utf8(bytes@),
        r matches Some(s) ==> vstd::utf8::encode_utf8(s@) == bytes@,
{
    match core::str::from_utf8(bytes) {
        Ok(s) => Some(s),
        Err(_) => None,
    }
}

/// Where the program headers are in memory: the address that a `PT_PHDR`
/// header gives, or else the load address of the segment that starts at
/// file offset 0 plus the table's file offset.
pub open spec fn phdr_vaddr(elf_phs: Seq<ProgramHeaderInfo>, ph_offset: u64) -> Option<int> {
    match first_of_type(elf_phs, PT_PHDR, 0) {
        Some(i) => Some(elf_phs[i as int].virtual_addr as int),
        None => match first_load_at_zero(elf_phs, 0) {
            Some(i) => Some(elf_phs[i as int].virtual_addr + ph_offset),
            None => None,
        },
    }
}

impl ElfSummary {
    /// Whether the program header address can be computed in 64 bits.
    pub open spec fn phdr_fits(&self) -> bool {
        phdr_vaddr(self.program_headers@, self.ph_offset) matches Some(a) ==> a <= u64::MAX
    }

    /// The virtual address of the program headers, if it can be found.
    pub fn get_phdr_vaddr(&self) -> (r: Option<u64>)
        requires
            self.phdr_fits(),
        ensures
            r == (match phdr_vaddr(self.program_headers@, self.ph_offset) {
                Some(a) => Some(a as u64),
                None => None::<u64>,
            }),
    {
        let phs = &self.program_headers;
        let mut i: usize = 0;
        while i < phs.len()
            invariant
                i <= phs@.len(),
                phs == &self.program_headers,
                first_of_type(phs@, PT_PHDR, 0) == first_of_type(phs@, PT_PHDR, i as nat),
            decreases phs.len() - i,
        {
            if phs[i].ph_type == PT_PHDR {
                return Some(phs[i].virtual_addr);
            }
            i = i + 1;
        }
        let mut j: usize = 0;
        while j < phs.len()
            invariant
                j <= phs@.len(),
                phs == &self.program_headers,
                first_of_type(phs@, PT_PHDR, 0) is None,
                first_load_at_zero(phs@, 0) == first_load_at_zero(phs@, j as nat),
                self.phdr_fits(),
            decreases phs.len() - j,
        {
            if phs[j].ph_type == PT_LOAD && phs[j].offset == 0 {
                return Some(phs[j].virtual_addr + self.ph_offset);
            }
            j = j + 1;
        }
        None
    }

    /// Whether the first interpreter segment lies within `data`.
    pub open spec fn interp_in(&self, data: Seq<u8>) -> bool {
        first_of_type(self.program_headers@, PT_INTERP, 0) matches Some(i) ==> {
            let ph = self.program_headers@[i as int];
            ph.offset + ph.file_size <= data.len()
        }
    }

    /// The path of the interpreter that the program asks for: the contents
    /// of its first `PT_INTERP` segment without trailing NULs, which must be
    /// UTF-8. `data` is the start of the file.
    pub fn get_interpreter(&self, data: &[u8]) -> (r: Result<String, &'static str>)
        requires
            self.interp_in(data@),
        ensures
            match first_of_type(self.program_headers@, PT_INTERP, 0) {
                None => r == Err::<String, &'static str>("no interp header"),
                Some(i) => {
                    let ph = self.program_headers@[i as int];
                    let raw = trim_trailing_nuls(data@.subrange(ph.offset as int, (ph.offset + ph.file_size) as int));
                    &&& r is Ok <==> vstd::utf8::valid_utf8(raw)
                    &&& r matches Ok(p) ==> vstd::utf8::encode_utf8(p@) == raw
                    &&& r matches Err(e) ==> e == "failed to convert to utf8"
                },
            },
    {
        let phs = &self.program_headers;
        let mut i: usize = 0;
        while i < phs.len()
            invariant
                i <= phs@.len(),
                phs == &self.program_headers,
                first_of_type(phs@, PT_INTERP, 0) == first_of_type(phs@, PT_INTERP, i as nat),
            ensures
                i <= phs@.len(),
                first_of_type(phs@, PT_INTERP, 0) == first_of_type(phs@, PT_INTERP, i as nat),
                i < phs@.len() ==> phs@[i as int].ph_type == PT_INTERP,
            decreases phs.len() - i,
        {
            if phs[i].ph_type == PT_INTERP {
                break;
            }
            i = i + 1;
        }
        if i == phs.len() {
            return Err("no interp header");
        }
        assert(first_of_type(phs@, PT_INTERP, i as nat) == Some(i as nat));
        let ph = phs[i];
        assert(ph == self.program_headers@[i as int]);
        assert(ph.offset + ph.file_size <= data@.len());
        assert(data@.len() == data.len());
        assert(ph.offset <= usize::MAX && ph.file_size <= usize::MAX);
        let start = ph.offset as usize;
        let fsize = ph.file_size as usize;
        assert(start == ph.offset && fsize == ph.file_size);
        let mut end = start + fsize;
        assert(trim_trailing_nuls(data@.subrange(start as int, end as int)) == trim_trailing_nuls(data@.subrange(ph.offset as int, (ph.offset + ph.file_size) as int)));
        while end > start && data[end - 1] == 0
            invariant
                start <= end <= data@.len(),
                trim_trailing_nuls(data@.subrange(start as int, end as int)) == trim_trailing_nuls(data@.subrange(ph.offset as int, (ph.offset + ph.file_size) as int)),
            decreases end,
        {
            assert(data@.subrange(start as int, end as int).drop_last() =~= data@.subrange(start as int, end - 1));
            end = end - 1;
        }
        let ghost raw = data@.subrange(start as int, end as int);
        assert(trim_trailing_nuls(raw) == raw);
        let mut bytes: Vec<u8> = Vec::new();
        let mut k: usize = start;
        while k < end
            invariant
                start <= k <= end <= data@.len(),
                bytes@ == data@.subrange(start as int, k as int),
            decreases end - k,
        {
            bytes.push(data[k]);
            k = k + 1;
            assert(bytes@ =~= data@.subrange(start as int, k as int));
        }
        match str_from_utf8(bytes.as_slice()) {
            Some(path) => Ok(path.to_owned()),
            None => Err("failed to convert to utf8"),
        }
    }

    /// The checks that a program must pass before it is loaded: it is an
    /// executable or a shared object, built for x86_64.
    pub fn check_loadable(&self) -> (r: Result<(), &'static str>)
        ensures
            r == loadable_check(*self),
    {
        if self.elf_type != ET_EXEC && self.elf_type != ET_DYN {
            return Err("ELF is not executable or shared object");
        }
        if self.machine != EM_X86_64 {
            return Err("invalid ELF arch");
        }
        Ok(())
    }
}

/// Whether a program may be loaded: it is an executable or a shared
/// object, built for x86_64.
pub open spec fn loadable_check(elf: ElfSummary) -> Result<(), &'static str> {
    if elf.elf_type != ET_EXEC && elf.elf_type != ET_DYN {
        Err("ELF is not executable or shared object")
    } else if elf.machine != EM_X86_64 {
        Err("invalid ELF arch")
    } else {
        Ok(())
    }
}

/// The auxiliary vector of a new program, in ascending key order: where its
/// program headers are (when known), their size and number, the page size,
/// and, when it runs under an interpreter loaded at `bias`, the interpreter's
/// base and the program's own entry point.
pub open spec fn auxv_spec(elf: ElfSummary, phdr: Option<u64>, bias: Option<usize>) -> Seq<(u8, usize)> {
    let head = match phdr {
        Some(a) => seq![(AT_PHDR, a as usize)],
        None => Seq::empty(),
    };
    let base = head + seq![(AT_PHENT, elf.ph_entry_size as usize), (AT_PHNUM, elf.ph_count as usize), (AT_PAGESZ, PAGE_SIZE)];
    match bias {
        Some(b) => base + seq![(AT_BASE, b), (AT_ENTRY, elf.entry_point as usize)],
        None => base,
    }
}

/// Builds the auxiliary vector.
pub fn make_auxv(elf: &ElfSummary, phdr: Option<u64>, bias: Option<usize>) -> (v: Vec<(u8, usize)>)
    ensures
        v@ == auxv_spec(*elf, phdr, bias),
{
    let mut v: Vec<(u8, usize)> = Vec::new();
    match phdr {
        Some(a) => v.push((AT_PHDR, a as usize)),
        None => {},
    }
    v.push((AT_PHENT, elf.ph_entry_size as usize));
    v.push((AT_PHNUM, elf.ph_count as usize));
    v.push((AT_PAGESZ, PAGE_SIZE));
    match bias {
        Some(b) => {
            v.push((AT_BASE, b));
            v.push((AT_ENTRY, elf.entry_point as usize));
        },
        None => {},
    }
    assert(v@ =~= auxv_spec(*elf, phdr, bias));
    v
}

/// A user stack area: lazily allocated, or mapped at once.
#[derive(Clone, Copy, Debug, PartialEq, Eq, Structural)]
pub struct StackArea {
    pub start: usize,
    pub end: usize,
    pub attr: MemoryAttr,
    /// whether frames are allocated when the area is mapped
    pub eager: bool,
}

/// The user stack `[offset, offset + size)`: all but its top four pages
/// are allocated on first touch; the top four pages, where the initial
/// stack is written, are mapped at once. Both are user memory, executable.
pub fn user_stack_areas(offset: usize, size: usize) -> (r: (StackArea, StackArea, usize))
    requires
        offset + size <= usize::MAX,
        size >= 4 * PAGE_SIZE,
    ensures
        r.2 == offset + size,
        r.0 == (StackArea {
            start: offset,
            end: (offset + size - 4 * PAGE_SIZE) as usize,
            attr: MemoryAttr { user: true, readonly: false, execute: true, mmio: 0 },
            eager: false,
        }),
        r.1 == (StackArea {
            start: (offset + size - 4 * PAGE_SIZE) as usize,
            end: (offset + size) as usize,
            attr: MemoryAttr { user: true, readonly: false, execute: true, mmio: 0 },
            eager: true,
        }),
{
    let top = offset + size;
    let attr = MemoryAttr::default().user().execute();
    let lazy = StackArea { start: offset, end: top - PAGE_SIZE * 4, attr, eager: false };
    let eager = StackArea { start: top - PAGE_SIZE * 4, end: top, attr, eager: true };
    (lazy, eager, top)
}

/// How a new program's memory is laid out.
pub struct UserVmPlan {
    /// the program's segments
    pub program_areas: Vec<FileMapArea>,
    /// the interpreter's segments, moved up by `bias`
    pub interp_areas: Vec<FileMapArea>,
    /// where the interpreter is loaded: the end of the program's memory
    pub bias: usize,
    pub stack_lazy: StackArea,
    pub stack_eager: StackArea,
    pub stack_top: usize,
    /// where execution starts
    pub entry: usize,
    pub auxv: Vec<(u8, usize)>,
}

/// Whether a program (and its interpreter, if it has one) can be laid out
/// without leaving the address space.
pub open spec fn user_vm_fits(elf: ElfSummary, interp: Option<ElfSummary>, stack_offset: usize, stack_size: usize) -> bool {
    &&& segments_fit(elf.program_headers@, 0)
    &&& elf.phdr_fits()
    &&& stack_offset + stack_size <= usize::MAX
    &&& stack_size >= 4 * PAGE_SIZE
    &&& interp matches Some(i) ==> {
        &&& segments_fit(i.program_headers@, program_break(elf.program_headers@))
        &&& i.entry_point as usize + program_break(elf.program_headers@) <= usize::MAX
    }
}

/// Lays out the memory of a new program: it must pass `check_loadable`; its
/// segments are mapped where they ask to be; an interpreter, when there is
/// one, is loaded at the end of the program's memory and becomes the entry
/// point; the user stack is `[stack_offset, stack_offset + stack_size)`.
pub fn new_user_vm(elf: &ElfSummary, interp: Option<&ElfSummary>, stack_offset: usize, stack_size: usize) -> (r: Result<UserVmPlan, &'static str>)
    requires
        loadable_check(*elf) is Ok ==> user_vm_fits(
            *elf,
            match interp { Some(i) => Some(*i), None => None },
            stack_offset,
            stack_size,
        ),
    ensures
        loadable_check(*elf) is Err ==> r is Err && r->Err_0 == loadable_check(*elf)->Err_0,
        loadable_check(*elf) is Ok ==> (r matches Ok(plan) && {
            let phdr = match phdr_vaddr(elf.program_headers@, elf.ph_offset) {
                Some(a) => Some(a as u64),
                None => None::<u64>,
            };
            let brk = program_break(elf.program_headers@);
            &&& plan.program_areas@ == segment_areas(elf.program_headers@, 0)
            &&& plan.bias == brk
            &&& plan.stack_top == stack_offset + stack_size
            &&& plan.stack_lazy == user_stack_areas_spec(stack_offset, stack_size).0
            &&& plan.stack_eager == user_stack_areas_spec(stack_offset, stack_size).1
            &&& match interp {
                None => {
                    &&& plan.interp_areas@.len() == 0
                    &&& plan.entry == elf.entry_point as usize
                    &&& plan.auxv@ == auxv_spec(*elf, phdr, None)
                },
                Some(i) => {
                    &&& plan.interp_areas@ == segment_areas(i.program_headers@, brk)
                    &&& plan.entry == i.entry_point as usize + brk
                    &&& plan.auxv@ == auxv_spec(*elf, phdr, Some(brk as usize))
                },
            }
        }),
{
    match elf.check_loadable() {
        Err(e) => return Err(e),
        Ok(()) => {},
    }
    let phdr = elf.get_phdr_vaddr();
    let (program_areas, bias) = make_memory_set(elf);
    let (interp_areas, entry, auxv) = match interp {
        Some(i) => {
            let areas = append_as_interpreter(i, bias);
            let auxv = make_auxv(elf, phdr, Some(bias));
            (areas, i.entry_point as usize + bias, auxv)
        },
        None => {
            let auxv = make_auxv(elf, phdr, None);
            (Vec::new(), elf.entry_point as usize, auxv)
        },
    };
    let (stack_lazy, stack_eager, stack_top) = user_stack_areas(stack_offset, stack_size);
    Ok(UserVmPlan { program_areas, interp_areas, bias, stack_lazy, stack_eager, stack_top, entry, auxv })
}

/// The stack areas that `user_stack_areas` gives.
pub open spec fn user_stack_areas_spec(offset: usize, size: usize) -> (StackArea, StackArea) {
    (
        StackArea {
            start: offset,
            end: (offset + size - 4 * PAGE_SIZE) as usize,
            attr: MemoryAttr { user: true, readonly: false, execute: true, mmio: 0 },
            eager: false,
        },
        StackArea {
            start: (offset + size - 4 * PAGE_SIZE) as usize,
            end: (offset + size) as usize,
            attr: MemoryAttr { user: true, readonly: false, execute: true, mmio: 0 },
            eager: true,
        },
    )
}

/// A plain area of the older loader.
#[derive(Clone, Copy, Debug, PartialEq, Eq, Structural)]
pub struct PlainArea {
    pub start: usize,
    pub end: usize,
    pub attr: MemoryAttr,
}

/// The areas that the older loader maps: one per loadable segment, with
/// `legacy_segment_attr` rights.
pub open spec fn legacy_areas(phs: Seq<ProgramHeaderInfo>) -> Seq<PlainArea> {
    load_segments(phs).map_values(|ph: ProgramHeaderInfo| PlainArea {
        start: ph.virtual_addr as usize,
        end: (ph.virtual_addr as usize + ph.mem_size as usize) as usize,
        attr: legacy_segment_attr(ph.flags),
    })
}

/// The areas of the older loader.
pub fn memory_set_from(elf: &ElfSummary) -> (areas: Vec<PlainArea>)
    requires
        segments_fit(elf.program_headers@, 0),
    ensures
        areas@ == legacy_areas(elf.program_headers@),
{
    let phs = &elf.program_headers;
    let mut areas: Vec<PlainArea> = Vec::new();
    let mut i: usize = 0;
    proof {
        assert(load_segments(phs@.subrange(0, 0)) =~= Seq::<ProgramHeaderInfo>::empty());
    }
    while i < phs.len()
        invariant
            i <= phs@.len(),
            phs == &elf.program_headers,
            segments_fit(phs@, 0),
            areas@ == legacy_areas(phs@.subrange(0, i as int)),
        decreases phs.len() - i,
    {
        let ph = phs[i];
        let ghost pre = phs@.subrange(0, i as int);
        let ghost post = phs@.subrange(0, i + 1);
        proof {
            assert(post.drop_last() =~= pre);
            assert(post.last() == ph);
            reveal(Seq::filter);
        }
        if ph.ph_type == PT_LOAD {
            let start = ph.virtual_addr as usize;
            areas.push(PlainArea { start, end: start + ph.mem_size as usize, attr: memory_attr_from(ph.flags) });
        }
        proof {
            assert(areas@ =~= legacy_areas(post));
        }
        i = i + 1;
    }
    assert(phs@.subrange(0, phs@.len() as int) =~= phs@);
    areas
}

/// The copies of file contents into memory that the older loader makes:
/// for each program header in order, its file bytes go to its virtual
/// address; the copying stops at the first header with no file bytes.
pub open spec fn legacy_copies(phs: Seq<ProgramHeaderInfo>) -> Seq<ProgramHeaderInfo>
    decreases phs.len(),
{
    if phs.len() == 0 || phs[0].file_size == 0 {
        Seq::empty()
    } else {
        seq![phs[0]] + legacy_copies(phs.drop_first())
    }
}

/// Whether the older loader copies every header's contents (and then goes
/// on to write `argc` and `argv` for 32-bit programs).
pub open spec fn legacy_copies_all(phs: Seq<ProgramHeaderInfo>) -> bool {
    forall|i: int| 0 <= i < phs.len() ==> (#[trigger] phs[i]).file_size != 0
}

/// The copies of the older loader, and whether all headers were copied.
pub fn legacy_copy_plan(elf: &ElfSummary) -> (r: (Vec<ProgramHeaderInfo>, bool))
    ensures
        r.0@ == legacy_copies(elf.program_headers@),
        r.1 == legacy_copies_all(elf.program_headers@),
{
    let phs = &elf.program_headers;
    let mut out: Vec<ProgramHeaderInfo> = Vec::new();
    let mut i: usize = 0;
    assert(phs@.subrange(0, phs@.len() as int) =~= phs@);
    assert(out@ + legacy_copies(phs@) =~= legacy_copies(phs@));
    while i < phs.len()
        invariant
            i <= phs@.len(),
            phs == &elf.program_headers,
            forall|k: int| 0 <= k < i ==> (#[trigger] phs@[k]).file_size != 0,
            out@ + legacy_copies(phs@.subrange(i as int, phs@.len() as int)) == legacy_copies(phs@),
        decreases phs.len() - i,
    {
        let ph = phs[i];
        let ghost rest = phs@.subrange(i as int, phs@.len() as int);
        if ph.file_size == 0 {
            assert(rest[0] == ph);
            assert(legacy_copies(rest) == Seq::<ProgramHeaderInfo>::empty());
            assert(out@ =~= legacy_copies(phs@));
            return (out, false);
        }
        out.push(ph);
        proof {
            assert(rest[0] == ph);
            assert(rest.drop_first() =~= phs@.subrange(i + 1, phs@.len() as int));
            assert(out@ + legacy_copies(phs@.subrange(i + 1, phs@.len() as int)) =~= legacy_copies(phs@));
        }
        i = i + 1;
    }
    assert(legacy_copies(phs@.subrange(i as int, phs@.len() as int)) == Seq::<ProgramHeaderInfo>::empty());
    assert(out@ =~= legacy_copies(phs@));
    (out, true)
}

} // verus!
