//! Loadable kernel modules: the strings they pass, and the kernel virtual
//! space that they are loaded into.

use vstd::prelude::*;

use crate::memory::{MemoryAttr, PAGE_SIZE};
use crate::process::elf::str_from_utf8;

verus! {

/// The position of the first NUL among the first `max_size` bytes.
pub open spec fn first_nul(s: Seq<u8>, max_size: int, len: int) -> bool {
    &&& 0 <= len < max_size
    &&& len < s.len()
    &&& s[len] == 0
    &&& forall|i: int| 0 <= i < len ==> s[i] != 0
}

/// The string a module passes: the bytes up to the first NUL within
/// `max_size`; there is one, and they are UTF-8.
pub fn cstr_to_str(bytes: &[u8], max_size: usize) -> (s: String)
    requires
        exists|len: int| first_nul(bytes@, max_size as int, len) && vstd::utf8::valid_utf8(bytes@.take(len)),
    ensures
        exists|len: int| first_nul(bytes@, max_size as int, len) && vstd::utf8::encode_utf8(s@) == bytes@.take(len),
{
    let ghost witness = choose|len: int| first_nul(bytes@, max_size as int, len) && vstd::utf8::valid_utf8(bytes@.take(len));
    let mut len: usize = 0;
    while len < max_size && len < bytes.len() && bytes[len] != 0
        invariant
            len <= witness,
            first_nul(bytes@, max_size as int, witness),
            vstd::utf8::valid_utf8(bytes@.take(witness)),
            forall|i: int| 0 <= i < len ==> bytes@[i] != 0,
        decreases max_size - len,
    {
        len = len + 1;
    }
    assert(len == witness);
    let mut prefix: Vec<u8> = Vec::new();
    let mut i: usize = 0;
    while i < len
        invariant
            i <= len,
            len < bytes@.len(),
            prefix@ == bytes@.take(i as int),
        decreases len - i,
    {
        prefix.push(bytes[i]);
        i = i + 1;
        assert(prefix@ =~= bytes@.take(i as int));
    }
    match str_from_utf8(prefix.as_slice()) {
        Some(s) => s.to_owned(),
        None => {
            proof {
                assert(false);
            }
            String::new()
        },
    }
}

/// Kernel virtual space handed out from `KSEG2_START` up, never given back.
pub struct LinearManager {
    pub last_page: usize,
}

impl LinearManager {
    pub fn new() -> (m: Self)
        ensures
            m.last_page == 0,
    {
        LinearManager { last_page: 0 }
    }

    /// The next `size` bytes, rounded up to whole pages, from `kseg2_start`
    /// on.
    pub fn allocate(&mut self, size: usize, kseg2_start: usize) -> (r: Option<(usize, usize)>)
        requires
            size + PAGE_SIZE <= usize::MAX,
            (old(self).last_page + pages_for(size as int)) * PAGE_SIZE + kseg2_start <= usize::MAX,
        ensures
            ({
                let pages = pages_for(size as int);
                &&& r == Some(((old(self).last_page * PAGE_SIZE + kseg2_start) as usize, (pages * PAGE_SIZE) as usize))
                &&& final(self).last_page == old(self).last_page + pages
            }),
    {
        let required_pages = (size + PAGE_SIZE - 1) / PAGE_SIZE;
        assert(self.last_page * PAGE_SIZE <= (self.last_page + required_pages) * PAGE_SIZE) by (nonlinear_arith);
        assert(required_pages * PAGE_SIZE <= (self.last_page + required_pages) * PAGE_SIZE) by (nonlinear_arith);
        let current = self.last_page * PAGE_SIZE + kseg2_start;
        self.last_page = self.last_page + required_pages;
        Some((current, required_pages * PAGE_SIZE))
    }

    /// Freeing does nothing.
    pub fn free(&mut self, target: (usize, usize))
        ensures
            final(self).last_page == old(self).last_page,
    {
    }
}

/// The number of pages that `size` bytes take.
pub open spec fn pages_for(size: int) -> int {
    (size + PAGE_SIZE - 1) / (PAGE_SIZE as int)
}

/// The kernel space handed out is never handed out twice: an area covers
/// what was asked for, and the next area starts where it ends.
pub proof fn lemma_linear_areas_adjacent(last_page: int, size: int, kseg2_start: int)
    requires
        last_page >= 0,
        size >= 0,
    ensures
        pages_for(size) * PAGE_SIZE >= size,
        (last_page + pages_for(size)) * PAGE_SIZE + kseg2_start == (last_page * PAGE_SIZE + kseg2_start) + pages_for(size) * PAGE_SIZE,
{
    let p = pages_for(size);
    assert(p * PAGE_SIZE >= size) by (nonlinear_arith)
        requires
            p == (size + PAGE_SIZE - 1) / (PAGE_SIZE as int),
            size >= 0,
    ;
    assert((last_page + p) * PAGE_SIZE == last_page * PAGE_SIZE + p * PAGE_SIZE) by (nonlinear_arith);
}

/// The pages that an area of `size` bytes at `page_addr` covers: from the
/// start of its first page to the end of its last.
pub fn virtual_area_range(page_addr: usize, size: usize) -> (r: (usize, usize))
    requires
        page_addr + size + PAGE_SIZE <= usize::MAX,
    ensures
        r.0 == page_addr - (page_addr as int) % (PAGE_SIZE as int),
        r.1 == (page_addr + size + PAGE_SIZE - 1) - (page_addr + size + PAGE_SIZE - 1) % (PAGE_SIZE as int),
{
    let start = page_addr - page_addr % PAGE_SIZE;
    let end = page_addr + size + PAGE_SIZE - 1;
    (start, end - end % PAGE_SIZE)
}

/// The start of every page from `start` up to `end`, both page-aligned.
pub fn page_range(start: usize, end: usize) -> (pages: Vec<usize>)
    requires
        start % PAGE_SIZE == 0,
        end % PAGE_SIZE == 0,
        start <= end,
    ensures
        pages@.len() == (end - start) / (PAGE_SIZE as int),
        forall|i: int| 0 <= i < pages@.len() ==> #[trigger] pages@[i] == start + i * PAGE_SIZE,
{
    let mut pages: Vec<usize> = Vec::new();
    let mut p = start;
    while p < end
        invariant
            start <= p <= end,
            start % PAGE_SIZE == 0,
            end % PAGE_SIZE == 0,
            p % PAGE_SIZE == 0,
            pages@.len() == (p - start) / (PAGE_SIZE as int),
            (p - start) % (PAGE_SIZE as int) == 0,
            forall|i: int| 0 <= i < pages@.len() ==> #[trigger] pages@[i] == start + i * PAGE_SIZE,
        decreases end - p,
    {
        assert(end - p >= PAGE_SIZE);
        pages.push(p);
        proof {
            assert(p == start + (pages@.len() - 1) * PAGE_SIZE);
        }
        p = p + PAGE_SIZE;
    }
    pages
}

/// A mapped area of kernel space: whole pages from `start` to `end`, with
/// its access rights.
#[derive(Debug, Clone, Copy, PartialEq, Eq, Structural)]
pub struct VirtualArea {
    pub start: usize,
    pub end: usize,
    pub attr: MemoryAttr,
}

/// The area that covers `size` bytes at `page_addr`: from the start of its
/// first page to the end of its last.
pub open spec fn virtual_area(page_addr: usize, size: usize, attr: MemoryAttr) -> VirtualArea {
    VirtualArea {
        start: (page_addr - page_addr % PAGE_SIZE) as usize,
        end: ((page_addr + size + PAGE_SIZE - 1) - (page_addr + size + PAGE_SIZE - 1) % (PAGE_SIZE as int)) as usize,
        attr,
    }
}

impl VirtualArea {
    /// The area that covers `size` bytes at `page_addr`, by whole pages.
    pub fn new(page_addr: usize, size: usize, attr: MemoryAttr) -> (a: VirtualArea)
        requires
            page_addr + size + PAGE_SIZE <= usize::MAX,
        ensures
            a == virtual_area(page_addr, size, attr),
    {
        let (start, end) = virtual_area_range(page_addr, size);
        VirtualArea { start, end, attr }
    }

    /// The pages that the area maps, and unmaps when its space goes.
    pub fn pages(&self) -> (pages: Vec<usize>)
        requires
            self.start % PAGE_SIZE == 0,
            self.end % PAGE_SIZE == 0,
            self.start <= self.end,
        ensures
            pages@.len() == (self.end - self.start) / (PAGE_SIZE as int),
            forall|i: int| 0 <= i < pages@.len() ==> #[trigger] pages@[i] == self.start + i * PAGE_SIZE,
    {
        page_range(self.start, self.end)
    }
}

/// A contiguous run of kernel space that a module is loaded into, and the
/// areas mapped in it.
#[derive(Debug, Clone)]
pub struct VirtualSpace {
    pub start: usize,
    pub size: usize,
    pub areas: Vec<VirtualArea>,
}

impl VirtualSpace {
    /// A space of `size` bytes, by whole pages, from the manager.
    pub fn new(manager: &mut LinearManager, size: usize, kseg2_start: usize) -> (r: Option<VirtualSpace>)
        requires
            size + PAGE_SIZE <= usize::MAX,
            (old(manager).last_page + pages_for(size as int)) * PAGE_SIZE + kseg2_start <= usize::MAX,
        ensures
            ({
                let pages = pages_for(size as int);
                &&& r matches Some(v) && v.start == old(manager).last_page * PAGE_SIZE + kseg2_start
                    && v.size == pages * PAGE_SIZE && v.areas@.len() == 0
                &&& final(manager).last_page == old(manager).last_page + pages
            }),
    {
        let (start, rsize) = match manager.allocate(size, kseg2_start) {
            Some(r) => r,
            None => return None,
        };
        Some(VirtualSpace { start, size: rsize, areas: Vec::new() })
    }

    pub fn start(&self) -> (s: usize)
        ensures
            s == self.start,
    {
        self.start
    }

    pub fn size(&self) -> (s: usize)
        ensures
            s == self.size,
    {
        self.size
    }

    /// Maps the pages that cover `start_addr` to `end_addr`; gives the new
    /// area.
    pub fn add_area(&mut self, start_addr: usize, end_addr: usize, attr: MemoryAttr) -> (a: VirtualArea)
        requires
            start_addr <= end_addr,
            end_addr + PAGE_SIZE <= usize::MAX,
        ensures
            a == virtual_area(start_addr, (end_addr - start_addr) as usize, attr),
            final(self).areas@ == old(self).areas@.push(a),
            final(self).start == old(self).start,
            final(self).size == old(self).size,
    {
        let a = VirtualArea::new(start_addr, end_addr - start_addr, attr);
        self.areas.push(a);
        a
    }
}

} // verus!
