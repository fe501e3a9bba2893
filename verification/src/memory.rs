//! Memory: page arithmetic, the attributes of mapped areas, the kernel's
//! address translations and the bookkeeping of heap and kernel space.

use vstd::prelude::*;

verus! {

/// Size of a page.
pub const PAGE_SIZE: usize = 4096;

/// The start of the page that holds `addr`.
pub open spec fn page_floor(addr: int) -> int {
    addr - addr % (PAGE_SIZE as int)
}

/// Access rights of a mapped area.
#[derive(Clone, Copy, Debug, Default, PartialEq, Eq, Structural)]
pub struct MemoryAttr {
    pub user: bool,
    pub readonly: bool,
    pub execute: bool,
    pub mmio: u8,
}

impl MemoryAttr {
    /// Kernel-only, writable, not executable, not device memory.
    pub fn default() -> (a: Self)
        ensures
            a == (MemoryAttr { user: false, readonly: false, execute: false, mmio: 0 }),
    {
        MemoryAttr { user: false, readonly: false, execute: false, mmio: 0 }
    }

    pub fn user(self) -> (a: Self)
        ensures
            a == (MemoryAttr { user: true, ..self }),
    {
        MemoryAttr { user: true, ..self }
    }

    pub fn readonly(self) -> (a: Self)
        ensures
            a == (MemoryAttr { readonly: true, ..self }),
    {
        MemoryAttr { readonly: true, ..self }
    }

    pub fn writable(self) -> (a: Self)
        ensures
            a == (MemoryAttr { readonly: false, ..self }),
    {
        MemoryAttr { readonly: false, ..self }
    }

    pub fn execute(self) -> (a: Self)
        ensures
            a == (MemoryAttr { execute: true, ..self }),
    {
        MemoryAttr { execute: true, ..self }
    }

    pub fn mmio(self, value: u8) -> (a: Self)
        ensures
            a == (MemoryAttr { mmio: value, ..self }),
    {
        MemoryAttr { mmio: value, ..self }
    }
}

/// The size of a kernel stack.
pub const KSTACK_SIZE: usize = 0x4000;

/// A kernel stack, by its lowest address.
pub struct KernelStack(pub usize);

impl KernelStack {
    /// The address just above the stack.
    pub fn top(&self) -> (t: usize)
        requires
            self.0 + KSTACK_SIZE <= usize::MAX,
        ensures
            t == self.0 + KSTACK_SIZE,
    {
        self.0 + KSTACK_SIZE
    }
}

/// The physical address of frame `id`, counting from `memory_offset`.
pub fn frame_addr(id: usize, memory_offset: usize) -> (a: usize)
    requires
        id * PAGE_SIZE + memory_offset <= usize::MAX,
    ensures
        a == id * PAGE_SIZE + memory_offset,
{
    id * PAGE_SIZE + memory_offset
}

/// The number of the frame at physical address `target`.
pub fn frame_id(target: usize, memory_offset: usize) -> (id: usize)
    requires
        memory_offset <= target,
    ensures
        id == (target - memory_offset) / (PAGE_SIZE as int),
{
    (target - memory_offset) / PAGE_SIZE
}

/// The kernel's address of physical address `paddr`.
pub fn phys_to_virt(paddr: usize, physical_memory_offset: usize) -> (v: usize)
    requires
        physical_memory_offset + paddr <= usize::MAX,
    ensures
        v == physical_memory_offset + paddr,
{
    physical_memory_offset + paddr
}

/// The physical address of kernel address `vaddr`.
pub fn virt_to_phys(vaddr: usize, physical_memory_offset: usize) -> (p: usize)
    requires
        physical_memory_offset <= vaddr,
    ensures
        p == vaddr - physical_memory_offset,
{
    vaddr - physical_memory_offset
}

/// A run of memory: where it starts and how long it is.
pub type Run = (usize, usize);

/// Adds one page at `va` to the runs: it extends the last run downward
/// where it lies just below it, else it starts a new run.
pub open spec fn add_page(runs: Seq<Run>, va: usize) -> Seq<Run> {
    if runs.len() > 0 && runs.last().0 - PAGE_SIZE == va {
        runs.update(runs.len() - 1, ((runs.last().0 - PAGE_SIZE) as usize, (runs.last().1 + PAGE_SIZE) as usize))
    } else {
        runs.push((va, PAGE_SIZE))
    }
}

/// The runs that pages at the addresses `vas`, taken in order, make.
pub open spec fn page_runs(vas: Seq<usize>) -> Seq<Run> {
    vas.fold_left(Seq::<Run>::empty(), |runs: Seq<Run>, va: usize| add_page(runs, va))
}

/// The most runs that `enlarge_heap` keeps.
pub const MAX_HEAP_RUNS: usize = 32;

/// `enlarge_heap`'s grouping of the kernel addresses of new frames, in the
/// order they came, into runs of adjacent pages (frames come from the top
/// down, so each run grows downward); there are at most 32 runs.
pub fn enlarge_heap_runs(vas: &Vec<usize>) -> (runs: Vec<Run>)
    requires
        forall|i: int| 0 <= i < vas@.len() ==> #[trigger] vas@[i] >= PAGE_SIZE,
        forall|k: int| 0 <= k <= vas@.len() ==> #[trigger] page_runs(vas@.take(k)).len() <= MAX_HEAP_RUNS,
        vas@.len() * PAGE_SIZE <= usize::MAX,
    ensures
        runs@ == page_runs(vas@),
{
    let ghost f = |runs: Seq<Run>, va: usize| add_page(runs, va);
    let mut runs: Vec<Run> = Vec::new();
    let mut i: usize = 0;
    while i < vas.len()
        invariant
            i <= vas@.len(),
            f == (|runs: Seq<Run>, va: usize| add_page(runs, va)),
            runs@ == vas@.take(i as int).fold_left(Seq::<Run>::empty(), f),
            forall|j: int| 0 <= j < vas@.len() ==> #[trigger] vas@[j] >= PAGE_SIZE,
            forall|k: int| 0 <= k <= vas@.len() ==> #[trigger] page_runs(vas@.take(k)).len() <= MAX_HEAP_RUNS,
            vas@.len() * PAGE_SIZE <= usize::MAX,
            forall|j: int| 0 <= j < runs@.len() ==> #[trigger] runs@[j].1 <= i * PAGE_SIZE && runs@[j].0 >= PAGE_SIZE,
        decreases vas@.len() - i,
    {
        let va = vas[i];
        proof {
            assert(vas@.take(i + 1).drop_last() =~= vas@.take(i as int));
            assert(page_runs(vas@.take(i + 1)).len() <= MAX_HEAP_RUNS);
        }
        let n = runs.len();
        if n > 0 && runs[n - 1].0 >= PAGE_SIZE && runs[n - 1].0 - PAGE_SIZE == va {
            let (addr, len) = runs[n - 1];
            assert(len <= i * PAGE_SIZE);
            assert(i * PAGE_SIZE + PAGE_SIZE <= vas@.len() * PAGE_SIZE) by (nonlinear_arith)
                requires i < vas@.len();
            runs.set(n - 1, (addr - PAGE_SIZE, len + PAGE_SIZE));
        } else {
            runs.push((va, PAGE_SIZE));
        }
        i = i + 1;
    }
    proof {
        assert(vas@.take(vas@.len() as int) =~= vas@);
    }
    runs
}

} // verus!
