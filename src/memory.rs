//! Boot-time memory setup: seeding the frame allocator from the boot memory
//! map, and laying out the page mappings of the local interrupt controller and
//! of the kernel heap.
use vstd::prelude::*;
use crate::addr::{
    KERNEL_HEAP_SIZE, KERNEL_HEAP_START, PAGE_SIZE, PHYSICAL_MEMORY_OFFSET, phys_to_virt,
    virt_to_phys,
};
use crate::bitalloc::{FrameAllocator, alloc_contiguous_spec};

verus! {

/// Page-table entry flag: the mapping is present.
pub const PAGE_PRESENT: u64 = 0x1;

/// Page-table entry flag: the page may be written.
pub const PAGE_WRITABLE: u64 = 0x2;

/// Page-table entry flag: accesses bypass the cache.
pub const PAGE_NO_CACHE: u64 = 0x10;

/// Physical (and identity-mapped virtual) address of the local interrupt
/// controller's register page.
pub const LOCAL_APIC_BASE: u64 = 0xfee0_0000;

/// Number of frames backing the kernel heap.
pub const KERNEL_HEAP_FRAMES: usize = 0x100;

/// Alignment, in frames, of the run backing the kernel heap (4 MiB).
pub const KERNEL_HEAP_ALIGN: usize = 0x400;

/// One range of the boot memory map: physical addresses `start .. end`, and
/// whether the firmware reports them usable.
#[derive(Clone, Copy, Debug, PartialEq, Eq)]
pub struct MemoryRegion {
    pub start: u64,
    pub end: u64,
    pub usable: bool,
}

/// One page mapping to install: virtual page `virt` resolves to physical
/// frame `phys` with the entry flags `flags`.
#[derive(Clone, Copy, Debug, PartialEq, Eq)]
pub struct PageMapping {
    pub virt: u64,
    pub phys: u64,
    pub flags: u64,
}

/// Frame `i` lies inside a usable region of `regions`.
pub open spec fn covered(regions: Seq<MemoryRegion>, i: int) -> bool {
    exists|k: int|
        0 <= k < regions.len() && #[trigger] regions[k].usable && regions[k].start / 0x1000 <= i
            < regions[k].end / 0x1000
}

/// Seeds the frame allocator from the boot memory map: every frame inside a
/// region marked usable becomes free; other regions are skipped.
pub fn bitalloc_init(frames: &mut FrameAllocator, regions: &Vec<MemoryRegion>)
    ensures
        final(frames)@.len() == old(frames)@.len(),
        forall|i: int|
            0 <= i < old(frames)@.len() ==> #[trigger] final(frames)@[i] == (old(frames)@[i]
                || covered(regions@, i)),
{
    let cap = frames.capacity();
    let mut k: usize = 0;
    while k < regions.len()
        invariant
            k <= regions@.len(),
            cap == frames@.len(),
            cap == old(frames)@.len(),
            forall|i: int|
                0 <= i < cap ==> #[trigger] frames@[i] == (old(frames)@[i] || covered(
                    regions@.subrange(0, k as int),
                    i,
                )),
        decreases regions@.len() - k,
    {
        let r = regions[k];
        if r.usable {
            let first = r.start / 0x1000;
            let last = r.end / 0x1000;
            let s: usize = if first < cap as u64 {
                first as usize
            } else {
                cap
            };
            let e: usize = if last < cap as u64 {
                last as usize
            } else {
                cap
            };
            frames.insert(s, e);
        }
        proof {
            let prev = regions@.subrange(0, k as int);
            let next = regions@.subrange(0, k + 1);
            assert forall|i: int| 0 <= i < cap implies #[trigger] frames@[i] == (old(frames)@[i]
                || covered(next, i)) by {
                if covered(prev, i) {
                    let w = choose|w: int|
                        0 <= w < prev.len() && #[trigger] prev[w].usable && prev[w].start / 0x1000
                            <= i < prev[w].end / 0x1000;
                    assert(next[w] == prev[w]);
                }
                if covered(next, i) && !covered(prev, i) {
                    let w = choose|w: int|
                        0 <= w < next.len() && #[trigger] next[w].usable && next[w].start / 0x1000
                            <= i < next[w].end / 0x1000;
                    if w < k {
                        assert(prev[w] == next[w]);
                    }
                }
                if r.usable && r.start / 0x1000 <= i < r.end / 0x1000 {
                    assert(next[k as int] == r);
                }
            }
        }
        k = k + 1;
    }
    proof {
        assert(regions@.subrange(0, regions@.len() as int) =~= regions@);
    }
}

/// The mapping of page `i` of the kernel heap onto the run of frames that
/// starts at physical address `phys_base`.
pub open spec fn heap_mapping(phys_base: u64, i: int) -> PageMapping {
    PageMapping {
        virt: (KERNEL_HEAP_START + i * 0x1000) as u64,
        phys: (phys_base + i * 0x1000) as u64,
        flags: PAGE_PRESENT | PAGE_WRITABLE,
    }
}

/// The mapping of the local interrupt controller's register page: identity
/// mapped, writable, uncached.
pub fn apic_mapping() -> (m: PageMapping)
    ensures
        m == (PageMapping {
            virt: LOCAL_APIC_BASE,
            phys: LOCAL_APIC_BASE,
            flags: PAGE_PRESENT | PAGE_WRITABLE | PAGE_NO_CACHE,
        }),
{
    PageMapping {
        virt: LOCAL_APIC_BASE,
        phys: LOCAL_APIC_BASE,
        flags: PAGE_PRESENT | PAGE_WRITABLE | PAGE_NO_CACHE,
    }
}

/// The page mappings of the kernel heap, page by page, onto the frames that
/// start at physical address `phys_base`.
pub fn heap_mappings(phys_base: u64) -> (r: Vec<PageMapping>)
    requires
        phys_base + KERNEL_HEAP_SIZE <= u64::MAX,
    ensures
        r@.len() == KERNEL_HEAP_FRAMES,
        forall|i: int|
            0 <= i < KERNEL_HEAP_FRAMES ==> #[trigger] r@[i] == heap_mapping(phys_base, i),
{
    let mut r: Vec<PageMapping> = Vec::new();
    let mut i: usize = 0;
    while i < KERNEL_HEAP_FRAMES
        invariant
            i <= KERNEL_HEAP_FRAMES,
            phys_base + KERNEL_HEAP_SIZE <= u64::MAX,
            r@.len() == i,
            forall|j: int| 0 <= j < i ==> #[trigger] r@[j] == heap_mapping(phys_base, j),
        decreases KERNEL_HEAP_FRAMES - i,
    {
        let off: u64 = i as u64 * PAGE_SIZE;
        r.push(
            PageMapping {
                virt: KERNEL_HEAP_START + off,
                phys: phys_base + off,
                flags: PAGE_PRESENT | PAGE_WRITABLE,
            },
        );
        i = i + 1;
    }
    r
}

/// Takes the run of frames that backs the kernel heap from the allocator and
/// lays out its page mappings: the run's first frame, and one mapping per heap
/// page. `None`, with the allocator unchanged, when no suitable run is free.
pub fn plan_heap(frames: &mut FrameAllocator) -> (r: Option<(usize, Vec<PageMapping>)>)
    requires
        old(frames)@.len() * 0x1000 <= u64::MAX,
    ensures
        match r {
            None => alloc_contiguous_spec(
                old(frames)@,
                final(frames)@,
                KERNEL_HEAP_FRAMES as int,
                KERNEL_HEAP_ALIGN as int,
                None,
            ),
            Some((f, v)) => {
                &&& alloc_contiguous_spec(
                    old(frames)@,
                    final(frames)@,
                    KERNEL_HEAP_FRAMES as int,
                    KERNEL_HEAP_ALIGN as int,
                    Some(f),
                )
                &&& v@.len() == KERNEL_HEAP_FRAMES
                &&& forall|i: int|
                    0 <= i < KERNEL_HEAP_FRAMES ==> #[trigger] v@[i] == heap_mapping(
                        (f * 0x1000) as u64,
                        i,
                    )
            },
        },
{
    let s = frames.alloc_contiguous(KERNEL_HEAP_FRAMES, KERNEL_HEAP_ALIGN);
    match s {
        None => None,
        Some(f) => {
            proof {
                let len = old(frames)@.len();
                assert((f + KERNEL_HEAP_FRAMES) * 0x1000 <= u64::MAX) by (nonlinear_arith)
                    requires
                        f + KERNEL_HEAP_FRAMES <= len,
                        len * 0x1000 <= u64::MAX,
                ;
            }
            let base: u64 = f as u64 * PAGE_SIZE;
            Some((f, heap_mappings(base)))
        },
    }
}

/// Alignment, in frames, of a DMA buffer.
pub const DMA_ALIGN: usize = 8;

/// Takes a DMA buffer of `size` bytes (whole frames) from the allocator: a
/// contiguous run aligned to `DMA_ALIGN` frames. Returns its virtual address
/// in the physical-memory window and its physical address; `None`, with the
/// allocator unchanged, when no such run is free.
pub fn alloc_dma(frames: &mut FrameAllocator, size: usize) -> (r: Option<(u64, u64)>)
    requires
        old(frames)@.len() * 0x1000 + PHYSICAL_MEMORY_OFFSET <= u64::MAX,
    ensures
        match r {
            None => alloc_contiguous_spec(
                old(frames)@,
                final(frames)@,
                size as int / 0x1000,
                DMA_ALIGN as int,
                None,
            ),
            Some((virt, phys)) => {
                &&& phys % 0x1000 == 0
                &&& virt == phys + PHYSICAL_MEMORY_OFFSET
                &&& alloc_contiguous_spec(
                    old(frames)@,
                    final(frames)@,
                    size as int / 0x1000,
                    DMA_ALIGN as int,
                    Some((phys / 0x1000) as usize),
                )
            },
        },
{
    match frames.alloc_contiguous(size / 0x1000, DMA_ALIGN) {
        None => None,
        Some(s) => {
            proof {
                let len = old(frames)@.len();
                assert(s * 0x1000 <= len * 0x1000) by (nonlinear_arith)
                    requires
                        s <= len,
                ;
            }
            let phys: u64 = s as u64 * PAGE_SIZE;
            Some((phys_to_virt(phys), phys))
        },
    }
}

/// Gives back the DMA buffer of `size` bytes at virtual address `vaddr`:
/// every frame of it becomes free. The buffer must be one that `alloc_dma`
/// handed out and that is still in use.
pub fn dealloc_dma(frames: &mut FrameAllocator, vaddr: u64, size: usize)
    requires
        vaddr >= PHYSICAL_MEMORY_OFFSET,
        (vaddr - PHYSICAL_MEMORY_OFFSET) / 0x1000 + size / 0x1000 <= old(frames)@.len(),
        forall|i: int|
            (vaddr - PHYSICAL_MEMORY_OFFSET) / 0x1000 <= i < (vaddr - PHYSICAL_MEMORY_OFFSET)
                / 0x1000 + size / 0x1000 ==> !#[trigger] old(frames)@[i],
    ensures
        final(frames)@.len() == old(frames)@.len(),
        forall|i: int|
            0 <= i < old(frames)@.len() ==> #[trigger] final(frames)@[i] == (old(frames)@[i] || (
            (vaddr - PHYSICAL_MEMORY_OFFSET) / 0x1000 <= i < (vaddr - PHYSICAL_MEMORY_OFFSET)
                / 0x1000 + size / 0x1000)),
{
    let first: u64 = virt_to_phys(vaddr) / PAGE_SIZE;
    let n: usize = size / 0x1000;
    let cap = frames.capacity();
    assert(first <= cap);
    let first_frame: usize = first as usize;
    let mut j: usize = 0;
    while j < n
        invariant
            first == (vaddr - PHYSICAL_MEMORY_OFFSET) / 0x1000,
            first_frame == first,
            cap == old(frames)@.len(),
            n == size / 0x1000,
            first + n <= old(frames)@.len(),
            forall|i: int| first <= i < first + n ==> !#[trigger] old(frames)@[i],
            j <= n,
            frames@.len() == old(frames)@.len(),
            forall|i: int|
                0 <= i < old(frames)@.len() ==> #[trigger] frames@[i] == (old(frames)@[i] || (
                first <= i < first + j)),
        decreases n - j,
    {
        frames.dealloc(first_frame + j);
        j = j + 1;
    }
}

} // verus!
