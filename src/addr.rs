//! Physical and virtual address arithmetic.
use vstd::prelude::*;

verus! {

/// Virtual address at which the whole of physical memory is mapped.
pub const PHYSICAL_MEMORY_OFFSET: u64 = 0xFFFF800000000000;

/// Size of one page, and of one physical frame, in bytes.
pub const PAGE_SIZE: u64 = 0x1000;

/// First virtual address of the kernel heap.
pub const KERNEL_HEAP_START: u64 = 0x4444_4444_0000;

/// Size of the kernel heap in bytes (1 MiB).
pub const KERNEL_HEAP_SIZE: u64 = 0x10_0000;

/// The virtual address through which physical address `phys` is reached.
pub fn phys_to_virt(phys: u64) -> (virt: u64)
    requires
        phys + PHYSICAL_MEMORY_OFFSET <= u64::MAX,
    ensures
        virt == phys + PHYSICAL_MEMORY_OFFSET,
{
    phys + PHYSICAL_MEMORY_OFFSET
}

/// The physical address behind virtual address `virt` of the physical-memory window.
pub fn virt_to_phys(virt: u64) -> (phys: u64)
    requires
        virt >= PHYSICAL_MEMORY_OFFSET,
    ensures
        phys == virt - PHYSICAL_MEMORY_OFFSET,
{
    virt - PHYSICAL_MEMORY_OFFSET
}

} // verus!
