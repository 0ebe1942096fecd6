use myos::addr::{phys_to_virt, virt_to_phys, KERNEL_HEAP_START, PHYSICAL_MEMORY_OFFSET};
use myos::bitalloc::{FrameAllocator, MAX_FRAMES};
use myos::memory::{
    alloc_dma, dealloc_dma, apic_mapping, bitalloc_init, heap_mappings, plan_heap, MemoryRegion, PageMapping,
    KERNEL_HEAP_ALIGN, KERNEL_HEAP_FRAMES, LOCAL_APIC_BASE, PAGE_NO_CACHE, PAGE_PRESENT,
    PAGE_WRITABLE,
};

fn seeded(capacity: usize, start: usize, end: usize) -> FrameAllocator {
    let mut a = FrameAllocator::new(capacity);
    a.insert(start, end);
    a
}

#[test]
fn new_allocator_has_nothing_free() {
    let mut a = FrameAllocator::new(16);
    assert_eq!(a.capacity(), 16);
    assert!((0..16).all(|i| !a.is_free(i)));
    assert_eq!(a.allocate(), None);
    assert_eq!(a.alloc_contiguous(1, 1), None);
}

#[test]
fn default_allocator_covers_max_frames() {
    let a = FrameAllocator::default();
    assert_eq!(a.capacity(), MAX_FRAMES);
    assert!(!a.is_free(0));
}

#[test]
fn allocate_hands_out_lowest_free_frame() {
    let mut a = seeded(64, 10, 20);
    assert_eq!(a.allocate(), Some(10));
    assert!(!a.is_free(10));
    assert_eq!(a.allocate(), Some(11));
    a.dealloc(10);
    assert!(a.is_free(10));
    assert_eq!(a.allocate(), Some(10));
}

#[test]
fn allocate_reports_exhaustion() {
    let mut a = seeded(8, 2, 4);
    assert_eq!(a.allocate(), Some(2));
    assert_eq!(a.allocate(), Some(3));
    assert_eq!(a.allocate(), None);
}

#[test]
fn frames_held_at_once_never_alias() {
    let mut a = seeded(256, 0, 256);
    let mut held: Vec<usize> = Vec::new();
    for round in 0..200usize {
        if round % 3 == 2 {
            let f = held.remove(round % held.len());
            a.dealloc(f);
        } else {
            let f = a.allocate().unwrap();
            assert!(!held.contains(&f));
            held.push(f);
        }
        if round % 7 == 0 {
            if let Some(s) = a.alloc_contiguous(3, 4) {
                for f in s..s + 3 {
                    assert!(!held.contains(&f));
                    held.push(f);
                }
            }
        }
    }
    let mut sorted = held.clone();
    sorted.sort();
    sorted.dedup();
    assert_eq!(sorted.len(), held.len());
    assert!(held.iter().all(|&f| !a.is_free(f)));
}

#[test]
fn alloc_contiguous_is_aligned_and_marks_the_run() {
    let mut a = seeded(64, 3, 40);
    let s = a.alloc_contiguous(4, 8).unwrap();
    assert_eq!(s, 8);
    assert!((8..12).all(|i| !a.is_free(i)));
    assert!(a.is_free(7));
    assert!(a.is_free(12));
    assert_eq!(a.alloc_contiguous(4, 8), Some(16));
}

#[test]
fn alloc_contiguous_skips_runs_with_a_used_frame() {
    let mut a = seeded(64, 0, 64);
    assert_eq!(a.allocate(), Some(0));
    assert_eq!(a.allocate(), Some(1));
    assert_eq!(a.allocate(), Some(2));
    a.dealloc(0);
    a.dealloc(1);
    // frame 2 is in use, so the first aligned run of three starts at 4
    assert_eq!(a.alloc_contiguous(3, 2), Some(4));
    assert_eq!(a.alloc_contiguous(2, 2), Some(0));
}

#[test]
fn alloc_contiguous_fails_without_a_run() {
    let mut a = seeded(16, 1, 16);
    assert_eq!(a.alloc_contiguous(16, 1), None);
    assert_eq!(a.alloc_contiguous(4, 0), None);
    assert_eq!(a.alloc_contiguous(2, 32), None);
    assert!((1..16).all(|i| a.is_free(i)));
    assert_eq!(a.alloc_contiguous(15, 1), Some(1));
}

#[test]
fn insert_ignores_frames_past_capacity() {
    let mut a = FrameAllocator::new(10);
    a.insert(8, 100);
    assert!(a.is_free(8));
    assert!(a.is_free(9));
    assert!(!a.is_free(7));
    a.insert(5, 3);
    assert!(!a.is_free(4));
}

#[test]
fn init_uses_only_usable_regions() {
    let mut a = FrameAllocator::new(0x400);
    let regions = vec![
        MemoryRegion { start: 0x0, end: 0x1000, usable: false },
        MemoryRegion { start: 0x1000, end: 0x3000, usable: true },
        MemoryRegion { start: 0x3000, end: 0x10000, usable: false },
        MemoryRegion { start: 0x10000, end: 0x12800, usable: true },
        MemoryRegion { start: 0x100_0000, end: 0x200_0000, usable: true },
    ];
    bitalloc_init(&mut a, &regions);
    let free: Vec<usize> = (0..0x400).filter(|&i| a.is_free(i)).collect();
    assert_eq!(free, vec![1, 2, 0x10, 0x11]);
}

#[test]
fn boot_scenario_single_usable_range() {
    let mut a = FrameAllocator::default();
    let regions = vec![MemoryRegion { start: 0x100000, end: 0x200000, usable: true }];
    bitalloc_init(&mut a, &regions);
    assert_eq!(a.allocate(), Some(0x100));
    let s = a.alloc_contiguous(4, 8).unwrap();
    assert_eq!((s * 0x1000) % (0x1000 * 8), 0);
    assert!(s > 0x100 && s + 4 <= 0x200);
    assert_eq!(s, 0x108);
    assert!((s..s + 4).all(|i| !a.is_free(i)));
}

#[test]
fn address_window_conversions() {
    assert_eq!(phys_to_virt(0x1000), 0xFFFF_8000_0000_1000);
    assert_eq!(virt_to_phys(0xFFFF_8000_0000_1000), 0x1000);
    assert_eq!(virt_to_phys(phys_to_virt(0xfee0_0000)), 0xfee0_0000);
    assert_eq!(phys_to_virt(0), PHYSICAL_MEMORY_OFFSET);
}

#[test]
fn apic_page_is_identity_mapped_uncached() {
    assert_eq!(
        apic_mapping(),
        PageMapping {
            virt: LOCAL_APIC_BASE,
            phys: LOCAL_APIC_BASE,
            flags: PAGE_PRESENT | PAGE_WRITABLE | PAGE_NO_CACHE,
        }
    );
    assert_eq!(apic_mapping().flags, 0x13);
}

#[test]
fn heap_mappings_cover_the_heap_page_by_page() {
    let m = heap_mappings(0x40_0000);
    assert_eq!(m.len(), KERNEL_HEAP_FRAMES);
    assert_eq!(m[0], PageMapping { virt: KERNEL_HEAP_START, phys: 0x40_0000, flags: 3 });
    assert_eq!(
        m[255],
        PageMapping { virt: 0x4444_4453_F000, phys: 0x4F_F000, flags: 3 }
    );
}

#[test]
fn plan_heap_takes_an_aligned_run() {
    let mut a = FrameAllocator::new(0x1000);
    a.insert(0x100, 0x1000);
    let (f, m) = plan_heap(&mut a).unwrap();
    assert_eq!(f, KERNEL_HEAP_ALIGN);
    assert_eq!(m[0].phys, 0x40_0000);
    assert!((f..f + KERNEL_HEAP_FRAMES).all(|i| !a.is_free(i)));
    assert!(a.is_free(0x100));
}

#[test]
fn plan_heap_fails_when_memory_is_short() {
    let mut a = FrameAllocator::new(0x4FF);
    a.insert(1, 0x4FF);
    assert!(plan_heap(&mut a).is_none());
    assert!(a.is_free(0x400));
}

#[test]
fn dma_buffers_are_aligned_runs_seen_through_the_window() {
    let mut a = seeded(0x100, 0x10, 0x100);
    let (virt, phys) = alloc_dma(&mut a, 0x3000).unwrap();
    assert_eq!(phys, 0x10_000);
    assert_eq!(virt, PHYSICAL_MEMORY_OFFSET + 0x10_000);
    assert!((0x10..0x13).all(|i| !a.is_free(i)));
    assert!(a.is_free(0x13));
    let (_, phys2) = alloc_dma(&mut a, 0x1000).unwrap();
    assert_eq!(phys2, 0x18_000);
    dealloc_dma(&mut a, virt, 0x3000);
    assert!((0x10..0x13).all(|i| a.is_free(i)));
    assert!(!a.is_free(0x18));
}

#[test]
fn dma_allocation_fails_when_no_run_fits() {
    let mut a = seeded(0x20, 0x9, 0x20);
    assert!(alloc_dma(&mut a, 0x11_000).is_none());
    assert!((0x9..0x20).all(|i| a.is_free(i)));
}
