use sel4_platform::kernel::{Factory, LARGE_PAGE_SIZE, PAGE_SIZE};
use sel4_platform::kernel::KernelCall;
use sel4_platform::kernel::KernelError;
use sel4_platform::mem::{alloc_ipc_buffer, dealloc_ipc_buffer, init, MemSpace};

const MIB: usize = 1024 * 1024;

#[test]
fn page_sizes() {
    assert_eq!(PAGE_SIZE, 4096);
    assert_eq!(LARGE_PAGE_SIZE, 2 * MIB);
}

#[test]
fn unmapped_addresses_translate_to_themselves() {
    let space = MemSpace::new(0x1000_0000, 16 * PAGE_SIZE);
    assert_eq!(space.virt_to_phys(0x1234_5678), 0x1234_5678);
    assert_eq!(space.phys_to_virt(0x1234_5678), 0x1234_5678);
    assert_eq!(space.virt_to_phys(0), 0);
    assert_eq!(space.phys_to_virt(usize::MAX), usize::MAX);
}

#[test]
fn init_records_the_boot_heap() {
    let mut space = MemSpace::new(0x1000_0000, 16 * PAGE_SIZE);
    space.init(0x4000_0000, 0x8020_0000, 2 * MIB);
    assert_eq!(space.virt_to_phys(0x4000_0000), 0x8020_0000);
    assert_eq!(space.virt_to_phys(0x4000_0abc), 0x8020_0abc);
    assert_eq!(space.phys_to_virt(0x8020_0abc), 0x4000_0abc);
    assert_eq!(space.virt_to_phys(0x4000_0000 + 2 * MIB), 0x4000_0000 + 2 * MIB);
    assert_eq!(space.phys_to_virt(0x8020_0000 + 2 * MIB), 0x8020_0000 + 2 * MIB);
}

#[test]
fn region_translates_by_offset() {
    let mut space = MemSpace::new(0, 0);
    space.add_region(0x20_0000, 0x9000_0000, 4 * MIB);
    assert_eq!(space.virt_to_phys(0x20_0000), 0x9000_0000);
    assert_eq!(space.virt_to_phys(0x20_0000 + 3 * MIB + 17), 0x9000_0000 + 3 * MIB + 17);
    assert_eq!(space.virt_to_phys(0x20_0000 + 4 * MIB - 1), 0x9000_0000 + 4 * MIB - 1);
    assert_eq!(space.virt_to_phys(0x20_0000 + 4 * MIB), 0x20_0000 + 4 * MIB);
    assert_eq!(space.virt_to_phys(0x20_0000 - 1), 0x20_0000 - 1);
    assert_eq!(space.phys_to_virt(0x9000_0000 + 3 * MIB + 17), 0x20_0000 + 3 * MIB + 17);
    assert_eq!(space.phys_to_virt(0x9000_0000 - 1), 0x9000_0000 - 1);
    assert_eq!(space.phys_to_virt(0x9000_0000 + 4 * MIB), 0x9000_0000 + 4 * MIB);
}

#[test]
fn translation_round_trip_over_two_regions() {
    let mut space = MemSpace::new(0, 0);
    space.add_region(0x4000_0000, 0x8000_0000, 4 * MIB);
    space.add_region(0x6000_0000, 0x7000_0000, 2 * MIB);
    let mut a = 0x4000_0000usize;
    while a < 0x4000_0000 + 4 * MIB {
        assert_eq!(space.phys_to_virt(space.virt_to_phys(a)), a);
        a += 0x1_0007;
    }
    let mut b = 0x6000_0000usize;
    while b < 0x6000_0000 + 2 * MIB {
        let p = space.virt_to_phys(b);
        assert_eq!(p, 0x7000_0000 + (b - 0x6000_0000));
        assert_eq!(space.phys_to_virt(p), b);
        b += 0x3_0001;
    }
}

#[test]
fn nearest_region_below_answers_for_a_virtual_address() {
    let mut space = MemSpace::new(0, 0);
    space.add_region(0x40_0000, 0x1000_0000, 2 * MIB);
    space.add_region(0x20_0000, 0x2000_0000, 6 * MIB);
    assert_eq!(space.virt_to_phys(0x40_0010), 0x1000_0010);
    assert_eq!(space.virt_to_phys(0x20_0010), 0x2000_0010);
    assert_eq!(space.virt_to_phys(0x60_0010), 0x2000_0000 + 0x40_0010);
}

#[test]
fn first_region_answers_for_a_physical_address() {
    let mut space = MemSpace::new(0, 0);
    space.add_region(0x40_0000, 0x1000_0000, 4 * MIB);
    space.add_region(0x80_0000, 0x1020_0000, 2 * MIB);
    assert_eq!(space.phys_to_virt(0x1020_0008), 0x60_0008);
    assert_eq!(space.phys_to_virt(0x1000_0008), 0x40_0008);
}

#[test]
fn region_recorded_twice_is_replaced() {
    let mut space = MemSpace::new(0, 0);
    space.add_region(0x20_0000, 0x9000_0000, 2 * MIB);
    space.add_region(0x20_0000, 0xa000_0000, 2 * MIB);
    assert_eq!(space.virt_to_phys(0x20_0004), 0xa000_0004);
    assert_eq!(space.phys_to_virt(0x9000_0004), 0x9000_0004);
}

#[test]
fn empty_region_covers_nothing() {
    let mut space = MemSpace::new(0, 0);
    space.add_region(0x20_0000, 0x9000_0000, 0);
    assert_eq!(space.virt_to_phys(0x20_0000), 0x20_0000);
    assert_eq!(space.phys_to_virt(0x9000_0000), 0x9000_0000);
}

#[test]
fn ipc_page_is_taken_back_by_its_address() {
    let mut space = MemSpace::new(0x50_0000, 2 * PAGE_SIZE);
    let first = space.alloc_ipc_buffer(Factory::Global).unwrap().0.vaddr;
    let second = space.alloc_ipc_buffer(Factory::Global).unwrap().0.vaddr;
    assert_eq!((first, second), (0x50_0000, 0x50_1000));
    assert!(space.alloc_ipc_buffer(Factory::Global).is_err());
    dealloc_ipc_buffer(&mut space, first + 0x123);
    assert_eq!(space.alloc_ipc_buffer(Factory::Global).unwrap().0.vaddr, first);
    space.dealloc_ipc_buffer(second / PAGE_SIZE);
    assert_eq!(space.alloc_ipc_buffer(Factory::Global).unwrap().0.vaddr, second);
    assert!(space.alloc_ipc_buffer(Factory::Global).is_err());
}

#[test]
fn boot_sets_up_pages_heap_and_the_first_area() {
    let (mut space, area, call) = init(
        0x5000_0000,
        2 * PAGE_SIZE,
        0x4000_0000,
        0x8000_0000,
        MIB,
        0x6000_0000,
        8 * MIB,
    );
    assert_eq!(call, KernelCall::AllocLargePages { count: 4 });
    assert_eq!((area.vaddr, area.count, area.index, area.paddr), (0x6000_0000, 4, 0, 0));
    assert!(area.pages.is_empty());
    assert_eq!(space.virt_to_phys(0x4000_0123), 0x8000_0123);
    assert_eq!(space.virt_to_phys(0x4000_0000 + MIB), 0x4000_0000 + MIB);
    assert_eq!(space.virt_to_phys(0x6000_0000), 0x6000_0000);
    let factory = Factory::Task { untyped: 3 };
    let (setup, call) = alloc_ipc_buffer(&mut space, factory).unwrap();
    assert_eq!(call, KernelCall::AllocPage { from: factory });
    assert_eq!((setup.vaddr, setup.factory), (0x5000_0000, factory));
    assert_eq!(alloc_ipc_buffer(&mut space, factory).unwrap().0.vaddr, 0x5000_1000);
    assert_eq!(alloc_ipc_buffer(&mut space, factory).unwrap_err(), KernelError::NotEnoughMemory);
}
