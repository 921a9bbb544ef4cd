use sel4_platform::kernel::{Factory, KernelCall, KernelError, KernelReply, LARGE_PAGE_SIZE, NUM_LEVELS};
use sel4_platform::mapping::{
    AreaMapping, AreaStage, AreaStep, IpcStage, IpcStep, MapFault, MapWalk, WalkStage, WalkStep,
};
use sel4_platform::mem::MemSpace;

const MIB: usize = 1024 * 1024;

fn lookup_failed() -> KernelReply {
    KernelReply::Failed(KernelError::FailedLookup)
}

fn after_call(step: WalkStep) -> (MapWalk, KernelCall) {
    match step {
        WalkStep::Call(walk, call) => (walk, call),
        other => panic!("the walk ended: {:?}", other),
    }
}

fn after_area_call(step: AreaStep) -> (AreaMapping, KernelCall) {
    match step {
        AreaStep::Call(area, call) => (area, call),
        other => panic!("the mapping ended: {:?}", other),
    }
}

#[test]
fn four_translation_levels() {
    assert_eq!(NUM_LEVELS, 4);
}

#[test]
fn frame_that_maps_at_once() {
    let space = MemSpace::new(0, 0);
    let (walk, call) = space.map_page(0x7000, 55, Factory::Task { untyped: 9 });
    assert_eq!(call, KernelCall::MapFrame { frame: 55, vaddr: 0x7000 });
    assert_eq!(walk.attempts, 0);
    assert_eq!(walk.stage, WalkStage::Frame);
    assert_eq!(walk.step(KernelReply::Done), WalkStep::Mapped);
}

#[test]
fn missing_level_is_filled_in_and_the_mapping_tried_again() {
    let space = MemSpace::new(0, 0);
    let (walk, _) = space.map_page(0x7000, 55, Factory::Task { untyped: 9 });
    let (walk, call) = after_call(walk.step(lookup_failed()));
    assert_eq!(call, KernelCall::AllocPageTable { from: Factory::Task { untyped: 9 } });
    let (walk, call) = after_call(walk.step(KernelReply::Value(77)));
    assert_eq!(call, KernelCall::MapPageTable { table: 77, vaddr: 0x7000 });
    assert_eq!(walk.stage, WalkStage::TableMap { table: 77 });
    let (walk, call) = after_call(walk.step(KernelReply::Done));
    assert_eq!(call, KernelCall::MapFrame { frame: 55, vaddr: 0x7000 });
    assert_eq!(walk.attempts, 1);
    assert_eq!(walk.step(KernelReply::Done), WalkStep::Mapped);
}

#[test]
fn large_page_takes_its_tables_from_the_global_factory() {
    let space = MemSpace::new(0, 0);
    let (walk, call) = space.map_large_page(4 * MIB, 12);
    assert_eq!(call, KernelCall::MapFrame { frame: 12, vaddr: 4 * MIB });
    let (_, call) = after_call(walk.step(lookup_failed()));
    assert_eq!(call, KernelCall::AllocPageTable { from: Factory::Global });
}

#[test]
fn other_kernel_errors_end_the_walk() {
    let (walk, _) = MapWalk::begin(1, 0x1000, Factory::Global);
    assert_eq!(
        walk.step(KernelReply::Failed(KernelError::DeleteFirst)),
        WalkStep::Fault(MapFault::Kernel(KernelError::DeleteFirst))
    );
    let (walk, _) = after_call(walk.step(lookup_failed()));
    assert_eq!(
        walk.step(KernelReply::Failed(KernelError::NotEnoughMemory)),
        WalkStep::Fault(MapFault::Kernel(KernelError::NotEnoughMemory))
    );
    assert_eq!(walk.step(KernelReply::Done), WalkStep::Fault(MapFault::MissingCapability));
    let (walk, _) = after_call(walk.step(KernelReply::Value(3)));
    assert_eq!(
        walk.step(KernelReply::Failed(KernelError::InvalidArgument)),
        WalkStep::Fault(MapFault::Kernel(KernelError::InvalidArgument))
    );
}

#[test]
fn walk_gives_up_after_one_table_for_each_level() {
    let (mut walk, _) = MapWalk::begin(1, 0x1000, Factory::Global);
    let mut frame_attempts = 1;
    let mut tables = 0;
    loop {
        let (w, call) = after_call(walk.step(lookup_failed()));
        assert_eq!(call, KernelCall::AllocPageTable { from: Factory::Global });
        let (w, _) = after_call(w.step(KernelReply::Value(100 + tables)));
        tables += 1;
        match w.step(KernelReply::Done) {
            WalkStep::Call(w, call) => {
                assert_eq!(call, KernelCall::MapFrame { frame: 1, vaddr: 0x1000 });
                frame_attempts += 1;
                walk = w;
            }
            WalkStep::Fault(fault) => {
                assert_eq!(fault, MapFault::LevelsExhausted);
                break;
            }
            WalkStep::Mapped => panic!("nothing was mapped"),
        }
    }
    assert_eq!(frame_attempts, 4);
    assert_eq!(tables, 4);
}

#[test]
fn ipc_buffer_is_backed_and_mapped() {
    let mut space = MemSpace::new(0x60_0000, 0x4000);
    let factory = Factory::Task { untyped: 5 };
    let (setup, call) = space.alloc_ipc_buffer(factory).unwrap();
    assert_eq!(call, KernelCall::AllocPage { from: factory });
    assert_eq!(setup.vaddr, 0x60_0000);
    assert_eq!(setup.stage, IpcStage::Page);
    let (setup, call) = match setup.step(KernelReply::Value(31)) {
        IpcStep::Call(s, c) => (s, c),
        other => panic!("{:?}", other),
    };
    assert_eq!(call, KernelCall::MapFrame { frame: 31, vaddr: 0x60_0000 });
    let (setup, call) = match setup.step(lookup_failed()) {
        IpcStep::Call(s, c) => (s, c),
        other => panic!("{:?}", other),
    };
    assert_eq!(call, KernelCall::AllocPageTable { from: factory });
    let (setup, _) = match setup.step(KernelReply::Value(32)) {
        IpcStep::Call(s, c) => (s, c),
        other => panic!("{:?}", other),
    };
    let (setup, _) = match setup.step(KernelReply::Done) {
        IpcStep::Call(s, c) => (s, c),
        other => panic!("{:?}", other),
    };
    assert_eq!(setup.step(KernelReply::Done), IpcStep::Ready { vaddr: 0x60_0000, frame: 31 });
}

#[test]
fn ipc_buffer_without_a_page_fails_with_not_enough_memory() {
    let mut space = MemSpace::new(0x60_0000, 0x1000);
    assert!(space.alloc_ipc_buffer(Factory::Global).is_ok());
    assert_eq!(space.alloc_ipc_buffer(Factory::Global).unwrap_err(), KernelError::NotEnoughMemory);
}

#[test]
fn ipc_buffer_faults() {
    let mut space = MemSpace::new(0x60_0000, 0x2000);
    let (setup, _) = space.alloc_ipc_buffer(Factory::Global).unwrap();
    assert_eq!(setup.step(KernelReply::Done), IpcStep::Fault(MapFault::MissingCapability));
    assert_eq!(
        setup.step(KernelReply::Failed(KernelError::NotEnoughMemory)),
        IpcStep::Fault(MapFault::Kernel(KernelError::NotEnoughMemory))
    );
    let setup = match setup.step(KernelReply::Value(8)) {
        IpcStep::Call(s, _) => s,
        other => panic!("{:?}", other),
    };
    assert_eq!(
        setup.step(KernelReply::Failed(KernelError::RangeError)),
        IpcStep::Fault(MapFault::Kernel(KernelError::RangeError))
    );
}

#[test]
fn area_of_three_large_pages() {
    let mut space = MemSpace::new(0, 0);
    let vaddr = 0x4000_0000;
    let (area, call) = space.map_area(vaddr, 3 * LARGE_PAGE_SIZE);
    assert_eq!(call, KernelCall::AllocLargePages { count: 3 });
    assert_eq!(area.count, 3);
    assert_eq!(area.stage, AreaStage::Pages);
    let (area, call) = after_area_call(area.step(&mut space, KernelReply::Values(vec![10, 11, 12])));
    assert_eq!(call, KernelCall::FrameAddress { frame: 10 });
    let (mut area, mut call) = after_area_call(area.step(&mut space, KernelReply::Value(0x8000_0000)));
    for i in 0..3usize {
        assert_eq!(call, KernelCall::MapFrame { frame: 10 + i as u64, vaddr: vaddr + i * LARGE_PAGE_SIZE });
        assert_eq!(area.index, i);
        assert_eq!(space.virt_to_phys(vaddr), vaddr);
        match area.step(&mut space, KernelReply::Done) {
            AreaStep::Call(a, c) => {
                area = a;
                call = c;
            }
            AreaStep::Mapped => {
                assert_eq!(i, 2);
                break;
            }
            AreaStep::Fault(f) => panic!("{:?}", f),
        }
    }
    assert_eq!(space.virt_to_phys(vaddr), 0x8000_0000);
    assert_eq!(space.virt_to_phys(vaddr + 5 * MIB + 3), 0x8000_0000 + 5 * MIB + 3);
    assert_eq!(space.virt_to_phys(vaddr + 6 * MIB - 1), 0x8000_0000 + 6 * MIB - 1);
    assert_eq!(space.virt_to_phys(vaddr + 6 * MIB), vaddr + 6 * MIB);
    assert_eq!(space.phys_to_virt(0x8000_0000 + 4 * MIB), vaddr + 4 * MIB);
}

#[test]
fn area_counts_whole_large_pages_only() {
    let space = MemSpace::new(0, 0);
    let (area, call) = space.map_area(0x20_0000, 5 * MIB);
    assert_eq!(call, KernelCall::AllocLargePages { count: 2 });
    assert_eq!(area.count, 2);
    assert_eq!(area.vaddr, 0x20_0000);
}

#[test]
fn area_with_a_missing_level() {
    let mut space = MemSpace::new(0, 0);
    let (area, _) = space.map_area(0x20_0000, LARGE_PAGE_SIZE);
    let (area, _) = after_area_call(area.step(&mut space, KernelReply::Values(vec![4])));
    let (area, _) = after_area_call(area.step(&mut space, KernelReply::Value(0x100_0000)));
    let (area, call) = after_area_call(area.step(&mut space, lookup_failed()));
    assert_eq!(call, KernelCall::AllocPageTable { from: Factory::Global });
    let (area, call) = after_area_call(area.step(&mut space, KernelReply::Value(90)));
    assert_eq!(call, KernelCall::MapPageTable { table: 90, vaddr: 0x20_0000 });
    let (area, call) = after_area_call(area.step(&mut space, KernelReply::Done));
    assert_eq!(call, KernelCall::MapFrame { frame: 4, vaddr: 0x20_0000 });
    assert!(matches!(area.step(&mut space, KernelReply::Done), AreaStep::Mapped));
    assert_eq!(space.virt_to_phys(0x20_0040), 0x100_0040);
}

#[test]
fn area_smaller_than_a_large_page_has_no_first_page() {
    let mut space = MemSpace::new(0, 0);
    let (area, call) = space.map_area(0x20_0000, 0x1000);
    assert_eq!(call, KernelCall::AllocLargePages { count: 0 });
    assert!(matches!(
        area.step(&mut space, KernelReply::Values(Vec::new())),
        AreaStep::Fault(MapFault::MissingCapability)
    ));
}

#[test]
fn area_faults() {
    let mut space = MemSpace::new(0, 0);
    let (area, _) = space.map_area(0x20_0000, 2 * LARGE_PAGE_SIZE);
    assert!(matches!(
        area.step(&mut space, KernelReply::Values(vec![1])),
        AreaStep::Fault(MapFault::MissingCapability)
    ));
    let (area, _) = space.map_area(0x20_0000, 2 * LARGE_PAGE_SIZE);
    assert!(matches!(
        area.step(&mut space, KernelReply::Failed(KernelError::NotEnoughMemory)),
        AreaStep::Fault(MapFault::Kernel(KernelError::NotEnoughMemory))
    ));
    let (area, _) = space.map_area(0x20_0000, 2 * LARGE_PAGE_SIZE);
    let (area, _) = after_area_call(area.step(&mut space, KernelReply::Values(vec![1, 2])));
    assert!(matches!(
        area.step(&mut space, KernelReply::Value(u64::MAX - 5)),
        AreaStep::Fault(MapFault::AddressOverflow)
    ));
    let (area, _) = space.map_area(0x20_0000, 2 * LARGE_PAGE_SIZE);
    let (area, _) = after_area_call(area.step(&mut space, KernelReply::Values(vec![1, 2])));
    assert!(matches!(
        area.step(&mut space, KernelReply::Done),
        AreaStep::Fault(MapFault::MissingCapability)
    ));
    let (area, _) = space.map_area(0x20_0000, 2 * LARGE_PAGE_SIZE);
    let (area, _) = after_area_call(area.step(&mut space, KernelReply::Values(vec![1, 2])));
    let (area, _) = after_area_call(area.step(&mut space, KernelReply::Value(0x1000_0000)));
    assert!(matches!(
        area.step(&mut space, KernelReply::Failed(KernelError::IllegalOperation)),
        AreaStep::Fault(MapFault::Kernel(KernelError::IllegalOperation))
    ));
    assert_eq!(space.virt_to_phys(0x20_0000), 0x20_0000);
}
