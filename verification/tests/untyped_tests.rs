use sel4_platform::kernel::KernelCall;
use sel4_platform::untyped::{
    alloc_untyped_unit, recycle_untyped_unit, UntypedGrant, UntypedPool, ALLOC_SIZE_BITS,
    UNTYPED_UNIT_SIZE,
};

#[test]
fn empty_pool_asks_the_factory() {
    let mut pool = UntypedPool::new();
    let (grant, size) = alloc_untyped_unit(&mut pool);
    assert_eq!(grant, UntypedGrant::Fresh(KernelCall::AllocUntyped { size_bits: 21 }));
    assert_eq!(size, 2 * 1024 * 1024);
    assert_eq!(pool.len(), 0);
}

#[test]
fn unit_size_is_two_mebibytes() {
    assert_eq!(ALLOC_SIZE_BITS, 21);
    assert_eq!(UNTYPED_UNIT_SIZE, 1 << 21);
}

#[test]
fn recycled_units_come_back_latest_first() {
    let mut pool = UntypedPool::new();
    recycle_untyped_unit(&mut pool, 41);
    recycle_untyped_unit(&mut pool, 42);
    assert_eq!(pool.len(), 2);
    assert_eq!(alloc_untyped_unit(&mut pool), (UntypedGrant::Recycled(42), 0x200000));
    assert_eq!(alloc_untyped_unit(&mut pool), (UntypedGrant::Recycled(41), 0x200000));
    assert_eq!(pool.len(), 0);
    assert!(matches!(alloc_untyped_unit(&mut pool).0, UntypedGrant::Fresh(_)));
}

#[test]
fn recycling_is_unconditional() {
    let mut pool = UntypedPool::new();
    recycle_untyped_unit(&mut pool, 7);
    recycle_untyped_unit(&mut pool, 7);
    assert_eq!(pool.len(), 2);
    assert_eq!(alloc_untyped_unit(&mut pool).0, UntypedGrant::Recycled(7));
    assert_eq!(alloc_untyped_unit(&mut pool).0, UntypedGrant::Recycled(7));
}
