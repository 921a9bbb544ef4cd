//! The pool of untyped units: blocks of 2 MiB of raw memory, one per task,
//! which come back when the task is destroyed and are reused before the
//! global factory is asked for a new one.

use vstd::prelude::*;
use crate::kernel::KernelCall;

verus! {

/// Binary logarithm of the size of an untyped unit.
pub const ALLOC_SIZE_BITS: usize = 21;

/// Size of an untyped unit in bytes.
pub const UNTYPED_UNIT_SIZE: usize = 0x200000;

/// The units that were handed back, the latest last.
pub struct UntypedPool {
    recycled: Vec<u64>,
}

/// Where the unit of a request comes from.
#[derive(Clone, Copy, Debug, PartialEq, Eq, Structural)]
pub enum UntypedGrant {
    /// A unit that was handed back before.
    Recycled(u64),
    /// No unit was waiting: the global factory has to provide one, by the
    /// call given here.
    Fresh(KernelCall),
}

/// What a request does to the waiting units, and what it grants.
pub open spec fn spec_alloc_untyped_unit(recycled: Seq<u64>) -> (Seq<u64>, UntypedGrant) {
    if recycled.len() > 0 {
        (recycled.drop_last(), UntypedGrant::Recycled(recycled.last()))
    } else {
        (recycled, UntypedGrant::Fresh(KernelCall::AllocUntyped { size_bits: ALLOC_SIZE_BITS }))
    }
}

impl View for UntypedPool {
    type V = Seq<u64>;

    closed spec fn view(&self) -> Seq<u64> {
        self.recycled@
    }
}

impl UntypedPool {
    /// A pool in which no unit waits.
    pub fn new() -> (pool: Self)
        ensures
            pool@ == Seq::<u64>::empty(),
    {
        UntypedPool { recycled: Vec::new() }
    }

    /// The number of units that wait to be reused.
    pub fn len(&self) -> (n: usize)
        ensures
            n == self@.len(),
    {
        self.recycled.len()
    }
}

/// Grants one untyped unit together with its size in bytes: the unit handed
/// back last if one waits, else a fresh one.
pub fn alloc_untyped_unit(pool: &mut UntypedPool) -> (granted: (UntypedGrant, usize))
    ensures
        final(pool)@ == spec_alloc_untyped_unit(old(pool)@).0,
        granted.0 == spec_alloc_untyped_unit(old(pool)@).1,
        granted.1 == UNTYPED_UNIT_SIZE,
{
    let grant = match pool.recycled.pop() {
        Some(cap) => UntypedGrant::Recycled(cap),
        None => UntypedGrant::Fresh(KernelCall::AllocUntyped { size_bits: ALLOC_SIZE_BITS }),
    };
    assert(1usize << 21 == 0x200000) by (bit_vector);
    (grant, 1usize << ALLOC_SIZE_BITS)
}

/// Takes a unit back. The caller has revoked everything that was made from
/// it; nothing here can check that.
pub fn recycle_untyped_unit(pool: &mut UntypedPool, cap: u64)
    ensures
        final(pool)@ == old(pool)@.push(cap),
{
    pool.recycled.push(cap);
}

/// A unit that is handed back is the unit that the next request is granted,
/// without a call to the global factory and with the pool left as it was.
pub proof fn lemma_recycled_unit_is_reused(recycled: Seq<u64>, cap: u64)
    ensures
        spec_alloc_untyped_unit(recycled.push(cap)).1 == UntypedGrant::Recycled(cap),
        spec_alloc_untyped_unit(recycled.push(cap)).0 == recycled,
{
    assert(recycled.push(cap).drop_last() =~= recycled);
}

} // verus!
