//! The address space: which virtual regions are backed by which physical
//! ranges, how addresses translate between the two, which virtual pages are
//! free for IPC buffers, and how frames get mapped.

use std::collections::BTreeMap;
use vstd::prelude::*;
use vstd::std_specs::cmp::OrdSpec;
use vstd::std_specs::iter::IteratorSpec;
use crate::frame::FrameState;
use crate::frame::VirtFrameAllocator;
use crate::kernel::Factory;
use crate::kernel::KernelCall;
use crate::kernel::KernelError;
use crate::kernel::LARGE_PAGE_SIZE;
use crate::kernel::PAGE_SIZE;
use crate::mapping::spec_alloc_ipc_buffer;
use crate::mapping::AreaMapping;
use crate::mapping::IpcBufferSetup;

verus! {

/// The region map: the virtual start address of each region, with the
/// physical range `(start, end)` that backs it.
pub type Regions = Map<usize, (usize, usize)>;

/// The side of the translation that an address belongs to.
#[derive(Clone, Copy, Debug, PartialEq, Eq, Structural)]
pub enum Space {
    Virtual,
    Physical,
}

/// Every region is backed by a range that does not end before it starts, and
/// its virtual extent fits into the address space.
pub open spec fn regions_wf(m: Regions) -> bool {
    forall|k: usize| #[trigger]
        m.contains_key(k) ==> m[k].0 <= m[k].1 && k + (m[k].1 - m[k].0) <= usize::MAX
}

/// A region that starts at `start` and is backed by `range` holds the address
/// `addr` of the given space.
pub open spec fn holds(space: Space, start: usize, range: (usize, usize), addr: usize) -> bool {
    match space {
        Space::Virtual => start <= addr && addr - start < range.1 - range.0,
        Space::Physical => range.0 <= addr < range.1,
    }
}

/// The region of `m` that starts at `k` covers `addr`.
pub open spec fn covers(m: Regions, space: Space, k: usize, addr: usize) -> bool {
    m.contains_key(k) && holds(space, k, m[k], addr)
}

/// Which of two regions that cover the same address answers for it: for a
/// virtual address the one that starts higher, so that no region starts
/// closer below the address; for a physical address the one that starts
/// lower, the first that is met walking up the map. Where regions do not
/// overlap the question does not arise.
pub open spec fn prefers(space: Space, k: usize, j: usize) -> bool {
    match space {
        Space::Virtual => j <= k,
        Space::Physical => k <= j,
    }
}

/// The start of the region that answers for `addr`, if any covers it.
#[verifier::opaque]
pub open spec fn covering_region(m: Regions, space: Space, addr: usize) -> Option<usize> {
    if exists|k: usize| #[trigger] covers(m, space, k, addr) {
        Some(
            choose|k: usize|
                covers(m, space, k, addr) && forall|j: usize| #[trigger]
                    covers(m, space, j, addr) ==> prefers(space, k, j),
        )
    } else {
        None
    }
}

/// The physical address behind a virtual one: the offset into the covering
/// region, applied to its physical start. An address that no region covers
/// translates to itself.
pub open spec fn spec_virt_to_phys(m: Regions, vaddr: usize) -> int {
    match covering_region(m, Space::Virtual, vaddr) {
        Some(k) => m[k].0 + (vaddr - k),
        None => vaddr as int,
    }
}

/// The virtual address in front of a physical one: the offset into the
/// backing range of the covering region, applied to its virtual start. An
/// address that no region covers translates to itself.
pub open spec fn spec_phys_to_virt(m: Regions, paddr: usize) -> int {
    match covering_region(m, Space::Physical, paddr) {
        Some(k) => k + (paddr - m[k].0),
        None => paddr as int,
    }
}

/// No two regions share a virtual address, and no two share a physical one.
pub open spec fn regions_disjoint(m: Regions) -> bool {
    forall|j: usize, k: usize, space: Space, addr: usize|
        #![trigger covers(m, space, j, addr), covers(m, space, k, addr)]
        covers(m, space, j, addr) && covers(m, space, k, addr) ==> j == k
}

/// What walking the region map yields: every region once, as the map holds
/// it, by rising start address.
#[verifier::opaque]
spec fn walks_regions(entries: Seq<(&usize, &(usize, usize))>, m: Regions) -> bool {
    &&& forall|i: int|
        0 <= i < entries.len() ==> m.contains_key(*(#[trigger] entries[i]).0) && m[*entries[i].0]
            == *entries[i].1
    &&& forall|k: usize| #[trigger]
        m.contains_key(k) ==> exists|i: int|
            0 <= i < entries.len() && *(#[trigger] entries[i]).0 == k
    &&& forall|i: int, j: int|
        0 <= i < j < entries.len() ==> *(#[trigger] entries[i]).0 < *(#[trigger] entries[j]).0
}

proof fn lemma_walk_of_regions(
    regions: &BTreeMap<usize, (usize, usize)>,
    entries: Seq<(&usize, &(usize, usize))>,
)
    requires
        entries == vstd::std_specs::btree::spec_btree_map_iter(regions).remaining(),
        entries.no_duplicates(),
        vstd::std_specs::btree::increasing_seq(
            entries.map_values(|kv: (&usize, &(usize, usize))| *kv.0),
        ),
    ensures
        walks_regions(entries, regions@),
{
    broadcast use vstd::std_specs::btree::group_btree_axioms;
    broadcast use vstd::laws_cmp::group_laws_cmp;

    reveal(walks_regions);
    let keys = entries.map_values(|kv: (&usize, &(usize, usize))| *kv.0);
    assert(vstd::std_specs::btree::increasing_seq(keys));
    assert(vstd::laws_cmp::obeys_cmp::<usize>());
    assert(forall|i: int, j: int|
        0 <= i < j < keys.len() ==> #[trigger] keys[i].cmp_spec(&keys[j]) is Less);
    assert forall|i: int, j: int| 0 <= i < j < entries.len() implies *(#[trigger] entries[i]).0
        < *(#[trigger] entries[j]).0 by {
        assert(keys[i] == *entries[i].0);
        assert(keys[j] == *entries[j].0);
        assert(keys[i].cmp_spec(&keys[j]) is Less);
    }
    assert forall|k: usize| #[trigger] regions@.contains_key(k) implies exists|i: int|
        0 <= i < entries.len() && *(#[trigger] entries[i]).0 == k by {
        let kv = (&k, &regions@[k]);
        assert(entries.contains(kv));
        let i = choose|i: int| 0 <= i < entries.len() && entries[i] == kv;
        assert(*entries[i].0 == k);
    }
}

/// The entry of a walk that holds `addr`, with no such entry before it for
/// a physical address and none after it for a virtual one, is the region
/// that answers for `addr`.
proof fn lemma_walk_finds_covering_region(
    entries: Seq<(&usize, &(usize, usize))>,
    m: Regions,
    space: Space,
    i: int,
    addr: usize,
)
    requires
        walks_regions(entries, m),
        0 <= i < entries.len(),
        holds(space, *entries[i].0, *entries[i].1, addr),
        space == Space::Physical ==> forall|j: int|
            0 <= j < i ==> !holds(space, *(#[trigger] entries[j]).0, *entries[j].1, addr),
        space == Space::Virtual ==> forall|j: int|
            i < j < entries.len() ==> !holds(space, *(#[trigger] entries[j]).0, *entries[j].1, addr),
    ensures
        covering_region(m, space, addr) == Some(*entries[i].0),
        m.contains_key(*entries[i].0),
        m[*entries[i].0] == *entries[i].1,
{
    reveal(walks_regions);
    let k = *entries[i].0;
    assert(covers(m, space, k, addr));
    assert forall|j: usize| #[trigger] covers(m, space, j, addr) implies prefers(space, k, j) by {
        let x = choose|x: int| 0 <= x < entries.len() && *(#[trigger] entries[x]).0 == j;
        assert(holds(space, *entries[x].0, *entries[x].1, addr));
        if x < i {
            assert(*entries[x].0 < *entries[i].0);
        } else if i < x {
            assert(*entries[i].0 < *entries[x].0);
        }
    }
    lemma_preferred_is_covering_region(m, space, k, addr);
}

/// A walk that meets no region holding `addr` shows that none covers it.
proof fn lemma_no_covering_region(
    entries: Seq<(&usize, &(usize, usize))>,
    m: Regions,
    space: Space,
    addr: usize,
)
    requires
        walks_regions(entries, m),
        forall|j: int|
            0 <= j < entries.len() ==> !holds(
                space,
                *(#[trigger] entries[j]).0,
                *entries[j].1,
                addr,
            ),
    ensures
        covering_region(m, space, addr) is None,
{
    reveal(walks_regions);
    reveal(covering_region);
    assert forall|k: usize| !covers(m, space, k, addr) by {
        if m.contains_key(k) {
            let x = choose|x: int| 0 <= x < entries.len() && *(#[trigger] entries[x]).0 == k;
            assert(!holds(space, *entries[x].0, *entries[x].1, addr));
        }
    }
}

/// Whether a region given by its start and backing range holds `addr`.
fn region_holds(space: Space, start: usize, range: (usize, usize), addr: usize) -> (hit: bool)
    ensures
        hit == holds(space, start, range, addr),
{
    match space {
        Space::Virtual => start <= addr && range.0 <= range.1 && addr - start < range.1 - range.0,
        Space::Physical => range.0 <= addr && addr < range.1,
    }
}

/// The address of the virtual page that the next IPC buffer gets.
pub open spec fn spec_ipc_page(frames: FrameState) -> Option<usize> {
    match frames.allocate().1 {
        Some(vpn) => Some((vpn * PAGE_SIZE) as usize),
        None => None,
    }
}

/// Mathematical state of a [`MemSpace`].
pub struct MemState {
    /// The regions that were mapped.
    pub regions: Regions,
    /// The virtual pages for IPC buffers.
    pub frames: FrameState,
}

impl MemState {
    /// The region map and the page allocator are well formed, and every page
    /// of the reserved range has an address.
    pub open spec fn wf(self) -> bool {
        &&& regions_wf(self.regions)
        &&& self.frames.wf()
        &&& self.frames.end * PAGE_SIZE <= usize::MAX
    }
}

/// The one address space of the process.
pub struct MemSpace {
    regions: BTreeMap<usize, (usize, usize)>,
    vp_allocator: VirtFrameAllocator,
}

impl View for MemSpace {
    type V = MemState;

    closed spec fn view(&self) -> MemState {
        MemState { regions: self.regions@, frames: self.vp_allocator@ }
    }
}

impl MemSpace {
    /// An address space without regions, whose IPC buffers live in
    /// `[frame_base, frame_base + frame_size)`.
    pub fn new(frame_base: usize, frame_size: usize) -> (space: Self)
        requires
            frame_base + frame_size <= usize::MAX,
        ensures
            space@.wf(),
            space@.regions == Map::<usize, (usize, usize)>::empty(),
            space@.frames.current == frame_base / PAGE_SIZE,
            space@.frames.end == (frame_base + frame_size) / (PAGE_SIZE as int),
            space@.frames.recycled == Seq::<usize>::empty(),
    {
        MemSpace {
            regions: BTreeMap::new(),
            vp_allocator: VirtFrameAllocator::new(frame_base, frame_size),
        }
    }

    /// Records the region that exists before anything is mapped: the boot
    /// heap at `heap_base`, which `heap_paddr` backs.
    pub fn init(&mut self, heap_base: usize, heap_paddr: usize, heap_size: usize)
        requires
            old(self)@.wf(),
            heap_base + heap_size <= usize::MAX,
            heap_paddr + heap_size <= usize::MAX,
        ensures
            final(self)@.wf(),
            final(self)@.frames == old(self)@.frames,
            final(self)@.regions == old(self)@.regions.insert(
                heap_base,
                (heap_paddr, (heap_paddr + heap_size) as usize),
            ),
    {
        self.add_region(heap_base, heap_paddr, heap_size);
    }

    /// Records that `[vaddr, vaddr + size)` is backed by
    /// `[paddr, paddr + size)`. A region recorded at `vaddr` before is
    /// replaced.
    pub fn add_region(&mut self, vaddr: usize, paddr: usize, size: usize)
        requires
            old(self)@.wf(),
            vaddr + size <= usize::MAX,
            paddr + size <= usize::MAX,
        ensures
            final(self)@.wf(),
            final(self)@.frames == old(self)@.frames,
            final(self)@.regions == old(self)@.regions.insert(
                vaddr,
                (paddr, (paddr + size) as usize),
            ),
    {
        self.insert_region(vaddr, (paddr, paddr + size));
    }

    fn insert_region(&mut self, vaddr: usize, range: (usize, usize))
        requires
            old(self)@.wf(),
            range.0 <= range.1,
            vaddr + (range.1 - range.0) <= usize::MAX,
        ensures
            final(self)@.wf(),
            final(self)@.frames == old(self)@.frames,
            final(self)@.regions == old(self)@.regions.insert(vaddr, range),
    {
        broadcast use vstd::laws_cmp::group_laws_cmp;

        self.regions.insert(vaddr, range);
    }

    /// The region that answers for `addr` on the given side, with the range
    /// that backs it.
    fn find_region(&self, space: Space, addr: usize) -> (found: Option<(usize, (usize, usize))>)
        ensures
            match found {
                Some((k, range)) => covering_region(self@.regions, space, addr) == Some(k)
                    && self@.regions.contains_key(k) && self@.regions[k] == range && holds(
                    space,
                    k,
                    range,
                    addr,
                ),
                None => covering_region(self@.regions, space, addr) is None,
            },
    {
        let iter = self.regions.iter();
        let ghost entries = iter.remaining();
        let ghost mut seen: int = 0;
        let ghost mut best: int = 0;
        let mut found: Option<(usize, (usize, usize))> = None;
        proof {
            broadcast use vstd::std_specs::btree::group_btree_axioms;

            lemma_walk_of_regions(&self.regions, entries);
        }
        for entry in it: iter
            invariant
                walks_regions(entries, self.regions@),
                it.seq() == entries,
                seen == it.index(),
                found is None ==> forall|j: int|
                    0 <= j < seen ==> !holds(
                        space,
                        *(#[trigger] entries[j]).0,
                        *entries[j].1,
                        addr,
                    ),
                found matches Some((k, range)) ==> {
                    &&& space == Space::Virtual
                    &&& 0 <= best < seen
                    &&& *entries[best].0 == k
                    &&& *entries[best].1 == range
                    &&& holds(space, k, range, addr)
                    &&& forall|j: int|
                        best < j < seen ==> !holds(
                            space,
                            *(#[trigger] entries[j]).0,
                            *entries[j].1,
                            addr,
                        )
                },
        {
            let (start, range) = entry;
            if region_holds(space, *start, *range, addr) {
                match space {
                    Space::Physical => {
                        proof {
                            lemma_walk_finds_covering_region(
                                entries,
                                self.regions@,
                                space,
                                seen,
                                addr,
                            );
                        }
                        return Some((*start, *range));
                    },
                    Space::Virtual => {
                        found = Some((*start, *range));
                        proof {
                            best = seen;
                        }
                    },
                }
            }
            proof {
                seen = seen + 1;
            }
        }
        proof {
            if found is Some {
                lemma_walk_finds_covering_region(entries, self.regions@, space, best, addr);
            } else {
                lemma_no_covering_region(entries, self.regions@, space, addr);
            }
        }
        found
    }

    /// Translates a virtual address. An address outside every region is
    /// returned as it is.
    pub fn virt_to_phys(&self, vaddr: usize) -> (paddr: usize)
        requires
            self@.wf(),
        ensures
            paddr == spec_virt_to_phys(self@.regions, vaddr),
    {
        match self.find_region(Space::Virtual, vaddr) {
            Some((start, range)) => range.0 + (vaddr - start),
            None => vaddr,
        }
    }

    /// Translates a physical address. An address outside every region is
    /// returned as it is.
    pub fn phys_to_virt(&self, paddr: usize) -> (vaddr: usize)
        requires
            self@.wf(),
        ensures
            vaddr == spec_phys_to_virt(self@.regions, paddr),
    {
        match self.find_region(Space::Physical, paddr) {
            Some((start, range)) => start + (paddr - range.0),
            None => paddr,
        }
    }

    /// Hands out the address of a free virtual page for an IPC buffer, or
    /// nothing once the reserved range is used up.
    pub(crate) fn take_ipc_page(&mut self) -> (vaddr: Option<usize>)
        requires
            old(self)@.wf(),
        ensures
            final(self)@.wf(),
            final(self)@.regions == old(self)@.regions,
            final(self)@.frames == old(self)@.frames.allocate().0,
            vaddr == spec_ipc_page(old(self)@.frames),
    {
        match self.vp_allocator.allocate() {
            Some(vpn) => {
                proof {
                    let end = old(self)@.frames.end;
                    crate::frame::lemma_allocated_page_in_range(old(self)@.frames);
                    assert(vpn * PAGE_SIZE <= end * PAGE_SIZE) by (nonlinear_arith)
                        requires
                            vpn < end,
                    ;
                }
                Some(vpn * PAGE_SIZE)
            },
            None => None,
        }
    }

    /// Takes the virtual page `vpn` of an IPC buffer back. The page stays
    /// mapped until the task's capabilities are revoked.
    pub fn dealloc_ipc_buffer(&mut self, vpn: usize)
        requires
            old(self)@.wf(),
        ensures
            final(self)@.wf(),
            final(self)@.regions == old(self)@.regions,
            final(self)@.frames == old(self)@.frames.dealloc(vpn),
    {
        self.vp_allocator.dealloc(vpn);
    }
}

/// Sets the address space up at boot: IPC buffers get the pages of
/// `[frame_base, frame_base + frame_size)`, the boot heap at `heap_base` is
/// on record as backed by `heap_paddr`, and the mapping of the platform's
/// memory `[mem_base, mem_base + mem_size)` begins.
pub fn init(
    frame_base: usize,
    frame_size: usize,
    heap_base: usize,
    heap_paddr: usize,
    heap_size: usize,
    mem_base: usize,
    mem_size: usize,
) -> (booted: (MemSpace, AreaMapping, KernelCall))
    requires
        frame_base + frame_size <= usize::MAX,
        heap_base + heap_size <= usize::MAX,
        heap_paddr + heap_size <= usize::MAX,
        mem_base % LARGE_PAGE_SIZE == 0,
        mem_size > 0,
        mem_base + mem_size <= usize::MAX,
    ensures
        booted.0@.wf(),
        booted.0@.regions == Map::<usize, (usize, usize)>::empty().insert(
            heap_base,
            (heap_paddr, (heap_paddr + heap_size) as usize),
        ),
        booted.0@.frames.current == frame_base / PAGE_SIZE,
        booted.0@.frames.end == (frame_base + frame_size) / (PAGE_SIZE as int),
        booted.0@.frames.recycled == Seq::<usize>::empty(),
        booted.1.wf(),
        booted.1.vaddr == mem_base,
        booted.1.count == mem_size / LARGE_PAGE_SIZE,
        booted.1.stage is Pages,
        booted.1.pages@ == Seq::<u64>::empty(),
        booted.1.paddr == 0,
        booted.1.index == 0,
        booted.2 == (KernelCall::AllocLargePages { count: mem_size / LARGE_PAGE_SIZE }),
{
    let mut space = MemSpace::new(frame_base, frame_size);
    space.init(heap_base, heap_paddr, heap_size);
    let (area, call) = space.map_area(mem_base, mem_size);
    (space, area, call)
}

/// Reserves a virtual page for the IPC buffer of a new task and begins to
/// back and map it.
pub fn alloc_ipc_buffer(space: &mut MemSpace, factory: Factory) -> (begun: Result<
    (IpcBufferSetup, KernelCall),
    KernelError,
>)
    requires
        old(space)@.wf(),
    ensures
        final(space)@.wf(),
        final(space)@.regions == old(space)@.regions,
        final(space)@.frames == old(space)@.frames.allocate().0,
        begun == spec_alloc_ipc_buffer(old(space)@.frames, factory),
        begun is Err <==> old(space)@.frames.exhausted(),
{
    space.alloc_ipc_buffer(factory)
}

/// Takes back the virtual page of the IPC buffer at the address `virt`.
pub fn dealloc_ipc_buffer(space: &mut MemSpace, virt: usize)
    requires
        old(space)@.wf(),
    ensures
        final(space)@.wf(),
        final(space)@.regions == old(space)@.regions,
        final(space)@.frames == old(space)@.frames.dealloc(virt / PAGE_SIZE),
{
    space.dealloc_ipc_buffer(virt / PAGE_SIZE);
}

/// The covering region of an address covers it and is preferred to every
/// other region that does; an address without a covering region lies in no
/// region.
pub proof fn lemma_covering_region_covers(m: Regions, space: Space, addr: usize)
    ensures
        covering_region(m, space, addr) matches Some(k) ==> covers(m, space, k, addr) && forall|
            j: usize,
        | #[trigger] covers(m, space, j, addr) ==> prefers(space, k, j),
        covering_region(m, space, addr) is None ==> forall|j: usize|
            !#[trigger] covers(m, space, j, addr),
{
    reveal(covering_region);
    if exists|k: usize| #[trigger] covers(m, space, k, addr) {
        let w = choose|k: usize| #[trigger] covers(m, space, k, addr);
        lemma_some_region_is_preferred(m, space, addr, w);
    }
}

/// Among the regions that cover an address, one is preferred to all.
proof fn lemma_some_region_is_preferred(m: Regions, space: Space, addr: usize, bound: usize)
    requires
        covers(m, space, bound, addr),
    ensures
        exists|k: usize|
            covers(m, space, k, addr) && forall|j: usize| #[trigger]
                covers(m, space, j, addr) ==> prefers(space, k, j),
    decreases
            match space {
                Space::Virtual => usize::MAX - bound,
                Space::Physical => bound as int,
            },
{
    if exists|j: usize| #[trigger] covers(m, space, j, addr) && !prefers(space, bound, j) {
        let j = choose|j: usize| #[trigger] covers(m, space, j, addr) && !prefers(space, bound, j);
        lemma_some_region_is_preferred(m, space, addr, j);
    } else {
        assert(covers(m, space, bound, addr) && forall|j: usize| #[trigger]
            covers(m, space, j, addr) ==> prefers(space, bound, j));
    }
}

/// A region that covers an address, and is preferred to every other that
/// does, is the covering region of that address.
pub proof fn lemma_preferred_is_covering_region(m: Regions, space: Space, k: usize, addr: usize)
    requires
        covers(m, space, k, addr),
        forall|j: usize| #[trigger] covers(m, space, j, addr) ==> prefers(space, k, j),
    ensures
        covering_region(m, space, addr) == Some(k),
{
    reveal(covering_region);
    let c = choose|c: usize|
        covers(m, space, c, addr) && forall|j: usize| #[trigger]
            covers(m, space, j, addr) ==> prefers(space, c, j);
    assert(covers(m, space, c, addr) && forall|j: usize| #[trigger]
        covers(m, space, j, addr) ==> prefers(space, c, j));
    assert(prefers(space, c, k) && prefers(space, k, c));
}

/// Where regions do not overlap, the region that covers an address is the
/// only one that does.
pub proof fn lemma_covering_region_is_unique(m: Regions, space: Space, k: usize, addr: usize)
    requires
        regions_disjoint(m),
        covers(m, space, k, addr),
    ensures
        covering_region(m, space, addr) == Some(k),
{
    assert forall|j: usize| #[trigger] covers(m, space, j, addr) implies prefers(space, k, j) by {
        assert(covers(m, space, j, addr) && covers(m, space, k, addr));
    }
    lemma_preferred_is_covering_region(m, space, k, addr);
}

/// Translating an address of a mapped region to its physical address and
/// back gives the address again, and so does the way from a backed physical
/// address to its virtual address and back.
pub proof fn lemma_translation_round_trip(m: Regions, addr: usize)
    requires
        regions_wf(m),
        regions_disjoint(m),
    ensures
        covering_region(m, Space::Virtual, addr) is Some ==> 0 <= spec_virt_to_phys(m, addr)
            <= usize::MAX && spec_phys_to_virt(m, spec_virt_to_phys(m, addr) as usize) == addr,
        covering_region(m, Space::Physical, addr) is Some ==> 0 <= spec_phys_to_virt(m, addr)
            <= usize::MAX && spec_virt_to_phys(m, spec_phys_to_virt(m, addr) as usize) == addr,
{
    lemma_covering_region_covers(m, Space::Virtual, addr);
    lemma_covering_region_covers(m, Space::Physical, addr);
    if covering_region(m, Space::Virtual, addr) is Some {
        let k = covering_region(m, Space::Virtual, addr)->0;
        assert(covers(m, Space::Virtual, k, addr));
        let paddr = (m[k].0 + (addr - k)) as usize;
        assert(covers(m, Space::Physical, k, paddr));
        lemma_covering_region_is_unique(m, Space::Physical, k, paddr);
    }
    if covering_region(m, Space::Physical, addr) is Some {
        let k = covering_region(m, Space::Physical, addr)->0;
        assert(covers(m, Space::Physical, k, addr));
        let vaddr = (k + (addr - m[k].0)) as usize;
        assert(covers(m, Space::Virtual, k, vaddr));
        lemma_covering_region_is_unique(m, Space::Virtual, k, vaddr);
    }
}

/// A region recorded for `[vaddr, vaddr + size)` covers these addresses and
/// no others, and where regions do not overlap, each of them translates to
/// the same offset behind `paddr`.
pub proof fn lemma_recorded_region_spans_area(
    m: Regions,
    vaddr: usize,
    paddr: usize,
    size: usize,
    addr: usize,
)
    requires
        vaddr + size <= usize::MAX,
        paddr + size <= usize::MAX,
    ensures
        covers(m.insert(vaddr, (paddr, (paddr + size) as usize)), Space::Virtual, vaddr, addr)
            <==> vaddr <= addr < vaddr + size,
        regions_disjoint(m.insert(vaddr, (paddr, (paddr + size) as usize))) && vaddr <= addr
            < vaddr + size ==> spec_virt_to_phys(
            m.insert(vaddr, (paddr, (paddr + size) as usize)),
            addr,
        ) == paddr + (addr - vaddr),
        regions_wf(m) ==> regions_wf(m.insert(vaddr, (paddr, (paddr + size) as usize))),
{
    let after = m.insert(vaddr, (paddr, (paddr + size) as usize));
    if regions_disjoint(after) && vaddr <= addr < vaddr + size {
        assert(covers(after, Space::Virtual, vaddr, addr));
        lemma_covering_region_is_unique(after, Space::Virtual, vaddr, addr);
    }
}

} // verus!
