//! Mapping frames into the address space. The kernel refuses a mapping while
//! a level of the page table is missing; the walk then asks for a page table,
//! maps it and tries again, at most once per translation level.

use vstd::prelude::*;
use crate::kernel::Factory;
use crate::kernel::KernelCall;
use crate::kernel::KernelError;
use crate::kernel::KernelReply;
use crate::kernel::LARGE_PAGE_SIZE;
use crate::kernel::NUM_LEVELS;
use crate::kernel::PAGE_SIZE;
use crate::mem::MemSpace;

verus! {

/// Why a mapping was given up. Each of these ends the process: a mapping that
/// fails leaves the address space in a state nobody planned for.
#[derive(Clone, Copy, Debug, PartialEq, Eq, Structural)]
pub enum MapFault {
    /// The kernel refused a call for another reason than a missing
    /// page-table level.
    Kernel(KernelError),
    /// Every translation level was filled in and the frame still did not map.
    LevelsExhausted,
    /// A reply did not carry the capability or address that was asked for.
    MissingCapability,
    /// The physical range behind an area does not fit into the address space.
    AddressOverflow,
}

/// What a walk waits for.
#[derive(Clone, Copy, Debug, PartialEq, Eq, Structural)]
pub enum WalkStage {
    /// The frame is being mapped.
    Frame,
    /// A page table is being created.
    Table,
    /// The page table `table` is being mapped.
    TableMap { table: u64 },
}

/// The mapping of one frame at one address.
#[derive(Clone, Copy, Debug, PartialEq, Eq, Structural)]
pub struct MapWalk {
    /// The frame to map.
    pub frame: u64,
    /// Where to map it.
    pub vaddr: usize,
    /// Where page tables come from.
    pub tables: Factory,
    /// How many page tables were added so far.
    pub attempts: usize,
    /// What the walk waits for.
    pub stage: WalkStage,
}

/// How a walk goes on after a reply.
#[derive(Clone, Copy, Debug, PartialEq, Eq, Structural)]
pub enum WalkStep {
    /// Perform the call and come back with its reply.
    Call(MapWalk, KernelCall),
    /// The frame is mapped.
    Mapped,
    /// The mapping was given up.
    Fault(MapFault),
}

impl MapWalk {
    /// A walk that has not been answered yet.
    pub open spec fn start(frame: u64, vaddr: usize, tables: Factory) -> MapWalk {
        MapWalk { frame, vaddr, tables, attempts: 0, stage: WalkStage::Frame }
    }

    /// The call that the walk waits for.
    pub open spec fn call(self) -> KernelCall {
        match self.stage {
            WalkStage::Frame => KernelCall::MapFrame { frame: self.frame, vaddr: self.vaddr },
            WalkStage::Table => KernelCall::AllocPageTable { from: self.tables },
            WalkStage::TableMap { table } => KernelCall::MapPageTable { table, vaddr: self.vaddr },
        }
    }

    /// The walk in another stage.
    pub open spec fn at(self, stage: WalkStage) -> MapWalk {
        MapWalk { stage, ..self }
    }

    /// How the walk goes on after `reply`.
    pub open spec fn next(self, reply: KernelReply) -> WalkStep {
        match self.stage {
            WalkStage::Frame => match reply.error() {
                None => WalkStep::Mapped,
                Some(KernelError::FailedLookup) => {
                    let walk = self.at(WalkStage::Table);
                    WalkStep::Call(walk, walk.call())
                },
                Some(e) => WalkStep::Fault(MapFault::Kernel(e)),
            },
            WalkStage::Table => match reply {
                KernelReply::Value(table) => {
                    let walk = self.at(WalkStage::TableMap { table });
                    WalkStep::Call(walk, walk.call())
                },
                KernelReply::Failed(e) => WalkStep::Fault(MapFault::Kernel(e)),
                _ => WalkStep::Fault(MapFault::MissingCapability),
            },
            WalkStage::TableMap { table } => match reply.error() {
                Some(e) => WalkStep::Fault(MapFault::Kernel(e)),
                None => if self.attempts + 1 < NUM_LEVELS {
                    let walk = MapWalk {
                        attempts: (self.attempts + 1) as usize,
                        stage: WalkStage::Frame,
                        ..self
                    };
                    WalkStep::Call(walk, walk.call())
                } else {
                    WalkStep::Fault(MapFault::LevelsExhausted)
                },
            },
        }
    }

    /// An upper bound on the calls that the walk can still make.
    pub open spec fn budget(self) -> int {
        3 * (NUM_LEVELS - self.attempts) - match self.stage {
            WalkStage::Frame => 0int,
            WalkStage::Table => 1int,
            WalkStage::TableMap { .. } => 2int,
        }
    }

    /// Begins the mapping of `frame` at `vaddr`.
    pub fn begin(frame: u64, vaddr: usize, tables: Factory) -> (begun: (MapWalk, KernelCall))
        ensures
            begun.0 == MapWalk::start(frame, vaddr, tables),
            begun.1 == begun.0.call(),
            begun.1 == (KernelCall::MapFrame { frame, vaddr }),
    {
        let walk = MapWalk { frame, vaddr, tables, attempts: 0, stage: WalkStage::Frame };
        (walk, KernelCall::MapFrame { frame, vaddr })
    }

    /// Goes on with the reply to the call that the walk waited for.
    pub fn step(self, reply: KernelReply) -> (step: WalkStep)
        ensures
            step == self.next(reply),
    {
        match self.stage {
            WalkStage::Frame => match reply {
                KernelReply::Failed(KernelError::FailedLookup) => {
                    let walk = MapWalk { stage: WalkStage::Table, ..self };
                    WalkStep::Call(walk, KernelCall::AllocPageTable { from: self.tables })
                },
                KernelReply::Failed(e) => WalkStep::Fault(MapFault::Kernel(e)),
                _ => WalkStep::Mapped,
            },
            WalkStage::Table => match reply {
                KernelReply::Value(table) => {
                    let walk = MapWalk { stage: WalkStage::TableMap { table }, ..self };
                    WalkStep::Call(walk, KernelCall::MapPageTable { table, vaddr: self.vaddr })
                },
                KernelReply::Failed(e) => WalkStep::Fault(MapFault::Kernel(e)),
                _ => WalkStep::Fault(MapFault::MissingCapability),
            },
            WalkStage::TableMap { table } => match reply {
                KernelReply::Failed(e) => WalkStep::Fault(MapFault::Kernel(e)),
                _ => if self.attempts < NUM_LEVELS - 1 {
                    let walk = MapWalk {
                        attempts: self.attempts + 1,
                        stage: WalkStage::Frame,
                        ..self
                    };
                    WalkStep::Call(
                        walk,
                        KernelCall::MapFrame { frame: self.frame, vaddr: self.vaddr },
                    )
                } else {
                    WalkStep::Fault(MapFault::LevelsExhausted)
                },
            },
        }
    }
}

/// A walk never runs on for ever: each call that it asks for lowers its
/// budget, which starts at three calls per translation level and cannot fall
/// below zero. The frame and the address never change on the way, and a
/// page table is asked for only after the kernel reported a failed lookup.
pub proof fn lemma_walk_is_bounded(walk: MapWalk, reply: KernelReply)
    requires
        walk.attempts < NUM_LEVELS,
    ensures
        walk.budget() > 0,
        walk.next(reply) matches WalkStep::Call(after, call) ==> {
            &&& after.attempts < NUM_LEVELS
            &&& 0 < after.budget() < walk.budget()
            &&& after.frame == walk.frame
            &&& after.vaddr == walk.vaddr
            &&& after.tables == walk.tables
            &&& call == after.call()
            &&& call is AllocPageTable ==> reply.error() == Some(KernelError::FailedLookup)
        },
        MapWalk::start(walk.frame, walk.vaddr, walk.tables).budget() == 3 * NUM_LEVELS,
{
}

impl MemSpace {
    /// Begins the mapping of the base page `page` at `vaddr`; page tables that
    /// turn out to be missing come from `tables`.
    pub fn map_page(&self, vaddr: usize, page: u64, tables: Factory) -> (begun: (
        MapWalk,
        KernelCall,
    ))
        requires
            vaddr % PAGE_SIZE == 0,
        ensures
            begun.0 == MapWalk::start(page, vaddr, tables),
            begun.1 == (KernelCall::MapFrame { frame: page, vaddr }),
    {
        MapWalk::begin(page, vaddr, tables)
    }

    /// Begins the mapping of the large page `page` at `vaddr`; page tables
    /// that turn out to be missing come from the global factory.
    pub fn map_large_page(&self, vaddr: usize, page: u64) -> (begun: (MapWalk, KernelCall))
        requires
            vaddr % LARGE_PAGE_SIZE == 0,
        ensures
            begun.0 == MapWalk::start(page, vaddr, Factory::Global),
            begun.1 == (KernelCall::MapFrame { frame: page, vaddr }),
    {
        MapWalk::begin(page, vaddr, Factory::Global)
    }
}

/// What the setup of an IPC buffer waits for.
#[derive(Clone, Copy, Debug, PartialEq, Eq, Structural)]
pub enum IpcStage {
    /// The page that backs the buffer is being created.
    Page,
    /// The page is being mapped.
    Mapping(MapWalk),
}

/// The setup of one IPC buffer at a virtual page that was reserved for it.
#[derive(Clone, Copy, Debug, PartialEq, Eq, Structural)]
pub struct IpcBufferSetup {
    /// The address of the buffer.
    pub vaddr: usize,
    /// The factory of the task that the buffer is for.
    pub factory: Factory,
    /// What the setup waits for.
    pub stage: IpcStage,
}

/// How the setup of an IPC buffer goes on after a reply.
#[derive(Clone, Copy, Debug, PartialEq, Eq, Structural)]
pub enum IpcStep {
    /// Perform the call and come back with its reply.
    Call(IpcBufferSetup, KernelCall),
    /// The buffer is mapped at `vaddr` and backed by `frame`.
    Ready { vaddr: usize, frame: u64 },
    /// The mapping was given up.
    Fault(MapFault),
}

impl IpcBufferSetup {
    /// How the setup goes on after `reply`.
    pub open spec fn next(self, reply: KernelReply) -> IpcStep {
        match self.stage {
            IpcStage::Page => match reply {
                KernelReply::Value(frame) => {
                    let walk = MapWalk::start(frame, self.vaddr, self.factory);
                    IpcStep::Call(
                        IpcBufferSetup { stage: IpcStage::Mapping(walk), ..self },
                        walk.call(),
                    )
                },
                KernelReply::Failed(e) => IpcStep::Fault(MapFault::Kernel(e)),
                _ => IpcStep::Fault(MapFault::MissingCapability),
            },
            IpcStage::Mapping(walk) => match walk.next(reply) {
                WalkStep::Call(after, call) => IpcStep::Call(
                    IpcBufferSetup { stage: IpcStage::Mapping(after), ..self },
                    call,
                ),
                WalkStep::Mapped => IpcStep::Ready { vaddr: self.vaddr, frame: walk.frame },
                WalkStep::Fault(fault) => IpcStep::Fault(fault),
            },
        }
    }

    /// Goes on with the reply to the call that the setup waited for.
    pub fn step(self, reply: KernelReply) -> (step: IpcStep)
        ensures
            step == self.next(reply),
    {
        match self.stage {
            IpcStage::Page => match reply {
                KernelReply::Value(frame) => {
                    let (walk, call) = MapWalk::begin(frame, self.vaddr, self.factory);
                    IpcStep::Call(IpcBufferSetup { stage: IpcStage::Mapping(walk), ..self }, call)
                },
                KernelReply::Failed(e) => IpcStep::Fault(MapFault::Kernel(e)),
                _ => IpcStep::Fault(MapFault::MissingCapability),
            },
            IpcStage::Mapping(walk) => match walk.step(reply) {
                WalkStep::Call(after, call) => IpcStep::Call(
                    IpcBufferSetup { stage: IpcStage::Mapping(after), ..self },
                    call,
                ),
                WalkStep::Mapped => IpcStep::Ready { vaddr: self.vaddr, frame: walk.frame },
                WalkStep::Fault(fault) => IpcStep::Fault(fault),
            },
        }
    }
}

/// What the request for an IPC buffer returns in a given state of the page
/// allocator: the setup to run and its first call, or the error that says
/// that no virtual page is left.
pub open spec fn spec_alloc_ipc_buffer(frames: crate::frame::FrameState, factory: Factory) -> Result<
    (IpcBufferSetup, KernelCall),
    KernelError,
> {
    match crate::mem::spec_ipc_page(frames) {
        Some(vaddr) => Ok(
            (
                IpcBufferSetup { vaddr, factory, stage: IpcStage::Page },
                KernelCall::AllocPage { from: factory },
            ),
        ),
        None => Err(KernelError::NotEnoughMemory),
    }
}

impl MemSpace {
    /// Reserves a virtual page for the IPC buffer of the task that owns
    /// `factory`, and begins to back and map it. Fails without a call when
    /// no virtual page is left.
    pub fn alloc_ipc_buffer(&mut self, factory: Factory) -> (begun: Result<
        (IpcBufferSetup, KernelCall),
        KernelError,
    >)
        requires
            old(self)@.wf(),
        ensures
            final(self)@.wf(),
            final(self)@.regions == old(self)@.regions,
            final(self)@.frames == old(self)@.frames.allocate().0,
            begun == spec_alloc_ipc_buffer(old(self)@.frames, factory),
            begun is Err <==> old(self)@.frames.exhausted(),
            begun matches Ok(b) ==> b.0.vaddr % PAGE_SIZE == 0,
    {
        match self.take_ipc_page() {
            Some(vaddr) => {
                assert(vaddr % PAGE_SIZE == 0) by {
                    let vpn = old(self)@.frames.allocate().1->0;
                    assert((vpn * PAGE_SIZE) % (PAGE_SIZE as int) == 0) by (nonlinear_arith);
                }
                Ok(
                    (
                        IpcBufferSetup { vaddr, factory, stage: IpcStage::Page },
                        KernelCall::AllocPage { from: factory },
                    ),
                )
            },
            None => Err(KernelError::NotEnoughMemory),
        }
    }
}

/// What the mapping of an area waits for.
#[derive(Clone, Copy, Debug, PartialEq, Eq, Structural)]
pub enum AreaStage {
    /// The large pages are being created.
    Pages,
    /// The physical address of the first page is being asked for.
    Address,
    /// One of the pages is being mapped.
    Walk(MapWalk),
}

/// The mapping of an area of `count` large pages that starts at `vaddr`.
#[derive(Debug)]
pub struct AreaMapping {
    /// The start of the area.
    pub vaddr: usize,
    /// The number of large pages in it.
    pub count: usize,
    /// The pages, once they were created.
    pub pages: Vec<u64>,
    /// The physical address of the first page, once it is known.
    pub paddr: usize,
    /// The number of pages that are mapped already.
    pub index: usize,
    /// What the mapping waits for.
    pub stage: AreaStage,
}

/// How the mapping of an area goes on after a reply.
#[derive(Debug)]
pub enum AreaStep {
    /// Perform the call and come back with its reply.
    Call(AreaMapping, KernelCall),
    /// Every page is mapped and the region is recorded.
    Mapped,
    /// The mapping was given up.
    Fault(MapFault),
}

impl AreaMapping {
    /// The area is aligned and fits into the address space; once the pages
    /// exist there is one for each large page of the area; and the page that
    /// is being mapped goes to its place in the area.
    pub open spec fn wf(self) -> bool {
        &&& self.vaddr % LARGE_PAGE_SIZE == 0
        &&& self.vaddr + self.count * LARGE_PAGE_SIZE <= usize::MAX
        &&& self.stage !is Pages ==> self.pages@.len() == self.count && self.count > 0
        &&& self.stage matches AreaStage::Walk(walk) ==> {
            &&& self.index < self.count
            &&& self.paddr + self.count * LARGE_PAGE_SIZE <= usize::MAX
            &&& walk.frame == self.pages@[self.index as int]
            &&& walk.vaddr == self.vaddr + self.index * LARGE_PAGE_SIZE
            &&& walk.tables == Factory::Global
        }
    }

    /// The size of the area in bytes.
    pub open spec fn size(self) -> int {
        self.count * LARGE_PAGE_SIZE
    }

    /// How the mapping goes on after `reply`.
    pub open spec fn next(self, reply: KernelReply) -> AreaStep {
        match self.stage {
            AreaStage::Pages => match reply {
                KernelReply::Values(pages) => if pages@.len() == self.count && self.count > 0 {
                    AreaStep::Call(
                        AreaMapping { pages, stage: AreaStage::Address, ..self },
                        KernelCall::FrameAddress { frame: pages@[0] },
                    )
                } else {
                    AreaStep::Fault(MapFault::MissingCapability)
                },
                KernelReply::Failed(e) => AreaStep::Fault(MapFault::Kernel(e)),
                _ => AreaStep::Fault(MapFault::MissingCapability),
            },
            AreaStage::Address => match reply {
                KernelReply::Value(paddr) => if paddr + self.size() <= usize::MAX {
                    let walk = MapWalk::start(self.pages@[0], self.vaddr, Factory::Global);
                    AreaStep::Call(
                        AreaMapping {
                            paddr: paddr as usize,
                            index: 0,
                            stage: AreaStage::Walk(walk),
                            ..self
                        },
                        walk.call(),
                    )
                } else {
                    AreaStep::Fault(MapFault::AddressOverflow)
                },
                KernelReply::Failed(e) => AreaStep::Fault(MapFault::Kernel(e)),
                _ => AreaStep::Fault(MapFault::MissingCapability),
            },
            AreaStage::Walk(walk) => match walk.next(reply) {
                WalkStep::Call(after, call) => AreaStep::Call(
                    AreaMapping { stage: AreaStage::Walk(after), ..self },
                    call,
                ),
                WalkStep::Fault(fault) => AreaStep::Fault(fault),
                WalkStep::Mapped => if self.index + 1 < self.count {
                    let walk = MapWalk::start(
                        self.pages@[self.index + 1],
                        (self.vaddr + (self.index + 1) * LARGE_PAGE_SIZE) as usize,
                        Factory::Global,
                    );
                    AreaStep::Call(
                        AreaMapping {
                            index: (self.index + 1) as usize,
                            stage: AreaStage::Walk(walk),
                            ..self
                        },
                        walk.call(),
                    )
                } else {
                    AreaStep::Mapped
                },
            },
        }
    }

    /// The region that is recorded when the mapping ends.
    pub open spec fn region(self) -> (usize, usize) {
        (self.paddr, (self.paddr + self.size()) as usize)
    }

    /// Goes on with the reply to the call that the mapping waited for. When
    /// the last page is mapped, the whole area is recorded in `space` as one
    /// region that starts at the physical address of the first page.
    pub fn step(self, space: &mut MemSpace, reply: KernelReply) -> (step: AreaStep)
        requires
            self.wf(),
            old(space)@.wf(),
        ensures
            step == self.next(reply),
            step matches AreaStep::Call(after, _) ==> after.wf(),
            final(space)@.wf(),
            final(space)@.frames == old(space)@.frames,
            final(space)@.regions == if step is Mapped {
                old(space)@.regions.insert(self.vaddr, self.region())
            } else {
                old(space)@.regions
            },
    {
        match self.stage {
            AreaStage::Pages => match reply {
                KernelReply::Values(pages) => if pages.len() == self.count && self.count > 0 {
                    let frame = pages[0];
                    AreaStep::Call(
                        AreaMapping { pages, stage: AreaStage::Address, ..self },
                        KernelCall::FrameAddress { frame },
                    )
                } else {
                    AreaStep::Fault(MapFault::MissingCapability)
                },
                KernelReply::Failed(e) => AreaStep::Fault(MapFault::Kernel(e)),
                _ => AreaStep::Fault(MapFault::MissingCapability),
            },
            AreaStage::Address => match reply {
                KernelReply::Value(paddr) => {
                    let size = self.count * LARGE_PAGE_SIZE;
                    if paddr <= (usize::MAX - size) as u64 {
                        let (walk, call) = MapWalk::begin(
                            self.pages[0],
                            self.vaddr,
                            Factory::Global,
                        );
                        AreaStep::Call(
                            AreaMapping {
                                paddr: paddr as usize,
                                index: 0,
                                stage: AreaStage::Walk(walk),
                                ..self
                            },
                            call,
                        )
                    } else {
                        AreaStep::Fault(MapFault::AddressOverflow)
                    }
                },
                KernelReply::Failed(e) => AreaStep::Fault(MapFault::Kernel(e)),
                _ => AreaStep::Fault(MapFault::MissingCapability),
            },
            AreaStage::Walk(walk) => match walk.step(reply) {
                WalkStep::Call(after, call) => AreaStep::Call(
                    AreaMapping { stage: AreaStage::Walk(after), ..self },
                    call,
                ),
                WalkStep::Fault(fault) => AreaStep::Fault(fault),
                WalkStep::Mapped => if self.index + 1 < self.count {
                    let index = self.index + 1;
                    let (walk, call) = MapWalk::begin(
                        self.pages[index],
                        self.vaddr + index * LARGE_PAGE_SIZE,
                        Factory::Global,
                    );
                    AreaStep::Call(
                        AreaMapping { index, stage: AreaStage::Walk(walk), ..self },
                        call,
                    )
                } else {
                    space.add_region(self.vaddr, self.paddr, self.count * LARGE_PAGE_SIZE);
                    AreaStep::Mapped
                },
            },
        }
    }
}

/// The pages of an area are mapped one after the other, each at its place:
/// a step never changes the area or its pages, it moves on by one page at
/// most, and the first call for page `i` maps that page at the start of the
/// area plus `i` large pages.
pub proof fn lemma_area_is_mapped_in_order(area: AreaMapping, reply: KernelReply)
    requires
        area.wf(),
    ensures
        area.next(reply) matches AreaStep::Call(after, call) ==> {
            &&& after.wf()
            &&& after.vaddr == area.vaddr
            &&& after.count == area.count
            &&& !(area.stage is Pages) ==> after.pages == area.pages
            &&& area.stage is Walk ==> after.paddr == area.paddr && (after.index == area.index
                || after.index == area.index + 1)
            &&& after.stage matches AreaStage::Walk(walk) ==> {
                &&& walk.frame == after.pages@[after.index as int]
                &&& walk.vaddr == after.vaddr + after.index * LARGE_PAGE_SIZE
                &&& (area.stage is Walk && after.index == area.index + 1 || area.stage is Address)
                    ==> call == (KernelCall::MapFrame { frame: walk.frame, vaddr: walk.vaddr })
            }
        },
        area.next(reply) is Mapped ==> area.stage is Walk && area.index + 1 == area.count,
{
}

impl MemSpace {
    /// Begins to map the area `[vaddr, vaddr + size)` with large pages: as
    /// many as fit into `size`.
    pub fn map_area(&self, vaddr: usize, size: usize) -> (begun: (AreaMapping, KernelCall))
        requires
            vaddr % LARGE_PAGE_SIZE == 0,
            size > 0,
            vaddr + size <= usize::MAX,
        ensures
            begun.0.wf(),
            begun.0.vaddr == vaddr,
            begun.0.count == size / LARGE_PAGE_SIZE,
            begun.0.stage is Pages,
            begun.0.pages@ == Seq::<u64>::empty(),
            begun.0.paddr == 0,
            begun.0.index == 0,
            begun.1 == (KernelCall::AllocLargePages { count: size / LARGE_PAGE_SIZE }),
    {
        let count = size / LARGE_PAGE_SIZE;
        (
            AreaMapping {
                vaddr,
                count,
                pages: Vec::new(),
                paddr: 0,
                index: 0,
                stage: AreaStage::Pages,
            },
            KernelCall::AllocLargePages { count },
        )
    }
}

} // verus!
