//! The vocabulary shared by all protocols: the calls that the embedding
//! program performs on behalf of this crate, and what it reports back.

use vstd::prelude::*;

verus! {

/// Size of a base page.
pub const PAGE_SIZE: usize = 0x1000;

/// Size of a large page, the only granularity at which areas are mapped.
pub const LARGE_PAGE_SIZE: usize = 0x200000;

/// Number of translation levels of the address space; bounds how often a
/// mapping is retried after a missing page-table level was filled in.
pub const NUM_LEVELS: usize = 4;

/// An error reported by the kernel.
#[derive(Clone, Copy, Debug, PartialEq, Eq, Structural)]
pub enum KernelError {
    InvalidArgument,
    InvalidCapability,
    IllegalOperation,
    RangeError,
    AlignmentError,
    FailedLookup,
    TruncatedMessage,
    DeleteFirst,
    RevokeFirst,
    NotEnoughMemory,
}

/// The object factory that a kernel object is carved from.
#[derive(Clone, Copy, Debug, PartialEq, Eq, Structural)]
pub enum Factory {
    /// The process-wide factory.
    Global,
    /// The private factory of one task, backed by the given untyped unit.
    Task { untyped: u64 },
}

/// A slot with a fixed meaning in every task's own capability namespace.
#[derive(Clone, Copy, Debug, PartialEq, Eq, Structural)]
pub enum TaskSlot {
    /// Where a task finds its own thread-control capability.
    ThreadControl,
    /// Where a task finds the endpoint of its parent, badged with its id.
    ParentEndpoint,
    /// Where a task finds the endpoint it serves.
    ServeEndpoint,
}

/// One request to the kernel or to an object factory. Capabilities are named
/// by their bits.
#[allow(inconsistent_fields)]
#[derive(Clone, Copy, Debug, PartialEq, Eq, Structural)]
pub enum KernelCall {
    /// Take one untyped unit of 2 MiB from the global factory.
    AllocUntyped { size_bits: usize },
    /// Create a capability namespace of the fixed radix.
    AllocCNode { from: Factory },
    /// Create a thread-control block.
    AllocTcb { from: Factory },
    /// Create an endpoint.
    AllocEndpoint { from: Factory },
    /// Create one base page.
    AllocPage { from: Factory },
    /// Create `count` physically contiguous large pages.
    AllocLargePages { count: usize },
    /// Create one page table.
    AllocPageTable { from: Factory },
    /// Take a fresh slot of the root namespace.
    AllocSlot,
    /// Ask for the physical address of a frame.
    FrameAddress { frame: u64 },
    /// Map a frame at `vaddr` with all rights and default attributes.
    MapFrame { frame: u64, vaddr: usize },
    /// Map a page table so that it covers `vaddr`.
    MapPageTable { table: u64, vaddr: usize },
    /// Copy `src` with all rights into a slot of the namespace `cnode`.
    CopyCap { cnode: u64, dest: TaskSlot, src: u64 },
    /// Mint the shared service endpoint with all rights and `badge` into a
    /// slot of the namespace `cnode`.
    MintServiceEndpoint { cnode: u64, dest: TaskSlot, badge: u64 },
    /// Mint `src` with all rights and `badge` into the root slot `dest`.
    MintNotification { src: u64, dest: u64, badge: u64 },
    /// Give a thread its namespace, address space, fault endpoint and IPC
    /// buffer.
    ConfigureTcb { tcb: u64, cnode: u64, ipc_vaddr: usize, ipc_buffer: u64 },
    /// Set the base of a thread's thread-local storage.
    SetTlsBase { tcb: u64, tls: usize },
    /// Set a thread's priority, with the control thread as authority.
    SetSchedParams { tcb: u64, priority: usize },
    /// Read a suspended thread's register file.
    ReadRegisters { tcb: u64 },
    /// Write back the register file read before, with the program counter,
    /// the stack pointer and the register that carries the IPC buffer's
    /// address replaced.
    WriteRegisters { tcb: u64, pc: usize, sp: usize, ipc_vaddr: usize },
    /// Let a thread run.
    Resume { tcb: u64 },
    /// Stop a thread.
    Suspend { tcb: u64 },
    /// Invalidate every capability derived from `cap`.
    Revoke { cap: u64 },
    /// Delete `cap` from the root namespace.
    Delete { cap: u64 },
    /// Return the root slot of `cap` to the slot pool.
    RecycleSlot { cap: u64 },
    /// Bind a notification to the control thread.
    BindNotification { notification: u64 },
    /// Obtain the handler capability of interrupt `irq` in the root slot
    /// `handler`.
    RegisterIrq { irq: u64, handler: u64 },
    /// Deliver an interrupt handler's interrupts to `notification`.
    SetIrqNotification { handler: u64, notification: u64 },
    /// Acknowledge an interrupt so that the controller arms it again.
    AckIrq { handler: u64 },
}

/// What came back from a [`KernelCall`].
#[derive(Debug)]
pub enum KernelReply {
    /// The call succeeded and returned nothing.
    Done,
    /// The call succeeded and returned one capability or address.
    Value(u64),
    /// The call succeeded and returned several capabilities.
    Values(Vec<u64>),
    /// The kernel refused the call.
    Failed(KernelError),
}

impl KernelReply {
    /// The single value that a successful reply carries, if it carries one.
    pub open spec fn value(self) -> Option<u64> {
        match self {
            KernelReply::Value(v) => Some(v),
            _ => None,
        }
    }

    /// The error that a reply reports, if it reports one.
    pub open spec fn error(self) -> Option<KernelError> {
        match self {
            KernelReply::Failed(e) => Some(e),
            _ => None,
        }
    }
}

} // verus!
