//! Tasks: one schedulable execution context each, held as a bundle of
//! capabilities. A task is built by a fixed sequence of kernel calls, none of
//! which is undone when a later one fails, and it is destroyed by revoking
//! and deleting what it holds and handing its untyped unit and the page of
//! its IPC buffer back.

use vstd::prelude::*;
use crate::frame::FrameState;
use crate::kernel::Factory;
use crate::kernel::KernelCall;
use crate::kernel::KernelError;
use crate::kernel::KernelReply;
use crate::kernel::TaskSlot;
use crate::kernel::PAGE_SIZE;
use crate::mapping::spec_alloc_ipc_buffer;
use crate::mapping::IpcBufferSetup;
use crate::mapping::IpcStep;
use crate::mapping::MapFault;
use crate::mem::MemSpace;
use crate::untyped::alloc_untyped_unit;
use crate::untyped::recycle_untyped_unit;
use crate::untyped::spec_alloc_untyped_unit;
use crate::untyped::UntypedGrant;
use crate::untyped::UntypedPool;

verus! {

/// The priority of a task that is created without one.
pub const DEFAULT_PRIORITY: usize = 100;

/// One task: the capabilities it is made of, and how it was started.
#[derive(Clone, Copy, Debug, PartialEq, Eq, Structural)]
pub struct Sel4Task {
    /// The thread-control block.
    pub tcb: u64,
    /// The task's own capability namespace.
    pub cnode: u64,
    /// The endpoint that the task serves.
    pub ep: u64,
    /// The address at which the task starts to run.
    pub entry: usize,
    /// The initial stack pointer.
    pub stack: usize,
    /// The untyped unit behind the task's private factory.
    pub untyped: u64,
    /// The page that backs the IPC buffer.
    pub ipc_buffer: u64,
    /// The virtual address of the IPC buffer.
    pub ipc_buffer_addr: usize,
    /// The numeric id, which is also the badge of the task's calls to its
    /// parent.
    pub tid: usize,
}

/// Why a task could not be built. Nothing that was obtained before the
/// failure is released.
#[derive(Clone, Copy, Debug, PartialEq, Eq, Structural)]
pub enum TaskError {
    /// The kernel or a factory refused a call, or no virtual page was left
    /// for the IPC buffer (`NotEnoughMemory`).
    Kernel(KernelError),
    /// A factory answered without the capability that was asked for.
    MissingCapability,
    /// The IPC buffer could not be mapped.
    Mapping(MapFault),
}

/// What the construction of a task waits for.
#[derive(Clone, Copy, Debug, PartialEq, Eq, Structural)]
pub enum TaskStage {
    /// A fresh untyped unit.
    Untyped,
    /// The capability namespace.
    CNode,
    /// The thread-control block.
    Tcb,
    /// The endpoint that the task serves.
    Endpoint,
    /// The copy of the thread-control block into the task's namespace.
    CopyTcb,
    /// The badged copy of the parent's endpoint into the task's namespace.
    MintParent,
    /// The copy of the served endpoint into the task's namespace.
    CopyEndpoint,
    /// The IPC buffer.
    IpcBuffer(IpcBufferSetup),
    /// The configuration of the thread.
    Configure,
    /// The base of the thread-local storage.
    TlsBase,
    /// The scheduling parameters.
    SchedParams,
    /// The register file as it is.
    ReadRegisters,
    /// The register file with the entry point, the stack and the IPC buffer.
    WriteRegisters,
}

/// The construction of one task.
#[derive(Clone, Copy, Debug, PartialEq, Eq, Structural)]
pub struct TaskBuilder {
    /// The task as far as it is known; what is not known yet is zero.
    pub task: Sel4Task,
    /// The priority that the thread will run at.
    pub priority: usize,
    /// The base of the thread-local storage.
    pub tls: usize,
    /// What the construction waits for.
    pub stage: TaskStage,
}

/// How the construction of a task goes on after a reply.
#[derive(Clone, Copy, Debug, PartialEq, Eq, Structural)]
pub enum BuildStep {
    /// Perform the call and come back with its reply.
    Call(TaskBuilder, KernelCall),
    /// The task is complete and ready to be started.
    Ready(Sel4Task),
    /// The construction was given up.
    Failed(TaskError),
}

impl Sel4Task {
    /// The private factory of the task.
    pub open spec fn factory(self) -> Factory {
        Factory::Task { untyped: self.untyped }
    }

    /// The calls that destroy the task, in the order in which they are made:
    /// each capability is revoked and then deleted, so that every copy of it
    /// is gone before it is; then the four slots are handed back.
    pub open spec fn teardown(self) -> Seq<KernelCall> {
        seq![
            KernelCall::Revoke { cap: self.tcb },
            KernelCall::Delete { cap: self.tcb },
            KernelCall::Revoke { cap: self.cnode },
            KernelCall::Delete { cap: self.cnode },
            KernelCall::Revoke { cap: self.ep },
            KernelCall::Delete { cap: self.ep },
            KernelCall::Revoke { cap: self.ipc_buffer },
            KernelCall::Delete { cap: self.ipc_buffer },
            KernelCall::RecycleSlot { cap: self.tcb },
            KernelCall::RecycleSlot { cap: self.cnode },
            KernelCall::RecycleSlot { cap: self.ep },
            KernelCall::RecycleSlot { cap: self.ipc_buffer },
        ]
    }

    /// How the construction of a task begins when `recycled` are the untyped
    /// units that wait in the pool.
    pub open spec fn spec_new(
        tid: usize,
        entry: usize,
        stack: usize,
        priority: usize,
        tls: usize,
        recycled: Seq<u64>,
    ) -> (TaskBuilder, KernelCall) {
        let task = Sel4Task {
            tcb: 0,
            cnode: 0,
            ep: 0,
            entry,
            stack,
            untyped: 0,
            ipc_buffer: 0,
            ipc_buffer_addr: 0,
            tid,
        };
        match spec_alloc_untyped_unit(recycled).1 {
            UntypedGrant::Recycled(untyped) => {
                let task = Sel4Task { untyped, ..task };
                (
                    TaskBuilder { task, priority, tls, stage: TaskStage::CNode },
                    KernelCall::AllocCNode { from: task.factory() },
                )
            },
            UntypedGrant::Fresh(call) => (
                TaskBuilder { task, priority, tls, stage: TaskStage::Untyped },
                call,
            ),
        }
    }

    /// A task that holds nothing.
    pub fn empty() -> (task: Sel4Task)
        ensures
            task == (Sel4Task {
                tcb: 0,
                cnode: 0,
                ep: 0,
                entry: 0,
                stack: 0,
                untyped: 0,
                ipc_buffer: 0,
                ipc_buffer_addr: 0,
                tid: 0,
            }),
    {
        Sel4Task {
            tcb: 0,
            cnode: 0,
            ep: 0,
            entry: 0,
            stack: 0,
            untyped: 0,
            ipc_buffer: 0,
            ipc_buffer_addr: 0,
            tid: 0,
        }
    }

    /// Begins the construction of a task. Its untyped unit is the one that
    /// was handed back to `pool` last; only when none waits is the first call
    /// the request for a fresh one.
    pub fn new(
        tid: usize,
        entry: usize,
        stack: usize,
        priority: usize,
        tls: usize,
        pool: &mut UntypedPool,
    ) -> (begun: (TaskBuilder, KernelCall))
        ensures
            begun == Sel4Task::spec_new(tid, entry, stack, priority, tls, old(pool)@),
            final(pool)@ == spec_alloc_untyped_unit(old(pool)@).0,
    {
        let task = Sel4Task {
            tcb: 0,
            cnode: 0,
            ep: 0,
            entry,
            stack,
            untyped: 0,
            ipc_buffer: 0,
            ipc_buffer_addr: 0,
            tid,
        };
        match alloc_untyped_unit(pool).0 {
            UntypedGrant::Recycled(untyped) => {
                let task = Sel4Task { untyped, ..task };
                (
                    TaskBuilder { task, priority, tls, stage: TaskStage::CNode },
                    KernelCall::AllocCNode { from: Factory::Task { untyped } },
                )
            },
            UntypedGrant::Fresh(call) => (
                TaskBuilder { task, priority, tls, stage: TaskStage::Untyped },
                call,
            ),
        }
    }

    /// The call that lets the task run.
    pub fn start(&self) -> (call: KernelCall)
        ensures
            call == (KernelCall::Resume { tcb: self.tcb }),
    {
        KernelCall::Resume { tcb: self.tcb }
    }

    /// The call that stops the task.
    pub fn suspend(&self) -> (call: KernelCall)
        ensures
            call == (KernelCall::Suspend { tcb: self.tcb }),
    {
        KernelCall::Suspend { tcb: self.tcb }
    }

    /// Destroys the task: returns the calls to make, in order, and hands the
    /// page of the IPC buffer and the untyped unit back. A call that fails
    /// must end the process, for a task that is half destroyed cannot be
    /// left alive.
    pub fn exit(&self, space: &mut MemSpace, pool: &mut UntypedPool) -> (calls: Vec<KernelCall>)
        requires
            old(space)@.wf(),
        ensures
            calls@ == self.teardown(),
            final(space)@.wf(),
            final(space)@.regions == old(space)@.regions,
            final(space)@.frames == old(space)@.frames.dealloc(self.ipc_buffer_addr / PAGE_SIZE),
            final(pool)@ == old(pool)@.push(self.untyped),
    {
        let mut calls: Vec<KernelCall> = Vec::new();
        calls.push(KernelCall::Revoke { cap: self.tcb });
        calls.push(KernelCall::Delete { cap: self.tcb });
        calls.push(KernelCall::Revoke { cap: self.cnode });
        calls.push(KernelCall::Delete { cap: self.cnode });
        calls.push(KernelCall::Revoke { cap: self.ep });
        calls.push(KernelCall::Delete { cap: self.ep });
        calls.push(KernelCall::Revoke { cap: self.ipc_buffer });
        calls.push(KernelCall::Delete { cap: self.ipc_buffer });
        calls.push(KernelCall::RecycleSlot { cap: self.tcb });
        calls.push(KernelCall::RecycleSlot { cap: self.cnode });
        calls.push(KernelCall::RecycleSlot { cap: self.ep });
        calls.push(KernelCall::RecycleSlot { cap: self.ipc_buffer });
        crate::mem::dealloc_ipc_buffer(space, self.ipc_buffer_addr);
        recycle_untyped_unit(pool, self.untyped);
        assert(calls@ =~= self.teardown());
        calls
    }
}

impl TaskBuilder {
    /// The builder in another stage.
    pub open spec fn at(self, stage: TaskStage) -> TaskBuilder {
        TaskBuilder { stage, ..self }
    }

    /// The builder with more of the task known.
    pub open spec fn with(self, task: Sel4Task) -> TaskBuilder {
        TaskBuilder { task, ..self }
    }

    /// The call that follows when the stage before `stage` succeeded.
    pub open spec fn call(self, stage: TaskStage) -> KernelCall {
        let task = self.task;
        match stage {
            TaskStage::Untyped => KernelCall::AllocUntyped { size_bits: crate::untyped::ALLOC_SIZE_BITS },
            TaskStage::CNode => KernelCall::AllocCNode { from: task.factory() },
            TaskStage::Tcb => KernelCall::AllocTcb { from: task.factory() },
            TaskStage::Endpoint => KernelCall::AllocEndpoint { from: task.factory() },
            TaskStage::CopyTcb => KernelCall::CopyCap {
                cnode: task.cnode,
                dest: TaskSlot::ThreadControl,
                src: task.tcb,
            },
            TaskStage::MintParent => KernelCall::MintServiceEndpoint {
                cnode: task.cnode,
                dest: TaskSlot::ParentEndpoint,
                badge: task.tid as u64,
            },
            TaskStage::CopyEndpoint => KernelCall::CopyCap {
                cnode: task.cnode,
                dest: TaskSlot::ServeEndpoint,
                src: task.ep,
            },
            TaskStage::IpcBuffer(_) => KernelCall::AllocPage { from: task.factory() },
            TaskStage::Configure => KernelCall::ConfigureTcb {
                tcb: task.tcb,
                cnode: task.cnode,
                ipc_vaddr: task.ipc_buffer_addr,
                ipc_buffer: task.ipc_buffer,
            },
            TaskStage::TlsBase => KernelCall::SetTlsBase { tcb: task.tcb, tls: self.tls },
            TaskStage::SchedParams => KernelCall::SetSchedParams {
                tcb: task.tcb,
                priority: self.priority,
            },
            TaskStage::ReadRegisters => KernelCall::ReadRegisters { tcb: task.tcb },
            TaskStage::WriteRegisters => KernelCall::WriteRegisters {
                tcb: task.tcb,
                pc: task.entry,
                sp: task.stack,
                ipc_vaddr: task.ipc_buffer_addr,
            },
        }
    }

    /// The builder moves on to `stage` and asks for the call of that stage.
    pub open spec fn proceed(self, stage: TaskStage) -> BuildStep {
        BuildStep::Call(self.at(stage), self.call(stage))
    }

    /// What a stage that creates an object does with `reply`: the object goes
    /// into the task by `keep`, and the builder moves on to `stage`.
    pub open spec fn created(
        self,
        reply: KernelReply,
        keep: spec_fn(Sel4Task, u64) -> Sel4Task,
        stage: TaskStage,
    ) -> BuildStep {
        match reply {
            KernelReply::Value(cap) => self.with(keep(self.task, cap)).proceed(stage),
            KernelReply::Failed(e) => BuildStep::Failed(TaskError::Kernel(e)),
            _ => BuildStep::Failed(TaskError::MissingCapability),
        }
    }

    /// What a stage that only has to succeed does with `reply`.
    pub open spec fn done(self, reply: KernelReply, stage: TaskStage) -> BuildStep {
        match reply.error() {
            Some(e) => BuildStep::Failed(TaskError::Kernel(e)),
            None => self.proceed(stage),
        }
    }

    /// How the construction goes on after `reply`, when `frames` is the state
    /// of the pages for IPC buffers.
    pub open spec fn next(self, frames: FrameState, reply: KernelReply) -> BuildStep {
        match self.stage {
            TaskStage::Untyped => self.created(
                reply,
                |t: Sel4Task, cap: u64| Sel4Task { untyped: cap, ..t },
                TaskStage::CNode,
            ),
            TaskStage::CNode => self.created(
                reply,
                |t: Sel4Task, cap: u64| Sel4Task { cnode: cap, ..t },
                TaskStage::Tcb,
            ),
            TaskStage::Tcb => self.created(
                reply,
                |t: Sel4Task, cap: u64| Sel4Task { tcb: cap, ..t },
                TaskStage::Endpoint,
            ),
            TaskStage::Endpoint => self.created(
                reply,
                |t: Sel4Task, cap: u64| Sel4Task { ep: cap, ..t },
                TaskStage::CopyTcb,
            ),
            TaskStage::CopyTcb => self.done(reply, TaskStage::MintParent),
            TaskStage::MintParent => self.done(reply, TaskStage::CopyEndpoint),
            TaskStage::CopyEndpoint => match reply.error() {
                Some(e) => BuildStep::Failed(TaskError::Kernel(e)),
                None => match spec_alloc_ipc_buffer(frames, self.task.factory()) {
                    Ok((setup, call)) => BuildStep::Call(self.at(TaskStage::IpcBuffer(setup)), call),
                    Err(e) => BuildStep::Failed(TaskError::Kernel(e)),
                },
            },
            TaskStage::IpcBuffer(setup) => match setup.next(reply) {
                IpcStep::Call(after, call) => BuildStep::Call(
                    self.at(TaskStage::IpcBuffer(after)),
                    call,
                ),
                IpcStep::Ready { vaddr, frame } => self.with(
                    Sel4Task { ipc_buffer: frame, ipc_buffer_addr: vaddr, ..self.task },
                ).proceed(TaskStage::Configure),
                IpcStep::Fault(fault) => BuildStep::Failed(TaskError::Mapping(fault)),
            },
            TaskStage::Configure => self.done(reply, TaskStage::TlsBase),
            TaskStage::TlsBase => self.done(reply, TaskStage::SchedParams),
            TaskStage::SchedParams => self.done(reply, TaskStage::ReadRegisters),
            TaskStage::ReadRegisters => self.done(reply, TaskStage::WriteRegisters),
            TaskStage::WriteRegisters => match reply.error() {
                Some(e) => BuildStep::Failed(TaskError::Kernel(e)),
                None => BuildStep::Ready(self.task),
            },
        }
    }

    /// Whether this step reserves the virtual page of the IPC buffer.
    pub open spec fn reserves_page(self, reply: KernelReply) -> bool {
        self.stage is CopyEndpoint && reply.error() is None
    }
}

impl TaskBuilder {
    /// The call of `stage`, computed.
    fn pending(&self, stage: TaskStage) -> (call: KernelCall)
        ensures
            call == self.call(stage),
    {
        let task = self.task;
        let from = Factory::Task { untyped: task.untyped };
        match stage {
            TaskStage::Untyped => KernelCall::AllocUntyped {
                size_bits: crate::untyped::ALLOC_SIZE_BITS,
            },
            TaskStage::CNode => KernelCall::AllocCNode { from },
            TaskStage::Tcb => KernelCall::AllocTcb { from },
            TaskStage::Endpoint => KernelCall::AllocEndpoint { from },
            TaskStage::CopyTcb => KernelCall::CopyCap {
                cnode: task.cnode,
                dest: TaskSlot::ThreadControl,
                src: task.tcb,
            },
            TaskStage::MintParent => KernelCall::MintServiceEndpoint {
                cnode: task.cnode,
                dest: TaskSlot::ParentEndpoint,
                badge: task.tid as u64,
            },
            TaskStage::CopyEndpoint => KernelCall::CopyCap {
                cnode: task.cnode,
                dest: TaskSlot::ServeEndpoint,
                src: task.ep,
            },
            TaskStage::IpcBuffer(_) => KernelCall::AllocPage { from },
            TaskStage::Configure => KernelCall::ConfigureTcb {
                tcb: task.tcb,
                cnode: task.cnode,
                ipc_vaddr: task.ipc_buffer_addr,
                ipc_buffer: task.ipc_buffer,
            },
            TaskStage::TlsBase => KernelCall::SetTlsBase { tcb: task.tcb, tls: self.tls },
            TaskStage::SchedParams => KernelCall::SetSchedParams {
                tcb: task.tcb,
                priority: self.priority,
            },
            TaskStage::ReadRegisters => KernelCall::ReadRegisters { tcb: task.tcb },
            TaskStage::WriteRegisters => KernelCall::WriteRegisters {
                tcb: task.tcb,
                pc: task.entry,
                sp: task.stack,
                ipc_vaddr: task.ipc_buffer_addr,
            },
        }
    }

    /// Moves on to `stage`.
    fn advance(self, stage: TaskStage) -> (step: BuildStep)
        ensures
            step == self.proceed(stage),
    {
        let call = self.pending(stage);
        BuildStep::Call(TaskBuilder { stage, ..self }, call)
    }

    /// Moves on to `stage` unless `reply` reports an error.
    fn advance_if_done(self, reply: KernelReply, stage: TaskStage) -> (step: BuildStep)
        ensures
            step == self.done(reply, stage),
    {
        match reply {
            KernelReply::Failed(e) => BuildStep::Failed(TaskError::Kernel(e)),
            _ => self.advance(stage),
        }
    }

    /// Goes on with the reply to the call that the construction waited for.
    /// The step that follows the last copy into the task's namespace also
    /// reserves the virtual page of the IPC buffer in `space`; no other step
    /// touches `space`.
    pub fn step(self, space: &mut MemSpace, reply: KernelReply) -> (step: BuildStep)
        requires
            old(space)@.wf(),
        ensures
            step == self.next(old(space)@.frames, reply),
            final(space)@.wf(),
            final(space)@.regions == old(space)@.regions,
            final(space)@.frames == if self.reserves_page(reply) {
                old(space)@.frames.allocate().0
            } else {
                old(space)@.frames
            },
    {
        let task = self.task;
        match self.stage {
            TaskStage::Untyped => match reply {
                KernelReply::Value(cap) => {
                    let next = TaskBuilder { task: Sel4Task { untyped: cap, ..task }, ..self };
                    next.advance(TaskStage::CNode)
                },
                KernelReply::Failed(e) => BuildStep::Failed(TaskError::Kernel(e)),
                _ => BuildStep::Failed(TaskError::MissingCapability),
            },
            TaskStage::CNode => match reply {
                KernelReply::Value(cap) => {
                    let next = TaskBuilder { task: Sel4Task { cnode: cap, ..task }, ..self };
                    next.advance(TaskStage::Tcb)
                },
                KernelReply::Failed(e) => BuildStep::Failed(TaskError::Kernel(e)),
                _ => BuildStep::Failed(TaskError::MissingCapability),
            },
            TaskStage::Tcb => match reply {
                KernelReply::Value(cap) => {
                    let next = TaskBuilder { task: Sel4Task { tcb: cap, ..task }, ..self };
                    next.advance(TaskStage::Endpoint)
                },
                KernelReply::Failed(e) => BuildStep::Failed(TaskError::Kernel(e)),
                _ => BuildStep::Failed(TaskError::MissingCapability),
            },
            TaskStage::Endpoint => match reply {
                KernelReply::Value(cap) => {
                    let next = TaskBuilder { task: Sel4Task { ep: cap, ..task }, ..self };
                    next.advance(TaskStage::CopyTcb)
                },
                KernelReply::Failed(e) => BuildStep::Failed(TaskError::Kernel(e)),
                _ => BuildStep::Failed(TaskError::MissingCapability),
            },
            TaskStage::CopyTcb => self.advance_if_done(reply, TaskStage::MintParent),
            TaskStage::MintParent => self.advance_if_done(reply, TaskStage::CopyEndpoint),
            TaskStage::CopyEndpoint => match reply {
                KernelReply::Failed(e) => BuildStep::Failed(TaskError::Kernel(e)),
                _ => match space.alloc_ipc_buffer(Factory::Task { untyped: task.untyped }) {
                    Ok((setup, call)) => BuildStep::Call(
                        TaskBuilder { stage: TaskStage::IpcBuffer(setup), ..self },
                        call,
                    ),
                    Err(e) => BuildStep::Failed(TaskError::Kernel(e)),
                },
            },
            TaskStage::IpcBuffer(setup) => match setup.step(reply) {
                IpcStep::Call(after, call) => BuildStep::Call(
                    TaskBuilder { stage: TaskStage::IpcBuffer(after), ..self },
                    call,
                ),
                IpcStep::Ready { vaddr, frame } => {
                    let next = TaskBuilder {
                        task: Sel4Task { ipc_buffer: frame, ipc_buffer_addr: vaddr, ..task },
                        ..self
                    };
                    next.advance(TaskStage::Configure)
                },
                IpcStep::Fault(fault) => BuildStep::Failed(TaskError::Mapping(fault)),
            },
            TaskStage::Configure => self.advance_if_done(reply, TaskStage::TlsBase),
            TaskStage::TlsBase => self.advance_if_done(reply, TaskStage::SchedParams),
            TaskStage::SchedParams => self.advance_if_done(reply, TaskStage::ReadRegisters),
            TaskStage::ReadRegisters => self.advance_if_done(reply, TaskStage::WriteRegisters),
            TaskStage::WriteRegisters => match reply {
                KernelReply::Failed(e) => BuildStep::Failed(TaskError::Kernel(e)),
                _ => BuildStep::Ready(task),
            },
        }
    }

    /// The untyped unit that the construction holds, once it has one.
    pub open spec fn held_untyped(self) -> Option<u64> {
        if self.stage is Untyped {
            None
        } else {
            Some(self.task.untyped)
        }
    }

    /// The address of the virtual page that the construction holds for the
    /// IPC buffer, once it has one.
    pub open spec fn held_page(self) -> Option<usize> {
        match self.stage {
            TaskStage::IpcBuffer(setup) => Some(setup.vaddr),
            TaskStage::Configure
            | TaskStage::TlsBase
            | TaskStage::SchedParams
            | TaskStage::ReadRegisters
            | TaskStage::WriteRegisters => Some(self.task.ipc_buffer_addr),
            _ => None,
        }
    }
}

/// Begins the construction of a task that runs at the default priority.
pub fn create_sel4_task(
    tid: usize,
    entry: usize,
    stack: usize,
    tls: usize,
    pool: &mut UntypedPool,
) -> (begun: (TaskBuilder, KernelCall))
    ensures
        begun == Sel4Task::spec_new(tid, entry, stack, DEFAULT_PRIORITY, tls, old(pool)@),
        final(pool)@ == spec_alloc_untyped_unit(old(pool)@).0,
{
    Sel4Task::new(tid, entry, stack, DEFAULT_PRIORITY, tls, pool)
}

/// Destroys a task for good: the task is given up with the call, so nothing
/// can use it afterwards.
pub fn exit_sel4_task(task: Sel4Task, space: &mut MemSpace, pool: &mut UntypedPool) -> (calls: Vec<
    KernelCall,
>)
    requires
        old(space)@.wf(),
    ensures
        calls@ == task.teardown(),
        final(space)@.wf(),
        final(space)@.regions == old(space)@.regions,
        final(space)@.frames == old(space)@.frames.dealloc(task.ipc_buffer_addr / PAGE_SIZE),
        final(pool)@ == old(pool)@.push(task.untyped),
{
    task.exit(space, pool)
}

/// A construction never lets go of what it holds: the untyped unit and the
/// page of the IPC buffer stay the same from the step that obtained them to
/// the finished task, and so do the id, the entry point and the stack. The
/// page is the one that the page allocator granted at the step that
/// reserved it.
pub proof fn lemma_construction_keeps_resources(
    builder: TaskBuilder,
    frames: FrameState,
    reply: KernelReply,
)
    ensures
        builder.next(frames, reply) matches BuildStep::Call(after, _) ==> {
            &&& builder.held_untyped() is Some ==> after.held_untyped() == builder.held_untyped()
            &&& builder.held_page() is Some ==> after.held_page() == builder.held_page()
            &&& builder.reserves_page(reply) ==> after.held_page() == crate::mem::spec_ipc_page(
                frames,
            )
            &&& after.held_untyped() is Some
            &&& after.task.tid == builder.task.tid
            &&& after.task.entry == builder.task.entry
            &&& after.task.stack == builder.task.stack
            &&& after.priority == builder.priority
            &&& after.tls == builder.tls
        },
        builder.next(frames, reply) matches BuildStep::Ready(task) ==> {
            &&& Some(task.untyped) == builder.held_untyped()
            &&& Some(task.ipc_buffer_addr) == builder.held_page()
            &&& task == builder.task
        },
{
}

/// The place of a stage in the construction.
pub open spec fn stage_rank(stage: TaskStage) -> int {
    match stage {
        TaskStage::Untyped => 0,
        TaskStage::CNode => 1,
        TaskStage::Tcb => 2,
        TaskStage::Endpoint => 3,
        TaskStage::CopyTcb => 4,
        TaskStage::MintParent => 5,
        TaskStage::CopyEndpoint => 6,
        TaskStage::IpcBuffer(_) => 7,
        TaskStage::Configure => 8,
        TaskStage::TlsBase => 9,
        TaskStage::SchedParams => 10,
        TaskStage::ReadRegisters => 11,
        TaskStage::WriteRegisters => 12,
    }
}

/// A construction goes through its stages in their order and skips none:
/// a step stays in the stage of the IPC buffer or moves on to the stage
/// that follows, asking for the call of that stage; and the task is ready
/// only after the registers were written.
pub proof fn lemma_construction_order(builder: TaskBuilder, frames: FrameState, reply: KernelReply)
    ensures
        builder.next(frames, reply) matches BuildStep::Call(after, call) ==> {
            &&& stage_rank(after.stage) == stage_rank(builder.stage) + 1 || (builder.stage
                is IpcBuffer && after.stage is IpcBuffer)
            &&& !(builder.stage is IpcBuffer) ==> call == after.call(after.stage)
            &&& after.stage is Configure ==> call == after.call(after.stage)
        },
        builder.next(frames, reply) is Ready ==> builder.stage is WriteRegisters,
{
}

/// When a construction fails and when it cannot: a kernel error is the one
/// that the reply reported, or the lack of a virtual page for the IPC
/// buffer; a capability is missing only when a reply carried neither a value
/// nor an error; and a mapping fault comes from the stage that maps the IPC
/// buffer. Outside that stage, a reply that carries a value never fails a
/// step as long as a virtual page is left.
pub proof fn lemma_construction_failures(builder: TaskBuilder, frames: FrameState, reply: KernelReply)
    requires
        frames.wf(),
    ensures
        builder.next(frames, reply) matches BuildStep::Failed(err) ==> match err {
            TaskError::Kernel(e) => reply.error() == Some(e) || (builder.reserves_page(reply)
                && frames.exhausted() && e == KernelError::NotEnoughMemory),
            TaskError::MissingCapability => reply.value() is None && reply.error() is None,
            TaskError::Mapping(_) => builder.stage is IpcBuffer,
        },
        reply.value() is Some && !(builder.stage is IpcBuffer) && !frames.exhausted() ==> !(
        builder.next(frames, reply) is Failed),
        reply.error() is Some && !(builder.stage is IpcBuffer) ==> builder.next(frames, reply)
            == BuildStep::Failed(TaskError::Kernel(reply.error()->0)),
{
    crate::frame::lemma_none_only_when_exhausted(frames);
}

/// A task that is destroyed right after it was built leaves both pools ready
/// to build it again without growing: the next request for an untyped unit
/// is granted the task's unit from the pool, with no call to the global
/// factory, and the next request for an IPC page is granted the task's page,
/// with the counter of the reserved range where it was.
///
/// `frames` is the page allocator at the step that reserved the task's page,
/// and `recycled` is the pool after the task's unit was taken.
pub proof fn lemma_destroyed_task_is_reused(frames: FrameState, recycled: Seq<u64>, task: Sel4Task)
    requires
        frames.wf(),
        frames.end * PAGE_SIZE <= usize::MAX,
        crate::mem::spec_ipc_page(frames) == Some(task.ipc_buffer_addr),
    ensures
        ({
            let built = frames.allocate().0;
            let destroyed = built.dealloc(task.ipc_buffer_addr / PAGE_SIZE);
            let pool = recycled.push(task.untyped);
            &&& destroyed.wf()
            &&& crate::mem::spec_ipc_page(destroyed) == Some(task.ipc_buffer_addr)
            &&& destroyed.allocate().0 == built
            &&& destroyed.current == built.current
            &&& spec_alloc_untyped_unit(pool) == (recycled, UntypedGrant::Recycled(task.untyped))
            &&& forall|tid: usize, entry: usize, stack: usize, priority: usize, tls: usize|
                (#[trigger] Sel4Task::spec_new(tid, entry, stack, priority, tls, pool)).0.held_untyped()
                    == Some(task.untyped)
        }),
{
    let vpn = frames.allocate().1->0;
    let built = frames.allocate().0;
    crate::frame::lemma_allocate_step(frames);
    crate::frame::lemma_allocated_page_in_range(frames);
    assert(vpn * PAGE_SIZE <= frames.end * PAGE_SIZE) by (nonlinear_arith)
        requires
            vpn < frames.end,
    ;
    assert(task.ipc_buffer_addr / PAGE_SIZE == vpn);
    assert(vpn < built.current && !built.recycled.contains(vpn)) by {
        if frames.recycled.len() > 0 {
            assert(frames.recycled[frames.recycled.len() - 1] == vpn);
            if built.recycled.contains(vpn) {
                let i = choose|i: int| 0 <= i < built.recycled.len() && built.recycled[i] == vpn;
                assert(frames.recycled[i] == vpn);
            }
        } else {
            if built.recycled.contains(vpn) {
                let i = choose|i: int| 0 <= i < built.recycled.len() && built.recycled[i] == vpn;
            }
        }
    }
    crate::frame::lemma_dealloc_then_allocate(built, vpn);
    crate::untyped::lemma_recycled_unit_is_reused(recycled, task.untyped);
}

} // verus!
