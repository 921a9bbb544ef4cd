use sel4_platform::kernel::{Factory, KernelCall, KernelError, KernelReply, TaskSlot};
use sel4_platform::mapping::MapFault;
use sel4_platform::mem::MemSpace;
use sel4_platform::task::{
    create_sel4_task, exit_sel4_task, BuildStep, Sel4Task, TaskBuilder, TaskError, TaskStage,
    DEFAULT_PRIORITY,
};
use sel4_platform::untyped::UntypedPool;

const FRAME_BASE: usize = 0x7000_0000;

fn call_of(step: BuildStep) -> (TaskBuilder, KernelCall) {
    match step {
        BuildStep::Call(builder, call) => (builder, call),
        other => panic!("the construction ended: {:?}", other),
    }
}

/// Answers every call as a healthy kernel would, and returns the task with
/// the calls that were made.
fn build(
    tid: usize,
    space: &mut MemSpace,
    pool: &mut UntypedPool,
    next_cap: &mut u64,
) -> (Sel4Task, Vec<KernelCall>) {
    let (mut builder, mut call) = Sel4Task::new(tid, 0x40_1000, 0x7fff_0000, 42, 0x9000, pool);
    let mut calls = Vec::new();
    loop {
        calls.push(call);
        let reply = match call {
            KernelCall::AllocUntyped { .. }
            | KernelCall::AllocCNode { .. }
            | KernelCall::AllocTcb { .. }
            | KernelCall::AllocEndpoint { .. }
            | KernelCall::AllocPage { .. } => {
                *next_cap += 1;
                KernelReply::Value(*next_cap)
            }
            _ => KernelReply::Done,
        };
        match builder.step(space, reply) {
            BuildStep::Call(b, c) => {
                builder = b;
                call = c;
            }
            BuildStep::Ready(task) => return (task, calls),
            BuildStep::Failed(e) => panic!("{:?}", e),
        }
    }
}

#[test]
fn empty_task_holds_nothing() {
    let t = Sel4Task::empty();
    assert_eq!(
        (t.tcb, t.cnode, t.ep, t.entry, t.stack, t.untyped, t.ipc_buffer, t.ipc_buffer_addr, t.tid),
        (0, 0, 0, 0, 0, 0, 0, 0, 0)
    );
}

#[test]
fn construction_makes_its_calls_in_order() {
    let mut space = MemSpace::new(FRAME_BASE, 0x4000);
    let mut pool = UntypedPool::new();
    let mut cap = 100;
    let (task, calls) = build(7, &mut space, &mut pool, &mut cap);
    let factory = Factory::Task { untyped: 101 };
    assert_eq!(
        calls,
        vec![
            KernelCall::AllocUntyped { size_bits: 21 },
            KernelCall::AllocCNode { from: factory },
            KernelCall::AllocTcb { from: factory },
            KernelCall::AllocEndpoint { from: factory },
            KernelCall::CopyCap { cnode: 102, dest: TaskSlot::ThreadControl, src: 103 },
            KernelCall::MintServiceEndpoint { cnode: 102, dest: TaskSlot::ParentEndpoint, badge: 7 },
            KernelCall::CopyCap { cnode: 102, dest: TaskSlot::ServeEndpoint, src: 104 },
            KernelCall::AllocPage { from: factory },
            KernelCall::MapFrame { frame: 105, vaddr: FRAME_BASE },
            KernelCall::ConfigureTcb { tcb: 103, cnode: 102, ipc_vaddr: FRAME_BASE, ipc_buffer: 105 },
            KernelCall::SetTlsBase { tcb: 103, tls: 0x9000 },
            KernelCall::SetSchedParams { tcb: 103, priority: 42 },
            KernelCall::ReadRegisters { tcb: 103 },
            KernelCall::WriteRegisters { tcb: 103, pc: 0x40_1000, sp: 0x7fff_0000, ipc_vaddr: FRAME_BASE },
        ]
    );
    assert_eq!(
        task,
        Sel4Task {
            tcb: 103,
            cnode: 102,
            ep: 104,
            entry: 0x40_1000,
            stack: 0x7fff_0000,
            untyped: 101,
            ipc_buffer: 105,
            ipc_buffer_addr: FRAME_BASE,
            tid: 7,
        }
    );
}

#[test]
fn construction_takes_a_waiting_unit_first() {
    let mut pool = UntypedPool::new();
    sel4_platform::untyped::recycle_untyped_unit(&mut pool, 900);
    let (builder, call) = Sel4Task::new(1, 2, 3, 4, 5, &mut pool);
    assert_eq!(call, KernelCall::AllocCNode { from: Factory::Task { untyped: 900 } });
    assert_eq!(builder.stage, TaskStage::CNode);
    assert_eq!(builder.task.untyped, 900);
    assert_eq!(pool.len(), 0);
}

#[test]
fn default_priority_is_one_hundred() {
    assert_eq!(DEFAULT_PRIORITY, 100);
    let mut pool = UntypedPool::new();
    let (builder, call) = create_sel4_task(3, 0x1000, 0x2000, 0x3000, &mut pool);
    assert_eq!(call, KernelCall::AllocUntyped { size_bits: 21 });
    assert_eq!(builder.priority, 100);
    assert_eq!(builder.tls, 0x3000);
    assert_eq!(builder.task.tid, 3);
    assert_eq!(builder.task.entry, 0x1000);
    assert_eq!(builder.task.stack, 0x2000);
    assert_eq!(builder.stage, TaskStage::Untyped);
}

#[test]
fn kernel_error_ends_the_construction() {
    let mut space = MemSpace::new(FRAME_BASE, 0x4000);
    let mut pool = UntypedPool::new();
    let (builder, _) = Sel4Task::new(1, 2, 3, 4, 5, &mut pool);
    assert_eq!(
        builder.step(&mut space, KernelReply::Failed(KernelError::NotEnoughMemory)),
        BuildStep::Failed(TaskError::Kernel(KernelError::NotEnoughMemory))
    );
    assert_eq!(
        builder.step(&mut space, KernelReply::Done),
        BuildStep::Failed(TaskError::MissingCapability)
    );
    let (builder, _) = call_of(builder.step(&mut space, KernelReply::Value(1)));
    let (builder, _) = call_of(builder.step(&mut space, KernelReply::Value(2)));
    let (builder, _) = call_of(builder.step(&mut space, KernelReply::Value(3)));
    let (builder, call) = call_of(builder.step(&mut space, KernelReply::Value(4)));
    assert_eq!(call, KernelCall::CopyCap { cnode: 2, dest: TaskSlot::ThreadControl, src: 3 });
    assert_eq!(
        builder.step(&mut space, KernelReply::Failed(KernelError::DeleteFirst)),
        BuildStep::Failed(TaskError::Kernel(KernelError::DeleteFirst))
    );
    // nothing of the reserved range was touched on the way
    assert_eq!(
        space.alloc_ipc_buffer(Factory::Global).unwrap().0.vaddr,
        FRAME_BASE
    );
}

#[test]
fn construction_fails_when_no_page_is_left_for_the_ipc_buffer() {
    let mut space = MemSpace::new(FRAME_BASE, 0);
    let mut pool = UntypedPool::new();
    let (mut builder, _) = Sel4Task::new(1, 2, 3, 4, 5, &mut pool);
    for cap in 1..=4 {
        builder = call_of(builder.step(&mut space, KernelReply::Value(cap))).0;
    }
    builder = call_of(builder.step(&mut space, KernelReply::Done)).0;
    builder = call_of(builder.step(&mut space, KernelReply::Done)).0;
    assert_eq!(builder.stage, TaskStage::CopyEndpoint);
    assert_eq!(
        builder.step(&mut space, KernelReply::Done),
        BuildStep::Failed(TaskError::Kernel(KernelError::NotEnoughMemory))
    );
}

#[test]
fn mapping_fault_ends_the_construction() {
    let mut space = MemSpace::new(FRAME_BASE, 0x1000);
    let mut pool = UntypedPool::new();
    let (mut builder, _) = Sel4Task::new(1, 2, 3, 4, 5, &mut pool);
    for cap in 1..=4 {
        builder = call_of(builder.step(&mut space, KernelReply::Value(cap))).0;
    }
    for _ in 0..3 {
        builder = call_of(builder.step(&mut space, KernelReply::Done)).0;
    }
    assert!(matches!(builder.stage, TaskStage::IpcBuffer(_)));
    let (builder, call) = call_of(builder.step(&mut space, KernelReply::Value(9)));
    assert_eq!(call, KernelCall::MapFrame { frame: 9, vaddr: FRAME_BASE });
    assert_eq!(
        builder.step(&mut space, KernelReply::Failed(KernelError::AlignmentError)),
        BuildStep::Failed(TaskError::Mapping(MapFault::Kernel(KernelError::AlignmentError)))
    );
}

#[test]
fn start_and_suspend() {
    let task = Sel4Task { tcb: 33, ..Sel4Task::empty() };
    assert_eq!(task.start(), KernelCall::Resume { tcb: 33 });
    assert_eq!(task.suspend(), KernelCall::Suspend { tcb: 33 });
}

#[test]
fn exit_revokes_before_it_deletes() {
    let mut space = MemSpace::new(FRAME_BASE, 0x4000);
    let mut pool = UntypedPool::new();
    let task = Sel4Task {
        tcb: 1,
        cnode: 2,
        ep: 3,
        entry: 0,
        stack: 0,
        untyped: 4,
        ipc_buffer: 5,
        ipc_buffer_addr: FRAME_BASE,
        tid: 6,
    };
    let calls = task.exit(&mut space, &mut pool);
    assert_eq!(
        calls,
        vec![
            KernelCall::Revoke { cap: 1 },
            KernelCall::Delete { cap: 1 },
            KernelCall::Revoke { cap: 2 },
            KernelCall::Delete { cap: 2 },
            KernelCall::Revoke { cap: 3 },
            KernelCall::Delete { cap: 3 },
            KernelCall::Revoke { cap: 5 },
            KernelCall::Delete { cap: 5 },
            KernelCall::RecycleSlot { cap: 1 },
            KernelCall::RecycleSlot { cap: 2 },
            KernelCall::RecycleSlot { cap: 3 },
            KernelCall::RecycleSlot { cap: 5 },
        ]
    );
    assert_eq!(pool.len(), 1);
}

#[test]
fn destroyed_task_is_built_again_from_the_same_unit_and_page() {
    let mut space = MemSpace::new(FRAME_BASE, 0x4000);
    let mut pool = UntypedPool::new();
    let mut cap = 0;
    let (other, _) = build(1, &mut space, &mut pool, &mut cap);
    let (first, first_calls) = build(2, &mut space, &mut pool, &mut cap);
    assert_eq!(first.ipc_buffer_addr, FRAME_BASE + 0x1000);
    assert!(first_calls.contains(&KernelCall::AllocUntyped { size_bits: 21 }));
    let calls = exit_sel4_task(first, &mut space, &mut pool);
    assert_eq!(calls.len(), 12);
    assert_eq!(pool.len(), 1);
    let (second, second_calls) = build(3, &mut space, &mut pool, &mut cap);
    assert_eq!(second.untyped, first.untyped);
    assert_eq!(second.ipc_buffer_addr, first.ipc_buffer_addr);
    assert!(!second_calls.contains(&KernelCall::AllocUntyped { size_bits: 21 }));
    assert_eq!(pool.len(), 0);
    assert_ne!(other.untyped, second.untyped);
    assert_ne!(other.ipc_buffer_addr, second.ipc_buffer_addr);
    // the reserved range did not grow: the next fresh page is the third
    assert_eq!(
        space.alloc_ipc_buffer(Factory::Global).unwrap().0.vaddr,
        FRAME_BASE + 0x2000
    );
}
