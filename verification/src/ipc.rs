//! The requests that a task sends to its parent over the endpoint it was
//! given: a label that names the service, and the arguments in order.

use vstd::prelude::*;

verus! {

/// The label of the first service; the others follow it one by one.
pub const SERVICE_LABEL_BASE: u64 = 0x1000;

/// A service of the parent.
#[derive(Clone, Copy, Debug, PartialEq, Eq, Structural)]
pub enum ServiceEvent {
    CreateTask,
    SwitchTask,
    ExitTask,
    ExitSystem,
}

impl ServiceEvent {
    /// The label that stands for the service in a message.
    pub open spec fn spec_label(self) -> u64 {
        match self {
            ServiceEvent::CreateTask => 0x1000,
            ServiceEvent::SwitchTask => 0x1001,
            ServiceEvent::ExitTask => 0x1002,
            ServiceEvent::ExitSystem => 0x1003,
        }
    }

    /// The label that stands for the service in a message.
    pub fn label(self) -> (label: u64)
        ensures
            label == self.spec_label(),
            SERVICE_LABEL_BASE <= label < SERVICE_LABEL_BASE + 4,
    {
        match self {
            ServiceEvent::CreateTask => SERVICE_LABEL_BASE,
            ServiceEvent::SwitchTask => SERVICE_LABEL_BASE + 1,
            ServiceEvent::ExitTask => SERVICE_LABEL_BASE + 2,
            ServiceEvent::ExitSystem => SERVICE_LABEL_BASE + 3,
        }
    }

    /// The service that a label stands for, if it stands for one.
    pub fn from_label(label: u64) -> (event: Option<ServiceEvent>)
        ensures
            event matches Some(e) ==> e.spec_label() == label,
            event is None <==> !(SERVICE_LABEL_BASE <= label < SERVICE_LABEL_BASE + 4),
    {
        if label == SERVICE_LABEL_BASE {
            Some(ServiceEvent::CreateTask)
        } else if label == SERVICE_LABEL_BASE + 1 {
            Some(ServiceEvent::SwitchTask)
        } else if label == SERVICE_LABEL_BASE + 2 {
            Some(ServiceEvent::ExitTask)
        } else if label == SERVICE_LABEL_BASE + 3 {
            Some(ServiceEvent::ExitSystem)
        } else {
            None
        }
    }
}

/// One request to the parent. The reply to it is a single word.
#[derive(Debug)]
pub struct ServiceRequest {
    /// The service asked for.
    pub event: ServiceEvent,
    /// The arguments, in the order in which the service takes them.
    pub args: Vec<usize>,
}

/// The request to create a task.
pub fn create_task(tid: usize, entry: usize, kstack: usize, tls: usize) -> (request: ServiceRequest)
    ensures
        request.event == ServiceEvent::CreateTask,
        request.args@ == seq![tid, entry, kstack, tls],
{
    let mut args: Vec<usize> = Vec::new();
    args.push(tid);
    args.push(entry);
    args.push(kstack);
    args.push(tls);
    assert(args@ =~= seq![tid, entry, kstack, tls]);
    ServiceRequest { event: ServiceEvent::CreateTask, args }
}

/// The request to switch to the task with the handle `task`.
pub fn switch_task(task: usize) -> (request: ServiceRequest)
    ensures
        request.event == ServiceEvent::SwitchTask,
        request.args@ == seq![task],
{
    let mut args: Vec<usize> = Vec::new();
    args.push(task);
    assert(args@ =~= seq![task]);
    ServiceRequest { event: ServiceEvent::SwitchTask, args }
}

/// The request to destroy the task with the handle `task`.
pub fn exit_task(task: usize) -> (request: ServiceRequest)
    ensures
        request.event == ServiceEvent::ExitTask,
        request.args@ == seq![task],
{
    let mut args: Vec<usize> = Vec::new();
    args.push(task);
    assert(args@ =~= seq![task]);
    ServiceRequest { event: ServiceEvent::ExitTask, args }
}

/// The request to shut the system down.
pub fn exit_system() -> (request: ServiceRequest)
    ensures
        request.event == ServiceEvent::ExitSystem,
        request.args@ == Seq::<usize>::empty(),
{
    ServiceRequest { event: ServiceEvent::ExitSystem, args: Vec::new() }
}

/// A label and the service it stands for determine each other.
pub proof fn lemma_labels_are_distinct(a: ServiceEvent, b: ServiceEvent)
    ensures
        a.spec_label() == b.spec_label() <==> a == b,
{
}

} // verus!
