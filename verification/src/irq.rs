//! The interrupt registry. Every interrupt line is delivered through one
//! notification that is bound to the control thread; a line is told apart by
//! the badge of its own alias of that notification, which is its number.

use axplat::irq::HandlerTable;
use std::collections::BTreeMap;
use vstd::prelude::*;
use crate::kernel::KernelCall;
use crate::kernel::KernelError;
use crate::kernel::KernelReply;

verus! {

/// The number of interrupt lines that can have a handler.
pub const MAX_IRQ_COUNT: usize = 1024;

/// The table of interrupt handlers, one slot for each line.
#[verifier::external_type_specification]
#[verifier::external_body]
pub struct ExHandlerTable<const N: usize>(HandlerTable<N>);

/// The function that handles one interrupt line. A function pointer is
/// nothing that the verifier can look into: it is carried through as it is.
#[verifier::external_body]
pub struct IrqHandler {
    pub entry: fn(),
}

/// The handlers that a table holds, by line.
pub uninterp spec fn handler_table_contents(table: HandlerTable<1024>) -> Map<usize, IrqHandler>;

/// `HandlerTable::new`: a table in which no line has a handler.
#[verifier::external_body]
fn table_new() -> (table: HandlerTable<1024>)
    ensures
        handler_table_contents(table).dom() =~= Set::empty(),
{
    HandlerTable::new()
}

/// `HandlerTable::register_handler`: puts `handler` into the slot of `idx`
/// if the table has such a slot and it is empty, and says whether it did.
#[verifier::external_body]
fn table_register(table: &mut HandlerTable<1024>, idx: usize, handler: IrqHandler) -> (ok: bool)
    ensures
        ok == (idx < 1024 && !handler_table_contents(*old(table)).contains_key(idx)),
        handler_table_contents(*final(table)) == if ok {
            handler_table_contents(*old(table)).insert(idx, handler)
        } else {
            handler_table_contents(*old(table))
        },
{
    table.register_handler(idx, handler.entry)
}

/// `HandlerTable::unregister_handler`: empties the slot of `idx` and returns
/// the handler that was in it.
#[verifier::external_body]
fn table_unregister(table: &mut HandlerTable<1024>, idx: usize) -> (prev: Option<IrqHandler>)
    ensures
        prev == if idx < 1024 && handler_table_contents(*old(table)).contains_key(idx) {
            Some(handler_table_contents(*old(table))[idx])
        } else {
            None
        },
        handler_table_contents(*final(table)) == if idx < 1024 {
            handler_table_contents(*old(table)).remove(idx)
        } else {
            handler_table_contents(*old(table))
        },
{
    match table.unregister_handler(idx) {
        Some(entry) => Some(IrqHandler { entry }),
        None => None,
    }
}

/// `HandlerTable::handle`: runs the handler in the slot of `idx`, if there
/// is one, and says whether there was.
#[verifier::external_body]
fn table_handle(table: &HandlerTable<1024>, idx: usize) -> (handled: bool)
    ensures
        handled == (idx < 1024 && handler_table_contents(*table).contains_key(idx)),
{
    table.handle(idx)
}

/// Mathematical state of an [`IrqCap`].
pub struct IrqState {
    /// Whether interrupt lines may be bound at all.
    pub enable: bool,
    /// The notification that all lines are delivered through.
    pub global_notify: u64,
    /// The handler capability of each bound line.
    pub irq_handlers: Map<usize, u64>,
    /// The badged notification of each bound line.
    pub notifications: Map<usize, u64>,
}

/// The capabilities behind the interrupt lines.
pub struct IrqCap {
    enable: bool,
    global_notify: u64,
    irq_handlers: BTreeMap<usize, u64>,
    notifications: BTreeMap<usize, u64>,
}

impl View for IrqCap {
    type V = IrqState;

    closed spec fn view(&self) -> IrqState {
        IrqState {
            enable: self.enable,
            global_notify: self.global_notify,
            irq_handlers: self.irq_handlers@,
            notifications: self.notifications@,
        }
    }
}

/// Why a line could not be bound.
#[derive(Clone, Copy, Debug, PartialEq, Eq, Structural)]
pub enum IrqError {
    /// The kernel refused a call.
    Kernel(KernelError),
    /// The slot pool answered without a slot.
    MissingCapability,
}

/// What the binding of a line waits for.
#[derive(Clone, Copy, Debug, PartialEq, Eq, Structural)]
pub enum IrqStage {
    /// A slot for the badged notification.
    NotifySlot,
    /// The badged notification.
    Mint,
    /// A slot for the handler capability.
    HandlerSlot,
    /// The handler capability from the interrupt controller.
    Control,
    /// The handler being tied to the notification.
    Bind,
    /// The first acknowledgment, after which interrupts arrive.
    Ack,
}

/// The binding of one interrupt line.
#[derive(Clone, Copy, Debug, PartialEq, Eq, Structural)]
pub struct IrqSetup {
    /// The number of the line, which is also its badge.
    pub irq: usize,
    /// The notification that the badged one is minted from.
    pub global_notify: u64,
    /// The badged notification; zero until its slot is known.
    pub notification: u64,
    /// The handler capability; zero until its slot is known.
    pub handler: u64,
    /// What the binding waits for.
    pub stage: IrqStage,
}

/// How the binding of a line goes on after a reply.
#[derive(Clone, Copy, Debug, PartialEq, Eq, Structural)]
pub enum IrqStep {
    /// Perform the call and come back with its reply.
    Call(IrqSetup, KernelCall),
    /// The line is bound.
    Bound,
    /// The binding was given up.
    Failed(IrqError),
}

impl IrqSetup {
    /// The call that the binding waits for.
    pub open spec fn call(self) -> KernelCall {
        match self.stage {
            IrqStage::NotifySlot | IrqStage::HandlerSlot => KernelCall::AllocSlot,
            IrqStage::Mint => KernelCall::MintNotification {
                src: self.global_notify,
                dest: self.notification,
                badge: self.irq as u64,
            },
            IrqStage::Control => KernelCall::RegisterIrq {
                irq: self.irq as u64,
                handler: self.handler,
            },
            IrqStage::Bind => KernelCall::SetIrqNotification {
                handler: self.handler,
                notification: self.notification,
            },
            IrqStage::Ack => KernelCall::AckIrq { handler: self.handler },
        }
    }

    /// The binding moves on to `stage` and asks for the call of that stage.
    pub open spec fn proceed(self, stage: IrqStage) -> IrqStep {
        let after = IrqSetup { stage, ..self };
        IrqStep::Call(after, after.call())
    }

    /// How the binding goes on after `reply`.
    pub open spec fn next(self, reply: KernelReply) -> IrqStep {
        match reply {
            KernelReply::Failed(e) => IrqStep::Failed(IrqError::Kernel(e)),
            _ => match self.stage {
                IrqStage::NotifySlot => match reply.value() {
                    Some(slot) => IrqSetup { notification: slot, ..self }.proceed(IrqStage::Mint),
                    None => IrqStep::Failed(IrqError::MissingCapability),
                },
                IrqStage::Mint => self.proceed(IrqStage::HandlerSlot),
                IrqStage::HandlerSlot => match reply.value() {
                    Some(slot) => IrqSetup { handler: slot, ..self }.proceed(IrqStage::Control),
                    None => IrqStep::Failed(IrqError::MissingCapability),
                },
                IrqStage::Control => self.proceed(IrqStage::Bind),
                IrqStage::Bind => self.proceed(IrqStage::Ack),
                IrqStage::Ack => IrqStep::Bound,
            },
        }
    }

    /// What a step does to the capabilities that are on record: the badged
    /// notification is recorded as soon as it is minted, the handler
    /// capability once it was acknowledged.
    pub open spec fn records(self, state: IrqState, reply: KernelReply) -> IrqState {
        if reply.error() is Some {
            state
        } else {
            match self.stage {
                IrqStage::Mint => IrqState {
                    notifications: state.notifications.insert(self.irq, self.notification),
                    ..state
                },
                IrqStage::Ack => IrqState {
                    irq_handlers: state.irq_handlers.insert(self.irq, self.handler),
                    ..state
                },
                _ => state,
            }
        }
    }

    /// The call of the stage that the binding is in, computed.
    fn pending(&self) -> (call: KernelCall)
        ensures
            call == self.call(),
    {
        match self.stage {
            IrqStage::NotifySlot | IrqStage::HandlerSlot => KernelCall::AllocSlot,
            IrqStage::Mint => KernelCall::MintNotification {
                src: self.global_notify,
                dest: self.notification,
                badge: self.irq as u64,
            },
            IrqStage::Control => KernelCall::RegisterIrq {
                irq: self.irq as u64,
                handler: self.handler,
            },
            IrqStage::Bind => KernelCall::SetIrqNotification {
                handler: self.handler,
                notification: self.notification,
            },
            IrqStage::Ack => KernelCall::AckIrq { handler: self.handler },
        }
    }

    /// Moves on to `stage`.
    fn advance(self, stage: IrqStage) -> (step: IrqStep)
        ensures
            step == self.proceed(stage),
    {
        let after = IrqSetup { stage, ..self };
        let call = after.pending();
        IrqStep::Call(after, call)
    }

    /// Goes on with the reply to the call that the binding waited for, and
    /// puts on record in `caps` what the line has got.
    pub fn step(self, caps: &mut IrqCap, reply: KernelReply) -> (step: IrqStep)
        ensures
            step == self.next(reply),
            final(caps)@ == self.records(old(caps)@, reply),
    {
        match reply {
            KernelReply::Failed(e) => IrqStep::Failed(IrqError::Kernel(e)),
            KernelReply::Value(slot) => match self.stage {
                IrqStage::NotifySlot => IrqSetup { notification: slot, ..self }.advance(
                    IrqStage::Mint,
                ),
                IrqStage::HandlerSlot => IrqSetup { handler: slot, ..self }.advance(
                    IrqStage::Control,
                ),
                _ => self.settle(caps),
            },
            _ => match self.stage {
                IrqStage::NotifySlot | IrqStage::HandlerSlot => IrqStep::Failed(
                    IrqError::MissingCapability,
                ),
                _ => self.settle(caps),
            },
        }
    }

    /// The step of a stage that only has to succeed, after it did.
    fn settle(self, caps: &mut IrqCap) -> (step: IrqStep)
        requires
            !(self.stage is NotifySlot),
            !(self.stage is HandlerSlot),
        ensures
            step == self.next(KernelReply::Done),
            final(caps)@ == self.records(old(caps)@, KernelReply::Done),
    {
        match self.stage {
            IrqStage::Mint => {
                caps.record_notification(self.irq, self.notification);
                self.advance(IrqStage::HandlerSlot)
            },
            IrqStage::Control => self.advance(IrqStage::Bind),
            IrqStage::Bind => self.advance(IrqStage::Ack),
            IrqStage::Ack => {
                caps.record_handler(self.irq, self.handler);
                IrqStep::Bound
            },
            _ => IrqStep::Failed(IrqError::MissingCapability),
        }
    }
}

impl IrqCap {
    /// Nothing is bound, and nothing may be bound yet.
    pub fn new() -> (caps: Self)
        ensures
            caps@ == (IrqState {
                enable: false,
                global_notify: 0,
                irq_handlers: Map::empty(),
                notifications: Map::empty(),
            }),
    {
        IrqCap {
            enable: false,
            global_notify: 0,
            irq_handlers: BTreeMap::new(),
            notifications: BTreeMap::new(),
        }
    }

    /// Takes `notification` as the one that all lines are delivered through,
    /// allows lines to be bound, and returns the call that binds the
    /// notification to the control thread.
    pub fn init(&mut self, notification: u64) -> (call: KernelCall)
        ensures
            final(self)@ == (IrqState { enable: true, global_notify: notification, ..old(self)@ }),
            call == (KernelCall::BindNotification { notification }),
    {
        self.global_notify = notification;
        self.enable = true;
        KernelCall::BindNotification { notification }
    }

    /// Allows lines to be bound.
    pub fn enable_irqs(&mut self)
        ensures
            final(self)@ == (IrqState { enable: true, ..old(self)@ }),
    {
        self.enable = true;
    }

    /// Forbids lines to be bound. Lines that are bound stay bound.
    pub fn disable_irqs(&mut self)
        ensures
            final(self)@ == (IrqState { enable: false, ..old(self)@ }),
    {
        self.enable = false;
    }

    /// Whether lines may be bound.
    pub fn irqs_enabled(&self) -> (enabled: bool)
        ensures
            enabled == self@.enable,
    {
        self.enable
    }

    /// Begins to bind the interrupt line `idx`.
    pub fn register_sel4_irq(&self, idx: usize) -> (begun: (IrqSetup, KernelCall))
        ensures
            begun.0 == (IrqSetup {
                irq: idx,
                global_notify: self@.global_notify,
                notification: 0,
                handler: 0,
                stage: IrqStage::NotifySlot,
            }),
            begun.1 == KernelCall::AllocSlot,
    {
        (
            IrqSetup {
                irq: idx,
                global_notify: self.global_notify,
                notification: 0,
                handler: 0,
                stage: IrqStage::NotifySlot,
            },
            KernelCall::AllocSlot,
        )
    }

    /// Forgets the capabilities of the line `idx`.
    pub fn remove_sel4_irq(&mut self, idx: usize)
        ensures
            final(self)@ == (IrqState {
                irq_handlers: old(self)@.irq_handlers.remove(idx),
                notifications: old(self)@.notifications.remove(idx),
                ..old(self)@
            }),
    {
        broadcast use vstd::laws_cmp::group_laws_cmp;
        broadcast use vstd::std_specs::btree::group_btree_axioms;

        self.notifications.remove(&idx);
        self.irq_handlers.remove(&idx);
    }

    /// The call that acknowledges the line `idx`, if the line is bound.
    pub fn ack_irq(&self, idx: usize) -> (call: Option<KernelCall>)
        ensures
            call == spec_ack_irq(self@, idx),
    {
        broadcast use vstd::laws_cmp::group_laws_cmp;
        broadcast use vstd::std_specs::btree::group_btree_axioms;

        match self.irq_handlers.get(&idx) {
            Some(handler) => Some(KernelCall::AckIrq { handler: *handler }),
            None => None,
        }
    }

    fn record_notification(&mut self, idx: usize, notification: u64)
        ensures
            final(self)@ == (IrqState {
                notifications: old(self)@.notifications.insert(idx, notification),
                ..old(self)@
            }),
    {
        broadcast use vstd::laws_cmp::group_laws_cmp;

        self.notifications.insert(idx, notification);
    }

    fn record_handler(&mut self, idx: usize, handler: u64)
        ensures
            final(self)@ == (IrqState {
                irq_handlers: old(self)@.irq_handlers.insert(idx, handler),
                ..old(self)@
            }),
    {
        broadcast use vstd::laws_cmp::group_laws_cmp;

        self.irq_handlers.insert(idx, handler);
    }
}

/// The acknowledgment that a line is owed: the call on its handler
/// capability if the line is bound, nothing otherwise.
pub open spec fn spec_ack_irq(state: IrqState, idx: usize) -> Option<KernelCall> {
    if state.irq_handlers.contains_key(idx) {
        Some(KernelCall::AckIrq { handler: state.irq_handlers[idx] })
    } else {
        None
    }
}

/// Mathematical state of the interrupt registry.
pub struct RegistryState {
    /// The handler of each line that has one.
    pub handlers: Map<usize, IrqHandler>,
    /// The capabilities behind the lines.
    pub caps: IrqState,
}

/// What a request to register a handler leads to.
#[derive(Clone, Copy, Debug, PartialEq, Eq, Structural)]
pub enum Registration {
    /// The handler is in the table, and the line has to be bound by the
    /// binding given here, starting with its call. A binding that fails must
    /// end the process.
    Installed(IrqSetup, KernelCall),
    /// The handler is in the table, but lines may not be bound: the line
    /// stays as it is.
    Unbound,
    /// Nothing was changed: the line has no slot in the table, or it has a
    /// handler already.
    Rejected,
}

impl Registration {
    /// Whether the handler was taken.
    pub open spec fn spec_accepted(self) -> bool {
        !(self is Rejected)
    }

    /// Whether the handler was taken.
    #[verifier::when_used_as_spec(spec_accepted)]
    pub fn accepted(self) -> (yes: bool)
        ensures
            yes == self.spec_accepted(),
    {
        match self {
            Registration::Rejected => false,
            _ => true,
        }
    }
}

/// What a request to enable or disable a line leads to.
#[derive(Clone, Copy, Debug, PartialEq, Eq, Structural)]
pub enum EnableStep {
    /// The line has to be bound by the binding given here, starting with its
    /// call. A binding that fails must end the process.
    Bind(IrqSetup, KernelCall),
    /// Lines may not be bound: nothing happens.
    NotPermitted,
    /// A line cannot be disabled: nothing happens, and the request is worth
    /// a warning.
    Unsupported,
}

/// What an interrupt led to.
#[derive(Clone, Copy, Debug, PartialEq, Eq, Structural)]
pub struct IrqDispatch {
    /// Whether a handler ran. An interrupt without a handler is worth a
    /// warning, nothing more.
    pub handled: bool,
    /// The acknowledgment to make, whether or not a handler ran.
    pub ack: Option<KernelCall>,
}

impl RegistryState {
    /// Only lines that have a slot in the table have a handler.
    pub open spec fn wf(self) -> bool {
        forall|k: usize| #[trigger] self.handlers.contains_key(k) ==> k < MAX_IRQ_COUNT
    }

    /// Whether a handler for `irq` would be accepted: the line has a slot in
    /// the table, and the slot is empty.
    pub open spec fn accepts(self, irq: usize) -> bool {
        irq < MAX_IRQ_COUNT && !self.handlers.contains_key(irq)
    }

    /// What a request to register a handler for `irq` leads to.
    pub open spec fn registration(self, irq: usize) -> Registration {
        if !self.accepts(irq) {
            Registration::Rejected
        } else if self.caps.enable {
            Registration::Installed(self.binding(irq), KernelCall::AllocSlot)
        } else {
            Registration::Unbound
        }
    }

    /// The binding that registering or enabling `irq` begins with.
    pub open spec fn binding(self, irq: usize) -> IrqSetup {
        IrqSetup {
            irq,
            global_notify: self.caps.global_notify,
            notification: 0,
            handler: 0,
            stage: IrqStage::NotifySlot,
        }
    }

    /// The registry after a request to register `handler` for `irq`.
    pub open spec fn register(self, irq: usize, handler: IrqHandler) -> RegistryState {
        if self.accepts(irq) {
            RegistryState { handlers: self.handlers.insert(irq, handler), ..self }
        } else {
            self
        }
    }

    /// The registry after a request to unregister `irq`.
    pub open spec fn unregister(self, irq: usize) -> RegistryState {
        RegistryState {
            handlers: self.handlers.remove(irq),
            caps: IrqState {
                irq_handlers: self.caps.irq_handlers.remove(irq),
                notifications: self.caps.notifications.remove(irq),
                ..self.caps
            },
        }
    }

    /// What the interrupt with the badge `badge` leads to.
    pub open spec fn dispatch(self, badge: usize) -> IrqDispatch {
        IrqDispatch {
            handled: self.handlers.contains_key(badge),
            ack: spec_ack_irq(self.caps, badge),
        }
    }
}

/// The interrupt registry: the handlers, and the capabilities behind the
/// lines.
pub struct IrqIfImpl {
    table: HandlerTable<1024>,
    caps: IrqCap,
}

impl View for IrqIfImpl {
    type V = RegistryState;

    closed spec fn view(&self) -> RegistryState {
        RegistryState { handlers: handler_table_contents(self.table), caps: self.caps@ }
    }
}

impl IrqIfImpl {
    /// A registry without handlers, in which nothing is bound and nothing
    /// may be bound yet.
    pub fn new() -> (registry: Self)
        ensures
            registry@.wf(),
            registry@.handlers.dom() =~= Set::<usize>::empty(),
            registry@.caps == (IrqState {
                enable: false,
                global_notify: 0,
                irq_handlers: Map::empty(),
                notifications: Map::empty(),
            }),
    {
        IrqIfImpl { table: table_new(), caps: IrqCap::new() }
    }

    /// The capabilities behind the lines.
    pub fn caps(&self) -> (caps: &IrqCap)
        ensures
            caps@ == self@.caps,
    {
        &self.caps
    }

    /// Enables the line `irq` by binding it, where lines may be bound. A
    /// line cannot be disabled.
    pub fn set_enable(&self, irq: usize, enabled: bool) -> (step: EnableStep)
        ensures
            step == if !enabled {
                EnableStep::Unsupported
            } else if self@.caps.enable {
                EnableStep::Bind(self@.binding(irq), KernelCall::AllocSlot)
            } else {
                EnableStep::NotPermitted
            },
    {
        if !enabled {
            EnableStep::Unsupported
        } else if self.caps.irqs_enabled() {
            let (setup, call) = self.caps.register_sel4_irq(irq);
            EnableStep::Bind(setup, call)
        } else {
            EnableStep::NotPermitted
        }
    }

    /// Registers `handler` for the line `irq` and, where lines may be bound,
    /// begins to bind the line. The request is rejected, and changes
    /// nothing, where the line has no slot in the table and where the line
    /// has a handler already.
    pub fn register(&mut self, irq: usize, handler: IrqHandler) -> (outcome: Registration)
        requires
            old(self)@.wf(),
        ensures
            final(self)@.wf(),
            final(self)@ == old(self)@.register(irq, handler),
            outcome == old(self)@.registration(irq),
    {
        if !table_register(&mut self.table, irq, handler) {
            Registration::Rejected
        } else if self.caps.irqs_enabled() {
            let (setup, call) = self.caps.register_sel4_irq(irq);
            Registration::Installed(setup, call)
        } else {
            Registration::Unbound
        }
    }

    /// Unregisters the line `irq`: forgets its capabilities and returns the
    /// handler that it had.
    pub fn unregister(&mut self, irq: usize) -> (prev: Option<IrqHandler>)
        requires
            old(self)@.wf(),
        ensures
            final(self)@.wf(),
            final(self)@ == old(self)@.unregister(irq),
            prev == if old(self)@.handlers.contains_key(irq) {
                Some(old(self)@.handlers[irq])
            } else {
                None
            },
    {
        self.caps.remove_sel4_irq(irq);
        let prev = table_unregister(&mut self.table, irq);
        assert(final(self)@.handlers =~= old(self)@.handlers.remove(irq));
        prev
    }

    /// Runs the handler of the line `irq`, and says whether there was one.
    pub fn handle(&self, irq: usize) -> (handled: bool)
        requires
            self@.wf(),
        ensures
            handled == self@.handlers.contains_key(irq),
    {
        table_handle(&self.table, irq)
    }

    /// Goes on with the binding of a line, and puts on record what the line
    /// has got.
    pub fn bind_step(&mut self, setup: IrqSetup, reply: KernelReply) -> (step: IrqStep)
        ensures
            step == setup.next(reply),
            final(self)@.handlers == old(self)@.handlers,
            final(self)@.caps == setup.records(old(self)@.caps, reply),
    {
        setup.step(&mut self.caps, reply)
    }
}

/// A registry for the early stage of the boot: nothing may be bound yet.
pub fn init_early() -> (registry: IrqIfImpl)
    ensures
        registry@.wf(),
        registry@.handlers.dom() =~= Set::<usize>::empty(),
        registry@.caps == (IrqState {
            enable: false,
            global_notify: 0,
            irq_handlers: Map::empty(),
            notifications: Map::empty(),
        }),
{
    IrqIfImpl::new()
}

/// The later stage of the boot, once the control thread exists: takes the
/// notification that all lines are delivered through, allows lines to be
/// bound, and returns the call that binds it to the control thread. That
/// call must not fail.
pub fn init_later(registry: &mut IrqIfImpl, notification: u64) -> (call: KernelCall)
    ensures
        final(registry)@.handlers == old(registry)@.handlers,
        final(registry)@.caps == (IrqState {
            enable: true,
            global_notify: notification,
            ..old(registry)@.caps
        }),
        call == (KernelCall::BindNotification { notification }),
{
    registry.caps.init(notification)
}

/// Dispatches the interrupt that arrived with the badge `badge`: runs the
/// handler of that line, if it has one, and returns the acknowledgment to
/// make afterwards, which is owed whether or not a handler ran.
pub fn handle_irq(registry: &IrqIfImpl, badge: usize) -> (done: IrqDispatch)
    requires
        registry@.wf(),
    ensures
        done == registry@.dispatch(badge),
{
    let handled = registry.handle(badge);
    IrqDispatch { handled, ack: registry.caps.ack_irq(badge) }
}

/// Whether lines may be bound.
pub fn irqs_enabled(registry: &IrqIfImpl) -> (enabled: bool)
    ensures
        enabled == registry@.caps.enable,
{
    registry.caps.irqs_enabled()
}

/// Allows lines to be bound.
pub fn enable_irqs(registry: &mut IrqIfImpl)
    ensures
        final(registry)@ == (RegistryState {
            caps: IrqState { enable: true, ..old(registry)@.caps },
            ..old(registry)@
        }),
{
    registry.caps.enable_irqs();
}

/// Forbids lines to be bound. Lines that are bound stay bound.
pub fn disable_irqs(registry: &mut IrqIfImpl)
    ensures
        final(registry)@ == (RegistryState {
            caps: IrqState { enable: false, ..old(registry)@.caps },
            ..old(registry)@
        }),
{
    registry.caps.disable_irqs();
}

/// A binding goes through its six calls in a fixed order, keeps the line and
/// what it has got so far, and fails exactly when a reply reports an error or
/// the slot pool answers without a slot.
pub proof fn lemma_binding_order(setup: IrqSetup, reply: KernelReply)
    ensures
        setup.next(reply) matches IrqStep::Call(after, call) ==> {
            &&& call == after.call()
            &&& after.irq == setup.irq
            &&& after.global_notify == setup.global_notify
            &&& after.stage == match setup.stage {
                IrqStage::NotifySlot => IrqStage::Mint,
                IrqStage::Mint => IrqStage::HandlerSlot,
                IrqStage::HandlerSlot => IrqStage::Control,
                IrqStage::Control => IrqStage::Bind,
                _ => IrqStage::Ack,
            }
            &&& !(setup.stage is NotifySlot) ==> after.notification == setup.notification
            &&& !(setup.stage is HandlerSlot) ==> after.handler == setup.handler
        },
        setup.next(reply) is Bound <==> setup.stage is Ack && reply.error() is None,
        setup.next(reply) is Failed <==> reply.error() is Some || ((setup.stage is NotifySlot
            || setup.stage is HandlerSlot) && reply.value() is None),
{
}

/// A line whose binding has ended is on record with both capabilities of
/// the binding, if the badged notification was recorded when it was minted.
pub proof fn lemma_bound_line_is_on_record(setup: IrqSetup, state: IrqState, reply: KernelReply)
    requires
        setup.next(reply) is Bound,
        state.notifications.contains_key(setup.irq),
        state.notifications[setup.irq] == setup.notification,
    ensures
        setup.records(state, reply).irq_handlers.contains_key(setup.irq),
        setup.records(state, reply).irq_handlers[setup.irq] == setup.handler,
        setup.records(state, reply).notifications.contains_key(setup.irq),
        setup.records(state, reply).notifications[setup.irq] == setup.notification,
        spec_ack_irq(setup.records(state, reply), setup.irq) == Some(
            KernelCall::AckIrq { handler: setup.handler },
        ),
{
}

/// A handler that was registered runs when its line's badge is dispatched,
/// and once the line is bound the dispatch asks for one acknowledgment, on
/// the handler capability of that very line. The badge of a line without a
/// handler runs nothing, and a line that is not bound is owed no
/// acknowledgment; neither is an error.
pub proof fn lemma_dispatch_after_register(
    registry: RegistryState,
    irq: usize,
    handler: IrqHandler,
    badge: usize,
)
    requires
        registry.wf(),
    ensures
        registry.register(irq, handler).wf(),
        registry.registration(irq).accepted() <==> registry.accepts(irq),
        registry.registration(irq) is Installed <==> registry.accepts(irq) && registry.caps.enable,
        registry.accepts(irq) ==> registry.register(irq, handler).dispatch(irq).handled
            && registry.register(irq, handler).handlers[irq] == handler,
        registry.caps.irq_handlers.contains_key(badge) ==> registry.dispatch(badge).ack == Some(
            KernelCall::AckIrq { handler: registry.caps.irq_handlers[badge] },
        ),
        !registry.handlers.contains_key(badge) ==> !registry.dispatch(badge).handled,
        !registry.caps.irq_handlers.contains_key(badge) ==> registry.dispatch(badge).ack is None,
        badge != irq ==> registry.register(irq, handler).dispatch(badge) == registry.dispatch(
            badge,
        ),
{
}

/// A line that has a handler accepts no second one: the request is rejected
/// and the registry, the first handler included, stays as it was. Once the
/// line is unregistered it accepts a handler again.
pub proof fn lemma_second_registration_is_rejected(
    registry: RegistryState,
    irq: usize,
    first: IrqHandler,
    second: IrqHandler,
)
    requires
        registry.wf(),
        registry.accepts(irq),
    ensures
        registry.register(irq, first).registration(irq) is Rejected,
        registry.register(irq, first).register(irq, second) == registry.register(irq, first),
        registry.register(irq, first).handlers[irq] == first,
        registry.register(irq, first).unregister(irq).accepts(irq),
{
}

} // verus!
