//! Resource lifecycle of an operating-system personality that runs as an
//! unprivileged task on a capability-based microkernel.
//!
//! The crate owns the bookkeeping and the protocols: which kernel objects a
//! task is made of and in which order they are requested, configured and torn
//! down, which virtual pages and untyped units are free, how addresses
//! translate, and which interrupt lines are bound. It never talks to the
//! kernel itself. Every protocol is a state machine that hands out one
//! [`kernel::KernelCall`] at a time and is advanced with the
//! [`kernel::KernelReply`] that the embedding program obtained for it.

pub mod console;
pub mod frame;
pub mod ipc;
pub mod irq;
pub mod kernel;
pub mod mapping;
pub mod mem;
pub mod task;
pub mod time;
pub mod untyped;
