//! Kernel-side core of a user-mode execution trampoline: exception
//! classification, the robust-futex-list teardown protocol, and the
//! thread/process termination state machine.
//!
//! User memory, the futex table and the process/thread registry are modeled
//! as plain values so that every decision this core makes is stated and
//! proved; the kernel environment (scheduler, address space, user-mode
//! entry) drives these functions and performs the effects they report.

use vstd::prelude::*;

pub mod amap;
pub mod exception;
pub mod exit;
pub mod futex;
pub mod mem;
pub mod process;
pub mod robust;
pub mod signal;
pub mod trampoline;

verus! {

/// Error classes surfaced by this core.
///
/// `InvalidAddress`: a user-memory read or write targeted an unmapped word.
/// `InvalidInput`: a computed user address overflowed.
/// `ListTooLong`: robust-list traversal exceeded its defensive bound.
#[derive(Debug, Clone, Copy, PartialEq, Eq, Structural)]
pub enum KernelError {
    InvalidAddress,
    InvalidInput,
    ListTooLong,
}

} // verus!
