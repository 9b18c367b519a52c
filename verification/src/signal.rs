//! Signal numbers and signal descriptors used by the trampoline and the
//! termination protocol, together with the per-thread blocking mask.

use vstd::prelude::*;

verus! {

/// The POSIX signals this core ever produces or routes.
#[derive(Debug, Clone, Copy, PartialEq, Eq, Structural)]
pub enum Signo {
    SIGILL,
    SIGTRAP,
    SIGBUS,
    SIGKILL,
    SIGSEGV,
    SIGCHLD,
}

/// The Linux numeric value of a signal.
pub open spec fn signo_num_spec(s: Signo) -> u32 {
    match s {
        Signo::SIGILL => 4,
        Signo::SIGTRAP => 5,
        Signo::SIGBUS => 7,
        Signo::SIGKILL => 9,
        Signo::SIGSEGV => 11,
        Signo::SIGCHLD => 17,
    }
}

impl Signo {
    /// The Linux numeric value of this signal.
    pub fn number(self) -> (r: u32)
        ensures
            r == signo_num_spec(self),
    {
        match self {
            Signo::SIGILL => 4,
            Signo::SIGTRAP => 5,
            Signo::SIGBUS => 7,
            Signo::SIGKILL => 9,
            Signo::SIGSEGV => 11,
            Signo::SIGCHLD => 17,
        }
    }
}

/// An immutable signal descriptor: number plus origin. Constructed once per
/// delivery event and never mutated afterwards.
#[derive(Debug, Clone, Copy, PartialEq, Eq, Structural)]
pub struct SignalInfo {
    pub signo: Signo,
    pub from_kernel: bool,
}

impl SignalInfo {
    /// A kernel-originated descriptor for `signo`.
    pub fn new_kernel(signo: Signo) -> (r: SignalInfo)
        ensures
            r == (SignalInfo { signo, from_kernel: true }),
    {
        SignalInfo { signo, from_kernel: true }
    }
}

/// Whether `mask` blocks signal `s` (bit `number - 1`, as in the Linux ABI).
pub open spec fn signal_blocked_spec(mask: u64, s: Signo) -> bool {
    mask & (1u64 << (signo_num_spec(s) - 1) as u64) != 0
}

/// Whether `mask` blocks signal `s`.
pub fn signal_blocked(mask: u64, s: Signo) -> (r: bool)
    ensures
        r == signal_blocked_spec(mask, s),
{
    let n = s.number();
    mask & (1u64 << ((n - 1) as u64)) != 0
}

/// `mask` with signal `s` added to the blocked set.
pub fn block_signal(mask: u64, s: Signo) -> (r: u64)
    ensures
        r == mask | (1u64 << (signo_num_spec(s) - 1) as u64),
{
    let n = s.number();
    mask | (1u64 << ((n - 1) as u64))
}

} // verus!
