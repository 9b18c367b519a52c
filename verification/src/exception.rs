//! Exception classification: the pure, total mapping from a hardware trap
//! description to a POSIX signal, with the one architecture-conditional
//! retry path for emulated unaligned accesses.

use vstd::prelude::*;
use crate::signal::Signo;

verus! {

/// The hardware exception kinds this core distinguishes. Everything the
/// hardware reports beyond these is `Other`.
#[derive(Debug, Clone, Copy, PartialEq, Eq, Structural)]
pub enum ExceptionKind {
    Misaligned,
    Breakpoint,
    IllegalInstruction,
    Other,
}

/// What the classifier decides: resume user mode without a signal (the
/// emulated-instruction retry path), or deliver a signal through the normal
/// per-thread path.
#[derive(Debug, Clone, Copy, PartialEq, Eq, Structural)]
pub enum ExceptionOutcome {
    Retry,
    Deliver(Signo),
}

/// The classification policy. `emulated` reports whether an
/// architecture-specific in-place emulation of the faulting unaligned
/// access succeeded; on architectures without such support it is always
/// false, and a misaligned access falls through to `SIGBUS`. The mapping is
/// deliberately coarse; unknown kinds fall back to `SIGTRAP`.
pub open spec fn classify_exception_spec(kind: ExceptionKind, emulated: bool) -> ExceptionOutcome {
    match kind {
        ExceptionKind::Misaligned => if emulated {
            ExceptionOutcome::Retry
        } else {
            ExceptionOutcome::Deliver(Signo::SIGBUS)
        },
        ExceptionKind::Breakpoint => ExceptionOutcome::Deliver(Signo::SIGTRAP),
        ExceptionKind::IllegalInstruction => ExceptionOutcome::Deliver(Signo::SIGILL),
        ExceptionKind::Other => ExceptionOutcome::Deliver(Signo::SIGTRAP),
    }
}

/// Classify one hardware exception.
pub fn classify_exception(kind: ExceptionKind, emulated: bool) -> (r: ExceptionOutcome)
    ensures
        r == classify_exception_spec(kind, emulated),
{
    match kind {
        ExceptionKind::Misaligned => if emulated {
            ExceptionOutcome::Retry
        } else {
            ExceptionOutcome::Deliver(Signo::SIGBUS)
        },
        ExceptionKind::Breakpoint => ExceptionOutcome::Deliver(Signo::SIGTRAP),
        ExceptionKind::IllegalInstruction => ExceptionOutcome::Deliver(Signo::SIGILL),
        ExceptionKind::Other => ExceptionOutcome::Deliver(Signo::SIGTRAP),
    }
}

/// Classification is pure and total: every defined exception kind maps to
/// exactly one signal or to the retry path, the retry path is taken exactly
/// for a successfully emulated misaligned access, and unknown kinds map to
/// `SIGTRAP`.
pub proof fn lemma_classification_total(kind: ExceptionKind, emulated: bool)
    ensures
        classify_exception_spec(kind, emulated) is Retry <==> (kind is Misaligned && emulated),
        kind is Misaligned && !emulated ==> classify_exception_spec(kind, emulated)
            == ExceptionOutcome::Deliver(Signo::SIGBUS),
        kind is Breakpoint ==> classify_exception_spec(kind, emulated)
            == ExceptionOutcome::Deliver(Signo::SIGTRAP),
        kind is IllegalInstruction ==> classify_exception_spec(kind, emulated)
            == ExceptionOutcome::Deliver(Signo::SIGILL),
        kind is Other ==> classify_exception_spec(kind, emulated) == ExceptionOutcome::Deliver(
            Signo::SIGTRAP,
        ),
{
}

} // verus!
