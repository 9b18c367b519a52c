//! The user-mode trampoline's decisions: task creation, and the dispatch
//! on why control returned from user mode to the kernel. Entering user
//! mode, resolving page faults, running syscalls and draining signals are
//! the kernel environment's work; it reports their outcomes to
//! `handle_return`, which decides what happens to the process model and
//! what the environment must do next.

use vstd::prelude::*;
use crate::exception::{
    ExceptionKind, ExceptionOutcome, classify_exception, classify_exception_spec,
};
use crate::exit::{FatalOutcome, raise_fatal_post, raise_signal_fatal, thread_signaled};
use crate::futex::{FutexRecord, FutexTable};
use crate::mem::{UserMem, vm_write_word};
use crate::process::{
    Pid, ProcessModel, ThreadModel, find_tid, lemma_find_tid, same_proc_flags,
};
use crate::signal::{SignalInfo, Signo, signal_blocked, signal_blocked_spec};

verus! {

/// Why control returned from user mode to the kernel. A page fault carries
/// the faulting address and its access flags (opaque to this core, handed
/// through to the fault handler); an exception carries its classified kind.
/// `Unknown` stands for any reason outside the defined set.
#[derive(Debug, Clone, Copy, PartialEq, Eq, Structural)]
pub enum ReturnReason {
    Syscall,
    PageFault(u64, u64),
    Interrupt,
    Exception(ExceptionKind),
    Unknown,
}

/// What one trampoline iteration decided and did.
pub enum IterationOutcome {
    /// Hand the saved context to the syscall layer.
    Syscall,
    /// The page fault was resolved; resume user mode.
    FaultResolved,
    /// An interrupt; nothing to do beyond the usual signal draining.
    Ignored,
    /// The emulated instruction succeeded; resume without a signal.
    ExceptionRetried,
    /// An exception's signal was queued on the current thread through the
    /// normal per-thread path; `interrupted` reports whether the thread was
    /// marked runnable because the signal is not blocked.
    SignalQueued { signo: Signo, interrupted: bool },
    /// A fatal `SIGSEGV` was raised (unresolvable fault or unexpected
    /// return reason).
    FatalRaised(FatalOutcome),
}

/// The kernel-origin `SIGSEGV` descriptor used on the fatal paths.
pub open spec fn segv_signal() -> SignalInfo {
    SignalInfo { signo: Signo::SIGSEGV, from_kernel: true }
}

/// The return reasons after which the trampoline re-enters user mode
/// without touching any exit state: everything except an unresolvable page
/// fault and an unexpected reason.
pub open spec fn benign_reason(reason: ReturnReason, fault_fixed: bool) -> bool {
    match reason {
        ReturnReason::Syscall => true,
        ReturnReason::PageFault(_, _) => fault_fixed,
        ReturnReason::Interrupt => true,
        ReturnReason::Exception(_) => true,
        ReturnReason::Unknown => false,
    }
}

/// The exit-relevant state of `p1` is exactly that of `p0`: the exit and
/// group-exit flags, the exit code, and every thread's liveness and
/// pending-exit flag.
pub open spec fn exit_state_unchanged(p0: ProcessModel, p1: ProcessModel) -> bool {
    &&& p1.exited == p0.exited
    &&& p1.group_exited == p0.group_exited
    &&& p1.exit_code == p0.exit_code
    &&& p1.threads@.len() == p0.threads@.len()
    &&& forall|j: int|
        0 <= j < p0.threads@.len() ==> (#[trigger] p1.threads@[j]).alive == p0.threads@[j].alive
            && p1.threads@[j].pending_exit == p0.threads@[j].pending_exit
}

/// `b` is `a` with `sig` queued; the thread is additionally marked runnable
/// exactly when it does not block the signal.
pub open spec fn thread_queued(a: ThreadModel, b: ThreadModel, sig: SignalInfo) -> bool {
    b.tid == a.tid && b.alive == a.alive && b.pending_exit == a.pending_exit
        && b.clear_child_tid == a.clear_child_tid && b.robust_list_head == a.robust_list_head
        && b.blocked == a.blocked && b.pending@ == a.pending@.push(sig) && b.interrupted == (
    a.interrupted || !signal_blocked_spec(a.blocked, sig.signo)) && b.timer == a.timer
}

/// Full description of `handle_return`, per return reason.
pub open spec fn handle_return_post(
    p0: ProcessModel,
    m0: Map<u64, u64>,
    t0: Map<u64, FutexRecord>,
    tid: Pid,
    reason: ReturnReason,
    fault_fixed: bool,
    emulated: bool,
    p1: ProcessModel,
    m1: Map<u64, u64>,
    t1: Map<u64, FutexRecord>,
    out: IterationOutcome,
) -> bool {
    match reason {
        ReturnReason::Syscall => out is Syscall && p1 == p0 && m1 == m0 && t1 == t0,
        ReturnReason::PageFault(_, _) => if fault_fixed {
            out is FaultResolved && p1 == p0 && m1 == m0 && t1 == t0
        } else {
            match out {
                IterationOutcome::FatalRaised(fo) => raise_fatal_post(
                    p0,
                    m0,
                    t0,
                    tid,
                    segv_signal(),
                    p1,
                    m1,
                    t1,
                    fo,
                ),
                _ => false,
            }
        },
        ReturnReason::Interrupt => out is Ignored && p1 == p0 && m1 == m0 && t1 == t0,
        ReturnReason::Exception(kind) => match classify_exception_spec(kind, emulated) {
            ExceptionOutcome::Retry => out is ExceptionRetried && p1 == p0 && m1 == m0 && t1 == t0,
            ExceptionOutcome::Deliver(sg) => {
                let i = find_tid(p0.threads@, tid);
                &&& out == (IterationOutcome::SignalQueued {
                    signo: sg,
                    interrupted: !signal_blocked_spec(p0.threads@[i].blocked, sg),
                })
                &&& m1 == m0
                &&& t1 == t0
                &&& same_proc_flags(p0, p1)
                &&& p1.threads@.len() == p0.threads@.len()
                &&& thread_queued(
                    p0.threads@[i],
                    p1.threads@[i],
                    SignalInfo { signo: sg, from_kernel: true },
                )
                &&& forall|j: int|
                    0 <= j < p0.threads@.len() && j != i ==> #[trigger] p1.threads@[j]
                        == p0.threads@[j]
            },
        },
        ReturnReason::Unknown => match out {
            IterationOutcome::FatalRaised(fo) => raise_fatal_post(
                p0,
                m0,
                t0,
                tid,
                segv_signal(),
                p1,
                m1,
                t1,
                fo,
            ),
            _ => false,
        },
    }
}

/// Dispatch one return from user mode for thread `tid`.
///
/// `fault_fixed` is the address space's answer for a page fault (ignored
/// otherwise); `emulated` is whether the architecture's unaligned-access
/// emulation succeeded (ignored except for a misaligned-access exception).
/// A resolvable fault, a syscall, an interrupt and every exception leave
/// all exit state untouched; an unresolvable fault or an unexpected reason
/// raises a fatal `SIGSEGV`. An exception's signal goes through the normal
/// per-thread path so an installed handler gets a chance to run.
pub fn handle_return(
    proc: &mut ProcessModel,
    mem: &mut UserMem,
    table: &mut FutexTable,
    tid: Pid,
    reason: ReturnReason,
    fault_fixed: bool,
    emulated: bool,
) -> (out: IterationOutcome)
    requires
        old(proc).wf(),
        old(mem).wf(),
        old(table).wf(),
        find_tid(old(proc).threads@, tid) >= 0,
        old(proc).threads@[find_tid(old(proc).threads@, tid)].alive,
    ensures
        final(proc).wf(),
        final(mem).wf(),
        final(table).wf(),
        handle_return_post(
            *old(proc),
            old(mem)@,
            old(table)@,
            tid,
            reason,
            fault_fixed,
            emulated,
            *final(proc),
            final(mem)@,
            final(table)@,
            out,
        ),
        benign_reason(reason, fault_fixed) ==> exit_state_unchanged(*old(proc), *final(proc)),
{
    let ghost p0t = proc.threads@;
    match reason {
        ReturnReason::Syscall => IterationOutcome::Syscall,
        ReturnReason::PageFault(_addr, _flags) => {
            if fault_fixed {
                IterationOutcome::FaultResolved
            } else {
                let fo = raise_signal_fatal(
                    proc,
                    mem,
                    table,
                    tid,
                    SignalInfo::new_kernel(Signo::SIGSEGV),
                );
                IterationOutcome::FatalRaised(fo)
            }
        },
        ReturnReason::Interrupt => IterationOutcome::Ignored,
        ReturnReason::Exception(kind) => {
            match classify_exception(kind, emulated) {
                ExceptionOutcome::Retry => IterationOutcome::ExceptionRetried,
                ExceptionOutcome::Deliver(sg) => {
                    proof {
                        lemma_find_tid(p0t, tid);
                    }
                    let i = match proc.find(tid) {
                        Some(i) => i,
                        None => {
                            proof {
                                assert(false);
                            }
                            0
                        },
                    };
                    let delivered = !signal_blocked(proc.threads[i].blocked, sg);
                    let ghost s_before = proc.threads@;
                    let mut t = proc.threads.remove(i);
                    t.pending.push(SignalInfo::new_kernel(sg));
                    if delivered {
                        t.interrupted = true;
                    }
                    proc.threads.insert(i, t);
                    proof {
                        assert(proc.threads@ =~= s_before.update(
                            i as int,
                            proc.threads@[i as int],
                        ));
                        assert forall|k: int, l: int|
                            0 <= k < l < proc.threads@.len() implies (
                        #[trigger] proc.threads@[k]).tid != (#[trigger] proc.threads@[l]).tid by {
                            assert(proc.threads@[k].tid == p0t[k].tid);
                            assert(proc.threads@[l].tid == p0t[l].tid);
                        }
                    }
                    IterationOutcome::SignalQueued { signo: sg, interrupted: delivered }
                },
            }
        },
        ReturnReason::Unknown => {
            let fo = raise_signal_fatal(
                proc,
                mem,
                table,
                tid,
                SignalInfo::new_kernel(Signo::SIGSEGV),
            );
            IterationOutcome::FatalRaised(fo)
        },
    }
}

/// The freshly created thread `b` of a new user task.
pub open spec fn fresh_thread(b: ThreadModel, tid: Pid) -> bool {
    b.tid == tid && b.alive && !b.pending_exit && b.clear_child_tid == 0 && b.robust_list_head == 0
        && b.blocked == 0 && b.pending@ == Seq::<SignalInfo>::empty() && !b.interrupted && b.timer
        == crate::process::TimerState::Kernel
}

/// Create a new user task: register thread `tid` with the process and, when
/// an output slot for the new thread's id was supplied, write the id into
/// that user word first, under fault isolation — a fault there is an
/// ordinary failed user-memory access, reported in the result, never a
/// kernel bug.
pub fn new_user_task(
    proc: &mut ProcessModel,
    mem: &mut UserMem,
    tid: Pid,
    set_child_tid: Option<u64>,
) -> (wrote: bool)
    requires
        old(proc).wf(),
        old(mem).wf(),
        find_tid(old(proc).threads@, tid) < 0,
    ensures
        final(proc).wf(),
        final(mem).wf(),
        same_proc_flags(*old(proc), *final(proc)),
        final(proc).threads@.len() == old(proc).threads@.len() + 1,
        forall|j: int|
            0 <= j < old(proc).threads@.len() ==> #[trigger] final(proc).threads@[j] == old(
                proc,
            ).threads@[j],
        fresh_thread(final(proc).threads@.last(), tid),
        match set_child_tid {
            Some(a) => wrote == old(mem)@.contains_key(a) && final(mem)@ == if wrote {
                old(mem)@.insert(a, tid as u64)
            } else {
                old(mem)@
            },
            None => !wrote && final(mem)@ == old(mem)@,
        },
{
    proof {
        lemma_find_tid(proc.threads@, tid);
    }
    let wrote = match set_child_tid {
        Some(a) => vm_write_word(mem, a, tid as u64),
        None => false,
    };
    let ghost s_before = proc.threads@;
    proc.threads.push(ThreadModel::new(tid));
    proof {
        assert forall|k: int, l: int|
            0 <= k < l < proc.threads@.len() implies (#[trigger] proc.threads@[k]).tid != (
        #[trigger] proc.threads@[l]).tid by {
            if l < s_before.len() {
                assert(proc.threads@[k] == s_before[k]);
                assert(proc.threads@[l] == s_before[l]);
            } else {
                assert(proc.threads@[l].tid == tid);
                if k < s_before.len() {
                    assert(proc.threads@[k] == s_before[k]);
                }
            }
        }
    }
    wrote
}

/// Whether the trampoline loop of thread `tid` should run another
/// iteration: the thread exists and its pending-exit flag is still clear.
pub fn should_continue(proc: &ProcessModel, tid: Pid) -> (r: bool)
    ensures
        r == ({
            let i = find_tid(proc.threads@, tid);
            i >= 0 && !proc.threads@[i].pending_exit
        }),
{
    proof {
        lemma_find_tid(proc.threads@, tid);
    }
    match proc.find(tid) {
        Some(i) => {
            proof {
                assert(i as int == find_tid(proc.threads@, tid));
            }
            !proc.threads[i].pending_exit
        },
        None => false,
    }
}

} // verus!
