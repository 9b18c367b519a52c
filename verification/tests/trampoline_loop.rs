use utask::amap::AssocMap;
use utask::exception::ExceptionKind;
use utask::futex::FutexTable;
use utask::mem::UserMem;
use utask::process::{ProcessModel, ThreadModel, TimerState};
use utask::signal::{Signo, block_signal};
use utask::trampoline::{
    IterationOutcome, ReturnReason, handle_return, new_user_task, should_continue,
};

fn fresh_world() -> (ProcessModel, UserMem, FutexTable) {
    let mut proc = ProcessModel::new(None, None);
    proc.threads.push(ThreadModel::new(1));
    (proc, AssocMap::new(), FutexTable::new())
}

#[test]
fn new_task_writes_child_tid_slot() {
    let mut proc = ProcessModel::new(None, None);
    let mut mem: UserMem = AssocMap::new();
    mem.insert(0x6000, 55);
    let wrote = new_user_task(&mut proc, &mut mem, 7, Some(0x6000));
    assert!(wrote);
    assert_eq!(mem.get(0x6000), Some(7));
    assert_eq!(proc.threads.len(), 1);
    assert_eq!(proc.threads[0].tid, 7);
    assert!(proc.threads[0].alive);
    assert!(should_continue(&proc, 7));
}

#[test]
fn new_task_tolerates_faulting_tid_slot() {
    let mut proc = ProcessModel::new(None, None);
    let mut mem: UserMem = AssocMap::new();
    let wrote = new_user_task(&mut proc, &mut mem, 7, Some(0x6000));
    assert!(!wrote);
    assert_eq!(proc.threads.len(), 1);
    let wrote2 = new_user_task(&mut proc, &mut mem, 8, None);
    assert!(!wrote2);
    assert_eq!(proc.threads.len(), 2);
}

// Benign return reasons leave all exit state untouched.
#[test]
fn benign_reasons_leave_exit_state_alone() {
    let (mut proc, mut mem, mut table) = fresh_world();
    let reasons = vec![
        (ReturnReason::Syscall, false),
        (ReturnReason::PageFault(0xdead, 4), true),
        (ReturnReason::Interrupt, false),
        (ReturnReason::Exception(ExceptionKind::Breakpoint), false),
    ];
    for (reason, fixed) in reasons {
        let out = handle_return(&mut proc, &mut mem, &mut table, 1, reason, fixed, false);
        match (reason, out) {
            (ReturnReason::Syscall, IterationOutcome::Syscall) => {}
            (ReturnReason::PageFault(_, _), IterationOutcome::FaultResolved) => {}
            (ReturnReason::Interrupt, IterationOutcome::Ignored) => {}
            (ReturnReason::Exception(_), IterationOutcome::SignalQueued { .. }) => {}
            _ => panic!("unexpected outcome"),
        }
        assert!(!proc.exited);
        assert!(!proc.group_exited);
        assert_eq!(proc.exit_code, 0);
        assert!(proc.threads[0].alive);
        assert!(!proc.threads[0].pending_exit);
        assert!(should_continue(&proc, 1));
    }
}

#[test]
fn exception_signal_goes_through_normal_path() {
    let (mut proc, mut mem, mut table) = fresh_world();
    let out = handle_return(
        &mut proc,
        &mut mem,
        &mut table,
        1,
        ReturnReason::Exception(ExceptionKind::IllegalInstruction),
        false,
        false,
    );
    match out {
        IterationOutcome::SignalQueued { signo, interrupted } => {
            assert_eq!(signo, Signo::SIGILL);
            assert!(interrupted);
        }
        _ => panic!("expected a queued signal"),
    }
    assert_eq!(proc.threads[0].pending.len(), 1);
    assert_eq!(proc.threads[0].pending[0].signo, Signo::SIGILL);
    assert!(proc.threads[0].pending[0].from_kernel);
    assert!(proc.threads[0].interrupted);
    // Not the fatal path: nothing exited.
    assert!(!proc.exited);
}

// A blocked exception signal is still queued, but the thread is not
// interrupted for it.
#[test]
fn blocked_exception_signal_is_queued_quietly() {
    let (mut proc, mut mem, mut table) = fresh_world();
    assert!(proc.set_blocked(1, block_signal(0, Signo::SIGTRAP)));
    let out = handle_return(
        &mut proc,
        &mut mem,
        &mut table,
        1,
        ReturnReason::Exception(ExceptionKind::Breakpoint),
        false,
        false,
    );
    match out {
        IterationOutcome::SignalQueued { signo, interrupted } => {
            assert_eq!(signo, Signo::SIGTRAP);
            assert!(!interrupted);
        }
        _ => panic!("expected a queued signal"),
    }
    assert_eq!(proc.threads[0].pending.len(), 1);
    assert!(!proc.threads[0].interrupted);
}

#[test]
fn emulated_misaligned_access_retries() {
    let (mut proc, mut mem, mut table) = fresh_world();
    let out = handle_return(
        &mut proc,
        &mut mem,
        &mut table,
        1,
        ReturnReason::Exception(ExceptionKind::Misaligned),
        false,
        true,
    );
    assert!(matches!(out, IterationOutcome::ExceptionRetried));
    assert_eq!(proc.threads[0].pending.len(), 0);
}

// An unresolvable page fault raises a fatal SIGSEGV; with no thread
// positioned to take it, the task is aborted.
#[test]
fn unresolved_fault_aborts_when_segv_blocked() {
    let (mut proc, mut mem, mut table) = fresh_world();
    assert!(proc.set_blocked(1, block_signal(0, Signo::SIGSEGV)));
    let out = handle_return(
        &mut proc,
        &mut mem,
        &mut table,
        1,
        ReturnReason::PageFault(0xdead, 4),
        false,
        false,
    );
    match out {
        IterationOutcome::FatalRaised(fo) => {
            assert_eq!(fo.delivered, None);
            assert!(fo.exit.is_some());
        }
        _ => panic!("expected the fatal path"),
    }
    assert!(proc.exited);
    assert!(proc.group_exited);
    assert_eq!(proc.exit_code, 11);
    assert!(!should_continue(&proc, 1));
}

#[test]
fn unresolved_fault_delivers_segv_when_receivable() {
    let (mut proc, mut mem, mut table) = fresh_world();
    let out = handle_return(
        &mut proc,
        &mut mem,
        &mut table,
        1,
        ReturnReason::PageFault(0xdead, 4),
        false,
        false,
    );
    match out {
        IterationOutcome::FatalRaised(fo) => {
            assert_eq!(fo.delivered, Some(1));
            assert!(fo.exit.is_none());
        }
        _ => panic!("expected the fatal path"),
    }
    assert!(!proc.exited);
    assert_eq!(proc.threads[0].pending.len(), 1);
    assert_eq!(proc.threads[0].pending[0].signo, Signo::SIGSEGV);
}

#[test]
fn unexpected_reason_raises_fatal_segv() {
    let (mut proc, mut mem, mut table) = fresh_world();
    assert!(proc.set_blocked(1, block_signal(0, Signo::SIGSEGV)));
    let out = handle_return(
        &mut proc,
        &mut mem,
        &mut table,
        1,
        ReturnReason::Unknown,
        false,
        false,
    );
    assert!(matches!(out, IterationOutcome::FatalRaised(_)));
    assert!(proc.exited);
    assert_eq!(proc.exit_code, 11);
}

#[test]
fn timer_accounting_follows_the_loop() {
    let (mut proc, _mem, _table) = fresh_world();
    // A fresh task is accounted to the kernel until it first enters user
    // mode.
    assert_eq!(proc.threads[0].timer, TimerState::Kernel);
    assert!(proc.set_timer_state(1, TimerState::User));
    assert_eq!(proc.threads[0].timer, TimerState::User);
    assert!(proc.set_timer_state(1, TimerState::Kernel));
    assert_eq!(proc.threads[0].timer, TimerState::Kernel);
    assert!(!proc.set_timer_state(2, TimerState::User));
}

// The interrupt marker set when a signal was queued is cleared before the
// next user-mode entry.
#[test]
fn interrupt_marker_cleared_each_iteration() {
    let (mut proc, mut mem, mut table) = fresh_world();
    handle_return(
        &mut proc,
        &mut mem,
        &mut table,
        1,
        ReturnReason::Exception(ExceptionKind::Breakpoint),
        false,
        false,
    );
    assert!(proc.threads[0].interrupted);
    assert!(proc.clear_interrupt(1));
    assert!(!proc.threads[0].interrupted);
    // The queued signal stays queued.
    assert_eq!(proc.threads[0].pending.len(), 1);
    assert!(!proc.clear_interrupt(9));
}

#[test]
fn loop_stops_after_do_exit() {
    let (mut proc, mut mem, mut table) = fresh_world();
    assert!(should_continue(&proc, 1));
    utask::exit::do_exit(&mut proc, &mut mem, &mut table, 1, 0, false);
    assert!(!should_continue(&proc, 1));
    assert!(!should_continue(&proc, 2));
}
