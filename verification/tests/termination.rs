use utask::KernelError;
use utask::amap::AssocMap;
use utask::exit::do_exit;
use utask::futex::{FutexRecord, FutexTable};
use utask::mem::UserMem;
use utask::process::{Pid, ProcessModel, ThreadModel};
use utask::signal::Signo;

fn two_thread_process() -> ProcessModel {
    let mut proc = ProcessModel::new(Some(99), Some(Signo::SIGCHLD));
    proc.threads.push(ThreadModel::new(1));
    proc.threads.push(ThreadModel::new(2));
    proc
}

// Thread A registered `clear_child_tid = &x`, `x` holds A's id, a waiter is
// blocked on the futex at `&x`: when A exits, `x` becomes 0 and the waiter
// wakes.
#[test]
fn clear_child_tid_zeroes_and_wakes() {
    let addr: u64 = 0x5000;
    let mut proc = two_thread_process();
    assert!(proc.set_clear_child_tid(1, addr));
    let mut mem: UserMem = AssocMap::new();
    mem.insert(addr, 1);
    let mut table = FutexTable::new();
    table.insert(addr, FutexRecord { owner_dead: false, waiters: 1 });

    let fx = do_exit(&mut proc, &mut mem, &mut table, 1, 0, false);

    assert!(fx.tid_cleared);
    assert!(fx.tid_futex_woken);
    assert_eq!(mem.get(addr), Some(0));
    assert_eq!(table.get(addr).unwrap().waiters, 0);
    assert!(!fx.last_thread);
    assert!(!proc.exited);
}

#[test]
fn unregistered_clear_child_tid_is_best_effort() {
    let mut proc = two_thread_process();
    let mut mem: UserMem = AssocMap::new();
    let mut table = FutexTable::new();
    let fx = do_exit(&mut proc, &mut mem, &mut table, 1, 7, false);
    assert!(!fx.tid_cleared);
    assert!(!fx.tid_futex_woken);
    assert_eq!(proc.exit_code, 7);
}

// The last live thread, and only it, performs the process-exit actions.
#[test]
fn last_thread_transition_fires_once() {
    let mut proc = two_thread_process();
    let mut mem: UserMem = AssocMap::new();
    let mut table = FutexTable::new();

    let fx1 = do_exit(&mut proc, &mut mem, &mut table, 1, 3, false);
    assert!(!fx1.last_thread);
    assert!(!proc.exited);
    assert_eq!(fx1.parent_signaled, None);
    assert!(!fx1.parent_child_event_woken);
    assert!(!fx1.exit_event_woken);
    assert!(!fx1.shm_released);

    let fx2 = do_exit(&mut proc, &mut mem, &mut table, 2, 5, false);
    assert!(fx2.last_thread);
    assert!(proc.exited);
    assert_eq!(proc.exit_code, 5);
    assert_eq!(fx2.parent_signaled, Some((99, Signo::SIGCHLD)));
    assert!(fx2.parent_child_event_woken);
    assert!(fx2.exit_event_woken);
    assert!(fx2.shm_released);
    assert!(!(fx1.last_thread && fx2.last_thread));
}

#[test]
fn no_parent_notification_without_exit_signal() {
    let mut proc = ProcessModel::new(Some(42), None);
    proc.threads.push(ThreadModel::new(1));
    let mut mem: UserMem = AssocMap::new();
    let mut table = FutexTable::new();
    let fx = do_exit(&mut proc, &mut mem, &mut table, 1, 0, false);
    assert!(fx.last_thread);
    assert_eq!(fx.parent_signaled, None);
    assert!(fx.parent_child_event_woken);
}

// `group_exit` is one-shot: the second call signals no one again.
#[test]
fn group_exit_kills_each_sibling_once() {
    let mut proc = ProcessModel::new(None, None);
    proc.threads.push(ThreadModel::new(1));
    proc.threads.push(ThreadModel::new(2));
    proc.threads.push(ThreadModel::new(3));
    let mut mem: UserMem = AssocMap::new();
    let mut table = FutexTable::new();

    let fx1 = do_exit(&mut proc, &mut mem, &mut table, 1, 9, true);
    assert!(proc.group_exited);
    assert_eq!(fx1.killed, vec![2, 3]);
    assert_eq!(proc.threads[1].pending.len(), 1);
    assert_eq!(proc.threads[1].pending[0].signo, Signo::SIGKILL);
    assert!(proc.threads[1].pending[0].from_kernel);
    assert!(proc.threads[1].interrupted);
    assert_eq!(proc.threads[2].pending.len(), 1);

    let fx2 = do_exit(&mut proc, &mut mem, &mut table, 2, 9, true);
    assert_eq!(fx2.killed, Vec::<Pid>::new());
    // No second SIGKILL was queued anywhere.
    assert_eq!(proc.threads[2].pending.len(), 1);
}

// The robust list registered by the exiting thread is unwound; its failure
// is reported but never blocks the exit.
#[test]
fn robust_list_unwound_at_exit() {
    let head: u64 = 0x1000;
    let n1: u64 = 0x2000;
    let mut proc = two_thread_process();
    assert!(proc.set_robust_list_head(1, head));
    let mut mem: UserMem = AssocMap::new();
    mem.insert(head, n1);
    mem.insert(head + 8, 16u64);
    mem.insert(head + 16, 0);
    mem.insert(n1, head);
    let mut table = FutexTable::new();
    table.insert(n1 + 16, FutexRecord { owner_dead: false, waiters: 1 });

    let fx = do_exit(&mut proc, &mut mem, &mut table, 1, 0, false);

    assert_eq!(fx.robust, Some(Ok(())));
    let r = table.get(n1 + 16).unwrap();
    assert!(r.owner_dead);
    assert_eq!(r.waiters, 0);
}

#[test]
fn robust_list_failure_never_blocks_exit() {
    let mut proc = ProcessModel::new(None, None);
    proc.threads.push(ThreadModel::new(1));
    assert!(proc.set_robust_list_head(1, 0x7000));
    let mut mem: UserMem = AssocMap::new();
    let mut table = FutexTable::new();

    let fx = do_exit(&mut proc, &mut mem, &mut table, 1, 2, false);

    assert_eq!(fx.robust, Some(Err(KernelError::InvalidAddress)));
    assert!(fx.last_thread);
    assert!(proc.exited);
    assert_eq!(proc.exit_code, 2);
    assert!(!proc.threads[0].alive);
    assert!(proc.threads[0].pending_exit);
}
