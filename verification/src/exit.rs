//! The termination protocol: single-thread exit with its user-memory side
//! channels, the one-shot group-exit broadcast, and the deliver-or-kill
//! fallback for fatal signals.

use vstd::prelude::*;
use crate::KernelError;
use crate::futex::{FutexRecord, FutexTable, wake_one_spec, woke_spec};
use crate::mem::{UserMem, vm_write_word};
use crate::process::{
    Pid, ProcessModel, ThreadModel, alive_count, find_tid, lemma_alive_count_kill_one,
    lemma_find_tid, route_signal_spec,
};
use crate::robust::{exit_robust_list, exit_robust_list_spec};
use crate::signal::{SignalInfo, Signo, signo_num_spec};

verus! {

/// The kernel-origin `SIGKILL` descriptor queued on each sibling thread of
/// a group exit.
pub open spec fn kill_signal() -> SignalInfo {
    SignalInfo { signo: Signo::SIGKILL, from_kernel: true }
}

/// `b` is `a` marked exited: no longer live, trampoline told to stop.
pub open spec fn thread_exited(a: ThreadModel, b: ThreadModel) -> bool {
    b.tid == a.tid && !b.alive && b.pending_exit && b.clear_child_tid == a.clear_child_tid
        && b.robust_list_head == a.robust_list_head && b.blocked == a.blocked && b.pending@
        == a.pending@ && b.interrupted == a.interrupted && b.timer == a.timer
}

/// `b` is `a` with one more signal queued and the thread marked runnable to
/// process it promptly.
pub open spec fn thread_signaled(a: ThreadModel, b: ThreadModel, sig: SignalInfo) -> bool {
    b.tid == a.tid && b.alive == a.alive && b.pending_exit == a.pending_exit
        && b.clear_child_tid == a.clear_child_tid && b.robust_list_head == a.robust_list_head
        && b.blocked == a.blocked && b.pending@ == a.pending@.push(sig) && b.interrupted && b.timer
        == a.timer
}

/// How one thread comes out of `do_exit` called by thread `i`: the caller is
/// marked exited, every other live thread is signalled `SIGKILL` when the
/// group-exit transition fires, and everyone else is untouched.
pub open spec fn thread_after_exit(
    a: ThreadModel,
    b: ThreadModel,
    i: int,
    j: int,
    kill_others: bool,
) -> bool {
    if j == i {
        thread_exited(a, b)
    } else if kill_others && a.alive {
        thread_signaled(a, b, kill_signal())
    } else {
        b == a
    }
}

/// The identifiers of the live threads other than `cur`, in table order:
/// the recipients of a group-exit `SIGKILL` broadcast.
pub open spec fn killed_tids(s: Seq<ThreadModel>, cur: Pid) -> Seq<Pid>
    decreases s.len(),
{
    if s.len() == 0 {
        Seq::empty()
    } else {
        let rest = killed_tids(s.drop_first(), cur);
        if s[0].alive && s[0].tid != cur {
            seq![s[0].tid] + rest
        } else {
            rest
        }
    }
}

/// Everything `do_exit` reports to the kernel environment besides the model
/// state itself: which best-effort side channels fired and which threads
/// must be signalled.
pub struct ExitEffects {
    /// The registered clear-child-tid word was zeroed.
    pub tid_cleared: bool,
    /// A waiter was woken on the futex at that word.
    pub tid_futex_woken: bool,
    /// Outcome of the robust-list walk; `None` when no head was registered.
    pub robust: Option<Result<(), KernelError>>,
    /// This call took the last live thread down.
    pub last_thread: bool,
    /// Exit notification owed to the parent, if configured.
    pub parent_signaled: Option<(Pid, Signo)>,
    /// The parent's child-exit wait event must be woken.
    pub parent_child_event_woken: bool,
    /// The process's own exit-wait event must be woken.
    pub exit_event_woken: bool,
    /// The process's shared-memory segments must be released.
    pub shm_released: bool,
    /// Threads to deliver the group-exit `SIGKILL` to.
    pub killed: Vec<Pid>,
}

/// Full description of `do_exit`: how the process, user memory and the
/// futex table change, and which effects are reported, in terms of the
/// pre-state.
pub open spec fn do_exit_post(
    p0: ProcessModel,
    m0: Map<u64, u64>,
    t0: Map<u64, FutexRecord>,
    tid: Pid,
    exit_code: i32,
    group_exit: bool,
    p1: ProcessModel,
    m1: Map<u64, u64>,
    t1: Map<u64, FutexRecord>,
    fx: ExitEffects,
) -> bool {
    let i = find_tid(p0.threads@, tid);
    let ct = p0.threads@[i].clear_child_tid;
    let head = p0.threads@[i].robust_list_head;
    let tw = if m0.contains_key(ct) {
        wake_one_spec(t0, ct)
    } else {
        t0
    };
    let kill_others = group_exit && !p0.group_exited;
    &&& fx.tid_cleared == m0.contains_key(ct)
    &&& m1 == if fx.tid_cleared {
        m0.insert(ct, 0u64)
    } else {
        m0
    }
    &&& fx.tid_futex_woken == (fx.tid_cleared && woke_spec(t0, ct))
    &&& match fx.robust {
        Some(res) => head != 0 && t1 == exit_robust_list_spec(m1, tw, head).0 && res
            == exit_robust_list_spec(m1, tw, head).1,
        None => head == 0 && t1 == tw,
    }
    &&& fx.last_thread == (alive_count(p0.threads@) == 1)
    &&& p1.exit_code == exit_code
    &&& p1.exited == (p0.exited || fx.last_thread)
    &&& p1.group_exited == (p0.group_exited || group_exit)
    &&& p1.exit_signal == p0.exit_signal
    &&& p1.parent == p0.parent
    &&& p1.threads@.len() == p0.threads@.len()
    &&& forall|j: int|
        0 <= j < p0.threads@.len() ==> thread_after_exit(
            p0.threads@[j],
            #[trigger] p1.threads@[j],
            i,
            j,
            kill_others,
        )
    &&& fx.killed@ == if kill_others {
        killed_tids(p0.threads@, tid)
    } else {
        Seq::<Pid>::empty()
    }
    &&& fx.parent_signaled == if fx.last_thread {
        match (p0.parent, p0.exit_signal) {
            (Some(pp), Some(sg)) => Some((pp, sg)),
            _ => None::<(Pid, Signo)>,
        }
    } else {
        None::<(Pid, Signo)>
    }
    &&& fx.parent_child_event_woken == (fx.last_thread && p0.parent is Some)
    &&& fx.exit_event_woken == fx.last_thread
    &&& fx.shm_released == fx.last_thread
}

/// Exit the thread `tid` of `proc` with `exit_code`.
///
/// Best-effort side channels run first and never fail the exit: the
/// clear-child-tid word is zeroed and its futex woken, then the registered
/// robust list is unwound (its error, if any, is only reported). The
/// thread's exit code is recorded; the last live thread performs the
/// process-exit actions exactly once. With `group_exit`, the one-shot
/// group-exit transition fires and every other live thread is signalled
/// `SIGKILL` — at most once, however often `do_exit` is called.
#[verifier::loop_isolation(false)]
#[verifier::rlimit(30)]
pub fn do_exit(
    proc: &mut ProcessModel,
    mem: &mut UserMem,
    table: &mut FutexTable,
    tid: Pid,
    exit_code: i32,
    group_exit: bool,
) -> (fx: ExitEffects)
    requires
        old(proc).wf(),
        old(mem).wf(),
        old(table).wf(),
        find_tid(old(proc).threads@, tid) >= 0,
        old(proc).threads@[find_tid(old(proc).threads@, tid)].alive,
    ensures
        final(proc).wf(),
        final(mem).wf(),
        final(table).wf(),
        do_exit_post(
            *old(proc),
            old(mem)@,
            old(table)@,
            tid,
            exit_code,
            group_exit,
            *final(proc),
            final(mem)@,
            final(table)@,
            fx,
        ),
{
    let ghost p0t = proc.threads@;
    proof {
        lemma_find_tid(p0t, tid);
    }
    let i = match proc.find(tid) {
        Some(i) => i,
        None => {
            proof {
                assert(false);
            }
            0
        },
    };
    let ct = proc.threads[i].clear_child_tid;
    let head = proc.threads[i].robust_list_head;

    // Zero the registered clear-child-tid word and wake a joiner, best
    // effort.
    let tid_cleared = vm_write_word(mem, ct, 0);
    let tid_futex_woken = if tid_cleared {
        table.wake_one(ct)
    } else {
        false
    };

    // Unwind the registered robust list; errors are reported, never fatal.
    let robust = if head != 0 {
        Some(exit_robust_list(head, mem, table))
    } else {
        None
    };

    // The last-thread test and the one-shot group-exit decision, both taken
    // against the pre-state.
    let last_thread = proc.alive_threads() == 1;
    let kill_others = group_exit && !proc.group_exited;

    let mut killed: Vec<Pid> = Vec::new();
    if kill_others {
        proc.group_exited = true;
        proof {
            assert(p0t.skip(0) =~= p0t);
        }
        let n = proc.threads.len();
        let mut j: usize = 0;
        while j < n
            invariant
                n == proc.threads@.len(),
                n == p0t.len(),
                0 <= j <= n,
                proc.exited == old(proc).exited,
                proc.exit_code == old(proc).exit_code,
                proc.group_exited,
                proc.exit_signal == old(proc).exit_signal,
                proc.parent == old(proc).parent,
                forall|k: int|
                    0 <= k < j ==> if p0t[k].alive && p0t[k].tid != tid {
                        thread_signaled(p0t[k], #[trigger] proc.threads@[k], kill_signal())
                    } else {
                        proc.threads@[k] == p0t[k]
                    },
                forall|k: int| j <= k < n ==> #[trigger] proc.threads@[k] == p0t[k],
                killed_tids(p0t, tid) == killed@ + killed_tids(p0t.skip(j as int), tid),
            decreases n - j,
        {
            proof {
                assert(p0t.skip(j as int)[0] == p0t[j as int]);
                assert(p0t.skip(j as int).drop_first() =~= p0t.skip(j as int + 1));
            }
            if proc.threads[j].alive && proc.threads[j].tid != tid {
                let ghost s_before = proc.threads@;
                let mut t = proc.threads.remove(j);
                killed.push(t.tid);
                t.pending.push(SignalInfo::new_kernel(Signo::SIGKILL));
                t.interrupted = true;
                proc.threads.insert(j, t);
                proof {
                    assert(proc.threads@ =~= s_before.update(j as int, proc.threads@[j as int]));
                    assert(killed@ + (seq![p0t[j as int].tid] + killed_tids(
                        p0t.skip(j as int + 1),
                        tid,
                    )) =~= killed@.push(p0t[j as int].tid) + killed_tids(
                        p0t.skip(j as int + 1),
                        tid,
                    ));
                }
            }
            j += 1;
        }
        proof {
            assert(p0t.skip(n as int) =~= Seq::<ThreadModel>::empty());
            assert(killed@ + Seq::<Pid>::empty() =~= killed@);
        }
    }

    // Record this thread's exit against the process and stop its trampoline.
    let ghost s_mid = proc.threads@;
    let mut cur = proc.threads.remove(i);
    cur.alive = false;
    cur.pending_exit = true;
    proc.threads.insert(i, cur);
    proof {
        assert(proc.threads@ =~= s_mid.update(i as int, proc.threads@[i as int]));
    }
    proc.exit_code = exit_code;
    if last_thread {
        proc.exited = true;
    }

    let parent_signaled: Option<(Pid, Signo)> = if last_thread {
        match (proc.parent, proc.exit_signal) {
            (Some(pp), Some(sg)) => Some((pp, sg)),
            _ => None,
        }
    } else {
        None
    };
    let parent_child_event_woken = last_thread && proc.parent.is_some();

    proof {
        assert forall|k: int, l: int|
            0 <= k < l < proc.threads@.len() implies (#[trigger] proc.threads@[k]).tid != (
        #[trigger] proc.threads@[l]).tid by {
            assert(proc.threads@[k].tid == p0t[k].tid);
            assert(proc.threads@[l].tid == p0t[l].tid);
        }
    }

    ExitEffects {
        tid_cleared,
        tid_futex_woken,
        robust,
        last_thread,
        parent_signaled,
        parent_child_event_woken,
        exit_event_woken: last_thread,
        shm_released: last_thread,
        killed,
    }
}

/// What `raise_signal_fatal` did: either the signal was routed to a live
/// thread that does not block it, which was told to process it promptly, or
/// no thread could take it and the whole process was terminated through
/// `do_exit` with the signal's number as exit code.
pub struct FatalOutcome {
    /// The thread the signal was routed to, when one accepts it.
    pub delivered: Option<Pid>,
    /// The exit effects of the fallback termination, when none does.
    pub exit: Option<ExitEffects>,
}

/// Full description of `raise_signal_fatal` in terms of the pre-state.
pub open spec fn raise_fatal_post(
    p0: ProcessModel,
    m0: Map<u64, u64>,
    t0: Map<u64, FutexRecord>,
    tid: Pid,
    sig: SignalInfo,
    p1: ProcessModel,
    m1: Map<u64, u64>,
    t1: Map<u64, FutexRecord>,
    out: FatalOutcome,
) -> bool {
    match route_signal_spec(p0.threads@, sig.signo) {
        Some(rt) => {
            let ri = find_tid(p0.threads@, rt);
            &&& out.delivered == Some(rt)
            &&& out.exit is None
            &&& m1 == m0
            &&& t1 == t0
            &&& crate::process::same_proc_flags(p0, p1)
            &&& p1.threads@.len() == p0.threads@.len()
            &&& thread_signaled(p0.threads@[ri], p1.threads@[ri], sig)
            &&& forall|j: int|
                0 <= j < p0.threads@.len() && j != ri ==> #[trigger] p1.threads@[j]
                    == p0.threads@[j]
        },
        None => {
            &&& out.delivered is None
            &&& match out.exit {
                Some(fx) => do_exit_post(
                    p0,
                    m0,
                    t0,
                    tid,
                    signo_num_spec(sig.signo) as i32,
                    true,
                    p1,
                    m1,
                    t1,
                    fx,
                ),
                None => false,
            }
        },
    }
}

/// A routed signal names a thread of the process.
pub proof fn lemma_route_signal_found(s: Seq<ThreadModel>, sig: Signo)
    ensures
        route_signal_spec(s, sig) matches Some(rt) ==> exists|j: int|
            0 <= j < s.len() && (#[trigger] s[j]).tid == rt,
    decreases s.len(),
{
    if s.len() > 0 {
        if s[0].alive && !crate::signal::signal_blocked_spec(s[0].blocked, sig) {
        } else {
            lemma_route_signal_found(s.drop_first(), sig);
            match route_signal_spec(s, sig) {
                Some(rt) => {
                    let j = choose|j: int|
                        0 <= j < s.drop_first().len() && (#[trigger] s.drop_first()[j]).tid == rt;
                    assert(s[j + 1].tid == rt);
                },
                None => {},
            }
        }
    }
}

/// Deliver-or-kill fallback for a condition that demands termination unless
/// a handler intervenes: route `sig` to a thread positioned to receive it
/// and interrupt that thread, or — when every live thread blocks it — make
/// the process exit with the signal's number as exit code and
/// `group_exit` set, per POSIX semantics for an effectively unblockable
/// fatal signal.
pub fn raise_signal_fatal(
    proc: &mut ProcessModel,
    mem: &mut UserMem,
    table: &mut FutexTable,
    tid: Pid,
    sig: SignalInfo,
) -> (out: FatalOutcome)
    requires
        old(proc).wf(),
        old(mem).wf(),
        old(table).wf(),
        find_tid(old(proc).threads@, tid) >= 0,
        old(proc).threads@[find_tid(old(proc).threads@, tid)].alive,
    ensures
        final(proc).wf(),
        final(mem).wf(),
        final(table).wf(),
        raise_fatal_post(
            *old(proc),
            old(mem)@,
            old(table)@,
            tid,
            sig,
            *final(proc),
            final(mem)@,
            final(table)@,
            out,
        ),
{
    let ghost p0t = proc.threads@;
    match proc.route_signal(sig.signo) {
        Some(rt) => {
            proof {
                lemma_route_signal_found(p0t, sig.signo);
                lemma_find_tid(p0t, rt);
            }
            let ri = match proc.find(rt) {
                Some(ri) => ri,
                None => {
                    proof {
                        assert(false);
                    }
                    0
                },
            };
            let ghost s_before = proc.threads@;
            let mut t = proc.threads.remove(ri);
            t.pending.push(sig);
            t.interrupted = true;
            proc.threads.insert(ri, t);
            proof {
                assert(proc.threads@ =~= s_before.update(ri as int, proc.threads@[ri as int]));
                assert forall|k: int, l: int|
                    0 <= k < l < proc.threads@.len() implies (#[trigger] proc.threads@[k]).tid != (
                #[trigger] proc.threads@[l]).tid by {
                    assert(proc.threads@[k].tid == p0t[k].tid);
                    assert(proc.threads@[l].tid == p0t[l].tid);
                }
            }
            FatalOutcome { delivered: Some(rt), exit: None }
        },
        None => {
            let n = sig.signo.number();
            let fx = do_exit(proc, mem, table, tid, n as i32, true);
            FatalOutcome { delivered: None, exit: Some(fx) }
        },
    }
}

/// The last-thread transition fires at most once: across two consecutive
/// `do_exit` calls on the same process, only the first can observe itself
/// to be the last live thread — the process-exit actions (parent
/// notification, event wakes, shared-memory release) are never repeated.
pub proof fn lemma_last_thread_exit_once(
    p0: ProcessModel,
    m0: Map<u64, u64>,
    t0: Map<u64, FutexRecord>,
    tid_a: Pid,
    code_a: i32,
    group_a: bool,
    p1: ProcessModel,
    m1: Map<u64, u64>,
    t1: Map<u64, FutexRecord>,
    fx_a: ExitEffects,
    tid_b: Pid,
    code_b: i32,
    group_b: bool,
    p2: ProcessModel,
    m2: Map<u64, u64>,
    t2: Map<u64, FutexRecord>,
    fx_b: ExitEffects,
)
    requires
        find_tid(p0.threads@, tid_a) >= 0,
        p0.threads@[find_tid(p0.threads@, tid_a)].alive,
        do_exit_post(p0, m0, t0, tid_a, code_a, group_a, p1, m1, t1, fx_a),
        do_exit_post(p1, m1, t1, tid_b, code_b, group_b, p2, m2, t2, fx_b),
    ensures
        !(fx_a.last_thread && fx_b.last_thread),
{
    if fx_a.last_thread && fx_b.last_thread {
        let i = find_tid(p0.threads@, tid_a);
        lemma_find_tid(p0.threads@, tid_a);
        assert(thread_exited(p0.threads@[i], p1.threads@[i]));
        assert forall|j: int|
            0 <= j < p0.threads@.len() && j != i implies (#[trigger] p0.threads@[j]).alive == (
        #[trigger] p1.threads@[j]).alive by {
            assert(thread_after_exit(
                p0.threads@[j],
                p1.threads@[j],
                i,
                j,
                group_a && !p0.group_exited,
            ));
        }
        lemma_alive_count_kill_one(p0.threads@, p1.threads@, i);
        assert(alive_count(p1.threads@) == 0);
        assert(false);
    }
}

/// The group-exit transition is one-shot: once a `do_exit` with
/// `group_exit` has run, a later `do_exit` never signals `SIGKILL` to the
/// already-signalled threads again.
pub proof fn lemma_group_exit_one_shot(
    p0: ProcessModel,
    m0: Map<u64, u64>,
    t0: Map<u64, FutexRecord>,
    tid_a: Pid,
    code_a: i32,
    p1: ProcessModel,
    m1: Map<u64, u64>,
    t1: Map<u64, FutexRecord>,
    fx_a: ExitEffects,
    tid_b: Pid,
    code_b: i32,
    p2: ProcessModel,
    m2: Map<u64, u64>,
    t2: Map<u64, FutexRecord>,
    fx_b: ExitEffects,
)
    requires
        do_exit_post(p0, m0, t0, tid_a, code_a, true, p1, m1, t1, fx_a),
        do_exit_post(p1, m1, t1, tid_b, code_b, true, p2, m2, t2, fx_b),
    ensures
        fx_b.killed@ == Seq::<Pid>::empty(),
        forall|j: int|
            0 <= j < p1.threads@.len() && j != find_tid(p1.threads@, tid_b)
                ==> #[trigger] p2.threads@[j] == p1.threads@[j],
{
    assert(p1.group_exited);
    let i = find_tid(p1.threads@, tid_b);
    assert forall|j: int|
        0 <= j < p1.threads@.len() && j != i implies #[trigger] p2.threads@[j]
            == p1.threads@[j] by {
        assert(thread_after_exit(p1.threads@[j], p2.threads@[j], i, j, false));
    }
}

} // verus!
