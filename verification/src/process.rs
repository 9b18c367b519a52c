//! The process- and thread-level state the termination protocol reads and
//! writes: per-thread exit bookkeeping, signal masks and queues, and the
//! process-wide exit / group-exit flags.

use vstd::prelude::*;
use crate::signal::{SignalInfo, Signo, signal_blocked_spec, signal_blocked};

verus! {

/// Kernel thread / process identifier.
pub type Pid = u32;

/// Whose account the thread's running time is charged to: kernel time
/// between a return from user mode and the next entry, user time otherwise.
#[derive(Debug, Clone, Copy, PartialEq, Eq, Structural)]
pub enum TimerState {
    User,
    Kernel,
}

/// One thread of a process, as the termination protocol sees it.
pub struct ThreadModel {
    pub tid: Pid,
    /// Still counted as a live thread of the process.
    pub alive: bool,
    /// Cooperative exit flag: the trampoline loop stops once this is set.
    pub pending_exit: bool,
    /// User address to zero and wake at exit; `0` when not registered.
    pub clear_child_tid: u64,
    /// User address of the registered robust-list head; `0` when none.
    pub robust_list_head: u64,
    /// Blocked-signal mask.
    pub blocked: u64,
    /// Queued, not yet delivered signals.
    pub pending: Vec<SignalInfo>,
    /// Marked runnable to process a signal promptly.
    pub interrupted: bool,
    /// Current time-accounting state.
    pub timer: TimerState,
}

impl ThreadModel {
    /// A fresh live thread with nothing registered.
    pub fn new(tid: Pid) -> (r: ThreadModel)
        ensures
            r.tid == tid,
            r.alive,
            !r.pending_exit,
            r.clear_child_tid == 0,
            r.robust_list_head == 0,
            r.blocked == 0,
            r.pending@ == Seq::<SignalInfo>::empty(),
            !r.interrupted,
            r.timer == TimerState::Kernel,
    {
        ThreadModel {
            tid,
            alive: true,
            pending_exit: false,
            clear_child_tid: 0,
            robust_list_head: 0,
            blocked: 0,
            pending: Vec::new(),
            interrupted: false,
            timer: TimerState::Kernel,
        }
    }
}

/// How many threads are still live.
pub open spec fn alive_count(s: Seq<ThreadModel>) -> nat
    decreases s.len(),
{
    if s.len() == 0 {
        0
    } else {
        alive_count(s.drop_last()) + if s.last().alive {
            1nat
        } else {
            0nat
        }
    }
}

/// The index of the thread with identifier `tid`, or `-1` when absent.
pub open spec fn find_tid(s: Seq<ThreadModel>, tid: Pid) -> int
    decreases s.len(),
{
    if s.len() == 0 {
        -1
    } else if s[0].tid == tid {
        0
    } else {
        let r = find_tid(s.drop_first(), tid);
        if r < 0 {
            -1
        } else {
            r + 1
        }
    }
}

/// What `find_tid` finds: a valid index bearing `tid`, or the absence of
/// `tid` altogether.
pub proof fn lemma_find_tid(s: Seq<ThreadModel>, tid: Pid)
    ensures
        find_tid(s, tid) >= 0 ==> find_tid(s, tid) < s.len() && s[find_tid(s, tid)].tid == tid,
        find_tid(s, tid) < 0 ==> forall|j: int| 0 <= j < s.len() ==> (#[trigger] s[j]).tid != tid,
    decreases s.len(),
{
    if s.len() > 0 && s[0].tid != tid {
        lemma_find_tid(s.drop_first(), tid);
        if find_tid(s, tid) < 0 {
            assert forall|j: int| 0 <= j < s.len() implies (#[trigger] s[j]).tid != tid by {
                if j > 0 {
                    assert(s.drop_first()[j - 1] == s[j]);
                }
            }
        }
    }
}

/// Live-thread counts agree wherever the `alive` flags agree.
pub proof fn lemma_alive_count_pointwise(a: Seq<ThreadModel>, b: Seq<ThreadModel>)
    requires
        a.len() == b.len(),
        forall|j: int| 0 <= j < a.len() ==> (#[trigger] a[j]).alive == (#[trigger] b[j]).alive,
    ensures
        alive_count(a) == alive_count(b),
    decreases a.len(),
{
    if a.len() > 0 {
        lemma_alive_count_pointwise(a.drop_last(), b.drop_last());
    }
}

/// Marking one live thread dead decrements the live count by exactly one.
pub proof fn lemma_alive_count_kill_one(a: Seq<ThreadModel>, b: Seq<ThreadModel>, i: int)
    requires
        a.len() == b.len(),
        0 <= i < a.len(),
        a[i].alive,
        !b[i].alive,
        forall|j: int|
            0 <= j < a.len() && j != i ==> (#[trigger] a[j]).alive == (#[trigger] b[j]).alive,
    ensures
        alive_count(b) == alive_count(a) - 1,
    decreases a.len(),
{
    if i == a.len() - 1 {
        lemma_alive_count_pointwise(a.drop_last(), b.drop_last());
    } else {
        lemma_alive_count_kill_one(a.drop_last(), b.drop_last(), i);
    }
}

/// The first live thread that does not block `sig`, if any: the thread the
/// process-directed signal is routed to.
pub open spec fn route_signal_spec(s: Seq<ThreadModel>, sig: Signo) -> Option<Pid>
    decreases s.len(),
{
    if s.len() == 0 {
        None
    } else if s[0].alive && !signal_blocked_spec(s[0].blocked, sig) {
        Some(s[0].tid)
    } else {
        route_signal_spec(s.drop_first(), sig)
    }
}

/// A process-directed signal finds no thread exactly when every live thread
/// blocks it.
pub proof fn lemma_route_signal_none(s: Seq<ThreadModel>, sig: Signo)
    ensures
        route_signal_spec(s, sig) is None <==> forall|j: int|
            0 <= j < s.len() && (#[trigger] s[j]).alive ==> signal_blocked_spec(s[j].blocked, sig),
    decreases s.len(),
{
    if s.len() > 0 && !(s[0].alive && !signal_blocked_spec(s[0].blocked, sig)) {
        lemma_route_signal_none(s.drop_first(), sig);
        if route_signal_spec(s, sig) is None {
            assert forall|j: int|
                0 <= j < s.len() && (#[trigger] s[j]).alive implies signal_blocked_spec(
                s[j].blocked,
                sig,
            ) by {
                if j > 0 {
                    assert(s.drop_first()[j - 1] == s[j]);
                }
            }
        } else {
            if (forall|k: int|
                0 <= k < s.len() && (#[trigger] s[k]).alive ==> signal_blocked_spec(
                    s[k].blocked,
                    sig,
                )) {
                assert forall|j: int|
                    0 <= j < s.drop_first().len() && (#[trigger] s.drop_first()[j]).alive implies
                    signal_blocked_spec(s.drop_first()[j].blocked, sig) by {
                    assert(s.drop_first()[j] == s[j + 1]);
                }
                assert(route_signal_spec(s.drop_first(), sig) is None);
                assert(false);
            }
        }
    }
}

/// State shared by all threads of one process.
pub struct ProcessModel {
    pub threads: Vec<ThreadModel>,
    /// Set once, by the last live thread to exit.
    pub exited: bool,
    /// One-shot: a process-kill request signalled every thread.
    pub group_exited: bool,
    /// Exit code recorded by the most recent thread exit.
    pub exit_code: i32,
    /// Signal to send to the parent when the process exits, if configured.
    pub exit_signal: Option<Signo>,
    pub parent: Option<Pid>,
}

impl ProcessModel {
    /// Thread identifiers never repeat.
    pub open spec fn wf(self) -> bool {
        forall|i: int, j: int|
            0 <= i < j < self.threads@.len() ==> (#[trigger] self.threads@[i]).tid != (
            #[trigger] self.threads@[j]).tid
    }

    /// A process with no threads yet.
    pub fn new(parent: Option<Pid>, exit_signal: Option<Signo>) -> (r: ProcessModel)
        ensures
            r.threads@ == Seq::<ThreadModel>::empty(),
            !r.exited,
            !r.group_exited,
            r.exit_code == 0,
            r.exit_signal == exit_signal,
            r.parent == parent,
            r.wf(),
    {
        ProcessModel {
            threads: Vec::new(),
            exited: false,
            group_exited: false,
            exit_code: 0,
            exit_signal,
            parent,
        }
    }

    /// The index of the thread `tid`, if it belongs to this process.
    pub fn find(&self, tid: Pid) -> (r: Option<usize>)
        ensures
            r == if find_tid(self.threads@, tid) >= 0 {
                Some(find_tid(self.threads@, tid) as usize)
            } else {
                None::<usize>
            },
            r matches Some(i) ==> i < self.threads@.len() && self.threads@[i as int].tid == tid
                && i as int == find_tid(self.threads@, tid),
    {
        proof {
            lemma_find_tid(self.threads@, tid);
            assert(self.threads@.skip(0) =~= self.threads@);
        }
        let n = self.threads.len();
        let mut i: usize = 0;
        while i < n
            invariant
                n == self.threads@.len(),
                0 <= i <= n,
                forall|k: int| 0 <= k < i ==> (#[trigger] self.threads@[k]).tid != tid,
                find_tid(self.threads@.skip(i as int), tid) >= 0 ==> find_tid(self.threads@, tid)
                    == find_tid(self.threads@.skip(i as int), tid) + i,
                find_tid(self.threads@.skip(i as int), tid) < 0 ==> find_tid(self.threads@, tid)
                    < 0,
            decreases n - i,
        {
            if self.threads[i].tid == tid {
                proof {
                    assert(self.threads@.skip(i as int)[0] == self.threads@[i as int]);
                }
                return Some(i);
            }
            proof {
                assert(self.threads@.skip(i as int).drop_first() =~= self.threads@.skip(
                    i as int + 1,
                ));
                assert(self.threads@.skip(i as int)[0] == self.threads@[i as int]);
            }
            i += 1;
        }
        proof {
            assert(self.threads@.skip(n as int) =~= Seq::<ThreadModel>::empty());
        }
        None
    }

    /// How many threads of this process are still live.
    pub fn alive_threads(&self) -> (r: usize)
        ensures
            r == alive_count(self.threads@),
    {
        proof {
            assert(self.threads@.take(0) =~= Seq::<ThreadModel>::empty());
        }
        let n = self.threads.len();
        let mut count: usize = 0;
        let mut i: usize = 0;
        while i < n
            invariant
                n == self.threads@.len(),
                0 <= i <= n,
                count == alive_count(self.threads@.take(i as int)),
                count <= i,
            decreases n - i,
        {
            proof {
                assert(self.threads@.take(i as int + 1).drop_last() =~= self.threads@.take(
                    i as int,
                ));
                assert(self.threads@.take(i as int + 1).last() == self.threads@[i as int]);
            }
            if self.threads[i].alive {
                count += 1;
            }
            i += 1;
        }
        proof {
            assert(self.threads@.take(n as int) =~= self.threads@);
        }
        count
    }

    /// Route a process-directed signal: the first live thread not blocking
    /// it, or `None` when every live thread blocks it.
    pub fn route_signal(&self, sig: Signo) -> (r: Option<Pid>)
        ensures
            r == route_signal_spec(self.threads@, sig),
    {
        proof {
            assert(self.threads@.skip(0) =~= self.threads@);
        }
        let n = self.threads.len();
        let mut i: usize = 0;
        while i < n
            invariant
                n == self.threads@.len(),
                0 <= i <= n,
                route_signal_spec(self.threads@, sig) == route_signal_spec(
                    self.threads@.skip(i as int),
                    sig,
                ),
            decreases n - i,
        {
            proof {
                assert(self.threads@.skip(i as int)[0] == self.threads@[i as int]);
                assert(self.threads@.skip(i as int).drop_first() =~= self.threads@.skip(
                    i as int + 1,
                ));
            }
            let alive = self.threads[i].alive;
            let blocked = signal_blocked(self.threads[i].blocked, sig);
            if alive && !blocked {
                return Some(self.threads[i].tid);
            }
            i += 1;
        }
        proof {
            assert(self.threads@.skip(n as int) =~= Seq::<ThreadModel>::empty());
        }
        None
    }

    /// Register the clear-child-tid address of thread `tid`; reports whether
    /// the thread exists.
    pub fn set_clear_child_tid(&mut self, tid: Pid, addr: u64) -> (found: bool)
        requires
            old(self).wf(),
        ensures
            final(self).wf(),
            found == (find_tid(old(self).threads@, tid) >= 0),
            !found ==> *final(self) == *old(self),
            found ==> ({
                let i = find_tid(old(self).threads@, tid);
                &&& same_proc_flags(*old(self), *final(self))
                &&& final(self).threads@.len() == old(self).threads@.len()
                &&& forall|j: int|
                    0 <= j < old(self).threads@.len() && j != i ==> final(self).threads@[j] == old(
                        self,
                    ).threads@[j]
                &&& thread_with_ctid(old(self).threads@[i], final(self).threads@[i], addr)
            }),
    {
        proof {
            lemma_find_tid(self.threads@, tid);
        }
        match self.find(tid) {
            Some(i) => {
                let ghost s0 = self.threads@;
                let mut t = self.threads.remove(i);
                t.clear_child_tid = addr;
                self.threads.insert(i, t);
                proof {
                    assert(self.threads@ =~= s0.update(
                        find_tid(s0, tid),
                        self.threads@[find_tid(s0, tid)],
                    ));
                }
                true
            },
            None => false,
        }
    }

    /// Register the robust-list head address of thread `tid`; reports
    /// whether the thread exists.
    pub fn set_robust_list_head(&mut self, tid: Pid, addr: u64) -> (found: bool)
        requires
            old(self).wf(),
        ensures
            final(self).wf(),
            found == (find_tid(old(self).threads@, tid) >= 0),
            !found ==> *final(self) == *old(self),
            found ==> ({
                let i = find_tid(old(self).threads@, tid);
                &&& same_proc_flags(*old(self), *final(self))
                &&& final(self).threads@.len() == old(self).threads@.len()
                &&& forall|j: int|
                    0 <= j < old(self).threads@.len() && j != i ==> final(self).threads@[j] == old(
                        self,
                    ).threads@[j]
                &&& thread_with_robust_head(old(self).threads@[i], final(self).threads@[i], addr)
            }),
    {
        proof {
            lemma_find_tid(self.threads@, tid);
        }
        match self.find(tid) {
            Some(i) => {
                let ghost s0 = self.threads@;
                let mut t = self.threads.remove(i);
                t.robust_list_head = addr;
                self.threads.insert(i, t);
                proof {
                    assert(self.threads@ =~= s0.update(
                        find_tid(s0, tid),
                        self.threads@[find_tid(s0, tid)],
                    ));
                }
                true
            },
            None => false,
        }
    }

    /// Charge the running time of thread `tid` to `state` from now on;
    /// reports whether the thread exists.
    pub fn set_timer_state(&mut self, tid: Pid, state: TimerState) -> (found: bool)
        requires
            old(self).wf(),
        ensures
            final(self).wf(),
            found == (find_tid(old(self).threads@, tid) >= 0),
            !found ==> *final(self) == *old(self),
            found ==> ({
                let i = find_tid(old(self).threads@, tid);
                &&& same_proc_flags(*old(self), *final(self))
                &&& final(self).threads@.len() == old(self).threads@.len()
                &&& forall|j: int|
                    0 <= j < old(self).threads@.len() && j != i ==> final(self).threads@[j] == old(
                        self,
                    ).threads@[j]
                &&& thread_with_timer(old(self).threads@[i], final(self).threads@[i], state)
            }),
    {
        proof {
            lemma_find_tid(self.threads@, tid);
        }
        match self.find(tid) {
            Some(i) => {
                let ghost s0 = self.threads@;
                let mut t = self.threads.remove(i);
                t.timer = state;
                self.threads.insert(i, t);
                proof {
                    assert(self.threads@ =~= s0.update(
                        find_tid(s0, tid),
                        self.threads@[find_tid(s0, tid)],
                    ));
                }
                true
            },
            None => false,
        }
    }

    /// Clear the pending kernel-initiated interrupt marker of thread `tid`
    /// before its next user-mode entry; reports whether the thread exists.
    pub fn clear_interrupt(&mut self, tid: Pid) -> (found: bool)
        requires
            old(self).wf(),
        ensures
            final(self).wf(),
            found == (find_tid(old(self).threads@, tid) >= 0),
            !found ==> *final(self) == *old(self),
            found ==> ({
                let i = find_tid(old(self).threads@, tid);
                &&& same_proc_flags(*old(self), *final(self))
                &&& final(self).threads@.len() == old(self).threads@.len()
                &&& forall|j: int|
                    0 <= j < old(self).threads@.len() && j != i ==> final(self).threads@[j] == old(
                        self,
                    ).threads@[j]
                &&& thread_uninterrupted(old(self).threads@[i], final(self).threads@[i])
            }),
    {
        proof {
            lemma_find_tid(self.threads@, tid);
        }
        match self.find(tid) {
            Some(i) => {
                let ghost s0 = self.threads@;
                let mut t = self.threads.remove(i);
                t.interrupted = false;
                self.threads.insert(i, t);
                proof {
                    assert(self.threads@ =~= s0.update(
                        find_tid(s0, tid),
                        self.threads@[find_tid(s0, tid)],
                    ));
                }
                true
            },
            None => false,
        }
    }

    /// Set the blocked-signal mask of thread `tid`; reports whether the
    /// thread exists.
    pub fn set_blocked(&mut self, tid: Pid, mask: u64) -> (found: bool)
        requires
            old(self).wf(),
        ensures
            final(self).wf(),
            found == (find_tid(old(self).threads@, tid) >= 0),
            !found ==> *final(self) == *old(self),
            found ==> ({
                let i = find_tid(old(self).threads@, tid);
                &&& same_proc_flags(*old(self), *final(self))
                &&& final(self).threads@.len() == old(self).threads@.len()
                &&& forall|j: int|
                    0 <= j < old(self).threads@.len() && j != i ==> final(self).threads@[j] == old(
                        self,
                    ).threads@[j]
                &&& thread_with_blocked(old(self).threads@[i], final(self).threads@[i], mask)
            }),
    {
        proof {
            lemma_find_tid(self.threads@, tid);
        }
        match self.find(tid) {
            Some(i) => {
                let ghost s0 = self.threads@;
                let mut t = self.threads.remove(i);
                t.blocked = mask;
                self.threads.insert(i, t);
                proof {
                    assert(self.threads@ =~= s0.update(
                        find_tid(s0, tid),
                        self.threads@[find_tid(s0, tid)],
                    ));
                }
                true
            },
            None => false,
        }
    }
}

/// `b` is `a` with its time accounting switched to `state`.
pub open spec fn thread_with_timer(a: ThreadModel, b: ThreadModel, state: TimerState) -> bool {
    b.tid == a.tid && b.alive == a.alive && b.pending_exit == a.pending_exit
        && b.clear_child_tid == a.clear_child_tid && b.robust_list_head == a.robust_list_head
        && b.blocked == a.blocked && b.pending@ == a.pending@ && b.interrupted == a.interrupted
        && b.timer == state
}

/// `b` is `a` with the kernel-initiated interrupt marker cleared.
pub open spec fn thread_uninterrupted(a: ThreadModel, b: ThreadModel) -> bool {
    b.tid == a.tid && b.alive == a.alive && b.pending_exit == a.pending_exit
        && b.clear_child_tid == a.clear_child_tid && b.robust_list_head == a.robust_list_head
        && b.blocked == a.blocked && b.pending@ == a.pending@ && !b.interrupted && b.timer == a.timer
}

/// The process-wide fields of `a` and `b` agree.
pub open spec fn same_proc_flags(a: ProcessModel, b: ProcessModel) -> bool {
    b.exited == a.exited && b.group_exited == a.group_exited && b.exit_code == a.exit_code
        && b.exit_signal == a.exit_signal && b.parent == a.parent
}

/// `b` is `a` with the clear-child-tid address set to `addr`.
pub open spec fn thread_with_ctid(a: ThreadModel, b: ThreadModel, addr: u64) -> bool {
    b.tid == a.tid && b.alive == a.alive && b.pending_exit == a.pending_exit
        && b.clear_child_tid == addr && b.robust_list_head == a.robust_list_head && b.blocked
        == a.blocked && b.pending@ == a.pending@ && b.interrupted == a.interrupted && b.timer
        == a.timer
}

/// `b` is `a` with the robust-list head set to `addr`.
pub open spec fn thread_with_robust_head(a: ThreadModel, b: ThreadModel, addr: u64) -> bool {
    b.tid == a.tid && b.alive == a.alive && b.pending_exit == a.pending_exit
        && b.clear_child_tid == a.clear_child_tid && b.robust_list_head == addr && b.blocked
        == a.blocked && b.pending@ == a.pending@ && b.interrupted == a.interrupted && b.timer
        == a.timer
}

/// `b` is `a` with the blocked mask set to `mask`.
pub open spec fn thread_with_blocked(a: ThreadModel, b: ThreadModel, mask: u64) -> bool {
    b.tid == a.tid && b.alive == a.alive && b.pending_exit == a.pending_exit
        && b.clear_child_tid == a.clear_child_tid && b.robust_list_head == a.robust_list_head
        && b.blocked == mask && b.pending@ == a.pending@ && b.interrupted == a.interrupted && b.timer
        == a.timer
}

} // verus!
