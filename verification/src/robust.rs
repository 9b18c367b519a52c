//! The robust-futex-list teardown protocol: at thread exit the kernel walks
//! a singly linked list that lives entirely in user memory, and for every
//! registered lock node except the one whose operation is in flight it marks
//! the corresponding futex record owner-dead and wakes one waiter.
//!
//! The list is user-controlled and must never be trusted: every node read
//! can fail, the walk is bounded defensively, and any failure is reported to
//! the caller, who discards it — thread exit is unconditional.

use vstd::prelude::*;
use crate::KernelError;
use crate::futex::{FutexRecord, FutexTable, futex_death_spec};
use crate::mem::UserMem;

verus! {

/// Defensive bound on robust-list traversal, matching the Linux ABI limit.
pub const ROBUST_LIST_LIMIT: u64 = 2048;

/// A singly linked robust-list node embedded in a user-space lock
/// structure. `next` is a user address, carried as a plain integer.
#[derive(Debug, Clone, Copy, PartialEq, Eq, Structural)]
pub struct RobustList {
    pub next: u64,
}

/// The user-space robust-list head, bit-exact with the Linux ABI:
/// a sentinel node, a signed byte offset from a node to its futex word,
/// and the address of a node whose operation is in flight.
#[derive(Debug, Clone, Copy, PartialEq, Eq, Structural)]
pub struct RobustListHead {
    pub list: RobustList,
    pub futex_offset: i64,
    pub list_op_pending: u64,
}

/// The futex word of the node at `node`: `node + offset` with signed,
/// checked addition. `None` means the sum leaves the address space.
pub open spec fn offset_addr_spec(node: u64, off: i64) -> Option<u64> {
    if 0 <= node + off <= u64::MAX {
        Some((node + off) as u64)
    } else {
        None
    }
}

/// Checked signed offset addition on a user address.
pub fn offset_addr(node: u64, off: i64) -> (r: Option<u64>)
    ensures
        r == offset_addr_spec(node, off),
{
    if off >= 0 {
        let o = off as u64;
        if node <= u64::MAX - o {
            Some(node + o)
        } else {
            None
        }
    } else {
        let mag: u64 = if off == i64::MIN {
            9223372036854775808u64
        } else {
            (-off) as u64
        };
        if node >= mag {
            Some(node - mag)
        } else {
            None
        }
    }
}

/// The head structure decoded from three consecutive user words at `h`,
/// or `None` when any word is unmapped or the addresses wrap.
pub open spec fn decode_head_spec(m: Map<u64, u64>, h: u64) -> Option<RobustListHead> {
    if h + 16 <= u64::MAX && m.contains_key(h) && m.contains_key((h + 8) as u64)
        && m.contains_key((h + 16) as u64) {
        Some(
            RobustListHead {
                list: RobustList { next: m[h] },
                futex_offset: m[(h + 8) as u64] as i64,
                list_op_pending: m[(h + 16) as u64],
            },
        )
    } else {
        None
    }
}

/// Read a `RobustListHead` from user memory in one snapshot.
pub fn read_head(mem: &UserMem, h: u64) -> (r: Option<RobustListHead>)
    requires
        mem.wf(),
    ensures
        r == decode_head_spec(mem@, h),
{
    if h > u64::MAX - 16 {
        return None;
    }
    let w0 = mem.get(h);
    let w1 = mem.get(h + 8);
    let w2 = mem.get(h + 16);
    match (w0, w1, w2) {
        (Some(next), Some(off), Some(pending)) => Some(
            RobustListHead {
                list: RobustList { next },
                futex_offset: #[verifier::truncate] (off as i64),
                list_op_pending: pending,
            },
        ),
        _ => None,
    }
}

/// The traversal itself, as a function of a user-memory snapshot: the node
/// addresses on which the futex-death action fires (in walk order), and how
/// the walk ends. One node is processed per unit of fuel; the node equal to
/// `pending` is passed over; running out of fuel after a node is the
/// loop-detection error.
pub open spec fn robust_walk_spec(
    m: Map<u64, u64>,
    end: u64,
    pending: u64,
    offset: i64,
    entry: u64,
    fuel: nat,
) -> (Seq<u64>, Result<(), KernelError>)
    decreases fuel,
{
    if entry == end {
        (Seq::empty(), Result::Ok(()))
    } else if !m.contains_key(entry) {
        (Seq::empty(), Result::Err(KernelError::InvalidAddress))
    } else if entry != pending && offset_addr_spec(entry, offset) is None {
        (Seq::empty(), Result::Err(KernelError::InvalidInput))
    } else {
        let this = if entry != pending {
            seq![entry]
        } else {
            Seq::<u64>::empty()
        };
        if fuel <= 1 {
            (this, Result::Err(KernelError::ListTooLong))
        } else {
            let rest = robust_walk_spec(m, end, pending, offset, m[entry], (fuel - 1) as nat);
            (this + rest.0, rest.1)
        }
    }
}

/// The futex table after firing the death action on each node of `deaths`
/// in order, at futex word `node + offset`.
pub open spec fn apply_deaths(
    t: Map<u64, FutexRecord>,
    deaths: Seq<u64>,
    offset: i64,
) -> Map<u64, FutexRecord>
    decreases deaths.len(),
{
    if deaths.len() == 0 {
        t
    } else {
        match offset_addr_spec(deaths[0], offset) {
            Some(a) => apply_deaths(futex_death_spec(t, a), deaths.drop_first(), offset),
            None => apply_deaths(t, deaths.drop_first(), offset),
        }
    }
}

/// Appending one node to a death sequence applies its action last.
pub proof fn lemma_apply_deaths_snoc(
    t: Map<u64, FutexRecord>,
    s: Seq<u64>,
    n: u64,
    offset: i64,
)
    ensures
        apply_deaths(t, s.push(n), offset) == match offset_addr_spec(n, offset) {
            Some(a) => futex_death_spec(apply_deaths(t, s, offset), a),
            None => apply_deaths(t, s, offset),
        },
    decreases s.len(),
{
    reveal_with_fuel(apply_deaths, 3);
    if s.len() == 0 {
        assert(s.push(n)[0] == n);
        assert(s.push(n).drop_first() =~= Seq::<u64>::empty());
    } else {
        assert(s.push(n)[0] == s[0]);
        assert(s.push(n).drop_first() =~= s.drop_first().push(n));
        match offset_addr_spec(s[0], offset) {
            Some(a) => {
                lemma_apply_deaths_snoc(futex_death_spec(t, a), s.drop_first(), n, offset);
            },
            None => {
                lemma_apply_deaths_snoc(t, s.drop_first(), n, offset);
            },
        }
    }
}

/// Robust-list traversal is bounded: no more than `fuel` nodes ever receive
/// the futex-death action, for any list — even one that never reaches the
/// sentinel.
pub proof fn lemma_robust_walk_bounded(
    m: Map<u64, u64>,
    end: u64,
    pending: u64,
    offset: i64,
    entry: u64,
    fuel: nat,
)
    requires
        fuel >= 1,
    ensures
        robust_walk_spec(m, end, pending, offset, entry, fuel).0.len() <= fuel,
    decreases fuel,
{
    if entry != end && m.contains_key(entry)
        && !(entry != pending && offset_addr_spec(entry, offset) is None) && fuel > 1 {
        lemma_robust_walk_bounded(m, end, pending, offset, m[entry], (fuel - 1) as nat);
    }
}

/// The node whose operation is in flight never receives the futex-death
/// action, wherever it sits in the list.
pub proof fn lemma_robust_walk_skips_pending(
    m: Map<u64, u64>,
    end: u64,
    pending: u64,
    offset: i64,
    entry: u64,
    fuel: nat,
)
    ensures
        !robust_walk_spec(m, end, pending, offset, entry, fuel).0.contains(pending),
    decreases fuel,
{
    let w = robust_walk_spec(m, end, pending, offset, entry, fuel);
    if entry != end && m.contains_key(entry)
        && !(entry != pending && offset_addr_spec(entry, offset) is None) && fuel > 1 {
        lemma_robust_walk_skips_pending(m, end, pending, offset, m[entry], (fuel - 1) as nat);
    }
    assert forall|i: int| 0 <= i < w.0.len() implies w.0[i] != pending by {}
    if w.0.contains(pending) {
        let i = choose|i: int| 0 <= i < w.0.len() && w.0[i] == pending;
        assert(false);
    }
}

/// Fire the futex-death action for the node at `entry`: resolve its futex
/// word at `entry + offset`, and if a live record exists there, mark it
/// owner-dead and wake one waiter. Overflow of the address computation is
/// `InvalidInput`; a missing record is not an error.
pub fn handle_futex_death(entry: u64, offset: i64, table: &mut FutexTable) -> (r: Result<
    (),
    KernelError,
>)
    requires
        old(table).wf(),
    ensures
        final(table).wf(),
        match offset_addr_spec(entry, offset) {
            Some(a) => r == Result::<(), KernelError>::Ok(())
                && final(table)@ == futex_death_spec(old(table)@, a),
            None => r == Result::<(), KernelError>::Err(KernelError::InvalidInput)
                && final(table)@ == old(table)@,
        },
{
    match offset_addr(entry, offset) {
        Some(a) => {
            table.futex_death(a);
            Ok(())
        },
        None => Err(KernelError::InvalidInput),
    }
}

/// Walk the robust list registered at user address `head_addr`, firing the
/// futex-death action on every live node except the in-flight one, exactly
/// as `robust_walk_spec` describes on the current user-memory snapshot.
#[verifier::loop_isolation(false)]
pub fn exit_robust_list(head_addr: u64, mem: &UserMem, table: &mut FutexTable) -> (r: Result<
    (),
    KernelError,
>)
    requires
        mem.wf(),
        old(table).wf(),
    ensures
        final(table).wf(),
        ({
            let (t2, res) = exit_robust_list_spec(mem@, old(table)@, head_addr);
            final(table)@ == t2 && r == res
        }),
{
    let head = match read_head(mem, head_addr) {
        Some(h) => h,
        None => {
            return Err(KernelError::InvalidAddress);
        },
    };
    let end = head_addr;
    let pending = head.list_op_pending;
    let offset = head.futex_offset;
    let mut entry = head.list.next;
    let mut limit: u64 = ROBUST_LIST_LIMIT;
    let ghost m = mem@;
    let ghost t0 = table@;
    let ghost full = robust_walk_spec(m, end, pending, offset, head.list.next, ROBUST_LIST_LIMIT as nat);
    let ghost mut done: Seq<u64> = Seq::empty();
    proof {
        assert(done + robust_walk_spec(m, end, pending, offset, entry, limit as nat).0 =~= robust_walk_spec(m, end, pending, offset, entry, limit as nat).0);
    }
    while entry != end
        invariant
            mem.wf(),
            table.wf(),
            m == mem@,
            1 <= limit <= ROBUST_LIST_LIMIT,
            full == robust_walk_spec(m, end, pending, offset, head.list.next, ROBUST_LIST_LIMIT as nat),
            ({
                let sub = robust_walk_spec(m, end, pending, offset, entry, limit as nat);
                full.0 == done + sub.0 && full.1 == sub.1
            }),
            table@ == apply_deaths(t0, done, offset),
        decreases limit,
    {
        let ghost sub = robust_walk_spec(m, end, pending, offset, entry, limit as nat);
        let next = match mem.get(entry) {
            Some(n) => n,
            None => {
                proof {
                    assert(sub.0 =~= Seq::<u64>::empty());
                    assert(full.0 =~= done);
                }
                return Err(KernelError::InvalidAddress);
            },
        };
        if entry != pending {
            match handle_futex_death(entry, offset, table) {
                Ok(_) => {
                    proof {
                        lemma_apply_deaths_snoc(t0, done, entry, offset);
                        done = done.push(entry);
                    }
                },
                Err(e) => {
                    proof {
                        assert(sub.0 =~= Seq::<u64>::empty());
                        assert(full.0 =~= done);
                    }
                    return Err(e);
                },
            }
        }
        proof {
            let ghost this = if entry != pending {
                seq![entry]
            } else {
                Seq::<u64>::empty()
            };
            if limit > 1 {
                let sub2 = robust_walk_spec(m, end, pending, offset, next, (limit - 1) as nat);
                assert(sub.0 == this + sub2.0);
                assert(done + sub2.0 =~= full.0);
            } else {
                assert(sub.0 == this);
                assert(done =~= full.0);
            }
        }
        entry = next;
        limit -= 1;
        if limit == 0 {
            return Err(KernelError::ListTooLong);
        }
    }
    proof {
        let sub = robust_walk_spec(m, end, pending, offset, entry, limit as nat);
        assert(sub.0 =~= Seq::<u64>::empty());
        assert(full.0 =~= done);
    }
    Ok(())
}

/// What `exit_robust_list` does to the futex table and reports, as a
/// function of the user-memory snapshot: decode the head, then run the
/// bounded walk and apply every death action it lists.
pub open spec fn exit_robust_list_spec(
    m: Map<u64, u64>,
    t: Map<u64, FutexRecord>,
    head_addr: u64,
) -> (Map<u64, FutexRecord>, Result<(), KernelError>) {
    match decode_head_spec(m, head_addr) {
        None => (t, Result::Err(KernelError::InvalidAddress)),
        Some(h) => {
            let w = robust_walk_spec(
                m,
                head_addr,
                h.list_op_pending,
                h.futex_offset,
                h.list.next,
                ROBUST_LIST_LIMIT as nat,
            );
            (apply_deaths(t, w.0, h.futex_offset), w.1)
        },
    }
}

} // verus!
