use utask::KernelError;
use utask::amap::AssocMap;
use utask::futex::{FutexRecord, FutexTable};
use utask::mem::UserMem;
use utask::robust::{ROBUST_LIST_LIMIT, exit_robust_list, offset_addr};

const HEAD: u64 = 0x1000;

fn write_head(mem: &mut UserMem, next: u64, offset: i64, pending: u64) {
    mem.insert(HEAD, next);
    mem.insert(HEAD + 8, offset as u64);
    mem.insert(HEAD + 16, pending);
}

fn record(waiters: u64) -> FutexRecord {
    FutexRecord { owner_dead: false, waiters }
}

#[test]
fn empty_list_is_ok() {
    let mut mem = AssocMap::new();
    write_head(&mut mem, HEAD, 16, 0);
    let mut table = FutexTable::new();
    assert_eq!(exit_robust_list(HEAD, &mem, &mut table), Ok(()));
}

#[test]
fn unmapped_head_is_invalid_address() {
    let mem = AssocMap::new();
    let mut table = FutexTable::new();
    assert_eq!(
        exit_robust_list(HEAD, &mem, &mut table),
        Err(KernelError::InvalidAddress)
    );
}

#[test]
fn unmapped_node_is_invalid_address() {
    let mut mem = AssocMap::new();
    write_head(&mut mem, 0x2000, 16, 0);
    let mut table = FutexTable::new();
    table.insert(0x2000 + 16, record(1));
    assert_eq!(
        exit_robust_list(HEAD, &mem, &mut table),
        Err(KernelError::InvalidAddress)
    );
    // The unreadable node itself received no death action.
    let rec = table.get(0x2000 + 16).unwrap();
    assert!(!rec.owner_dead);
    assert_eq!(rec.waiters, 1);
}

#[test]
fn offset_overflow_is_invalid_input() {
    let mut mem = AssocMap::new();
    write_head(&mut mem, 0x2000, -0x3000, 0);
    mem.insert(0x2000, HEAD);
    let mut table = FutexTable::new();
    assert_eq!(
        exit_robust_list(HEAD, &mem, &mut table),
        Err(KernelError::InvalidInput)
    );
}

#[test]
fn checked_offset_addition() {
    assert_eq!(offset_addr(0x2000, 16), Some(0x2010));
    assert_eq!(offset_addr(0x2000, -16), Some(0x1ff0));
    assert_eq!(offset_addr(0x2000, -0x3000), None);
    assert_eq!(offset_addr(u64::MAX, 1), None);
    assert_eq!(offset_addr(u64::MAX - 1, 1), Some(u64::MAX));
    assert_eq!(offset_addr(0, i64::MIN), None);
    assert_eq!(offset_addr(u64::MAX, i64::MIN), Some(u64::MAX - (1u64 << 63)));
}

// Three nodes with the middle one in flight: the death action fires at
// `N1 + o` and `N3 + o`, waking one waiter each, and never at `N2 + o`.
#[test]
fn three_nodes_skip_pending() {
    let n1: u64 = 0x2000;
    let n2: u64 = 0x3000;
    let n3: u64 = 0x4000;
    let o: i64 = 16;
    let mut mem = AssocMap::new();
    write_head(&mut mem, n1, o, n2);
    mem.insert(n1, n2);
    mem.insert(n2, n3);
    mem.insert(n3, HEAD);
    let mut table = FutexTable::new();
    table.insert(n1 + 16, record(1));
    table.insert(n2 + 16, record(1));
    table.insert(n3 + 16, record(1));

    assert_eq!(exit_robust_list(HEAD, &mem, &mut table), Ok(()));

    let r1 = table.get(n1 + 16).unwrap();
    assert!(r1.owner_dead);
    assert_eq!(r1.waiters, 0);
    let r2 = table.get(n2 + 16).unwrap();
    assert!(!r2.owner_dead);
    assert_eq!(r2.waiters, 1);
    let r3 = table.get(n3 + 16).unwrap();
    assert!(r3.owner_dead);
    assert_eq!(r3.waiters, 0);
}

// The in-flight node is skipped even as the last node before the sentinel.
#[test]
fn pending_last_node_is_skipped() {
    let n1: u64 = 0x2000;
    let n2: u64 = 0x3000;
    let mut mem = AssocMap::new();
    write_head(&mut mem, n1, 16, n2);
    mem.insert(n1, n2);
    mem.insert(n2, HEAD);
    let mut table = FutexTable::new();
    table.insert(n1 + 16, record(1));
    table.insert(n2 + 16, record(1));

    assert_eq!(exit_robust_list(HEAD, &mem, &mut table), Ok(()));

    assert!(table.get(n1 + 16).unwrap().owner_dead);
    assert!(!table.get(n2 + 16).unwrap().owner_dead);
}

#[test]
fn uncontended_node_is_not_an_error() {
    let n1: u64 = 0x2000;
    let mut mem = AssocMap::new();
    write_head(&mut mem, n1, 16, 0);
    mem.insert(n1, HEAD);
    let mut table = FutexTable::new();
    assert_eq!(exit_robust_list(HEAD, &mem, &mut table), Ok(()));
    assert!(table.get(n1 + 16).is_none());
}

fn chain_of(mem: &mut UserMem, count: u64) {
    // `count` nodes at BASE, BASE+8, ..., each pointing at the next; the
    // last points back at the sentinel.
    let base: u64 = 0x10000;
    write_head(mem, base, 1 << 40, 0);
    let mut k: u64 = 0;
    while k < count {
        let node = base + 8 * k;
        let next = if k + 1 == count { HEAD } else { node + 8 };
        mem.insert(node, next);
        k += 1;
    }
}

// A list one longer than the traversal bound ends in the loop-detection
// error; one inside the bound completes.
#[test]
fn list_over_limit_is_too_long() {
    let mut mem = AssocMap::new();
    chain_of(&mut mem, ROBUST_LIST_LIMIT + 1);
    let mut table = FutexTable::new();
    assert_eq!(
        exit_robust_list(HEAD, &mem, &mut table),
        Err(KernelError::ListTooLong)
    );
}

// The bound is checked after each node: a terminating list of exactly the
// limit still counts as too long, one node fewer completes.
#[test]
fn list_at_limit_is_too_long() {
    let mut mem = AssocMap::new();
    chain_of(&mut mem, ROBUST_LIST_LIMIT);
    let mut table = FutexTable::new();
    assert_eq!(
        exit_robust_list(HEAD, &mem, &mut table),
        Err(KernelError::ListTooLong)
    );
}

#[test]
fn list_under_limit_completes() {
    let mut mem = AssocMap::new();
    chain_of(&mut mem, ROBUST_LIST_LIMIT - 1);
    let mut table = FutexTable::new();
    assert_eq!(exit_robust_list(HEAD, &mem, &mut table), Ok(()));
}

// A self-referential list that never reaches the sentinel still terminates,
// with the loop-detection error.
#[test]
fn self_referential_list_terminates() {
    let n1: u64 = 0x2000;
    let mut mem = AssocMap::new();
    write_head(&mut mem, n1, 16, 0);
    mem.insert(n1, n1);
    let mut table = FutexTable::new();
    table.insert(n1 + 16, record(5));
    assert_eq!(
        exit_robust_list(HEAD, &mem, &mut table),
        Err(KernelError::ListTooLong)
    );
    // The same node was death-handled on every pass, but only waiters that
    // existed were woken.
    let r = table.get(n1 + 16).unwrap();
    assert!(r.owner_dead);
    assert_eq!(r.waiters, 0);
}

#[test]
fn wake_one_semantics() {
    let mut table = FutexTable::new();
    table.insert(0x9000, FutexRecord { owner_dead: false, waiters: 2 });
    assert!(table.wake_one(0x9000));
    assert_eq!(table.get(0x9000).unwrap().waiters, 1);
    assert!(table.wake_one(0x9000));
    assert!(!table.wake_one(0x9000));
    assert_eq!(table.get(0x9000).unwrap().waiters, 0);
    assert!(!table.wake_one(0xdead));
}
