//! A per-process model of accessible user memory: the 64-bit words this
//! core may read or write, keyed by user address. Raw user pointers are
//! carried as plain integers; a read or write of an unmapped address fails
//! locally instead of faulting the kernel, mirroring the fault-isolated
//! user-memory accessors of the kernel environment.

use vstd::prelude::*;
use crate::amap::AssocMap;

verus! {

/// The words of user memory this core can touch, keyed by address.
pub type UserMem = AssocMap<u64>;

/// Fault-isolated user write: stores `val` at `addr` only when the word is
/// mapped, and reports whether it did.
pub fn vm_write_word(mem: &mut UserMem, addr: u64, val: u64) -> (ok: bool)
    requires
        old(mem).wf(),
    ensures
        ok == old(mem)@.contains_key(addr),
        final(mem)@ == if ok {
            old(mem)@.insert(addr, val)
        } else {
            old(mem)@
        },
        final(mem).wf(),
{
    match mem.get(addr) {
        Some(_) => {
            mem.insert(addr, val);
            true
        },
        None => false,
    }
}

} // verus!
