//! A small address-keyed association map with a `Map<u64, V>` view.
//!
//! It models the two address-indexed stores this core touches: user memory
//! (words keyed by user address) and the per-process futex table (records
//! keyed by the canonical futex address).

use vstd::prelude::*;
use vstd::pervasive::VecAdditionalExecFns;

verus! {

/// The map denoted by an entry sequence; a later entry wins, though a
/// well-formed map never holds a key twice.
pub open spec fn map_of<V>(s: Seq<(u64, V)>) -> Map<u64, V>
    decreases s.len(),
{
    if s.len() == 0 {
        Map::empty()
    } else {
        map_of(s.drop_last()).insert(s.last().0, s.last().1)
    }
}

/// No key occurs twice in the entry sequence.
pub open spec fn unique_keys<V>(s: Seq<(u64, V)>) -> bool {
    forall|i: int, j: int| 0 <= i < j < s.len() ==> (#[trigger] s[i]).0 != (#[trigger] s[j]).0
}

/// A key absent from every entry is absent from the map.
pub proof fn lemma_map_of_absent<V>(s: Seq<(u64, V)>, a: u64)
    requires
        forall|i: int| 0 <= i < s.len() ==> (#[trigger] s[i]).0 != a,
    ensures
        !map_of(s).contains_key(a),
    decreases s.len(),
{
    if s.len() > 0 {
        assert(s.last().0 != a);
        assert(forall|i: int| 0 <= i < s.drop_last().len() ==> (#[trigger] s.drop_last()[i]).0 != a);
        lemma_map_of_absent(s.drop_last(), a);
    }
}

/// An entry's key maps to its value, when keys are unique.
pub proof fn lemma_map_of_found<V>(s: Seq<(u64, V)>, i: int)
    requires
        unique_keys(s),
        0 <= i < s.len(),
    ensures
        map_of(s).contains_key(s[i].0),
        map_of(s)[s[i].0] == s[i].1,
    decreases s.len(),
{
    if i == s.len() - 1 {
    } else {
        assert(s.last().0 != s[i].0);
        assert(unique_keys(s.drop_last()));
        assert(s.drop_last()[i] == s[i]);
        lemma_map_of_found(s.drop_last(), i);
    }
}

/// Replacing the value at an entry inserts at its key.
pub proof fn lemma_map_of_update<V>(s: Seq<(u64, V)>, i: int, v: V)
    requires
        unique_keys(s),
        0 <= i < s.len(),
    ensures
        map_of(s.update(i, (s[i].0, v))) == map_of(s).insert(s[i].0, v),
    decreases s.len(),
{
    let s2 = s.update(i, (s[i].0, v));
    if i == s.len() - 1 {
        assert(s2.drop_last() =~= s.drop_last());
        assert(map_of(s2) =~= map_of(s).insert(s[i].0, v));
    } else {
        assert(s2.drop_last() =~= s.drop_last().update(i, (s[i].0, v)));
        assert(unique_keys(s.drop_last()));
        assert(s.drop_last()[i] == s[i]);
        lemma_map_of_update(s.drop_last(), i, v);
        assert(s.last().0 != s[i].0);
        assert(map_of(s2) =~= map_of(s).insert(s[i].0, v));
    }
}

/// Appending a fresh entry inserts at its key.
pub proof fn lemma_map_of_push<V>(s: Seq<(u64, V)>, a: u64, v: V)
    ensures
        map_of(s.push((a, v))) == map_of(s).insert(a, v),
{
    assert(s.push((a, v)).drop_last() =~= s);
    assert(s.push((a, v)).last() == (a, v));
}

/// An address-keyed store of copyable values.
pub struct AssocMap<V> {
    pub entries: Vec<(u64, V)>,
}

impl<V: Copy> AssocMap<V> {
    /// The keys of the entry list never repeat, so the view is faithful.
    pub open spec fn wf(self) -> bool {
        unique_keys(self.entries@)
    }

    /// An empty store.
    pub fn new() -> (r: AssocMap<V>)
        ensures
            r@ == Map::<u64, V>::empty(),
            r.wf(),
    {
        let r = AssocMap { entries: Vec::new() };
        r
    }

    /// Look the key up; `None` when it is unmapped.
    pub fn get(&self, a: u64) -> (r: Option<V>)
        requires
            self.wf(),
        ensures
            r == if self@.contains_key(a) {
                Some(self@[a])
            } else {
                None::<V>
            },
    {
        let n = self.entries.len();
        let mut i: usize = 0;
        while i < n
            invariant
                n == self.entries@.len(),
                0 <= i <= n,
                self.wf(),
                forall|k: int| 0 <= k < i ==> (#[trigger] self.entries@[k]).0 != a,
            decreases n - i,
        {
            if self.entries[i].0 == a {
                proof {
                    lemma_map_of_found(self.entries@, i as int);
                }
                return Some(self.entries[i].1);
            }
            i += 1;
        }
        proof {
            lemma_map_of_absent(self.entries@, a);
        }
        None
    }

    /// Map the key to the value, adding it if it was unmapped.
    pub fn insert(&mut self, a: u64, v: V)
        requires
            old(self).wf(),
        ensures
            final(self)@ == old(self)@.insert(a, v),
            final(self).wf(),
    {
        let n = self.entries.len();
        let mut i: usize = 0;
        while i < n
            invariant
                n == self.entries@.len(),
                0 <= i <= n,
                self.wf(),
                self == old(self),
                forall|k: int| 0 <= k < i ==> (#[trigger] self.entries@[k]).0 != a,
            decreases n - i,
        {
            if self.entries[i].0 == a {
                proof {
                    lemma_map_of_update(self.entries@, i as int, v);
                    assert(unique_keys(self.entries@.update(i as int, (a, v))));
                }
                self.entries.set(i, (a, v));
                return;
            }
            i += 1;
        }
        proof {
            lemma_map_of_push(self.entries@, a, v);
            assert(forall|k: int| 0 <= k < self.entries@.len() ==> (#[trigger] self.entries@[k]).0 != a);
            assert(unique_keys(self.entries@.push((a, v))));
        }
        self.entries.push((a, v));
    }
}

impl<V> View for AssocMap<V> {
    type V = Map<u64, V>;

    open spec fn view(&self) -> Map<u64, V> {
        map_of(self.entries@)
    }
}

} // verus!
