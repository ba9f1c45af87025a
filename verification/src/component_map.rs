//! Entity-keyed component registries.
//!
//! Every component kind is stored in its own map from entity id to component
//! value.  The map is an association vector whose keys are unique and whose
//! entries keep the order of first insertion, so that iterating it is a
//! deterministic instance of the unordered per-frame walks the scheduler and
//! renderer perform.

use vstd::prelude::*;

verus! {

/// Whether key `k` occurs in the entry sequence `s`.
pub open spec fn entries_contain<V>(s: Seq<(u32, V)>, k: u32) -> bool {
    exists|i: int| 0 <= i < s.len() && (#[trigger] s[i]).0 == k
}

/// A position of key `k` in `s`; meaningful only when the key occurs.
pub open spec fn entries_index_of<V>(s: Seq<(u32, V)>, k: u32) -> int {
    choose|i: int| 0 <= i < s.len() && (#[trigger] s[i]).0 == k
}

/// The value bound to `k` in `s`, if any.
pub open spec fn entries_get<V>(s: Seq<(u32, V)>, k: u32) -> Option<V> {
    if entries_contain(s, k) {
        Some(s[entries_index_of(s, k)].1)
    } else {
        None
    }
}

/// Keys of `s` are pairwise distinct.
pub open spec fn entries_unique<V>(s: Seq<(u32, V)>) -> bool {
    forall|i: int, j: int|
        0 <= i < j < s.len() ==> (#[trigger] s[i]).0 != (#[trigger] s[j]).0
}

/// With unique keys, any witness position of `k` is the position `entries_get`
/// reads from.
pub proof fn lemma_entries_get_at<V>(s: Seq<(u32, V)>, k: u32, i: int)
    requires
        entries_unique(s),
        0 <= i < s.len(),
        s[i].0 == k,
    ensures
        entries_contain(s, k),
        entries_index_of(s, k) == i,
        entries_get(s, k) == Some(s[i].1),
{
    assert(entries_contain(s, k));
    let j = entries_index_of(s, k);
    if i < j {
        assert(s[i].0 != s[j].0);
    } else if j < i {
        assert(s[j].0 != s[i].0);
    }
}

/// An element-wise copy of a vector of plain values.
pub fn copied_vec<T: Copy>(v: &Vec<T>) -> (r: Vec<T>)
    ensures
        r@ == v@,
{
    let mut out: Vec<T> = Vec::new();
    let n = v.len();
    let mut i: usize = 0;
    while i < n
        invariant
            i <= n,
            n == v@.len(),
            out@ == v@.take(i as int),
        decreases n - i,
    {
        out.push(v[i]);
        proof {
            assert(v@.take(i as int).push(v@[i as int]) =~= v@.take(i as int + 1));
        }
        i = i + 1;
    }
    proof {
        assert(v@.take(n as int) =~= v@);
    }
    out
}

/// A map from entity id to a component value, with unique keys kept in the
/// order of first insertion.
#[derive(Debug)]
pub struct ComponentMap<V> {
    pub entries: Vec<(u32, V)>,
}

impl<V> ComponentMap<V> {
    /// The underlying key/value sequence.
    pub open spec fn entries_seq(&self) -> Seq<(u32, V)> {
        self.entries@
    }

    pub open spec fn spec_len(&self) -> nat {
        self.entries@.len()
    }

    pub open spec fn key_at(&self, i: int) -> u32 {
        self.entries@[i].0
    }

    pub open spec fn val_at(&self, i: int) -> V {
        self.entries@[i].1
    }

    /// Keys are pairwise distinct.
    pub open spec fn wf(&self) -> bool {
        entries_unique(self.entries@)
    }

    pub open spec fn spec_contains(&self, k: u32) -> bool {
        entries_contain(self.entries@, k)
    }

    /// The position of key `k`; meaningful only when the key is present.
    pub open spec fn spec_index_of(&self, k: u32) -> int {
        entries_index_of(self.entries@, k)
    }

    /// The value bound to `k`, if any.
    pub open spec fn spec_get(&self, k: u32) -> Option<V> {
        entries_get(self.entries@, k)
    }

    pub fn new() -> (r: ComponentMap<V>)
        ensures
            r.entries_seq() == Seq::<(u32, V)>::empty(),
            r.spec_len() == 0,
            r.wf(),
            forall|k: u32| !r.spec_contains(k),
    {
        ComponentMap { entries: Vec::new() }
    }

    pub fn len(&self) -> (n: usize)
        ensures
            n == self.spec_len(),
    {
        self.entries.len()
    }

    /// The position of key `k`, scanning from the front.
    fn index_of(&self, k: u32) -> (r: Option<usize>)
        ensures
            match r {
                Some(i) => i < self.entries_seq().len() && self.entries_seq()[i as int].0 == k,
                None => !self.spec_contains(k),
            },
    {
        let n = self.entries.len();
        let mut j: usize = 0;
        while j < n
            invariant
                j <= n,
                n == self.entries_seq().len(),
                forall|jj: int| 0 <= jj < j ==> (#[trigger] self.entries_seq()[jj]).0 != k,
            decreases n - j,
        {
            if self.entries[j].0 == k {
                return Some(j);
            }
            j = j + 1;
        }
        None
    }

    pub fn contains_key(&self, k: u32) -> (r: bool)
        ensures
            r == self.spec_contains(k),
    {
        match self.index_of(k) {
            Some(i) => {
                proof {
                    assert(self.spec_contains(k));
                }
                true
            },
            None => false,
        }
    }

    pub fn get(&self, k: u32) -> (r: Option<&V>)
        requires
            self.wf(),
        ensures
            match r {
                Some(v) => self.spec_get(k) == Some(*v),
                None => self.spec_get(k) is None,
            },
    {
        match self.index_of(k) {
            Some(i) => {
                proof {
                    lemma_entries_get_at(self.entries@, k, i as int);
                }
                Some(&self.entries[i].1)
            },
            None => None,
        }
    }

    /// Exclusive access to the value bound to a key that must be present.
    pub fn get_mut(&mut self, k: u32) -> (r: &mut V)
        requires
            old(self).wf(),
            old(self).spec_contains(k),
        ensures
            old(self).spec_get(k) == Some(*r),
            final(self).entries_seq() == old(self).entries_seq().update(
                old(self).spec_index_of(k),
                (k, *final(r)),
            ),
            final(self).wf(),
            final(self).spec_len() == old(self).spec_len(),
    {
        let i = match self.index_of(k) {
            Some(i) => i,
            None => {
                proof {
                    assert(false);
                }
                0
            },
        };
        proof {
            lemma_entries_get_at(self.entries@, k, i as int);
            lemma_update_key_keeps_unique(self.entries@, i as int, k);
        }
        let entry = &mut self.entries[i];
        &mut entry.1
    }

    /// Insert or replace: a present key keeps its position, an absent key is
    /// appended.
    pub fn set(&mut self, k: u32, v: V)
        requires
            old(self).wf(),
        ensures
            final(self).wf(),
            final(self).spec_get(k) == Some(v),
            forall|k2: u32|
                k2 != k ==> #[trigger] final(self).spec_get(k2) == old(self).spec_get(k2),
            old(self).spec_contains(k) ==> final(self).entries_seq() == old(
                self,
            ).entries_seq().update(old(self).spec_index_of(k), (k, v)),
            !old(self).spec_contains(k) ==> final(self).entries_seq() == old(
                self,
            ).entries_seq().push((k, v)),
            final(self).spec_len() == old(self).spec_len() + (
            if old(self).spec_contains(k) {
                0int
            } else {
                1int
            }),
    {
        let ghost prev = self.entries@;
        match self.index_of(k) {
            Some(i) => {
                proof {
                    lemma_entries_get_at(prev, k, i as int);
                }
                self.entries[i] = (k, v);
                proof {
                    assert(self.entries@ =~= prev.update(i as int, (k, v)));
                    lemma_entries_update(prev, i as int, k, v);
                }
            },
            None => {
                self.entries.push((k, v));
                proof {
                    lemma_entries_push(prev, k, v);
                }
            },
        }
    }

    /// The entry at a position, for iteration.
    pub fn entry_at(&self, i: usize) -> (r: &(u32, V))
        requires
            i < self.spec_len(),
        ensures
            *r == self.entries_seq()[i as int],
    {
        &self.entries[i]
    }

    /// Exclusive access to the value at a position, for in-place updates
    /// during a frame walk; the key at that position is unchanged.
    pub fn value_at_mut(&mut self, i: usize) -> (r: &mut V)
        requires
            i < old(self).spec_len(),
        ensures
            *r == old(self).val_at(i as int),
            final(self).entries_seq() == old(self).entries_seq().update(
                i as int,
                (old(self).key_at(i as int), *final(r)),
            ),
            old(self).wf() ==> final(self).wf(),
    {
        proof {
            if old(self).wf() {
                lemma_update_key_keeps_unique(self.entries@, i as int, self.entries@[i as int].0);
            }
        }
        let entry = &mut self.entries[i];
        &mut entry.1
    }
}

impl<V: Copy> ComponentMap<V> {
    /// An element-wise copy of the map.
    pub fn duplicate(&self) -> (r: ComponentMap<V>)
        ensures
            r.entries_seq() == self.entries_seq(),
    {
        ComponentMap { entries: copied_vec(&self.entries) }
    }
}

/// Replacing the value behind position `i` while keeping its key leaves the
/// keys unique, whatever the new value is.
pub proof fn lemma_update_key_keeps_unique<V>(s: Seq<(u32, V)>, i: int, k: u32)
    requires
        entries_unique(s),
        0 <= i < s.len(),
        s[i].0 == k,
    ensures
        forall|v2: V| #[trigger] entries_unique(s.update(i, (k, v2))),
{
    assert forall|v2: V| #[trigger] entries_unique(s.update(i, (k, v2))) by {
        let t = s.update(i, (k, v2));
        assert forall|a: int, b: int|
            0 <= a < b < t.len() implies (#[trigger] t[a]).0 != (#[trigger] t[b]).0 by {
            assert(s[a].0 == t[a].0);
            assert(s[b].0 == t[b].0);
        }
    }
}

/// Replacing the value at a present key keeps the keys unique and the other
/// bindings untouched.
pub proof fn lemma_entries_update<V>(prev: Seq<(u32, V)>, i: int, k: u32, v: V)
    requires
        entries_unique(prev),
        0 <= i < prev.len(),
        prev[i].0 == k,
    ensures
        entries_unique(prev.update(i, (k, v))),
        entries_get(prev.update(i, (k, v)), k) == Some(v),
        forall|k2: u32|
            k2 != k ==> #[trigger] entries_get(prev.update(i, (k, v)), k2) == entries_get(
                prev,
                k2,
            ),
{
    let s = prev.update(i, (k, v));
    assert forall|a: int, b: int|
        0 <= a < b < s.len() implies (#[trigger] s[a]).0 != (#[trigger] s[b]).0 by {
        assert(prev[a].0 == s[a].0);
        assert(prev[b].0 == s[b].0);
    }
    lemma_entries_get_at(s, k, i);
    assert forall|k2: u32| k2 != k implies #[trigger] entries_get(s, k2) == entries_get(
        prev,
        k2,
    ) by {
        if entries_contain(prev, k2) {
            let a = entries_index_of(prev, k2);
            assert(s[a].0 == k2);
            lemma_entries_get_at(s, k2, a);
            lemma_entries_get_at(prev, k2, a);
        } else {
            if entries_contain(s, k2) {
                let a = entries_index_of(s, k2);
                assert(prev[a].0 == k2);
            }
        }
    }
}

/// Appending a fresh key keeps the keys unique and the other bindings
/// untouched.
pub proof fn lemma_entries_push<V>(prev: Seq<(u32, V)>, k: u32, v: V)
    requires
        entries_unique(prev),
        !entries_contain(prev, k),
    ensures
        entries_unique(prev.push((k, v))),
        entries_get(prev.push((k, v)), k) == Some(v),
        forall|k2: u32|
            k2 != k ==> #[trigger] entries_get(prev.push((k, v)), k2) == entries_get(prev, k2),
{
    let s = prev.push((k, v));
    assert forall|a: int, b: int|
        0 <= a < b < s.len() implies (#[trigger] s[a]).0 != (#[trigger] s[b]).0 by {
        if b < prev.len() {
            assert(prev[a].0 != prev[b].0);
        } else {
            assert(prev[a].0 == s[a].0);
            assert(prev[a].0 != k);
        }
    }
    lemma_entries_get_at(s, k, prev.len() as int);
    assert forall|k2: u32| k2 != k implies #[trigger] entries_get(s, k2) == entries_get(
        prev,
        k2,
    ) by {
        if entries_contain(prev, k2) {
            let a = entries_index_of(prev, k2);
            assert(s[a].0 == k2);
            lemma_entries_get_at(s, k2, a);
            lemma_entries_get_at(prev, k2, a);
        } else {
            if entries_contain(s, k2) {
                let a = entries_index_of(s, k2);
                assert(prev[a].0 == k2);
            }
        }
    }
}

} // verus!
