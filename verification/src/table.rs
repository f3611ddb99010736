//! A device-keyed table, the executable form of the ledger's persisted maps.

use vstd::prelude::*;
use crate::identity::DeviceId;

verus! {

/// Whether an entry with key `k` occurs in `s`.
spec fn assoc_contains<V>(s: Seq<(DeviceId, V)>, k: DeviceId) -> bool
    decreases s.len(),
{
    if s.len() == 0 {
        false
    } else if s[0].0 == k {
        true
    } else {
        assoc_contains(s.subrange(1, s.len() as int), k)
    }
}

/// The value of the first entry with key `k` in `s`.
spec fn assoc_value<V>(s: Seq<(DeviceId, V)>, k: DeviceId) -> V
    recommends
        assoc_contains(s, k),
    decreases s.len(),
{
    if s.len() == 0 {
        arbitrary()
    } else if s[0].0 == k {
        s[0].1
    } else {
        assoc_value(s.subrange(1, s.len() as int), k)
    }
}

/// Searching from position `i` onward gives the same answer once the entry
/// at `i` does not match.
proof fn lemma_assoc_step<V>(s: Seq<(DeviceId, V)>, k: DeviceId, i: int)
    requires
        0 <= i < s.len(),
        s[i].0 != k,
    ensures
        assoc_contains(s.skip(i), k) == assoc_contains(s.skip(i + 1), k),
        assoc_contains(s.skip(i), k) ==> assoc_value(s.skip(i), k) == assoc_value(s.skip(i + 1), k),
{
    let t = s.skip(i);
    assert(t[0] == s[i]);
    assert(t.subrange(1, t.len() as int) =~= s.skip(i + 1));
}

/// Overwriting the first entry that holds `key` changes the association at
/// `key` alone.
proof fn lemma_assoc_update<V>(s: Seq<(DeviceId, V)>, i: int, v2: V, k2: DeviceId)
    requires
        0 <= i < s.len(),
        forall|j: int| 0 <= j < i ==> s[j].0 != s[i].0,
    ensures
        assoc_contains(s.update(i, (s[i].0, v2)), k2) == (assoc_contains(s, k2) || k2 == s[i].0),
        k2 == s[i].0 ==> assoc_value(s.update(i, (s[i].0, v2)), k2) == v2,
        k2 != s[i].0 && assoc_contains(s, k2) ==> assoc_value(s.update(i, (s[i].0, v2)), k2)
            == assoc_value(s, k2),
    decreases i,
{
    let t = s.update(i, (s[i].0, v2));
    if i == 0 {
        if k2 != s[0].0 {
            assert(t.subrange(1, t.len() as int) =~= s.subrange(1, s.len() as int));
        }
    } else {
        assert(t[0] == s[0]);
        if s[0].0 != k2 {
            let s1 = s.subrange(1, s.len() as int);
            assert(s1[i - 1] == s[i]);
            lemma_assoc_update(s1, i - 1, v2, k2);
            assert(t.subrange(1, t.len() as int) =~= s1.update(i - 1, (s1[i - 1].0, v2)));
        }
    }
}

/// Appending an entry with a fresh key changes the association at that key
/// alone.
proof fn lemma_assoc_push<V>(s: Seq<(DeviceId, V)>, k: DeviceId, v: V, k2: DeviceId)
    requires
        !assoc_contains(s, k),
    ensures
        assoc_contains(s.push((k, v)), k2) == (assoc_contains(s, k2) || k2 == k),
        k2 == k ==> assoc_value(s.push((k, v)), k2) == v,
        k2 != k && assoc_contains(s, k2) ==> assoc_value(s.push((k, v)), k2) == assoc_value(s, k2),
    decreases s.len(),
{
    let t = s.push((k, v));
    if s.len() == 0 {
        assert(t[0] == (k, v));
        if k2 != k {
            assert(t.subrange(1, t.len() as int) =~= Seq::<(DeviceId, V)>::empty());
            assert(!assoc_contains(Seq::<(DeviceId, V)>::empty(), k2));
            assert(!assoc_contains(t, k2));
        } else {
            assert(assoc_contains(t, k2));
            assert(assoc_value(t, k2) == v);
        }
    } else {
        assert(t[0] == s[0]);
        let s1 = s.subrange(1, s.len() as int);
        assert(!assoc_contains(s1, k));
        if s[0].0 != k2 {
            lemma_assoc_push(s1, k, v, k2);
            assert(t.subrange(1, t.len() as int) =~= s1.push((k, v)));
            assert(assoc_contains(t, k2) == assoc_contains(s1.push((k, v)), k2));
            assert(assoc_contains(s, k2) == assoc_contains(s1, k2));
            assert(assoc_contains(t, k2) == (assoc_contains(s, k2) || k2 == k));
        } else {
            assert(assoc_contains(t, k2));
            assert(assoc_contains(s, k2));
            assert(assoc_value(t, k2) == s[0].1);
        }
    }
}

/// A map from device identifiers to values, backed by a vector of entries.
pub struct Table<V> {
    entries: Vec<(DeviceId, V)>,
}

impl<V> View for Table<V> {
    type V = Map<DeviceId, V>;

    closed spec fn view(&self) -> Map<DeviceId, V> {
        Map::new(
            |k: DeviceId| assoc_contains(self.entries@, k),
            |k: DeviceId| assoc_value(self.entries@, k),
        )
    }
}

impl<V: Copy> Table<V> {
    /// An empty table.
    pub fn new() -> (t: Self)
        ensures
            t@ == Map::<DeviceId, V>::empty(),
    {
        let t = Table { entries: Vec::new() };
        proof {
            assert(t@ =~= Map::<DeviceId, V>::empty());
        }
        t
    }

    /// Looks the key up; `None` when it was never set.
    pub fn get(&self, k: DeviceId) -> (r: Option<V>)
        ensures
            r is Some <==> self@.contains_key(k),
            r is Some ==> r->0 == self@[k],
    {
        let n = self.entries.len();
        let mut i: usize = 0;
        proof {
            assert(self.entries@.skip(0) =~= self.entries@);
        }
        while i < n
            invariant
                i <= n,
                n == self.entries@.len(),
                assoc_contains(self.entries@, k) == assoc_contains(
                    self.entries@.skip(i as int),
                    k,
                ),
                assoc_contains(self.entries@, k) ==> assoc_value(self.entries@, k) == assoc_value(
                    self.entries@.skip(i as int),
                    k,
                ),
            decreases n - i,
        {
            let (key, val) = self.entries[i];
            if key == k {
                proof {
                    let t = self.entries@.skip(i as int);
                    assert(t[0] == self.entries@[i as int]);
                }
                return Some(val);
            }
            proof {
                lemma_assoc_step(self.entries@, k, i as int);
            }
            i += 1;
        }
        proof {
            assert(self.entries@.skip(n as int) =~= Seq::<(DeviceId, V)>::empty());
        }
        None
    }

    /// Sets the key to the value, overwriting any earlier binding.
    pub fn set(&mut self, k: DeviceId, v: V)
        ensures
            final(self)@ == old(self)@.insert(k, v),
    {
        let n = self.entries.len();
        let mut i: usize = 0;
        while i < n
            invariant
                i <= n,
                n == self.entries@.len(),
                forall|j: int| 0 <= j < i ==> self.entries@[j].0 != k,
                self.entries@ == old(self).entries@,
            decreases n - i,
        {
            let (key, _val) = self.entries[i];
            if key == k {
                self.entries[i] = (k, v);
                proof {
                    let s = old(self).entries@;
                    assert(self.entries@ == s.update(i as int, (s[i as int].0, v)));
                    assert forall|k2: DeviceId|
                        #[trigger] self@.contains_key(k2) == old(self)@.insert(
                            k,
                            v,
                        ).contains_key(k2) && (self@.contains_key(k2) ==> self@[k2] == old(
                        self,
                    )@.insert(k, v)[k2]) by {
                        lemma_assoc_update(s, i as int, v, k2);
                    }
                    assert(self@ =~= old(self)@.insert(k, v));
                }
                return;
            }
            i += 1;
        }
        proof {
            lemma_not_contains_of_no_match(self.entries@, k);
        }
        self.entries.push((k, v));
        proof {
            let s = old(self).entries@;
            assert forall|k2: DeviceId|
                #[trigger] self@.contains_key(k2) == old(self)@.insert(k, v).contains_key(k2) && (
            self@.contains_key(k2) ==> self@[k2] == old(self)@.insert(k, v)[k2]) by {
                lemma_assoc_push(s, k, v, k2);
            }
            assert(self@ =~= old(self)@.insert(k, v));
        }
    }
}

/// A key that matches no entry is absent.
proof fn lemma_not_contains_of_no_match<V>(s: Seq<(DeviceId, V)>, k: DeviceId)
    requires
        forall|j: int| 0 <= j < s.len() ==> s[j].0 != k,
    ensures
        !assoc_contains(s, k),
    decreases s.len(),
{
    if s.len() > 0 {
        let s1 = s.subrange(1, s.len() as int);
        lemma_not_contains_of_no_match(s1, k);
    }
}

} // verus!
