//! Keyed registries for per-instrument state.
//!
//! Both registries map an instrument key to its state.  `UnsafeHashMap` is
//! the single-owner fast-path registry; `SafeHashMap` is the shared
//! counterpart with the same observable behavior.  Entries are never
//! removed once created, matching the process-lifetime registry the
//! dispatch engine relies on.

use vstd::prelude::*;

verus! {

/// First index whose key equals `k`, searching from `i`; -1 when absent.
pub open spec fn spec_key_idx<V>(s: Seq<(u64, V)>, k: u64, i: int) -> int
    decreases s.len() - i,
{
    if i < 0 || i >= s.len() {
        -1
    } else if s[i].0 == k {
        i
    } else {
        spec_key_idx(s, k, i + 1)
    }
}

/// A registry keyed by instrument, stored as an association list with
/// unique keys.
pub struct UnsafeHashMap<V> {
    pub pairs: Vec<(u64, V)>,
}

impl<V> UnsafeHashMap<V> {
    pub open spec fn spec_contains(&self, k: u64) -> bool {
        spec_key_idx(self.pairs@, k, 0) >= 0
    }

    pub open spec fn spec_get(&self, k: u64) -> V {
        self.pairs@[spec_key_idx(self.pairs@, k, 0)].1
    }

    pub fn new() -> (r: Self)
        ensures
            forall|k: u64| !r.spec_contains(k),
    {
        UnsafeHashMap { pairs: Vec::new() }
    }

    fn find(&self, key: u64) -> (r: Option<usize>)
        ensures
            match r {
                Some(i) => i as int == spec_key_idx(self.pairs@, key, 0) && i
                    < self.pairs@.len() && self.pairs@[i as int].0 == key,
                None => spec_key_idx(self.pairs@, key, 0) == -1,
            },
    {
        let n = self.pairs.len();
        let mut i: usize = 0;
        while i < n
            invariant
                i <= n,
                n == self.pairs@.len(),
                spec_key_idx(self.pairs@, key, 0) == spec_key_idx(self.pairs@, key, i as int),
            decreases n - i,
        {
            if self.pairs[i].0 == key {
                return Some(i);
            }
            i = i + 1;
        }
        None
    }

    /// Binds `key` to `value`, handing back what it displaced, if anything.
    pub fn insert(&mut self, key: u64, value: V) -> (displaced: Option<V>)
        ensures
            final(self).spec_contains(key),
            final(self).spec_get(key) == value,
            forall|k2: u64|
                k2 != key ==> #[trigger] final(self).spec_contains(k2) == old(self).spec_contains(
                    k2,
                ),
            forall|k2: u64|
                k2 != key && old(self).spec_contains(k2) ==> #[trigger] final(self).spec_get(k2)
                    == old(self).spec_get(k2),
            match displaced {
                Some(v) => old(self).spec_contains(key) && v == old(self).spec_get(key),
                None => !old(self).spec_contains(key),
            },
    {
        let found = self.find(key);
        match found {
            Some(i) => {
                let ghost s0 = self.pairs@;
                let pair = self.pairs.remove(i);
                self.pairs.insert(i, (key, value));
                proof {
                    assert(self.pairs@ =~= s0.update(i as int, (key, value)));
                    lemma_key_idx_update(s0, i as int, (key, value));
                    assert forall|k2: u64| k2 != key implies #[trigger] spec_key_idx(
                        self.pairs@,
                        k2,
                        0,
                    ) == spec_key_idx(s0, k2, 0) && (spec_key_idx(s0, k2, 0) >= 0
                        ==> self.pairs@[spec_key_idx(s0, k2, 0)].1 == s0[spec_key_idx(
                        s0,
                        k2,
                        0,
                    )].1) by {
                        lemma_key_idx_found(s0, k2, 0);
                        assert(spec_key_idx(self.pairs@, k2, 0) == spec_key_idx(s0, k2, 0));
                        if spec_key_idx(s0, k2, 0) >= 0 {
                            assert(s0[spec_key_idx(s0, k2, 0)].0 == k2);
                            assert(spec_key_idx(s0, k2, 0) != i);
                        }
                    }
                    assert forall|k2: u64|
                        k2 != key && old(self).spec_contains(k2) implies self.spec_get(k2) == old(
                        self,
                    ).spec_get(k2) by {
                        lemma_key_idx_found(s0, k2, 0);
                        let idx = spec_key_idx(s0, k2, 0);
                        assert(idx >= 0);
                        assert(s0[idx].0 == k2);
                        assert(idx != i);
                        assert(spec_key_idx(self.pairs@, k2, 0) == idx);
                        assert(self.pairs@[idx] == s0[idx]);
                        assert(self.spec_get(k2) == self.pairs@[idx].1);
                    }
                    assert forall|k2: u64|
                        k2 != key implies self.spec_contains(k2) == old(self).spec_contains(
                        k2,
                    ) by {
                        assert(spec_key_idx(self.pairs@, k2, 0) == spec_key_idx(s0, k2, 0));
                    }
                    assert(forall|k2: u64|
                        k2 != key && old(self).spec_contains(k2) ==> #[trigger] self.spec_get(k2)
                            == old(self).spec_get(k2));
                }
                Some(pair.1)
            },
            None => {
                let ghost s0 = self.pairs@;
                self.pairs.push((key, value));
                proof {
                    lemma_key_idx_push(s0, (key, value));
                    assert forall|k2: u64|
                        k2 != key && spec_key_idx(s0, k2, 0) >= 0 implies self.pairs@[
                        spec_key_idx(s0, k2, 0)] == s0[spec_key_idx(s0, k2, 0)] by {
                        lemma_key_idx_found(s0, k2, 0);
                    }
                }
                None
            },
        }
    }

    /// Looks the key up.
    pub fn get(&self, key: u64) -> (r: Option<&V>)
        ensures
            match r {
                Some(v) => self.spec_contains(key) && *v == self.spec_get(key),
                None => !self.spec_contains(key),
            },
    {
        let found = self.find(key);
        match found {
            Some(i) => Some(&self.pairs[i].1),
            None => None,
        }
    }

}

/// A found index holds the key it was found for.
proof fn lemma_key_idx_found<V>(s: Seq<(u64, V)>, k: u64, j: int)
    requires
        0 <= j <= s.len(),
    ensures
        spec_key_idx(s, k, j) >= 0 ==> j <= spec_key_idx(s, k, j) < s.len() && s[spec_key_idx(
            s,
            k,
            j,
        )].0 == k,
    decreases s.len() - j,
{
    if j < s.len() {
        lemma_key_idx_found(s, k, j + 1);
    }
}

/// Updating position `i`, which already holds key `p.0`, does not move any
/// key's first position.
proof fn lemma_key_idx_update<V>(s: Seq<(u64, V)>, i: int, p: (u64, V))
    requires
        0 <= i < s.len(),
        s[i].0 == p.0,
    ensures
        forall|k: u64, j: int|
            0 <= j <= s.len() ==> #[trigger] spec_key_idx(s.update(i, p), k, j) == spec_key_idx(
                s,
                k,
                j,
            ),
    decreases s.len(),
{
    let s2 = s.update(i, p);
    assert forall|k: u64, j: int| 0 <= j <= s.len() implies #[trigger] spec_key_idx(s2, k, j)
        == spec_key_idx(s, k, j) by {
        lemma_key_idx_update_one(s, i, p, k, j);
    }
}

proof fn lemma_key_idx_update_one<V>(s: Seq<(u64, V)>, i: int, p: (u64, V), k: u64, j: int)
    requires
        0 <= i < s.len(),
        s[i].0 == p.0,
        0 <= j <= s.len(),
    ensures
        spec_key_idx(s.update(i, p), k, j) == spec_key_idx(s, k, j),
    decreases s.len() - j,
{
    if j < s.len() {
        lemma_key_idx_update_one(s, i, p, k, j + 1);
    }
}

/// Pushing a fresh pair leaves other keys' positions alone and gives the
/// new key the last position.
proof fn lemma_key_idx_push<V>(s: Seq<(u64, V)>, p: (u64, V))
    ensures
        forall|k: u64, j: int|
            0 <= j <= s.len() && k != p.0 ==> #[trigger] spec_key_idx(s.push(p), k, j) == (
            if spec_key_idx(s, k, j) >= 0 {
                spec_key_idx(s, k, j)
            } else {
                -1
            }),
        spec_key_idx(s, p.0, 0) == -1 ==> spec_key_idx(s.push(p), p.0, 0) == s.len(),
{
    assert forall|k: u64, j: int| 0 <= j <= s.len() && k != p.0 implies #[trigger] spec_key_idx(
        s.push(p),
        k,
        j,
    ) == (if spec_key_idx(s, k, j) >= 0 {
        spec_key_idx(s, k, j)
    } else {
        -1
    }) by {
        lemma_key_idx_push_one(s, p, k, j);
    }
    lemma_key_idx_push_self(s, p, 0);
}

proof fn lemma_key_idx_push_one<V>(s: Seq<(u64, V)>, p: (u64, V), k: u64, j: int)
    requires
        0 <= j <= s.len(),
        k != p.0,
    ensures
        spec_key_idx(s.push(p), k, j) == (if spec_key_idx(s, k, j) >= 0 {
            spec_key_idx(s, k, j)
        } else {
            -1
        }),
    decreases s.len() - j,
{
    if j < s.len() {
        lemma_key_idx_push_one(s, p, k, j + 1);
    } else {
        reveal_with_fuel(spec_key_idx, 3);
    }
}

proof fn lemma_key_idx_push_self<V>(s: Seq<(u64, V)>, p: (u64, V), j: int)
    requires
        0 <= j <= s.len(),
    ensures
        spec_key_idx(s, p.0, j) == -1 ==> spec_key_idx(s.push(p), p.0, j) == s.len(),
    decreases s.len() - j,
{
    if j < s.len() {
        lemma_key_idx_push_self(s, p, j + 1);
    }
}


/// The shared counterpart of the registry: same keys, same lookup
/// behavior, usable where several pipeline stages read one table.
pub struct SafeHashMap<V> {
    pub map: UnsafeHashMap<V>,
}

impl<V> SafeHashMap<V> {
    pub open spec fn spec_contains(&self, k: u64) -> bool {
        self.map.spec_contains(k)
    }

    pub open spec fn spec_get(&self, k: u64) -> V {
        self.map.spec_get(k)
    }

    pub fn new() -> (r: Self)
        ensures
            forall|k: u64| !r.spec_contains(k),
    {
        SafeHashMap { map: UnsafeHashMap::new() }
    }

    /// Binds `key` to `value`, displacing any previous binding.
    pub fn insert(&mut self, key: u64, value: V)
        ensures
            final(self).spec_contains(key),
            final(self).spec_get(key) == value,
            forall|k2: u64|
                k2 != key ==> #[trigger] final(self).spec_contains(k2) == old(self).spec_contains(
                    k2,
                ) && (old(self).spec_contains(k2) ==> final(self).spec_get(k2) == old(
                    self,
                ).spec_get(k2)),
    {
        self.map.insert(key, value);
    }

    /// Reads the binding of `key`.
    pub fn read(&self, key: u64) -> (r: Option<&V>)
        ensures
            match r {
                Some(v) => self.spec_contains(key) && *v == self.spec_get(key),
                None => !self.spec_contains(key),
            },
    {
        self.map.get(key)
    }
}

} // verus!
