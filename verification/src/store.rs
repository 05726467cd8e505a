//! Small association-list stores with unique integer keys, used as the
//! explicit backing of the configuration records: one keyed by a single
//! id, one keyed by an id pair.

use vstd::prelude::*;

verus! {

/// No key occurs twice.
pub open spec fn kv_unique<V>(s: Seq<(u64, V)>) -> bool {
    forall|i: int, j: int| 0 <= i < j < s.len() ==> s[i].0 != s[j].0
}

/// The value bound to `k`, taken from the first entry that carries `k`.
pub open spec fn kv_lookup<V>(s: Seq<(u64, V)>, k: u64) -> Option<V>
    decreases s.len(),
{
    if s.len() == 0 {
        None
    } else if s[0].0 == k {
        Some(s[0].1)
    } else {
        kv_lookup(s.drop_first(), k)
    }
}

/// `s` with `k` bound to `v`: replaced in place, or appended when absent.
pub open spec fn kv_inject<V>(s: Seq<(u64, V)>, k: u64, v: V) -> Seq<(u64, V)>
    decreases s.len(),
{
    if s.len() == 0 {
        seq![(k, v)]
    } else if s[0].0 == k {
        seq![(k, v)] + s.drop_first()
    } else {
        seq![s[0]] + kv_inject(s.drop_first(), k, v)
    }
}

proof fn lemma_kv_lookup_at<V>(s: Seq<(u64, V)>, k: u64, i: int)
    requires
        0 <= i < s.len(),
        s[i].0 == k,
        forall|j: int| 0 <= j < i ==> s[j].0 != k,
    ensures
        kv_lookup(s, k) == Some(s[i].1),
    decreases i,
{
    if i == 0 {
    } else {
        assert(s[0].0 != k);
        lemma_kv_lookup_at(s.drop_first(), k, i - 1);
    }
}

proof fn lemma_kv_lookup_absent<V>(s: Seq<(u64, V)>, k: u64)
    requires
        forall|j: int| 0 <= j < s.len() ==> s[j].0 != k,
    ensures
        kv_lookup(s, k) is None,
    decreases s.len(),
{
    if s.len() == 0 {
    } else {
        lemma_kv_lookup_absent(s.drop_first(), k);
    }
}

proof fn lemma_kv_inject_found<V>(s: Seq<(u64, V)>, k: u64, v: V, i: int)
    requires
        0 <= i < s.len(),
        s[i].0 == k,
        forall|j: int| 0 <= j < i ==> s[j].0 != k,
    ensures
        kv_inject(s, k, v) == s.update(i, (k, v)),
    decreases i,
{
    if i == 0 {
        assert(kv_inject(s, k, v) =~= s.update(0, (k, v)));
    } else {
        assert(s[0].0 != k);
        lemma_kv_inject_found(s.drop_first(), k, v, i - 1);
        assert(kv_inject(s, k, v) =~= s.update(i, (k, v)));
    }
}

proof fn lemma_kv_inject_absent<V>(s: Seq<(u64, V)>, k: u64, v: V)
    requires
        forall|j: int| 0 <= j < s.len() ==> s[j].0 != k,
    ensures
        kv_inject(s, k, v) == s.push((k, v)),
    decreases s.len(),
{
    if s.len() == 0 {
        assert(kv_inject(s, k, v) =~= s.push((k, v)));
    } else {
        lemma_kv_inject_absent(s.drop_first(), k, v);
        assert(kv_inject(s, k, v) =~= s.push((k, v)));
    }
}

/// Reads the value bound to `key`, if any.
pub fn kv_get<V: Copy>(v: &Vec<(u64, V)>, key: u64) -> (r: Option<V>)
    ensures
        r == kv_lookup(v@, key),
{
    let n = v.len();
    let mut i: usize = 0;
    while i < n
        invariant
            n == v@.len(),
            i <= n,
            forall|j: int| 0 <= j < i ==> v@[j].0 != key,
        decreases n - i,
    {
        if v[i].0 == key {
            proof {
                lemma_kv_lookup_at(v@, key, i as int);
            }
            return Some(v[i].1);
        }
        i += 1;
    }
    proof {
        lemma_kv_lookup_absent(v@, key);
    }
    None
}

/// Binds `key` to `value`, replacing any existing binding in place.
pub fn kv_set<V: Copy>(v: &mut Vec<(u64, V)>, key: u64, value: V)
    ensures
        final(v)@ == kv_inject(old(v)@, key, value),
        kv_unique(old(v)@) ==> kv_unique(final(v)@),
{
    let n = v.len();
    let mut i: usize = 0;
    while i < n
        invariant
            n == v@.len(),
            v@ == old(v)@,
            i <= n,
            forall|j: int| 0 <= j < i ==> v@[j].0 != key,
        decreases n - i,
    {
        if v[i].0 == key {
            proof {
                lemma_kv_inject_found(v@, key, value, i as int);
            }
            v.set(i, (key, value));
            return;
        }
        i += 1;
    }
    proof {
        lemma_kv_inject_absent(v@, key, value);
    }
    v.push((key, value));
}

/// No key pair occurs twice.
pub open spec fn kv2_unique<V>(s: Seq<((u64, u64), V)>) -> bool {
    forall|i: int, j: int| 0 <= i < j < s.len() ==> s[i].0 != s[j].0
}

/// The value bound to the key pair `k`, if any.
pub open spec fn kv2_lookup<V>(s: Seq<((u64, u64), V)>, k: (u64, u64)) -> Option<V>
    decreases s.len(),
{
    if s.len() == 0 {
        None
    } else if s[0].0 == k {
        Some(s[0].1)
    } else {
        kv2_lookup(s.drop_first(), k)
    }
}

/// `s` with the key pair `k` bound to `v`.
pub open spec fn kv2_inject<V>(s: Seq<((u64, u64), V)>, k: (u64, u64), v: V) -> Seq<
    ((u64, u64), V),
>
    decreases s.len(),
{
    if s.len() == 0 {
        seq![(k, v)]
    } else if s[0].0 == k {
        seq![(k, v)] + s.drop_first()
    } else {
        seq![s[0]] + kv2_inject(s.drop_first(), k, v)
    }
}

proof fn lemma_kv2_lookup_at<V>(s: Seq<((u64, u64), V)>, k: (u64, u64), i: int)
    requires
        0 <= i < s.len(),
        s[i].0 == k,
        forall|j: int| 0 <= j < i ==> s[j].0 != k,
    ensures
        kv2_lookup(s, k) == Some(s[i].1),
    decreases i,
{
    if i == 0 {
    } else {
        assert(s[0].0 != k);
        lemma_kv2_lookup_at(s.drop_first(), k, i - 1);
    }
}

proof fn lemma_kv2_lookup_absent<V>(s: Seq<((u64, u64), V)>, k: (u64, u64))
    requires
        forall|j: int| 0 <= j < s.len() ==> s[j].0 != k,
    ensures
        kv2_lookup(s, k) is None,
    decreases s.len(),
{
    if s.len() == 0 {
    } else {
        lemma_kv2_lookup_absent(s.drop_first(), k);
    }
}

proof fn lemma_kv2_inject_found<V>(s: Seq<((u64, u64), V)>, k: (u64, u64), v: V, i: int)
    requires
        0 <= i < s.len(),
        s[i].0 == k,
        forall|j: int| 0 <= j < i ==> s[j].0 != k,
    ensures
        kv2_inject(s, k, v) == s.update(i, (k, v)),
    decreases i,
{
    if i == 0 {
        assert(kv2_inject(s, k, v) =~= s.update(0, (k, v)));
    } else {
        assert(s[0].0 != k);
        lemma_kv2_inject_found(s.drop_first(), k, v, i - 1);
        assert(kv2_inject(s, k, v) =~= s.update(i, (k, v)));
    }
}

proof fn lemma_kv2_inject_absent<V>(s: Seq<((u64, u64), V)>, k: (u64, u64), v: V)
    requires
        forall|j: int| 0 <= j < s.len() ==> s[j].0 != k,
    ensures
        kv2_inject(s, k, v) == s.push((k, v)),
    decreases s.len(),
{
    if s.len() == 0 {
        assert(kv2_inject(s, k, v) =~= s.push((k, v)));
    } else {
        lemma_kv2_inject_absent(s.drop_first(), k, v);
        assert(kv2_inject(s, k, v) =~= s.push((k, v)));
    }
}

/// Reads the value bound to the key pair `key`, if any.
pub fn kv2_get<V: Copy>(v: &Vec<((u64, u64), V)>, key: (u64, u64)) -> (r: Option<V>)
    ensures
        r == kv2_lookup(v@, key),
{
    let n = v.len();
    let mut i: usize = 0;
    while i < n
        invariant
            n == v@.len(),
            i <= n,
            forall|j: int| 0 <= j < i ==> v@[j].0 != key,
        decreases n - i,
    {
        let k = v[i].0;
        if k.0 == key.0 && k.1 == key.1 {
            proof {
                lemma_kv2_lookup_at(v@, key, i as int);
            }
            return Some(v[i].1);
        }
        i += 1;
    }
    proof {
        lemma_kv2_lookup_absent(v@, key);
    }
    None
}

/// Binds the key pair `key` to `value`, replacing any existing binding in
/// place.
pub fn kv2_set<V: Copy>(v: &mut Vec<((u64, u64), V)>, key: (u64, u64), value: V)
    ensures
        final(v)@ == kv2_inject(old(v)@, key, value),
        kv2_unique(old(v)@) ==> kv2_unique(final(v)@),
{
    let n = v.len();
    let mut i: usize = 0;
    while i < n
        invariant
            n == v@.len(),
            v@ == old(v)@,
            i <= n,
            forall|j: int| 0 <= j < i ==> v@[j].0 != key,
        decreases n - i,
    {
        let k = v[i].0;
        if k.0 == key.0 && k.1 == key.1 {
            proof {
                lemma_kv2_inject_found(v@, key, value, i as int);
            }
            v.set(i, (key, value));
            return;
        }
        i += 1;
    }
    proof {
        lemma_kv2_inject_absent(v@, key, value);
    }
    v.push((key, value));
}

} // verus!
