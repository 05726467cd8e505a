//! The state overlay: the merged, read-only key/value view the entry point
//! executes against. It is built once, by a pure merge of a base snapshot
//! with injected pairs; each injected pair overwrites any base binding of
//! the same key, later injected pairs overwrite earlier ones, and all other
//! base keys are unaffected.

use vstd::prelude::*;

verus! {

/// The mathematical view of a list of raw key/value pairs.
pub type PairsView = Seq<(Seq<u8>, Seq<u8>)>;

/// The view of a vector of byte-key/byte-value pairs.
pub open spec fn pairs_view(s: Seq<(Vec<u8>, Vec<u8>)>) -> PairsView {
    s.map_values(|p: (Vec<u8>, Vec<u8>)| (p.0@, p.1@))
}

/// No two pairs carry the same key.
pub open spec fn keys_unique(s: PairsView) -> bool {
    forall|i: int, j: int| 0 <= i < j < s.len() ==> s[i].0 != s[j].0
}

/// The value bound to `k`, taken from the first pair that carries `k`.
pub open spec fn spec_lookup(s: PairsView, k: Seq<u8>) -> Option<Seq<u8>>
    decreases s.len(),
{
    if s.len() == 0 {
        None
    } else if s[0].0 == k {
        Some(s[0].1)
    } else {
        spec_lookup(s.drop_first(), k)
    }
}

/// `s` with `k` bound to `v`: the first pair carrying `k` is replaced in
/// place, or the pair is appended when `k` is absent.
pub open spec fn spec_inject(s: PairsView, k: Seq<u8>, v: Seq<u8>) -> PairsView
    decreases s.len(),
{
    if s.len() == 0 {
        seq![(k, v)]
    } else if s[0].0 == k {
        seq![(k, v)] + s.drop_first()
    } else {
        seq![s[0]] + spec_inject(s.drop_first(), k, v)
    }
}

/// The merge of a base with injected pairs, applied front to back, so a
/// later injected pair overwrites an earlier one of the same key.
pub open spec fn spec_merge(base: PairsView, inj: PairsView) -> PairsView
    decreases inj.len(),
{
    if inj.len() == 0 {
        base
    } else {
        spec_inject(spec_merge(base, inj.drop_last()), inj.last().0, inj.last().1)
    }
}

/// The value the injected pairs bind to `k`, if any: the last pair of `inj`
/// that carries `k` wins.
pub open spec fn spec_injected_value(inj: PairsView, k: Seq<u8>) -> Option<Seq<u8>>
    decreases inj.len(),
{
    if inj.len() == 0 {
        None
    } else if inj.last().0 == k {
        Some(inj.last().1)
    } else {
        spec_injected_value(inj.drop_last(), k)
    }
}

proof fn lemma_inject_found(s: PairsView, k: Seq<u8>, v: Seq<u8>, i: int)
    requires
        0 <= i < s.len(),
        s[i].0 == k,
        forall|j: int| 0 <= j < i ==> s[j].0 != k,
    ensures
        spec_inject(s, k, v) == s.update(i, (k, v)),
    decreases i,
{
    if i == 0 {
        assert(spec_inject(s, k, v) =~= s.update(0, (k, v)));
    } else {
        assert(s[0].0 != k);
        lemma_inject_found(s.drop_first(), k, v, i - 1);
        assert(spec_inject(s, k, v) =~= s.update(i, (k, v)));
    }
}

proof fn lemma_inject_absent(s: PairsView, k: Seq<u8>, v: Seq<u8>)
    requires
        forall|j: int| 0 <= j < s.len() ==> s[j].0 != k,
    ensures
        spec_inject(s, k, v) == s.push((k, v)),
    decreases s.len(),
{
    if s.len() == 0 {
        assert(spec_inject(s, k, v) =~= s.push((k, v)));
    } else {
        lemma_inject_absent(s.drop_first(), k, v);
        assert(spec_inject(s, k, v) =~= s.push((k, v)));
    }
}

proof fn lemma_lookup_at(s: PairsView, k: Seq<u8>, i: int)
    requires
        0 <= i < s.len(),
        s[i].0 == k,
        forall|j: int| 0 <= j < i ==> s[j].0 != k,
    ensures
        spec_lookup(s, k) == Some(s[i].1),
    decreases i,
{
    if i == 0 {
    } else {
        assert(s[0].0 != k);
        lemma_lookup_at(s.drop_first(), k, i - 1);
    }
}

proof fn lemma_lookup_absent(s: PairsView, k: Seq<u8>)
    requires
        forall|j: int| 0 <= j < s.len() ==> s[j].0 != k,
    ensures
        spec_lookup(s, k) is None,
    decreases s.len(),
{
    if s.len() == 0 {
    } else {
        lemma_lookup_absent(s.drop_first(), k);
    }
}

proof fn lemma_inject_lookup_hit(s: PairsView, k: Seq<u8>, v: Seq<u8>)
    ensures
        spec_lookup(spec_inject(s, k, v), k) == Some(v),
    decreases s.len(),
{
    if s.len() == 0 {
    } else if s[0].0 == k {
        assert(spec_inject(s, k, v)[0] == (k, v));
    } else {
        lemma_inject_lookup_hit(s.drop_first(), k, v);
        let t = seq![s[0]] + spec_inject(s.drop_first(), k, v);
        assert(t.drop_first() =~= spec_inject(s.drop_first(), k, v));
        assert(t[0].0 != k);
    }
}

proof fn lemma_inject_lookup_miss(s: PairsView, k: Seq<u8>, v: Seq<u8>, k2: Seq<u8>)
    requires
        k2 != k,
    ensures
        spec_lookup(spec_inject(s, k, v), k2) == spec_lookup(s, k2),
    decreases s.len(),
{
    if s.len() == 0 {
        let t = seq![(k, v)];
        assert(t[0].0 == k && t[0].0 != k2);
        assert(spec_lookup(t, k2) == spec_lookup(t.drop_first(), k2));
        assert(t.drop_first() =~= Seq::<(Seq<u8>, Seq<u8>)>::empty());
        assert(spec_lookup(Seq::<(Seq<u8>, Seq<u8>)>::empty(), k2) is None);
    } else if s[0].0 == k {
        let t = seq![(k, v)] + s.drop_first();
        assert(t.len() > 0 && t[0].0 == k && t[0].0 != k2);
        assert(spec_lookup(t, k2) == spec_lookup(t.drop_first(), k2));
        assert(t.drop_first() =~= s.drop_first());
        assert(spec_lookup(s, k2) == spec_lookup(s.drop_first(), k2));
    } else {
        lemma_inject_lookup_miss(s.drop_first(), k, v, k2);
        let t = seq![s[0]] + spec_inject(s.drop_first(), k, v);
        assert(t.len() > 0 && t[0] == s[0]);
        assert(t.drop_first() =~= spec_inject(s.drop_first(), k, v));
        if s[0].0 == k2 {
            assert(spec_lookup(t, k2) == Some(t[0].1));
            assert(spec_lookup(s, k2) == Some(s[0].1));
        } else {
            assert(spec_lookup(t, k2) == spec_lookup(t.drop_first(), k2));
            assert(spec_lookup(s, k2) == spec_lookup(s.drop_first(), k2));
        }
    }
}

proof fn lemma_merge_front(base: PairsView, inj: PairsView)
    requires
        inj.len() > 0,
    ensures
        spec_merge(base, inj) == spec_merge(
            spec_inject(base, inj[0].0, inj[0].1),
            inj.drop_first(),
        ),
    decreases inj.len(),
{
    if inj.len() == 1 {
        assert(inj.drop_last() =~= Seq::<(Seq<u8>, Seq<u8>)>::empty());
        assert(inj.drop_first() =~= Seq::<(Seq<u8>, Seq<u8>)>::empty());
        assert(inj.last() == inj[0]);
        assert(spec_merge(base, inj) == spec_inject(
            spec_merge(base, inj.drop_last()),
            inj.last().0,
            inj.last().1,
        ));
        assert(spec_merge(base, Seq::<(Seq<u8>, Seq<u8>)>::empty()) == base);
        assert(spec_merge(
            spec_inject(base, inj[0].0, inj[0].1),
            Seq::<(Seq<u8>, Seq<u8>)>::empty(),
        ) == spec_inject(base, inj[0].0, inj[0].1));
    } else {
        let tail = inj.drop_last();
        let merged0 = spec_inject(base, inj[0].0, inj[0].1);
        lemma_merge_front(base, tail);
        assert(tail[0] == inj[0]);
        assert(inj.drop_first().drop_last() =~= tail.drop_first());
        assert(inj.drop_first().last() == inj.last());
        assert(spec_merge(base, inj) == spec_inject(
            spec_merge(base, tail),
            inj.last().0,
            inj.last().1,
        ));
        assert(spec_merge(base, tail) == spec_merge(merged0, tail.drop_first()));
        assert(inj.drop_first().len() > 0);
        assert(spec_merge(merged0, inj.drop_first()) == spec_inject(
            spec_merge(merged0, inj.drop_first().drop_last()),
            inj.drop_first().last().0,
            inj.drop_first().last().1,
        ));
    }
}

/// Every key of the injected pairs is bound in the merge to exactly the
/// (last) value injected for it, overriding any base binding; every other
/// key keeps its base binding unchanged.
pub proof fn lemma_merge_lookup(base: PairsView, inj: PairsView, k: Seq<u8>)
    ensures
        spec_lookup(spec_merge(base, inj), k) == (match spec_injected_value(inj, k) {
            Some(v) => Some(v),
            None => spec_lookup(base, k),
        }),
    decreases inj.len(),
{
    if inj.len() == 0 {
    } else {
        lemma_merge_lookup(base, inj.drop_last(), k);
        if inj.last().0 == k {
            lemma_inject_lookup_hit(spec_merge(base, inj.drop_last()), k, inj.last().1);
        } else {
            lemma_inject_lookup_miss(
                spec_merge(base, inj.drop_last()),
                inj.last().0,
                inj.last().1,
                k,
            );
        }
    }
}

/// Byte-for-byte equality of two keys or values.
fn bytes_eq(a: &Vec<u8>, b: &Vec<u8>) -> (r: bool)
    ensures
        r == (a@ == b@),
{
    if a.len() != b.len() {
        return false;
    }
    let mut i: usize = 0;
    while i < a.len()
        invariant
            a@.len() == b@.len(),
            i <= a@.len(),
            forall|j: int| 0 <= j < i ==> a@[j] == b@[j],
        decreases a@.len() - i,
    {
        if a[i] != b[i] {
            return false;
        }
        i += 1;
    }
    proof {
        assert(a@ =~= b@);
    }
    true
}

/// Binds `key` to `value` in `pairs`: replaces the first pair of that key
/// in place, or appends when the key is absent.
fn inject_pair(pairs: &mut Vec<(Vec<u8>, Vec<u8>)>, key: Vec<u8>, value: Vec<u8>)
    ensures
        pairs_view(final(pairs)@) == spec_inject(pairs_view(old(pairs)@), key@, value@),
        keys_unique(pairs_view(old(pairs)@)) ==> keys_unique(pairs_view(final(pairs)@)),
{
    let n = pairs.len();
    let mut i: usize = 0;
    while i < n
        invariant
            n == pairs@.len(),
            pairs@ == old(pairs)@,
            i <= n,
            forall|j: int| 0 <= j < i ==> pairs_view(pairs@)[j].0 != key@,
        decreases n - i,
    {
        if bytes_eq(&pairs[i].0, &key) {
            let ghost s = pairs_view(pairs@);
            pairs.set(i, (key, value));
            proof {
                lemma_inject_found(s, key@, value@, i as int);
                assert(pairs_view(pairs@) =~= s.update(i as int, (key@, value@)));
                if keys_unique(s) {
                    assert(s.update(i as int, (key@, value@))[i as int].0 == s[i as int].0);
                    assert(keys_unique(s.update(i as int, (key@, value@))));
                }
            }
            return;
        }
        i += 1;
    }
    let ghost s = pairs_view(pairs@);
    pairs.push((key, value));
    proof {
        lemma_inject_absent(s, key@, value@);
        assert(pairs_view(pairs@) =~= s.push((key@, value@)));
        if keys_unique(s) {
            assert(keys_unique(s.push((key@, value@))));
        }
    }
}

/// Whether no key occurs twice, so the pairs can serve as the base of an
/// overlay.
pub fn keys_are_unique(pairs: &Vec<(Vec<u8>, Vec<u8>)>) -> (r: bool)
    ensures
        r == keys_unique(pairs_view(pairs@)),
{
    let n = pairs.len();
    let mut i: usize = 0;
    while i < n
        invariant
            n == pairs@.len(),
            i <= n,
            forall|a: int, b: int|
                0 <= a < b < n && a < i ==> pairs_view(pairs@)[a].0 != pairs_view(pairs@)[b].0,
        decreases n - i,
    {
        let mut j: usize = i + 1;
        while j < n
            invariant
                n == pairs@.len(),
                i < n,
                i + 1 <= j <= n,
                forall|a: int, b: int|
                    0 <= a < b < n && a < i ==> pairs_view(pairs@)[a].0 != pairs_view(pairs@)[b].0,
                forall|b: int|
                    i < b < j ==> pairs_view(pairs@)[i as int].0 != pairs_view(pairs@)[b].0,
            decreases n - j,
        {
            if bytes_eq(&pairs[i].0, &pairs[j].0) {
                proof {
                    assert(pairs_view(pairs@)[i as int].0 == pairs_view(pairs@)[j as int].0);
                }
                return false;
            }
            j += 1;
        }
        i += 1;
    }
    true
}

/// The merged, read-only key/value view the entry point executes against.
/// Keys are unique; the overlay is never mutated once built.
#[derive(Debug)]
pub struct StateOverlay {
    pairs: Vec<(Vec<u8>, Vec<u8>)>,
}

impl View for StateOverlay {
    type V = PairsView;

    closed spec fn view(&self) -> PairsView {
        pairs_view(self.pairs@)
    }
}

impl StateOverlay {
    /// The overlay's invariant: no key is bound twice.
    pub open spec fn wf(&self) -> bool {
        keys_unique(self@)
    }

    /// Pure merge of a base snapshot with the injected pairs. Deterministic:
    /// the result is a function of the two arguments alone. Each injected
    /// pair overwrites any base binding of its key; unspecified keys are
    /// unaffected.
    pub fn build(base: Vec<(Vec<u8>, Vec<u8>)>, injected: Vec<(Vec<u8>, Vec<u8>)>) -> (r:
        StateOverlay)
        requires
            keys_unique(pairs_view(base@)),
        ensures
            r@ == spec_merge(pairs_view(base@), pairs_view(injected@)),
            r.wf(),
    {
        let ghost base_v = pairs_view(base@);
        let ghost inj_v = pairs_view(injected@);
        let mut pairs = base;
        let mut rest = injected;
        while rest.len() > 0
            invariant
                keys_unique(pairs_view(pairs@)),
                spec_merge(pairs_view(pairs@), pairs_view(rest@)) == spec_merge(base_v, inj_v),
            decreases rest@.len(),
        {
            let ghost s = pairs_view(pairs@);
            let ghost rv = pairs_view(rest@);
            let p = rest.remove(0);
            proof {
                assert(pairs_view(rest@) =~= rv.drop_first());
                assert(rv[0] == (p.0@, p.1@));
                lemma_merge_front(s, rv);
            }
            inject_pair(&mut pairs, p.0, p.1);
        }
        proof {
            assert(pairs_view(rest@) =~= Seq::<(Seq<u8>, Seq<u8>)>::empty());
        }
        StateOverlay { pairs }
    }

    /// The value bound to `key`, if any.
    pub fn get(&self, key: &Vec<u8>) -> (r: Option<&Vec<u8>>)
        ensures
            (match r {
                Some(v) => spec_lookup(self@, key@) == Some(v@),
                None => spec_lookup(self@, key@) is None,
            }),
    {
        let n = self.pairs.len();
        let mut i: usize = 0;
        while i < n
            invariant
                n == self.pairs@.len(),
                i <= n,
                forall|j: int| 0 <= j < i ==> pairs_view(self.pairs@)[j].0 != key@,
            decreases n - i,
        {
            if bytes_eq(&self.pairs[i].0, key) {
                proof {
                    lemma_lookup_at(self@, key@, i as int);
                }
                return Some(&self.pairs[i].1);
            }
            i += 1;
        }
        proof {
            lemma_lookup_absent(self@, key@);
        }
        None
    }

    /// How many keys the overlay binds.
    pub fn len(&self) -> (n: usize)
        ensures
            n == self@.len(),
    {
        self.pairs.len()
    }

    /// The overlay's pairs, for handing the full key space to the
    /// execution engine.
    pub fn pairs(&self) -> (r: &Vec<(Vec<u8>, Vec<u8>)>)
        ensures
            pairs_view(r@) == self@,
    {
        &self.pairs
    }
}

/// Building an overlay is deterministic: two overlays built from the same
/// base and the same injected pairs are identical, pair for pair and byte
/// for byte.
pub proof fn lemma_build_deterministic(
    o1: StateOverlay,
    o2: StateOverlay,
    base: PairsView,
    injected: PairsView,
)
    requires
        o1@ == spec_merge(base, injected),
        o2@ == spec_merge(base, injected),
    ensures
        o1@ == o2@,
{
}

} // verus!
