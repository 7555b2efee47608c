//! A map from code sequences to values, kept in increasing lexicographic
//! order of its keys, with no key twice.

use vstd::prelude::*;

verus! {

/// Lexicographic order on code sequences: a proper prefix comes first.
pub open spec fn seq_lt(a: Seq<u32>, b: Seq<u32>) -> bool
    decreases a.len(),
{
    if a.len() == 0 {
        b.len() > 0
    } else if b.len() == 0 {
        false
    } else if a[0] != b[0] {
        a[0] < b[0]
    } else {
        seq_lt(a.drop_first(), b.drop_first())
    }
}

/// No sequence comes before itself.
pub proof fn lemma_lt_irrefl(a: Seq<u32>)
    ensures !seq_lt(a, a),
    decreases a.len(),
{
    if a.len() > 0 {
        lemma_lt_irrefl(a.drop_first());
    }
}

/// The order is transitive.
pub proof fn lemma_lt_trans(a: Seq<u32>, b: Seq<u32>, c: Seq<u32>)
    requires seq_lt(a, b), seq_lt(b, c),
    ensures seq_lt(a, c),
    decreases a.len(),
{
    if a.len() > 0 && b.len() > 0 && c.len() > 0 && a[0] == b[0] && b[0] == c[0] {
        lemma_lt_trans(a.drop_first(), b.drop_first(), c.drop_first());
    }
}

/// Two different sequences are ordered one way or the other.
pub proof fn lemma_lt_total(a: Seq<u32>, b: Seq<u32>)
    ensures a == b || seq_lt(a, b) || seq_lt(b, a),
    decreases a.len(),
{
    if a.len() > 0 && b.len() > 0 && a[0] == b[0] {
        lemma_lt_total(a.drop_first(), b.drop_first());
        if a.drop_first() == b.drop_first() {
            assert(a =~= seq![a[0]] + a.drop_first());
            assert(b =~= seq![b[0]] + b.drop_first());
        }
    } else if a.len() == 0 && b.len() == 0 {
        assert(a =~= b);
    }
}

/// Whether `a` comes before `b`.
pub fn lt(a: &Vec<u32>, b: &Vec<u32>) -> (r: bool)
    ensures r == seq_lt(a@, b@),
{
    let mut i: usize = 0;
    assert(a@.skip(0) =~= a@);
    assert(b@.skip(0) =~= b@);
    while i < a.len() && i < b.len() && a[i] == b[i]
        invariant
            i <= a.len(),
            i <= b.len(),
            seq_lt(a@, b@) == seq_lt(a@.skip(i as int), b@.skip(i as int)),
        decreases a.len() - i,
    {
        proof {
            let sa = a@.skip(i as int);
            let sb = b@.skip(i as int);
            assert(sa.drop_first() =~= a@.skip(i + 1));
            assert(sb.drop_first() =~= b@.skip(i + 1));
        }
        i = i + 1;
    }
    if i == a.len() {
        i < b.len()
    } else if i == b.len() {
        false
    } else {
        a[i] < b[i]
    }
}

/// Whether `a` and `b` hold the same codes.
pub fn seq_eq(a: &Vec<u32>, b: &Vec<u32>) -> (r: bool)
    ensures r == (a@ == b@),
{
    if a.len() != b.len() {
        return false;
    }
    let mut i: usize = 0;
    while i < a.len()
        invariant
            i <= a.len(),
            a.len() == b.len(),
            a@.subrange(0, i as int) == b@.subrange(0, i as int),
        decreases a.len() - i,
    {
        if a[i] != b[i] {
            assert(a@[i as int] != b@[i as int]);
            return false;
        }
        assert(a@.subrange(0, i + 1) =~= a@.subrange(0, i as int).push(a@[i as int]));
        assert(b@.subrange(0, i + 1) =~= b@.subrange(0, i as int).push(b@[i as int]));
        i = i + 1;
    }
    assert(a@ =~= a@.subrange(0, a@.len() as int));
    assert(b@ =~= b@.subrange(0, b@.len() as int));
    true
}

/// The keys are in strictly increasing order.
pub open spec fn sorted(keys: Seq<Seq<u32>>) -> bool {
    forall|i: int, j: int| 0 <= i < j < keys.len() ==> seq_lt(#[trigger] keys[i], #[trigger] keys[j])
}

/// A sorted sequence holds no key twice.
pub proof fn lemma_sorted_distinct(keys: Seq<Seq<u32>>, i: int, j: int)
    requires
        sorted(keys),
        0 <= i < keys.len(),
        0 <= j < keys.len(),
        keys[i] == keys[j],
    ensures i == j,
{
    if i < j {
        lemma_lt_irrefl(keys[i]);
    } else if j < i {
        lemma_lt_irrefl(keys[i]);
    }
}

/// A map from code sequences to values; its entries stay in increasing key order.
pub struct SortedMap<V> {
    keys: Vec<Vec<u32>>,
    vals: Vec<V>,
}

impl<V> SortedMap<V> {
    /// The keys, in order.
    pub closed spec fn spec_keys(&self) -> Seq<Seq<u32>> {
        self.keys@.map_values(|k: Vec<u32>| k@)
    }

    /// The values, in the order of their keys.
    pub closed spec fn spec_vals(&self) -> Seq<V> {
        self.vals@
    }

    /// As many values as keys, and the keys in strictly increasing order.
    pub closed spec fn wf(&self) -> bool {
        &&& self.keys@.len() == self.vals@.len()
        &&& sorted(self.spec_keys())
    }

    /// The map from each key to its value.
    pub open spec fn view(&self) -> Map<Seq<u32>, V> {
        Map::new(
            |k: Seq<u32>| self.spec_keys().contains(k),
            |k: Seq<u32>| self.spec_vals()[self.spec_keys().index_of(k)],
        )
    }

    /// Number of entries.
    pub open spec fn spec_len(&self) -> nat {
        self.spec_keys().len()
    }

    /// The value of the key at position `i` is found under that key.
    pub proof fn lemma_view_at(&self, i: int)
        requires
            self.wf(),
            0 <= i < self.spec_len(),
        ensures
            self@.contains_key(self.spec_keys()[i]),
            self@[self.spec_keys()[i]] == self.spec_vals()[i],
            self.spec_vals().len() == self.spec_len(),
    {
        let ks = self.spec_keys();
        let k = ks[i];
        assert(ks.contains(k));
        let j = ks.index_of(k);
        lemma_sorted_distinct(ks, i, j);
    }

    /// The keys are in strictly increasing order, and there are as many
    /// entries as keys in the map.
    pub proof fn lemma_sorted_len(&self)
        requires self.wf(),
        ensures
            sorted(self.spec_keys()),
            self@.dom().len() == self.spec_len(),
    {
        let ks = self.spec_keys();
        assert forall|i: int, j: int| 0 <= i < ks.len() && 0 <= j < ks.len() && i != j implies ks[i] != ks[j] by {
            if ks[i] == ks[j] {
                lemma_sorted_distinct(ks, i, j);
            }
        }
        ks.unique_seq_to_set();
        assert(self@.dom() =~= ks.to_set());
    }

    /// No key is stored twice.
    pub proof fn lemma_keys_distinct(&self, i: int, j: int)
        requires
            self.wf(),
            0 <= i < self.spec_len(),
            0 <= j < self.spec_len(),
            self.spec_keys()[i] == self.spec_keys()[j],
        ensures i == j,
    {
        lemma_sorted_distinct(self.spec_keys(), i, j);
    }

    /// There are as many values as keys.
    pub proof fn lemma_lens(&self)
        requires self.wf(),
        ensures self.spec_vals().len() == self.spec_len(),
    {
    }

    /// An empty map.
    pub fn new() -> (r: Self)
        ensures
            r.wf(),
            r.spec_len() == 0,
            r@ == Map::<Seq<u32>, V>::empty(),
    {
        let r = SortedMap { keys: Vec::new(), vals: Vec::new() };
        proof {
            assert(r.spec_keys() =~= Seq::<Seq<u32>>::empty());
            assert(r@ =~= Map::<Seq<u32>, V>::empty());
        }
        r
    }

    /// Number of entries.
    pub fn len(&self) -> (r: usize)
        requires self.wf(),
        ensures r == self.spec_len(),
    {
        self.keys.len()
    }

    /// The key at position `i`.
    pub fn key_at(&self, i: usize) -> (r: &Vec<u32>)
        requires self.wf(), i < self.spec_len(),
        ensures r@ == self.spec_keys()[i as int],
    {
        &self.keys[i]
    }

    /// The value at position `i`.
    pub fn val_at(&self, i: usize) -> (r: &V)
        requires self.wf(), i < self.spec_len(),
        ensures *r == self.spec_vals()[i as int],
    {
        &self.vals[i]
    }

    /// Replaces the value at position `i`, keeping its key.
    pub fn set_val_at(&mut self, i: usize, v: V)
        requires
            old(self).wf(),
            i < old(self).spec_len(),
        ensures
            final(self).wf(),
            final(self).spec_keys() == old(self).spec_keys(),
            final(self).spec_vals() == old(self).spec_vals().update(i as int, v),
    {
        self.vals.set(i, v);
    }

    /// Removes every entry.
    pub fn clear(&mut self)
        ensures
            final(self).wf(),
            final(self).spec_len() == 0,
            final(self)@ == Map::<Seq<u32>, V>::empty(),
    {
        self.keys.clear();
        self.vals.clear();
        proof {
            assert(self.spec_keys() =~= Seq::<Seq<u32>>::empty());
            assert(self@ =~= Map::<Seq<u32>, V>::empty());
        }
    }

    /// The first position whose key does not come before `k`, and whether its key is `k`.
    fn search(&self, k: &Vec<u32>) -> (r: (usize, bool))
        requires self.wf(),
        ensures
            r.0 <= self.spec_len(),
            forall|i: int| 0 <= i < r.0 ==> seq_lt(#[trigger] self.spec_keys()[i], k@),
            forall|i: int| r.0 <= i < self.spec_len() && !(i == r.0 && r.1)
                ==> seq_lt(k@, #[trigger] self.spec_keys()[i]),
            r.1 == (r.0 < self.spec_len() && self.spec_keys()[r.0 as int] == k@),
    {
        let ghost ks = self.spec_keys();
        let n = self.keys.len();
        let mut p: usize = 0;
        while p < n && lt(&self.keys[p], k)
            invariant
                p <= n,
                n == ks.len(),
                ks == self.spec_keys(),
                self.wf(),
                forall|i: int| 0 <= i < p ==> seq_lt(#[trigger] ks[i], k@),
            decreases n - p,
        {
            p = p + 1;
        }
        let found = p < n && seq_eq(&self.keys[p], k);
        proof {
            if p < n {
                assert(!seq_lt(ks[p as int], k@));
                if !found {
                    lemma_lt_total(ks[p as int], k@);
                }
                assert forall|i: int| p <= i < ks.len() && !(i == p && found) implies seq_lt(k@, #[trigger] ks[i]) by {
                    if i == p {
                        lemma_lt_total(ks[p as int], k@);
                    } else {
                        if found {
                            assert(seq_lt(ks[p as int], ks[i]));
                        } else {
                            lemma_lt_total(ks[p as int], k@);
                            lemma_lt_trans(k@, ks[p as int], ks[i]);
                        }
                    }
                }
            }
        }
        (p, found)
    }

    /// The value stored under `k`, if any.
    pub fn get(&self, k: &Vec<u32>) -> (r: Option<&V>)
        requires self.wf(),
        ensures
            r is Some <==> self@.contains_key(k@),
            r matches Some(v) ==> *v == self@[k@],
    {
        let (p, found) = self.search(k);
        proof {
            if found {
                self.lemma_view_at(p as int);
            } else {
                if self.spec_keys().contains(k@) {
                    let j = self.spec_keys().index_of(k@);
                    if j < p {
                        lemma_lt_irrefl(k@);
                    } else {
                        lemma_lt_irrefl(k@);
                    }
                }
            }
        }
        if found {
            Some(&self.vals[p])
        } else {
            None
        }
    }

    /// Whether `k` has a value.
    pub fn contains_key(&self, k: &Vec<u32>) -> (r: bool)
        requires self.wf(),
        ensures r == self@.contains_key(k@),
    {
        match self.get(k) {
            Some(_) => true,
            None => false,
        }
    }

    /// Stores `v` under `k`, replacing the value it had.
    pub fn insert(&mut self, k: Vec<u32>, v: V)
        requires old(self).wf(),
        ensures
            final(self).wf(),
            final(self)@ == old(self)@.insert(k@, v),
    {
        let (p, found) = self.search(&k);
        let ghost old_keys = self.spec_keys();
        let ghost old_vals = self.spec_vals();
        let ghost kv = k@;
        if found {
            self.vals.set(p, v);
            proof {
                assert(self.spec_keys() =~= old_keys);
                assert(self.spec_vals() =~= old_vals.update(p as int, v));
                assert forall|q: Seq<u32>| #[trigger] self@.contains_key(q) == old(self)@.insert(kv, v).contains_key(q) by {}
                assert forall|q: Seq<u32>| self@.contains_key(q) implies #[trigger] self@[q] == old(self)@.insert(kv, v)[q] by {
                    let j = self.spec_keys().index_of(q);
                    self.lemma_view_at(j);
                    if q != kv {
                        old(self).lemma_view_at(j);
                    } else {
                        lemma_sorted_distinct(old_keys, j, p as int);
                    }
                }
                assert(self@ =~= old(self)@.insert(kv, v));
            }
        } else {
            self.keys.insert(p, k);
            self.vals.insert(p, v);
            proof {
                let nk = self.spec_keys();
                assert(nk =~= old_keys.insert(p as int, kv));
                assert(self.spec_vals() =~= old_vals.insert(p as int, v));
                assert forall|i: int, j: int| 0 <= i < j < nk.len() implies seq_lt(#[trigger] nk[i], #[trigger] nk[j]) by {
                    if j < p {
                    } else if j == p {
                    } else if i < p {
                        lemma_lt_trans(nk[i], kv, nk[j]);
                    } else if i == p {
                    } else {
                    }
                }
                assert forall|q: Seq<u32>| #[trigger] self@.contains_key(q) == old(self)@.insert(kv, v).contains_key(q) by {
                    if old_keys.contains(q) {
                        let j = old_keys.index_of(q);
                        if j < p {
                            assert(nk[j] == q);
                        } else {
                            assert(nk[j + 1] == q);
                        }
                    }
                    if q == kv {
                        assert(nk[p as int] == q);
                    }
                    if nk.contains(q) {
                        let j = nk.index_of(q);
                        if j < p {
                            assert(old_keys[j] == q);
                        } else if j > p {
                            assert(old_keys[j - 1] == q);
                        }
                    }
                }
                assert forall|q: Seq<u32>| self@.contains_key(q) implies #[trigger] self@[q] == old(self)@.insert(kv, v)[q] by {
                    let j = nk.index_of(q);
                    self.lemma_view_at(j);
                    lemma_lt_irrefl(kv);
                    if j < p {
                        old(self).lemma_view_at(j);
                        assert(q != kv);
                    } else if j > p {
                        old(self).lemma_view_at(j - 1);
                        assert(q != kv);
                    } else {
                    }
                }
                assert(self@ =~= old(self)@.insert(kv, v));
            }
        }
    }

    /// Removes the value stored under `k`; returns whether there was one.
    pub fn remove(&mut self, k: &Vec<u32>) -> (r: bool)
        requires old(self).wf(),
        ensures
            final(self).wf(),
            r == old(self)@.contains_key(k@),
            final(self)@ == old(self)@.remove(k@),
    {
        let (p, found) = self.search(k);
        let ghost old_keys = self.spec_keys();
        let ghost old_vals = self.spec_vals();
        let ghost kv = k@;
        proof {
            if !found && old_keys.contains(kv) {
                let j = old_keys.index_of(kv);
                lemma_lt_irrefl(kv);
            }
        }
        if found {
            self.keys.remove(p);
            self.vals.remove(p);
            proof {
                let nk = self.spec_keys();
                assert(nk =~= old_keys.remove(p as int));
                assert(self.spec_vals() =~= old_vals.remove(p as int));
                assert forall|i: int, j: int| 0 <= i < j < nk.len() implies seq_lt(#[trigger] nk[i], #[trigger] nk[j]) by {
                    if j < p {
                    } else if i < p {
                        assert(old_keys[j + 1] == nk[j]);
                    } else {
                        assert(old_keys[i + 1] == nk[i]);
                        assert(old_keys[j + 1] == nk[j]);
                    }
                }
                assert forall|q: Seq<u32>| #[trigger] self@.contains_key(q) == old(self)@.remove(kv).contains_key(q) by {
                    if old_keys.contains(q) && q != kv {
                        let j = old_keys.index_of(q);
                        if j < p {
                            assert(nk[j] == q);
                        } else if j > p {
                            assert(nk[j - 1] == q);
                        } else {
                        }
                    }
                    if nk.contains(q) {
                        let j = nk.index_of(q);
                        if j < p {
                            assert(old_keys[j] == q);
                            if q == kv {
                                lemma_sorted_distinct(old_keys, j, p as int);
                            }
                        } else {
                            assert(old_keys[j + 1] == q);
                            if q == kv {
                                lemma_sorted_distinct(old_keys, j + 1, p as int);
                            }
                        }
                    }
                }
                assert forall|q: Seq<u32>| self@.contains_key(q) implies #[trigger] self@[q] == old(self)@.remove(kv)[q] by {
                    let j = nk.index_of(q);
                    self.lemma_view_at(j);
                    if j < p {
                        old(self).lemma_view_at(j);
                    } else {
                        old(self).lemma_view_at(j + 1);
                    }
                }
                assert(self@ =~= old(self)@.remove(kv));
            }
            true
        } else {
            proof {
                assert(self@ =~= old(self)@.remove(kv));
            }
            false
        }
    }
}

} // verus!
