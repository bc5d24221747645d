use vstd::prelude::*;

verus! {

/// A finite map from `String` keys to values, stored as a vector of
/// key-value pairs with pairwise-distinct keys. It stands in for the host
/// ledger's persistent key-value maps, which live outside the verified core;
/// its abstraction is the `Map` returned by `@`.
pub struct StrMap<V> {
    pairs: Vec<(String, V)>,
}

impl<V> View for StrMap<V> {
    type V = Map<Seq<char>, V>;

    closed spec fn view(&self) -> Map<Seq<char>, V> {
        StrMap::<V>::map_of(self.pairs@)
    }
}

impl<V> StrMap<V> {
    /// The map represented by a pair sequence: a key is bound iff some pair
    /// carries it, to the value of the pair found by `choose` (unique when
    /// the keys are distinct).
    spec fn map_of(s: Seq<(String, V)>) -> Map<Seq<char>, V> {
        Map::new(
            |k: Seq<char>| exists|i: int| 0 <= i < s.len() && s[i].0@ == k,
            |k: Seq<char>|
                {
                    let i = choose|i: int| 0 <= i < s.len() && s[i].0@ == k;
                    s[i].1
                },
        )
    }

    spec fn distinct(s: Seq<(String, V)>) -> bool {
        forall|i: int, j: int| 0 <= i < j < s.len() ==> s[i].0@ != s[j].0@
    }

    #[verifier::type_invariant]
    spec fn wf(&self) -> bool {
        Self::distinct(self.pairs@)
    }

    /// With distinct keys, the pair at index `i` is what the represented map
    /// binds its key to.
    proof fn lemma_at(s: Seq<(String, V)>, i: int)
        requires
            Self::distinct(s),
            0 <= i < s.len(),
        ensures
            Self::map_of(s).dom().contains(s[i].0@),
            Self::map_of(s)[s[i].0@] == s[i].1,
    {
        let k = s[i].0@;
        assert(Self::map_of(s).dom().contains(k));
        let j = choose|j: int| 0 <= j < s.len() && s[j].0@ == k;
        if j < i {
            assert(s[j].0@ != s[i].0@);
            assert(false);
        } else if i < j {
            assert(s[i].0@ != s[j].0@);
            assert(false);
        }
    }

    /// A key carried by no pair is not bound by the represented map.
    proof fn lemma_absent(s: Seq<(String, V)>, k: Seq<char>)
        requires
            forall|i: int| 0 <= i < s.len() ==> s[i].0@ != k,
        ensures
            !Self::map_of(s).dom().contains(k),
    {
    }

    /// The empty map.
    pub fn new() -> (m: Self)
        ensures
            m@ == Map::<Seq<char>, V>::empty(),
    {
        let m = StrMap { pairs: Vec::new() };
        proof {
            assert(m@ =~= Map::<Seq<char>, V>::empty());
        }
        m
    }

    /// Whether `k` is bound.
    pub fn contains_key(&self, k: &String) -> (b: bool)
        ensures
            b == self@.dom().contains(k@),
    {
        proof {
            use_type_invariant(self);
        }
        let n = self.pairs.len();
        let mut idx: usize = 0;
        while idx < n
            invariant
                Self::distinct(self.pairs@),
                self@ == Self::map_of(self.pairs@),
                n == self.pairs@.len(),
                0 <= idx <= n,
                forall|j: int| 0 <= j < idx ==> self.pairs@[j].0@ != k@,
            decreases n - idx,
        {
            if self.pairs[idx].0 == *k {
                proof {
                    Self::lemma_at(self.pairs@, idx as int);
                }
                return true;
            }
            idx += 1;
        }
        proof {
            Self::lemma_absent(self.pairs@, k@);
        }
        false
    }

    /// The value bound to `k`, if any.
    pub fn get(&self, k: &String) -> (r: Option<&V>)
        ensures
            match r {
                Some(v) => self@.dom().contains(k@) && *v == self@[k@],
                None => !self@.dom().contains(k@),
            },
    {
        proof {
            use_type_invariant(self);
        }
        let n = self.pairs.len();
        let mut idx: usize = 0;
        while idx < n
            invariant
                Self::distinct(self.pairs@),
                self@ == Self::map_of(self.pairs@),
                n == self.pairs@.len(),
                0 <= idx <= n,
                forall|j: int| 0 <= j < idx ==> self.pairs@[j].0@ != k@,
            decreases n - idx,
        {
            if self.pairs[idx].0 == *k {
                proof {
                    Self::lemma_at(self.pairs@, idx as int);
                }
                return Some(&self.pairs[idx].1);
            }
            idx += 1;
        }
        proof {
            Self::lemma_absent(self.pairs@, k@);
        }
        None
    }

    /// Unbinds `k`, returning the value it was bound to, if any.
    pub fn remove(&mut self, k: &String) -> (r: Option<V>)
        ensures
            final(self)@ == old(self)@.remove(k@),
            match r {
                Some(v) => old(self)@.dom().contains(k@) && v == old(self)@[k@],
                None => !old(self)@.dom().contains(k@) && *final(self) == *old(self),
            },
    {
        proof {
            use_type_invariant(&*self);
        }
        let ghost s0 = self.pairs@;
        proof {
            assert(old(self)@ == Self::map_of(s0));
        }
        let mut pairs: Vec<(String, V)> = Vec::new();
        std::mem::swap(&mut pairs, &mut self.pairs);
        let n = pairs.len();
        let mut idx: usize = 0;
        while idx < n
            invariant
                Self::distinct(s0),
                old(self)@ == Self::map_of(s0),
                pairs == old(self).pairs,
                pairs@ == s0,
                n == s0.len(),
                0 <= idx <= n,
                forall|j: int| 0 <= j < idx ==> s0[j].0@ != k@,
            decreases n - idx,
        {
            if pairs[idx].0 == *k {
                proof {
                    Self::lemma_at(s0, idx as int);
                    Self::lemma_remove_view(s0, idx as int);
                }
                let pr = pairs.remove(idx);
                std::mem::swap(&mut pairs, &mut self.pairs);
                proof {
                    assert(self@ == old(self)@.remove(k@));
                    assert(pr.1 == old(self)@[k@]);
                }
                return Some(pr.1);
            }
            idx += 1;
        }
        std::mem::swap(&mut pairs, &mut self.pairs);
        proof {
            Self::lemma_absent(s0, k@);
            assert(Self::map_of(s0).remove(k@) =~= Self::map_of(s0));
        }
        None
    }

    /// Removing the pair at index `i` removes exactly its key from the
    /// represented map and keeps the keys distinct.
    proof fn lemma_remove_view(s: Seq<(String, V)>, i: int)
        requires
            Self::distinct(s),
            0 <= i < s.len(),
        ensures
            Self::distinct(s.remove(i)),
            Self::map_of(s.remove(i)) == Self::map_of(s).remove(s[i].0@),
    {
        let t = s.remove(i);
        let k = s[i].0@;
        assert forall|p: int, q: int| 0 <= p < q < t.len() implies t[p].0@ != t[q].0@ by {
            let p0 = if p < i {
                p
            } else {
                p + 1
            };
            let q0 = if q < i {
                q
            } else {
                q + 1
            };
            assert(t[p] == s[p0]);
            assert(t[q] == s[q0]);
            assert(s[p0].0@ != s[q0].0@);
        }
        assert forall|q: Seq<char>| #[trigger] Self::map_of(t).dom().contains(q) implies Self::map_of(
            s,
        ).remove(k).dom().contains(q) by {
            let j = choose|j: int| 0 <= j < t.len() && t[j].0@ == q;
            let j0 = if j < i {
                j
            } else {
                j + 1
            };
            assert(t[j] == s[j0]);
            assert(Self::map_of(s).dom().contains(q));
            if q == k {
                if j0 < i {
                    assert(s[j0].0@ != s[i].0@);
                } else {
                    assert(s[i].0@ != s[j0].0@);
                }
                assert(false);
            }
        }
        assert forall|q: Seq<char>| #[trigger] Self::map_of(s).remove(k).dom().contains(q) implies Self::map_of(
            t,
        ).dom().contains(q) by {
            let j0 = choose|j0: int| 0 <= j0 < s.len() && s[j0].0@ == q;
            if j0 == i {
                assert(false);
            }
            let j = if j0 < i {
                j0
            } else {
                j0 - 1
            };
            assert(t[j] == s[j0]);
            assert(0 <= j < t.len() && t[j].0@ == q);
        }
        assert forall|q: Seq<char>| #[trigger] Self::map_of(t).dom().contains(q) implies Self::map_of(
            t,
        )[q] == Self::map_of(s).remove(k)[q] by {
            let j = choose|j: int| 0 <= j < t.len() && t[j].0@ == q;
            let j0 = if j < i {
                j
            } else {
                j + 1
            };
            assert(t[j] == s[j0]);
            Self::lemma_at(t, j);
            Self::lemma_at(s, j0);
        }
        assert(Self::map_of(t) =~= Self::map_of(s).remove(k));
    }

    /// Appending a pair whose key no pair carries binds exactly that key and
    /// keeps the keys distinct.
    proof fn lemma_push_view(s: Seq<(String, V)>, kv: (String, V))
        requires
            Self::distinct(s),
            forall|i: int| 0 <= i < s.len() ==> s[i].0@ != kv.0@,
        ensures
            Self::distinct(s.push(kv)),
            Self::map_of(s.push(kv)) == Self::map_of(s).insert(kv.0@, kv.1),
    {
        let t = s.push(kv);
        let k = kv.0@;
        assert forall|p: int, q: int| 0 <= p < q < t.len() implies t[p].0@ != t[q].0@ by {
            if q < s.len() {
                assert(s[p].0@ != s[q].0@);
            } else {
                assert(t[q] == kv);
                assert(s[p].0@ != kv.0@);
            }
        }
        assert(0 <= s.len() < t.len() && t[s.len() as int].0@ == k);
        assert forall|q: Seq<char>| #[trigger] Self::map_of(t).dom().contains(q) implies Self::map_of(
            s,
        ).insert(k, kv.1).dom().contains(q) by {
            let j = choose|j: int| 0 <= j < t.len() && t[j].0@ == q;
            if j < s.len() {
                assert(s[j].0@ == q);
                assert(Self::map_of(s).dom().contains(q));
            } else {
                assert(q == k);
            }
        }
        assert forall|q: Seq<char>| #[trigger] Self::map_of(s).insert(k, kv.1).dom().contains(q)
            implies Self::map_of(t).dom().contains(q) by {
            if q == k {
                assert(t[s.len() as int].0@ == q);
            } else {
                let j = choose|j: int| 0 <= j < s.len() && s[j].0@ == q;
                assert(t[j] == s[j]);
            }
        }
        assert forall|q: Seq<char>| #[trigger] Self::map_of(t).dom().contains(q) implies Self::map_of(
            t,
        )[q] == Self::map_of(s).insert(k, kv.1)[q] by {
            Self::lemma_at(t, choose|j: int| 0 <= j < t.len() && t[j].0@ == q);
            if q == k {
                Self::lemma_at(t, s.len() as int);
            } else {
                let j = choose|j: int| 0 <= j < s.len() && s[j].0@ == q;
                assert(t[j] == s[j]);
                Self::lemma_at(t, j);
                Self::lemma_at(s, j);
            }
        }
        assert(Self::map_of(t) =~= Self::map_of(s).insert(k, kv.1));
    }

    /// Binds `k` to `v`, replacing any previous binding.
    pub fn insert(&mut self, k: String, v: V)
        ensures
            final(self)@ == old(self)@.insert(k@, v),
    {
        let ghost m0 = self@;
        let ghost kk = k@;
        self.remove(&k);
        proof {
            use_type_invariant(&*self);
        }
        let ghost s1 = self.pairs@;
        let mut pairs: Vec<(String, V)> = Vec::new();
        std::mem::swap(&mut pairs, &mut self.pairs);
        proof {
            assert forall|i: int| 0 <= i < s1.len() implies s1[i].0@ != kk by {
                if s1[i].0@ == kk {
                    Self::lemma_at(s1, i);
                    assert(Self::map_of(s1).dom().contains(kk));
                }
            }
        }
        let ghost gkv: (String, V) = (k, v);
        pairs.push((k, v));
        proof {
            Self::lemma_push_view(s1, gkv);
            assert(pairs@ == s1.push(gkv));
        }
        std::mem::swap(&mut pairs, &mut self.pairs);
        proof {
            assert(self@ =~= m0.insert(kk, gkv.1));
        }
    }
}

} // verus!
