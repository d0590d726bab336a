//! A keyed store: a map from `usize` identities to values, backed by a
//! vector of pairs with pairwise-distinct keys.  It stands in for a hash
//! map wherever the model needs overwrite-insert, lookup, and draining,
//! and its view is a mathematical `Map<usize, V>`.

use vstd::prelude::*;

verus! {

/// All keys in a sequence of pairs are pairwise distinct.
pub open spec fn distinct_keys<V>(s: Seq<(usize, V)>) -> bool {
    forall|i: int, j: int| 0 <= i < j < s.len() ==> (#[trigger] s[i]).0 != (#[trigger] s[j]).0
}

/// The map described by a sequence of pairs; later pairs overwrite
/// earlier ones with the same key.
pub open spec fn pairs_to_map<V>(s: Seq<(usize, V)>) -> Map<usize, V>
    decreases s.len(),
{
    if s.len() == 0 {
        Map::empty()
    } else {
        pairs_to_map(s.drop_last()).insert(s.last().0, s.last().1)
    }
}

/// A key is in the map's domain exactly when some pair carries it.
pub proof fn lemma_pairs_to_map_dom<V>(s: Seq<(usize, V)>, k: usize)
    ensures
        pairs_to_map(s).dom().contains(k) <==> exists|i: int|
            0 <= i < s.len() && (#[trigger] s[i]).0 == k,
    decreases s.len(),
{
    if s.len() > 0 {
        lemma_pairs_to_map_dom(s.drop_last(), k);
        if s.last().0 == k {
            assert(s[s.len() - 1].0 == k);
        } else if pairs_to_map(s).dom().contains(k) {
            let i = choose|i: int| 0 <= i < s.drop_last().len() && (#[trigger] s.drop_last()[i]).0 == k;
            assert(s[i].0 == k);
        } else {
            assert forall|i: int| 0 <= i < s.len() && (#[trigger] s[i]).0 == k implies false by {
                if i < s.len() - 1 {
                    assert(s.drop_last()[i].0 == k);
                }
            }
        }
    }
}

/// With distinct keys, each pair is reflected verbatim in the map.
pub proof fn lemma_pairs_to_map_index<V>(s: Seq<(usize, V)>, i: int)
    requires
        distinct_keys(s),
        0 <= i < s.len(),
    ensures
        pairs_to_map(s).contains_pair(s[i].0, s[i].1),
    decreases s.len(),
{
    if i == s.len() - 1 {
    } else {
        assert(distinct_keys(s.drop_last())) by {
            assert forall|p: int, q: int|
                0 <= p < q < s.drop_last().len() implies (#[trigger] s.drop_last()[p]).0
                != (#[trigger] s.drop_last()[q]).0 by {
                assert(s[p].0 != s[q].0);
            }
        }
        assert(s.drop_last()[i] == s[i]);
        lemma_pairs_to_map_index(s.drop_last(), i);
        assert(s[s.len() - 1].0 != s[i].0);
    }
}

/// With distinct keys, the map has exactly one entry per pair.
pub proof fn lemma_pairs_to_map_len<V>(s: Seq<(usize, V)>)
    requires
        distinct_keys(s),
    ensures
        pairs_to_map(s).dom().finite(),
        pairs_to_map(s).len() == s.len(),
    decreases s.len(),
{
    if s.len() > 0 {
        assert(distinct_keys(s.drop_last())) by {
            assert forall|p: int, q: int|
                0 <= p < q < s.drop_last().len() implies (#[trigger] s.drop_last()[p]).0
                != (#[trigger] s.drop_last()[q]).0 by {
                assert(s[p].0 != s[q].0);
            }
        }
        lemma_pairs_to_map_len(s.drop_last());
        lemma_pairs_to_map_dom(s.drop_last(), s.last().0);
        assert forall|i: int|
            0 <= i < s.drop_last().len() implies (#[trigger] s.drop_last()[i]).0
            != s.last().0 by {
            assert(s[i].0 != s[s.len() - 1].0);
        }
        assert(!pairs_to_map(s.drop_last()).dom().contains(s.last().0));
    }
}

/// A map from `usize` identities to values, with overwrite-insert.
#[derive(Debug)]
pub struct KeyedStore<V> {
    entries: Vec<(usize, V)>,
}

impl<V> View for KeyedStore<V> {
    type V = Map<usize, V>;

    closed spec fn view(&self) -> Map<usize, V> {
        pairs_to_map(self.entries@)
    }
}

impl<V> KeyedStore<V> {
    /// The stored pairs, in insertion order.
    pub closed spec fn pairs(&self) -> Seq<(usize, V)> {
        self.entries@
    }

    /// Well-formed: no two pairs carry the same key.
    pub open spec fn wf(&self) -> bool {
        distinct_keys(self.pairs())
    }

    /// The pairs describe the map view.
    pub proof fn lemma_view(&self)
        ensures
            self@ == pairs_to_map(self.pairs()),
    {
    }

    pub fn new() -> (r: Self)
        ensures
            r.wf(),
            r@ == Map::<usize, V>::empty(),
            r.pairs() == Seq::<(usize, V)>::empty(),
    {
        KeyedStore { entries: Vec::new() }
    }

    pub fn len(&self) -> (r: usize)
        requires
            self.wf(),
        ensures
            r == self.pairs().len(),
            r == self@.len(),
            self@.dom().finite(),
    {
        proof {
            lemma_pairs_to_map_len(self.entries@);
        }
        self.entries.len()
    }

    pub fn is_empty(&self) -> (r: bool)
        ensures
            r <==> self.pairs().len() == 0,
            r <==> self@ == Map::<usize, V>::empty(),
    {
        proof {
            if self.entries@.len() == 0 {
                assert(self@ =~= Map::<usize, V>::empty());
            } else {
                lemma_pairs_to_map_dom(self.entries@, self.entries@.last().0);
            }
        }
        self.entries.is_empty()
    }

    /// Position of the pair carrying `k`, if any.
    fn index_of(&self, k: usize) -> (r: Option<usize>)
        ensures
            match r {
                Some(i) => 0 <= i < self.pairs().len() && self.pairs()[i as int].0 == k,
                None => forall|i: int|
                    0 <= i < self.pairs().len() ==> (#[trigger] self.pairs()[i]).0 != k,
            },
    {
        let n: usize = self.entries.len();
        let mut i: usize = 0;
        while i < n
            invariant
                0 <= i <= n,
                n == self.entries@.len(),
                forall|j: int| 0 <= j < i ==> (#[trigger] self.entries@[j]).0 != k,
            decreases n - i,
        {
            if self.entries[i].0 == k {
                return Some(i);
            }
            i = i + 1;
        }
        None
    }

    pub fn contains(&self, k: usize) -> (r: bool)
        ensures
            r <==> self@.dom().contains(k),
    {
        proof {
            lemma_pairs_to_map_dom(self.entries@, k);
        }
        match self.index_of(k) {
            Some(i) => {
                proof {
                    assert(self.entries@[i as int].0 == k);
                }
                true
            },
            None => {
                proof {
                    assert forall|i: int|
                        0 <= i < self.entries@.len() implies (#[trigger] self.entries@[i]).0
                        != k by {
                        assert(self.pairs()[i].0 != k);
                    }
                }
                false
            },
        }
    }

    pub fn get(&self, k: usize) -> (r: Option<&V>)
        requires
            self.wf(),
        ensures
            match r {
                Some(v) => self@.contains_pair(k, *v),
                None => !self@.dom().contains(k),
            },
    {
        proof {
            lemma_pairs_to_map_dom(self.entries@, k);
        }
        match self.index_of(k) {
            Some(i) => {
                proof {
                    lemma_pairs_to_map_index(self.entries@, i as int);
                }
                Some(&self.entries[i].1)
            },
            None => None,
        }
    }

    /// Mutable access to the value stored under `k`.
    pub fn get_mut(&mut self, k: usize) -> (r: &mut V)
        requires
            old(self).wf(),
            old(self)@.dom().contains(k),
        ensures
            *r == old(self)@[k],
            final(self).wf(),
            final(self)@ == old(self)@.insert(k, *final(r)),
            final(self).pairs().len() == old(self).pairs().len(),
            forall|j: int|
                0 <= j < old(self).pairs().len() ==> (#[trigger] final(self).pairs()[j]).0
                == old(self).pairs()[j].0,
            forall|k2: usize|
                k2 != k ==> (final(self)@.dom().contains(k2) <==> old(self)@.dom().contains(k2)),
            forall|k2: usize|
                k2 != k && old(self)@.dom().contains(k2) ==> #[trigger] final(self)@[k2]
                == old(self)@[k2],
    {
        proof {
            lemma_pairs_to_map_dom(self.entries@, k);
        }
        let i: usize = match self.index_of(k) {
            Some(i) => i,
            None => {
                proof {
                    assert(false);  // the key is present, so the search cannot miss
                }
                0
            },
        };
        proof {
            lemma_pairs_to_map_index(self.entries@, i as int);
            assert forall|p: (usize, V)| p.0 == k implies distinct_keys(
                #[trigger] self.entries@.update(i as int, p),
            ) && pairs_to_map(self.entries@.update(i as int, p)) == pairs_to_map(
                self.entries@,
            ).insert(k, p.1) by {
                lemma_store_update(self.entries@, i as int, k, p);
            }
        }
        let entry: &mut (usize, V) = &mut self.entries[i];
        &mut entry.1
    }

    /// Overwrite-insert: the value under `k` becomes `v`.
    pub fn insert(&mut self, k: usize, v: V)
        requires
            old(self).wf(),
        ensures
            final(self).wf(),
            final(self)@ == old(self)@.insert(k, v),
            old(self)@.dom().contains(k) ==> final(self).pairs().len() == old(self).pairs().len(),
            !old(self)@.dom().contains(k) ==> final(self).pairs() == old(self).pairs().push(
                (k, v),
            ),
    {
        proof {
            lemma_pairs_to_map_dom(self.entries@, k);
        }
        match self.index_of(k) {
            Some(i) => {
                self.entries[i] = (k, v);
                proof {
                    lemma_store_update(old(self).pairs(), i as int, k, (k, v));
                }
            },
            None => {
                self.entries.push((k, v));
                proof {
                    assert(self.entries@.drop_last() =~= old(self).pairs());
                    assert forall|p: int, q: int|
                        0 <= p < q < self.entries@.len() implies (#[trigger] self.entries@[p]).0
                        != (#[trigger] self.entries@[q]).0 by {
                        if q < self.entries@.len() - 1 {
                            assert(old(self).pairs()[p].0 != old(self).pairs()[q].0);
                        } else {
                            lemma_pairs_to_map_dom(old(self).pairs(), k);
                            assert(old(self).pairs()[p].0 != k);
                        }
                    }
                }
            },
        }
    }

    /// Remove and return one arbitrary entry; the iteration order is
    /// unspecified, so callers may rely only on membership.
    pub fn pop(&mut self) -> (r: Option<(usize, V)>)
        requires
            old(self).wf(),
        ensures
            final(self).wf(),
            match r {
                Some(p) => {
                    &&& old(self)@.contains_pair(p.0, p.1)
                    &&& final(self)@ == old(self)@.remove(p.0)
                    &&& final(self).pairs() == old(self).pairs().drop_last()
                },
                None => {
                    &&& old(self).pairs().len() == 0
                    &&& final(self).pairs() == old(self).pairs()
                    &&& final(self)@ == old(self)@
                },
            },
    {
        let ghost s = self.entries@;
        let r: Option<(usize, V)> = self.entries.pop();
        proof {
            if s.len() > 0 {
                assert(s.subrange(0, s.len() - 1) =~= s.drop_last());
                lemma_pairs_to_map_index(s, s.len() - 1);
                lemma_pairs_to_map_dom(s.drop_last(), s.last().0);
                assert forall|p: int, q: int|
                    0 <= p < q < s.drop_last().len() implies (#[trigger] s.drop_last()[p]).0
                    != (#[trigger] s.drop_last()[q]).0 by {
                    assert(s[p].0 != s[q].0);
                }
                assert forall|i: int|
                    0 <= i < s.drop_last().len() implies (#[trigger] s.drop_last()[i]).0
                    != s.last().0 by {
                    assert(s[i].0 != s[s.len() - 1].0);
                }
                assert(pairs_to_map(s).remove(s.last().0) =~= pairs_to_map(s.drop_last()));
            }
        }
        r
    }

    /// Remove and return every entry at once.
    pub fn drain(&mut self) -> (r: Vec<(usize, V)>)
        ensures
            final(self).wf(),
            final(self)@ == Map::<usize, V>::empty(),
            final(self).pairs().len() == 0,
            r@ == old(self).pairs(),
    {
        let mut out: Vec<(usize, V)> = Vec::new();
        core::mem::swap(&mut self.entries, &mut out);
        out
    }

    /// The pair at one position, for iteration from outside.
    pub fn pair_at(&self, i: usize) -> (r: &(usize, V))
        requires
            i < self.pairs().len(),
        ensures
            *r == self.pairs()[i as int],
    {
        &self.entries[i]
    }
}

/// Updating the pair at a position whose key is `k` updates the map at `k`.
proof fn lemma_store_update<V>(s: Seq<(usize, V)>, i: int, k: usize, p: (usize, V))
    requires
        distinct_keys(s),
        0 <= i < s.len(),
        s[i].0 == k,
        p.0 == k,
    ensures
        distinct_keys(s.update(i, p)),
        pairs_to_map(s.update(i, p)) == pairs_to_map(s).insert(k, p.1),
    decreases s.len(),
{
    assert forall|x: int, y: int|
        0 <= x < y < s.update(i, p).len() implies (#[trigger] s.update(i, p)[x]).0
        != (#[trigger] s.update(i, p)[y]).0 by {
        assert(s[x].0 != s[y].0);
    }
    if i == s.len() - 1 {
        assert(s.update(i, p).drop_last() =~= s.drop_last());
        assert(pairs_to_map(s.update(i, p)) =~= pairs_to_map(s).insert(k, p.1));
    } else {
        assert(distinct_keys(s.drop_last())) by {
            assert forall|x: int, y: int|
                0 <= x < y < s.drop_last().len() implies (#[trigger] s.drop_last()[x]).0
                != (#[trigger] s.drop_last()[y]).0 by {
                assert(s[x].0 != s[y].0);
            }
        }
        assert(s.drop_last()[i] == s[i]);
        lemma_store_update(s.drop_last(), i, k, p);
        assert(s.update(i, p).drop_last() =~= s.drop_last().update(i, p));
        assert(s.update(i, p).last() == s.last());
        assert(pairs_to_map(s.update(i, p)) == pairs_to_map(s.drop_last().update(i, p)).insert(
            s.last().0,
            s.last().1,
        ));
        assert(s.last().0 != k) by {
            assert(s[i].0 != s[s.len() - 1].0);
        }
        assert(pairs_to_map(s.drop_last()).insert(k, p.1).insert(s.last().0, s.last().1)
            =~= pairs_to_map(s.drop_last()).insert(s.last().0, s.last().1).insert(k, p.1));
    }
}

} // verus!
