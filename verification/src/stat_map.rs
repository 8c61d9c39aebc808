//! A small text-keyed map: the named statistics of a character sheet as
//! key/value strings, in insertion order, each key at most once.
use vstd::prelude::*;
use crate::text::str_eq;

verus! {

/// The value bound to `k` among `pairs`, searching from the back.
pub open spec fn lookup(pairs: Seq<(Seq<char>, Seq<char>)>, k: Seq<char>) -> Option<Seq<char>>
    decreases pairs.len(),
{
    if pairs.len() == 0 {
        None
    } else if pairs.last().0 == k {
        Some(pairs.last().1)
    } else {
        lookup(pairs.drop_last(), k)
    }
}

/// The keys of `pairs` are pairwise distinct.
pub open spec fn distinct_keys(pairs: Seq<(Seq<char>, Seq<char>)>) -> bool {
    forall|i: int, j: int|
        0 <= i < pairs.len() && 0 <= j < pairs.len() && i != j ==> #[trigger] pairs[i].0
            != #[trigger] pairs[j].0
}

/// The map that a sequence of pairs denotes.
pub open spec fn pairs_map(pairs: Seq<(Seq<char>, Seq<char>)>) -> Map<Seq<char>, Seq<char>> {
    Map::new(|k: Seq<char>| lookup(pairs, k) is Some, |k: Seq<char>| lookup(pairs, k)->0)
}

proof fn lemma_lookup_index(pairs: Seq<(Seq<char>, Seq<char>)>, j: int)
    requires
        distinct_keys(pairs),
        0 <= j < pairs.len(),
    ensures
        lookup(pairs, pairs[j].0) == Some(pairs[j].1),
    decreases pairs.len(),
{
    if j < pairs.len() - 1 {
        assert(pairs.last().0 != pairs[j].0);
        let p = pairs.drop_last();
        assert(distinct_keys(p)) by {
            assert forall|a: int, b: int|
                0 <= a < p.len() && 0 <= b < p.len() && a != b implies #[trigger] p[a].0
                != #[trigger] p[b].0 by {
                assert(p[a] == pairs[a] && p[b] == pairs[b]);
            }
        }
        assert(p[j] == pairs[j]);
        lemma_lookup_index(p, j);
    }
}

proof fn lemma_lookup_absent(pairs: Seq<(Seq<char>, Seq<char>)>, k: Seq<char>)
    requires
        forall|i: int| 0 <= i < pairs.len() ==> #[trigger] pairs[i].0 != k,
    ensures
        lookup(pairs, k) is None,
    decreases pairs.len(),
{
    if pairs.len() > 0 {
        let p = pairs.drop_last();
        assert(pairs.last() == pairs[pairs.len() - 1]);
        assert forall|i: int| 0 <= i < p.len() implies #[trigger] p[i].0 != k by {
            assert(p[i] == pairs[i]);
        }
        lemma_lookup_absent(p, k);
    }
}

proof fn lemma_lookup_update(
    pairs: Seq<(Seq<char>, Seq<char>)>,
    j: int,
    v: Seq<char>,
    k: Seq<char>,
)
    requires
        distinct_keys(pairs),
        0 <= j < pairs.len(),
    ensures
        lookup(pairs.update(j, (pairs[j].0, v)), k) == if k == pairs[j].0 {
            Some(v)
        } else {
            lookup(pairs, k)
        },
    decreases pairs.len(),
{
    let q = pairs.update(j, (pairs[j].0, v));
    if j == pairs.len() - 1 {
        assert(q.drop_last() =~= pairs.drop_last());
    } else {
        let p = pairs.drop_last();
        assert(q.drop_last() =~= p.update(j, (p[j].0, v)));
        assert(q.last() == pairs.last());
        assert(pairs.last().0 != pairs[j].0);
        assert(distinct_keys(p)) by {
            assert forall|a: int, b: int|
                0 <= a < p.len() && 0 <= b < p.len() && a != b implies #[trigger] p[a].0
                != #[trigger] p[b].0 by {
                assert(p[a] == pairs[a] && p[b] == pairs[b]);
            }
        }
        lemma_lookup_update(p, j, v, k);
    }
}

/// Key/value strings with distinct keys, kept in insertion order.
pub struct StatMap {
    entries: Vec<(String, String)>,
}

impl StatMap {
    /// The entries as character sequences.
    pub closed spec fn pairs(&self) -> Seq<(Seq<char>, Seq<char>)> {
        self.entries@.map_values(|e: (String, String)| (e.0@, e.1@))
    }

    #[verifier::type_invariant]
    closed spec fn inv(self) -> bool {
        distinct_keys(self.pairs())
    }
}

impl View for StatMap {
    type V = Map<Seq<char>, Seq<char>>;

    closed spec fn view(&self) -> Map<Seq<char>, Seq<char>> {
        pairs_map(self.pairs())
    }
}

impl StatMap {
    /// An empty map.
    pub fn new() -> (res: StatMap)
        ensures
            res@ == Map::<Seq<char>, Seq<char>>::empty(),
    {
        let res = StatMap { entries: Vec::new() };
        assert(res@ =~= Map::<Seq<char>, Seq<char>>::empty());
        res
    }

    fn find(&self, key: &str) -> (res: Option<usize>)
        ensures
            match res {
                Some(j) => j < self.pairs().len() && self.pairs()[j as int].0 == key@,
                None => forall|i: int| 0 <= i < self.pairs().len() ==> #[trigger] self.pairs()[i].0 != key@,
            },
    {
        let mut i: usize = 0;
        while i < self.entries.len()
            invariant
                i <= self.entries@.len(),
                self.pairs().len() == self.entries@.len(),
                forall|a: int| 0 <= a < i ==> #[trigger] self.pairs()[a].0 != key@,
            decreases self.entries@.len() - i,
        {
            if str_eq(self.entries[i].0.as_str(), key) {
                return Some(i);
            }
            i = i + 1;
        }
        None
    }

    /// The value bound to `key`, if any.
    pub fn get(&self, key: &str) -> (res: Option<&String>)
        ensures
            match res {
                Some(v) => self@.contains_key(key@) && self@[key@] == v@,
                None => !self@.contains_key(key@),
            },
    {
        proof { use_type_invariant(self); }
        match self.find(key) {
            Some(j) => {
                proof { lemma_lookup_index(self.pairs(), j as int); }
                Some(&self.entries[j].1)
            },
            None => {
                proof { lemma_lookup_absent(self.pairs(), key@); }
                None
            },
        }
    }

    /// Binds `key` to `value`, replacing an earlier binding of `key`.
    pub fn insert(&mut self, key: String, value: String)
        ensures
            final(self)@ == old(self)@.insert(key@, value@),
    {
        proof { use_type_invariant(&*self); }
        let ghost old_pairs = self.pairs();
        match self.find(key.as_str()) {
            Some(j) => {
                let ghost kv = key@;
                let mut entries = Vec::new();
                std::mem::swap(&mut entries, &mut self.entries);
                entries.set(j, (key, value));
                proof {
                    let np = entries@.map_values(|e: (String, String)| (e.0@, e.1@));
                    assert(np =~= old_pairs.update(j as int, (old_pairs[j as int].0, value@)));
                    assert forall|k: Seq<char>| #[trigger] lookup(np, k) == if k == kv {
                        Some(value@)
                    } else {
                        lookup(old_pairs, k)
                    } by {
                        lemma_lookup_update(old_pairs, j as int, value@, k);
                    }
                    assert(distinct_keys(np)) by {
                        assert forall|a: int, b: int|
                            0 <= a < np.len() && 0 <= b < np.len() && a != b implies #[trigger] np[a].0
                            != #[trigger] np[b].0 by {
                            assert(old_pairs[a].0 == np[a].0 && old_pairs[b].0 == np[b].0);
                        }
                    }
                    assert(pairs_map(np) =~= pairs_map(old_pairs).insert(kv, value@));
                }
                self.entries = entries;
            },
            None => {
                let ghost kv = key@;
                let ghost vv = value@;
                let mut entries = Vec::new();
                std::mem::swap(&mut entries, &mut self.entries);
                entries.push((key, value));
                proof {
                    let np = entries@.map_values(|e: (String, String)| (e.0@, e.1@));
                    assert(np =~= old_pairs.push((kv, vv)));
                    assert(np.drop_last() =~= old_pairs);
                    assert(distinct_keys(np)) by {
                        assert forall|a: int, b: int|
                            0 <= a < np.len() && 0 <= b < np.len() && a != b implies #[trigger] np[a].0
                            != #[trigger] np[b].0 by {
                            if a < old_pairs.len() {
                                assert(np[a] == old_pairs[a]);
                            }
                            if b < old_pairs.len() {
                                assert(np[b] == old_pairs[b]);
                            }
                        }
                    }
                    assert(pairs_map(np) =~= pairs_map(old_pairs).insert(kv, vv));
                }
                self.entries = entries;
            },
        }
    }

    /// The number of bindings.
    pub fn len(&self) -> (res: usize)
        ensures
            res as nat == self@.len(),
    {
        proof {
            use_type_invariant(self);
            lemma_pairs_map_len(self.pairs());
        }
        self.entries.len()
    }
}

proof fn lemma_pairs_map_len(pairs: Seq<(Seq<char>, Seq<char>)>)
    requires
        distinct_keys(pairs),
    ensures
        pairs_map(pairs).dom().finite(),
        pairs_map(pairs).len() == pairs.len(),
    decreases pairs.len(),
{
    if pairs.len() == 0 {
        assert(pairs_map(pairs).dom() =~= Set::<Seq<char>>::empty());
    } else {
        let p = pairs.drop_last();
        assert(distinct_keys(p)) by {
            assert forall|a: int, b: int|
                0 <= a < p.len() && 0 <= b < p.len() && a != b implies #[trigger] p[a].0
                != #[trigger] p[b].0 by {
                assert(p[a] == pairs[a] && p[b] == pairs[b]);
            }
        }
        lemma_pairs_map_len(p);
        let k = pairs.last().0;
        assert forall|i: int| 0 <= i < p.len() implies #[trigger] p[i].0 != k by {
            assert(p[i] == pairs[i]);
            assert(pairs.last() == pairs[pairs.len() - 1]);
        }
        lemma_lookup_absent(p, k);
        assert(pairs_map(pairs).dom() =~= pairs_map(p).dom().insert(k));
    }
}

} // verus!
