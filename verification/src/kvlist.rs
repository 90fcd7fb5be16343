//! Association list from string keys to values, with unique keys.
//! Its mathematical model is a `Map<Seq<char>, V>`.

use vstd::prelude::*;

verus! {

/// All keys in the entry sequence are pairwise distinct.
pub open spec fn unique_keys<V>(s: Seq<(String, V)>) -> bool {
    forall|i: int, j: int| 0 <= i < j < s.len() ==> s[i].0@ != s[j].0@
}

/// The map denoted by an entry sequence (later entries win, but under
/// `unique_keys` the order is irrelevant).
pub open spec fn kv_map<V>(s: Seq<(String, V)>) -> Map<Seq<char>, V>
    decreases s.len(),
{
    if s.len() == 0 {
        Map::empty()
    } else {
        kv_map(s.drop_last()).insert(s.last().0@, s.last().1)
    }
}

pub proof fn lemma_kv_map_contains<V>(s: Seq<(String, V)>, k: Seq<char>)
    ensures
        kv_map(s).contains_key(k) <==> exists|i: int| 0 <= i < s.len() && s[i].0@ == k,
    decreases s.len(),
{
    if s.len() == 0 {
    } else {
        lemma_kv_map_contains(s.drop_last(), k);
        if s.last().0@ == k {
            assert(s[s.len() - 1].0@ == k);
        } else {
            if exists|i: int| 0 <= i < s.len() && s[i].0@ == k {
                let i = choose|i: int| 0 <= i < s.len() && s[i].0@ == k;
                assert(s.drop_last()[i].0@ == k);
            }
        }
    }
}

pub proof fn lemma_kv_map_index<V>(s: Seq<(String, V)>, i: int)
    requires
        unique_keys(s),
        0 <= i < s.len(),
    ensures
        kv_map(s).contains_key(s[i].0@),
        kv_map(s)[s[i].0@] == s[i].1,
    decreases s.len(),
{
    if i == s.len() - 1 {
    } else {
        assert(unique_keys(s.drop_last())) by {
            assert(forall|x: int, y: int|
                0 <= x < y < s.drop_last().len() ==> s.drop_last()[x].0@ != s.drop_last()[y].0@);
        }
        lemma_kv_map_index(s.drop_last(), i);
        assert(s[i].0@ != s.last().0@);
    }
}

pub proof fn lemma_kv_map_remove<V>(s: Seq<(String, V)>, i: int)
    requires
        unique_keys(s),
        0 <= i < s.len(),
    ensures
        kv_map(s.remove(i)) =~= kv_map(s).remove(s[i].0@),
    decreases s.len(),
{
    if i == s.len() - 1 {
        assert(s.remove(i) =~= s.drop_last());
        lemma_kv_map_contains(s.drop_last(), s[i].0@);
        assert(!kv_map(s.drop_last()).contains_key(s[i].0@));
    } else {
        assert(unique_keys(s.drop_last())) by {
            assert(forall|x: int, y: int|
                0 <= x < y < s.drop_last().len() ==> s.drop_last()[x].0@ != s.drop_last()[y].0@);
        }
        lemma_kv_map_remove(s.drop_last(), i);
        assert(s.remove(i).drop_last() =~= s.drop_last().remove(i));
        assert(s.remove(i).last() == s.last());
        assert(s[i].0@ != s.last().0@);
    }
}

/// A list of `(key, value)` entries with pairwise-distinct keys, read and
/// written through map-shaped contracts.
pub struct KvList<V> {
    entries: Vec<(String, V)>,
}

impl<V> View for KvList<V> {
    type V = Map<Seq<char>, V>;

    closed spec fn view(&self) -> Map<Seq<char>, V> {
        kv_map(self.entries@)
    }
}

impl<V> KvList<V> {
    pub closed spec fn wf(&self) -> bool {
        unique_keys(self.entries@)
    }

    pub closed spec fn entries_seq(&self) -> Seq<(String, V)> {
        self.entries@
    }

    /// The entry sequence has distinct keys and denotes exactly the model map.
    pub proof fn lemma_model(&self)
        requires
            self.wf(),
        ensures
            unique_keys(self.entries_seq()),
            self@ == kv_map(self.entries_seq()),
    {
    }

    pub fn new() -> (r: KvList<V>)
        ensures
            r.wf(),
            r@ =~= Map::<Seq<char>, V>::empty(),
            r.entries_seq().len() == 0,
    {
        KvList { entries: Vec::new() }
    }

    /// Number of entries; equals the size of the model's domain.
    pub fn len(&self) -> (r: usize)
        ensures
            r == self.entries_seq().len(),
    {
        self.entries.len()
    }

    pub fn is_empty(&self) -> (r: bool)
        requires
            self.wf(),
        ensures
            r <==> (self@ =~= Map::<Seq<char>, V>::empty()),
            r <==> self.entries_seq().len() == 0,
    {
        proof {
            if self.entries@.len() > 0 {
                lemma_kv_map_index(self.entries@, self.entries@.len() - 1);
            }
        }
        self.entries.is_empty()
    }

    fn index_of(&self, key: &String) -> (r: Option<usize>)
        ensures
            match r {
                Some(i) => i < self.entries@.len() && self.entries@[i as int].0@ == key@,
                None => forall|i: int| 0 <= i < self.entries@.len() ==> self.entries@[i].0@ != key@,
            },
    {
        let n = self.entries.len();
        let mut i: usize = 0;
        while i < n
            invariant
                n == self.entries@.len(),
                i <= n,
                forall|j: int| 0 <= j < i ==> self.entries@[j].0@ != key@,
            decreases n - i,
        {
            if self.entries[i].0 == *key {
                return Some(i);
            }
            i = i + 1;
        }
        None
    }

    pub fn contains_key(&self, key: &String) -> (r: bool)
        ensures
            r == self@.contains_key(key@),
    {
        proof {
            lemma_kv_map_contains(self.entries@, key@);
        }
        self.index_of(key).is_some()
    }

    pub fn get(&self, key: &String) -> (r: Option<&V>)
        requires
            self.wf(),
        ensures
            match r {
                Some(v) => self@.contains_key(key@) && *v == self@[key@],
                None => !self@.contains_key(key@),
            },
    {
        proof {
            lemma_kv_map_contains(self.entries@, key@);
        }
        match self.index_of(key) {
            Some(i) => {
                proof {
                    lemma_kv_map_index(self.entries@, i as int);
                }
                Some(&self.entries[i].1)
            },
            None => None,
        }
    }

    /// Inserts or replaces the value under `key`.
    pub fn insert(&mut self, key: String, value: V)
        requires
            old(self).wf(),
        ensures
            final(self).wf(),
            final(self)@ =~= old(self)@.insert(key@, value),
    {
        let ghost m0 = kv_map(self.entries@);
        let ghost kview = key@;
        proof {
            lemma_kv_map_contains(self.entries@, kview);
        }
        if let Some(i) = self.index_of(&key) {
            proof {
                lemma_kv_map_remove(self.entries@, i as int);
            }
            let ghost before = self.entries@;
            self.entries.remove(i);
            proof {
                assert(forall|x: int|
                    0 <= x < self.entries@.len() ==> #[trigger] self.entries@[x] == if x < i as int {
                        before[x]
                    } else {
                        before[x + 1]
                    });
                assert(unique_keys(self.entries@));
                assert(kv_map(self.entries@) =~= m0.remove(kview));
                lemma_kv_map_contains(self.entries@, kview);
            }
        }
        let ghost mid = self.entries@;
        proof {
            assert(forall|x: int| 0 <= x < mid.len() ==> mid[x].0@ != kview);
        }
        self.entries.push((key, value));
        proof {
            assert(self.entries@.drop_last() =~= mid);
            assert(self.entries@.last().0@ == kview);
            assert(kv_map(self.entries@) =~= m0.insert(kview, value));
            assert(forall|x: int, y: int|
                0 <= x < y < self.entries@.len() ==> self.entries@[x].0@ != self.entries@[y].0@)
                by {
                assert(forall|x: int| 0 <= x < mid.len() ==> #[trigger] self.entries@[x] == mid[x]);
            }
        }
    }

    /// Removes the entry under `key`, returning its value when present.
    pub fn remove(&mut self, key: &String) -> (r: Option<V>)
        requires
            old(self).wf(),
        ensures
            final(self).wf(),
            match r {
                Some(v) => old(self)@.contains_key(key@) && v == old(self)@[key@] && final(self)@
                    =~= old(self)@.remove(key@),
                None => !old(self)@.contains_key(key@) && *final(self) == *old(self),
            },
    {
        proof {
            lemma_kv_map_contains(self.entries@, key@);
        }
        match self.index_of(key) {
            Some(i) => {
                proof {
                    lemma_kv_map_index(self.entries@, i as int);
                    lemma_kv_map_remove(self.entries@, i as int);
                }
                let ghost before = self.entries@;
                let entry = self.entries.remove(i);
                proof {
                    assert(unique_keys(self.entries@)) by {
                        assert(forall|x: int|
                            0 <= x < self.entries@.len() ==> #[trigger] self.entries@[x] == if x < i
                                as int {
                                before[x]
                            } else {
                                before[x + 1]
                            });
                    }
                }
                Some(entry.1)
            },
            None => None,
        }
    }

    /// Read access to the underlying entries (for persistence and iteration).
    pub fn entries(&self) -> (r: &Vec<(String, V)>)
        ensures
            r@ == self.entries_seq(),
    {
        &self.entries
    }
}

} // verus!
