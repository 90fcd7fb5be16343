//! Index from native toolkit window identifiers to logical identifiers.
//! Its mathematical model is a `Map<u64, String>`.

use vstd::prelude::*;

verus! {

/// All native identifiers in the entry sequence are pairwise distinct.
pub open spec fn unique_native_keys(s: Seq<(u64, String)>) -> bool {
    forall|i: int, j: int| 0 <= i < j < s.len() ==> s[i].0 != s[j].0
}

/// The map denoted by an entry sequence.
pub open spec fn native_map(s: Seq<(u64, String)>) -> Map<u64, String>
    decreases s.len(),
{
    if s.len() == 0 {
        Map::empty()
    } else {
        native_map(s.drop_last()).insert(s.last().0, s.last().1)
    }
}

pub proof fn lemma_native_map_contains(s: Seq<(u64, String)>, k: u64)
    ensures
        native_map(s).contains_key(k) <==> exists|i: int| 0 <= i < s.len() && s[i].0 == k,
    decreases s.len(),
{
    if s.len() == 0 {
    } else {
        lemma_native_map_contains(s.drop_last(), k);
        if s.last().0 == k {
            assert(s[s.len() - 1].0 == k);
        } else {
            if exists|i: int| 0 <= i < s.len() && s[i].0 == k {
                let i = choose|i: int| 0 <= i < s.len() && s[i].0 == k;
                assert(s.drop_last()[i].0 == k);
            }
        }
    }
}

pub proof fn lemma_native_map_index(s: Seq<(u64, String)>, i: int)
    requires
        unique_native_keys(s),
        0 <= i < s.len(),
    ensures
        native_map(s).contains_key(s[i].0),
        native_map(s)[s[i].0] == s[i].1,
    decreases s.len(),
{
    if i == s.len() - 1 {
    } else {
        assert(unique_native_keys(s.drop_last())) by {
            assert(forall|x: int, y: int|
                0 <= x < y < s.drop_last().len() ==> s.drop_last()[x].0 != s.drop_last()[y].0);
        }
        lemma_native_map_index(s.drop_last(), i);
        assert(s[i].0 != s.last().0);
    }
}

pub proof fn lemma_native_map_remove(s: Seq<(u64, String)>, i: int)
    requires
        unique_native_keys(s),
        0 <= i < s.len(),
    ensures
        native_map(s.remove(i)) =~= native_map(s).remove(s[i].0),
    decreases s.len(),
{
    if i == s.len() - 1 {
        assert(s.remove(i) =~= s.drop_last());
        lemma_native_map_contains(s.drop_last(), s[i].0);
        assert(!native_map(s.drop_last()).contains_key(s[i].0));
    } else {
        assert(unique_native_keys(s.drop_last())) by {
            assert(forall|x: int, y: int|
                0 <= x < y < s.drop_last().len() ==> s.drop_last()[x].0 != s.drop_last()[y].0);
        }
        lemma_native_map_remove(s.drop_last(), i);
        assert(s.remove(i).drop_last() =~= s.drop_last().remove(i));
        assert(s.remove(i).last() == s.last());
        assert(s[i].0 != s.last().0);
    }
}

/// The index itself: entries with pairwise-distinct native identifiers.
pub struct NativeIndex {
    entries: Vec<(u64, String)>,
}

impl View for NativeIndex {
    type V = Map<u64, String>;

    closed spec fn view(&self) -> Map<u64, String> {
        native_map(self.entries@)
    }
}

impl NativeIndex {
    pub closed spec fn wf(&self) -> bool {
        unique_native_keys(self.entries@)
    }

    pub fn new() -> (r: NativeIndex)
        ensures
            r.wf(),
            r@ =~= Map::<u64, String>::empty(),
    {
        NativeIndex { entries: Vec::new() }
    }

    fn index_of(&self, key: u64) -> (r: Option<usize>)
        ensures
            match r {
                Some(i) => i < self.entries@.len() && self.entries@[i as int].0 == key,
                None => forall|i: int| 0 <= i < self.entries@.len() ==> self.entries@[i].0 != key,
            },
    {
        let n = self.entries.len();
        let mut i: usize = 0;
        while i < n
            invariant
                n == self.entries@.len(),
                i <= n,
                forall|j: int| 0 <= j < i ==> self.entries@[j].0 != key,
            decreases n - i,
        {
            if self.entries[i].0 == key {
                return Some(i);
            }
            i = i + 1;
        }
        None
    }

    pub fn get(&self, key: u64) -> (r: Option<&String>)
        requires
            self.wf(),
        ensures
            match r {
                Some(v) => self@.contains_key(key) && *v == self@[key],
                None => !self@.contains_key(key),
            },
    {
        proof {
            lemma_native_map_contains(self.entries@, key);
        }
        match self.index_of(key) {
            Some(i) => {
                proof {
                    lemma_native_map_index(self.entries@, i as int);
                }
                Some(&self.entries[i].1)
            },
            None => None,
        }
    }

    /// Inserts or replaces the logical identifier under `key`.
    pub fn insert(&mut self, key: u64, value: String)
        requires
            old(self).wf(),
        ensures
            final(self).wf(),
            final(self)@ =~= old(self)@.insert(key, value),
    {
        let ghost m0 = native_map(self.entries@);
        proof {
            lemma_native_map_contains(self.entries@, key);
        }
        if let Some(i) = self.index_of(key) {
            proof {
                lemma_native_map_remove(self.entries@, i as int);
            }
            let ghost before = self.entries@;
            self.entries.remove(i);
            proof {
                assert(forall|x: int|
                    0 <= x < self.entries@.len() ==> #[trigger] self.entries@[x] == if x < i as int {
                        before[x]
                    } else {
                        before[x + 1]
                    });
                assert(unique_native_keys(self.entries@));
                assert(native_map(self.entries@) =~= m0.remove(key));
                lemma_native_map_contains(self.entries@, key);
            }
        }
        let ghost mid = self.entries@;
        proof {
            assert(forall|x: int| 0 <= x < mid.len() ==> mid[x].0 != key);
        }
        self.entries.push((key, value));
        proof {
            assert(self.entries@.drop_last() =~= mid);
            assert(self.entries@.last().0 == key);
            assert(native_map(self.entries@) =~= m0.insert(key, value));
            assert(forall|x: int, y: int|
                0 <= x < y < self.entries@.len() ==> self.entries@[x].0 != self.entries@[y].0) by {
                assert(forall|x: int| 0 <= x < mid.len() ==> #[trigger] self.entries@[x] == mid[x]);
            }
        }
    }

    /// Removes the entry under `key`, if any.
    pub fn remove(&mut self, key: u64)
        requires
            old(self).wf(),
        ensures
            final(self).wf(),
            final(self)@ =~= old(self)@.remove(key),
    {
        proof {
            lemma_native_map_contains(self.entries@, key);
        }
        match self.index_of(key) {
            Some(i) => {
                proof {
                    lemma_native_map_remove(self.entries@, i as int);
                }
                let ghost before = self.entries@;
                self.entries.remove(i);
                proof {
                    assert(forall|x: int|
                        0 <= x < self.entries@.len() ==> #[trigger] self.entries@[x] == if x < i
                            as int {
                            before[x]
                        } else {
                            before[x + 1]
                        });
                    assert(unique_native_keys(self.entries@));
                }
            },
            None => {
                proof {
                    assert(old(self)@.remove(key) =~= old(self)@);
                }
            },
        }
    }
}

} // verus!
