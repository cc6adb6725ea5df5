//! A map keyed by text, for the small directories of this system: paired
//! devices, pinned keys, devices online.

use vstd::prelude::*;

use crate::text::same_text;

verus! {

#[derive(Debug, Clone)]
pub struct StrMap<V> {
    entries: Vec<(String, V)>,
}

/// The position of a key among entries.
pub open spec fn has_key<V>(entries: Seq<(String, V)>, k: Seq<char>) -> bool {
    exists|i: int| 0 <= i < entries.len() && (#[trigger] entries[i]).0@ == k
}

pub open spec fn key_index<V>(entries: Seq<(String, V)>, k: Seq<char>) -> int {
    choose|i: int| 0 <= i < entries.len() && (#[trigger] entries[i]).0@ == k
}

/// No key occurs twice.
pub open spec fn distinct_keys<V>(entries: Seq<(String, V)>) -> bool {
    forall|i: int, j: int|
        0 <= i < j < entries.len() ==> (#[trigger] entries[i]).0@ != (#[trigger] entries[j]).0@
}

/// The map that a list of entries stands for.
pub open spec fn as_map<V>(entries: Seq<(String, V)>) -> Map<Seq<char>, V> {
    Map::new(|k: Seq<char>| has_key(entries, k), |k: Seq<char>| entries[key_index(entries, k)].1)
}

impl<V> View for StrMap<V> {
    type V = Map<Seq<char>, V>;

    closed spec fn view(&self) -> Map<Seq<char>, V> {
        as_map(self.entries@)
    }
}

proof fn lemma_lookup<V>(entries: Seq<(String, V)>, i: int)
    requires
        distinct_keys(entries),
        0 <= i < entries.len(),
    ensures
        has_key(entries, entries[i].0@),
        key_index(entries, entries[i].0@) == i,
        as_map(entries).dom().contains(entries[i].0@),
        as_map(entries)[entries[i].0@] == entries[i].1,
{
    let k = entries[i].0@;
    let j = key_index(entries, k);
    assert(0 <= j < entries.len() && entries[j].0@ == k);
    assert(i == j);
}

proof fn lemma_size<V>(entries: Seq<(String, V)>)
    requires
        distinct_keys(entries),
    ensures
        as_map(entries).dom().finite(),
        as_map(entries).len() == entries.len(),
{
    let keys = entries.map_values(|e: (String, V)| e.0@);
    assert(keys.no_duplicates());
    keys.unique_seq_to_set();
    assert(keys.to_set() =~= as_map(entries).dom()) by {
        assert forall|k: Seq<char>| keys.to_set().contains(k) <==> as_map(entries).dom().contains(
            k,
        ) by {
            if keys.contains(k) {
                let i = choose|i: int| 0 <= i < keys.len() && keys[i] == k;
                assert(entries[i].0@ == k);
            }
            if has_key(entries, k) {
                let i = key_index(entries, k);
                assert(keys[i] == k);
            }
        }
    }
}

impl<V> StrMap<V> {
    pub closed spec fn wf(&self) -> bool {
        distinct_keys(self.entries@)
    }

    pub fn new() -> (m: Self)
        ensures
            m.wf(),
            m@ == Map::<Seq<char>, V>::empty(),
    {
        let m = StrMap { entries: Vec::new() };
        assert(m@ =~= Map::<Seq<char>, V>::empty());
        m
    }

    pub fn len(&self) -> (n: usize)
        requires
            self.wf(),
        ensures
            self@.dom().finite(),
            n == self@.len(),
    {
        proof {
            lemma_size(self.entries@);
        }
        self.entries.len()
    }

    pub fn is_empty(&self) -> (r: bool)
        requires
            self.wf(),
        ensures
            r == (self@ == Map::<Seq<char>, V>::empty()),
    {
        proof {
            if self.entries@.len() == 0 {
                assert(self@ =~= Map::<Seq<char>, V>::empty());
            } else {
                lemma_lookup(self.entries@, 0);
            }
        }
        self.entries.len() == 0
    }

    fn find(&self, key: &str) -> (r: Option<usize>)
        requires
            self.wf(),
        ensures
            match r {
                Some(i) => i < self.entries@.len() && self.entries@[i as int].0@ == key@,
                None => !has_key(self.entries@, key@),
            },
    {
        let mut i: usize = 0;
        while i < self.entries.len()
            invariant
                i <= self.entries@.len(),
                forall|j: int| 0 <= j < i ==> (#[trigger] self.entries@[j]).0@ != key@,
            decreases self.entries@.len() - i,
        {
            if same_text(self.entries[i].0.as_str(), key) {
                return Some(i);
            }
            i += 1;
        }
        None
    }

    pub fn contains(&self, key: &str) -> (r: bool)
        requires
            self.wf(),
        ensures
            r == self@.dom().contains(key@),
    {
        self.find(key).is_some()
    }

    pub fn get(&self, key: &str) -> (r: Option<&V>)
        requires
            self.wf(),
        ensures
            match r {
                Some(v) => self@.dom().contains(key@) && self@[key@] == *v,
                None => !self@.dom().contains(key@),
            },
    {
        match self.find(key) {
            Some(i) => {
                proof {
                    lemma_lookup(self.entries@, i as int);
                }
                Some(&self.entries[i].1)
            },
            None => None,
        }
    }

    /// Put a value under a key; the value that stood there before.
    pub fn insert(&mut self, key: String, value: V) -> (r: Option<V>)
        requires
            old(self).wf(),
        ensures
            final(self).wf(),
            final(self)@ == old(self)@.insert(key@, value),
            match r {
                Some(v) => old(self)@.dom().contains(key@) && old(self)@[key@] == v,
                None => !old(self)@.dom().contains(key@),
            },
    {
        let ghost before = self.entries@;
        let ghost k = key@;
        let previous: Option<V> = self.take(key.as_str());
        let ghost rest = self.entries@;
        self.entries.push((key, value));
        proof {
            let after = self.entries@;
            let want = as_map(before).insert(k, value);
            let got = as_map(after);
            assert forall|x: Seq<char>| #[trigger] got.dom().contains(x) implies want.dom().contains(
                x,
            ) by {
                let i = key_index(after, x);
                assert(0 <= i < after.len() && after[i].0@ == x);
                if i < rest.len() {
                    assert(rest[i].0@ == x);
                    assert(as_map(rest).dom().contains(x));
                }
            }
            assert forall|x: Seq<char>| #[trigger] want.dom().contains(x) implies {
                &&& got.dom().contains(x)
                &&& got[x] == want[x]
            } by {
                if x == k {
                    lemma_lookup(after, after.len() - 1);
                } else {
                    assert(as_map(rest).dom().contains(x));
                    let i = key_index(rest, x);
                    assert(after[i] == rest[i]);
                    lemma_lookup(rest, i);
                    lemma_lookup(after, i);
                }
            }
            assert(got.dom() =~= want.dom());
            assert(got =~= want);
        }
        previous
    }

    /// Take a key out; the value that stood there.
    pub fn remove(&mut self, key: &str) -> (r: Option<V>)
        requires
            old(self).wf(),
        ensures
            final(self).wf(),
            final(self)@ == old(self)@.remove(key@),
            match r {
                Some(v) => old(self)@.dom().contains(key@) && old(self)@[key@] == v,
                None => !old(self)@.dom().contains(key@),
            },
    {
        self.take(key)
    }

    fn take(&mut self, key: &str) -> (r: Option<V>)
        requires
            old(self).wf(),
        ensures
            final(self).wf(),
            !has_key(final(self).entries@, key@),
            final(self)@ == old(self)@.remove(key@),
            match r {
                Some(v) => old(self)@.dom().contains(key@) && old(self)@[key@] == v,
                None => !old(self)@.dom().contains(key@),
            },
    {
        let ghost before = self.entries@;
        match self.find(key) {
            Some(i) => {
                proof {
                    lemma_lookup(before, i as int);
                }
                let (_, value) = self.entries.remove(i);
                proof {
                    let after = self.entries@;
                    assert(after == before.remove(i as int));
                    assert forall|j: int| 0 <= j < after.len() implies #[trigger] after[j]
                        == before[if j < i {
                        j
                    } else {
                        j + 1
                    }] by {}
                    assert(distinct_keys(after));
                    assert(!has_key(after, key@)) by {
                        if has_key(after, key@) {
                            let j = key_index(after, key@);
                            let q = if j < i {
                                j
                            } else {
                                j + 1
                            };
                            assert(before[q].0@ == key@);
                        }
                    }
                    let want = as_map(before).remove(key@);
                    let got = as_map(after);
                    assert forall|x: Seq<char>| #[trigger] want.dom().contains(x) implies {
                        &&& got.dom().contains(x)
                        &&& got[x] == want[x]
                    } by {
                        let q = key_index(before, x);
                        assert(before[q].0@ == x);
                        let j = if q < i {
                            q
                        } else {
                            q - 1
                        };
                        assert(after[j] == before[q]);
                        lemma_lookup(before, q);
                        lemma_lookup(after, j);
                    }
                    assert forall|x: Seq<char>| #[trigger]
                        got.dom().contains(x) implies want.dom().contains(x) by {
                        let j = key_index(after, x);
                        assert(after[j].0@ == x);
                        let q = if j < i {
                            j
                        } else {
                            j + 1
                        };
                        assert(before[q].0@ == x);
                    }
                    assert(got.dom() =~= want.dom());
                    assert(got =~= want);
                }
                Some(value)
            },
            None => {
                assert(as_map(before) =~= as_map(before).remove(key@));
                None
            },
        }
    }

    /// The keys and values, each key once, in some order.
    pub closed spec fn listed(&self) -> Seq<(String, V)> {
        self.entries@
    }

    /// The keys and values, each key once.
    pub fn entries(&self) -> (r: &Vec<(String, V)>)
        requires
            self.wf(),
        ensures
            r@ == self.listed(),
            distinct_keys(r@),
            as_map(r@) == self@,
    {
        &self.entries
    }
}

} // verus!
