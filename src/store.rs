//! A map from string keys to values, kept as a list of entries with distinct keys.
use vstd::prelude::*;

verus! {

/// Entries whose keys are pairwise distinct.
pub open spec fn keys_distinct<V>(e: Seq<(String, V)>) -> bool {
    forall|i: int, j: int| 0 <= i < j < e.len() ==> (#[trigger] e[i]).0@ != (#[trigger] e[j]).0@
}

/// Some entry has key `k`.
pub open spec fn has_key<V>(e: Seq<(String, V)>, k: Seq<char>) -> bool {
    exists|i: int| 0 <= i < e.len() && (#[trigger] e[i]).0@ == k
}

/// The map that a list of entries with distinct keys stands for.
pub open spec fn entries_map<V>(e: Seq<(String, V)>) -> Map<Seq<char>, V> {
    Map::new(
        |k: Seq<char>| has_key(e, k),
        |k: Seq<char>| e[choose|i: int| 0 <= i < e.len() && (#[trigger] e[i]).0@ == k].1,
    )
}

/// A string-keyed map.
pub struct StrMap<V> {
    entries: Vec<(String, V)>,
}

impl<V> View for StrMap<V> {
    type V = Map<Seq<char>, V>;

    closed spec fn view(&self) -> Map<Seq<char>, V> {
        entries_map(self.entries@)
    }
}

proof fn lemma_entry_value<V>(e: Seq<(String, V)>, i: int)
    requires
        keys_distinct(e),
        0 <= i < e.len(),
    ensures
        entries_map(e).contains_key(e[i].0@),
        entries_map(e)[e[i].0@] == e[i].1,
{
    assert(has_key(e, e[i].0@));
    let j = choose|j: int| 0 <= j < e.len() && (#[trigger] e[j]).0@ == e[i].0@;
    assert(j == i);
}

impl<V> StrMap<V> {
    /// The entries hold distinct keys.
    pub closed spec fn wf(&self) -> bool {
        keys_distinct(self.entries@)
    }

    /// An empty map.
    pub fn new() -> (r: Self)
        ensures
            r.wf(),
            r@ == Map::<Seq<char>, V>::empty(),
    {
        let r = StrMap { entries: Vec::new() };
        assert(r@ =~= Map::<Seq<char>, V>::empty());
        r
    }

    /// The position of the entry with key `k`.
    fn find(&self, k: &str) -> (r: Option<usize>)
        requires
            self.wf(),
        ensures
            match r {
                Some(i) => i < self.entries@.len() && self.entries@[i as int].0@ == k@,
                None => !self@.contains_key(k@),
            },
    {
        let key = String::from_str(k);
        let mut i: usize = 0;
        while i < self.entries.len()
            invariant
                i <= self.entries@.len(),
                key@ == k@,
                forall|j: int| 0 <= j < i ==> (#[trigger] self.entries@[j]).0@ != k@,
            decreases self.entries@.len() - i,
        {
            if self.entries[i].0.eq(&key) {
                return Some(i);
            }
            i = i + 1;
        }
        None
    }

    /// Whether the map holds key `k`.
    pub fn contains_key(&self, k: &str) -> (r: bool)
        requires
            self.wf(),
        ensures
            r == self@.contains_key(k@),
    {
        match self.find(k) {
            Some(i) => {
                proof {
                    lemma_entry_value(self.entries@, i as int);
                }
                true
            },
            None => false,
        }
    }

    /// The value under key `k`, if any.
    pub fn get(&self, k: &str) -> (r: Option<&V>)
        requires
            self.wf(),
        ensures
            match r {
                Some(v) => self@.contains_key(k@) && *v == self@[k@],
                None => !self@.contains_key(k@),
            },
    {
        match self.find(k) {
            Some(i) => {
                proof {
                    lemma_entry_value(self.entries@, i as int);
                }
                Some(&self.entries[i].1)
            },
            None => None,
        }
    }

    /// Sets the value under key `k`, adding the key if it is new.
    pub fn insert(&mut self, k: String, v: V)
        requires
            old(self).wf(),
        ensures
            final(self).wf(),
            final(self)@ == old(self)@.insert(k@, v),
    {
        let ghost kv = k@;
        let ghost before = self.entries@;
        match self.find(k.as_str()) {
            Some(i) => {
                self.entries.set(i, (k, v));
                proof {
                    let e = self.entries@;
                    assert(keys_distinct(e));
                    assert forall|key: Seq<char>| #[trigger] has_key(e, key) == has_key(before, key) by {
                        if has_key(before, key) {
                            let j = choose|j: int| 0 <= j < before.len() && (#[trigger] before[j]).0@ == key;
                            assert(e[j].0@ == key);
                        }
                        if has_key(e, key) {
                            let j = choose|j: int| 0 <= j < e.len() && (#[trigger] e[j]).0@ == key;
                            assert(before[j].0@ == key);
                        }
                    };
                    assert forall|key: Seq<char>| #[trigger] entries_map(e).contains_key(key) implies
                        entries_map(e)[key] == old(self)@.insert(kv, v)[key] by {
                        let j = choose|j: int| 0 <= j < e.len() && (#[trigger] e[j]).0@ == key;
                        lemma_entry_value(e, j);
                        if j != i {
                            lemma_entry_value(before, j);
                        }
                    };
                    assert(self@ =~= old(self)@.insert(kv, v));
                }
            },
            None => {
                self.entries.push((k, v));
                proof {
                    let e = self.entries@;
                    let n = before.len() as int;
                    assert forall|key: Seq<char>| #[trigger] has_key(e, key) == (has_key(before, key) || key == kv) by {
                        if has_key(before, key) {
                            let j = choose|j: int| 0 <= j < before.len() && (#[trigger] before[j]).0@ == key;
                            assert(e[j].0@ == key);
                        }
                        if key == kv {
                            assert(e[n].0@ == key);
                        }
                        if has_key(e, key) && key != kv {
                            let j = choose|j: int| 0 <= j < e.len() && (#[trigger] e[j]).0@ == key;
                            assert(before[j].0@ == key);
                        }
                    };
                    assert forall|key: Seq<char>| #[trigger] entries_map(e).contains_key(key) implies
                        entries_map(e)[key] == old(self)@.insert(kv, v)[key] by {
                        let j = choose|j: int| 0 <= j < e.len() && (#[trigger] e[j]).0@ == key;
                        lemma_entry_value(e, j);
                        if j != n {
                            lemma_entry_value(before, j);
                        }
                    };
                    assert(self@ =~= old(self)@.insert(kv, v));
                }
            },
        }
    }
}

} // verus!
