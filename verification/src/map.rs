//! A map from strings to strings, kept as a vector of distinct keys.

use vstd::prelude::*;

use crate::text::equal;

verus! {

/// No two entries of `s` have the same key.
pub open spec fn keys_distinct(s: Seq<(String, String)>) -> bool {
    forall|i: int, j: int|
        0 <= i < s.len() && 0 <= j < s.len() && i != j ==> (#[trigger] s[i]).0@ != (#[trigger] s[j]).0@
}

/// The map that a list of entries denotes; a later entry wins over an
/// earlier one with the same key.
pub open spec fn entries_map(s: Seq<(String, String)>) -> Map<Seq<char>, Seq<char>>
    decreases s.len(),
{
    if s.len() == 0 {
        Map::empty()
    } else {
        entries_map(s.drop_last()).insert(s.last().0@, s.last().1@)
    }
}

proof fn lemma_entries_map_keys(s: Seq<(String, String)>, k: Seq<char>)
    ensures
        entries_map(s).contains_key(k) <==> exists|i: int| 0 <= i < s.len() && (#[trigger] s[i]).0@ == k,
    decreases s.len(),
{
    if s.len() > 0 {
        lemma_entries_map_keys(s.drop_last(), k);
        if entries_map(s.drop_last()).contains_key(k) {
            let i = choose|i: int| 0 <= i < s.drop_last().len() && (#[trigger] s.drop_last()[i]).0@ == k;
            assert(s[i] == s.drop_last()[i]);
        }
        if exists|i: int| 0 <= i < s.len() && (#[trigger] s[i]).0@ == k {
            let i = choose|i: int| 0 <= i < s.len() && (#[trigger] s[i]).0@ == k;
            if i < s.len() - 1 {
                assert(s.drop_last()[i] == s[i]);
            }
        }
    }
}

proof fn lemma_entries_map_value(s: Seq<(String, String)>, i: int)
    requires
        keys_distinct(s),
        0 <= i < s.len(),
    ensures
        entries_map(s).contains_key(s[i].0@),
        entries_map(s)[s[i].0@] == s[i].1@,
    decreases s.len(),
{
    if i < s.len() - 1 {
        assert(s.drop_last()[i] == s[i]);
        assert(keys_distinct(s.drop_last())) by {
            assert forall|a: int, b: int|
                0 <= a < s.drop_last().len() && 0 <= b < s.drop_last().len() && a != b implies
                (#[trigger] s.drop_last()[a]).0@ != (#[trigger] s.drop_last()[b]).0@ by {
                assert(s.drop_last()[a] == s[a]);
                assert(s.drop_last()[b] == s[b]);
            }
        }
        lemma_entries_map_value(s.drop_last(), i);
        assert(s[i].0@ != s[s.len() - 1].0@);
    }
}

proof fn lemma_entries_map_update(s: Seq<(String, String)>, i: int, e: (String, String))
    requires
        0 <= i < s.len(),
        s[i].0@ == e.0@,
        keys_distinct(s),
    ensures
        entries_map(s.update(i, e)) == entries_map(s).insert(e.0@, e.1@),
    decreases s.len(),
{
    let t = s.update(i, e);
    if i == s.len() - 1 {
        assert(t.drop_last() =~= s.drop_last());
        assert(entries_map(t) =~= entries_map(s).insert(e.0@, e.1@));
    } else {
        let d = s.drop_last();
        assert(t.drop_last() =~= d.update(i, e));
        assert(keys_distinct(d)) by {
            assert forall|a: int, b: int|
                0 <= a < d.len() && 0 <= b < d.len() && a != b implies
                (#[trigger] d[a]).0@ != (#[trigger] d[b]).0@ by {
                assert(d[a] == s[a]);
                assert(d[b] == s[b]);
            }
        }
        assert(d[i] == s[i]);
        lemma_entries_map_update(d, i, e);
        assert(s[i].0@ != s[s.len() - 1].0@);
        assert(t.last() == s.last());
        assert(entries_map(t) =~= entries_map(s).insert(e.0@, e.1@));
    }
}

/// A map from strings to strings. Each key occurs at most once.
pub struct StringMap {
    entries: Vec<(String, String)>,
}

impl View for StringMap {
    type V = Map<Seq<char>, Seq<char>>;

    closed spec fn view(&self) -> Map<Seq<char>, Seq<char>> {
        entries_map(self.entries@)
    }
}

impl StringMap {
    #[verifier::type_invariant]
    closed spec fn keys_are_distinct(self) -> bool {
        keys_distinct(self.entries@)
    }

    /// The empty map.
    pub fn new() -> (m: Self)
        ensures
            m@ == Map::<Seq<char>, Seq<char>>::empty(),
    {
        StringMap { entries: Vec::new() }
    }

    /// The entries of the map, each key once.
    pub fn entries(&self) -> (r: &Vec<(String, String)>)
        ensures
            entries_map(r@) == self@,
            keys_distinct(r@),
    {
        proof {
            use_type_invariant(self);
        }
        &self.entries
    }

    /// The position of `key` among the entries, if it has one.
    fn position(&self, key: &str) -> (r: Option<usize>)
        ensures
            match r {
                Some(i) => i < self.entries@.len() && self.entries@[i as int].0@ == key@,
                None => forall|i: int| 0 <= i < self.entries@.len() ==> (#[trigger] self.entries@[i]).0@ != key@,
            },
    {
        let mut i: usize = 0;
        while i < self.entries.len()
            invariant
                i <= self.entries@.len(),
                forall|j: int| 0 <= j < i ==> (#[trigger] self.entries@[j]).0@ != key@,
            decreases self.entries@.len() - i,
        {
            if equal(self.entries[i].0.as_str(), key) {
                return Some(i);
            }
            i = i + 1;
        }
        None
    }

    /// The value stored under `key`.
    pub fn get(&self, key: &str) -> (r: Option<&String>)
        ensures
            match r {
                Some(v) => self@.contains_key(key@) && self@[key@] == v@,
                None => !self@.contains_key(key@),
            },
    {
        proof {
            use_type_invariant(self);
            lemma_entries_map_keys(self.entries@, key@);
        }
        match self.position(key) {
            Some(i) => {
                proof {
                    lemma_entries_map_value(self.entries@, i as int);
                }
                Some(&self.entries[i].1)
            },
            None => None,
        }
    }

    /// Stores `value` under `key`, replacing what was stored there.
    pub fn insert(&mut self, key: String, value: String)
        ensures
            final(self)@ == old(self)@.insert(key@, value@),
    {
        proof {
            use_type_invariant(&*self);
        }
        let ghost before = self.entries@;
        let pos = self.position(key.as_str());
        let mut entries: Vec<(String, String)> = Vec::new();
        std::mem::swap(&mut entries, &mut self.entries);
        assert(entries@ == before);
        match pos {
            Some(i) => {
                proof {
                    lemma_entries_map_update(before, i as int, (key, value));
                }
                entries.set(i, (key, value));
                assert(entries@ == before.update(i as int, (key, value)));
                assert(keys_distinct(entries@)) by {
                    assert forall|a: int, b: int|
                        0 <= a < entries@.len() && 0 <= b < entries@.len() && a != b implies
                        (#[trigger] entries@[a]).0@ != (#[trigger] entries@[b]).0@ by {
                        if a != i && b != i {
                            assert(entries@[a] == before[a]);
                            assert(entries@[b] == before[b]);
                        } else if a == i {
                            assert(entries@[b] == before[b]);
                        } else {
                            assert(entries@[a] == before[a]);
                        }
                    }
                }
            },
            None => {
                entries.push((key, value));
                assert(entries@.drop_last() =~= before);
                assert(keys_distinct(entries@)) by {
                    assert forall|a: int, b: int|
                        0 <= a < entries@.len() && 0 <= b < entries@.len() && a != b implies
                        (#[trigger] entries@[a]).0@ != (#[trigger] entries@[b]).0@ by {
                        if a < before.len() {
                            assert(entries@[a] == before[a]);
                        }
                        if b < before.len() {
                            assert(entries@[b] == before[b]);
                        }
                    }
                }
            },
        }
        self.entries = entries;
    }
}

} // verus!
