//! A finite mapping from names to values, kept as a list of entries.

use vstd::prelude::*;

verus! {

#[derive(Debug)]
struct Entry<V> {
    key: String,
    value: V,
}

/// A finite mapping keyed by text, with the mapping of names to values that
/// it stands for as its view. A lookup of a name that was never inserted
/// finds nothing.
#[derive(Debug)]
pub struct NameMap<V> {
    entries: Vec<Entry<V>>,
}

/// The mapping that a list of entries stands for: a later entry replaces an
/// earlier one of the same name.
spec fn entries_map<V>(s: Seq<Entry<V>>) -> Map<Seq<char>, V>
    decreases s.len(),
{
    if s.len() == 0 {
        Map::empty()
    } else {
        entries_map(s.drop_last()).insert(s.last().key@, s.last().value)
    }
}

/// The position of the last entry named `k`.
spec fn last_index_of<V>(s: Seq<Entry<V>>, k: Seq<char>) -> Option<int>
    decreases s.len(),
{
    if s.len() == 0 {
        None
    } else if s.last().key@ == k {
        Some(s.len() - 1)
    } else {
        last_index_of(s.drop_last(), k)
    }
}

proof fn lemma_last_index_of<V>(s: Seq<Entry<V>>, k: Seq<char>)
    ensures
        match last_index_of(s, k) {
            Some(i) => 0 <= i < s.len() && s[i].key@ == k && entries_map(s).contains_key(k)
                && entries_map(s)[k] == s[i].value,
            None => !entries_map(s).contains_key(k),
        },
    decreases s.len(),
{
    if s.len() > 0 && s.last().key@ != k {
        lemma_last_index_of(s.drop_last(), k);
    }
}

proof fn lemma_replace_last<V>(s: Seq<Entry<V>>, i: int, e: Entry<V>)
    requires
        last_index_of(s, e.key@) == Some(i),
    ensures
        0 <= i < s.len(),
        entries_map(s.update(i, e)) == entries_map(s).insert(e.key@, e.value),
    decreases s.len(),
{
    lemma_last_index_of(s, e.key@);
    let t = s.update(i, e);
    if i == s.len() - 1 {
        assert(t.drop_last() == s.drop_last());
        assert(entries_map(t) =~= entries_map(s).insert(e.key@, e.value));
    } else {
        lemma_replace_last(s.drop_last(), i, e);
        assert(t.drop_last() == s.drop_last().update(i, e));
        assert(t.last() == s.last());
        assert(entries_map(t) =~= entries_map(s).insert(e.key@, e.value));
    }
}

impl<V> View for NameMap<V> {
    type V = Map<Seq<char>, V>;

    closed spec fn view(&self) -> Map<Seq<char>, V> {
        entries_map(self.entries@)
    }
}

impl<V> NameMap<V> {
    /// The mapping that knows no name.
    pub fn new() -> (m: Self)
        ensures
            m@ == Map::<Seq<char>, V>::empty(),
    {
        NameMap { entries: Vec::new() }
    }

    fn position(&self, key: &String) -> (r: Option<usize>)
        ensures
            match r {
                Some(i) => last_index_of(self.entries@, key@) == Some(i as int),
                None => last_index_of(self.entries@, key@) is None,
            },
    {
        let mut i: usize = self.entries.len();
        proof {
            assert(self.entries@.take(i as int) == self.entries@);
        }
        while i > 0
            invariant
                i <= self.entries.len(),
                last_index_of(self.entries@, key@) == last_index_of(
                    self.entries@.take(i as int),
                    key@,
                ),
            decreases i,
        {
            proof {
                assert(self.entries@.take(i as int).drop_last() == self.entries@.take(i - 1));
            }
            if self.entries[i - 1].key == *key {
                return Some(i - 1);
            }
            i = i - 1;
        }
        proof {
            assert(self.entries@.take(0).len() == 0);
        }
        None
    }

    /// The value stored under the name, if the mapping knows it.
    pub fn get(&self, key: &String) -> (r: Option<&V>)
        ensures
            match r {
                Some(v) => self@.contains_key(key@) && *v == self@[key@],
                None => !self@.contains_key(key@),
            },
    {
        proof {
            lemma_last_index_of(self.entries@, key@);
        }
        match self.position(key) {
            Some(i) => Some(&self.entries[i].value),
            None => None,
        }
    }

    /// Stores the value under the name, in place of what was stored there.
    pub fn insert(&mut self, key: String, value: V)
        ensures
            final(self)@ == old(self)@.insert(key@, value),
    {
        let entry = Entry { key, value };
        match self.position(&entry.key) {
            Some(i) => {
                proof {
                    lemma_replace_last(self.entries@, i as int, entry);
                }
                self.entries.set(i, entry);
            },
            None => {
                proof {
                    assert(self.entries@.push(entry).drop_last() == self.entries@);
                }
                self.entries.push(entry);
            },
        }
    }
}

} // verus!
