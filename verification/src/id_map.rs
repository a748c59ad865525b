//! A map from string identifiers to values, kept as a list of entries.

use vstd::prelude::*;

verus! {

/// The map that a list of entries stands for: a later entry for a key
/// overrides an earlier one.
pub open spec fn entries_map<V>(entries: Seq<(String, V)>) -> Map<Seq<char>, V>
    decreases entries.len(),
{
    if entries.len() == 0 {
        Map::empty()
    } else {
        let last = entries.last();
        entries_map(entries.drop_last()).insert(last.0@, last.1)
    }
}

/// No entry after index `i` has the key `k`.
pub open spec fn no_key_after<V>(entries: Seq<(String, V)>, k: Seq<char>, i: int) -> bool {
    forall|j: int| i < j < entries.len() ==> (#[trigger] entries[j]).0@ != k
}

proof fn lemma_absent<V>(entries: Seq<(String, V)>, k: Seq<char>)
    requires
        no_key_after(entries, k, -1),
    ensures
        !entries_map(entries).contains_key(k),
    decreases entries.len(),
{
    if entries.len() > 0 {
        let prefix = entries.drop_last();
        assert forall|j: int| -1 < j < prefix.len() implies (#[trigger] prefix[j]).0@ != k by {
            assert(prefix[j] == entries[j]);
        }
        lemma_absent(prefix, k);
        assert(entries.last() == entries[entries.len() - 1]);
    }
}

proof fn lemma_present<V>(entries: Seq<(String, V)>, k: Seq<char>, i: int)
    requires
        0 <= i < entries.len(),
        entries[i].0@ == k,
        no_key_after(entries, k, i),
    ensures
        entries_map(entries).contains_key(k),
        entries_map(entries)[k] == entries[i].1,
    decreases entries.len(),
{
    let prefix = entries.drop_last();
    if i < entries.len() - 1 {
        assert(entries.last() == entries[entries.len() - 1]);
        assert forall|j: int| i < j < prefix.len() implies (#[trigger] prefix[j]).0@ != k by {
            assert(prefix[j] == entries[j]);
        }
        lemma_present(prefix, k, i);
    }
}

proof fn lemma_update_last_key<V>(entries: Seq<(String, V)>, i: int, key: String, v: V)
    requires
        0 <= i < entries.len(),
        entries[i].0@ == key@,
        no_key_after(entries, key@, i),
    ensures
        entries_map(entries.update(i, (key, v))) == entries_map(entries).insert(key@, v),
    decreases entries.len(),
{
    let upd = entries.update(i, (key, v));
    let prefix = entries.drop_last();
    if i == entries.len() - 1 {
        assert(upd.drop_last() =~= prefix);
        assert(entries_map(upd) =~= entries_map(entries).insert(key@, v));
    } else {
        assert(upd.drop_last() =~= prefix.update(i, (key, v)));
        assert(entries.last() == entries[entries.len() - 1]);
        assert forall|j: int| i < j < prefix.len() implies (#[trigger] prefix[j]).0@ != key@ by {
            assert(prefix[j] == entries[j]);
        }
        lemma_update_last_key(prefix, i, key, v);
        assert(upd.last() == entries.last());
        assert(entries_map(upd) =~= entries_map(entries).insert(key@, v));
    }
}

proof fn lemma_empty_iff<V>(entries: Seq<(String, V)>)
    ensures
        entries_map(entries).dom().len() == 0 <==> entries.len() == 0,
        entries_map(entries).dom().finite(),
    decreases entries.len(),
{
    if entries.len() > 0 {
        lemma_empty_iff(entries.drop_last());
        let last = entries.last();
        assert(entries_map(entries).dom().contains(last.0@));
        assert(entries_map(entries).dom() =~= entries_map(entries.drop_last()).dom().insert(last.0@));
    } else {
        assert(entries_map(entries).dom() =~= Set::empty());
    }
}

/// Reading a key right after writing it gives the value written; the
/// other keys keep what they held.
pub proof fn lemma_read_after_write<V>(before: Map<Seq<char>, V>, key: Seq<char>, v: V, other: Seq<char>)
    ensures
        before.insert(key, v).contains_key(key),
        before.insert(key, v)[key] == v,
        other != key ==> before.insert(key, v).contains_key(other) == before.contains_key(other),
        other != key && before.contains_key(other) ==> before.insert(key, v)[other] == before[other],
{
}

/// A map keyed by string identifiers. Inserting under a key that is
/// present replaces its value.
#[derive(Debug, Clone)]
pub struct IdMap<V> {
    entries: Vec<(String, V)>,
}

impl<V> View for IdMap<V> {
    type V = Map<Seq<char>, V>;

    closed spec fn view(&self) -> Map<Seq<char>, V> {
        entries_map(self.entries@)
    }
}

impl<V> IdMap<V> {
    /// An empty map.
    pub fn new() -> (m: Self)
        ensures
            m@ == Map::<Seq<char>, V>::empty(),
    {
        IdMap { entries: Vec::new() }
    }

    /// Index of the last entry for `key`, if any.
    fn find(&self, key: &String) -> (r: Option<usize>)
        ensures
            match r {
                Some(i) => i < self.entries@.len() && self.entries@[i as int].0@ == key@
                    && no_key_after(self.entries@, key@, i as int),
                None => no_key_after(self.entries@, key@, -1),
            },
    {
        let mut i = self.entries.len();
        while i > 0
            invariant
                i <= self.entries@.len(),
                no_key_after(self.entries@, key@, i as int - 1),
            decreases i,
        {
            i = i - 1;
            if self.entries[i].0 == *key {
                return Some(i);
            }
        }
        None
    }

    /// The value stored under `key`.
    pub fn get(&self, key: &String) -> (r: Option<&V>)
        ensures
            r == (if self@.contains_key(key@) { Some(&self@[key@]) } else { None::<&V> }),
    {
        match self.find(key) {
            Some(i) => {
                proof { lemma_present(self.entries@, key@, i as int); }
                Some(&self.entries[i].1)
            },
            None => {
                proof { lemma_absent(self.entries@, key@); }
                None
            },
        }
    }

    /// Whether a value is stored under `key`.
    pub fn contains_key(&self, key: &String) -> (r: bool)
        ensures
            r == self@.contains_key(key@),
    {
        self.get(key).is_some()
    }

    /// Whether the map holds no entry.
    pub fn is_empty(&self) -> (r: bool)
        ensures
            r == (self@.dom().len() == 0),
    {
        proof { lemma_empty_iff(self.entries@); }
        self.entries.len() == 0
    }

    /// Stores `v` under `key`, replacing the value that was there.
    pub fn insert(&mut self, key: String, v: V)
        ensures
            final(self)@ == old(self)@.insert(key@, v),
    {
        match self.find(&key) {
            Some(i) => {
                proof { lemma_update_last_key(self.entries@, i as int, key, v); }
                self.entries.set(i, (key, v));
            },
            None => {
                proof { lemma_absent(self.entries@, key@); }
                let ghost before = self.entries@;
                self.entries.push((key, v));
                assert(self.entries@.drop_last() =~= before);
            },
        }
    }
}

} // verus!
