//! A small string-keyed map for the free-form metadata of a pickup note.
//!
//! Entries are kept in insertion order; a key is stored once, and writing an
//! existing key replaces its value in place.

use vstd::prelude::*;

verus! {

/// The map that a sequence of entries denotes: each entry sets its key, and
/// a later entry overrides an earlier one with the same key.
pub open spec fn entries_map(s: Seq<(String, String)>) -> Map<Seq<char>, Seq<char>>
    decreases s.len(),
{
    if s.len() == 0 {
        Map::empty()
    } else {
        entries_map(s.drop_last()).insert(s.last().0@, s.last().1@)
    }
}

/// No two entries of `s` carry the same key.
pub open spec fn keys_distinct(s: Seq<(String, String)>) -> bool {
    forall|i: int, j: int| 0 <= i < j < s.len() ==> s[i].0@ != s[j].0@
}

/// Metadata attached to a pickup note: a map from keys to values.
#[derive(Debug)]
pub struct Metadata {
    entries: Vec<(String, String)>,
}

impl Metadata {
    /// Each key is stored once.
    #[verifier::type_invariant]
    spec fn keys_stored_once(self) -> bool {
        keys_distinct(self.entries@)
    }
}

impl View for Metadata {
    type V = Map<Seq<char>, Seq<char>>;

    closed spec fn view(&self) -> Map<Seq<char>, Seq<char>> {
        entries_map(self.entries@)
    }
}

/// Where entry `j` is the last one with its key, the map holds that key with
/// entry `j`'s value.
proof fn lemma_last_occurrence(s: Seq<(String, String)>, j: int)
    requires
        0 <= j < s.len(),
        forall|k: int| j < k < s.len() ==> s[k].0@ != s[j].0@,
    ensures
        entries_map(s).contains_key(s[j].0@),
        entries_map(s)[s[j].0@] == s[j].1@,
    decreases s.len(),
{
    if j < s.len() - 1 {
        lemma_last_occurrence(s.drop_last(), j);
    }
}

/// A key that no entry carries is not in the map.
proof fn lemma_absent(s: Seq<(String, String)>, key: Seq<char>)
    requires
        forall|k: int| 0 <= k < s.len() ==> s[k].0@ != key,
    ensures
        !entries_map(s).contains_key(key),
    decreases s.len(),
{
    if s.len() > 0 {
        lemma_absent(s.drop_last(), key);
    }
}

/// Entries with the same keys and values, as text, denote the same map.
proof fn lemma_same_text(s: Seq<(String, String)>, t: Seq<(String, String)>)
    requires
        s.len() == t.len(),
        forall|k: int| 0 <= k < s.len() ==> s[k].0@ == t[k].0@ && s[k].1@ == t[k].1@,
    ensures
        entries_map(s) == entries_map(t),
    decreases s.len(),
{
    if s.len() > 0 {
        lemma_same_text(s.drop_last(), t.drop_last());
    }
}

/// With distinct keys, the map has one key per entry.
proof fn lemma_map_len(s: Seq<(String, String)>)
    requires
        keys_distinct(s),
    ensures
        entries_map(s).dom().finite(),
        entries_map(s).len() == s.len(),
    decreases s.len(),
{
    if s.len() > 0 {
        let t = s.drop_last();
        lemma_map_len(t);
        lemma_absent(t, s.last().0@);
    }
}

/// Replacing the last entry of a key by an entry with the same key writes
/// that key in the map.
proof fn lemma_replace_last(s: Seq<(String, String)>, j: int, e: (String, String))
    requires
        0 <= j < s.len(),
        forall|k: int| j < k < s.len() ==> s[k].0@ != s[j].0@,
        e.0@ == s[j].0@,
    ensures
        entries_map(s.update(j, e)) == entries_map(s).insert(e.0@, e.1@),
    decreases s.len(),
{
    let t = s.update(j, e);
    if j == s.len() - 1 {
        assert(t.drop_last() =~= s.drop_last());
        assert(entries_map(t) =~= entries_map(s).insert(e.0@, e.1@));
    } else {
        assert(t.drop_last() =~= s.drop_last().update(j, e));
        lemma_replace_last(s.drop_last(), j, e);
        assert(entries_map(t) =~= entries_map(s).insert(e.0@, e.1@));
    }
}

impl Clone for Metadata {
    /// A copy with the same keys and values.
    fn clone(&self) -> (r: Self)
        ensures
            r@ == self@,
    {
        proof {
            use_type_invariant(self);
        }
        let mut out: Vec<(String, String)> = Vec::new();
        let mut i: usize = 0;
        while i < self.entries.len()
            invariant
                i <= self.entries@.len(),
                out@.len() == i,
                keys_distinct(self.entries@),
                forall|k: int|
                    0 <= k < i ==> out@[k].0@ == self.entries@[k].0@ && out@[k].1@
                        == self.entries@[k].1@,
            decreases self.entries@.len() - i,
        {
            let key = self.entries[i].0.clone();
            let value = self.entries[i].1.clone();
            out.push((key, value));
            i = i + 1;
        }
        proof {
            lemma_same_text(out@, self.entries@);
        }
        Metadata { entries: out }
    }
}

impl Metadata {
    /// An empty metadata map.
    pub fn new() -> (r: Self)
        ensures
            r@ == Map::<Seq<char>, Seq<char>>::empty(),
    {
        Metadata { entries: Vec::new() }
    }

    /// Index of the last entry whose key is `key`.
    fn find(&self, key: &String) -> (r: Option<usize>)
        ensures
            match r {
                Some(j) => {
                    &&& j < self.entries@.len()
                    &&& self.entries@[j as int].0@ == key@
                    &&& forall|k: int| j < k < self.entries@.len() ==> self.entries@[k].0@ != key@
                },
                None => forall|k: int| 0 <= k < self.entries@.len() ==> self.entries@[k].0@ != key@,
            },
    {
        let mut i: usize = self.entries.len();
        while i > 0
            invariant
                i <= self.entries@.len(),
                forall|k: int| i <= k < self.entries@.len() ==> self.entries@[k].0@ != key@,
            decreases i,
        {
            i = i - 1;
            if self.entries[i].0 == *key {
                return Some(i);
            }
        }
        None
    }

    /// Sets `key` to `value`, replacing any earlier value of `key`.
    pub fn insert(&mut self, key: String, value: String)
        ensures
            final(self)@ == old(self)@.insert(key@, value@),
    {
        proof {
            use_type_invariant(&*self);
        }
        let found = self.find(&key);
        let mut entries: Vec<(String, String)> = Vec::new();
        std::mem::swap(&mut entries, &mut self.entries);
        let ghost before = entries@;
        match found {
            Some(j) => {
                proof {
                    lemma_replace_last(before, j as int, (key, value));
                }
                entries.set(j, (key, value));
                assert(keys_distinct(entries@));
            },
            None => {
                proof {
                    assert(before.push((key, value)).drop_last() =~= before);
                }
                entries.push((key, value));
                assert(keys_distinct(entries@));
            },
        }
        self.entries = entries;
    }

    /// Number of keys.
    pub fn len(&self) -> (r: usize)
        ensures
            r == self@.len(),
    {
        proof {
            use_type_invariant(self);
            lemma_map_len(self.entries@);
        }
        self.entries.len()
    }

    /// Whether no key is set.
    pub fn is_empty(&self) -> (r: bool)
        ensures
            r == (self@.len() == 0),
    {
        proof {
            use_type_invariant(self);
            lemma_map_len(self.entries@);
        }
        self.entries.len() == 0
    }

    /// Whether `key` is set.
    pub fn contains_key(&self, key: &str) -> (r: bool)
        ensures
            r == self@.contains_key(key@),
    {
        let k = key.to_owned();
        match self.find(&k) {
            Some(j) => {
                proof {
                    lemma_last_occurrence(self.entries@, j as int);
                }
                true
            },
            None => {
                proof {
                    lemma_absent(self.entries@, k@);
                }
                false
            },
        }
    }

    /// All entries, each key once, in the order the keys were first set.
    pub fn entries(&self) -> (r: &[(String, String)])
        ensures
            entries_map(r@) == self@,
            keys_distinct(r@),
            r@.len() == self@.len(),
    {
        proof {
            use_type_invariant(self);
            lemma_map_len(self.entries@);
        }
        self.entries.as_slice()
    }

    /// The value of `key`, if it has one.
    pub fn get(&self, key: &str) -> (r: Option<&String>)
        ensures
            match r {
                Some(v) => self@.contains_key(key@) && self@[key@] == v@,
                None => !self@.contains_key(key@),
            },
    {
        let k = key.to_owned();
        match self.find(&k) {
            Some(j) => {
                proof {
                    lemma_last_occurrence(self.entries@, j as int);
                }
                Some(&self.entries[j].1)
            },
            None => {
                proof {
                    lemma_absent(self.entries@, k@);
                }
                None
            },
        }
    }
}

} // verus!
