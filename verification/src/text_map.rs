//! An ordered map from text to text.
//!
//! It serves as the carrier that takes a span context across a process
//! boundary, and as the baggage of a span context.

use vstd::prelude::*;

verus! {

/// The entries of a map, in the order in which their keys were first set.
pub type Entries = Seq<(Seq<char>, Seq<char>)>;

/// The index of the first entry with the key `key`, or the number of entries
/// if there is none.
pub open spec fn position(entries: Entries, key: Seq<char>) -> int
    decreases entries.len(),
{
    if entries.len() == 0 {
        0
    } else if entries[0].0 == key {
        0
    } else {
        1 + position(entries.drop_first(), key)
    }
}

/// The value that `entries` gives to `key`, if any.
pub open spec fn lookup(entries: Entries, key: Seq<char>) -> Option<Seq<char>> {
    let at = position(entries, key);
    if at < entries.len() {
        Some(entries[at].1)
    } else {
        None
    }
}

/// The entries after `key` is set to `value`: a key that is already there
/// keeps its place, a new one goes to the end.
pub open spec fn put(entries: Entries, key: Seq<char>, value: Seq<char>) -> Entries {
    let at = position(entries, key);
    if at < entries.len() {
        entries.update(at, (key, value))
    } else {
        entries.push((key, value))
    }
}

/// No key occurs twice.
pub open spec fn keys_distinct(entries: Entries) -> bool {
    forall|i: int, j: int| 0 <= i < j < entries.len() ==> entries[i].0 != entries[j].0
}

/// `position` is the only index before which no entry has the key and at
/// which, if it is an index at all, an entry has it.
pub proof fn lemma_position(entries: Entries, key: Seq<char>, at: int)
    requires
        0 <= at <= entries.len(),
        forall|j: int| 0 <= j < at ==> entries[j].0 != key,
        at < entries.len() ==> entries[at].0 == key,
    ensures
        position(entries, key) == at,
    decreases entries.len(),
{
    if entries.len() > 0 && entries[0].0 != key {
        let rest = entries.drop_first();
        assert forall|j: int| 0 <= j < at - 1 implies rest[j].0 != key by {
            assert(rest[j] == entries[j + 1]);
        }
        lemma_position(rest, key, at - 1);
    }
}

/// Where `position` points.
pub proof fn lemma_position_bounds(entries: Entries, key: Seq<char>)
    ensures
        0 <= position(entries, key) <= entries.len(),
        forall|j: int| 0 <= j < position(entries, key) ==> entries[j].0 != key,
        position(entries, key) < entries.len() ==> entries[position(entries, key)].0 == key,
    decreases entries.len(),
{
    if entries.len() > 0 && entries[0].0 != key {
        let rest = entries.drop_first();
        lemma_position_bounds(rest, key);
        assert forall|j: int| 0 <= j < position(entries, key) implies entries[j].0 != key by {
            if j > 0 {
                assert(rest[j - 1] == entries[j]);
            }
        }
    }
}

/// After a key is set, `lookup` finds the new value under that key, and under
/// every other key what it found before.
pub proof fn lemma_put_lookup(entries: Entries, key: Seq<char>, value: Seq<char>, other: Seq<char>)
    ensures
        lookup(put(entries, key, value), key) == Some(value),
        other != key ==> lookup(put(entries, key, value), other) == lookup(entries, other),
{
    let at = position(entries, key);
    let after = put(entries, key, value);
    lemma_position_bounds(entries, key);
    lemma_position(after, key, at);
    if other != key {
        let there = position(entries, other);
        lemma_position_bounds(entries, other);
        if there < entries.len() {
            lemma_position(after, other, there);
        } else {
            lemma_position(after, other, after.len() as int);
        }
    }
}

/// Setting a key keeps the keys distinct.
pub proof fn lemma_put_distinct(entries: Entries, key: Seq<char>, value: Seq<char>)
    requires
        keys_distinct(entries),
    ensures
        keys_distinct(put(entries, key, value)),
{
    lemma_position_bounds(entries, key);
}

/// A map from text to text that remembers the order in which its keys were
/// first set.
#[derive(Debug)]
pub struct TextMap {
    entries: Vec<(String, String)>,
}

impl View for TextMap {
    type V = Entries;

    closed spec fn view(&self) -> Entries {
        self.entries@.map_values(|entry: (String, String)| (entry.0@, entry.1@))
    }
}

impl TextMap {
    #[verifier::type_invariant]
    spec fn well_formed(self) -> bool {
        keys_distinct(self@)
    }

    /// A map without entries.
    pub fn new() -> (r: TextMap)
        ensures
            r@ == Entries::empty(),
    {
        let r = TextMap { entries: Vec::new() };
        assert(r@ =~= Entries::empty());
        r
    }

    /// The number of entries, which is the number of keys.
    pub fn len(&self) -> (r: usize)
        ensures
            r == self@.len(),
            keys_distinct(self@),
    {
        proof {
            use_type_invariant(self);
        }
        self.entries.len()
    }

    /// The key and the value of the entry at `index`, if there are that many
    /// entries.
    pub fn entry(&self, index: usize) -> (r: Option<(&str, &str)>)
        ensures
            match r {
                Some(entry) => index < self@.len() && (entry.0@, entry.1@) == self@[index as int],
                None => index >= self@.len(),
            },
    {
        if index < self.entries.len() {
            let entry = &self.entries[index];
            Some((entry.0.as_str(), entry.1.as_str()))
        } else {
            None
        }
    }

    fn find(&self, key: &String) -> (at: usize)
        ensures
            at == position(self@, key@),
            at <= self@.len(),
    {
        let mut at: usize = 0;
        while at < self.entries.len()
            invariant
                at <= self.entries.len(),
                forall|j: int| 0 <= j < at ==> self@[j].0 != key@,
            decreases self.entries.len() - at,
        {
            if self.entries[at].0 == *key {
                proof {
                    lemma_position(self@, key@, at as int);
                }
                return at;
            }
            at += 1;
        }
        proof {
            lemma_position(self@, key@, at as int);
        }
        at
    }

    /// The value under `key`, if the map has that key.
    pub fn get(&self, key: &str) -> (r: Option<&str>)
        ensures
            match r {
                Some(value) => lookup(self@, key@) == Some(value@),
                None => lookup(self@, key@) is None,
            },
    {
        let owned = key.to_owned();
        let at = self.find(&owned);
        if at < self.entries.len() {
            Some(self.entries[at].1.as_str())
        } else {
            None
        }
    }

    /// Sets `key` to `value`.
    pub fn set(&mut self, key: &str, value: &str)
        ensures
            final(self)@ == put(old(self)@, key@, value@),
            keys_distinct(final(self)@),
    {
        proof {
            use_type_invariant(&*self);
            lemma_put_distinct(self@, key@, value@);
        }
        let owned = key.to_owned();
        let at = self.find(&owned);
        let mut entries: Vec<(String, String)> = Vec::new();
        core::mem::swap(&mut entries, &mut self.entries);
        if at < entries.len() {
            entries[at] = (owned, value.to_owned());
        } else {
            entries.push((owned, value.to_owned()));
        }
        assert(entries@.map_values(|entry: (String, String)| (entry.0@, entry.1@)) =~= put(
            old(self)@,
            key@,
            value@,
        ));
        core::mem::swap(&mut entries, &mut self.entries);
    }
}

impl Clone for TextMap {
    fn clone(&self) -> (r: Self)
        ensures
            r@ == self@,
    {
        proof {
            use_type_invariant(self);
        }
        let mut entries: Vec<(String, String)> = Vec::new();
        let mut at: usize = 0;
        while at < self.entries.len()
            invariant
                at <= self.entries.len(),
                entries@ == self.entries@.subrange(0, at as int),
            decreases self.entries.len() - at,
        {
            let entry = &self.entries[at];
            entries.push((entry.0.clone(), entry.1.clone()));
            assert(entries@ =~= self.entries@.subrange(0, at as int + 1));
            at += 1;
        }
        assert(entries@ =~= self.entries@);
        TextMap { entries }
    }
}

} // verus!
