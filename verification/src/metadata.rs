//! Multi-valued metadata of an extracted document.
//!
//! A document's metadata maps each key to an ordered sequence of values; one
//! key may carry several values, for instance repeated author fields. The
//! order of the keys carries no meaning.

use vstd::prelude::*;

verus! {

/// One key with its values, as it is read from the engine.
pub type Entry = (String, Vec<String>);

/// The mathematical value of one entry.
pub type EntryView = (Seq<char>, Seq<Seq<char>>);

/// The mathematical value of a metadata mapping.
pub type MetadataView = Map<Seq<char>, Seq<Seq<char>>>;

/// The mathematical values of a list of entries.
pub open spec fn entry_views(entries: Seq<Entry>) -> Seq<EntryView> {
    Seq::new(entries.len(), |i: int| (entries[i].0@, entries[i].1.deep_view()))
}

/// The mapping obtained by recording the entries one after another: where a
/// key occurs more than once, its last occurrence decides.
pub open spec fn entries_to_map(entries: Seq<EntryView>) -> MetadataView
    decreases entries.len(),
{
    if entries.len() == 0 {
        Map::empty()
    } else {
        entries_to_map(entries.drop_last()).insert(entries.last().0, entries.last().1)
    }
}

/// No key occurs in two entries.
pub open spec fn distinct_keys(entries: Seq<EntryView>) -> bool {
    forall|i: int, j: int|
        0 <= i < j < entries.len() ==> (#[trigger] entries[i]).0 != (#[trigger] entries[j]).0
}

/// Some entry has the key.
pub open spec fn has_key(entries: Seq<EntryView>, key: Seq<char>) -> bool {
    exists|i: int| 0 <= i < entries.len() && (#[trigger] entries[i]).0 == key
}

/// The keys of the recorded mapping are the keys of the entries.
pub proof fn lemma_map_domain(entries: Seq<EntryView>)
    ensures
        forall|key: Seq<char>| #[trigger]
            entries_to_map(entries).contains_key(key) <==> has_key(entries, key),
        entries_to_map(entries).dom().finite(),
    decreases entries.len(),
{
    if entries.len() > 0 {
        let front = entries.drop_last();
        lemma_map_domain(front);
        assert forall|key: Seq<char>| #[trigger]
            entries_to_map(entries).contains_key(key) <==> has_key(entries, key) by {
            if has_key(entries, key) {
                let i = choose|i: int| 0 <= i < entries.len() && (#[trigger] entries[i]).0 == key;
                if i < front.len() {
                    assert(front[i].0 == key);
                }
            }
        }
    }
}

/// Where no key occurs twice, every entry is found under its key and the
/// mapping has as many keys as there are entries.
pub proof fn lemma_map_of_distinct(entries: Seq<EntryView>)
    requires
        distinct_keys(entries),
    ensures
        forall|i: int|
            0 <= i < entries.len() ==> entries_to_map(entries)[(#[trigger] entries[i]).0]
                == entries[i].1,
        entries_to_map(entries).dom().len() == entries.len(),
    decreases entries.len(),
{
    lemma_map_domain(entries);
    if entries.len() > 0 {
        let front = entries.drop_last();
        let last = entries.last();
        assert(distinct_keys(front));
        lemma_map_of_distinct(front);
        lemma_map_domain(front);
        assert(!has_key(front, last.0));
        assert forall|i: int| 0 <= i < entries.len() implies entries_to_map(entries)[(
        #[trigger] entries[i]).0] == entries[i].1 by {
            if i < front.len() {
                assert(front[i] == entries[i]);
            }
        }
    }
}

/// Putting an entry in front of a list changes the recorded mapping only
/// where the list does not already hold the entry's key.
pub proof fn lemma_map_push_front(first: EntryView, rest: Seq<EntryView>)
    ensures
        entries_to_map(seq![first] + rest) == if entries_to_map(rest).contains_key(first.0) {
            entries_to_map(rest)
        } else {
            entries_to_map(rest).insert(first.0, first.1)
        },
    decreases rest.len(),
{
    let all = seq![first] + rest;
    if rest.len() == 0 {
        assert(entries_to_map(all.drop_last()) =~= Map::empty());
    } else {
        let front = rest.drop_last();
        assert(all.drop_last() =~= seq![first] + front);
        lemma_map_push_front(first, front);
    }
}

/// A mapping from key to an ordered sequence of string values.
///
/// The mapping is always present, even if empty. Its value is a
/// `Map<Seq<char>, Seq<Seq<char>>>`.
#[derive(Debug)]
pub struct Metadata {
    entries: Vec<Entry>,
}

impl View for Metadata {
    type V = MetadataView;

    closed spec fn view(&self) -> MetadataView {
        entries_to_map(entry_views(self.entries@))
    }
}

impl Metadata {
    #[verifier::type_invariant]
    spec fn keys_are_distinct(self) -> bool {
        distinct_keys(entry_views(self.entries@))
    }

    /// Creates an empty mapping.
    pub fn new() -> (metadata: Self)
        ensures
            metadata@ == Map::<Seq<char>, Seq<Seq<char>>>::empty(),
    {
        let entries: Vec<Entry> = Vec::new();
        Metadata { entries }
    }

    /// Returns the number of keys.
    pub fn len(&self) -> (count: usize)
        ensures
            count == self@.len(),
            self@.dom().finite(),
    {
        proof {
            use_type_invariant(self);
            lemma_map_of_distinct(entry_views(self.entries@));
            lemma_map_domain(entry_views(self.entries@));
        }
        self.entries.len()
    }

    /// Says whether the mapping has no key.
    pub fn is_empty(&self) -> (empty: bool)
        ensures
            empty == (self@.len() == 0),
            empty == (self@ == Map::<Seq<char>, Seq<Seq<char>>>::empty()),
    {
        proof {
            use_type_invariant(self);
            lemma_map_of_distinct(entry_views(self.entries@));
            lemma_map_domain(entry_views(self.entries@));
        }
        self.entries.len() == 0
    }

    /// Finds the position of the entry with the given key.
    fn position(&self, key: &String) -> (found: Option<usize>)
        ensures
            match found {
                Some(at) => at < self.entries@.len() && self.entries@[at as int].0@ == key@,
                None => !has_key(entry_views(self.entries@), key@),
            },
    {
        let mut at: usize = 0;
        while at < self.entries.len()
            invariant
                at <= self.entries@.len(),
                forall|i: int| 0 <= i < at ==> self.entries@[i].0@ != key@,
            decreases self.entries@.len() - at,
        {
            if self.entries[at].0 == *key {
                return Some(at);
            }
            at += 1;
        }
        assert(!has_key(entry_views(self.entries@), key@));
        None
    }

    /// Says whether the mapping holds the key.
    pub fn contains_key(&self, key: &str) -> (present: bool)
        ensures
            present == self@.contains_key(key@),
    {
        let owned = key.to_owned();
        let found = self.position(&owned);
        proof {
            lemma_map_domain(entry_views(self.entries@));
            if let Some(at) = found {
                assert(entry_views(self.entries@)[at as int].0 == key@);
            }
        }
        found.is_some()
    }

    /// Returns the values recorded under the key, in their order.
    pub fn get(&self, key: &str) -> (found: Option<&Vec<String>>)
        ensures
            match found {
                Some(values) => self@.contains_key(key@) && values.deep_view() == self@[key@],
                None => !self@.contains_key(key@),
            },
    {
        let owned = key.to_owned();
        let found = self.position(&owned);
        proof {
            use_type_invariant(self);
            lemma_map_domain(entry_views(self.entries@));
            lemma_map_of_distinct(entry_views(self.entries@));
            if let Some(at) = found {
                assert(entry_views(self.entries@)[at as int].0 == key@);
            }
        }
        match found {
            Some(at) => Some(&self.entries[at].1),
            None => None,
        }
    }

    /// Records the values under the key, in place of any values the key had.
    pub fn insert(&mut self, key: String, values: Vec<String>)
        ensures
            final(self)@ == old(self)@.insert(key@, values.deep_view()),
    {
        proof {
            use_type_invariant(&*self);
        }
        let ghost before = entry_views(self.entries@);
        let found = self.position(&key);
        let mut entries: Vec<Entry> = Vec::new();
        core::mem::swap(&mut self.entries, &mut entries);
        match found {
            Some(at) => {
                let ghost entry = (key@, values.deep_view());
                entries.set(at, (key, values));
                proof {
                    let after = entry_views(entries@);
                    assert(after =~= before.update(at as int, entry));
                    assert(before[at as int].0 == entry.0);
                    assert(distinct_keys(after));
                    lemma_map_domain(before);
                    lemma_map_domain(after);
                    lemma_map_of_distinct(before);
                    lemma_map_of_distinct(after);
                    assert forall|k: Seq<char>| #[trigger]
                        entries_to_map(after).contains_key(k) <==> entries_to_map(before).insert(
                            entry.0,
                            entry.1,
                        ).contains_key(k) by {
                        if has_key(before, k) {
                            let i = choose|i: int|
                                0 <= i < before.len() && (#[trigger] before[i]).0 == k;
                            assert(after[i].0 == k);
                        }
                    }
                    assert forall|k: Seq<char>| #[trigger]
                        entries_to_map(after).contains_key(k) implies entries_to_map(after)[k]
                        == entries_to_map(before).insert(entry.0, entry.1)[k] by {
                        let i = choose|i: int| 0 <= i < after.len() && (#[trigger] after[i]).0 == k;
                        assert(after[i].0 == k);
                    }
                }
            },
            None => {
                let ghost entry = (key@, values.deep_view());
                entries.push((key, values));
                proof {
                    let after = entry_views(entries@);
                    assert(after =~= before.push(entry));
                    assert(after.drop_last() =~= before);
                    assert(distinct_keys(after));
                }
            },
        }
        core::mem::swap(&mut self.entries, &mut entries);
    }

    /// Builds the mapping that records the entries one after another: where
    /// a key occurs more than once, its last occurrence decides.
    pub fn from_entries(entries: Vec<Entry>) -> (metadata: Self)
        ensures
            metadata@ == entries_to_map(entry_views(entries@)),
    {
        let ghost all = entry_views(entries@);
        let mut pending = entries;
        let mut metadata = Metadata::new();
        assert(all.skip(all.len() as int) =~= Seq::<EntryView>::empty());
        while pending.len() > 0
            invariant
                pending@.len() <= all.len(),
                entry_views(pending@) =~= all.take(pending@.len() as int),
                metadata@ == entries_to_map(all.skip(pending@.len() as int)),
            decreases pending@.len(),
        {
            let ghost rest = all.skip(pending@.len() as int);
            let ghost views = entry_views(pending@);
            let popped = pending.pop();
            let (key, values) = popped.unwrap();
            proof {
                let first = (key@, values.deep_view());
                assert(first == views[views.len() - 1]);
                assert(all.skip(pending@.len() as int) =~= seq![first] + rest);
                lemma_map_push_front(first, rest);
            }
            if !metadata.contains_key(key.as_str()) {
                metadata.insert(key, values);
            }
        }
        metadata
    }

    /// Returns the entries, each key once, in no particular order.
    pub fn entries(&self) -> (entries: &Vec<Entry>)
        ensures
            distinct_keys(entry_views(entries@)),
            entries_to_map(entry_views(entries@)) == self@,
            entries@.len() == self@.len(),
    {
        proof {
            use_type_invariant(self);
            lemma_map_of_distinct(entry_views(self.entries@));
        }
        &self.entries
    }
}

/// Copies a list of strings.
fn copy_strings(strings: &Vec<String>) -> (copy: Vec<String>)
    ensures
        copy@ == strings@,
{
    let mut copy: Vec<String> = Vec::new();
    let mut at: usize = 0;
    while at < strings.len()
        invariant
            at <= strings@.len(),
            copy@ == strings@.take(at as int),
        decreases strings@.len() - at,
    {
        copy.push(strings[at].clone());
        at += 1;
    }
    copy
}

impl Clone for Metadata {
    fn clone(&self) -> (copy: Self)
        ensures
            copy@ == self@,
    {
        proof {
            use_type_invariant(self);
        }
        let mut entries: Vec<Entry> = Vec::new();
        let mut at: usize = 0;
        while at < self.entries.len()
            invariant
                at <= self.entries@.len(),
                entry_views(entries@) =~= entry_views(self.entries@).take(at as int),
            decreases self.entries@.len() - at,
        {
            let key = self.entries[at].0.clone();
            let values = copy_strings(&self.entries[at].1);
            proof {
                let ghost before = entry_views(entries@);
                let ghost entry = (key@, values.deep_view());
                assert(entry_views(entries@.push((key, values))) =~= before.push(entry));
            }
            entries.push((key, values));
            at += 1;
        }
        assert(entry_views(self.entries@).take(at as int) =~= entry_views(self.entries@));
        Metadata { entries }
    }
}

impl Default for Metadata {
    fn default() -> (metadata: Self)
        ensures
            metadata@ == Map::<Seq<char>, Seq<Seq<char>>>::empty(),
    {
        Metadata::new()
    }
}

} // verus!
