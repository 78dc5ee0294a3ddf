//! A small map from text to text, and the tag filter built from two lists.

use vstd::prelude::*;
use crate::api::text::texts;

verus! {

/// A map from text to text that remembers the order in which its keys first
/// arrived. No key occurs twice.
#[derive(Debug)]
pub struct StringMap {
    entries: Vec<(String, String)>,
}

/// No two entries share a key.
pub open spec fn distinct_keys(entries: Seq<(String, String)>) -> bool {
    forall|i: int, j: int|
        0 <= i < j < entries.len() ==> (#[trigger] entries[i]).0@ != (#[trigger] entries[j]).0@
}

/// Whether some entry has the key.
pub open spec fn has_key(entries: Seq<(String, String)>, key: Seq<char>) -> bool {
    exists|i: int| 0 <= i < entries.len() && (#[trigger] entries[i]).0@ == key
}

/// The position of an entry with the key, if there is one.
pub open spec fn key_index(entries: Seq<(String, String)>, key: Seq<char>) -> int {
    choose|i: int| 0 <= i < entries.len() && (#[trigger] entries[i]).0@ == key
}

/// The mapping that a list of entries stands for.
pub open spec fn entries_map(entries: Seq<(String, String)>) -> Map<Seq<char>, Seq<char>> {
    Map::new(
        |key: Seq<char>| has_key(entries, key),
        |key: Seq<char>| entries[key_index(entries, key)].1@,
    )
}

/// Entries with distinct keys stand for a map with as many keys.
proof fn lemma_entries_count(entries: Seq<(String, String)>)
    requires
        distinct_keys(entries),
    ensures
        entries_map(entries).dom().finite(),
        entries_map(entries).dom().len() == entries.len(),
    decreases entries.len(),
{
    if entries.len() == 0 {
        assert(entries_map(entries).dom() =~= Set::<Seq<char>>::empty());
    } else {
        let head = entries.drop_last();
        let last = entries.last().0@;
        assert(distinct_keys(head)) by {
            assert forall|i: int, j: int| 0 <= i < j < head.len() implies (#[trigger] head[i]).0@
                != (#[trigger] head[j]).0@ by {
                assert(entries[i].0@ != entries[j].0@);
            }
        }
        lemma_entries_count(head);
        assert(!entries_map(head).dom().contains(last)) by {
            if has_key(head, last) {
                let i = key_index(head, last);
                assert(entries[i].0@ != entries[entries.len() - 1].0@);
            }
        }
        assert(entries_map(entries).dom() =~= entries_map(head).dom().insert(last)) by {
            assert forall|key: Seq<char>| has_key(entries, key) == (has_key(head, key) || key
                == last) by {
                if has_key(head, key) {
                    let i = key_index(head, key);
                    assert(entries[i].0@ == key);
                }
                if has_key(entries, key) {
                    let i = key_index(entries, key);
                    if i < head.len() {
                        assert(head[i].0@ == key);
                    }
                }
                if key == last {
                    assert(entries[entries.len() - 1].0@ == key);
                }
            }
        }
    }
}

/// Putting a new value on an entry binds the entry's key to it and leaves the
/// other bindings alone.
proof fn lemma_rebind(before: Seq<(String, String)>, after: Seq<(String, String)>, at: int)
    requires
        distinct_keys(before),
        0 <= at < before.len(),
        after.len() == before.len(),
        after[at].0@ == before[at].0@,
        forall|i: int| 0 <= i < before.len() && i != at ==> after[i] == before[i],
    ensures
        distinct_keys(after),
        entries_map(after) == entries_map(before).insert(after[at].0@, after[at].1@),
{
    let key = after[at].0@;
    assert forall|i: int| 0 <= i < before.len() implies (#[trigger] after[i]).0@
        == before[i].0@ by {
        if i != at {
            assert(after[i] == before[i]);
        }
    }
    assert forall|i: int, j: int| 0 <= i < j < after.len() implies (#[trigger] after[i]).0@ != (
    #[trigger] after[j]).0@ by {
        assert(before[i].0@ != before[j].0@);
    }
    assert forall|q: Seq<char>| has_key(after, q) == has_key(before, q) by {
        if has_key(before, q) {
            assert(after[key_index(before, q)].0@ == q);
        }
        if has_key(after, q) {
            assert(before[key_index(after, q)].0@ == q);
        }
    }
    assert(has_key(before, key)) by {
        assert(before[at].0@ == key);
    }
    assert forall|q: Seq<char>| has_key(after, q) implies entries_map(after)[q] == entries_map(
        before,
    ).insert(key, after[at].1@)[q] by {
        let a = key_index(after, q);
        let b = key_index(before, q);
        if q == key {
            if a < at {
                assert(after[a].0@ != after[at].0@);
            } else if at < a {
                assert(after[at].0@ != after[a].0@);
            }
        } else {
            assert(before[a].0@ == q);
            if a < b {
                assert(before[a].0@ != before[b].0@);
            } else if b < a {
                assert(before[b].0@ != before[a].0@);
            }
        }
    }
    assert(entries_map(after) =~= entries_map(before).insert(key, after[at].1@));
}

/// Adding an entry under a key that no entry has binds that key and leaves
/// the other bindings alone.
proof fn lemma_bind(before: Seq<(String, String)>, after: Seq<(String, String)>)
    requires
        distinct_keys(before),
        after.len() == before.len() + 1,
        after.drop_last() == before,
        forall|i: int| 0 <= i < before.len() ==> (#[trigger] before[i]).0@ != after.last().0@,
    ensures
        distinct_keys(after),
        entries_map(after) == entries_map(before).insert(after.last().0@, after.last().1@),
{
    let last = before.len() as int;
    let key = after[last].0@;
    assert forall|i: int| 0 <= i < last implies (#[trigger] after[i]) == before[i] by {
        assert(after.drop_last()[i] == after[i]);
    }
    assert forall|i: int, j: int| 0 <= i < j < after.len() implies (#[trigger] after[i]).0@ != (
    #[trigger] after[j]).0@ by {
        if j < last {
            assert(before[i].0@ != before[j].0@);
        } else {
            assert(before[i].0@ != key);
        }
    }
    assert forall|q: Seq<char>| has_key(after, q) == (has_key(before, q) || q == key) by {
        if has_key(before, q) {
            assert(after[key_index(before, q)].0@ == q);
        }
        if has_key(after, q) && key_index(after, q) < last {
            assert(before[key_index(after, q)].0@ == q);
        }
        if q == key {
            assert(after[last].0@ == q);
        }
    }
    assert forall|q: Seq<char>| has_key(after, q) implies entries_map(after)[q] == entries_map(
        before,
    ).insert(key, after[last].1@)[q] by {
        let a = key_index(after, q);
        if q == key {
            if a != last {
                assert(before[a].0@ != key);
            }
        } else {
            assert(before[a].0@ == q);
            let b = key_index(before, q);
            if a < b {
                assert(before[a].0@ != before[b].0@);
            } else if b < a {
                assert(before[b].0@ != before[a].0@);
            }
        }
    }
    assert(entries_map(after) =~= entries_map(before).insert(key, after[last].1@));
}

impl View for StringMap {
    type V = Map<Seq<char>, Seq<char>>;

    closed spec fn view(&self) -> Map<Seq<char>, Seq<char>> {
        entries_map(self.entries@)
    }
}

impl StringMap {
    #[verifier::type_invariant]
    spec fn well_formed(self) -> bool {
        distinct_keys(self.entries@)
    }

    /// The empty map.
    pub fn new() -> (made: Self)
        ensures
            made@ == Map::<Seq<char>, Seq<char>>::empty(),
    {
        let made = StringMap { entries: Vec::new() };
        assert(made@ =~= Map::<Seq<char>, Seq<char>>::empty());
        made
    }

    /// Binds `key` to `value`, replacing what it was bound to.
    pub fn insert(&mut self, key: String, value: String)
        ensures
            final(self)@ == old(self)@.insert(key@, value@),
    {
        proof {
            use_type_invariant(&*self);
        }
        let mut taken = StringMap { entries: Vec::new() };
        core::mem::swap(self, &mut taken);
        let mut entries = taken.entries;
        let ghost before = entries@;
        let mut i: usize = 0;
        while i < entries.len()
            invariant
                i <= entries.len(),
                entries@ == before,
                before == old(self).entries@,
                distinct_keys(before),
                forall|j: int| 0 <= j < i ==> (#[trigger] before[j]).0@ != key@,
            decreases entries.len() - i,
        {
            if entries[i].0 == key {
                entries[i] = (key, value);
                proof {
                    lemma_rebind(before, entries@, i as int);
                }
                *self = StringMap { entries };
                return;
            }
            i = i + 1;
        }
        entries.push((key, value));
        proof {
            assert(entries@.drop_last() =~= before);
            lemma_bind(before, entries@);
        }
        *self = StringMap { entries };
    }

    /// What `key` is bound to.
    pub fn get(&self, key: &str) -> (found: Option<&String>)
        ensures
            match found {
                Some(value) => self@.contains_key(key@) && value@ == self@[key@],
                None => !self@.contains_key(key@),
            },
    {
        proof {
            use_type_invariant(self);
        }
        let mut i: usize = 0;
        while i < self.entries.len()
            invariant
                i <= self.entries.len(),
                distinct_keys(self.entries@),
                forall|j: int| 0 <= j < i ==> (#[trigger] self.entries@[j]).0@ != key@,
            decreases self.entries.len() - i,
        {
            if *self.entries[i].0.as_str() == *key {
                proof {
                    let at = key_index(self.entries@, key@);
                    assert(self.entries@[i as int].0@ == key@);
                    assert(at == i);
                }
                return Some(&self.entries[i].1);
            }
            i = i + 1;
        }
        None
    }

    /// The number of keys.
    pub fn len(&self) -> (count: usize)
        ensures
            count == self.pairs().len(),
            self@.dom().finite(),
            count == self@.len(),
    {
        proof {
            use_type_invariant(self);
            lemma_entries_count(self.entries@);
        }
        self.entries.len()
    }

    /// The bindings in the order in which their keys first arrived.
    pub closed spec fn pairs(&self) -> Seq<(Seq<char>, Seq<char>)> {
        Seq::new(self.entries@.len(), |i: int| (self.entries@[i].0@, self.entries@[i].1@))
    }

    /// The binding at a position of [`StringMap::pairs`]: one of the map's own.
    pub fn entry(&self, index: usize) -> (pair: (&String, &String))
        requires
            index < self.pairs().len(),
        ensures
            (pair.0@, pair.1@) == self.pairs()[index as int],
            self@.contains_key(pair.0@),
            self@[pair.0@] == pair.1@,
    {
        proof {
            use_type_invariant(self);
            let entries = self.entries@;
            let key = entries[index as int].0@;
            assert(has_key(entries, key));
            let at = key_index(entries, key);
            if at < index {
                assert(entries[at].0@ != entries[index as int].0@);
            } else if index < at {
                assert(entries[index as int].0@ != entries[at].0@);
            }
        }
        (&self.entries[index].0, &self.entries[index].1)
    }
}

/// The mapping that binds, for each position below `n` in turn, the name at
/// that position to the value at it. A name that comes again is bound anew.
pub open spec fn zipped(names: Seq<Seq<char>>, values: Seq<Seq<char>>, n: int) -> Map<
    Seq<char>,
    Seq<char>,
>
    decreases n,
{
    if n <= 0 {
        Map::empty()
    } else {
        zipped(names, values, n - 1).insert(names[n - 1], values[n - 1])
    }
}

/// The length of the shorter of two lists.
pub open spec fn shorter(a: int, b: int) -> int {
    if a <= b {
        a
    } else {
        b
    }
}

/// The tag filter of a list query: empty unless both lists are given, else
/// names and values paired by position as far as the shorter list reaches.
pub open spec fn tag_filter(names: Option<Seq<Seq<char>>>, values: Option<Seq<Seq<char>>>) -> Map<
    Seq<char>,
    Seq<char>,
> {
    match (names, values) {
        (Some(n), Some(v)) => zipped(n, v, shorter(n.len() as int, v.len() as int)),
        _ => Map::empty(),
    }
}

/// The views of an optional list of strings.
pub open spec fn opt_texts(items: Option<Vec<String>>) -> Option<Seq<Seq<char>>> {
    match items {
        Some(list) => Some(texts(list@)),
        None => None,
    }
}

/// What pairing by position means: the keys are the names below `n`, and a
/// name is bound to the value at its last position below `n`.
pub proof fn lemma_zipped(names: Seq<Seq<char>>, values: Seq<Seq<char>>, n: int)
    requires
        0 <= n <= names.len(),
        n <= values.len(),
    ensures
        forall|key: Seq<char>|
            zipped(names, values, n).contains_key(key) <==> exists|i: int|
                0 <= i < n && #[trigger] names[i] == key,
        forall|i: int|
            0 <= i < n && (forall|j: int| i < j < n ==> names[j] != names[i]) ==> zipped(
                names,
                values,
                n,
            )[#[trigger] names[i]] == values[i],
    decreases n,
{
    if n > 0 {
        lemma_zipped(names, values, n - 1);
        let before = zipped(names, values, n - 1);
        let after = zipped(names, values, n);
        assert forall|key: Seq<char>| after.contains_key(key) <==> exists|i: int|
            0 <= i < n && #[trigger] names[i] == key by {
            if after.contains_key(key) {
                if key == names[n - 1] {
                } else {
                    assert(before.contains_key(key));
                    let i = choose|i: int| 0 <= i < n - 1 && #[trigger] names[i] == key;
                    assert(0 <= i < n && names[i] == key);
                }
            }
            if exists|i: int| 0 <= i < n && #[trigger] names[i] == key {
                let i = choose|i: int| 0 <= i < n && #[trigger] names[i] == key;
                if i < n - 1 {
                    assert(before.contains_key(key));
                }
            }
        }
        assert forall|i: int|
            0 <= i < n && (forall|j: int| i < j < n ==> names[j] != names[i]) implies after[
        #[trigger] names[i]] == values[i] by {
            if i < n - 1 {
                assert(names[n - 1] != names[i]);
                assert(forall|j: int| i < j < n - 1 ==> names[j] != names[i]);
            }
        }
    }
}

/// Builds the tag filter of a list query from the names and values given on
/// the command line. With only one of the two lists given, the filter is
/// empty: the list that was given is dropped.
pub fn build_tags(tag_name: &Option<Vec<String>>, tag_value: &Option<Vec<String>>) -> (tags:
    StringMap)
    ensures
        tags@ == tag_filter(opt_texts(*tag_name), opt_texts(*tag_value)),
{
    let mut tags = StringMap::new();
    match (tag_name, tag_value) {
        (Some(names), Some(values)) => {
            let ghost n = texts(names@);
            let ghost v = texts(values@);
            let mut i: usize = 0;
            while i < names.len() && i < values.len()
                invariant
                    i <= names.len(),
                    i <= values.len(),
                    n == texts(names@),
                    v == texts(values@),
                    tags@ == zipped(n, v, i as int),
                decreases names.len() - i,
            {
                tags.insert(names[i].clone(), values[i].clone());
                i = i + 1;
            }
        },
        _ => {},
    }
    tags
}

} // verus!
