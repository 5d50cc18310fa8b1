//! A map keyed by text, kept in key order.

use crate::text;
use vstd::prelude::*;

verus! {

/// A map from text to values whose entries stand in ascending byte order of
/// their keys.
#[derive(Debug)]
pub struct TextMap<V> {
    entries: Vec<(String, V)>,
}

impl<V> View for TextMap<V> {
    type V = Map<Seq<char>, V>;

    closed spec fn view(&self) -> Map<Seq<char>, V> {
        Map::new(
            |key: Seq<char>| self.has(key),
            |key: Seq<char>| self.entries@[self.position(key)].1,
        )
    }
}

impl<V> TextMap<V> {
    /// Keys ascend strictly, so none occurs twice.
    #[verifier::type_invariant]
    closed spec fn ordered(self) -> bool {
        forall|i: int, j: int|
            #![trigger self.entries@[i], self.entries@[j]]
            0 <= i < j < self.entries@.len() ==> text::text_less(
                self.entries@[i].0@,
                self.entries@[j].0@,
            )
    }

    /// Whether some entry has this key.
    closed spec fn has(self, key: Seq<char>) -> bool {
        exists|i: int| 0 <= i < self.entries@.len() && #[trigger] self.entries@[i].0@ == key
    }

    /// Where the entry with this key stands.
    closed spec fn position(self, key: Seq<char>) -> int {
        choose|i: int| 0 <= i < self.entries@.len() && #[trigger] self.entries@[i].0@ == key
    }

    /// The keys in their order.
    pub closed spec fn keys(self) -> Seq<Seq<char>> {
        self.entries@.map_values(|entry: (String, V)| entry.0@)
    }

    /// In an ordered map an entry's position is the only one with its key.
    proof fn lemma_position(self, i: int)
        requires
            self.ordered(),
            0 <= i < self.entries@.len(),
        ensures
            self.has(self.entries@[i].0@),
            self.position(self.entries@[i].0@) == i,
            self@.contains_key(self.entries@[i].0@),
            self@[self.entries@[i].0@] == self.entries@[i].1,
    {
        let key = self.entries@[i].0@;
        assert(self.entries@[i].0@ == key);
        let p = self.position(key);
        text::lemma_bytes_less_irreflexive(vstd::utf8::encode_utf8(key));
        if p < i {
            assert(text::text_less(self.entries@[p].0@, self.entries@[i].0@));
        } else if i < p {
            assert(text::text_less(self.entries@[i].0@, self.entries@[p].0@));
        }
    }

    /// The map without entries.
    pub fn new() -> (map: Self)
        ensures
            map@ == Map::<Seq<char>, V>::empty(),
    {
        let map = TextMap { entries: Vec::new() };
        assert(map@ =~= Map::<Seq<char>, V>::empty());
        map
    }

    /// Where the key stands, or where it would be inserted.
    fn search(&self, key: &str) -> (at: (usize, bool))
        ensures
            at.0 <= self.entries@.len(),
            forall|j: int|
                0 <= j < at.0 ==> text::text_less(#[trigger] self.entries@[j].0@, key@),
            forall|j: int|
                at.0 < j < self.entries@.len() ==> text::text_less(
                    key@,
                    #[trigger] self.entries@[j].0@,
                ),
            at.1 ==> at.0 < self.entries@.len() && self.entries@[at.0 as int].0@ == key@,
            !at.1 && at.0 < self.entries@.len() ==> text::text_less(
                key@,
                self.entries@[at.0 as int].0@,
            ),
            at.1 == self@.contains_key(key@),
            self.ordered(),
    {
        proof {
            use_type_invariant(self);
        }
        let mut i: usize = 0;
        while i < self.entries.len() && text::str_less(self.entries[i].0.as_str(), key)
            invariant
                i <= self.entries@.len(),
                forall|j: int|
                    0 <= j < i ==> text::text_less(#[trigger] self.entries@[j].0@, key@),
            decreases self.entries@.len() - i,
        {
            i += 1;
        }
        let found = i < self.entries.len() && text::str_eq(self.entries[i].0.as_str(), key);
        proof {
            let n = self.entries@.len();
            let k = vstd::utf8::encode_utf8(key@);
            text::lemma_bytes_less_irreflexive(k);
            if i < n {
                let e = vstd::utf8::encode_utf8(self.entries@[i as int].0@);
                assert(!text::bytes_less(e, k));
                if !found && !text::bytes_less(k, e) {
                    text::lemma_bytes_less_total(k, e);
                    text::lemma_same_bytes_same_text(key@, self.entries@[i as int].0@);
                }
                assert forall|j: int| i < j < n implies text::text_less(
                    key@,
                    #[trigger] self.entries@[j].0@,
                ) by {
                    assert(text::text_less(self.entries@[i as int].0@, self.entries@[j].0@));
                    if !found {
                        text::lemma_bytes_less_transitive(
                            k,
                            e,
                            vstd::utf8::encode_utf8(self.entries@[j].0@),
                        );
                    }
                }
            }
            if found {
                self.lemma_position(i as int);
            } else if self.has(key@) {
                let p = self.position(key@);
                assert(self.entries@[p].0@ == key@);
                if p < i {
                    assert(text::text_less(self.entries@[p].0@, key@));
                }
            }
        }
        (i, found)
    }

    /// The value under a key, if there is one.
    pub fn get(&self, key: &str) -> (value: Option<&V>)
        ensures
            match value {
                Some(found) => self@.contains_key(key@) && self@[key@] == *found,
                None => !self@.contains_key(key@),
            },
    {
        let (at, found) = self.search(key);
        if found {
            proof {
                self.lemma_position(at as int);
            }
            Some(&self.entries[at].1)
        } else {
            None
        }
    }

    /// Whether there is a value under a key.
    pub fn contains_key(&self, key: &str) -> (found: bool)
        ensures
            found == self@.contains_key(key@),
    {
        let (_, found) = self.search(key);
        found
    }

    /// Remove the value under a key and return it.
    pub fn remove(&mut self, key: &str) -> (value: Option<V>)
        ensures
            final(self)@ == old(self)@.remove(key@),
            match value {
                Some(found) => old(self)@.contains_key(key@) && old(self)@[key@] == found,
                None => !old(self)@.contains_key(key@),
            },
    {
        let (at, found) = self.search(key);
        if !found {
            assert(self@ =~= self@.remove(key@));
            return None;
        }
        let ghost before = *self;
        let mut entries: Vec<(String, V)> = Vec::new();
        core::mem::swap(&mut self.entries, &mut entries);
        let (_, value) = entries.remove(at);
        proof {
            before.lemma_position(at as int);
            lemma_removed(before, TextMap { entries }, at as int, key@);
        }
        self.entries = entries;
        Some(value)
    }

    /// Put a value under a key, replacing what was there.
    pub fn insert(&mut self, key: &str, value: V)
        ensures
            final(self)@ == old(self)@.insert(key@, value),
    {
        let (at, found) = self.search(key);
        let ghost before = *self;
        let mut entries: Vec<(String, V)> = Vec::new();
        core::mem::swap(&mut self.entries, &mut entries);
        if found {
            let _ = entries.remove(at);
            proof {
                lemma_removed(before, TextMap { entries }, at as int, key@);
            }
        }
        let ghost middle = TextMap { entries };
        entries.insert(at, (key.to_owned(), value));
        proof {
            assert(middle@ =~= before@.remove(key@));
            lemma_inserted(middle, TextMap { entries }, at as int, key@, value);
            assert(before@.remove(key@).insert(key@, value) =~= before@.insert(key@, value));
        }
        self.entries = entries;
    }

    /// Number of entries. The keys ascend strictly and are exactly the map's
    /// domain.
    pub fn len(&self) -> (count: usize)
        ensures
            count == self.keys().len(),
            forall|i: int, j: int|
                0 <= i < j < self.keys().len() ==> #[trigger] text::text_less(
                    self.keys()[i],
                    self.keys()[j],
                ),
            forall|key: Seq<char>| self.keys().contains(key) <==> self@.contains_key(key),
    {
        proof {
            use_type_invariant(self);
            assert forall|key: Seq<char>| self.keys().contains(key) <==> self@.contains_key(
                key,
            ) by {
                if self.keys().contains(key) {
                    let i = choose|i: int| 0 <= i < self.keys().len() && self.keys()[i] == key;
                    self.lemma_position(i);
                }
                if self@.contains_key(key) {
                    let i = self.position(key);
                    assert(self.keys()[i] == key);
                }
            }
        }
        self.entries.len()
    }

    /// Whether there are no entries.
    pub fn is_empty(&self) -> (empty: bool)
        ensures
            empty == (self@ == Map::<Seq<char>, V>::empty()),
    {
        proof {
            use_type_invariant(self);
            if self.entries@.len() > 0 {
                self.lemma_position(0);
                assert(self@.contains_key(self.entries@[0].0@));
            } else {
                assert(self@ =~= Map::<Seq<char>, V>::empty());
            }
        }
        self.entries.len() == 0
    }

    /// The entry at a position in key order.
    pub fn entry(&self, i: usize) -> (entry: (&str, &V))
        requires
            i < self.keys().len(),
        ensures
            entry.0@ == self.keys()[i as int],
            self@.contains_key(entry.0@),
            self@[entry.0@] == *entry.1,
    {
        proof {
            use_type_invariant(self);
            self.lemma_position(i as int);
        }
        let entry = &self.entries[i];
        (entry.0.as_str(), &entry.1)
    }

    /// Remove and return the entry with the last key.
    pub fn pop_last(&mut self) -> (entry: Option<(String, V)>)
        ensures
            match entry {
                Some((key, value)) => {
                    &&& old(self)@.contains_key(key@)
                    &&& old(self)@[key@] == value
                    &&& final(self)@ == old(self)@.remove(key@)
                    &&& final(self).keys().len() + 1 == old(self).keys().len()
                },
                None => *final(self) == *old(self) && old(self)@ == Map::<Seq<char>, V>::empty(),
            },
    {
        proof {
            use_type_invariant(&*self);
        }
        let n = self.entries.len();
        if n == 0 {
            assert(self@ =~= Map::<Seq<char>, V>::empty());
            return None;
        }
        let ghost before = *self;
        let mut entries: Vec<(String, V)> = Vec::new();
        core::mem::swap(&mut self.entries, &mut entries);
        let entry = entries.remove(n - 1);
        proof {
            before.lemma_position(n - 1);
            lemma_removed(before, TextMap { entries }, n - 1, entry.0@);
        }
        self.entries = entries;
        Some(entry)
    }
}

impl<V> TextMap<V> {
    /// Drop every entry whose key is not in a set.
    pub fn retain_keys(&mut self, keep: &TextMap<()>)
        ensures
            final(self)@ == old(self)@.restrict(keep@.dom()),
    {
        let mut rest: TextMap<V> = TextMap::new();
        core::mem::swap(self, &mut rest);
        let ghost whole = rest@;
        let mut kept: TextMap<V> = TextMap::new();
        let mut more = true;
        while more
            invariant
                forall|key: Seq<char>| #[trigger]
                    rest@.contains_key(key) ==> whole.contains_key(key) && rest@[key] == whole[key],
                forall|key: Seq<char>| #[trigger]
                    kept@.contains_key(key) <==> whole.contains_key(key) && !rest@.contains_key(key)
                        && keep@.contains_key(key),
                forall|key: Seq<char>| #[trigger]
                    kept@.contains_key(key) ==> kept@[key] == whole[key],
                !more ==> rest@ == Map::<Seq<char>, V>::empty(),
            decreases
                    rest.keys().len() + if more {
                        1int
                    } else {
                        0
                    },
        {
            match rest.pop_last() {
                Some((key, value)) => {
                    if keep.contains_key(key.as_str()) {
                        kept.insert(key.as_str(), value);
                    }
                },
                None => {
                    more = false;
                },
            }
        }
        assert(kept@ =~= whole.restrict(keep@.dom()));
        *self = kept;
    }
}

/// Taking out the entry at a position takes its key out of the map.
proof fn lemma_removed<V>(before: TextMap<V>, after: TextMap<V>, at: int, key: Seq<char>)
    requires
        before.ordered(),
        0 <= at < before.entries@.len(),
        before.entries@[at].0@ == key,
        after.entries@ == before.entries@.remove(at),
    ensures
        after.ordered(),
        after@ == before@.remove(key),
{
    let b = before.entries@;
    let a = after.entries@;
    assert forall|i: int, j: int|
        #![trigger a[i], a[j]]
        0 <= i < j < a.len() implies text::text_less(a[i].0@, a[j].0@) by {
        let bi = if i < at { i } else { i + 1 };
        let bj = if j < at { j } else { j + 1 };
        assert(a[i] == b[bi] && a[j] == b[bj]);
    }
    assert forall|k: Seq<char>| after@.contains_key(k) == before@.remove(key).contains_key(k) by {
        if after.has(k) {
            let i = after.position(k);
            let bi = if i < at { i } else { i + 1 };
            assert(a[i] == b[bi]);
            before.lemma_position(bi);
            before.lemma_position(at);
        }
        if before.has(k) && k != key {
            let p = before.position(k);
            let ai = if p < at { p } else { p - 1 };
            assert(a[ai] == b[p]);
            after.lemma_position(ai);
        }
    }
    assert forall|k: Seq<char>| after@.contains_key(k) implies after@[k] == before@[k] by {
        let i = after.position(k);
        let bi = if i < at { i } else { i + 1 };
        assert(a[i] == b[bi]);
        before.lemma_position(bi);
        after.lemma_position(i);
    }
    assert(after@ =~= before@.remove(key));
}

/// Putting an entry where its key belongs adds it to the map.
proof fn lemma_inserted<V>(
    before: TextMap<V>,
    after: TextMap<V>,
    at: int,
    key: Seq<char>,
    value: V,
)
    requires
        before.ordered(),
        0 <= at <= before.entries@.len(),
        after.entries@.len() == before.entries@.len() + 1,
        after.entries@ == before.entries@.insert(at, after.entries@[at]),
        after.entries@[at].0@ == key,
        after.entries@[at].1 == value,
        forall|j: int| 0 <= j < at ==> text::text_less(#[trigger] before.entries@[j].0@, key),
        forall|j: int|
            at <= j < before.entries@.len() ==> text::text_less(
                key,
                #[trigger] before.entries@[j].0@,
            ),
    ensures
        after.ordered(),
        after@ == before@.insert(key, value),
{
    let b = before.entries@;
    let a = after.entries@;
    assert forall|i: int, j: int|
        #![trigger a[i], a[j]]
        0 <= i < j < a.len() implies text::text_less(a[i].0@, a[j].0@) by {
        if i < at {
            assert(a[i] == b[i]);
        } else if i > at {
            assert(a[i] == b[i - 1]);
        }
        if j < at {
            assert(a[j] == b[j]);
        } else if j > at {
            assert(a[j] == b[j - 1]);
        }
    }
    after.lemma_position(at);
    assert forall|k: Seq<char>| after@.contains_key(k) == before@.insert(key, value).contains_key(
        k,
    ) by {
        if after.has(k) {
            let i = after.position(k);
            if i < at {
                assert(a[i] == b[i]);
                before.lemma_position(i);
            } else if i > at {
                assert(a[i] == b[i - 1]);
                before.lemma_position(i - 1);
            }
        }
        if before.has(k) {
            let p = before.position(k);
            let ai = if p < at { p } else { p + 1 };
            assert(a[ai] == b[p]);
            after.lemma_position(ai);
        }
    }
    assert forall|k: Seq<char>| after@.contains_key(k) implies after@[k] == before@.insert(
        key,
        value,
    )[k] by {
        let i = after.position(k);
        after.lemma_position(i);
        if i < at {
            assert(a[i] == b[i]);
            before.lemma_position(i);
            text::lemma_bytes_less_irreflexive(vstd::utf8::encode_utf8(key));
        } else if i > at {
            assert(a[i] == b[i - 1]);
            before.lemma_position(i - 1);
            text::lemma_bytes_less_irreflexive(vstd::utf8::encode_utf8(key));
        }
    }
    assert(after@ =~= before@.insert(key, value));
}

} // verus!
