//! A small map with text keys, kept as a list of pairs.

use vstd::prelude::*;

verus! {

/// A map from texts to values. Each key occurs once.
#[derive(Debug)]
pub struct StringMap<V> {
    entries: Vec<(String, V)>,
}

/// The position of the first pair with this key, or the number of pairs.
spec fn position<V>(entries: Seq<(String, V)>, key: Seq<char>) -> int
    decreases entries.len(),
{
    if entries.len() == 0 || entries[0].0@ == key {
        0
    } else {
        1 + position(entries.drop_first(), key)
    }
}

proof fn lemma_position<V>(entries: Seq<(String, V)>, key: Seq<char>)
    ensures
        0 <= position(entries, key) <= entries.len(),
        position(entries, key) < entries.len() ==> entries[position(entries, key)].0@ == key,
        forall|i: int| 0 <= i < position(entries, key) ==> (#[trigger] entries[i]).0@ != key,
    decreases entries.len(),
{
    if entries.len() > 0 && entries[0].0@ != key {
        let rest = entries.drop_first();
        lemma_position(rest, key);
        assert forall|i: int| 0 <= i < position(entries, key) implies (
        #[trigger] entries[i]).0@ != key by {
            if i > 0 {
                assert(rest[i - 1] == entries[i]);
            }
        }
    }
}

impl<V> View for StringMap<V> {
    type V = Map<Seq<char>, V>;

    closed spec fn view(&self) -> Map<Seq<char>, V> {
        let entries = self.entries@;
        Map::new(
            |key: Seq<char>| position(entries, key) < entries.len(),
            |key: Seq<char>| entries[position(entries, key)].1,
        )
    }
}

impl<V> StringMap<V> {
    #[verifier::type_invariant]
    spec fn keys_distinct(self) -> bool {
        forall|i: int, j: int|
            0 <= i < j < self.entries@.len() ==> self.entries@[i].0@ != self.entries@[j].0@
    }

    /// The pairs of the map are the pairs of this list.
    pub open spec fn lists(self, pairs: Seq<(String, V)>) -> bool {
        &&& forall|i: int, j: int| 0 <= i < j < pairs.len() ==> pairs[i].0@ != pairs[j].0@
        &&& forall|i: int|
            0 <= i < pairs.len() ==> self@.contains_pair((#[trigger] pairs[i]).0@, pairs[i].1)
        &&& forall|key: Seq<char>|
            #[trigger] self@.contains_key(key) ==> exists|i: int|
                0 <= i < pairs.len() && (#[trigger] pairs[i]).0@ == key
    }

    proof fn lemma_lists_entries(self)
        requires
            self.keys_distinct(),
        ensures
            self.lists(self.entries@),
    {
        let pairs = self.entries@;
        assert forall|i: int| 0 <= i < pairs.len() implies self@.contains_pair(
            (#[trigger] pairs[i]).0@,
            pairs[i].1,
        ) by {
            lemma_position(pairs, pairs[i].0@);
        }
        assert forall|key: Seq<char>| #[trigger] self@.contains_key(key) implies exists|i: int|
            0 <= i < pairs.len() && (#[trigger] pairs[i]).0@ == key by {
            lemma_position(pairs, key);
            assert(pairs[position(pairs, key)].0@ == key);
        }
    }

    /// The empty map.
    pub fn new() -> (r: Self)
        ensures
            r@ == Map::<Seq<char>, V>::empty(),
    {
        let r = StringMap { entries: Vec::new() };
        assert(r@ =~= Map::<Seq<char>, V>::empty());
        r
    }

    /// The value behind a key.
    pub fn get(&self, key: &str) -> (r: Option<&V>)
        ensures
            match r {
                Some(value) => self@.contains_pair(key@, *value),
                None => !self@.contains_key(key@),
            },
    {
        proof {
            use_type_invariant(self);
            lemma_position(self.entries@, key@);
        }
        let wanted: String = key.to_owned();
        let mut i: usize = 0;
        while i < self.entries.len()
            invariant
                wanted@ == key@,
                i <= self.entries.len(),
                i <= position(self.entries@, key@) <= self.entries@.len(),
                position(self.entries@, key@) < self.entries@.len() ==> self.entries@[position(
                    self.entries@,
                    key@,
                )].0@ == key@,
                forall|j: int|
                    0 <= j < position(self.entries@, key@) ==> (
                    #[trigger] self.entries@[j]).0@ != key@,
            decreases self.entries.len() - i,
        {
            let pair = &self.entries[i];
            if pair.0 == wanted {
                return Some(&pair.1);
            }
            i = i + 1;
        }
        None
    }

    /// Puts a value behind a key, in place of what was there.
    pub fn insert(&mut self, key: String, value: V)
        ensures
            final(self)@ == old(self)@.insert(key@, value),
    {
        proof {
            use_type_invariant(&*self);
        }
        let mut entries: Vec<(String, V)> = Vec::new();
        std::mem::swap(&mut entries, &mut self.entries);
        let ghost before = entries@;
        let mut i: usize = 0;
        proof {
            lemma_position(before, key@);
        }
        while i < entries.len() && entries[i].0 != key
            invariant
                i <= entries.len(),
                entries@ == before,
                i <= position(before, key@) <= before.len(),
                position(before, key@) < before.len() ==> before[position(before, key@)].0@
                    == key@,
                forall|j: int|
                    0 <= j < position(before, key@) ==> (#[trigger] before[j]).0@ != key@,
            decreases entries.len() - i,
        {
            i = i + 1;
        }
        let ghost at = i as int;
        if i < entries.len() {
            entries.set(i, (key, value));
        } else {
            entries.push((key, value));
        }
        let ghost after = entries@;
        proof {
            assert(at == position(before, key@));
            assert(after[at] == (key, value));
            assert forall|i: int, j: int| 0 <= i < j < after.len() implies after[i].0@
                != after[j].0@ by {
                if i != at {
                    assert(after[i] == before[i]);
                }
                if j != at {
                    assert(after[j] == before[j]);
                }
            }
            assert forall|k: Seq<char>| #[trigger]
                position(after, k) == (if k == key@ {
                    at
                } else if position(before, k) < before.len() {
                    position(before, k)
                } else {
                    after.len() as int
                }) by {
                lemma_position(before, k);
                lemma_position(after, k);
                let b = position(before, k);
                let a = position(after, k);
                if k == key@ {
                    assert(after[at].0@ == k);
                } else if b < before.len() {
                    assert(after[b] == before[b]);
                    if a < b && a != at {
                        assert(after[a] == before[a]);
                    }
                } else if a < after.len() {
                    if a != at {
                        assert(after[a] == before[a]);
                    }
                }
            }
        }
        self.entries = entries;
        proof {
            let old_view = old(self)@;
            assert(before == old(self).entries@);
            assert forall|k: Seq<char>| #[trigger]
                self@.contains_key(k) == old_view.insert(key@, value).contains_key(k) by {
                lemma_position(before, k);
            }
            assert forall|k: Seq<char>| #[trigger]
                self@.contains_key(k) implies self@[k] == old_view.insert(key@, value)[k] by {
                lemma_position(before, k);
                lemma_position(after, k);
            }
            assert(self@ =~= old_view.insert(key@, value));
        }
    }

    /// The pairs of the map.
    pub fn entries(&self) -> (r: &Vec<(String, V)>)
        ensures
            self.lists(r@),
    {
        proof {
            use_type_invariant(self);
            self.lemma_lists_entries();
        }
        &self.entries
    }
}

impl<V: Clone> Clone for StringMap<V> {
    /// The same keys, with a clone of each value.
    fn clone(&self) -> (r: Self)
        ensures
            r@.dom() == self@.dom(),
            forall|key: Seq<char>| #[trigger]
                r@.contains_key(key) ==> cloned(self@[key], r@[key]),
    {
        proof {
            use_type_invariant(self);
            self.lemma_lists_entries();
        }
        let mut r: StringMap<V> = StringMap::new();
        let mut i: usize = 0;
        let ghost pairs = self.entries@;
        while i < self.entries.len()
            invariant
                i <= self.entries.len(),
                pairs == self.entries@,
                self.lists(pairs),
                forall|key: Seq<char>| #[trigger]
                    r@.contains_key(key) ==> self@.contains_key(key) && cloned(
                        self@[key],
                        r@[key],
                    ),
                forall|j: int| 0 <= j < i ==> r@.contains_key((#[trigger] pairs[j]).0@),
            decreases self.entries.len() - i,
        {
            let pair = &self.entries[i];
            let value = pair.1.clone();
            assert(self@.contains_pair(pairs[i as int].0@, pairs[i as int].1));
            r.insert(pair.0.clone(), value);
            i = i + 1;
        }
        assert(r@.dom() =~= self@.dom());
        r
    }
}

} // verus!
