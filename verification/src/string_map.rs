//! A small map keyed by strings.
//!
//! Labels, selectors and secret data are maps from a string to a value. They
//! hold a handful of entries, and the order in which they are written
//! matters, so the map is a vector of entries in which no key occurs twice.
//! It stands for the sequence of its entries, in the order in which their
//! keys first came.

use vstd::prelude::*;

verus! {

/// Is there an entry under `key` among `pairs`?
pub open spec fn has_key<V>(pairs: Seq<(Seq<char>, V)>, key: Seq<char>) -> bool {
    exists|i: int| 0 <= i < pairs.len() && (#[trigger] pairs[i]).0 == key
}

/// The place of an entry under `key` among `pairs`.
pub open spec fn key_position<V>(pairs: Seq<(Seq<char>, V)>, key: Seq<char>) -> int {
    choose|i: int| 0 <= i < pairs.len() && (#[trigger] pairs[i]).0 == key
}

/// The value under `key` among `pairs`.
pub open spec fn value_of<V>(pairs: Seq<(Seq<char>, V)>, key: Seq<char>) -> V {
    pairs[key_position(pairs, key)].1
}

/// No two of `pairs` have the same key.
pub open spec fn distinct_keys<V>(pairs: Seq<(Seq<char>, V)>) -> bool {
    forall|i: int, j: int|
        0 <= i < j < pairs.len() ==> (#[trigger] pairs[i]).0 != (#[trigger] pairs[j]).0
}

/// `pairs` after `value` was put under `key`: in the place of the entry that
/// had the key, or behind all others.
pub open spec fn put<V>(pairs: Seq<(Seq<char>, V)>, key: Seq<char>, value: V) -> Seq<(Seq<char>, V)> {
    if has_key(pairs, key) {
        pairs.update(key_position(pairs, key), (key, value))
    } else {
        pairs.push((key, value))
    }
}

/// `pairs` with each value replaced by what `f` makes of it.
pub open spec fn with_values<V, W>(pairs: Seq<(Seq<char>, V)>, f: spec_fn(V) -> W) -> Seq<(Seq<char>, W)> {
    pairs.map_values(|pair: (Seq<char>, V)| (pair.0, f(pair.1)))
}

/// Among distinct keys, the place of a key is the one place where it
/// stands.
pub proof fn position_is_the_place<V>(pairs: Seq<(Seq<char>, V)>, at: int)
    requires
        distinct_keys(pairs),
        0 <= at < pairs.len(),
    ensures
        has_key(pairs, pairs[at].0),
        key_position(pairs, pairs[at].0) == at,
{
    let found = key_position(pairs, pairs[at].0);
    assert(pairs[found].0 == pairs[at].0);
}

/// Putting a value keeps the keys distinct.
pub proof fn put_keeps_keys_distinct<V>(pairs: Seq<(Seq<char>, V)>, key: Seq<char>, value: V)
    requires
        distinct_keys(pairs),
    ensures
        distinct_keys(put(pairs, key, value)),
{
    let after = put(pairs, key, value);
    if has_key(pairs, key) {
        let at = key_position(pairs, key);
        assert forall|i: int, j: int| 0 <= i < j < after.len() implies (#[trigger] after[i]).0 != (
        #[trigger] after[j]).0 by {
            assert(after[i].0 == pairs[i].0);
            assert(after[j].0 == pairs[j].0);
        }
    } else {
        assert forall|i: int, j: int| 0 <= i < j < after.len() implies (#[trigger] after[i]).0 != (
        #[trigger] after[j]).0 by {
            if j == pairs.len() {
                assert(pairs[i].0 != key);
            }
        }
    }
}

/// Putting a value and then replacing the values is replacing the values
/// and then putting the replaced value.
pub proof fn put_with_values<V, W>(
    pairs: Seq<(Seq<char>, V)>,
    f: spec_fn(V) -> W,
    key: Seq<char>,
    value: V,
)
    requires
        distinct_keys(pairs),
    ensures
        with_values(put(pairs, key, value), f) == put(with_values(pairs, f), key, f(value)),
{
    let replaced = with_values(pairs, f);
    if has_key(pairs, key) {
        let at = key_position(pairs, key);
        assert(replaced[at].0 == key);
        assert(distinct_keys(replaced)) by {
            assert forall|i: int, j: int| 0 <= i < j < replaced.len() implies (
            #[trigger] replaced[i]).0 != (#[trigger] replaced[j]).0 by {
                assert(replaced[i].0 == pairs[i].0);
                assert(replaced[j].0 == pairs[j].0);
            }
        }
        position_is_the_place(replaced, at);
        assert(with_values(put(pairs, key, value), f) =~= put(replaced, key, f(value)));
    } else {
        assert(!has_key(replaced, key)) by {
            if has_key(replaced, key) {
                let at = key_position(replaced, key);
                assert(pairs[at].0 == key);
            }
        }
        assert(with_values(put(pairs, key, value), f) =~= put(replaced, key, f(value)));
    }
}

/// A map from strings to `V`.
#[derive(Debug)]
pub struct StringMap<V> {
    entries: Vec<(String, V)>,
}

impl<V> View for StringMap<V> {
    type V = Seq<(Seq<char>, V)>;

    closed spec fn view(&self) -> Seq<(Seq<char>, V)> {
        self.entries@.map_values(|entry: (String, V)| (entry.0@, entry.1))
    }
}

impl<V> StringMap<V> {
    /// No key occurs twice.
    #[verifier::type_invariant]
    pub closed spec fn well_formed(&self) -> bool {
        distinct_keys(self@)
    }

    /// In a well-formed map no key occurs twice.
    pub proof fn keys_are_distinct(&self)
        requires
            self.well_formed(),
        ensures
            distinct_keys(self@),
    {
    }

    /// An empty map.
    pub fn new() -> (map: Self)
        ensures
            map@ == Seq::<(Seq<char>, V)>::empty(),
    {
        let map = StringMap { entries: Vec::new() };
        assert(map@ =~= Seq::<(Seq<char>, V)>::empty());
        map
    }

    /// The number of entries.
    pub fn len(&self) -> (n: usize)
        ensures
            n == self@.len(),
    {
        self.entries.len()
    }

    /// Whether the map has no entry.
    pub fn is_empty(&self) -> (empty: bool)
        ensures
            empty == (self@.len() == 0),
    {
        self.entries.len() == 0
    }

    /// The key of the entry at `index`.
    pub fn key_at(&self, index: usize) -> (key: &String)
        requires
            index < self@.len(),
        ensures
            key@ == self@[index as int].0,
    {
        &self.entries[index].0
    }

    /// The value of the entry at `index`.
    pub fn value_at(&self, index: usize) -> (value: &V)
        requires
            index < self@.len(),
        ensures
            *value == self@[index as int].1,
    {
        &self.entries[index].1
    }

    /// The place of the entry under `key`, if there is one.
    fn find(&self, key: &str) -> (found: Option<usize>)
        ensures
            match found {
                Some(at) => at < self@.len() && self@[at as int].0 == key@ && has_key(self@, key@)
                    && key_position(self@, key@) == at,
                None => !has_key(self@, key@),
            },
    {
        let wanted = key.to_owned();
        let mut at: usize = 0;
        while at < self.entries.len()
            invariant
                wanted@ == key@,
                at <= self@.len(),
                self@.len() == self.entries@.len(),
                forall|i: int| 0 <= i < at ==> (#[trigger] self@[i]).0 != key@,
            decreases self.entries@.len() - at,
        {
            if self.entries[at].0 == wanted {
                proof {
                    use_type_invariant(self);
                    assert(self@[at as int].0 == key@);
                    position_is_the_place(self@, at as int);
                }
                return Some(at);
            }
            at += 1;
        }
        None
    }

    /// The value under `key`, if there is one.
    pub fn get(&self, key: &str) -> (value: Option<&V>)
        ensures
            match value {
                Some(v) => has_key(self@, key@) && *v == value_of(self@, key@),
                None => !has_key(self@, key@),
            },
    {
        match self.find(key) {
            Some(at) => Some(&self.entries[at].1),
            None => None,
        }
    }

    /// Puts `value` under `key`. An entry that had the key keeps its place
    /// and takes the new value; a new key goes behind all others.
    pub fn insert(&mut self, key: String, value: V)
        ensures
            final(self)@ == put(old(self)@, key@, value),
    {
        proof {
            use_type_invariant(&*self);
            put_keeps_keys_distinct(self@, key@, value);
        }
        let found = self.find(key.as_str());
        let mut entries: Vec<(String, V)> = Vec::new();
        std::mem::swap(&mut self.entries, &mut entries);
        match found {
            Some(at) => {
                entries.set(at, (key, value));
            },
            None => {
                entries.push((key, value));
            },
        }
        assert(entries@.map_values(|entry: (String, V)| (entry.0@, entry.1)) =~= put(
            old(self)@,
            key@,
            value,
        ));
        self.entries = entries;
    }
}

} // verus!
