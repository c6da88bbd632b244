//! Labels: the key-value pairs by which objects are marked and selected.

use crate::string_map::{
    distinct_keys, has_key, key_position, put, put_with_values, value_of, with_values, StringMap,
};
use vstd::prelude::*;

verus! {

/// What a set of labels holds: its keys and values, in the order in which
/// the keys first came.
pub type LabelPairs = Seq<(Seq<char>, Seq<char>)>;

/// A set of labels. Each key occurs once; a label set again keeps its place
/// and takes the new value.
#[derive(Debug)]
pub struct Labels {
    map: StringMap<String>,
}

impl View for Labels {
    type V = LabelPairs;

    closed spec fn view(&self) -> LabelPairs {
        with_values(self.map@, |value: String| value@)
    }
}

impl Labels {
    /// No labels.
    pub fn new() -> (labels: Self)
        ensures
            labels@ == Seq::<(Seq<char>, Seq<char>)>::empty(),
    {
        let labels = Labels { map: StringMap::new() };
        assert(labels@ =~= Seq::<(Seq<char>, Seq<char>)>::empty());
        labels
    }

    /// Sets the label `key` to `value`.
    pub fn insert(&mut self, key: &str, value: &str)
        ensures
            final(self)@ == put(old(self)@, key@, value@),
    {
        let value = value.to_owned();
        proof {
            use_type_invariant(&self.map);
            self.map.keys_are_distinct();
            put_with_values(self.map@, |value: String| value@, key@, value);
        }
        self.map.insert(key.to_owned(), value);
    }

    /// The number of labels.
    pub fn len(&self) -> (n: usize)
        ensures
            n == self@.len(),
    {
        self.map.len()
    }

    /// Whether there is no label.
    pub fn is_empty(&self) -> (empty: bool)
        ensures
            empty == (self@.len() == 0),
    {
        self.map.is_empty()
    }

    /// The key of the label at `index`.
    pub fn key_at(&self, index: usize) -> (key: &String)
        requires
            index < self@.len(),
        ensures
            key@ == self@[index as int].0,
    {
        self.map.key_at(index)
    }

    /// The value of the label at `index`.
    pub fn value_at(&self, index: usize) -> (value: &String)
        requires
            index < self@.len(),
        ensures
            value@ == self@[index as int].1,
    {
        self.map.value_at(index)
    }

    /// The value of the label `key`, if it is set.
    pub fn get(&self, key: &str) -> (value: Option<&String>)
        ensures
            match value {
                Some(v) => has_key(self@, key@) && v@ == value_of(self@, key@),
                None => !has_key(self@, key@),
            },
    {
        let value = self.map.get(key);
        proof {
            use_type_invariant(&self.map);
            self.map.keys_are_distinct();
            labels_follow_the_map(self.map@, key@);
        }
        value
    }
}

/// The labels have a key where the map they are read from has it, and at the
/// same place.
proof fn labels_follow_the_map(map: Seq<(Seq<char>, String)>, key: Seq<char>)
    requires
        distinct_keys(map),
    ensures
        has_key(with_values(map, |value: String| value@), key) == has_key(map, key),
        has_key(map, key) ==> value_of(with_values(map, |value: String| value@), key) == value_of(
            map,
            key,
        )@,
{
    let labels = with_values(map, |value: String| value@);
    if has_key(map, key) {
        let at = key_position(map, key);
        assert(labels[at].0 == key);
        let found = key_position(labels, key);
        assert(map[found].0 == key);
    }
    if has_key(labels, key) {
        let found = key_position(labels, key);
        assert(map[found].0 == key);
    }
}

impl Clone for Labels {
    fn clone(&self) -> (copy: Self)
        ensures
            copy@ == self@,
    {
        let mut copy = Labels::new();
        let mut done: usize = 0;
        proof {
            use_type_invariant(&self.map);
            self.map.keys_are_distinct();
        }
        while done < self.len()
            invariant
                done <= self@.len(),
                distinct_keys(self.map@),
                copy@ == self@.take(done as int),
            decreases self@.len() - done,
        {
            let key = self.key_at(done);
            let value = self.value_at(done);
            proof {
                let taken = self@.take(done as int);
                assert(!has_key(taken, key@)) by {
                    if has_key(taken, key@) {
                        let at = key_position(taken, key@);
                        assert(self.map@[at].0 == self.map@[done as int].0);
                    }
                }
                assert(put(taken, key@, value@) =~= self@.take(done + 1));
            }
            copy.insert(key.as_str(), value.as_str());
            done += 1;
        }
        assert(self@.take(done as int) =~= self@);
        copy
    }
}

} // verus!
