//! YAML values as the objects carry them.
//!
//! A manifest holds free-form parts as `serde_yaml::Value`. The verifier
//! cannot look inside such a value, so contracts speak of the tree that it
//! denotes, a [`Doc`].

use vstd::prelude::*;

verus! {

/// The tree that a YAML value denotes.
pub enum Doc {
    /// A string.
    Text(Seq<char>),
    /// A sequence of values.
    List(Seq<Doc>),
    /// A mapping, its entries in the order in which their keys first came.
    Dict(Seq<(Doc, Doc)>),
    /// Any other value: null, a boolean, a number, a tagged value.
    Other,
}

/// `serde_yaml::Value`, carried through as it is: nothing is known of a
/// value but the tree that [`value_doc`] gives for it.
#[verifier::external_type_specification]
#[verifier::external_body]
pub struct ExValue(serde_yaml::Value);

/// `serde_yaml::Mapping`, carried through as it is: nothing is known of a
/// mapping but the entries that [`mapping_entries`] gives for it.
#[verifier::external_type_specification]
#[verifier::external_body]
pub struct ExMapping(serde_yaml::Mapping);

/// The tree that `v` denotes: a string is a `Text`, a sequence is the `List`
/// of what its items denote, a mapping is the `Dict` of its entries, and
/// every other value is `Other`.
pub uninterp spec fn value_doc(v: serde_yaml::Value) -> Doc;

/// The entries of `m`, each key and value by what it denotes, in the order
/// in which the keys first came.
pub uninterp spec fn mapping_entries(m: serde_yaml::Mapping) -> Seq<(Doc, Doc)>;

/// The tree of a value that may be absent.
pub open spec fn optional_doc(value: Option<serde_yaml::Value>) -> Option<Doc> {
    match value {
        Some(v) => Some(value_doc(v)),
        None => None,
    }
}

/// The trees of `values`, in their order.
pub open spec fn docs(values: Seq<serde_yaml::Value>) -> Seq<Doc> {
    values.map_values(|v: serde_yaml::Value| value_doc(v))
}

/// The entries that `pairs` of values denote, in their order.
pub open spec fn pair_docs(pairs: Seq<(serde_yaml::Value, serde_yaml::Value)>) -> Seq<(Doc, Doc)> {
    pairs.map_values(|pair: (serde_yaml::Value, serde_yaml::Value)| (value_doc(pair.0), value_doc(pair.1)))
}

/// The entry of a mapping under the string `key`.
pub open spec fn keyed(key: Seq<char>, value: Doc) -> (Doc, Doc) {
    (Doc::Text(key), value)
}

/// What a mapping holds under the string `key`: the value of its first
/// entry with that key.
pub open spec fn field(doc: Doc, key: Seq<char>) -> Doc
    recommends
        doc is Dict,
{
    doc->Dict_0[entry_position(doc->Dict_0, Doc::Text(key))].1
}

/// The items of a sequence.
pub open spec fn items(doc: Doc) -> Seq<Doc>
    recommends
        doc is List,
{
    doc->List_0
}

/// The index of the first entry under `key`, or the number of entries where
/// there is none.
pub open spec fn entry_position(entries: Seq<(Doc, Doc)>, key: Doc) -> int
    decreases entries.len(),
{
    if entries.len() == 0 {
        0
    } else if entries[0].0 == key {
        0
    } else {
        1 + entry_position(entries.drop_first(), key)
    }
}

/// `entries` after `value` was put under `key`: in the place of the entry
/// that had the key, or behind all others.
pub open spec fn with_entry(entries: Seq<(Doc, Doc)>, key: Doc, value: Doc) -> Seq<(Doc, Doc)> {
    let at = entry_position(entries, key);
    if at < entries.len() {
        entries.update(at, (key, value))
    } else {
        entries.push((key, value))
    }
}

/// The entries of the mapping into which `pairs` were put one after the
/// other.
pub open spec fn collected(pairs: Seq<(Doc, Doc)>) -> Seq<(Doc, Doc)>
    decreases pairs.len(),
{
    if pairs.len() == 0 {
        Seq::empty()
    } else {
        with_entry(collected(pairs.drop_last()), pairs.last().0, pairs.last().1)
    }
}

/// No two of `pairs` have the same key.
pub open spec fn distinct_keys(pairs: Seq<(Doc, Doc)>) -> bool {
    forall|i: int, j: int| 0 <= i < j < pairs.len() ==> (#[trigger] pairs[i]).0 != (#[trigger] pairs[j]).0
}

/// Where no entry has the key, the position of the key is behind all
/// entries.
pub proof fn position_of_a_new_key(entries: Seq<(Doc, Doc)>, key: Doc)
    requires
        forall|i: int| 0 <= i < entries.len() ==> (#[trigger] entries[i]).0 != key,
    ensures
        entry_position(entries, key) == entries.len(),
    decreases entries.len(),
{
    if entries.len() > 0 {
        assert(entries[0].0 != key);
        assert forall|i: int| 0 <= i < entries.drop_first().len() implies (
        #[trigger] entries.drop_first()[i]).0 != key by {
            assert(entries.drop_first()[i] == entries[i + 1]);
        }
        position_of_a_new_key(entries.drop_first(), key);
    }
}

/// Where an entry has the key and none before it has, the position of the
/// key is the place of that entry.
pub proof fn position_of_a_key(entries: Seq<(Doc, Doc)>, key: Doc, at: int)
    requires
        0 <= at < entries.len(),
        entries[at].0 == key,
        forall|i: int| 0 <= i < at ==> (#[trigger] entries[i]).0 != key,
    ensures
        entry_position(entries, key) == at,
    decreases at,
{
    if at > 0 {
        assert(entries[0].0 != key);
        assert forall|i: int| 0 <= i < at - 1 implies (#[trigger] entries.drop_first()[i]).0 != key by {
            assert(entries.drop_first()[i] == entries[i + 1]);
        }
        assert(entries.drop_first()[at - 1] == entries[at]);
        position_of_a_key(entries.drop_first(), key, at - 1);
    }
}

/// Pairs with keys of their own, put into a mapping one after the other,
/// are its entries.
pub proof fn collected_distinct(pairs: Seq<(Doc, Doc)>)
    requires
        distinct_keys(pairs),
    ensures
        collected(pairs) == pairs,
    decreases pairs.len(),
{
    if pairs.len() > 0 {
        let front = pairs.drop_last();
        assert(distinct_keys(front)) by {
            assert forall|i: int, j: int| 0 <= i < j < front.len() implies (#[trigger] front[i]).0 != (
            #[trigger] front[j]).0 by {
                assert(front[i] == pairs[i]);
                assert(front[j] == pairs[j]);
            }
        }
        collected_distinct(front);
        assert forall|i: int| 0 <= i < front.len() implies (#[trigger] front[i]).0 != pairs.last().0 by {
            assert(front[i] == pairs[i]);
        }
        position_of_a_new_key(front, pairs.last().0);
        assert(front.push(pairs.last()) =~= pairs);
    }
}

/// `serde_yaml::Value::String`: the value denotes the string it was made of.
#[verifier::external_body]
pub(crate) fn text_value(text: String) -> (value: serde_yaml::Value)
    ensures
        value_doc(value) == Doc::Text(text@),
{
    serde_yaml::Value::String(text)
}

/// `serde_yaml::Value::Sequence`: the value denotes the sequence of what
/// the items denote.
#[verifier::external_body]
pub(crate) fn sequence_value(items: Vec<serde_yaml::Value>) -> (value: serde_yaml::Value)
    ensures
        value_doc(value) == Doc::List(docs(items@)),
{
    serde_yaml::Value::Sequence(items)
}

/// `serde_yaml::Value::Mapping`: the value denotes a mapping with the
/// entries of the one it was made of.
#[verifier::external_body]
pub(crate) fn mapping_value(mapping: serde_yaml::Mapping) -> (value: serde_yaml::Value)
    ensures
        value_doc(value) == Doc::Dict(mapping_entries(mapping)),
{
    serde_yaml::Value::Mapping(mapping)
}

/// `Mapping::new` gives a mapping without entries.
pub assume_specification[ serde_yaml::Mapping::new ]() -> (mapping: serde_yaml::Mapping)
    ensures
        mapping_entries(mapping) == Seq::<(Doc, Doc)>::empty(),
;

/// `Mapping::from_iter`, on pairs whose keys are strings: the pairs are put
/// into an empty mapping one after the other. A pair whose key the mapping
/// has gives its value to that entry, which keeps its place; any other
/// pair goes behind all entries.
#[verifier::external_body]
pub(crate) fn collect_mapping(pairs: Vec<(serde_yaml::Value, serde_yaml::Value)>) -> (mapping:
    serde_yaml::Mapping)
    requires
        forall|i: int| 0 <= i < pairs@.len() ==> value_doc((#[trigger] pairs@[i]).0) is Text,
    ensures
        mapping_entries(mapping) == collected(pair_docs(pairs@)),
{
    pairs.into_iter().collect()
}

/// A mapping without entries.
pub fn empty_mapping() -> (result: serde_yaml::Value)
    ensures
        value_doc(result) == Doc::Dict(Seq::empty()),
{
    mapping_value(serde_yaml::Mapping::new())
}

/// The pair of the string `key` and `value`, to be put into a mapping.
pub(crate) fn entry(key: &str, value: serde_yaml::Value) -> (pair: (serde_yaml::Value, serde_yaml::Value))
    ensures
        value_doc(pair.0) == Doc::Text(key@),
        pair.1 == value,
{
    (text_value(key.to_owned()), value)
}

/// The mapping into which `pairs`, each made by [`entry`], were put one
/// after the other.
pub(crate) fn mapping_of(pairs: Vec<(serde_yaml::Value, serde_yaml::Value)>) -> (result: serde_yaml::Value)
    requires
        forall|i: int| 0 <= i < pairs@.len() ==> value_doc((#[trigger] pairs@[i]).0) is Text,
    ensures
        value_doc(result) == Doc::Dict(collected(pair_docs(pairs@))),
{
    mapping_value(collect_mapping(pairs))
}

/// A mapping with the one entry `key: value`.
pub fn single_entry(key: &str, value: serde_yaml::Value) -> (result: serde_yaml::Value)
    ensures
        value_doc(result) == Doc::Dict(seq![keyed(key@, value_doc(value))]),
{
    let pairs = vec![entry(key, value)];
    proof {
        let wanted = seq![keyed(key@, value_doc(value))];
        assert(pair_docs(pairs@) =~= wanted);
        collected_distinct(wanted);
    }
    mapping_of(pairs)
}

} // verus!
