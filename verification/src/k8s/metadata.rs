//! Object metadata: a name, a namespace and labels.

use crate::k8s::labels::{LabelPairs, Labels};
use crate::string_map::put;
use vstd::prelude::*;

verus! {

/// The metadata of an object.
#[derive(Debug)]
pub struct Metadata {
    name: String,
    namespace: String,
    labels: Labels,
}

/// What a [`Metadata`] holds.
pub struct MetadataView {
    pub name: Seq<char>,
    pub namespace: Seq<char>,
    pub labels: LabelPairs,
}

impl MetadataView {
    /// The metadata of `name` in `namespace`, without labels.
    pub open spec fn named(name: Seq<char>, namespace: Seq<char>) -> MetadataView {
        MetadataView { name, namespace, labels: Seq::empty() }
    }

    /// The same metadata with the label `key` set to `value`: a label that
    /// was set keeps its place, a new one goes behind the others.
    pub open spec fn with_label(self, key: Seq<char>, value: Seq<char>) -> MetadataView {
        MetadataView { labels: put(self.labels, key, value), ..self }
    }
}

impl View for Metadata {
    type V = MetadataView;

    closed spec fn view(&self) -> MetadataView {
        MetadataView { name: self.name@, namespace: self.namespace@, labels: self.labels@ }
    }
}

impl Metadata {
    /// Starts the metadata of `name` in `namespace`, without labels.
    pub fn builder(name: &str, namespace: &str) -> (metadata: Metadata)
        ensures
            metadata@ == MetadataView::named(name@, namespace@),
    {
        Metadata { name: name.to_owned(), namespace: namespace.to_owned(), labels: Labels::new() }
    }

    /// The object's name.
    pub fn name(&self) -> (name: &String)
        ensures
            name@ == self@.name,
    {
        &self.name
    }

    /// The namespace the object lives in.
    pub fn namespace(&self) -> (namespace: &String)
        ensures
            namespace@ == self@.namespace,
    {
        &self.namespace
    }

    /// The object's labels.
    pub fn labels(&self) -> (labels: &Labels)
        ensures
            labels@ == self@.labels,
    {
        &self.labels
    }
}

impl Clone for Metadata {
    fn clone(&self) -> (copy: Self)
        ensures
            copy@ == self@,
    {
        Metadata {
            name: self.name.clone(),
            namespace: self.namespace.clone(),
            labels: self.labels.clone(),
        }
    }
}

/// The steps by which metadata is built.
pub trait MetadataBuilder: View<V = MetadataView> + Sized {
    /// Sets the label `key` to `value`.
    fn with_label(self, key: &str, value: &str) -> (next: Self)
        ensures
            next@ == self@.with_label(key@, value@),
    ;

    /// The metadata as built so far.
    fn build(self) -> (metadata: Metadata)
        ensures
            metadata@ == self@,
    ;
}

impl MetadataBuilder for Metadata {
    fn with_label(self, key: &str, value: &str) -> (next: Self) {
        let mut next = self;
        next.labels.insert(key, value);
        next
    }

    fn build(self) -> (metadata: Metadata) {
        self
    }
}

} // verus!
