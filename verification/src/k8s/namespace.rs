//! Namespaces: the scope in which the objects of a stack are named.

use crate::yaml::{single_entry, text_value, value_doc, Doc};
use vstd::prelude::*;

verus! {

/// A namespace.
#[derive(Debug)]
pub struct Namespace {
    api_version: String,
    kind: String,
    metadata: serde_yaml::Value,
}

/// What a [`Namespace`] holds.
pub struct NamespaceView {
    pub api_version: Seq<char>,
    pub kind: Seq<char>,
    pub metadata: Doc,
}

impl NamespaceView {
    /// The API version of every namespace.
    pub open spec fn api_version() -> Seq<char> {
        "v1"@
    }

    /// The kind of every namespace.
    pub open spec fn kind() -> Seq<char> {
        "Namespace"@
    }

    /// The namespace `name`: its metadata holds the name and nothing else.
    pub open spec fn named(name: Seq<char>) -> NamespaceView {
        NamespaceView {
            api_version: Self::api_version(),
            kind: Self::kind(),
            metadata: Doc::Dict(seq![(Doc::Text("name"@), Doc::Text(name))]),
        }
    }
}

impl View for Namespace {
    type V = NamespaceView;

    closed spec fn view(&self) -> NamespaceView {
        NamespaceView {
            api_version: self.api_version@,
            kind: self.kind@,
            metadata: value_doc(self.metadata),
        }
    }
}

impl Namespace {
    #[verifier::type_invariant]
    spec fn fixed_head(&self) -> bool {
        &&& self.api_version@ == NamespaceView::api_version()
        &&& self.kind@ == NamespaceView::kind()
    }

    /// The namespace `name`.
    pub fn new(name: String) -> (namespace: Self)
        ensures
            namespace@ == NamespaceView::named(name@),
    {
        Namespace {
            api_version: "v1".to_owned(),
            kind: "Namespace".to_owned(),
            metadata: single_entry("name", text_value(name)),
        }
    }

    /// The API version, the same for every namespace.
    pub fn api_version(&self) -> (version: &String)
        ensures
            version@ == self@.api_version,
            version@ == NamespaceView::api_version(),
    {
        proof {
            use_type_invariant(self);
        }
        &self.api_version
    }

    /// The kind, the same for every namespace.
    pub fn kind(&self) -> (kind: &String)
        ensures
            kind@ == self@.kind,
            kind@ == NamespaceView::kind(),
    {
        proof {
            use_type_invariant(self);
        }
        &self.kind
    }

    /// The namespace's metadata.
    pub fn metadata(&self) -> (metadata: &serde_yaml::Value)
        ensures
            value_doc(*metadata) == self@.metadata,
    {
        &self.metadata
    }
}

} // verus!
