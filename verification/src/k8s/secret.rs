//! Secrets: named pieces of data kept apart from the objects that use them.

use crate::k8s::metadata::{Metadata, MetadataView};
use crate::string_map::{put, put_with_values, with_values, StringMap};
use crate::yaml::{value_doc, Doc};
use vstd::prelude::*;

verus! {

/// What kind of data a secret holds.
#[derive(Debug, Clone, Copy)]
pub enum SecretType {
    /// Data of no particular form.
    Opaque,
}

/// A secret.
#[derive(Debug)]
pub struct Secret {
    api_version: String,
    kind: String,
    metadata: Metadata,
    secret_type: SecretType,
    data: StringMap<serde_yaml::Value>,
}

/// What a [`Secret`] holds.
pub struct SecretView {
    pub api_version: Seq<char>,
    pub kind: Seq<char>,
    pub metadata: MetadataView,
    pub secret_type: SecretType,
    pub data: Seq<(Seq<char>, Doc)>,
}

impl SecretView {
    /// The API version of every secret.
    pub open spec fn api_version() -> Seq<char> {
        "v1"@
    }

    /// The kind of every secret.
    pub open spec fn kind() -> Seq<char> {
        "Secret"@
    }

    /// The secret of `secret_type` named by `metadata`, without data.
    pub open spec fn of(secret_type: SecretType, metadata: MetadataView) -> SecretView {
        SecretView {
            api_version: Self::api_version(),
            kind: Self::kind(),
            metadata,
            secret_type,
            data: Seq::empty(),
        }
    }

    /// The same secret with `value` under `key`: a key that was there keeps
    /// its place, a new one goes behind the others.
    pub open spec fn with_data(self, key: Seq<char>, value: Doc) -> SecretView {
        SecretView { data: put(self.data, key, value), ..self }
    }
}

impl View for Secret {
    type V = SecretView;

    closed spec fn view(&self) -> SecretView {
        SecretView {
            api_version: self.api_version@,
            kind: self.kind@,
            metadata: self.metadata@,
            secret_type: self.secret_type,
            data: with_values(self.data@, |value: serde_yaml::Value| value_doc(value)),
        }
    }
}

impl Secret {
    #[verifier::type_invariant]
    spec fn fixed_head(&self) -> bool {
        &&& self.api_version@ == SecretView::api_version()
        &&& self.kind@ == SecretView::kind()
    }

    /// Starts the secret of `secret_type` named by `metadata`, without data.
    pub fn builder(secret_type: SecretType, metadata: Metadata) -> (secret: Secret)
        ensures
            secret@ == SecretView::of(secret_type, metadata@),
    {
        let secret = Secret {
            api_version: "v1".to_owned(),
            kind: "Secret".to_owned(),
            metadata,
            secret_type,
            data: StringMap::new(),
        };
        assert(secret@.data =~= Seq::empty());
        secret
    }

    /// The API version, the same for every secret.
    pub fn api_version(&self) -> (version: &String)
        ensures
            version@ == self@.api_version,
            version@ == SecretView::api_version(),
    {
        proof {
            use_type_invariant(self);
        }
        &self.api_version
    }

    /// The kind, the same for every secret.
    pub fn kind(&self) -> (kind: &String)
        ensures
            kind@ == self@.kind,
            kind@ == SecretView::kind(),
    {
        proof {
            use_type_invariant(self);
        }
        &self.kind
    }

    /// The secret's metadata.
    pub fn metadata(&self) -> (metadata: &Metadata)
        ensures
            metadata@ == self@.metadata,
    {
        &self.metadata
    }

    /// What kind of data the secret holds.
    pub fn secret_type(&self) -> (secret_type: SecretType)
        ensures
            secret_type == self@.secret_type,
    {
        self.secret_type
    }

    /// The secret's data.
    pub fn data(&self) -> (data: &StringMap<serde_yaml::Value>)
        ensures
            with_values(data@, |value: serde_yaml::Value| value_doc(value)) == self@.data,
    {
        &self.data
    }
}

/// The steps by which a secret is built.
pub trait SecretBuilder: View<V = SecretView> + Sized {
    /// Puts `value` under `key`.
    fn with_data(self, key: &str, value: serde_yaml::Value) -> (next: Self)
        ensures
            next@ == self@.with_data(key@, value_doc(value)),
    ;

    /// The secret as built so far.
    fn build(self) -> (secret: Secret)
        ensures
            secret@ == self@,
    ;
}

impl SecretBuilder for Secret {
    fn with_data(self, key: &str, value: serde_yaml::Value) -> (next: Self) {
        proof {
            use_type_invariant(&self);
        }
        let Secret { api_version, kind, metadata, secret_type, data } = self;
        let mut data = data;
        proof {
            use_type_invariant(&data);
            data.keys_are_distinct();
            put_with_values(data@, |value: serde_yaml::Value| value_doc(value), key@, value);
        }
        data.insert(key.to_owned(), value);
        Secret { api_version, kind, metadata, secret_type, data }
    }

    fn build(self) -> (secret: Secret) {
        self
    }
}

} // verus!
