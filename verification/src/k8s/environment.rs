//! Environment variables of a container.

use vstd::prelude::*;

verus! {

/// Where the value of an environment variable is taken from.
#[derive(Debug)]
pub enum ValueFrom {
    /// A field of the pod.
    FieldRef { field_path: String },
    /// A key of a secret.
    SecretKeyRef { key: String, name: String, optional: bool },
    /// A resource of a container.
    ResourceFieldRef { resource: String, container_name: String, divisor: String },
}

/// What a [`ValueFrom`] holds.
pub enum ValueFromView {
    FieldRef { field_path: Seq<char> },
    SecretKeyRef { key: Seq<char>, name: Seq<char>, optional: bool },
    ResourceFieldRef { resource: Seq<char>, container_name: Seq<char>, divisor: Seq<char> },
}

impl View for ValueFrom {
    type V = ValueFromView;

    open spec fn view(&self) -> ValueFromView {
        match self {
            ValueFrom::FieldRef { field_path } => ValueFromView::FieldRef {
                field_path: field_path@,
            },
            ValueFrom::SecretKeyRef { key, name, optional } => ValueFromView::SecretKeyRef {
                key: key@,
                name: name@,
                optional: *optional,
            },
            ValueFrom::ResourceFieldRef {
                resource,
                container_name,
                divisor,
            } => ValueFromView::ResourceFieldRef {
                resource: resource@,
                container_name: container_name@,
                divisor: divisor@,
            },
        }
    }
}

impl Clone for ValueFrom {
    fn clone(&self) -> (copy: Self)
        ensures
            copy@ == self@,
    {
        match self {
            ValueFrom::FieldRef { field_path } => ValueFrom::FieldRef {
                field_path: field_path.clone(),
            },
            ValueFrom::SecretKeyRef { key, name, optional } => ValueFrom::SecretKeyRef {
                key: key.clone(),
                name: name.clone(),
                optional: *optional,
            },
            ValueFrom::ResourceFieldRef {
                resource,
                container_name,
                divisor,
            } => ValueFrom::ResourceFieldRef {
                resource: resource.clone(),
                container_name: container_name.clone(),
                divisor: divisor.clone(),
            },
        }
    }
}

/// An environment variable: a name, and either a value or the place the
/// value is taken from.
#[derive(Debug)]
pub struct EnvironmentVariable {
    name: String,
    value: Option<String>,
    value_from: Option<ValueFrom>,
}

/// What an [`EnvironmentVariable`] holds.
pub struct EnvironmentVariableView {
    pub name: Seq<char>,
    pub value: Option<Seq<char>>,
    pub value_from: Option<ValueFromView>,
}

impl EnvironmentVariableView {
    /// The variable `name` with the fixed `value`.
    pub open spec fn value(name: Seq<char>, value: Seq<char>) -> EnvironmentVariableView {
        EnvironmentVariableView { name, value: Some(value), value_from: None }
    }

    /// The variable `name` whose value is taken from `value_from`.
    pub open spec fn value_from(name: Seq<char>, value_from: ValueFromView) -> EnvironmentVariableView {
        EnvironmentVariableView { name, value: None, value_from: Some(value_from) }
    }
}

impl View for EnvironmentVariable {
    type V = EnvironmentVariableView;

    closed spec fn view(&self) -> EnvironmentVariableView {
        EnvironmentVariableView {
            name: self.name@,
            value: match self.value {
                Some(value) => Some(value@),
                None => None,
            },
            value_from: match self.value_from {
                Some(value_from) => Some(value_from@),
                None => None,
            },
        }
    }
}

impl EnvironmentVariable {
    /// The variable `name` with the fixed `value`.
    pub fn value(name: &str, value: &str) -> (variable: Self)
        ensures
            variable@ == EnvironmentVariableView::value(name@, value@),
    {
        EnvironmentVariable { name: name.to_owned(), value: Some(value.to_owned()), value_from: None }
    }

    /// The variable `name` whose value is taken from `value_from`.
    pub fn value_from(name: &str, value_from: ValueFrom) -> (variable: Self)
        ensures
            variable@ == EnvironmentVariableView::value_from(name@, value_from@),
    {
        EnvironmentVariable { name: name.to_owned(), value: None, value_from: Some(value_from) }
    }

    /// The variable's name.
    pub fn name(&self) -> (name: &String)
        ensures
            name@ == self@.name,
    {
        &self.name
    }

    /// The fixed value, if the variable has one.
    pub fn fixed_value(&self) -> (value: Option<&String>)
        ensures
            match value {
                Some(text) => self@.value == Some(text@),
                None => self@.value is None,
            },
    {
        match &self.value {
            Some(text) => Some(text),
            None => None,
        }
    }

    /// The place the value is taken from, if there is one.
    pub fn source(&self) -> (source: Option<&ValueFrom>)
        ensures
            match source {
                Some(from) => self@.value_from == Some(from@),
                None => self@.value_from is None,
            },
    {
        match &self.value_from {
            Some(from) => Some(from),
            None => None,
        }
    }
}

impl Clone for EnvironmentVariable {
    fn clone(&self) -> (copy: Self)
        ensures
            copy@ == self@,
    {
        EnvironmentVariable {
            name: self.name.clone(),
            value: match &self.value {
                Some(value) => Some(value.clone()),
                None => None,
            },
            value_from: match &self.value_from {
                Some(value_from) => Some(value_from.clone()),
                None => None,
            },
        }
    }
}

impl<'a> From<(&'a str, &'a str)> for EnvironmentVariable {
    /// A pair of a name and a value is the variable of that name with that
    /// fixed value.
    fn from(pair: (&'a str, &'a str)) -> (variable: Self)
        ensures
            variable@ == EnvironmentVariableView::value(pair.0@, pair.1@),
    {
        EnvironmentVariable::value(pair.0, pair.1)
    }
}

impl<'a> vstd::std_specs::convert::FromSpecImpl<(&'a str, &'a str)> for EnvironmentVariable {
    /// The conversion is stated over views, by the contract of `from`: two
    /// variables that hold the same are not known to be the same value.
    open spec fn obeys_from_spec() -> bool {
        false
    }

    open spec fn from_spec(pair: (&'a str, &'a str)) -> Self {
        arbitrary()
    }
}

} // verus!
