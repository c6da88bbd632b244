//! Typed builders for Kubernetes manifests, and recipes that turn a small
//! description of a stack into the objects that make it up.

pub mod flagship;
pub mod k8s;
pub mod model;
pub mod prelude;
pub mod recipes;
pub mod string_map;
pub mod text;
pub mod yaml;
