//! Volumes, their mounts, and the claims a stateful set makes for them.

use crate::k8s::metadata::{Metadata, MetadataView};
use crate::yaml::{
    empty_mapping, keyed, optional_doc, single_entry, text_value, value_doc, Doc,
};
use vstd::prelude::*;

verus! {

/// The place in a container where a volume is mounted.
#[derive(Debug)]
pub struct VolumeMount {
    name: String,
    mount_path: String,
}

/// What a [`VolumeMount`] holds.
pub struct VolumeMountView {
    pub name: Seq<char>,
    pub mount_path: Seq<char>,
}

impl View for VolumeMount {
    type V = VolumeMountView;

    closed spec fn view(&self) -> VolumeMountView {
        VolumeMountView { name: self.name@, mount_path: self.mount_path@ }
    }
}

impl VolumeMount {
    /// The mount of the volume `name` at `mount_path`.
    pub fn new(name: String, mount_path: String) -> (mount: Self)
        ensures
            mount@ == (VolumeMountView { name: name@, mount_path: mount_path@ }),
    {
        VolumeMount { name, mount_path }
    }

    /// The name of the mounted volume.
    pub fn name(&self) -> (name: &String)
        ensures
            name@ == self@.name,
    {
        &self.name
    }

    /// The path at which the volume is mounted.
    pub fn mount_path(&self) -> (path: &String)
        ensures
            path@ == self@.mount_path,
    {
        &self.mount_path
    }
}

/// A volume of a pod: an empty directory, or the contents of a config map.
#[derive(Debug)]
pub struct Volume {
    name: String,
    empty_dir: Option<serde_yaml::Value>,
    config_map: Option<serde_yaml::Value>,
}

/// What a [`Volume`] holds.
pub struct VolumeView {
    pub name: Seq<char>,
    pub empty_dir: Option<Doc>,
    pub config_map: Option<Doc>,
}

impl VolumeView {
    /// The volume `name` that starts as an empty directory.
    pub open spec fn empty_dir(name: Seq<char>) -> VolumeView {
        VolumeView { name, empty_dir: Some(Doc::Dict(Seq::empty())), config_map: None }
    }

    /// The volume `name` that holds the config map `config_map_name`: its
    /// source names the config map and nothing else.
    pub open spec fn config_map(name: Seq<char>, config_map_name: Seq<char>) -> VolumeView {
        VolumeView {
            name,
            empty_dir: None,
            config_map: Some(Doc::Dict(seq![keyed("name"@, Doc::Text(config_map_name))])),
        }
    }
}

impl View for Volume {
    type V = VolumeView;

    closed spec fn view(&self) -> VolumeView {
        VolumeView {
            name: self.name@,
            empty_dir: optional_doc(self.empty_dir),
            config_map: optional_doc(self.config_map),
        }
    }
}

impl Volume {
    /// The volume `name` that starts as an empty directory.
    pub fn empty_dir(name: String) -> (volume: Self)
        ensures
            volume@ == VolumeView::empty_dir(name@),
    {
        Volume { name, empty_dir: Some(empty_mapping()), config_map: None }
    }

    /// The volume `name` that holds the config map `config_map_name`.
    pub fn config_map(name: String, config_map_name: String) -> (volume: Self)
        ensures
            volume@ == VolumeView::config_map(name@, config_map_name@),
    {
        Volume {
            name,
            empty_dir: None,
            config_map: Some(single_entry("name", text_value(config_map_name))),
        }
    }

    /// The volume's name.
    pub fn name(&self) -> (name: &String)
        ensures
            name@ == self@.name,
    {
        &self.name
    }

    /// The empty-directory source, if the volume has one.
    pub fn empty_dir_source(&self) -> (source: Option<&serde_yaml::Value>)
        ensures
            match source {
                Some(value) => self@.empty_dir == Some(value_doc(*value)),
                None => self@.empty_dir is None,
            },
    {
        match &self.empty_dir {
            Some(value) => Some(value),
            None => None,
        }
    }

    /// The config-map source, if the volume has one.
    pub fn config_map_source(&self) -> (source: Option<&serde_yaml::Value>)
        ensures
            match source {
                Some(value) => self@.config_map == Some(value_doc(*value)),
                None => self@.config_map is None,
            },
    {
        match &self.config_map {
            Some(value) => Some(value),
            None => None,
        }
    }
}

/// How a claimed volume may be accessed.
#[derive(Debug, Clone, Copy)]
pub enum VolumeClaimAccessMode {
    /// Read and written by one node.
    ReadWriteOnce,
}

/// What a volume claim asks for.
#[derive(Debug)]
pub struct VolumeClaimTemplateSpec {
    access_modes: Vec<VolumeClaimAccessMode>,
    resources: serde_yaml::Value,
}

/// What a [`VolumeClaimTemplateSpec`] holds.
pub struct VolumeClaimTemplateSpecView {
    pub access_modes: Seq<VolumeClaimAccessMode>,
    pub resources: Doc,
}

impl VolumeClaimTemplateSpecView {
    /// A claim for `resources`, without access modes.
    pub open spec fn of(resources: Doc) -> VolumeClaimTemplateSpecView {
        VolumeClaimTemplateSpecView { access_modes: Seq::empty(), resources }
    }

    /// The same claim with one more access mode.
    pub open spec fn with_access_mode(
        self,
        access_mode: VolumeClaimAccessMode,
    ) -> VolumeClaimTemplateSpecView {
        VolumeClaimTemplateSpecView { access_modes: self.access_modes.push(access_mode), ..self }
    }

    /// The resources that ask for `amount` of storage.
    pub open spec fn storage_resources(amount: Seq<char>) -> Doc {
        Doc::Dict(
            seq![
                (Doc::Text("requests"@), Doc::Dict(seq![(Doc::Text("storage"@), Doc::Text(amount))])),
            ],
        )
    }
}

impl View for VolumeClaimTemplateSpec {
    type V = VolumeClaimTemplateSpecView;

    closed spec fn view(&self) -> VolumeClaimTemplateSpecView {
        VolumeClaimTemplateSpecView {
            access_modes: self.access_modes@,
            resources: value_doc(self.resources),
        }
    }
}

impl VolumeClaimTemplateSpec {
    /// Starts a claim for `resources`, without access modes.
    pub fn builder(resources: serde_yaml::Value) -> (spec: Self)
        ensures
            spec@ == VolumeClaimTemplateSpecView::of(value_doc(resources)),
    {
        VolumeClaimTemplateSpec { access_modes: Vec::new(), resources }
    }

    /// The resources that ask for `amount` of storage.
    pub fn storage_resources(amount: String) -> (resources: serde_yaml::Value)
        ensures
            value_doc(resources) == VolumeClaimTemplateSpecView::storage_resources(amount@),
    {
        single_entry("requests", single_entry("storage", text_value(amount)))
    }

    /// The access modes asked for.
    pub fn access_modes(&self) -> (modes: &Vec<VolumeClaimAccessMode>)
        ensures
            modes@ == self@.access_modes,
    {
        &self.access_modes
    }

    /// The resources asked for.
    pub fn resources(&self) -> (resources: &serde_yaml::Value)
        ensures
            value_doc(*resources) == self@.resources,
    {
        &self.resources
    }
}

/// The steps by which a volume claim is built.
pub trait VolumeClaimTemplateSpecBuilder: View<V = VolumeClaimTemplateSpecView> + Sized {
    /// Asks for one more access mode.
    fn with_access_mode(self, access_mode: VolumeClaimAccessMode) -> (next: Self)
        ensures
            next@ == self@.with_access_mode(access_mode),
    ;

    /// The claim as built so far.
    fn build(self) -> (spec: VolumeClaimTemplateSpec)
        ensures
            spec@ == self@,
    ;
}

impl VolumeClaimTemplateSpecBuilder for VolumeClaimTemplateSpec {
    fn with_access_mode(self, access_mode: VolumeClaimAccessMode) -> (next: Self) {
        let mut next = self;
        next.access_modes.push(access_mode);
        next
    }

    fn build(self) -> (spec: VolumeClaimTemplateSpec) {
        self
    }
}

/// A volume claim that a stateful set makes for each of its pods.
#[derive(Debug)]
pub struct VolumeClaimTemplate {
    metadata: Metadata,
    spec: VolumeClaimTemplateSpec,
}

/// What a [`VolumeClaimTemplate`] holds.
pub struct VolumeClaimTemplateView {
    pub metadata: MetadataView,
    pub spec: VolumeClaimTemplateSpecView,
}

impl View for VolumeClaimTemplate {
    type V = VolumeClaimTemplateView;

    closed spec fn view(&self) -> VolumeClaimTemplateView {
        VolumeClaimTemplateView { metadata: self.metadata@, spec: self.spec@ }
    }
}

impl VolumeClaimTemplate {
    /// The claim named by `metadata` that asks for `spec`.
    pub fn new(metadata: Metadata, spec: VolumeClaimTemplateSpec) -> (template: Self)
        ensures
            template@ == (VolumeClaimTemplateView { metadata: metadata@, spec: spec@ }),
    {
        VolumeClaimTemplate { metadata, spec }
    }

    /// The claim's metadata.
    pub fn metadata(&self) -> (metadata: &Metadata)
        ensures
            metadata@ == self@.metadata,
    {
        &self.metadata
    }

    /// What the claim asks for.
    pub fn spec(&self) -> (spec: &VolumeClaimTemplateSpec)
        ensures
            spec@ == self@.spec,
    {
        &self.spec
    }
}

} // verus!
