//! Deployments: replicated pods made from one template.

use crate::k8s::container::{Container, ContainerView};
use crate::k8s::labels::{LabelPairs, Labels};
use crate::k8s::metadata::{Metadata, MetadataView};
use crate::k8s::selector::{Selector, SelectorView};
use crate::k8s::volume::{Volume, VolumeView};
use crate::model::{views, views_push};
use crate::string_map::put;
use vstd::prelude::*;

verus! {

/// The metadata of the pods of a deployment.
#[derive(Debug)]
pub struct DeploymentTemplateMetadata {
    namespace: String,
    labels: Labels,
}

/// What a [`DeploymentTemplateMetadata`] holds.
pub struct DeploymentTemplateMetadataView {
    pub namespace: Seq<char>,
    pub labels: LabelPairs,
}

impl DeploymentTemplateMetadataView {
    /// Pod metadata in `namespace`, without labels.
    pub open spec fn of(namespace: Seq<char>) -> DeploymentTemplateMetadataView {
        DeploymentTemplateMetadataView { namespace, labels: Seq::empty() }
    }

    /// The same metadata with the label `key` set to `value`.
    pub open spec fn with_label(self, key: Seq<char>, value: Seq<char>) -> DeploymentTemplateMetadataView {
        DeploymentTemplateMetadataView { labels: put(self.labels, key, value), ..self }
    }
}

impl View for DeploymentTemplateMetadata {
    type V = DeploymentTemplateMetadataView;

    closed spec fn view(&self) -> DeploymentTemplateMetadataView {
        DeploymentTemplateMetadataView { namespace: self.namespace@, labels: self.labels@ }
    }
}

impl DeploymentTemplateMetadata {
    /// Starts pod metadata in `namespace`, without labels.
    pub fn builder(namespace: &str) -> (metadata: Self)
        ensures
            metadata@ == DeploymentTemplateMetadataView::of(namespace@),
    {
        DeploymentTemplateMetadata { namespace: namespace.to_owned(), labels: Labels::new() }
    }

    /// The namespace of the pods.
    pub fn namespace(&self) -> (namespace: &String)
        ensures
            namespace@ == self@.namespace,
    {
        &self.namespace
    }

    /// The labels of the pods.
    pub fn labels(&self) -> (labels: &Labels)
        ensures
            labels@ == self@.labels,
    {
        &self.labels
    }
}

/// The steps by which pod metadata is built.
pub trait DeploymentTemplateMetadataBuilder: View<V = DeploymentTemplateMetadataView> + Sized {
    /// Sets the label `key` to `value`.
    fn with_label(self, key: &str, value: &str) -> (next: Self)
        ensures
            next@ == self@.with_label(key@, value@),
    ;

    /// The metadata as built so far.
    fn build(self) -> (metadata: DeploymentTemplateMetadata)
        ensures
            metadata@ == self@,
    ;
}

impl DeploymentTemplateMetadataBuilder for DeploymentTemplateMetadata {
    fn with_label(self, key: &str, value: &str) -> (next: Self) {
        let mut next = self;
        next.labels.insert(key, value);
        next
    }

    fn build(self) -> (metadata: DeploymentTemplateMetadata) {
        self
    }
}

/// What the pods of a deployment run.
#[derive(Debug)]
pub struct DeploymentTemplateSpec {
    containers: Vec<Container>,
    volumes: Vec<Volume>,
}

/// What a [`DeploymentTemplateSpec`] holds.
pub struct DeploymentTemplateSpecView {
    pub containers: Seq<ContainerView>,
    pub volumes: Seq<VolumeView>,
}

impl DeploymentTemplateSpecView {
    /// A pod without containers and volumes.
    pub open spec fn empty() -> DeploymentTemplateSpecView {
        DeploymentTemplateSpecView { containers: Seq::empty(), volumes: Seq::empty() }
    }

    /// The same pod with one more container.
    pub open spec fn with_container(self, container: ContainerView) -> DeploymentTemplateSpecView {
        DeploymentTemplateSpecView { containers: self.containers.push(container), ..self }
    }

    /// The same pod with one more volume.
    pub open spec fn with_volume(self, volume: VolumeView) -> DeploymentTemplateSpecView {
        DeploymentTemplateSpecView { volumes: self.volumes.push(volume), ..self }
    }
}

impl View for DeploymentTemplateSpec {
    type V = DeploymentTemplateSpecView;

    closed spec fn view(&self) -> DeploymentTemplateSpecView {
        DeploymentTemplateSpecView {
            containers: views(self.containers@),
            volumes: views(self.volumes@),
        }
    }
}

impl DeploymentTemplateSpec {
    /// Starts a pod without containers and volumes.
    pub fn builder() -> (spec: Self)
        ensures
            spec@ == DeploymentTemplateSpecView::empty(),
    {
        let spec = DeploymentTemplateSpec { containers: Vec::new(), volumes: Vec::new() };
        assert(spec@.containers =~= Seq::empty());
        assert(spec@.volumes =~= Seq::empty());
        spec
    }

    /// The containers of the pod.
    pub fn containers(&self) -> (containers: &Vec<Container>)
        ensures
            views(containers@) == self@.containers,
    {
        &self.containers
    }

    /// The volumes of the pod.
    pub fn volumes(&self) -> (volumes: &Vec<Volume>)
        ensures
            views(volumes@) == self@.volumes,
    {
        &self.volumes
    }
}

/// The steps by which the pods of a deployment are described.
pub trait DeploymentTemplateSpecBuilder: View<V = DeploymentTemplateSpecView> + Sized {
    /// Adds a container.
    fn with_container(self, container: Container) -> (next: Self)
        ensures
            next@ == self@.with_container(container@),
    ;

    /// Adds a volume.
    fn with_volume(self, volume: Volume) -> (next: Self)
        ensures
            next@ == self@.with_volume(volume@),
    ;

    /// The pod as described so far.
    fn build(self) -> (spec: DeploymentTemplateSpec)
        ensures
            spec@ == self@,
    ;
}

impl DeploymentTemplateSpecBuilder for DeploymentTemplateSpec {
    fn with_container(self, container: Container) -> (next: Self) {
        proof {
            views_push(self.containers@, container);
        }
        let mut next = self;
        next.containers.push(container);
        next
    }

    fn with_volume(self, volume: Volume) -> (next: Self) {
        proof {
            views_push(self.volumes@, volume);
        }
        let mut next = self;
        next.volumes.push(volume);
        next
    }

    fn build(self) -> (spec: DeploymentTemplateSpec) {
        self
    }
}

/// The template from which the pods of a deployment are made.
#[derive(Debug)]
pub struct DeploymentTemplate {
    metadata: DeploymentTemplateMetadata,
    spec: DeploymentTemplateSpec,
}

/// What a [`DeploymentTemplate`] holds.
pub struct DeploymentTemplateView {
    pub metadata: DeploymentTemplateMetadataView,
    pub spec: DeploymentTemplateSpecView,
}

impl View for DeploymentTemplate {
    type V = DeploymentTemplateView;

    closed spec fn view(&self) -> DeploymentTemplateView {
        DeploymentTemplateView { metadata: self.metadata@, spec: self.spec@ }
    }
}

impl DeploymentTemplate {
    /// The template of pods that carry `metadata` and run `spec`.
    pub fn new(metadata: DeploymentTemplateMetadata, spec: DeploymentTemplateSpec) -> (template: Self)
        ensures
            template@ == (DeploymentTemplateView { metadata: metadata@, spec: spec@ }),
    {
        DeploymentTemplate { metadata, spec }
    }

    /// The metadata of the pods.
    pub fn metadata(&self) -> (metadata: &DeploymentTemplateMetadata)
        ensures
            metadata@ == self@.metadata,
    {
        &self.metadata
    }

    /// What the pods run.
    pub fn spec(&self) -> (spec: &DeploymentTemplateSpec)
        ensures
            spec@ == self@.spec,
    {
        &self.spec
    }
}

/// How many pods a deployment keeps, which pods are its own, and what they
/// are made from.
#[derive(Debug)]
pub struct DeploymentSpec {
    replicas: u16,
    selector: Selector,
    template: DeploymentTemplate,
}

/// What a [`DeploymentSpec`] holds.
pub struct DeploymentSpecView {
    pub replicas: u16,
    pub selector: SelectorView,
    pub template: DeploymentTemplateView,
}

impl View for DeploymentSpec {
    type V = DeploymentSpecView;

    closed spec fn view(&self) -> DeploymentSpecView {
        DeploymentSpecView {
            replicas: self.replicas,
            selector: self.selector@,
            template: self.template@,
        }
    }
}

impl DeploymentSpec {
    /// `replicas` pods made from `template` and found by `selector`.
    pub fn new(replicas: u16, selector: Selector, template: DeploymentTemplate) -> (spec: Self)
        ensures
            spec@ == (DeploymentSpecView { replicas, selector: selector@, template: template@ }),
    {
        DeploymentSpec { replicas, selector, template }
    }

    /// The number of pods.
    pub fn replicas(&self) -> (replicas: u16)
        ensures
            replicas == self@.replicas,
    {
        self.replicas
    }

    /// The selector that finds the deployment's pods.
    pub fn selector(&self) -> (selector: &Selector)
        ensures
            selector@ == self@.selector,
    {
        &self.selector
    }

    /// The template the pods are made from.
    pub fn template(&self) -> (template: &DeploymentTemplate)
        ensures
            template@ == self@.template,
    {
        &self.template
    }
}

/// A deployment.
#[derive(Debug)]
pub struct Deployment {
    api_version: String,
    kind: String,
    metadata: Metadata,
    spec: DeploymentSpec,
}

/// What a [`Deployment`] holds.
pub struct DeploymentView {
    pub api_version: Seq<char>,
    pub kind: Seq<char>,
    pub metadata: MetadataView,
    pub spec: DeploymentSpecView,
}

impl DeploymentView {
    /// The API version of every deployment.
    pub open spec fn api_version() -> Seq<char> {
        "apps/v1"@
    }

    /// The kind of every deployment.
    pub open spec fn kind() -> Seq<char> {
        "Deployment"@
    }

    /// The deployment described by `metadata` and `spec`.
    pub open spec fn of(metadata: MetadataView, spec: DeploymentSpecView) -> DeploymentView {
        DeploymentView { api_version: Self::api_version(), kind: Self::kind(), metadata, spec }
    }
}

impl View for Deployment {
    type V = DeploymentView;

    closed spec fn view(&self) -> DeploymentView {
        DeploymentView {
            api_version: self.api_version@,
            kind: self.kind@,
            metadata: self.metadata@,
            spec: self.spec@,
        }
    }
}

impl Deployment {
    #[verifier::type_invariant]
    spec fn fixed_head(&self) -> bool {
        &&& self.api_version@ == DeploymentView::api_version()
        &&& self.kind@ == DeploymentView::kind()
    }

    /// The deployment described by `metadata` and `spec`.
    pub fn new(metadata: Metadata, spec: DeploymentSpec) -> (deployment: Self)
        ensures
            deployment@ == DeploymentView::of(metadata@, spec@),
    {
        Deployment {
            api_version: "apps/v1".to_owned(),
            kind: "Deployment".to_owned(),
            metadata,
            spec,
        }
    }

    /// The API version, the same for every deployment.
    pub fn api_version(&self) -> (version: &String)
        ensures
            version@ == self@.api_version,
            version@ == DeploymentView::api_version(),
    {
        proof {
            use_type_invariant(self);
        }
        &self.api_version
    }

    /// The kind, the same for every deployment.
    pub fn kind(&self) -> (kind: &String)
        ensures
            kind@ == self@.kind,
            kind@ == DeploymentView::kind(),
    {
        proof {
            use_type_invariant(self);
        }
        &self.kind
    }

    /// The deployment's metadata.
    pub fn metadata(&self) -> (metadata: &Metadata)
        ensures
            metadata@ == self@.metadata,
    {
        &self.metadata
    }

    /// The deployment's specification.
    pub fn spec(&self) -> (spec: &DeploymentSpec)
        ensures
            spec@ == self@.spec,
    {
        &self.spec
    }
}

} // verus!
