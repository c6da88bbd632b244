//! Stateful sets: pods with a stable identity and storage of their own.

use crate::k8s::container::{Container, ContainerView};
use crate::k8s::metadata::{Metadata, MetadataView};
use crate::k8s::selector::{Selector, SelectorView};
use crate::k8s::volume::{VolumeClaimTemplate, VolumeClaimTemplateView};
use crate::model::{views, views_push};
use vstd::prelude::*;

verus! {

/// What the pods of a stateful set run.
#[derive(Debug)]
pub struct StatefulSetSpecTemplateSpec {
    containers: Vec<Container>,
}

/// What a [`StatefulSetSpecTemplateSpec`] holds.
pub struct StatefulSetSpecTemplateSpecView {
    pub containers: Seq<ContainerView>,
}

impl StatefulSetSpecTemplateSpecView {
    /// A pod without containers.
    pub open spec fn empty() -> StatefulSetSpecTemplateSpecView {
        StatefulSetSpecTemplateSpecView { containers: Seq::empty() }
    }

    /// The same pod with one more container.
    pub open spec fn with_container(self, container: ContainerView) -> StatefulSetSpecTemplateSpecView {
        StatefulSetSpecTemplateSpecView { containers: self.containers.push(container) }
    }
}

impl View for StatefulSetSpecTemplateSpec {
    type V = StatefulSetSpecTemplateSpecView;

    closed spec fn view(&self) -> StatefulSetSpecTemplateSpecView {
        StatefulSetSpecTemplateSpecView { containers: views(self.containers@) }
    }
}

impl StatefulSetSpecTemplateSpec {
    /// Starts a pod without containers.
    pub fn builder() -> (spec: StatefulSetSpecTemplateSpec)
        ensures
            spec@ == StatefulSetSpecTemplateSpecView::empty(),
    {
        let spec = StatefulSetSpecTemplateSpec { containers: Vec::new() };
        assert(spec@.containers =~= Seq::empty());
        spec
    }

    /// The containers of the pod.
    pub fn containers(&self) -> (containers: &Vec<Container>)
        ensures
            views(containers@) == self@.containers,
    {
        &self.containers
    }
}

/// The steps by which the pods of a stateful set are described.
pub trait StatefulSetSpecTemplateSpecBuilder: View<V = StatefulSetSpecTemplateSpecView> + Sized {
    /// Adds a container.
    fn with_container(self, container: Container) -> (next: Self)
        ensures
            next@ == self@.with_container(container@),
    ;

    /// The pod as described so far.
    fn build(self) -> (spec: StatefulSetSpecTemplateSpec)
        ensures
            spec@ == self@,
    ;
}

impl StatefulSetSpecTemplateSpecBuilder for StatefulSetSpecTemplateSpec {
    fn with_container(self, container: Container) -> (next: Self) {
        proof {
            views_push(self.containers@, container);
        }
        let mut next = self;
        next.containers.push(container);
        next
    }

    fn build(self) -> (spec: StatefulSetSpecTemplateSpec) {
        self
    }
}

/// The template from which the pods of a stateful set are made.
#[derive(Debug)]
pub struct StatefulSetSpecTemplate {
    metadata: Metadata,
    spec: StatefulSetSpecTemplateSpec,
}

/// What a [`StatefulSetSpecTemplate`] holds.
pub struct StatefulSetSpecTemplateView {
    pub metadata: MetadataView,
    pub spec: StatefulSetSpecTemplateSpecView,
}

impl View for StatefulSetSpecTemplate {
    type V = StatefulSetSpecTemplateView;

    closed spec fn view(&self) -> StatefulSetSpecTemplateView {
        StatefulSetSpecTemplateView { metadata: self.metadata@, spec: self.spec@ }
    }
}

impl StatefulSetSpecTemplate {
    /// The template of pods that carry `metadata` and run `spec`.
    pub fn new(metadata: Metadata, spec: StatefulSetSpecTemplateSpec) -> (template: Self)
        ensures
            template@ == (StatefulSetSpecTemplateView { metadata: metadata@, spec: spec@ }),
    {
        StatefulSetSpecTemplate { metadata, spec }
    }

    /// The metadata of the pods.
    pub fn metadata(&self) -> (metadata: &Metadata)
        ensures
            metadata@ == self@.metadata,
    {
        &self.metadata
    }

    /// What the pods run.
    pub fn spec(&self) -> (spec: &StatefulSetSpecTemplateSpec)
        ensures
            spec@ == self@.spec,
    {
        &self.spec
    }
}

/// The service that names the pods of a stateful set, the selector that
/// finds them, their template and the volumes each of them claims.
#[derive(Debug)]
pub struct StatefulSetSpec {
    service_name: String,
    selector: Selector,
    template: StatefulSetSpecTemplate,
    volume_claim_templates: Vec<VolumeClaimTemplate>,
}

/// What a [`StatefulSetSpec`] holds.
pub struct StatefulSetSpecView {
    pub service_name: Seq<char>,
    pub selector: SelectorView,
    pub template: StatefulSetSpecTemplateView,
    pub volume_claim_templates: Seq<VolumeClaimTemplateView>,
}

impl StatefulSetSpecView {
    /// The specification without volume claims.
    pub open spec fn of(
        service_name: Seq<char>,
        selector: SelectorView,
        template: StatefulSetSpecTemplateView,
    ) -> StatefulSetSpecView {
        StatefulSetSpecView {
            service_name,
            selector,
            template,
            volume_claim_templates: Seq::empty(),
        }
    }

    /// The same specification with one more volume claim.
    pub open spec fn with_volume_claim_template(
        self,
        volume_claim_template: VolumeClaimTemplateView,
    ) -> StatefulSetSpecView {
        StatefulSetSpecView {
            volume_claim_templates: self.volume_claim_templates.push(volume_claim_template),
            ..self
        }
    }
}

impl View for StatefulSetSpec {
    type V = StatefulSetSpecView;

    closed spec fn view(&self) -> StatefulSetSpecView {
        StatefulSetSpecView {
            service_name: self.service_name@,
            selector: self.selector@,
            template: self.template@,
            volume_claim_templates: views(self.volume_claim_templates@),
        }
    }
}

impl StatefulSetSpec {
    /// Starts a specification without volume claims.
    pub fn builder(service_name: String, selector: Selector, template: StatefulSetSpecTemplate) -> (spec: Self)
        ensures
            spec@ == StatefulSetSpecView::of(service_name@, selector@, template@),
    {
        let spec = StatefulSetSpec {
            service_name,
            selector,
            template,
            volume_claim_templates: Vec::new(),
        };
        assert(spec@.volume_claim_templates =~= Seq::empty());
        spec
    }

    /// The name of the service that names the pods.
    pub fn service_name(&self) -> (name: &String)
        ensures
            name@ == self@.service_name,
    {
        &self.service_name
    }

    /// The selector that finds the pods.
    pub fn selector(&self) -> (selector: &Selector)
        ensures
            selector@ == self@.selector,
    {
        &self.selector
    }

    /// The template the pods are made from.
    pub fn template(&self) -> (template: &StatefulSetSpecTemplate)
        ensures
            template@ == self@.template,
    {
        &self.template
    }

    /// The volumes each pod claims.
    pub fn volume_claim_templates(&self) -> (templates: &Vec<VolumeClaimTemplate>)
        ensures
            views(templates@) == self@.volume_claim_templates,
    {
        &self.volume_claim_templates
    }
}

/// The steps by which the specification of a stateful set is built.
pub trait StatefulSetSpecBuilder: View<V = StatefulSetSpecView> + Sized {
    /// Adds a volume claim.
    fn with_volume_claim_template(self, volume_claim_template: VolumeClaimTemplate) -> (next: Self)
        ensures
            next@ == self@.with_volume_claim_template(volume_claim_template@),
    ;

    /// The specification as built so far.
    fn build(self) -> (spec: StatefulSetSpec)
        ensures
            spec@ == self@,
    ;
}

impl StatefulSetSpecBuilder for StatefulSetSpec {
    fn with_volume_claim_template(self, volume_claim_template: VolumeClaimTemplate) -> (next: Self) {
        proof {
            views_push(self.volume_claim_templates@, volume_claim_template);
        }
        let mut next = self;
        next.volume_claim_templates.push(volume_claim_template);
        next
    }

    fn build(self) -> (spec: StatefulSetSpec) {
        self
    }
}

/// A stateful set.
#[derive(Debug)]
pub struct StatefulSet {
    api_version: String,
    kind: String,
    metadata: Metadata,
    spec: StatefulSetSpec,
}

/// What a [`StatefulSet`] holds.
pub struct StatefulSetView {
    pub api_version: Seq<char>,
    pub kind: Seq<char>,
    pub metadata: MetadataView,
    pub spec: StatefulSetSpecView,
}

impl StatefulSetView {
    /// The API version of every stateful set.
    pub open spec fn api_version() -> Seq<char> {
        "apps/v1"@
    }

    /// The kind of every stateful set.
    pub open spec fn kind() -> Seq<char> {
        "StatefulSet"@
    }

    /// The stateful set described by `metadata` and `spec`.
    pub open spec fn of(metadata: MetadataView, spec: StatefulSetSpecView) -> StatefulSetView {
        StatefulSetView { api_version: Self::api_version(), kind: Self::kind(), metadata, spec }
    }
}

impl View for StatefulSet {
    type V = StatefulSetView;

    closed spec fn view(&self) -> StatefulSetView {
        StatefulSetView {
            api_version: self.api_version@,
            kind: self.kind@,
            metadata: self.metadata@,
            spec: self.spec@,
        }
    }
}

impl StatefulSet {
    #[verifier::type_invariant]
    spec fn fixed_head(&self) -> bool {
        &&& self.api_version@ == StatefulSetView::api_version()
        &&& self.kind@ == StatefulSetView::kind()
    }

    /// The stateful set described by `metadata` and `spec`.
    pub fn new(metadata: Metadata, spec: StatefulSetSpec) -> (stateful_set: Self)
        ensures
            stateful_set@ == StatefulSetView::of(metadata@, spec@),
    {
        StatefulSet {
            api_version: "apps/v1".to_owned(),
            kind: "StatefulSet".to_owned(),
            metadata,
            spec,
        }
    }

    /// The API version, the same for every stateful set.
    pub fn api_version(&self) -> (version: &String)
        ensures
            version@ == self@.api_version,
            version@ == StatefulSetView::api_version(),
    {
        proof {
            use_type_invariant(self);
        }
        &self.api_version
    }

    /// The kind, the same for every stateful set.
    pub fn kind(&self) -> (kind: &String)
        ensures
            kind@ == self@.kind,
            kind@ == StatefulSetView::kind(),
    {
        proof {
            use_type_invariant(self);
        }
        &self.kind
    }

    /// The stateful set's metadata.
    pub fn metadata(&self) -> (metadata: &Metadata)
        ensures
            metadata@ == self@.metadata,
    {
        &self.metadata
    }

    /// The stateful set's specification.
    pub fn spec(&self) -> (spec: &StatefulSetSpec)
        ensures
            spec@ == self@.spec,
    {
        &self.spec
    }
}

} // verus!
