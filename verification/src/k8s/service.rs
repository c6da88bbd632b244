//! Services: a stable address for the pods that a selector finds.

use crate::k8s::labels::{LabelPairs, Labels};
use crate::k8s::metadata::{Metadata, MetadataView};
use crate::model::{views, views_push};
use crate::string_map::put;
use vstd::prelude::*;

verus! {

/// How a service is exposed.
#[derive(Debug, Clone, Copy)]
pub enum ServiceType {
    /// Through a load balancer outside the cluster.
    LoadBalancer,
    /// Inside the cluster only.
    ClusterIP,
}

/// A port of a service and the port of the pods that it leads to.
#[derive(Debug)]
pub struct ServicePort {
    port: u16,
    target_port: u16,
    name: Option<String>,
}

/// What a [`ServicePort`] holds.
pub struct ServicePortView {
    pub port: u16,
    pub target_port: u16,
    pub name: Option<Seq<char>>,
}

/// The string that an optional piece of text holds.
pub open spec fn optional_text(text: Option<&str>) -> Option<Seq<char>> {
    match text {
        Some(text) => Some(text@),
        None => None,
    }
}

impl View for ServicePort {
    type V = ServicePortView;

    closed spec fn view(&self) -> ServicePortView {
        ServicePortView {
            port: self.port,
            target_port: self.target_port,
            name: match self.name {
                Some(name) => Some(name@),
                None => None,
            },
        }
    }
}

impl ServicePort {
    /// The port `port` that leads to `target_port`, under `name` if one is
    /// given.
    pub fn new(port: u16, target_port: u16, name: Option<&str>) -> (result: Self)
        ensures
            result@ == (ServicePortView { port, target_port, name: optional_text(name) }),
    {
        ServicePort {
            port,
            target_port,
            name: match name {
                Some(name) => Some(name.to_owned()),
                None => None,
            },
        }
    }

    /// The port of the service.
    pub fn port(&self) -> (port: u16)
        ensures
            port == self@.port,
    {
        self.port
    }

    /// The port of the pods.
    pub fn target_port(&self) -> (port: u16)
        ensures
            port == self@.target_port,
    {
        self.target_port
    }

    /// The port's name, if it has one.
    pub fn name(&self) -> (name: Option<&String>)
        ensures
            match name {
                Some(text) => self@.name == Some(text@),
                None => self@.name is None,
            },
    {
        match &self.name {
            Some(text) => Some(text),
            None => None,
        }
    }
}

/// How a service is exposed, which pods it leads to, and on which ports.
#[derive(Debug)]
pub struct ServiceSpec {
    service_type: ServiceType,
    selector: Labels,
    ports: Vec<ServicePort>,
}

/// What a [`ServiceSpec`] holds.
pub struct ServiceSpecView {
    pub service_type: ServiceType,
    pub selector: LabelPairs,
    pub ports: Seq<ServicePortView>,
}

impl ServiceSpecView {
    /// A service of `service_type` without selector and ports.
    pub open spec fn of(service_type: ServiceType) -> ServiceSpecView {
        ServiceSpecView { service_type, selector: Seq::empty(), ports: Seq::empty() }
    }

    /// The same service with one more port.
    pub open spec fn with_port(self, port: u16, target_port: u16, name: Option<Seq<char>>) -> ServiceSpecView {
        ServiceSpecView { ports: self.ports.push(ServicePortView { port, target_port, name }), ..self }
    }

    /// The same service, leading only to pods that also carry the label
    /// `name` with `value`.
    pub open spec fn with_selector(self, name: Seq<char>, value: Seq<char>) -> ServiceSpecView {
        ServiceSpecView { selector: put(self.selector, name, value), ..self }
    }
}

impl View for ServiceSpec {
    type V = ServiceSpecView;

    closed spec fn view(&self) -> ServiceSpecView {
        ServiceSpecView {
            service_type: self.service_type,
            selector: self.selector@,
            ports: views(self.ports@),
        }
    }
}

impl ServiceSpec {
    /// Starts a service of `service_type` without selector and ports.
    pub fn builder(service_type: ServiceType) -> (spec: ServiceSpec)
        ensures
            spec@ == ServiceSpecView::of(service_type),
    {
        let spec = ServiceSpec { service_type, selector: Labels::new(), ports: Vec::new() };
        assert(spec@.ports =~= Seq::empty());
        spec
    }

    /// How the service is exposed.
    pub fn service_type(&self) -> (service_type: ServiceType)
        ensures
            service_type == self@.service_type,
    {
        self.service_type
    }

    /// The labels of the pods the service leads to.
    pub fn selector(&self) -> (selector: &Labels)
        ensures
            selector@ == self@.selector,
    {
        &self.selector
    }

    /// The ports of the service.
    pub fn ports(&self) -> (ports: &Vec<ServicePort>)
        ensures
            views(ports@) == self@.ports,
    {
        &self.ports
    }
}

/// The steps by which the specification of a service is built.
pub trait ServiceSpecBuilder: View<V = ServiceSpecView> + Sized {
    /// Adds the port `port` that leads to `target_port`, under `name` if one
    /// is given.
    fn with_port(self, port: u16, target_port: u16, name: Option<&str>) -> (next: Self)
        ensures
            next@ == self@.with_port(port, target_port, optional_text(name)),
    ;

    /// Asks of the pods also the label `name` with `value`.
    fn with_selector(self, name: &str, value: &str) -> (next: Self)
        ensures
            next@ == self@.with_selector(name@, value@),
    ;

    /// The specification as built so far.
    fn build(self) -> (spec: ServiceSpec)
        ensures
            spec@ == self@,
    ;
}

impl ServiceSpecBuilder for ServiceSpec {
    fn with_port(self, port: u16, target_port: u16, name: Option<&str>) -> (next: Self) {
        let service_port = ServicePort::new(port, target_port, name);
        proof {
            views_push(self.ports@, service_port);
        }
        let mut next = self;
        next.ports.push(service_port);
        next
    }

    fn with_selector(self, name: &str, value: &str) -> (next: Self) {
        let mut next = self;
        next.selector.insert(name, value);
        next
    }

    fn build(self) -> (spec: ServiceSpec) {
        self
    }
}

/// A service.
#[derive(Debug)]
pub struct Service {
    api_version: String,
    kind: String,
    metadata: Metadata,
    spec: ServiceSpec,
}

/// What a [`Service`] holds.
pub struct ServiceView {
    pub api_version: Seq<char>,
    pub kind: Seq<char>,
    pub metadata: MetadataView,
    pub spec: ServiceSpecView,
}

impl ServiceView {
    /// The API version of every service.
    pub open spec fn api_version() -> Seq<char> {
        "v1"@
    }

    /// The kind of every service.
    pub open spec fn kind() -> Seq<char> {
        "Service"@
    }

    /// The service described by `metadata` and `spec`.
    pub open spec fn of(metadata: MetadataView, spec: ServiceSpecView) -> ServiceView {
        ServiceView { api_version: Self::api_version(), kind: Self::kind(), metadata, spec }
    }
}

impl View for Service {
    type V = ServiceView;

    closed spec fn view(&self) -> ServiceView {
        ServiceView {
            api_version: self.api_version@,
            kind: self.kind@,
            metadata: self.metadata@,
            spec: self.spec@,
        }
    }
}

impl Service {
    #[verifier::type_invariant]
    spec fn fixed_head(&self) -> bool {
        &&& self.api_version@ == ServiceView::api_version()
        &&& self.kind@ == ServiceView::kind()
    }

    /// The service described by `metadata` and `spec`.
    pub fn new(metadata: Metadata, spec: ServiceSpec) -> (service: Self)
        ensures
            service@ == ServiceView::of(metadata@, spec@),
    {
        Service { api_version: "v1".to_owned(), kind: "Service".to_owned(), metadata, spec }
    }

    /// The API version, the same for every service.
    pub fn api_version(&self) -> (version: &String)
        ensures
            version@ == self@.api_version,
            version@ == ServiceView::api_version(),
    {
        proof {
            use_type_invariant(self);
        }
        &self.api_version
    }

    /// The kind, the same for every service.
    pub fn kind(&self) -> (kind: &String)
        ensures
            kind@ == self@.kind,
            kind@ == ServiceView::kind(),
    {
        proof {
            use_type_invariant(self);
        }
        &self.kind
    }

    /// The service's metadata.
    pub fn metadata(&self) -> (metadata: &Metadata)
        ensures
            metadata@ == self@.metadata,
    {
        &self.metadata
    }

    /// The service's specification.
    pub fn spec(&self) -> (spec: &ServiceSpec)
        ensures
            spec@ == self@.spec,
    {
        &self.spec
    }
}

} // verus!
