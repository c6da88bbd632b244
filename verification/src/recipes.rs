//! Recipes: a stack of resources, and the objects each of them becomes.
//!
//! A stack has a name, an environment and a list of resources. It becomes
//! a list of objects: first its namespace, then the objects of each
//! resource in the order of the list.

pub mod laws;
pub mod naming;
pub mod objects;

use crate::k8s::container::{Container, ContainerBuilder, ContainerPort};
use crate::k8s::deployment::{
    Deployment, DeploymentSpec, DeploymentTemplate, DeploymentTemplateMetadata,
    DeploymentTemplateMetadataBuilder, DeploymentTemplateSpec, DeploymentTemplateSpecBuilder,
    DeploymentView,
};
use crate::k8s::environment::EnvironmentVariable;
use crate::k8s::metadata::{Metadata, MetadataBuilder};
use crate::k8s::namespace::{Namespace, NamespaceView};
use crate::k8s::selector::{Selector, SelectorBuilder};
use crate::k8s::service::{
    optional_text, Service, ServiceSpec, ServiceSpecBuilder, ServiceSpecView, ServiceType,
    ServiceView,
};
use crate::k8s::stateful_set::{
    StatefulSet, StatefulSetSpec, StatefulSetSpecBuilder, StatefulSetSpecTemplate,
    StatefulSetSpecTemplateSpec, StatefulSetSpecTemplateSpecBuilder, StatefulSetView,
};
use crate::k8s::volume::{
    VolumeClaimAccessMode, VolumeClaimTemplate, VolumeClaimTemplateSpec,
    VolumeClaimTemplateSpecBuilder, VolumeMount,
};
use crate::model::{views, views_add, views_empty, views_push};
use crate::recipes::objects::{
    app_labels, microservice_metadata, plain_container, straight_port, tcp_port,
    microservice_container_port, microservice_deployment, microservice_service,
    microservice_service_port, nginx_deployment, nginx_service, postgresql_service,
    postgresql_stateful_set, rabbitmq_service, rabbitmq_stateful_set,
};
use crate::recipes::laws::namespace_name_joins_its_parts;
use crate::string_map::has_key;
use crate::text::{hyphenate, hyphenated, join};
use vstd::prelude::*;

verus! {

/// Where a stack runs.
#[derive(Debug)]
pub enum Environment {
    /// In production: the stack's namespace has the stack's name.
    Production,
    /// For a while, under a name of its own that the namespace adds to the
    /// stack's name.
    Ephemeral(String),
}

/// What an [`Environment`] holds.
pub enum EnvironmentView {
    Production,
    Ephemeral(Seq<char>),
}

impl View for Environment {
    type V = EnvironmentView;

    open spec fn view(&self) -> EnvironmentView {
        match self {
            Environment::Production => EnvironmentView::Production,
            Environment::Ephemeral(name) => EnvironmentView::Ephemeral(name@),
        }
    }
}

/// A PostgreSQL database.
#[derive(Debug)]
pub struct PostgreSQL {
    image: String,
}

/// What a [`PostgreSQL`] holds.
pub struct PostgreSQLView {
    pub image: Seq<char>,
}

impl View for PostgreSQL {
    type V = PostgreSQLView;

    closed spec fn view(&self) -> PostgreSQLView {
        PostgreSQLView { image: self.image@ }
    }
}

impl PostgreSQL {
    /// The database that runs `image`.
    pub fn new(image: String) -> (database: Self)
        ensures
            database@ == (PostgreSQLView { image: image@ }),
    {
        PostgreSQL { image }
    }
}

/// A RabbitMQ message queue.
#[derive(Debug)]
pub struct RabbitMQ {
    image: String,
}

/// What a [`RabbitMQ`] holds.
pub struct RabbitMQView {
    pub image: Seq<char>,
}

impl View for RabbitMQ {
    type V = RabbitMQView;

    closed spec fn view(&self) -> RabbitMQView {
        RabbitMQView { image: self.image@ }
    }
}

impl RabbitMQ {
    /// The message queue that runs `image`.
    pub fn new(image: String) -> (queue: Self)
        ensures
            queue@ == (RabbitMQView { image: image@ }),
    {
        RabbitMQ { image }
    }
}

/// An Nginx web server.
#[derive(Debug)]
pub struct Nginx {
    image: String,
    replicas: u16,
}

/// What an [`Nginx`] holds.
pub struct NginxView {
    pub image: Seq<char>,
    pub replicas: u16,
}

impl View for Nginx {
    type V = NginxView;

    closed spec fn view(&self) -> NginxView {
        NginxView { image: self.image@, replicas: self.replicas }
    }
}

impl Nginx {
    /// The web server that runs `image` in `replicas` pods.
    pub fn new(image: String, replicas: u16) -> (server: Self)
        ensures
            server@ == (NginxView { image: image@, replicas }),
    {
        Nginx { image, replicas }
    }
}

/// A port that a microservice listens on.
#[derive(Debug)]
pub enum MicroservicePort {
    TCP { port: u16, name: Option<String> },
    UDP { port: u16, name: Option<String> },
}

/// What a [`MicroservicePort`] holds.
pub enum MicroservicePortView {
    TCP { port: u16, name: Option<Seq<char>> },
    UDP { port: u16, name: Option<Seq<char>> },
}

/// The string that an optional name holds.
pub open spec fn optional_name(name: Option<String>) -> Option<Seq<char>> {
    match name {
        Some(name) => Some(name@),
        None => None,
    }
}

/// The keys of a microservice's labels differ from each other.
proof fn label_keys_differ()
    ensures
        "app"@ != "role"@,
        "app"@ != "version"@,
        "role"@ != "version"@,
{
    reveal_strlit("app");
    assert("app"@.len() == 3);
    reveal_strlit("role");
    assert("role"@.len() == 4);
    reveal_strlit("version");
    assert("version"@.len() == 7);
}

/// The name, if there is one, as borrowed text.
fn borrowed_name(name: &Option<String>) -> (text: Option<&str>)
    ensures
        optional_text(text) == optional_name(*name),
{
    match name {
        Some(name) => Some(name.as_str()),
        None => None,
    }
}

impl View for MicroservicePort {
    type V = MicroservicePortView;

    open spec fn view(&self) -> MicroservicePortView {
        match self {
            MicroservicePort::TCP { port, name } => MicroservicePortView::TCP {
                port: *port,
                name: optional_name(*name),
            },
            MicroservicePort::UDP { port, name } => MicroservicePortView::UDP {
                port: *port,
                name: optional_name(*name),
            },
        }
    }
}

/// A service of one's own: an image in some version, run in some number of
/// pods under a role that names it within the stack.
#[derive(Debug)]
pub struct Microservice {
    image: String,
    version: String,
    replicas: u16,
    role: String,
    tcp_ports: Vec<MicroservicePort>,
}

/// What a [`Microservice`] holds.
pub struct MicroserviceView {
    pub image: Seq<char>,
    pub version: Seq<char>,
    pub replicas: u16,
    pub role: Seq<char>,
    pub tcp_ports: Seq<MicroservicePortView>,
}

impl View for Microservice {
    type V = MicroserviceView;

    closed spec fn view(&self) -> MicroserviceView {
        MicroserviceView {
            image: self.image@,
            version: self.version@,
            replicas: self.replicas,
            role: self.role@,
            tcp_ports: views(self.tcp_ports@),
        }
    }
}

impl Microservice {
    /// The microservice that runs `image` in `replicas` pods under `role`
    /// and listens on `tcp_ports`.
    pub fn new(
        image: String,
        version: String,
        replicas: u16,
        role: String,
        tcp_ports: Vec<MicroservicePort>,
    ) -> (microservice: Self)
        ensures
            microservice@ == (MicroserviceView {
                image: image@,
                version: version@,
                replicas,
                role: role@,
                tcp_ports: views(tcp_ports@),
            }),
    {
        Microservice { image, version, replicas, role, tcp_ports }
    }
}

/// A resource of a stack.
#[derive(Debug)]
pub enum Resource {
    PosgreSQL(PostgreSQL),
    RabbitMQ(RabbitMQ),
    Nginx(Nginx),
    Microservice(Microservice),
}

/// What a [`Resource`] holds.
pub enum ResourceView {
    PosgreSQL(PostgreSQLView),
    RabbitMQ(RabbitMQView),
    Nginx(NginxView),
    Microservice(MicroserviceView),
}

impl View for Resource {
    type V = ResourceView;

    open spec fn view(&self) -> ResourceView {
        match self {
            Resource::PosgreSQL(database) => ResourceView::PosgreSQL(database@),
            Resource::RabbitMQ(queue) => ResourceView::RabbitMQ(queue@),
            Resource::Nginx(server) => ResourceView::Nginx(server@),
            Resource::Microservice(microservice) => ResourceView::Microservice(microservice@),
        }
    }
}

/// An object of a stack.
#[derive(Debug)]
pub enum Manifest {
    Namespace(Namespace),
    StatefulSet(StatefulSet),
    Deployment(Deployment),
    Service(Service),
}

/// What a [`Manifest`] holds.
pub enum ManifestView {
    Namespace(NamespaceView),
    StatefulSet(StatefulSetView),
    Deployment(DeploymentView),
    Service(ServiceView),
}

impl View for Manifest {
    type V = ManifestView;

    open spec fn view(&self) -> ManifestView {
        match self {
            Manifest::Namespace(namespace) => ManifestView::Namespace(namespace@),
            Manifest::StatefulSet(stateful_set) => ManifestView::StatefulSet(stateful_set@),
            Manifest::Deployment(deployment) => ManifestView::Deployment(deployment@),
            Manifest::Service(service) => ManifestView::Service(service@),
        }
    }
}

/// A stack: a name, the environment it runs in, and its resources.
#[derive(Debug)]
pub struct Stack {
    namespace: String,
    environment: Environment,
    resources: Vec<Resource>,
}

/// What a [`Stack`] holds.
pub struct StackView {
    pub namespace: Seq<char>,
    pub environment: EnvironmentView,
    pub resources: Seq<ResourceView>,
}

impl StackView {
    /// The stack `name` in `environment`, without resources.
    pub open spec fn named(name: Seq<char>, environment: EnvironmentView) -> StackView {
        StackView { namespace: name, environment, resources: Seq::empty() }
    }

    /// The same stack with one more resource.
    pub open spec fn with_resource(self, resource: ResourceView) -> StackView {
        StackView { resources: self.resources.push(resource), ..self }
    }

    /// The parts of the name of the stack's namespace: the stack's name,
    /// and the name of the environment where it has one.
    pub open spec fn namespace_parts(self) -> Seq<Seq<char>> {
        match self.environment {
            EnvironmentView::Production => seq![self.namespace],
            EnvironmentView::Ephemeral(name) => seq![self.namespace, name],
        }
    }

    /// The name of the stack's namespace.
    pub open spec fn namespace_name(self) -> Seq<char> {
        match self.environment {
            EnvironmentView::Production => self.namespace,
            EnvironmentView::Ephemeral(name) => hyphenated(self.namespace, name),
        }
    }

    /// The objects of the stack: its namespace, then the objects of each
    /// resource in turn.
    pub open spec fn manifests(self) -> Seq<ManifestView> {
        seq![ManifestView::Namespace(NamespaceView::named(self.namespace_name()))]
            + resources_manifests(self.namespace_name(), self.resources)
    }
}

/// The objects of the database in `namespace`: its stateful set and its
/// service.
pub open spec fn postgresql_manifests(namespace: Seq<char>, database: PostgreSQLView) -> Seq<ManifestView> {
    seq![
        ManifestView::StatefulSet(postgresql_stateful_set(namespace, database.image)),
        ManifestView::Service(postgresql_service(namespace)),
    ]
}

/// The objects of the message queue in `namespace`: its stateful set and
/// its service.
pub open spec fn rabbitmq_manifests(namespace: Seq<char>, queue: RabbitMQView) -> Seq<ManifestView> {
    seq![
        ManifestView::StatefulSet(rabbitmq_stateful_set(namespace, queue.image)),
        ManifestView::Service(rabbitmq_service(namespace)),
    ]
}

/// The objects of the web server in `namespace`: its deployment and its
/// service.
pub open spec fn nginx_manifests(namespace: Seq<char>, server: NginxView) -> Seq<ManifestView> {
    seq![
        ManifestView::Deployment(nginx_deployment(namespace, server.image, server.replicas)),
        ManifestView::Service(nginx_service(namespace)),
    ]
}

/// The objects of a microservice in `namespace`: its deployment and, where
/// it listens on any port, its service.
pub open spec fn microservice_manifests(namespace: Seq<char>, microservice: MicroserviceView) -> Seq<ManifestView> {
    if microservice.tcp_ports.len() == 0 {
        seq![ManifestView::Deployment(microservice_deployment(namespace, microservice))]
    } else {
        seq![
            ManifestView::Deployment(microservice_deployment(namespace, microservice)),
            ManifestView::Service(microservice_service(namespace, microservice)),
        ]
    }
}

/// The objects of one resource in `namespace`.
pub open spec fn resource_manifests(namespace: Seq<char>, resource: ResourceView) -> Seq<ManifestView> {
    match resource {
        ResourceView::PosgreSQL(database) => postgresql_manifests(namespace, database),
        ResourceView::RabbitMQ(queue) => rabbitmq_manifests(namespace, queue),
        ResourceView::Nginx(server) => nginx_manifests(namespace, server),
        ResourceView::Microservice(microservice) => microservice_manifests(namespace, microservice),
    }
}

/// The objects of `resources` in `namespace`, resource after resource.
pub open spec fn resources_manifests(namespace: Seq<char>, resources: Seq<ResourceView>) -> Seq<ManifestView>
    decreases resources.len(),
{
    if resources.len() == 0 {
        Seq::empty()
    } else {
        resources_manifests(namespace, resources.drop_last()) + resource_manifests(
            namespace,
            resources.last(),
        )
    }
}

impl View for Stack {
    type V = StackView;

    closed spec fn view(&self) -> StackView {
        StackView {
            namespace: self.namespace@,
            environment: self.environment@,
            resources: views(self.resources@),
        }
    }
}

impl Stack {
    /// The stack `namespace` in `environment` with `resources`.
    pub fn new(namespace: String, environment: Environment, resources: Vec<Resource>) -> (stack: Self)
        ensures
            stack@ == (StackView {
                namespace: namespace@,
                environment: environment@,
                resources: views(resources@),
            }),
    {
        Stack { namespace, environment, resources }
    }

    /// Starts the stack `name` in `environment`, without resources.
    pub fn builder(name: &str, environment: Environment) -> (stack: Stack)
        ensures
            stack@ == StackView::named(name@, environment@),
    {
        let stack = Stack { namespace: name.to_owned(), environment, resources: Vec::new() };
        assert(stack@.resources =~= Seq::empty());
        stack
    }

    /// The parts of the name of the stack's namespace.
    pub fn namespace(&self) -> (parts: Vec<String>)
        ensures
            views(parts@) == self@.namespace_parts(),
    {
        match &self.environment {
            Environment::Production => vec![self.namespace.clone()],
            Environment::Ephemeral(name) => vec![self.namespace.clone(), name.clone()],
        }
    }

    /// The name of the stack's namespace.
    pub fn namespace_name(&self) -> (name: String)
        ensures
            name@ == self@.namespace_name(),
    {
        let parts = self.namespace();
        proof {
            namespace_name_joins_its_parts(self@);
        }
        join(&parts, "-")
    }

    /// The objects of the database `pg`.
    pub fn postgresql(&self, pg: &PostgreSQL) -> (manifests: Vec<Manifest>)
        ensures
            views(manifests@) == postgresql_manifests(self@.namespace_name(), pg@),
    {
        let ns = self.namespace_name();
        let app_name = hyphenate(ns.as_str(), "db");
        let service_name = hyphenate(app_name.as_str(), "svc");
        let volume_name = hyphenate(app_name.as_str(), "vol");

        let metadata = Metadata::builder(app_name.as_str(), ns.as_str())
            .with_label("app", app_name.as_str())
            .build();

        let stateful_set = StatefulSet::new(
            metadata.clone(),
            StatefulSetSpec::builder(
                service_name.clone(),
                Selector::builder().with_match_label("app", app_name.as_str()).build(),
                StatefulSetSpecTemplate::new(
                    metadata.clone(),
                    StatefulSetSpecTemplateSpec::builder()
                        .with_container(
                            Container::builder(pg.image.as_str(), app_name.as_str(), Vec::new())
                                .with_port(ContainerPort::tcp(5432))
                                .with_env(EnvironmentVariable::value(
                                    "POSTGRES_PASSWORD",
                                    "postgres",
                                ))
                                .with_volume_mount(VolumeMount::new(
                                    volume_name.clone(),
                                    "/var/lib/postgresql/data".to_owned(),
                                ))
                                .build(),
                        )
                        .build(),
                ),
            )
            .with_volume_claim_template(VolumeClaimTemplate::new(
                Metadata::builder(volume_name.as_str(), ns.as_str()).build(),
                VolumeClaimTemplateSpec::builder(VolumeClaimTemplateSpec::storage_resources(
                    "5Gi".to_owned(),
                ))
                .with_access_mode(VolumeClaimAccessMode::ReadWriteOnce)
                .build(),
            ))
            .build(),
        );

        let service = Service::new(
            Metadata::builder(service_name.as_str(), ns.as_str())
                .with_label("app", app_name.as_str())
                .build(),
            ServiceSpec::builder(ServiceType::ClusterIP)
                .with_selector("app", app_name.as_str())
                .with_port(5432, 5432, Some("db"))
                .build(),
        );

        proof {
            views_empty::<&str>();
        }
        vec![Manifest::StatefulSet(stateful_set), Manifest::Service(service)]
    }

    /// The objects of the message queue `rmq`.
    pub fn rabbitmq(&self, rmq: &RabbitMQ) -> (manifests: Vec<Manifest>)
        ensures
            views(manifests@) == rabbitmq_manifests(self@.namespace_name(), rmq@),
    {
        let ns = self.namespace_name();
        let app_name = hyphenate(ns.as_str(), "mq");
        let service_name = hyphenate(app_name.as_str(), "svc");
        let volume_name = hyphenate(app_name.as_str(), "vol");

        let metadata = Metadata::builder(app_name.as_str(), ns.as_str())
            .with_label("app", app_name.as_str())
            .build();

        let stateful_set = StatefulSet::new(
            metadata.clone(),
            StatefulSetSpec::builder(
                service_name.clone(),
                Selector::builder().with_match_label("app", app_name.as_str()).build(),
                StatefulSetSpecTemplate::new(
                    metadata.clone(),
                    StatefulSetSpecTemplateSpec::builder()
                        .with_container(
                            Container::builder(rmq.image.as_str(), app_name.as_str(), Vec::new())
                                .with_port(ContainerPort::tcp(5672))
                                .with_port(ContainerPort::tcp(15672))
                                .with_volume_mount(VolumeMount::new(
                                    volume_name.clone(),
                                    "/var/lib/postgresql/data".to_owned(),
                                ))
                                .build(),
                        )
                        .build(),
                ),
            )
            .with_volume_claim_template(VolumeClaimTemplate::new(
                Metadata::builder(volume_name.as_str(), ns.as_str()).build(),
                VolumeClaimTemplateSpec::builder(VolumeClaimTemplateSpec::storage_resources(
                    "5Gi".to_owned(),
                ))
                .with_access_mode(VolumeClaimAccessMode::ReadWriteOnce)
                .build(),
            ))
            .build(),
        );

        let service = Service::new(
            Metadata::builder(service_name.as_str(), ns.as_str())
                .with_label("app", app_name.as_str())
                .build(),
            ServiceSpec::builder(ServiceType::ClusterIP)
                .with_selector("app", app_name.as_str())
                .with_port(5672, 5672, Some("amqp"))
                .with_port(15672, 15672, Some("web"))
                .build(),
        );

        proof {
            views_empty::<&str>();
        }
        assert(stateful_set@.spec.template.spec.containers[0].ports =~= seq![
            tcp_port(5672),
            tcp_port(15672),
        ]);
        assert(service@.spec.ports =~= seq![
            straight_port(5672, Some("amqp"@)),
            straight_port(15672, Some("web"@)),
        ]);
        vec![Manifest::StatefulSet(stateful_set), Manifest::Service(service)]
    }

    /// The objects of the web server `nginx`.
    pub fn nginx(&self, nginx: &Nginx) -> (manifests: Vec<Manifest>)
        ensures
            views(manifests@) == nginx_manifests(self@.namespace_name(), nginx@),
    {
        let ns = self.namespace_name();
        let app_name = hyphenate(ns.as_str(), "web");
        let service_name = hyphenate(app_name.as_str(), "svc");

        let metadata = Metadata::builder(app_name.as_str(), ns.as_str())
            .with_label("app", app_name.as_str())
            .build();
        let deployment = Deployment::new(
            metadata,
            DeploymentSpec::new(
                nginx.replicas,
                Selector::builder().with_match_label("app", app_name.as_str()).build(),
                DeploymentTemplate::new(
                    DeploymentTemplateMetadata::builder(ns.as_str())
                        .with_label("app", app_name.as_str())
                        .build(),
                    DeploymentTemplateSpec::builder()
                        .with_container(
                            Container::builder(nginx.image.as_str(), app_name.as_str(), Vec::new())
                                .with_port(ContainerPort::tcp(80))
                                .build(),
                        )
                        .build(),
                ),
            ),
        );

        let service = Service::new(
            Metadata::builder(service_name.as_str(), ns.as_str())
                .with_label("app", app_name.as_str())
                .build(),
            ServiceSpec::builder(ServiceType::LoadBalancer)
                .with_selector("app", app_name.as_str())
                .with_port(80, 80, Some("web"))
                .build(),
        );

        proof {
            views_empty::<&str>();
        }
        vec![Manifest::Deployment(deployment), Manifest::Service(service)]
    }

    /// The objects of the microservice `microservice`.
    pub fn microservice(&self, microservice: &Microservice) -> (manifests: Vec<Manifest>)
        ensures
            views(manifests@) == microservice_manifests(self@.namespace_name(), microservice@),
    {
        let ns = self.namespace_name();
        let app_name = hyphenate(ns.as_str(), microservice.role.as_str());
        let service_name = hyphenate(app_name.as_str(), "svc");
        let ghost asked = views(microservice.tcp_ports@);

        let metadata = Metadata::builder(app_name.as_str(), ns.as_str())
            .with_label("app", app_name.as_str())
            .with_label("role", microservice.role.as_str())
            .with_label("version", microservice.version.as_str())
            .build();
        proof {
            label_keys_differ();
            let first = seq![("app"@, app_name@)];
            let second = first.push(("role"@, microservice.role@));
            assert(!has_key(first, "role"@));
            assert(!has_key(second, "version"@));
            assert(metadata@.labels =~= microservice_metadata(
                self@.namespace_name(),
                microservice@,
            ).labels);
        }

        let mut container =
            Container::builder(microservice.image.as_str(), app_name.as_str(), Vec::new());
        proof {
            views_empty::<&str>();
            assert(container@.ports =~= asked.take(0).map_values(
                |port| microservice_container_port(port),
            ));
        }
        let mut done: usize = 0;
        while done < microservice.tcp_ports.len()
            invariant
                done <= microservice.tcp_ports@.len(),
                asked == views(microservice.tcp_ports@),
                container@ == plain_container(
                    app_name@,
                    microservice.image@,
                    asked.take(done as int).map_values(|port| microservice_container_port(port)),
                ),
            decreases microservice.tcp_ports@.len() - done,
        {
            let port = match &microservice.tcp_ports[done] {
                MicroservicePort::TCP { port, .. } => ContainerPort::tcp(*port),
                MicroservicePort::UDP { port, .. } => ContainerPort::udp(*port),
            };
            container = container.with_port(port);
            done += 1;
            assert(asked.take(done as int).map_values(|port| microservice_container_port(port))
                =~= asked.take(done - 1).map_values(|port| microservice_container_port(port)).push(
                port@,
            ));
        }
        assert(asked.take(done as int) =~= asked);

        let deployment = Deployment::new(
            metadata,
            DeploymentSpec::new(
                microservice.replicas,
                Selector::builder().with_match_label("app", app_name.as_str()).build(),
                DeploymentTemplate::new(
                    DeploymentTemplateMetadata::builder(ns.as_str())
                        .with_label("app", app_name.as_str())
                        .build(),
                    DeploymentTemplateSpec::builder().with_container(container.build()).build(),
                ),
            ),
        );

        let mut values: Vec<Manifest> = Vec::new();
        values.push(Manifest::Deployment(deployment));

        if microservice.tcp_ports.len() > 0 {
            let mut spec = ServiceSpec::builder(ServiceType::LoadBalancer)
                .with_selector("app", app_name.as_str());
            assert(spec@.ports =~= asked.take(0).map_values(|port| microservice_service_port(port)));
            let mut done: usize = 0;
            while done < microservice.tcp_ports.len()
                invariant
                    done <= microservice.tcp_ports@.len(),
                    asked == views(microservice.tcp_ports@),
                    spec@ == (ServiceSpecView {
                        service_type: ServiceType::LoadBalancer,
                        selector: app_labels(app_name@),
                        ports: asked.take(done as int).map_values(
                            |port| microservice_service_port(port),
                        ),
                    }),
                decreases microservice.tcp_ports@.len() - done,
            {
                let (port, name) = match &microservice.tcp_ports[done] {
                    MicroservicePort::TCP { port, name } => (*port, name),
                    MicroservicePort::UDP { port, name } => (*port, name),
                };
                spec = spec.with_port(port, port, borrowed_name(name));
                done += 1;
                assert(asked.take(done as int).map_values(|port| microservice_service_port(port))
                    =~= asked.take(done - 1).map_values(|port| microservice_service_port(port)).push(
                    microservice_service_port(asked[done - 1]),
                ));
            }
            let service = Service::new(
                Metadata::builder(service_name.as_str(), ns.as_str())
                    .with_label("app", app_name.as_str())
                    .build(),
                spec.build(),
            );
            values.push(Manifest::Service(service));
        }
        values
    }

    /// The objects of the stack: its namespace, then the objects of each
    /// resource in turn.
    pub fn as_k8s(&self) -> (manifests: Vec<Manifest>)
        ensures
            views(manifests@) == self@.manifests(),
    {
        let ghost ns = self@.namespace_name();
        let ghost all = views(self.resources@);
        let mut values: Vec<Manifest> = Vec::new();
        values.push(Manifest::Namespace(Namespace::new(self.namespace_name())));

        let mut done: usize = 0;
        while done < self.resources.len()
            invariant
                done <= self.resources@.len(),
                ns == self@.namespace_name(),
                all == views(self.resources@),
                views(values@) == seq![ManifestView::Namespace(NamespaceView::named(ns))]
                    + resources_manifests(ns, all.take(done as int)),
            decreases self.resources@.len() - done,
        {
            let mut v = match &self.resources[done] {
                Resource::PosgreSQL(pg) => self.postgresql(pg),
                Resource::RabbitMQ(rmq) => self.rabbitmq(rmq),
                Resource::Nginx(nginx) => self.nginx(nginx),
                Resource::Microservice(ms) => self.microservice(ms),
            };
            proof {
                views_add(values@, v@);
                assert(all.take(done + 1).drop_last() =~= all.take(done as int));
            }
            values.append(&mut v);
            done += 1;
        }
        assert(all.take(done as int) =~= all);
        values
    }
}

/// The steps by which a stack is built.
pub trait StackBuilder: View<V = StackView> + Sized {
    /// Adds a resource behind those the stack has.
    fn with_resource(self, resource: Resource) -> (next: Self)
        ensures
            next@ == self@.with_resource(resource@),
    ;

    /// The stack as built so far.
    fn build(self) -> (stack: Stack)
        ensures
            stack@ == self@,
    ;
}

impl StackBuilder for Stack {
    fn with_resource(self, resource: Resource) -> (next: Self) {
        proof {
            views_push(self.resources@, resource);
        }
        let mut next = self;
        next.resources.push(resource);
        next
    }

    fn build(self) -> (stack: Stack) {
        self
    }
}

} // verus!
