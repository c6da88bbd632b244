//! The objects that each resource of a stack becomes.
//!
//! Each function says, field by field, what an object holds, given the
//! name of the namespace and what the resource asks for.

use crate::k8s::container::{ContainerPortProtocol, ContainerPortView, ContainerView};
use crate::k8s::deployment::{
    DeploymentSpecView, DeploymentTemplateMetadataView, DeploymentTemplateSpecView,
    DeploymentTemplateView, DeploymentView,
};
use crate::k8s::environment::EnvironmentVariableView;
use crate::k8s::labels::LabelPairs;
use crate::k8s::metadata::MetadataView;
use crate::k8s::selector::SelectorView;
use crate::k8s::service::{ServicePortView, ServiceSpecView, ServiceType, ServiceView};
use crate::k8s::stateful_set::{
    StatefulSetSpecTemplateSpecView, StatefulSetSpecTemplateView, StatefulSetSpecView,
    StatefulSetView,
};
use crate::k8s::volume::{
    VolumeClaimAccessMode, VolumeClaimTemplateSpecView, VolumeClaimTemplateView, VolumeMountView,
};
use crate::recipes::naming::{
    app_name, database_role, queue_role, service_name, volume_name, web_role,
};
use crate::recipes::{MicroservicePortView, MicroserviceView};
use vstd::prelude::*;

verus! {

/// The labels of the application `app`: its name under `app`.
pub open spec fn app_labels(app: Seq<char>) -> LabelPairs {
    seq![("app"@, app)]
}

/// The metadata of an object `name` of the application `app`.
pub open spec fn app_metadata(name: Seq<char>, namespace: Seq<char>, app: Seq<char>) -> MetadataView {
    MetadataView { name, namespace, labels: app_labels(app) }
}

/// The selector that finds the pods of the application `app`.
pub open spec fn app_selector(app: Seq<char>) -> SelectorView {
    SelectorView { match_labels: app_labels(app) }
}

/// The TCP port `port` of a container.
pub open spec fn tcp_port(port: u16) -> ContainerPortView {
    ContainerPortView { container_port: port, protocol: ContainerPortProtocol::TCP }
}

/// The UDP port `port` of a container.
pub open spec fn udp_port(port: u16) -> ContainerPortView {
    ContainerPortView { container_port: port, protocol: ContainerPortProtocol::UDP }
}

/// The port of a service that leads to the same port of the pods.
pub open spec fn straight_port(port: u16, name: Option<Seq<char>>) -> ServicePortView {
    ServicePortView { port, target_port: port, name }
}

/// Where a stateful application keeps its data.
pub open spec fn data_path() -> Seq<char> {
    "/var/lib/postgresql/data"@
}

/// The claim for the volume `volume`: five gibibytes, read and written by
/// one node.
pub open spec fn data_claim(volume: Seq<char>, namespace: Seq<char>) -> VolumeClaimTemplateView {
    VolumeClaimTemplateView {
        metadata: MetadataView { name: volume, namespace, labels: Seq::empty() },
        spec: VolumeClaimTemplateSpecView {
            access_modes: seq![VolumeClaimAccessMode::ReadWriteOnce],
            resources: VolumeClaimTemplateSpecView::storage_resources("5Gi"@),
        },
    }
}

/// A stateful set of the application `app` with the one container
/// `container`, named by the application's service, with a claim for the
/// application's volume.
pub open spec fn stateful_app(
    namespace: Seq<char>,
    app: Seq<char>,
    container: ContainerView,
) -> StatefulSetView {
    StatefulSetView {
        api_version: StatefulSetView::api_version(),
        kind: StatefulSetView::kind(),
        metadata: app_metadata(app, namespace, app),
        spec: StatefulSetSpecView {
            service_name: service_name(app),
            selector: app_selector(app),
            template: StatefulSetSpecTemplateView {
                metadata: app_metadata(app, namespace, app),
                spec: StatefulSetSpecTemplateSpecView { containers: seq![container] },
            },
            volume_claim_templates: seq![data_claim(volume_name(app), namespace)],
        },
    }
}

/// The service in front of the application `app`.
pub open spec fn app_service(
    namespace: Seq<char>,
    app: Seq<char>,
    service_type: ServiceType,
    ports: Seq<ServicePortView>,
) -> ServiceView {
    ServiceView {
        api_version: ServiceView::api_version(),
        kind: ServiceView::kind(),
        metadata: app_metadata(service_name(app), namespace, app),
        spec: ServiceSpecView { service_type, selector: app_labels(app), ports },
    }
}

/// The container of the database.
pub open spec fn postgresql_container(app: Seq<char>, image: Seq<char>) -> ContainerView {
    ContainerView {
        image,
        image_pull_policy: ContainerView::pull_policy(),
        name: app,
        command: Seq::empty(),
        ports: seq![tcp_port(5432)],
        resources: None,
        env: seq![EnvironmentVariableView::value("POSTGRES_PASSWORD"@, "postgres"@)],
        volume_mounts: seq![VolumeMountView { name: volume_name(app), mount_path: data_path() }],
    }
}

/// The stateful set of the database.
pub open spec fn postgresql_stateful_set(namespace: Seq<char>, image: Seq<char>) -> StatefulSetView {
    let app = app_name(namespace, database_role());
    stateful_app(namespace, app, postgresql_container(app, image))
}

/// The service of the database: inside the cluster, on the database port.
pub open spec fn postgresql_service(namespace: Seq<char>) -> ServiceView {
    app_service(
        namespace,
        app_name(namespace, database_role()),
        ServiceType::ClusterIP,
        seq![straight_port(5432, Some("db"@))],
    )
}

/// The container of the message queue.
pub open spec fn rabbitmq_container(app: Seq<char>, image: Seq<char>) -> ContainerView {
    ContainerView {
        image,
        image_pull_policy: ContainerView::pull_policy(),
        name: app,
        command: Seq::empty(),
        ports: seq![tcp_port(5672), tcp_port(15672)],
        resources: None,
        env: Seq::empty(),
        volume_mounts: seq![VolumeMountView { name: volume_name(app), mount_path: data_path() }],
    }
}

/// The stateful set of the message queue.
pub open spec fn rabbitmq_stateful_set(namespace: Seq<char>, image: Seq<char>) -> StatefulSetView {
    let app = app_name(namespace, queue_role());
    stateful_app(namespace, app, rabbitmq_container(app, image))
}

/// The service of the message queue: inside the cluster, on the queue's
/// port and on the port of its web console.
pub open spec fn rabbitmq_service(namespace: Seq<char>) -> ServiceView {
    app_service(
        namespace,
        app_name(namespace, queue_role()),
        ServiceType::ClusterIP,
        seq![straight_port(5672, Some("amqp"@)), straight_port(15672, Some("web"@))],
    )
}

/// A container without command, resources, environment and mounts.
pub open spec fn plain_container(
    app: Seq<char>,
    image: Seq<char>,
    ports: Seq<ContainerPortView>,
) -> ContainerView {
    ContainerView {
        image,
        image_pull_policy: ContainerView::pull_policy(),
        name: app,
        command: Seq::empty(),
        ports,
        resources: None,
        env: Seq::empty(),
        volume_mounts: Seq::empty(),
    }
}

/// A deployment of `replicas` pods with the one container `container`. The
/// pods carry the application's label and are found by it.
pub open spec fn deployed_app(
    metadata: MetadataView,
    namespace: Seq<char>,
    app: Seq<char>,
    replicas: u16,
    container: ContainerView,
) -> DeploymentView {
    DeploymentView {
        api_version: DeploymentView::api_version(),
        kind: DeploymentView::kind(),
        metadata,
        spec: DeploymentSpecView {
            replicas,
            selector: app_selector(app),
            template: DeploymentTemplateView {
                metadata: DeploymentTemplateMetadataView { namespace, labels: app_labels(app) },
                spec: DeploymentTemplateSpecView {
                    containers: seq![container],
                    volumes: Seq::empty(),
                },
            },
        },
    }
}

/// The deployment of the web server.
pub open spec fn nginx_deployment(namespace: Seq<char>, image: Seq<char>, replicas: u16) -> DeploymentView {
    let app = app_name(namespace, web_role());
    deployed_app(
        app_metadata(app, namespace, app),
        namespace,
        app,
        replicas,
        plain_container(app, image, seq![tcp_port(80)]),
    )
}

/// The service of the web server: behind a load balancer, on the web port.
pub open spec fn nginx_service(namespace: Seq<char>) -> ServiceView {
    app_service(
        namespace,
        app_name(namespace, web_role()),
        ServiceType::LoadBalancer,
        seq![straight_port(80, Some("web"@))],
    )
}

/// The port of a container that a port of a microservice asks for.
pub open spec fn microservice_container_port(port: MicroservicePortView) -> ContainerPortView {
    match port {
        MicroservicePortView::TCP { port, .. } => tcp_port(port),
        MicroservicePortView::UDP { port, .. } => udp_port(port),
    }
}

/// The port of a service that a port of a microservice asks for.
pub open spec fn microservice_service_port(port: MicroservicePortView) -> ServicePortView {
    match port {
        MicroservicePortView::TCP { port, name } => straight_port(port, name),
        MicroservicePortView::UDP { port, name } => straight_port(port, name),
    }
}

/// The metadata of a microservice's deployment: the labels name the
/// application, the role and the version, in that order.
pub open spec fn microservice_metadata(namespace: Seq<char>, microservice: MicroserviceView) -> MetadataView {
    let app = app_name(namespace, microservice.role);
    MetadataView {
        name: app,
        namespace,
        labels: seq![
            ("app"@, app),
            ("role"@, microservice.role),
            ("version"@, microservice.version),
        ],
    }
}

/// The deployment of a microservice: one container port for each port
/// asked for, in the order asked.
pub open spec fn microservice_deployment(
    namespace: Seq<char>,
    microservice: MicroserviceView,
) -> DeploymentView {
    let app = app_name(namespace, microservice.role);
    deployed_app(
        microservice_metadata(namespace, microservice),
        namespace,
        app,
        microservice.replicas,
        plain_container(
            app,
            microservice.image,
            microservice.tcp_ports.map_values(|port| microservice_container_port(port)),
        ),
    )
}

/// The service of a microservice: behind a load balancer, one port for each
/// port asked for, in the order asked.
pub open spec fn microservice_service(namespace: Seq<char>, microservice: MicroserviceView) -> ServiceView {
    app_service(
        namespace,
        app_name(namespace, microservice.role),
        ServiceType::LoadBalancer,
        microservice.tcp_ports.map_values(|port| microservice_service_port(port)),
    )
}

} // verus!
