use flagship::k8s::container::{Container, ContainerPortProtocol};
use flagship::k8s::deployment::Deployment;
use flagship::k8s::labels::Labels;
use flagship::k8s::service::{Service, ServiceType};
use flagship::k8s::stateful_set::StatefulSet;
use flagship::k8s::volume::VolumeClaimAccessMode;
use flagship::recipes::{
    Environment, Manifest, Microservice, MicroservicePort, Nginx, PostgreSQL, RabbitMQ, Resource,
    Stack, StackBuilder,
};
use serde_yaml::{Mapping, Value};

fn yaml_text(s: &str) -> Value {
    Value::String(s.to_string())
}

fn yaml_mapping(entries: Vec<(&str, Value)>) -> Value {
    let mut m = Mapping::new();
    for (key, value) in entries {
        m.insert(yaml_text(key), value);
    }
    Value::Mapping(m)
}

fn labels_of(labels: &Labels) -> Vec<(String, String)> {
    let mut pairs = Vec::new();
    for i in 0..labels.len() {
        pairs.push((labels.key_at(i).clone(), labels.value_at(i).clone()));
    }
    pairs
}

fn label(key: &str, value: &str) -> (String, String) {
    (key.to_string(), value.to_string())
}

fn as_stateful_set(manifest: &Manifest) -> &StatefulSet {
    match manifest {
        Manifest::StatefulSet(stateful_set) => stateful_set,
        other => panic!("not a stateful set: {:?}", other),
    }
}

fn as_deployment(manifest: &Manifest) -> &Deployment {
    match manifest {
        Manifest::Deployment(deployment) => deployment,
        other => panic!("not a deployment: {:?}", other),
    }
}

fn as_service(manifest: &Manifest) -> &Service {
    match manifest {
        Manifest::Service(service) => service,
        other => panic!("not a service: {:?}", other),
    }
}

fn only_container(containers: &Vec<Container>) -> &Container {
    assert_eq!(containers.len(), 1);
    &containers[0]
}

fn ports_of(container: &Container) -> Vec<(u16, bool)> {
    container
        .ports()
        .iter()
        .map(|p| {
            (
                p.container_port(),
                matches!(p.protocol(), ContainerPortProtocol::TCP),
            )
        })
        .collect()
}

fn service_ports_of(service: &Service) -> Vec<(u16, u16, Option<String>)> {
    service
        .spec()
        .ports()
        .iter()
        .map(|p| (p.port(), p.target_port(), p.name().cloned()))
        .collect()
}

#[test]
fn namespace_of_a_production_stack_is_its_name() {
    let stack = Stack::builder("example", Environment::Production).build();
    assert_eq!(stack.namespace(), vec!["example".to_string()]);
    assert_eq!(stack.namespace_name(), "example");
}

#[test]
fn namespace_of_an_ephemeral_stack_adds_the_environment() {
    let stack = Stack::builder("example", Environment::Ephemeral("alice".into())).build();
    assert_eq!(
        stack.namespace(),
        vec!["example".to_string(), "alice".to_string()]
    );
    assert_eq!(stack.namespace_name(), "example-alice");
}

#[test]
fn empty_stack_is_its_namespace_alone() {
    let stack = Stack::builder("example", Environment::Ephemeral("alice".into())).build();
    let manifests = stack.as_k8s();
    assert_eq!(manifests.len(), 1);
    match &manifests[0] {
        Manifest::Namespace(namespace) => {
            assert_eq!(namespace.api_version(), "v1");
            assert_eq!(namespace.kind(), "Namespace");
            assert_eq!(
                namespace.metadata(),
                &yaml_mapping(vec![("name", yaml_text("example-alice"))])
            );
        }
        other => panic!("not a namespace: {:?}", other),
    }
}

#[test]
fn postgresql_becomes_a_stateful_set_and_a_service() {
    let stack = Stack::builder("example", Environment::Production).build();
    let manifests = stack.postgresql(&PostgreSQL::new("pgvector".into()));
    assert_eq!(manifests.len(), 2);

    let stateful_set = as_stateful_set(&manifests[0]);
    assert_eq!(stateful_set.api_version(), "apps/v1");
    assert_eq!(stateful_set.kind(), "StatefulSet");
    assert_eq!(stateful_set.metadata().name(), "example-db");
    assert_eq!(stateful_set.metadata().namespace(), "example");
    assert_eq!(
        labels_of(stateful_set.metadata().labels()),
        vec![label("app", "example-db")]
    );
    let spec = stateful_set.spec();
    assert_eq!(spec.service_name(), "example-db-svc");
    assert_eq!(
        labels_of(spec.selector().match_labels()),
        vec![label("app", "example-db")]
    );
    assert_eq!(spec.template().metadata().name(), "example-db");
    assert_eq!(spec.template().metadata().namespace(), "example");
    assert_eq!(
        labels_of(spec.template().metadata().labels()),
        vec![label("app", "example-db")]
    );
    let container = only_container(spec.template().spec().containers());
    assert_eq!(container.image(), "pgvector");
    assert_eq!(container.image_pull_policy(), "IfNotPresent");
    assert_eq!(container.name(), "example-db");
    assert!(container.command().is_empty());
    assert_eq!(ports_of(container), vec![(5432, true)]);
    assert!(container.resources().is_none());
    assert_eq!(container.env().len(), 1);
    assert_eq!(container.env()[0].name(), "POSTGRES_PASSWORD");
    assert_eq!(
        container.env()[0].fixed_value(),
        Some(&"postgres".to_string())
    );
    assert!(container.env()[0].source().is_none());
    assert_eq!(container.volume_mounts().len(), 1);
    assert_eq!(container.volume_mounts()[0].name(), "example-db-vol");
    assert_eq!(
        container.volume_mounts()[0].mount_path(),
        "/var/lib/postgresql/data"
    );
    let claims = spec.volume_claim_templates();
    assert_eq!(claims.len(), 1);
    assert_eq!(claims[0].metadata().name(), "example-db-vol");
    assert_eq!(claims[0].metadata().namespace(), "example");
    assert!(claims[0].metadata().labels().is_empty());
    assert_eq!(claims[0].spec().access_modes().len(), 1);
    assert!(matches!(
        claims[0].spec().access_modes()[0],
        VolumeClaimAccessMode::ReadWriteOnce
    ));
    assert_eq!(
        claims[0].spec().resources(),
        &yaml_mapping(vec![(
            "requests",
            yaml_mapping(vec![("storage", yaml_text("5Gi"))])
        )])
    );

    let service = as_service(&manifests[1]);
    assert_eq!(service.api_version(), "v1");
    assert_eq!(service.kind(), "Service");
    assert_eq!(service.metadata().name(), "example-db-svc");
    assert_eq!(service.metadata().namespace(), "example");
    assert_eq!(
        labels_of(service.metadata().labels()),
        vec![label("app", "example-db")]
    );
    assert!(matches!(
        service.spec().service_type(),
        ServiceType::ClusterIP
    ));
    assert_eq!(
        labels_of(service.spec().selector()),
        vec![label("app", "example-db")]
    );
    assert_eq!(
        service_ports_of(service),
        vec![(5432, 5432, Some("db".to_string()))]
    );
}

#[test]
fn rabbitmq_becomes_a_stateful_set_and_a_service() {
    let stack = Stack::builder("example", Environment::Ephemeral("bob".into())).build();
    let manifests = stack.rabbitmq(&RabbitMQ::new("rabbitmq".into()));
    assert_eq!(manifests.len(), 2);

    let stateful_set = as_stateful_set(&manifests[0]);
    assert_eq!(stateful_set.metadata().name(), "example-bob-mq");
    assert_eq!(stateful_set.metadata().namespace(), "example-bob");
    assert_eq!(
        labels_of(stateful_set.metadata().labels()),
        vec![label("app", "example-bob-mq")]
    );
    let spec = stateful_set.spec();
    assert_eq!(spec.service_name(), "example-bob-mq-svc");
    assert_eq!(
        labels_of(spec.selector().match_labels()),
        vec![label("app", "example-bob-mq")]
    );
    assert_eq!(
        labels_of(spec.template().metadata().labels()),
        vec![label("app", "example-bob-mq")]
    );
    let container = only_container(spec.template().spec().containers());
    assert_eq!(container.image(), "rabbitmq");
    assert_eq!(container.name(), "example-bob-mq");
    assert_eq!(ports_of(container), vec![(5672, true), (15672, true)]);
    assert!(container.env().is_empty());
    assert_eq!(container.volume_mounts().len(), 1);
    assert_eq!(container.volume_mounts()[0].name(), "example-bob-mq-vol");
    assert_eq!(
        container.volume_mounts()[0].mount_path(),
        "/var/lib/postgresql/data"
    );
    let claims = spec.volume_claim_templates();
    assert_eq!(claims.len(), 1);
    assert_eq!(claims[0].metadata().name(), "example-bob-mq-vol");
    assert_eq!(claims[0].metadata().namespace(), "example-bob");

    let service = as_service(&manifests[1]);
    assert_eq!(service.metadata().name(), "example-bob-mq-svc");
    assert_eq!(service.metadata().namespace(), "example-bob");
    assert!(matches!(
        service.spec().service_type(),
        ServiceType::ClusterIP
    ));
    assert_eq!(
        labels_of(service.spec().selector()),
        vec![label("app", "example-bob-mq")]
    );
    assert_eq!(
        service_ports_of(service),
        vec![
            (5672, 5672, Some("amqp".to_string())),
            (15672, 15672, Some("web".to_string()))
        ]
    );
}

#[test]
fn nginx_becomes_a_deployment_and_a_service() {
    let stack = Stack::builder("example", Environment::Production).build();
    let manifests = stack.nginx(&Nginx::new("nginx".into(), 3));
    assert_eq!(manifests.len(), 2);

    let deployment = as_deployment(&manifests[0]);
    assert_eq!(deployment.api_version(), "apps/v1");
    assert_eq!(deployment.kind(), "Deployment");
    assert_eq!(deployment.metadata().name(), "example-web");
    assert_eq!(deployment.metadata().namespace(), "example");
    assert_eq!(
        labels_of(deployment.metadata().labels()),
        vec![label("app", "example-web")]
    );
    assert_eq!(deployment.spec().replicas(), 3);
    assert_eq!(
        labels_of(deployment.spec().selector().match_labels()),
        vec![label("app", "example-web")]
    );
    let template = deployment.spec().template();
    assert_eq!(template.metadata().namespace(), "example");
    assert_eq!(
        labels_of(template.metadata().labels()),
        vec![label("app", "example-web")]
    );
    let container = only_container(template.spec().containers());
    assert_eq!(container.image(), "nginx");
    assert_eq!(container.name(), "example-web");
    assert_eq!(ports_of(container), vec![(80, true)]);
    assert!(container.env().is_empty());
    assert!(container.volume_mounts().is_empty());
    assert!(template.spec().volumes().is_empty());

    let service = as_service(&manifests[1]);
    assert_eq!(service.metadata().name(), "example-web-svc");
    assert_eq!(service.metadata().namespace(), "example");
    assert_eq!(
        labels_of(service.metadata().labels()),
        vec![label("app", "example-web")]
    );
    assert!(matches!(
        service.spec().service_type(),
        ServiceType::LoadBalancer
    ));
    assert_eq!(
        labels_of(service.spec().selector()),
        vec![label("app", "example-web")]
    );
    assert_eq!(
        service_ports_of(service),
        vec![(80, 80, Some("web".to_string()))]
    );
}

#[test]
fn microservice_with_ports_becomes_a_deployment_and_a_service() {
    let stack = Stack::builder("example", Environment::Production).build();
    let manifests = stack.microservice(&Microservice::new(
        "my-api".into(),
        "v1".into(),
        2,
        "api".into(),
        vec![
            MicroservicePort::TCP {
                port: 8080,
                name: Some("web".to_string()),
            },
            MicroservicePort::UDP {
                port: 9125,
                name: None,
            },
        ],
    ));
    assert_eq!(manifests.len(), 2);

    let deployment = as_deployment(&manifests[0]);
    assert_eq!(deployment.metadata().name(), "example-api");
    assert_eq!(deployment.metadata().namespace(), "example");
    assert_eq!(
        labels_of(deployment.metadata().labels()),
        vec![
            label("app", "example-api"),
            label("role", "api"),
            label("version", "v1")
        ]
    );
    assert_eq!(deployment.spec().replicas(), 2);
    assert_eq!(
        labels_of(deployment.spec().selector().match_labels()),
        vec![label("app", "example-api")]
    );
    let template = deployment.spec().template();
    assert_eq!(template.metadata().namespace(), "example");
    assert_eq!(
        labels_of(template.metadata().labels()),
        vec![label("app", "example-api")]
    );
    let container = only_container(template.spec().containers());
    assert_eq!(container.image(), "my-api");
    assert_eq!(container.name(), "example-api");
    assert_eq!(ports_of(container), vec![(8080, true), (9125, false)]);

    let service = as_service(&manifests[1]);
    assert_eq!(service.metadata().name(), "example-api-svc");
    assert_eq!(service.metadata().namespace(), "example");
    assert_eq!(
        labels_of(service.metadata().labels()),
        vec![label("app", "example-api")]
    );
    assert!(matches!(
        service.spec().service_type(),
        ServiceType::LoadBalancer
    ));
    assert_eq!(
        labels_of(service.spec().selector()),
        vec![label("app", "example-api")]
    );
    assert_eq!(
        service_ports_of(service),
        vec![(8080, 8080, Some("web".to_string())), (9125, 9125, None)]
    );
}

#[test]
fn microservice_without_ports_has_no_service() {
    let stack = Stack::builder("example", Environment::Production).build();
    let manifests = stack.microservice(&Microservice::new(
        "my-queue-consumer".into(),
        "v1".into(),
        3,
        "qc".into(),
        Vec::new(),
    ));
    assert_eq!(manifests.len(), 1);
    let deployment = as_deployment(&manifests[0]);
    assert_eq!(deployment.metadata().name(), "example-qc");
    assert_eq!(deployment.spec().replicas(), 3);
    let container = only_container(deployment.spec().template().spec().containers());
    assert_eq!(container.image(), "my-queue-consumer");
    assert!(container.ports().is_empty());
}

fn full_stack() -> Stack {
    Stack::builder("example", Environment::Ephemeral("alice".to_string()))
        .with_resource(Resource::PosgreSQL(PostgreSQL::new("pgvector".to_string())))
        .with_resource(Resource::RabbitMQ(RabbitMQ::new("rabbitmq".to_string())))
        .with_resource(Resource::Nginx(Nginx::new("nginx".into(), 3)))
        .with_resource(Resource::Microservice(Microservice::new(
            "my-api".into(),
            "v1".into(),
            3,
            "api".into(),
            vec![MicroservicePort::TCP {
                port: 8080,
                name: Some("web".to_string()),
            }],
        )))
        .with_resource(Resource::Microservice(Microservice::new(
            "my-queue-consumer".into(),
            "v1".into(),
            3,
            "qc".into(),
            Vec::default(),
        )))
        .build()
}

fn name_of(manifest: &Manifest) -> String {
    match manifest {
        Manifest::Namespace(namespace) => match namespace.metadata() {
            Value::Mapping(m) => match m.get("name") {
                Some(Value::String(name)) => name.clone(),
                other => panic!("no name: {:?}", other),
            },
            other => panic!("not a mapping: {:?}", other),
        },
        Manifest::StatefulSet(s) => s.metadata().name().clone(),
        Manifest::Deployment(d) => d.metadata().name().clone(),
        Manifest::Service(s) => s.metadata().name().clone(),
    }
}

fn kind_of(manifest: &Manifest) -> String {
    match manifest {
        Manifest::Namespace(namespace) => namespace.kind().clone(),
        Manifest::StatefulSet(s) => s.kind().clone(),
        Manifest::Deployment(d) => d.kind().clone(),
        Manifest::Service(s) => s.kind().clone(),
    }
}

#[test]
fn stack_becomes_its_namespace_and_then_each_resource_in_turn() {
    let manifests = full_stack().as_k8s();
    let listed: Vec<(String, String)> = manifests
        .iter()
        .map(|m| (kind_of(m), name_of(m)))
        .collect();
    let expected: Vec<(String, String)> = vec![
        ("Namespace", "example-alice"),
        ("StatefulSet", "example-alice-db"),
        ("Service", "example-alice-db-svc"),
        ("StatefulSet", "example-alice-mq"),
        ("Service", "example-alice-mq-svc"),
        ("Deployment", "example-alice-web"),
        ("Service", "example-alice-web-svc"),
        ("Deployment", "example-alice-api"),
        ("Service", "example-alice-api-svc"),
        ("Deployment", "example-alice-qc"),
    ]
    .into_iter()
    .map(|(kind, name)| (kind.to_string(), name.to_string()))
    .collect();
    assert_eq!(listed, expected);
}

#[test]
fn stack_made_at_once_is_the_stack_built_step_by_step() {
    let direct = Stack::new(
        "example".into(),
        Environment::Production,
        vec![
            Resource::Nginx(Nginx::new("nginx".into(), 1)),
            Resource::PosgreSQL(PostgreSQL::new("postgres".into())),
        ],
    );
    let built = Stack::builder("example", Environment::Production)
        .with_resource(Resource::Nginx(Nginx::new("nginx".into(), 1)))
        .with_resource(Resource::PosgreSQL(PostgreSQL::new("postgres".into())))
        .build();
    let listed = |stack: &Stack| -> Vec<(String, String)> {
        stack
            .as_k8s()
            .iter()
            .map(|m| (kind_of(m), name_of(m)))
            .collect()
    };
    assert_eq!(listed(&direct), listed(&built));
    assert_eq!(listed(&direct).len(), 5);
}

fn pod_labels_of(manifest: &Manifest) -> Option<Vec<(String, String)>> {
    match manifest {
        Manifest::StatefulSet(s) => Some(labels_of(s.spec().template().metadata().labels())),
        Manifest::Deployment(d) => Some(labels_of(d.spec().template().metadata().labels())),
        _ => None,
    }
}

#[test]
fn every_service_of_a_stack_leads_to_the_pods_before_it() {
    let manifests = full_stack().as_k8s();
    let mut services = 0;
    for (i, manifest) in manifests.iter().enumerate() {
        if let Manifest::Service(service) = manifest {
            services += 1;
            assert!(i >= 2);
            let pods = pod_labels_of(&manifests[i - 1]).expect("a workload before the service");
            for wanted in labels_of(service.spec().selector()) {
                assert!(pods.contains(&wanted));
            }
            assert!(!labels_of(service.spec().selector()).is_empty());
            let listened: Vec<u16> = match &manifests[i - 1] {
                Manifest::StatefulSet(s) => only_container(s.spec().template().spec().containers())
                    .ports()
                    .iter()
                    .map(|p| p.container_port())
                    .collect(),
                Manifest::Deployment(d) => only_container(d.spec().template().spec().containers())
                    .ports()
                    .iter()
                    .map(|p| p.container_port())
                    .collect(),
                other => panic!("not a workload: {:?}", other),
            };
            assert!(!service.spec().ports().is_empty());
            for port in service.spec().ports() {
                assert!(listened.contains(&port.target_port()));
            }
        }
    }
    assert_eq!(services, 4);
}

#[test]
fn every_workload_of_a_stack_finds_its_own_pods() {
    let manifests = full_stack().as_k8s();
    for manifest in manifests.iter() {
        let selector = match manifest {
            Manifest::StatefulSet(s) => labels_of(s.spec().selector().match_labels()),
            Manifest::Deployment(d) => labels_of(d.spec().selector().match_labels()),
            _ => continue,
        };
        let pods = pod_labels_of(manifest).unwrap();
        assert!(!selector.is_empty());
        for wanted in selector {
            assert!(pods.contains(&wanted));
        }
    }
}

#[test]
fn every_object_of_a_stack_lies_in_its_namespace() {
    let manifests = full_stack().as_k8s();
    assert!(matches!(manifests[0], Manifest::Namespace(_)));
    for manifest in manifests.iter().skip(1) {
        match manifest {
            Manifest::Namespace(_) => panic!("a second namespace"),
            Manifest::StatefulSet(s) => {
                assert_eq!(s.metadata().namespace(), "example-alice");
                assert_eq!(s.spec().template().metadata().namespace(), "example-alice");
                for claim in s.spec().volume_claim_templates() {
                    assert_eq!(claim.metadata().namespace(), "example-alice");
                }
            }
            Manifest::Deployment(d) => {
                assert_eq!(d.metadata().namespace(), "example-alice");
                assert_eq!(d.spec().template().metadata().namespace(), "example-alice");
            }
            Manifest::Service(s) => assert_eq!(s.metadata().namespace(), "example-alice"),
        }
    }
}

#[test]
fn every_stateful_set_of_a_stack_is_named_by_the_service_behind_it() {
    let manifests = full_stack().as_k8s();
    let mut stateful_sets = 0;
    for (i, manifest) in manifests.iter().enumerate() {
        if let Manifest::StatefulSet(stateful_set) = manifest {
            stateful_sets += 1;
            let service = as_service(&manifests[i + 1]);
            assert_eq!(stateful_set.spec().service_name(), service.metadata().name());
            let container = only_container(stateful_set.spec().template().spec().containers());
            let claims = stateful_set.spec().volume_claim_templates();
            assert_eq!(claims.len(), container.volume_mounts().len());
            for (claim, mount) in claims.iter().zip(container.volume_mounts().iter()) {
                assert_eq!(claim.metadata().name(), mount.name());
            }
        }
    }
    assert_eq!(stateful_sets, 2);
}

#[test]
fn two_runs_give_the_same_objects_label_for_label() {
    let describe = |manifests: &Vec<Manifest>| -> Vec<String> {
        manifests.iter().map(|m| format!("{:?}", m)).collect()
    };
    let first = full_stack().as_k8s();
    let second = full_stack().as_k8s();
    assert_eq!(describe(&first), describe(&second));
    let deployment = as_deployment(&first[7]);
    assert_eq!(
        labels_of(deployment.metadata().labels()),
        vec![
            label("app", "example-alice-api"),
            label("role", "api"),
            label("version", "v1")
        ]
    );
}
