use flagship::k8s::container::{
    Container, ContainerBuilder, ContainerPort, ContainerPortProtocol,
};
use flagship::k8s::deployment::{
    Deployment, DeploymentSpec, DeploymentTemplate, DeploymentTemplateMetadata,
    DeploymentTemplateMetadataBuilder, DeploymentTemplateSpec, DeploymentTemplateSpecBuilder,
};
use flagship::k8s::environment::{EnvironmentVariable, ValueFrom};
use flagship::k8s::labels::Labels;
use flagship::k8s::metadata::{Metadata, MetadataBuilder};
use flagship::k8s::namespace::Namespace;
use flagship::k8s::secret::{Secret, SecretBuilder, SecretType};
use flagship::k8s::selector::{Selector, SelectorBuilder};
use flagship::k8s::service::{Service, ServicePort, ServiceSpec, ServiceSpecBuilder, ServiceType};
use flagship::k8s::stateful_set::{
    StatefulSet, StatefulSetSpec, StatefulSetSpecBuilder, StatefulSetSpecTemplate,
    StatefulSetSpecTemplateSpec, StatefulSetSpecTemplateSpecBuilder,
};
use flagship::k8s::volume::{
    Volume, VolumeClaimAccessMode, VolumeClaimTemplate, VolumeClaimTemplateSpec,
    VolumeClaimTemplateSpecBuilder, VolumeMount,
};
use serde_yaml::{Mapping, Value};

fn text(s: &str) -> Value {
    Value::String(s.to_string())
}

fn mapping(entries: Vec<(&str, Value)>) -> Value {
    let mut m = Mapping::new();
    for (key, value) in entries {
        m.insert(text(key), value);
    }
    Value::Mapping(m)
}

fn label_pairs(labels: &Labels) -> Vec<(String, String)> {
    let mut pairs = Vec::new();
    for i in 0..labels.len() {
        pairs.push((labels.key_at(i).clone(), labels.value_at(i).clone()));
    }
    pairs
}

fn pair(key: &str, value: &str) -> (String, String) {
    (key.to_string(), value.to_string())
}

#[test]
fn deployment_usage() {
    let deployment = Deployment::new(
        Metadata::builder("example-deployment", "example")
            .with_label("example-label", "example-label-value")
            .build(),
        DeploymentSpec::new(
            3,
            Selector::builder()
                .with_match_label("app", "example-api-svc")
                .build(),
            DeploymentTemplate::new(
                DeploymentTemplateMetadata::builder("example")
                    .with_label("app", "example-api")
                    .build(),
                DeploymentTemplateSpec::builder()
                    .with_container(
                        Container::builder("example/image", "example-app", vec!["/usr/bin/app"])
                            .with_env(EnvironmentVariable::value("EXAMPLE_VAR", "example value"))
                            .with_port(ContainerPort::tcp(8080))
                            .with_volume_mount(VolumeMount::new("logs".into(), "/var/logs".into()))
                            .build(),
                    )
                    .with_volume(Volume::empty_dir("logs".into()))
                    .build(),
            ),
        ),
    );

    println!("{:?}", deployment);

    assert_eq!(deployment.api_version(), "apps/v1");
    assert_eq!(deployment.kind(), "Deployment");
    assert_eq!(deployment.metadata().name(), "example-deployment");
    assert_eq!(deployment.metadata().namespace(), "example");
    assert_eq!(
        label_pairs(deployment.metadata().labels()),
        vec![pair("example-label", "example-label-value")]
    );
    let spec = deployment.spec();
    assert_eq!(spec.replicas(), 3);
    assert_eq!(
        label_pairs(spec.selector().match_labels()),
        vec![pair("app", "example-api-svc")]
    );
    let template = spec.template();
    assert_eq!(template.metadata().namespace(), "example");
    assert_eq!(
        label_pairs(template.metadata().labels()),
        vec![pair("app", "example-api")]
    );
    let containers = template.spec().containers();
    assert_eq!(containers.len(), 1);
    let container = &containers[0];
    assert_eq!(container.image(), "example/image");
    assert_eq!(container.image_pull_policy(), "IfNotPresent");
    assert_eq!(container.name(), "example-app");
    assert_eq!(container.command(), &vec!["/usr/bin/app".to_string()]);
    assert_eq!(container.ports().len(), 1);
    assert_eq!(container.ports()[0].container_port(), 8080);
    assert!(matches!(
        container.ports()[0].protocol(),
        ContainerPortProtocol::TCP
    ));
    assert!(container.resources().is_none());
    assert_eq!(container.env().len(), 1);
    assert_eq!(container.env()[0].name(), "EXAMPLE_VAR");
    assert_eq!(
        container.env()[0].fixed_value(),
        Some(&"example value".to_string())
    );
    assert!(container.env()[0].source().is_none());
    assert_eq!(container.volume_mounts().len(), 1);
    assert_eq!(container.volume_mounts()[0].name(), "logs");
    assert_eq!(container.volume_mounts()[0].mount_path(), "/var/logs");
    let volumes = template.spec().volumes();
    assert_eq!(volumes.len(), 1);
    assert_eq!(volumes[0].name(), "logs");
    assert_eq!(volumes[0].empty_dir_source(), Some(&mapping(vec![])));
    assert_eq!(volumes[0].config_map_source(), None);
}

#[test]
fn stateful_set_usage() {
    let stateful_set = StatefulSet::new(
        Metadata::builder("database", "example")
            .with_label("app", "example-db")
            .build(),
        StatefulSetSpec::builder(
            "example-db".into(),
            Selector::builder()
                .with_match_label("app", "example-db")
                .build(),
            StatefulSetSpecTemplate::new(
                Metadata::builder("example-db", "example")
                    .with_label("app", "example-db")
                    .build(),
                StatefulSetSpecTemplateSpec::builder()
                    .with_container(
                        Container::builder("pgsql", "example-db", vec!["/usr/bin/postgres"])
                            .with_env(("PG_USER", "example").into())
                            .with_port(ContainerPort::tcp(5432))
                            .with_volume_mount(VolumeMount::new(
                                "example-db-vol".into(),
                                "/var/lib/data".into(),
                            ))
                            .build(),
                    )
                    .build(),
            ),
        )
        .with_volume_claim_template(VolumeClaimTemplate::new(
            Metadata::builder("example-db-vol", "example").build(),
            VolumeClaimTemplateSpec::builder(VolumeClaimTemplateSpec::storage_resources(
                "5Gi".into(),
            ))
            .with_access_mode(VolumeClaimAccessMode::ReadWriteOnce)
            .build(),
        ))
        .build(),
    );

    println!("{:?}", stateful_set);

    assert_eq!(stateful_set.api_version(), "apps/v1");
    assert_eq!(stateful_set.kind(), "StatefulSet");
    assert_eq!(stateful_set.metadata().name(), "database");
    assert_eq!(stateful_set.metadata().namespace(), "example");
    assert_eq!(
        label_pairs(stateful_set.metadata().labels()),
        vec![pair("app", "example-db")]
    );
    let spec = stateful_set.spec();
    assert_eq!(spec.service_name(), "example-db");
    assert_eq!(
        label_pairs(spec.selector().match_labels()),
        vec![pair("app", "example-db")]
    );
    assert_eq!(spec.template().metadata().name(), "example-db");
    let containers = spec.template().spec().containers();
    assert_eq!(containers.len(), 1);
    assert_eq!(containers[0].image(), "pgsql");
    assert_eq!(containers[0].name(), "example-db");
    assert_eq!(containers[0].command(), &vec!["/usr/bin/postgres".to_string()]);
    assert_eq!(containers[0].env()[0].name(), "PG_USER");
    assert_eq!(
        containers[0].env()[0].fixed_value(),
        Some(&"example".to_string())
    );
    assert_eq!(containers[0].ports()[0].container_port(), 5432);
    assert_eq!(containers[0].volume_mounts()[0].name(), "example-db-vol");
    assert_eq!(containers[0].volume_mounts()[0].mount_path(), "/var/lib/data");
    let claims = spec.volume_claim_templates();
    assert_eq!(claims.len(), 1);
    assert_eq!(claims[0].metadata().name(), "example-db-vol");
    assert_eq!(claims[0].metadata().namespace(), "example");
    assert!(claims[0].metadata().labels().is_empty());
    assert_eq!(claims[0].spec().access_modes().len(), 1);
    assert!(matches!(
        claims[0].spec().access_modes()[0],
        VolumeClaimAccessMode::ReadWriteOnce
    ));
    assert_eq!(
        claims[0].spec().resources(),
        &mapping(vec![("requests", mapping(vec![("storage", text("5Gi"))]))])
    );
}

#[test]
fn test_serialize() {
    let env = vec![
        EnvironmentVariable::value("TEST", "test"),
        EnvironmentVariable::value_from(
            "FIELD",
            ValueFrom::FieldRef {
                field_path: "metadata.name".into(),
            },
        ),
        EnvironmentVariable::value_from(
            "SECRET",
            ValueFrom::SecretKeyRef {
                key: "key".into(),
                name: "secret".into(),
                optional: false,
            },
        ),
    ];

    println!("{:?}", env);

    assert_eq!(env[0].name(), "TEST");
    assert_eq!(env[0].fixed_value(), Some(&"test".to_string()));
    assert!(env[0].source().is_none());

    assert_eq!(env[1].name(), "FIELD");
    assert!(env[1].fixed_value().is_none());
    match env[1].source() {
        Some(ValueFrom::FieldRef { field_path }) => assert_eq!(field_path, "metadata.name"),
        other => panic!("unexpected source: {:?}", other),
    }

    assert_eq!(env[2].name(), "SECRET");
    assert!(env[2].fixed_value().is_none());
    match env[2].source() {
        Some(ValueFrom::SecretKeyRef {
            key,
            name,
            optional,
        }) => {
            assert_eq!(key, "key");
            assert_eq!(name, "secret");
            assert!(!*optional);
        }
        other => panic!("unexpected source: {:?}", other),
    }
}

#[test]
fn environment_variable_copies_hold_the_same() {
    let variable = EnvironmentVariable::value_from(
        "CPU",
        ValueFrom::ResourceFieldRef {
            resource: "limits.cpu".into(),
            container_name: "api".into(),
            divisor: "1m".into(),
        },
    );
    let copy = variable.clone();
    assert_eq!(copy.name(), "CPU");
    assert!(copy.fixed_value().is_none());
    match copy.source() {
        Some(ValueFrom::ResourceFieldRef {
            resource,
            container_name,
            divisor,
        }) => {
            assert_eq!(resource, "limits.cpu");
            assert_eq!(container_name, "api");
            assert_eq!(divisor, "1m");
        }
        other => panic!("unexpected source: {:?}", other),
    }
}

#[test]
fn label_set_twice_keeps_its_place_and_takes_the_new_value() {
    let metadata = Metadata::builder("name", "ns")
        .with_label("app", "one")
        .with_label("tier", "web")
        .with_label("app", "two")
        .build();
    assert_eq!(
        label_pairs(metadata.labels()),
        vec![pair("app", "two"), pair("tier", "web")]
    );
    assert_eq!(metadata.labels().len(), 2);
    assert_eq!(metadata.labels().get("app"), Some(&"two".to_string()));
    assert_eq!(metadata.labels().get("tier"), Some(&"web".to_string()));
    assert_eq!(metadata.labels().get("missing"), None);
    assert!(!metadata.labels().is_empty());
}

#[test]
fn metadata_without_labels_is_empty() {
    let metadata = Metadata::builder("name", "ns").build();
    assert_eq!(metadata.name(), "name");
    assert_eq!(metadata.namespace(), "ns");
    assert!(metadata.labels().is_empty());
    assert_eq!(metadata.labels().len(), 0);
}

#[test]
fn metadata_copy_holds_the_same() {
    let metadata = Metadata::builder("name", "ns")
        .with_label("a", "1")
        .with_label("b", "2")
        .build();
    let copy = metadata.clone();
    assert_eq!(copy.name(), "name");
    assert_eq!(copy.namespace(), "ns");
    assert_eq!(
        label_pairs(copy.labels()),
        vec![pair("a", "1"), pair("b", "2")]
    );
}

#[test]
fn container_ports_keep_their_protocol() {
    let tcp = ContainerPort::tcp(80);
    let udp = ContainerPort::udp(53);
    let made = ContainerPort::new(443, ContainerPortProtocol::TCP);
    assert_eq!(tcp.container_port(), 80);
    assert!(matches!(tcp.protocol(), ContainerPortProtocol::TCP));
    assert_eq!(udp.container_port(), 53);
    assert!(matches!(udp.protocol(), ContainerPortProtocol::UDP));
    assert_eq!(made.container_port(), 443);
    assert!(matches!(made.protocol(), ContainerPortProtocol::TCP));
}

#[test]
fn container_resources_are_carried_through() {
    let resources = mapping(vec![("limits", mapping(vec![("cpu", text("500m"))]))]);
    let container = Container::builder("image", "name", vec![])
        .with_resources(text("replaced"))
        .with_resources(resources.clone())
        .build();
    assert_eq!(container.resources(), Some(&resources));
    assert!(container.command().is_empty());
    assert!(container.ports().is_empty());
    assert!(container.env().is_empty());
    assert!(container.volume_mounts().is_empty());
}

#[test]
fn container_parts_keep_their_order() {
    let container = Container::builder("image", "name", vec!["run", "--fast"])
        .with_port(ContainerPort::tcp(1))
        .with_port(ContainerPort::udp(2))
        .with_env(EnvironmentVariable::value("A", "1"))
        .with_env(EnvironmentVariable::value("B", "2"))
        .with_volume_mount(VolumeMount::new("x".into(), "/x".into()))
        .with_volume_mount(VolumeMount::new("y".into(), "/y".into()))
        .build();
    assert_eq!(
        container.command(),
        &vec!["run".to_string(), "--fast".to_string()]
    );
    assert_eq!(container.ports()[0].container_port(), 1);
    assert_eq!(container.ports()[1].container_port(), 2);
    assert_eq!(container.env()[0].name(), "A");
    assert_eq!(container.env()[1].name(), "B");
    assert_eq!(container.volume_mounts()[0].name(), "x");
    assert_eq!(container.volume_mounts()[1].mount_path(), "/y");
}

#[test]
fn volume_of_a_config_map_names_it() {
    let volume = Volume::config_map("settings".into(), "app-settings".into());
    assert_eq!(volume.name(), "settings");
    assert_eq!(volume.empty_dir_source(), None);
    assert_eq!(
        volume.config_map_source(),
        Some(&mapping(vec![("name", text("app-settings"))]))
    );
}

#[test]
fn empty_dir_volume_has_an_empty_mapping() {
    let volume = Volume::empty_dir("scratch".into());
    assert_eq!(volume.name(), "scratch");
    assert_eq!(
        volume.empty_dir_source(),
        Some(&Value::Mapping(Mapping::new()))
    );
    assert_eq!(volume.config_map_source(), None);
}

#[test]
fn storage_resources_ask_for_the_amount() {
    assert_eq!(
        VolumeClaimTemplateSpec::storage_resources("10Gi".into()),
        mapping(vec![("requests", mapping(vec![("storage", text("10Gi"))]))])
    );
}

#[test]
fn volume_claim_keeps_resources_and_modes() {
    let spec = VolumeClaimTemplateSpec::builder(text("anything")).build();
    assert_eq!(spec.resources(), &text("anything"));
    assert!(spec.access_modes().is_empty());
    let spec = spec
        .with_access_mode(VolumeClaimAccessMode::ReadWriteOnce)
        .with_access_mode(VolumeClaimAccessMode::ReadWriteOnce);
    assert_eq!(spec.access_modes().len(), 2);
}

#[test]
fn namespace_metadata_holds_the_name() {
    let namespace = Namespace::new("example-alice".into());
    assert_eq!(namespace.api_version(), "v1");
    assert_eq!(namespace.kind(), "Namespace");
    assert_eq!(
        namespace.metadata(),
        &mapping(vec![("name", text("example-alice"))])
    );
}

#[test]
fn service_keeps_type_selector_and_ports() {
    let service = Service::new(
        Metadata::builder("api-svc", "example").build(),
        ServiceSpec::builder(ServiceType::ClusterIP)
            .with_selector("app", "api")
            .with_port(80, 8080, Some("http"))
            .with_port(53, 53, None)
            .build(),
    );
    assert_eq!(service.api_version(), "v1");
    assert_eq!(service.kind(), "Service");
    assert_eq!(service.metadata().name(), "api-svc");
    let spec = service.spec();
    assert!(matches!(spec.service_type(), ServiceType::ClusterIP));
    assert_eq!(label_pairs(spec.selector()), vec![pair("app", "api")]);
    assert_eq!(spec.ports().len(), 2);
    assert_eq!(spec.ports()[0].port(), 80);
    assert_eq!(spec.ports()[0].target_port(), 8080);
    assert_eq!(spec.ports()[0].name(), Some(&"http".to_string()));
    assert_eq!(spec.ports()[1].port(), 53);
    assert_eq!(spec.ports()[1].target_port(), 53);
    assert_eq!(spec.ports()[1].name(), None);
}

#[test]
fn service_port_made_directly() {
    let port = ServicePort::new(443, 8443, None);
    assert_eq!(port.port(), 443);
    assert_eq!(port.target_port(), 8443);
    assert_eq!(port.name(), None);
    let named = ServicePort::new(1, 2, Some("one"));
    assert_eq!(named.name(), Some(&"one".to_string()));
}

#[test]
fn secret_keeps_its_data() {
    let secret = Secret::builder(
        SecretType::Opaque,
        Metadata::builder("credentials", "example").build(),
    )
    .with_data("user", text("YWRtaW4="))
    .with_data("password", text("b2xk"))
    .with_data("password", text("bmV3"))
    .build();
    assert_eq!(secret.api_version(), "v1");
    assert_eq!(secret.kind(), "Secret");
    assert_eq!(secret.metadata().name(), "credentials");
    assert!(matches!(secret.secret_type(), SecretType::Opaque));
    let data = secret.data();
    assert_eq!(data.len(), 2);
    assert_eq!(data.key_at(0), "user");
    assert_eq!(data.value_at(0), &text("YWRtaW4="));
    assert_eq!(data.key_at(1), "password");
    assert_eq!(data.value_at(1), &text("bmV3"));
    assert_eq!(data.get("password"), Some(&text("bmV3")));
    assert_eq!(data.get("token"), None);
}

#[test]
fn selector_without_labels_is_empty() {
    let selector = Selector::builder().build();
    assert!(selector.match_labels().is_empty());
}

#[test]
fn labels_of_every_builder_keep_the_order_in_which_they_came() {
    let metadata = Metadata::builder("n", "ns")
        .with_label("zeta", "1")
        .with_label("alpha", "2")
        .with_label("mid", "3")
        .with_label("alpha", "4")
        .build();
    assert_eq!(
        label_pairs(metadata.labels()),
        vec![pair("zeta", "1"), pair("alpha", "4"), pair("mid", "3")]
    );
    let selector = Selector::builder()
        .with_match_label("b", "1")
        .with_match_label("a", "2")
        .build();
    assert_eq!(
        label_pairs(selector.match_labels()),
        vec![pair("b", "1"), pair("a", "2")]
    );
    let pods = DeploymentTemplateMetadata::builder("ns")
        .with_label("b", "1")
        .with_label("a", "2")
        .build();
    assert_eq!(label_pairs(pods.labels()), vec![pair("b", "1"), pair("a", "2")]);
    let spec = ServiceSpec::builder(ServiceType::ClusterIP)
        .with_selector("b", "1")
        .with_selector("a", "2")
        .with_selector("b", "3")
        .build();
    assert_eq!(label_pairs(spec.selector()), vec![pair("b", "3"), pair("a", "2")]);
}
