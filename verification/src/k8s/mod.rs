//! The Kubernetes objects that a manifest is made of, and the documents
//! that the resources of a cluster become.

pub mod container;
pub mod deployment;
pub mod environment;
pub mod labels;
pub mod metadata;
pub mod namespace;
pub mod secret;
pub mod selector;
pub mod service;
pub mod stateful_set;
pub mod volume;

use crate::flagship::{
    Cluster, ClusterConfig, Command, Directory, Environment, EnvironmentValue, Image, Name,
    PostgreSQL, RabbitMQ, Resource, StatelessApplication,
};
use crate::text::{hyphenate, hyphenated};
use crate::yaml::{
    collected_distinct, docs, empty_mapping, entry, field, items, keyed, mapping_of, pair_docs,
    position_of_a_key, sequence_value, single_entry, text_value, value_doc, Doc,
};
use vstd::prelude::*;
use vstd::std_specs::convert::FromSpecImpl;

verus! {

/// The document of a command: the sequence of its words.
pub open spec fn command_doc(command: Command) -> Doc {
    Doc::List(command.0@.map_values(|word: String| Doc::Text(word@)))
}

/// The document of one environment variable: its name and its value.
pub open spec fn variable_doc(variable: (Name, EnvironmentValue)) -> Doc {
    match variable.1 {
        EnvironmentValue::Static(value) => Doc::Dict(
            seq![keyed("name"@, Doc::Text(variable.0.0@)), keyed("value"@, Doc::Text(value@))],
        ),
    }
}

/// The document of an environment: the sequence of its variables.
pub open spec fn environment_doc(environment: Environment) -> Doc {
    Doc::List(environment.0@.map_values(|variable: (Name, EnvironmentValue)| variable_doc(variable)))
}

/// The metadata of the deployment of `application`.
pub open spec fn deployment_metadata_doc(application: StatelessApplication, config: ClusterConfig) -> Doc {
    Doc::Dict(
        seq![
            keyed("name"@, Doc::Text(application.name.0@)),
            keyed("namespace"@, Doc::Text(config.cluster_name.0@)),
            keyed("labels"@, Doc::Dict(seq![keyed("app"@, Doc::Text(application.name.0@))])),
        ],
    )
}

/// The name of the volume that holds the logs of an application.
pub open spec fn logs_volume() -> Seq<char> {
    "logs"@
}

/// The volume `name` of a pod, an empty directory.
pub open spec fn empty_volume_doc(name: Seq<char>) -> Doc {
    Doc::Dict(seq![keyed("name"@, Doc::Text(name)), keyed("emptyDir"@, Doc::Dict(Seq::empty()))])
}

/// The container of `application`: its image, command and environment, and
/// the mount of the volume of its logs.
pub open spec fn application_container_doc(application: StatelessApplication) -> Doc {
    Doc::Dict(
        seq![
            keyed("image"@, Doc::Text(application.image.0@)),
            keyed("imagePullPolicy"@, Doc::Text("IfNotPresent"@)),
            keyed("command"@, command_doc(application.command)),
            keyed("env"@, environment_doc(application.environment)),
            keyed(
                "volumeMounts"@,
                Doc::List(
                    seq![
                        Doc::Dict(
                            seq![
                                keyed("name"@, Doc::Text(logs_volume())),
                                keyed("mountPath"@, Doc::Text(application.logs.0@)),
                            ],
                        ),
                    ],
                ),
            ),
        ],
    )
}

/// The specification of the deployment of `application`: its container and
/// the volume of its logs, under the name by which the container mounts it.
pub open spec fn deployment_spec_doc(application: StatelessApplication) -> Doc {
    Doc::Dict(
        seq![
            keyed("containers"@, Doc::List(seq![application_container_doc(application)])),
            keyed("volumes"@, Doc::List(seq![empty_volume_doc(logs_volume())])),
        ],
    )
}

/// The deployment of `application` in the cluster of `config`.
pub open spec fn deployment_doc(application: StatelessApplication, config: ClusterConfig) -> Doc {
    Doc::Dict(
        seq![
            keyed("apiVersion"@, Doc::Text("apps/v1"@)),
            keyed("kind"@, Doc::Text("Deployment"@)),
            keyed("metadata"@, deployment_metadata_doc(application, config)),
            keyed("spec"@, deployment_spec_doc(application)),
        ],
    )
}

/// The name of the service of the application `name`.
pub open spec fn service_name(name: Seq<char>) -> Seq<char> {
    name + "-svc"@
}

/// The service of `application` in the cluster of `config`: behind a load
/// balancer, it leads to the pods that carry the application's name.
pub open spec fn service_doc(application: StatelessApplication, config: ClusterConfig) -> Doc {
    Doc::Dict(
        seq![
            keyed("apiVersion"@, Doc::Text("v1"@)),
            keyed("kind"@, Doc::Text("Service"@)),
            keyed(
                "metadata"@,
                Doc::Dict(
                    seq![
                        keyed("name"@, Doc::Text(service_name(application.name.0@))),
                        keyed("namespace"@, Doc::Text(config.cluster_name.0@)),
                    ],
                ),
            ),
            keyed(
                "spec"@,
                Doc::Dict(
                    seq![
                        keyed("type"@, Doc::Text("LoadBalancer"@)),
                        keyed("selector"@, Doc::Dict(seq![keyed("app"@, Doc::Text(application.name.0@))])),
                    ],
                ),
            ),
        ],
    )
}

/// The documents of `application`: its deployment and its service.
pub open spec fn stateless_application_docs(application: StatelessApplication, config: ClusterConfig) -> Seq<Doc> {
    seq![deployment_doc(application, config), service_doc(application, config)]
}

/// The labels of the application `name`: its name under `app`.
pub open spec fn app_labels_doc(name: Seq<char>) -> Doc {
    Doc::Dict(seq![keyed("app"@, Doc::Text(name))])
}

/// The one container of a stateful service.
pub open spec fn stateful_container_doc(name: Seq<char>, image: Seq<char>) -> Doc {
    Doc::Dict(
        seq![
            keyed("image"@, Doc::Text(image)),
            keyed("imagePullPolicy"@, Doc::Text("IfNotPresent"@)),
            keyed("name"@, Doc::Text(name)),
        ],
    )
}

/// The template of the pods of a stateful service: they carry its name as
/// their label and run its one container.
pub open spec fn stateful_template_doc(name: Seq<char>, image: Seq<char>) -> Doc {
    Doc::Dict(
        seq![
            keyed("metadata"@, Doc::Dict(seq![keyed("labels"@, app_labels_doc(name))])),
            keyed(
                "spec"@,
                Doc::Dict(
                    seq![keyed("containers"@, Doc::List(seq![stateful_container_doc(name, image)]))],
                ),
            ),
        ],
    )
}

/// The specification of a stateful service: it is named by its service and
/// finds the pods that carry its name, which its template makes.
pub open spec fn stateful_spec_doc(name: Seq<char>, image: Seq<char>) -> Doc {
    Doc::Dict(
        seq![
            keyed("serviceName"@, Doc::Text(service_name(name))),
            keyed("selector"@, Doc::Dict(seq![keyed("matchLabels"@, app_labels_doc(name))])),
            keyed("template"@, stateful_template_doc(name, image)),
        ],
    )
}

/// The stateful set of a service of the cluster that runs `image` under
/// `role`. Its name is the cluster's name and the role.
pub open spec fn stateful_set_doc(config: ClusterConfig, role: Seq<char>, image: Seq<char>) -> Doc {
    let name = hyphenated(config.cluster_name.0@, role);
    Doc::Dict(
        seq![
            keyed("apiVersion"@, Doc::Text("apps/v1"@)),
            keyed("kind"@, Doc::Text("StatefulSet"@)),
            keyed(
                "metadata"@,
                Doc::Dict(
                    seq![
                        keyed("name"@, Doc::Text(name)),
                        keyed("namespace"@, Doc::Text(config.cluster_name.0@)),
                        keyed("labels"@, app_labels_doc(name)),
                    ],
                ),
            ),
            keyed("spec"@, stateful_spec_doc(name, image)),
        ],
    )
}

/// The document of the database of a cluster: a stateful set under the role
/// `db`.
pub open spec fn postgres_doc(config: ClusterConfig) -> Doc {
    stateful_set_doc(config, "db"@, "postgres"@)
}

/// The document of the message queue of a cluster: a stateful set under the
/// role `mq`.
pub open spec fn rabbitmq_doc(config: ClusterConfig) -> Doc {
    stateful_set_doc(config, "mq"@, "rabbitmq"@)
}

/// The documents of a resource: one for a database, one for a message
/// queue, two for a stateless application.
pub open spec fn resource_docs(config: ClusterConfig, resource: Resource) -> Seq<Doc> {
    match resource {
        Resource::PostgreSQL(_) => seq![postgres_doc(config)],
        Resource::RabbitMQ(_) => seq![rabbitmq_doc(config)],
        Resource::StatelessApplication(application) => stateless_application_docs(application, config),
    }
}

/// The documents of `resources`, resource after resource.
pub open spec fn resources_docs(config: ClusterConfig, resources: Seq<Resource>) -> Seq<Doc>
    decreases resources.len(),
{
    if resources.len() == 0 {
        Seq::empty()
    } else {
        resources_docs(config, resources.drop_last()) + resource_docs(config, resources.last())
    }
}

/// Every resource of a cluster has a document: a cluster has at least as
/// many documents as resources.
pub proof fn every_resource_has_a_document(config: ClusterConfig, resources: Seq<Resource>)
    ensures
        forall|i: int| 0 <= i < resources.len() ==> resource_docs(config, #[trigger] resources[i]).len() >= 1,
        resources_docs(config, resources).len() >= resources.len(),
    decreases resources.len(),
{
    if resources.len() > 0 {
        every_resource_has_a_document(config, resources.drop_last());
    }
}

/// In the deployment of a stateless application, every volume that a
/// container mounts is a volume of the pod: the mount's name is the name of
/// one of the volumes.
pub proof fn every_mount_has_its_volume(application: StatelessApplication, config: ClusterConfig)
    ensures
        ({
            let spec = field(deployment_doc(application, config), "spec"@);
            let containers = items(field(spec, "containers"@));
            let volumes = items(field(spec, "volumes"@));
            forall|c: int, m: int|
                #![trigger items(field(containers[c], "volumeMounts"@))[m]]
                0 <= c < containers.len() && 0 <= m < items(
                    field(containers[c], "volumeMounts"@),
                ).len() ==> exists|v: int|
                    0 <= v < volumes.len() && field(#[trigger] volumes[v], "name"@) == field(
                        items(field(containers[c], "volumeMounts"@))[m],
                        "name"@,
                    )
        }),
{
    head_keys_differ();
    container_keys_differ();
    other_keys_differ();
    let document = deployment_doc(application, config);
    position_of_a_key(document->Dict_0, Doc::Text("spec"@), 3);
    let spec = field(document, "spec"@);
    assert(spec == deployment_spec_doc(application));
    position_of_a_key(spec->Dict_0, Doc::Text("containers"@), 0);
    position_of_a_key(spec->Dict_0, Doc::Text("volumes"@), 1);
    let containers = items(field(spec, "containers"@));
    let volumes = items(field(spec, "volumes"@));
    assert(containers =~= seq![application_container_doc(application)]);
    assert(volumes =~= seq![empty_volume_doc(logs_volume())]);
    let container = application_container_doc(application);
    position_of_a_key(container->Dict_0, Doc::Text("volumeMounts"@), 4);
    let mounts = items(field(container, "volumeMounts"@));
    assert(mounts.len() == 1);
    position_of_a_key(mounts[0]->Dict_0, Doc::Text("name"@), 0);
    position_of_a_key(volumes[0]->Dict_0, Doc::Text("name"@), 0);
    assert(field(volumes[0], "name"@) == field(mounts[0], "name"@));
    assert forall|c: int, m: int|
        #![trigger items(field(containers[c], "volumeMounts"@))[m]]
        0 <= c < containers.len() && 0 <= m < items(
            field(containers[c], "volumeMounts"@),
        ).len() implies exists|v: int|
        0 <= v < volumes.len() && field(#[trigger] volumes[v], "name"@) == field(
            items(field(containers[c], "volumeMounts"@))[m],
            "name"@,
        ) by {
        assert(containers[c] == container);
        assert(field(volumes[0], "name"@) == field(mounts[m], "name"@));
    }
}

/// The service of a stateless application leads to the pods of its
/// deployment: it selects by the labels that the deployment carries.
pub proof fn service_selects_the_deployment(application: StatelessApplication, config: ClusterConfig)
    ensures
        field(field(service_doc(application, config), "spec"@), "selector"@) == field(
            field(deployment_doc(application, config), "metadata"@),
            "labels"@,
        ),
        field(field(service_doc(application, config), "metadata"@), "namespace"@) == field(
            field(deployment_doc(application, config), "metadata"@),
            "namespace"@,
        ),
{
    head_keys_differ();
    metadata_keys_differ();
    other_keys_differ();
    let service = service_doc(application, config);
    let deployment = deployment_doc(application, config);
    position_of_a_key(service->Dict_0, Doc::Text("spec"@), 3);
    position_of_a_key(service->Dict_0, Doc::Text("metadata"@), 2);
    position_of_a_key(deployment->Dict_0, Doc::Text("metadata"@), 2);
    position_of_a_key(field(service, "spec"@)->Dict_0, Doc::Text("selector"@), 1);
    position_of_a_key(field(service, "metadata"@)->Dict_0, Doc::Text("namespace"@), 1);
    position_of_a_key(field(deployment, "metadata"@)->Dict_0, Doc::Text("labels"@), 2);
    position_of_a_key(field(deployment, "metadata"@)->Dict_0, Doc::Text("namespace"@), 1);
}

/// The keys of an object's head differ from each other.
proof fn head_keys_differ()
    ensures
        "apiVersion"@ != "kind"@,
        "apiVersion"@ != "metadata"@,
        "apiVersion"@ != "spec"@,
        "kind"@ != "metadata"@,
        "kind"@ != "spec"@,
        "metadata"@ != "spec"@,
{
    reveal_strlit("apiVersion");
    assert("apiVersion"@.len() == 10);
    reveal_strlit("kind");
    assert("kind"@.len() == 4);
    reveal_strlit("metadata");
    assert("metadata"@.len() == 8);
    reveal_strlit("spec");
    assert("spec"@.len() == 4);
    assert("kind"@[0] != "spec"@[0]);
}

/// The keys of an object's metadata differ from each other.
proof fn metadata_keys_differ()
    ensures
        "name"@ != "namespace"@,
        "name"@ != "labels"@,
        "namespace"@ != "labels"@,
{
    reveal_strlit("name");
    assert("name"@.len() == 4);
    reveal_strlit("namespace");
    assert("namespace"@.len() == 9);
    reveal_strlit("labels");
    assert("labels"@.len() == 6);
}

/// The keys of a container differ from each other.
proof fn container_keys_differ()
    ensures
        "image"@ != "imagePullPolicy"@,
        "image"@ != "command"@,
        "image"@ != "env"@,
        "image"@ != "volumeMounts"@,
        "imagePullPolicy"@ != "command"@,
        "imagePullPolicy"@ != "env"@,
        "imagePullPolicy"@ != "volumeMounts"@,
        "command"@ != "env"@,
        "command"@ != "volumeMounts"@,
        "env"@ != "volumeMounts"@,
{
    reveal_strlit("image");
    assert("image"@.len() == 5);
    reveal_strlit("imagePullPolicy");
    assert("imagePullPolicy"@.len() == 15);
    reveal_strlit("command");
    assert("command"@.len() == 7);
    reveal_strlit("env");
    assert("env"@.len() == 3);
    reveal_strlit("volumeMounts");
    assert("volumeMounts"@.len() == 12);
}

/// The keys of the specification of a stateful set differ from each other,
/// and so do the keys of its container.
proof fn stateful_keys_differ()
    ensures
        "serviceName"@ != "selector"@,
        "serviceName"@ != "template"@,
        "selector"@ != "template"@,
        "image"@ != "name"@,
        "imagePullPolicy"@ != "name"@,
{
    reveal_strlit("serviceName");
    assert("serviceName"@.len() == 11);
    reveal_strlit("selector");
    assert("selector"@.len() == 8);
    reveal_strlit("template");
    assert("template"@.len() == 8);
    assert("selector"@[0] != "template"@[0]);
    reveal_strlit("image");
    assert("image"@.len() == 5);
    reveal_strlit("imagePullPolicy");
    assert("imagePullPolicy"@.len() == 15);
    reveal_strlit("name");
    assert("name"@.len() == 4);
}

/// The other keys of the documents differ where they stand together.
proof fn other_keys_differ()
    ensures
        "name"@ != "mountPath"@,
        "name"@ != "value"@,
        "name"@ != "emptyDir"@,
        "containers"@ != "volumes"@,
        "type"@ != "selector"@,
{
    reveal_strlit("value");
    assert("value"@.len() == 5);
    reveal_strlit("emptyDir");
    assert("emptyDir"@.len() == 8);
    reveal_strlit("name");
    assert("name"@.len() == 4);
    reveal_strlit("mountPath");
    assert("mountPath"@.len() == 9);
    reveal_strlit("containers");
    assert("containers"@.len() == 10);
    reveal_strlit("volumes");
    assert("volumes"@.len() == 7);
    reveal_strlit("type");
    assert("type"@.len() == 4);
    reveal_strlit("selector");
    assert("selector"@.len() == 8);
}

/// A name as a document: its text.
pub fn name_value(name: &Name) -> (value: serde_yaml::Value)
    ensures
        value_doc(value) == Doc::Text(name.0@),
{
    text_value(name.0.clone())
}

/// An image as a document: its text.
pub fn image_value(image: &Image) -> (value: serde_yaml::Value)
    ensures
        value_doc(value) == Doc::Text(image.0@),
{
    text_value(image.0.clone())
}

/// A directory as a document: its path.
pub fn directory_value(directory: &Directory) -> (value: serde_yaml::Value)
    ensures
        value_doc(value) == Doc::Text(directory.0@),
{
    text_value(directory.0.clone())
}

/// A command as a document: the sequence of its words.
pub fn command_value(command: &Command) -> (value: serde_yaml::Value)
    ensures
        value_doc(value) == command_doc(*command),
{
    let mut words: Vec<serde_yaml::Value> = Vec::new();
    let mut done: usize = 0;
    while done < command.0.len()
        invariant
            done <= command.0@.len(),
            docs(words@) == command.0@.take(done as int).map_values(|word: String| Doc::Text(word@)),
        decreases command.0@.len() - done,
    {
        let word = text_value(command.0[done].clone());
        let ghost before = words@;
        words.push(word);
        done += 1;
        assert(docs(words@) =~= docs(before).push(value_doc(word)));
    }
    assert(command.0@.take(done as int) =~= command.0@);
    sequence_value(words)
}

/// An environment as a document: the sequence of its variables, each with
/// its name and its value.
pub fn environment_value(environment: &Environment) -> (value: serde_yaml::Value)
    ensures
        value_doc(value) == environment_doc(*environment),
{
    let mut variables: Vec<serde_yaml::Value> = Vec::new();
    let mut done: usize = 0;
    while done < environment.0.len()
        invariant
            done <= environment.0@.len(),
            docs(variables@) == environment.0@.take(done as int).map_values(
                |variable: (Name, EnvironmentValue)| variable_doc(variable),
            ),
        decreases environment.0@.len() - done,
    {
        let variable = match &environment.0[done].1 {
            EnvironmentValue::Static(text) => {
                let pairs = vec![
                    entry("name", name_value(&environment.0[done].0)),
                    entry("value", text_value(text.clone())),
                ];
                proof {
                    other_keys_differ();
                    let wanted = variable_doc(environment.0@[done as int])->Dict_0;
                    assert(pair_docs(pairs@) =~= wanted);
                    collected_distinct(wanted);
                }
                mapping_of(pairs)
            },
        };
        let ghost before = variables@;
        variables.push(variable);
        done += 1;
        assert(docs(variables@) =~= docs(before).push(value_doc(variable)));
    }
    assert(environment.0@.take(done as int) =~= environment.0@);
    sequence_value(variables)
}

/// The metadata of the deployment of `application`.
fn deployment_metadata(application: &StatelessApplication, config: &ClusterConfig) -> (value:
    serde_yaml::Value)
    ensures
        value_doc(value) == deployment_metadata_doc(*application, *config),
{
    let pairs = vec![
        entry("name", name_value(&application.name)),
        entry("namespace", name_value(&config.cluster_name)),
        entry("labels", single_entry("app", name_value(&application.name))),
    ];
    proof {
        metadata_keys_differ();
        let wanted = seq![
            keyed("name"@, Doc::Text(application.name.0@)),
            keyed("namespace"@, Doc::Text(config.cluster_name.0@)),
            keyed("labels"@, Doc::Dict(seq![keyed("app"@, Doc::Text(application.name.0@))])),
        ];
        assert(pair_docs(pairs@) =~= wanted);
        collected_distinct(wanted);
    }
    mapping_of(pairs)
}

/// The container of `application`.
fn application_container(application: &StatelessApplication) -> (value: serde_yaml::Value)
    ensures
        value_doc(value) == application_container_doc(*application),
{
    let mount_pairs = vec![
        entry("name", text_value("logs".to_owned())),
        entry("mountPath", directory_value(&application.logs)),
    ];
    proof {
        other_keys_differ();
        let wanted = seq![
            keyed("name"@, Doc::Text(logs_volume())),
            keyed("mountPath"@, Doc::Text(application.logs.0@)),
        ];
        assert(pair_docs(mount_pairs@) =~= wanted);
        collected_distinct(wanted);
    }
    let mounts = vec![mapping_of(mount_pairs)];
    assert(docs(mounts@) =~= seq![value_doc(mounts@[0])]);
    let pairs = vec![
        entry("image", image_value(&application.image)),
        entry("imagePullPolicy", text_value("IfNotPresent".to_owned())),
        entry("command", command_value(&application.command)),
        entry("env", environment_value(&application.environment)),
        entry("volumeMounts", sequence_value(mounts)),
    ];
    proof {
        container_keys_differ();
        let wanted = application_container_doc(*application)->Dict_0;
        assert(pair_docs(pairs@) =~= wanted);
        collected_distinct(wanted);
    }
    mapping_of(pairs)
}

/// The specification of the deployment of `application`.
fn deployment_spec(application: &StatelessApplication) -> (value: serde_yaml::Value)
    ensures
        value_doc(value) == deployment_spec_doc(*application),
{
    let containers = vec![application_container(application)];
    assert(docs(containers@) =~= seq![value_doc(containers@[0])]);
    let volume_pairs = vec![
        entry("name", text_value("logs".to_owned())),
        entry("emptyDir", empty_mapping()),
    ];
    proof {
        other_keys_differ();
        let wanted = empty_volume_doc(logs_volume())->Dict_0;
        assert(pair_docs(volume_pairs@) =~= wanted);
        collected_distinct(wanted);
    }
    let volumes = vec![mapping_of(volume_pairs)];
    assert(docs(volumes@) =~= seq![value_doc(volumes@[0])]);
    let pairs = vec![
        entry("containers", sequence_value(containers)),
        entry("volumes", sequence_value(volumes)),
    ];
    proof {
        other_keys_differ();
        let wanted = deployment_spec_doc(*application)->Dict_0;
        assert(pair_docs(pairs@) =~= wanted);
        collected_distinct(wanted);
    }
    mapping_of(pairs)
}

/// The deployment of `application` in the cluster of `config`.
fn deployment(application: &StatelessApplication, config: &ClusterConfig) -> (value:
    serde_yaml::Value)
    ensures
        value_doc(value) == deployment_doc(*application, *config),
{
    let pairs = vec![
        entry("apiVersion", text_value("apps/v1".to_owned())),
        entry("kind", text_value("Deployment".to_owned())),
        entry("metadata", deployment_metadata(application, config)),
        entry("spec", deployment_spec(application)),
    ];
    proof {
        head_keys_differ();
        let wanted = deployment_doc(*application, *config)->Dict_0;
        assert(pair_docs(pairs@) =~= wanted);
        collected_distinct(wanted);
    }
    mapping_of(pairs)
}

/// The service of `application` in the cluster of `config`.
fn service(application: &StatelessApplication, config: &ClusterConfig) -> (value: serde_yaml::Value)
    ensures
        value_doc(value) == service_doc(*application, *config),
{
    let metadata_pairs = vec![
        entry("name", text_value(application.name.0.clone().concat("-svc"))),
        entry("namespace", name_value(&config.cluster_name)),
    ];
    proof {
        metadata_keys_differ();
        let wanted = seq![
            keyed("name"@, Doc::Text(service_name(application.name.0@))),
            keyed("namespace"@, Doc::Text(config.cluster_name.0@)),
        ];
        assert(pair_docs(metadata_pairs@) =~= wanted);
        collected_distinct(wanted);
    }
    let spec_pairs = vec![
        entry("type", text_value("LoadBalancer".to_owned())),
        entry("selector", single_entry("app", name_value(&application.name))),
    ];
    proof {
        other_keys_differ();
        let wanted = seq![
            keyed("type"@, Doc::Text("LoadBalancer"@)),
            keyed("selector"@, Doc::Dict(seq![keyed("app"@, Doc::Text(application.name.0@))])),
        ];
        assert(pair_docs(spec_pairs@) =~= wanted);
        collected_distinct(wanted);
    }
    let pairs = vec![
        entry("apiVersion", text_value("v1".to_owned())),
        entry("kind", text_value("Service".to_owned())),
        entry("metadata", mapping_of(metadata_pairs)),
        entry("spec", mapping_of(spec_pairs)),
    ];
    proof {
        head_keys_differ();
        let wanted = service_doc(*application, *config)->Dict_0;
        assert(pair_docs(pairs@) =~= wanted);
        collected_distinct(wanted);
    }
    mapping_of(pairs)
}

/// The documents of `app` in the cluster of `config`: its deployment and
/// its service.
pub fn from_stateless_application(app: &StatelessApplication, config: &ClusterConfig) -> (values: Vec<
    serde_yaml::Value,
>)
    ensures
        docs(values@) == stateless_application_docs(*app, *config),
{
    vec![deployment(app, config), service(app, config)]
}

/// The stateful set of a service of the cluster that runs `image` under
/// `role`.
fn stateful_set(config: &ClusterConfig, role: &str, image: &str) -> (value: serde_yaml::Value)
    ensures
        value_doc(value) == stateful_set_doc(*config, role@, image@),
{
    let name = hyphenate(config.cluster_name.0.as_str(), role);
    let container_pairs = vec![
        entry("image", text_value(image.to_owned())),
        entry("imagePullPolicy", text_value("IfNotPresent".to_owned())),
        entry("name", text_value(name.clone())),
    ];
    proof {
        container_keys_differ();
        stateful_keys_differ();
        let wanted = stateful_container_doc(name@, image@)->Dict_0;
        assert(pair_docs(container_pairs@) =~= wanted);
        collected_distinct(wanted);
    }
    let containers = vec![mapping_of(container_pairs)];
    assert(docs(containers@) =~= seq![value_doc(containers@[0])]);
    let template_pairs = vec![
        entry("metadata", single_entry("labels", single_entry("app", text_value(name.clone())))),
        entry("spec", single_entry("containers", sequence_value(containers))),
    ];
    proof {
        head_keys_differ();
        let wanted = stateful_template_doc(name@, image@)->Dict_0;
        assert(pair_docs(template_pairs@) =~= wanted);
        collected_distinct(wanted);
    }
    let spec_pairs = vec![
        entry("serviceName", text_value(name.clone().concat("-svc"))),
        entry(
            "selector",
            single_entry("matchLabels", single_entry("app", text_value(name.clone()))),
        ),
        entry("template", mapping_of(template_pairs)),
    ];
    proof {
        let wanted = stateful_spec_doc(name@, image@)->Dict_0;
        assert(pair_docs(spec_pairs@) =~= wanted);
        collected_distinct(wanted);
    }
    let metadata_pairs = vec![
        entry("name", text_value(name.clone())),
        entry("namespace", name_value(&config.cluster_name)),
        entry("labels", single_entry("app", text_value(name))),
    ];
    proof {
        metadata_keys_differ();
        let wanted = seq![
            keyed("name"@, Doc::Text(name@)),
            keyed("namespace"@, Doc::Text(config.cluster_name.0@)),
            keyed("labels"@, app_labels_doc(name@)),
        ];
        assert(pair_docs(metadata_pairs@) =~= wanted);
        collected_distinct(wanted);
    }
    let pairs = vec![
        entry("apiVersion", text_value("apps/v1".to_owned())),
        entry("kind", text_value("StatefulSet".to_owned())),
        entry("metadata", mapping_of(metadata_pairs)),
        entry("spec", mapping_of(spec_pairs)),
    ];
    proof {
        let wanted = stateful_set_doc(*config, role@, image@)->Dict_0;
        assert(pair_docs(pairs@) =~= wanted);
        collected_distinct(wanted);
    }
    mapping_of(pairs)
}

/// The document of the database of the cluster of `config`.
pub fn from_postgres(_pgsql: &PostgreSQL, config: &ClusterConfig) -> (value: serde_yaml::Value)
    ensures
        value_doc(value) == postgres_doc(*config),
{
    stateful_set(config, "db", "postgres")
}

/// The document of the message queue of the cluster of `config`.
pub fn from_rabbitmq(_rmq: &RabbitMQ, config: &ClusterConfig) -> (value: serde_yaml::Value)
    ensures
        value_doc(value) == rabbitmq_doc(*config),
{
    stateful_set(config, "mq", "rabbitmq")
}

/// The documents of `resource` in the cluster of `config`.
pub fn from_resource(config: &ClusterConfig, resource: &Resource) -> (values: Vec<serde_yaml::Value>)
    ensures
        docs(values@) == resource_docs(*config, *resource),
{
    let values = match resource {
        Resource::PostgreSQL(pgsql) => vec![from_postgres(pgsql, config)],
        Resource::RabbitMQ(rmq) => vec![from_rabbitmq(rmq, config)],
        Resource::StatelessApplication(app) => from_stateless_application(app, config),
    };
    assert(docs(values@) =~= resource_docs(*config, *resource));
    values
}

/// The documents of `cluster`: the documents of each resource in turn.
pub fn from_cluster(cluster: &Cluster) -> (values: Vec<serde_yaml::Value>)
    ensures
        docs(values@) == resources_docs(cluster.cluster_config, cluster.resources@),
{
    let mut values: Vec<serde_yaml::Value> = Vec::new();
    let mut done: usize = 0;
    while done < cluster.resources.len()
        invariant
            done <= cluster.resources@.len(),
            docs(values@) == resources_docs(
                cluster.cluster_config,
                cluster.resources@.take(done as int),
            ),
        decreases cluster.resources@.len() - done,
    {
        let mut more = from_resource(&cluster.cluster_config, &cluster.resources[done]);
        proof {
            assert(cluster.resources@.take(done + 1).drop_last() =~= cluster.resources@.take(
                done as int,
            ));
        }
        values.append(&mut more);
        done += 1;
    }
    assert(cluster.resources@.take(done as int) =~= cluster.resources@);
    values
}

impl<'a> From<&'a Name> for serde_yaml::Value {
    /// A name as a document: its text.
    fn from(value: &'a Name) -> (result: Self)
        ensures
            value_doc(result) == Doc::Text(value.0@),
    {
        name_value(value)
    }
}

impl<'a> From<&'a Image> for serde_yaml::Value {
    /// An image as a document: its text.
    fn from(value: &'a Image) -> (result: Self)
        ensures
            value_doc(result) == Doc::Text(value.0@),
    {
        image_value(value)
    }
}

impl<'a> From<&'a Directory> for serde_yaml::Value {
    /// A directory as a document: its path.
    fn from(value: &'a Directory) -> (result: Self)
        ensures
            value_doc(result) == Doc::Text(value.0@),
    {
        directory_value(value)
    }
}

impl<'a> From<&'a Environment> for serde_yaml::Value {
    /// An environment as a document: the sequence of its variables.
    fn from(value: &'a Environment) -> (result: Self)
        ensures
            value_doc(result) == environment_doc(*value),
    {
        environment_value(value)
    }
}

impl<'a> From<&'a Command> for serde_yaml::Value {
    /// A command as a document: the sequence of its words.
    fn from(value: &'a Command) -> (result: Self)
        ensures
            value_doc(result) == command_doc(*value),
    {
        command_value(value)
    }
}

impl<'a> From<&'a Cluster> for Vec<serde_yaml::Value> {
    /// The documents of a cluster: the documents of each resource in turn.
    fn from(value: &'a Cluster) -> (result: Self)
        ensures
            docs(result@) == resources_docs(value.cluster_config, value.resources@),
    {
        from_cluster(value)
    }
}

/// The conversions into documents are stated over what the documents
/// denote, by the contracts of `from`: no value is known but by its tree.
impl<'a> FromSpecImpl<&'a Name> for serde_yaml::Value {
    open spec fn obeys_from_spec() -> bool {
        false
    }

    open spec fn from_spec(value: &'a Name) -> Self {
        arbitrary()
    }
}

impl<'a> FromSpecImpl<&'a Image> for serde_yaml::Value {
    open spec fn obeys_from_spec() -> bool {
        false
    }

    open spec fn from_spec(value: &'a Image) -> Self {
        arbitrary()
    }
}

impl<'a> FromSpecImpl<&'a Directory> for serde_yaml::Value {
    open spec fn obeys_from_spec() -> bool {
        false
    }

    open spec fn from_spec(value: &'a Directory) -> Self {
        arbitrary()
    }
}

impl<'a> FromSpecImpl<&'a Environment> for serde_yaml::Value {
    open spec fn obeys_from_spec() -> bool {
        false
    }

    open spec fn from_spec(value: &'a Environment) -> Self {
        arbitrary()
    }
}

impl<'a> FromSpecImpl<&'a Command> for serde_yaml::Value {
    open spec fn obeys_from_spec() -> bool {
        false
    }

    open spec fn from_spec(value: &'a Command) -> Self {
        arbitrary()
    }
}

impl<'a> FromSpecImpl<&'a Cluster> for Vec<serde_yaml::Value> {
    open spec fn obeys_from_spec() -> bool {
        false
    }

    open spec fn from_spec(value: &'a Cluster) -> Self {
        arbitrary()
    }
}

} // verus!
