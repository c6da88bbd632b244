//! What holds of the objects of every stack.
//!
//! The objects of a stack are made one by one, and they have to agree: a
//! service has to lead to the pods of its application, a stateful set has
//! to be named by its service, a claimed volume has to be the one that is
//! mounted, and all of them have to lie in the stack's namespace.

use crate::k8s::container::ContainerPortView;
use crate::k8s::labels::LabelPairs;
use crate::k8s::selector::SelectorView;
use crate::recipes::{
    resource_manifests, resources_manifests, EnvironmentView, ManifestView, ResourceView,
    StackView,
};
use crate::text::{joined, joined_pair, joined_single};
use crate::yaml::{keyed, Doc};
use vstd::prelude::*;

verus! {

/// The labels of the pods of a workload.
pub open spec fn pod_labels(object: ManifestView) -> Option<LabelPairs> {
    match object {
        ManifestView::StatefulSet(stateful_set) => Some(stateful_set.spec.template.metadata.labels),
        ManifestView::Deployment(deployment) => Some(deployment.spec.template.metadata.labels),
        _ => None,
    }
}

/// The selector by which a workload finds its pods.
pub open spec fn pod_selector(object: ManifestView) -> Option<SelectorView> {
    match object {
        ManifestView::StatefulSet(stateful_set) => Some(stateful_set.spec.selector),
        ManifestView::Deployment(deployment) => Some(deployment.spec.selector),
        _ => None,
    }
}

/// Do the object, the pods it makes and the volumes it claims all lie in
/// `namespace`?
pub open spec fn lies_in(object: ManifestView, namespace: Seq<char>) -> bool {
    match object {
        ManifestView::StatefulSet(stateful_set) => {
            &&& stateful_set.metadata.namespace == namespace
            &&& stateful_set.spec.template.metadata.namespace == namespace
            &&& forall|i: int|
                0 <= i < stateful_set.spec.volume_claim_templates.len() ==> (
                #[trigger] stateful_set.spec.volume_claim_templates[i]).metadata.namespace
                    == namespace
        },
        ManifestView::Deployment(deployment) => {
            &&& deployment.metadata.namespace == namespace
            &&& deployment.spec.template.metadata.namespace == namespace
        },
        ManifestView::Service(service) => service.metadata.namespace == namespace,
        ManifestView::Namespace(_) => false,
    }
}

/// Does a workload find the pods it makes?
pub open spec fn finds_own_pods(object: ManifestView) -> bool {
    pod_selector(object) matches Some(selector) ==> selector.selects(pod_labels(object)->0)
}

/// The ports that the pods of a workload listen on: the ports of their
/// first container.
pub open spec fn pod_ports(object: ManifestView) -> Seq<ContainerPortView> {
    match object {
        ManifestView::StatefulSet(stateful_set) => stateful_set.spec.template.spec.containers[0].ports,
        ManifestView::Deployment(deployment) => deployment.spec.template.spec.containers[0].ports,
        _ => Seq::empty(),
    }
}

/// Does the service `second` lead to the pods of the workload `first`? It
/// does where the pods carry each label that it selects by, and listen on
/// the port that each of its ports leads to.
pub open spec fn leads_to(second: ManifestView, first: ManifestView) -> bool {
    &&& second is Service
    &&& pod_labels(first) is Some
    &&& (SelectorView { match_labels: second->Service_0.spec.selector }).selects(
        pod_labels(first)->0,
    )
    &&& forall|i: int|
        0 <= i < second->Service_0.spec.ports.len() ==> exists|j: int|
            0 <= j < pod_ports(first).len() && (#[trigger] pod_ports(first)[j]).container_port == (
            #[trigger] second->Service_0.spec.ports[i]).target_port
}

/// Is `first` a stateful set, and `second` the service whose name it gives
/// as the name of its service?
pub open spec fn is_named_by(first: ManifestView, second: ManifestView) -> bool {
    &&& first is StatefulSet
    &&& second is Service
    &&& second->Service_0.metadata.name == first->StatefulSet_0.spec.service_name
}

/// Is every volume that a stateful set claims mounted in its container
/// under the claim's name, and the other way round?
pub open spec fn claims_match_mounts(object: ManifestView) -> bool {
    object matches ManifestView::StatefulSet(stateful_set) ==> {
        &&& stateful_set.spec.template.spec.containers.len() == 1
        &&& stateful_set.spec.template.spec.containers[0].volume_mounts.len()
            == stateful_set.spec.volume_claim_templates.len()
        &&& forall|i: int|
            0 <= i < stateful_set.spec.volume_claim_templates.len() ==> (
            #[trigger] stateful_set.spec.volume_claim_templates[i]).metadata.name
                == stateful_set.spec.template.spec.containers[0].volume_mounts[i].name
    }
}

/// A resource becomes a workload, and at most a service behind it. Both lie
/// in the namespace; the workload finds its own pods, and the service leads
/// to them; a stateful set is named by that service and mounts what it
/// claims.
pub proof fn resource_objects_agree(namespace: Seq<char>, resource: ResourceView)
    ensures
        1 <= resource_manifests(namespace, resource).len() <= 2,
        pod_labels(resource_manifests(namespace, resource)[0]) is Some,
        forall|i: int|
            0 <= i < resource_manifests(namespace, resource).len() ==> lies_in(
                #[trigger] resource_manifests(namespace, resource)[i],
                namespace,
            ),
        finds_own_pods(resource_manifests(namespace, resource)[0]),
        claims_match_mounts(resource_manifests(namespace, resource)[0]),
        resource_manifests(namespace, resource).len() == 2 ==> leads_to(
            resource_manifests(namespace, resource)[1],
            resource_manifests(namespace, resource)[0],
        ),
        resource_manifests(namespace, resource)[0] is StatefulSet ==> resource_manifests(
            namespace,
            resource,
        ).len() == 2 && is_named_by(
            resource_manifests(namespace, resource)[0],
            resource_manifests(namespace, resource)[1],
        ),
{
    let objects = resource_manifests(namespace, resource);
    if objects.len() == 2 {
        let ports = objects[1]->Service_0.spec.ports;
        let listened = pod_ports(objects[0]);
        assert forall|i: int| 0 <= i < ports.len() implies exists|j: int|
            0 <= j < listened.len() && (#[trigger] listened[j]).container_port == (
            #[trigger] ports[i]).target_port by {
            match resource {
                ResourceView::RabbitMQ(_) => {
                    assert(ports.len() == 2 && listened.len() == 2);
                    assert(listened[i].container_port == ports[i].target_port);
                },
                _ => {
                    assert(listened[i].container_port == ports[i].target_port);
                },
            }
        }
    }
}

/// Each object of a list of resources belongs to one of them: it stands at
/// some place among that resource's objects, and these stand together in the
/// list. The result is the index of the resource and the place of the object
/// among the resource's objects.
pub proof fn object_belongs_to_a_resource(
    namespace: Seq<char>,
    resources: Seq<ResourceView>,
    at: int,
) -> (found: (int, int))
    requires
        0 <= at < resources_manifests(namespace, resources).len(),
    ensures
        0 <= found.0 < resources.len(),
        0 <= found.1 < resource_manifests(namespace, resources[found.0]).len(),
        found.1 <= at,
        at - found.1 + resource_manifests(namespace, resources[found.0]).len()
            <= resources_manifests(namespace, resources).len(),
        resources_manifests(namespace, resources).subrange(
            at - found.1,
            at - found.1 + resource_manifests(namespace, resources[found.0]).len(),
        ) == resource_manifests(namespace, resources[found.0]),
    decreases resources.len(),
{
    let front = resources_manifests(namespace, resources.drop_last());
    let back = resource_manifests(namespace, resources.last());
    if at < front.len() {
        object_belongs_to_a_resource(namespace, resources.drop_last(), at)
    } else {
        (resources.len() - 1, at - front.len())
    }
}

/// The name of a stack's namespace is its parts joined by hyphens.
pub proof fn namespace_name_joins_its_parts(stack: StackView)
    ensures
        stack.namespace_name() == joined(stack.namespace_parts(), "-"@),
{
    match stack.environment {
        EnvironmentView::Production => joined_single(stack.namespace, "-"@),
        EnvironmentView::Ephemeral(name) => joined_pair(stack.namespace, name, "-"@),
    }
}

/// The first object of a stack is its namespace, under the name that the
/// stack's name and environment give.
pub proof fn stack_starts_with_its_namespace(stack: StackView)
    ensures
        stack.manifests().len() >= 1,
        stack.manifests()[0] matches ManifestView::Namespace(namespace) && namespace.metadata
            == Doc::Dict(seq![keyed("name"@, Doc::Text(stack.namespace_name()))]),
        forall|i: int| 1 <= i < stack.manifests().len() ==> !(#[trigger] stack.manifests()[i] is Namespace),
{
    assert forall|i: int| 1 <= i < stack.manifests().len() implies !(
    #[trigger] stack.manifests()[i] is Namespace) by {
        stack_objects_lie_in_its_namespace(stack);
    }
}

/// Every object of a stack but the namespace itself lies in the stack's
/// namespace, with the pods it makes and the volumes it claims.
pub proof fn stack_objects_lie_in_its_namespace(stack: StackView)
    ensures
        forall|i: int|
            1 <= i < stack.manifests().len() ==> lies_in(
                #[trigger] stack.manifests()[i],
                stack.namespace_name(),
            ),
{
    let namespace = stack.namespace_name();
    assert forall|i: int| 1 <= i < stack.manifests().len() implies lies_in(
        #[trigger] stack.manifests()[i],
        namespace,
    ) by {
        let found = object_belongs_to_a_resource(namespace, stack.resources, i - 1);
        resource_objects_agree(namespace, stack.resources[found.0]);
    }
}

/// Every workload of a stack finds the pods it makes: they carry each label
/// that its selector asks for.
pub proof fn stack_workloads_find_their_pods(stack: StackView)
    ensures
        forall|i: int|
            0 <= i < stack.manifests().len() ==> finds_own_pods(#[trigger] stack.manifests()[i]),
{
    let namespace = stack.namespace_name();
    assert forall|i: int| 0 <= i < stack.manifests().len() implies finds_own_pods(
        #[trigger] stack.manifests()[i],
    ) by {
        if i >= 1 {
            let found = object_belongs_to_a_resource(namespace, stack.resources, i - 1);
            resource_objects_agree(namespace, stack.resources[found.0]);
        }
    }
}

/// Every service of a stack stands right behind a workload and leads to its
/// pods: they carry each label that the service selects by, and listen on
/// the port that each of its ports leads to.
pub proof fn stack_services_lead_to_pods(stack: StackView)
    ensures
        forall|i: int|
            0 <= i < stack.manifests().len() && (#[trigger] stack.manifests()[i]) is Service ==> i
                >= 2 && leads_to(stack.manifests()[i], stack.manifests()[i - 1]),
{
    let namespace = stack.namespace_name();
    assert forall|i: int|
        0 <= i < stack.manifests().len() && (#[trigger] stack.manifests()[i]) is Service implies i
        >= 2 && leads_to(stack.manifests()[i], stack.manifests()[i - 1]) by {
        let found = object_belongs_to_a_resource(namespace, stack.resources, i - 1);
        resource_objects_agree(namespace, stack.resources[found.0]);
    }
}

/// Every stateful set of a stack is followed by its service: the service
/// has the name that the stateful set gives for it, and the stateful set
/// mounts each volume it claims under the claim's name.
pub proof fn stack_stateful_sets_agree(stack: StackView)
    ensures
        forall|i: int|
            0 <= i < stack.manifests().len() ==> claims_match_mounts(
                #[trigger] stack.manifests()[i],
            ),
        forall|i: int|
            0 <= i < stack.manifests().len() && (
            #[trigger] stack.manifests()[i]) is StatefulSet ==> i + 1 < stack.manifests().len()
                && is_named_by(stack.manifests()[i], stack.manifests()[i + 1]),
{
    let namespace = stack.namespace_name();
    assert forall|i: int| 0 <= i < stack.manifests().len() implies claims_match_mounts(
        #[trigger] stack.manifests()[i],
    ) by {
        if i >= 1 {
            let found = object_belongs_to_a_resource(namespace, stack.resources, i - 1);
            resource_objects_agree(namespace, stack.resources[found.0]);
        }
    }
    assert forall|i: int|
        0 <= i < stack.manifests().len() && (
        #[trigger] stack.manifests()[i]) is StatefulSet implies i + 1 < stack.manifests().len()
        && is_named_by(stack.manifests()[i], stack.manifests()[i + 1]) by {
        let found = object_belongs_to_a_resource(namespace, stack.resources, i - 1);
        resource_objects_agree(namespace, stack.resources[found.0]);
    }
}

} // verus!
