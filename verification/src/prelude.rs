//! The objects and the steps by which they are built, in one place.

pub use crate::k8s::container::{
    Container, ContainerBuilder, ContainerPort, ContainerPortProtocol, ContainerPortView,
    ContainerView,
};
pub use crate::k8s::deployment::{
    Deployment, DeploymentSpec, DeploymentSpecView, DeploymentTemplate,
    DeploymentTemplateMetadata, DeploymentTemplateMetadataBuilder,
    DeploymentTemplateMetadataView, DeploymentTemplateSpec, DeploymentTemplateSpecBuilder,
    DeploymentTemplateSpecView, DeploymentTemplateView, DeploymentView,
};
pub use crate::k8s::environment::{
    EnvironmentVariable, EnvironmentVariableView, ValueFrom, ValueFromView,
};
pub use crate::k8s::labels::{LabelPairs, Labels};
pub use crate::k8s::metadata::{Metadata, MetadataBuilder, MetadataView};
pub use crate::k8s::namespace::{Namespace, NamespaceView};
pub use crate::k8s::secret::{Secret, SecretBuilder, SecretType, SecretView};
pub use crate::k8s::selector::{Selector, SelectorBuilder, SelectorView};
pub use crate::k8s::service::{
    Service, ServicePort, ServicePortView, ServiceSpec, ServiceSpecBuilder, ServiceSpecView,
    ServiceType, ServiceView,
};
pub use crate::k8s::stateful_set::{
    StatefulSet, StatefulSetSpec, StatefulSetSpecBuilder, StatefulSetSpecTemplate,
    StatefulSetSpecTemplateSpec, StatefulSetSpecTemplateSpecBuilder,
    StatefulSetSpecTemplateSpecView, StatefulSetSpecTemplateView, StatefulSetSpecView,
    StatefulSetView,
};
pub use crate::k8s::volume::{
    Volume, VolumeClaimAccessMode, VolumeClaimTemplate, VolumeClaimTemplateSpec,
    VolumeClaimTemplateSpecBuilder, VolumeClaimTemplateSpecView, VolumeClaimTemplateView,
    VolumeMount, VolumeMountView, VolumeView,
};
