//! Containers and the ports they listen on.

use crate::k8s::environment::{EnvironmentVariable, EnvironmentVariableView};
use crate::k8s::volume::{VolumeMount, VolumeMountView};
use crate::model::{views, views_push};
use crate::yaml::{optional_doc, value_doc, Doc};
use vstd::prelude::*;

verus! {

/// The protocol of a container port.
#[derive(Debug, Clone, Copy)]
pub enum ContainerPortProtocol {
    TCP,
    UDP,
}

/// A port that a container listens on.
#[derive(Debug)]
pub struct ContainerPort {
    container_port: u16,
    protocol: ContainerPortProtocol,
}

/// What a [`ContainerPort`] holds.
pub struct ContainerPortView {
    pub container_port: u16,
    pub protocol: ContainerPortProtocol,
}

impl View for ContainerPort {
    type V = ContainerPortView;

    closed spec fn view(&self) -> ContainerPortView {
        ContainerPortView { container_port: self.container_port, protocol: self.protocol }
    }
}

impl ContainerPort {
    /// The port `container_port` under `protocol`.
    pub fn new(container_port: u16, protocol: ContainerPortProtocol) -> (port: Self)
        ensures
            port@ == (ContainerPortView { container_port, protocol }),
    {
        ContainerPort { container_port, protocol }
    }

    /// The TCP port `port`.
    pub fn tcp(port: u16) -> (result: Self)
        ensures
            result@ == (ContainerPortView {
                container_port: port,
                protocol: ContainerPortProtocol::TCP,
            }),
    {
        ContainerPort { container_port: port, protocol: ContainerPortProtocol::TCP }
    }

    /// The UDP port `port`.
    pub fn udp(port: u16) -> (result: Self)
        ensures
            result@ == (ContainerPortView {
                container_port: port,
                protocol: ContainerPortProtocol::UDP,
            }),
    {
        ContainerPort { container_port: port, protocol: ContainerPortProtocol::UDP }
    }

    /// The port's number.
    pub fn container_port(&self) -> (number: u16)
        ensures
            number == self@.container_port,
    {
        self.container_port
    }

    /// The port's protocol.
    pub fn protocol(&self) -> (protocol: ContainerPortProtocol)
        ensures
            protocol == self@.protocol,
    {
        self.protocol
    }
}

/// A container of a pod.
#[derive(Debug)]
pub struct Container {
    image: String,
    image_pull_policy: String,
    name: String,
    command: Vec<String>,
    ports: Vec<ContainerPort>,
    resources: Option<serde_yaml::Value>,
    env: Vec<EnvironmentVariable>,
    volume_mounts: Vec<VolumeMount>,
}

/// What a [`Container`] holds.
pub struct ContainerView {
    pub image: Seq<char>,
    pub image_pull_policy: Seq<char>,
    pub name: Seq<char>,
    pub command: Seq<Seq<char>>,
    pub ports: Seq<ContainerPortView>,
    pub resources: Option<Doc>,
    pub env: Seq<EnvironmentVariableView>,
    pub volume_mounts: Seq<VolumeMountView>,
}

impl ContainerView {
    /// The pull policy of every container: the image is pulled where the
    /// node does not have it.
    pub open spec fn pull_policy() -> Seq<char> {
        "IfNotPresent"@
    }

    /// The container `name` that runs `command` in `image`, with no ports,
    /// resources, environment or mounts.
    pub open spec fn of(image: Seq<char>, name: Seq<char>, command: Seq<Seq<char>>) -> ContainerView {
        ContainerView {
            image,
            image_pull_policy: Self::pull_policy(),
            name,
            command,
            ports: Seq::empty(),
            resources: None,
            env: Seq::empty(),
            volume_mounts: Seq::empty(),
        }
    }

    /// The same container with one more port.
    pub open spec fn with_port(self, port: ContainerPortView) -> ContainerView {
        ContainerView { ports: self.ports.push(port), ..self }
    }

    /// The same container with `resources` in place of what it had.
    pub open spec fn with_resources(self, resources: Doc) -> ContainerView {
        ContainerView { resources: Some(resources), ..self }
    }

    /// The same container with one more environment variable.
    pub open spec fn with_env(self, env: EnvironmentVariableView) -> ContainerView {
        ContainerView { env: self.env.push(env), ..self }
    }

    /// The same container with one more volume mount.
    pub open spec fn with_volume_mount(self, volume_mount: VolumeMountView) -> ContainerView {
        ContainerView { volume_mounts: self.volume_mounts.push(volume_mount), ..self }
    }
}

impl View for Container {
    type V = ContainerView;

    closed spec fn view(&self) -> ContainerView {
        ContainerView {
            image: self.image@,
            image_pull_policy: self.image_pull_policy@,
            name: self.name@,
            command: views(self.command@),
            ports: views(self.ports@),
            resources: optional_doc(self.resources),
            env: views(self.env@),
            volume_mounts: views(self.volume_mounts@),
        }
    }
}

impl Container {
    #[verifier::type_invariant]
    spec fn fixed_pull_policy(&self) -> bool {
        self.image_pull_policy@ == ContainerView::pull_policy()
    }

    /// Starts the container `name` that runs `command` in `image`.
    pub fn builder(image: &str, name: &str, command: Vec<&str>) -> (container: Self)
        ensures
            container@ == ContainerView::of(image@, name@, views(command@)),
    {
        let mut words: Vec<String> = Vec::new();
        let mut done: usize = 0;
        while done < command.len()
            invariant
                done <= command@.len(),
                views(words@) == views(command@).take(done as int),
            decreases command@.len() - done,
        {
            let word = command[done].to_owned();
            proof {
                views_push(words@, word);
            }
            words.push(word);
            done += 1;
        }
        assert(views(command@).take(done as int) =~= views(command@));
        let container = Container {
            image: image.to_owned(),
            image_pull_policy: "IfNotPresent".to_owned(),
            name: name.to_owned(),
            command: words,
            ports: Vec::new(),
            resources: None,
            env: Vec::new(),
            volume_mounts: Vec::new(),
        };
        assert(container@.ports =~= Seq::empty());
        assert(container@.env =~= Seq::empty());
        assert(container@.volume_mounts =~= Seq::empty());
        container
    }

    /// The image the container runs.
    pub fn image(&self) -> (image: &String)
        ensures
            image@ == self@.image,
    {
        &self.image
    }

    /// When the image is pulled.
    pub fn image_pull_policy(&self) -> (policy: &String)
        ensures
            policy@ == self@.image_pull_policy,
            policy@ == ContainerView::pull_policy(),
    {
        proof {
            use_type_invariant(self);
        }
        &self.image_pull_policy
    }

    /// The container's name.
    pub fn name(&self) -> (name: &String)
        ensures
            name@ == self@.name,
    {
        &self.name
    }

    /// The command the container runs.
    pub fn command(&self) -> (command: &Vec<String>)
        ensures
            views(command@) == self@.command,
    {
        &self.command
    }

    /// The ports the container listens on.
    pub fn ports(&self) -> (ports: &Vec<ContainerPort>)
        ensures
            views(ports@) == self@.ports,
    {
        &self.ports
    }

    /// The resources the container asks for, if it names any.
    pub fn resources(&self) -> (resources: Option<&serde_yaml::Value>)
        ensures
            match resources {
                Some(value) => self@.resources == Some(value_doc(*value)),
                None => self@.resources is None,
            },
    {
        match &self.resources {
            Some(value) => Some(value),
            None => None,
        }
    }

    /// The container's environment.
    pub fn env(&self) -> (env: &Vec<EnvironmentVariable>)
        ensures
            views(env@) == self@.env,
    {
        &self.env
    }

    /// The volumes mounted in the container.
    pub fn volume_mounts(&self) -> (mounts: &Vec<VolumeMount>)
        ensures
            views(mounts@) == self@.volume_mounts,
    {
        &self.volume_mounts
    }
}

/// The steps by which a container is built.
pub trait ContainerBuilder: View<V = ContainerView> + Sized {
    /// Adds a port.
    fn with_port(self, port: ContainerPort) -> (next: Self)
        ensures
            next@ == self@.with_port(port@),
    ;

    /// Sets the resources the container asks for.
    fn with_resources(self, resources: serde_yaml::Value) -> (next: Self)
        ensures
            next@ == self@.with_resources(value_doc(resources)),
    ;

    /// Adds an environment variable.
    fn with_env(self, env: EnvironmentVariable) -> (next: Self)
        ensures
            next@ == self@.with_env(env@),
    ;

    /// Adds a volume mount.
    fn with_volume_mount(self, volume_mount: VolumeMount) -> (next: Self)
        ensures
            next@ == self@.with_volume_mount(volume_mount@),
    ;

    /// The container as built so far.
    fn build(self) -> (container: Container)
        ensures
            container@ == self@,
    ;
}

impl ContainerBuilder for Container {
    fn with_port(self, port: ContainerPort) -> (next: Self) {
        proof {
            use_type_invariant(&self);
            views_push(self.ports@, port);
        }
        let Container { image, image_pull_policy, name, command, ports, resources, env, volume_mounts } = self;
        let mut ports = ports;
        ports.push(port);
        Container { image, image_pull_policy, name, command, ports, resources, env, volume_mounts }
    }

    fn with_resources(self, resources: serde_yaml::Value) -> (next: Self) {
        proof {
            use_type_invariant(&self);
        }
        let Container { image, image_pull_policy, name, command, ports, resources: _, env, volume_mounts } = self;
        Container {
            image,
            image_pull_policy,
            name,
            command,
            ports,
            resources: Some(resources),
            env,
            volume_mounts,
        }
    }

    fn with_env(self, env: EnvironmentVariable) -> (next: Self) {
        proof {
            use_type_invariant(&self);
            views_push(self.env@, env);
        }
        let Container { image, image_pull_policy, name, command, ports, resources, env: variables, volume_mounts } = self;
        let mut variables = variables;
        variables.push(env);
        Container {
            image,
            image_pull_policy,
            name,
            command,
            ports,
            resources,
            env: variables,
            volume_mounts,
        }
    }

    fn with_volume_mount(self, volume_mount: VolumeMount) -> (next: Self) {
        proof {
            use_type_invariant(&self);
            views_push(self.volume_mounts@, volume_mount);
        }
        let Container { image, image_pull_policy, name, command, ports, resources, env, volume_mounts } = self;
        let mut volume_mounts = volume_mounts;
        volume_mounts.push(volume_mount);
        Container { image, image_pull_policy, name, command, ports, resources, env, volume_mounts }
    }

    fn build(self) -> (container: Container) {
        self
    }
}

} // verus!
