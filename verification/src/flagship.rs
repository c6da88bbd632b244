//! A cluster and its resources, as plain data.
//!
//! A cluster has a name and a list of resources: a database, a message
//! queue, or a stateless application that runs some image on a number of
//! nodes.

use vstd::prelude::*;
use vstd::std_specs::convert::FromSpecImpl;

verus! {

/// How the objects of a cluster are named.
#[derive(Debug)]
pub enum NamingConvention {
    /// Namespace, role, resource and an identifier of `id_len` characters.
    NsRoleResourceId { id_len: usize },
}

/// A name.
#[derive(Debug)]
pub struct Name(pub String);

impl Name {
    /// The name `text`.
    pub fn new(text: String) -> (name: Self)
        ensures
            name == Name(text),
    {
        Name(text)
    }
}

impl Clone for Name {
    fn clone(&self) -> (copy: Self)
        ensures
            copy == *self,
    {
        Name(self.0.clone())
    }
}

impl From<String> for Name {
    fn from(text: String) -> (name: Self) {
        Name(text)
    }
}

impl FromSpecImpl<String> for Name {
    open spec fn obeys_from_spec() -> bool {
        true
    }

    open spec fn from_spec(text: String) -> Self {
        Name(text)
    }
}

impl From<Name> for String {
    fn from(name: Name) -> (text: Self) {
        name.0
    }
}

impl FromSpecImpl<Name> for String {
    open spec fn obeys_from_spec() -> bool {
        true
    }

    open spec fn from_spec(name: Name) -> Self {
        name.0
    }
}

/// The image that a container runs.
#[derive(Debug)]
pub struct Image(pub String);

impl Image {
    /// The image `text`.
    pub fn new(text: String) -> (image: Self)
        ensures
            image == Image(text),
    {
        Image(text)
    }
}

impl From<String> for Image {
    fn from(text: String) -> (image: Self) {
        Image(text)
    }
}

impl FromSpecImpl<String> for Image {
    open spec fn obeys_from_spec() -> bool {
        true
    }

    open spec fn from_spec(text: String) -> Self {
        Image(text)
    }
}

impl From<Image> for String {
    fn from(image: Image) -> (text: Self) {
        image.0
    }
}

impl FromSpecImpl<Image> for String {
    open spec fn obeys_from_spec() -> bool {
        true
    }

    open spec fn from_spec(image: Image) -> Self {
        image.0
    }
}

/// The command that a container runs, word by word.
#[derive(Debug)]
pub struct Command(pub Vec<String>);

impl Command {
    /// The command made of `words`.
    pub fn new(words: Vec<String>) -> (command: Self)
        ensures
            command == Command(words),
    {
        Command(words)
    }
}

impl From<Vec<String>> for Command {
    fn from(words: Vec<String>) -> (command: Self) {
        Command(words)
    }
}

impl FromSpecImpl<Vec<String>> for Command {
    open spec fn obeys_from_spec() -> bool {
        true
    }

    open spec fn from_spec(words: Vec<String>) -> Self {
        Command(words)
    }
}

impl From<Command> for Vec<String> {
    fn from(command: Command) -> (words: Self) {
        command.0
    }
}

impl FromSpecImpl<Command> for Vec<String> {
    open spec fn obeys_from_spec() -> bool {
        true
    }

    open spec fn from_spec(command: Command) -> Self {
        command.0
    }
}

/// The protocol of a network port.
#[derive(Debug, Clone, Copy)]
pub enum NetworkProtocol {
    Tcp,
    Udp,
}

/// A port that an application listens on.
#[derive(Debug)]
pub struct NetworkPort {
    pub port: u16,
    pub protocol: NetworkProtocol,
    pub name: Option<Name>,
}

impl NetworkPort {
    /// The port `port` under `protocol`, with the name `name` if one is
    /// given.
    pub fn new(port: u16, protocol: NetworkProtocol, name: Option<Name>) -> (result: Self)
        ensures
            result == (NetworkPort { port, protocol, name }),
    {
        NetworkPort { port, protocol, name }
    }

    /// The TCP port `port`, without a name.
    pub fn tcp(port: u16) -> (result: Self)
        ensures
            result == (NetworkPort { port, protocol: NetworkProtocol::Tcp, name: None }),
    {
        Self::new(port, NetworkProtocol::Tcp, None)
    }

    /// The UDP port `port`, without a name.
    pub fn udp(port: u16) -> (result: Self)
        ensures
            result == (NetworkPort { port, protocol: NetworkProtocol::Udp, name: None }),
    {
        Self::new(port, NetworkProtocol::Udp, None)
    }

    /// The same port under the name `name`.
    pub fn with_name(self, name: Name) -> (result: Self)
        ensures
            result == (NetworkPort { name: Some(name), ..self }),
    {
        Self { name: Some(name), ..self }
    }
}

/// A directory.
#[derive(Debug)]
pub struct Directory(pub String);

impl Directory {
    /// The directory at `path`.
    pub fn new(path: String) -> (directory: Self)
        ensures
            directory == Directory(path),
    {
        Directory(path)
    }
}

impl Clone for Directory {
    fn clone(&self) -> (copy: Self)
        ensures
            copy == *self,
    {
        Directory(self.0.clone())
    }
}

impl From<String> for Directory {
    fn from(path: String) -> (directory: Self) {
        Directory(path)
    }
}

impl FromSpecImpl<String> for Directory {
    open spec fn obeys_from_spec() -> bool {
        true
    }

    open spec fn from_spec(path: String) -> Self {
        Directory(path)
    }
}

impl From<Directory> for String {
    fn from(directory: Directory) -> (path: Self) {
        directory.0
    }
}

impl FromSpecImpl<Directory> for String {
    open spec fn obeys_from_spec() -> bool {
        true
    }

    open spec fn from_spec(directory: Directory) -> Self {
        directory.0
    }
}

/// The value of an environment variable.
#[derive(Debug)]
pub enum EnvironmentValue {
    /// A fixed value.
    Static(String),
}

impl Clone for EnvironmentValue {
    fn clone(&self) -> (copy: Self)
        ensures
            copy == *self,
    {
        match self {
            EnvironmentValue::Static(text) => EnvironmentValue::Static(text.clone()),
        }
    }
}

/// The environment of an application: its variables and their values, in
/// order.
#[derive(Debug)]
pub struct Environment(pub Vec<(Name, EnvironmentValue)>);

impl Environment {
    /// The environment that holds `variables`.
    pub fn new(variables: Vec<(Name, EnvironmentValue)>) -> (environment: Self)
        ensures
            environment == Environment(variables),
    {
        Environment(variables)
    }
}

impl Clone for Environment {
    fn clone(&self) -> (copy: Self)
        ensures
            copy.0@ == self.0@,
    {
        let mut variables: Vec<(Name, EnvironmentValue)> = Vec::new();
        let mut done: usize = 0;
        while done < self.0.len()
            invariant
                done <= self.0@.len(),
                variables@ == self.0@.take(done as int),
            decreases self.0@.len() - done,
        {
            let name = self.0[done].0.clone();
            let value = self.0[done].1.clone();
            variables.push((name, value));
            done += 1;
        }
        Environment(variables)
    }
}

impl From<Vec<(Name, EnvironmentValue)>> for Environment {
    fn from(variables: Vec<(Name, EnvironmentValue)>) -> (environment: Self) {
        Environment(variables)
    }
}

impl FromSpecImpl<Vec<(Name, EnvironmentValue)>> for Environment {
    open spec fn obeys_from_spec() -> bool {
        true
    }

    open spec fn from_spec(variables: Vec<(Name, EnvironmentValue)>) -> Self {
        Environment(variables)
    }
}

impl From<Environment> for Vec<(Name, EnvironmentValue)> {
    fn from(environment: Environment) -> (variables: Self) {
        environment.0
    }
}

impl FromSpecImpl<Environment> for Vec<(Name, EnvironmentValue)> {
    open spec fn obeys_from_spec() -> bool {
        true
    }

    open spec fn from_spec(environment: Environment) -> Self {
        environment.0
    }
}

/// What holds of a whole cluster: its name and how its objects are named.
#[derive(Debug)]
pub struct ClusterConfig {
    pub cluster_name: Name,
    pub naming_convention: NamingConvention,
}

impl ClusterConfig {
    /// The configuration of the cluster `cluster_name`.
    pub fn new(cluster_name: Name, naming_convention: NamingConvention) -> (config: Self)
        ensures
            config == (ClusterConfig { cluster_name, naming_convention }),
    {
        ClusterConfig { cluster_name, naming_convention }
    }
}

/// A PostgreSQL database.
#[derive(Debug)]
pub struct PostgreSQL;

impl PostgreSQL {
    /// A database.
    pub fn new() -> (database: Self)
        ensures
            database == PostgreSQL,
    {
        PostgreSQL
    }
}

/// A RabbitMQ message queue.
#[derive(Debug)]
pub struct RabbitMQ;

impl RabbitMQ {
    /// A message queue.
    pub fn new() -> (queue: Self)
        ensures
            queue == RabbitMQ,
    {
        RabbitMQ
    }
}

/// An application without state of its own: an image, run under a name on a
/// number of nodes.
#[derive(Debug)]
pub struct StatelessApplication {
    pub image: Image,
    pub command: Command,
    pub name: Name,
    pub ports: Vec<NetworkPort>,
    pub logs: Directory,
    pub environment: Environment,
    pub nodes: u16,
}

impl StatelessApplication {
    /// The application `name` that runs `command` in `image` on `nodes`
    /// nodes.
    pub fn new(
        image: Image,
        command: Command,
        name: Name,
        ports: Vec<NetworkPort>,
        logs: Directory,
        environment: Environment,
        nodes: u16,
    ) -> (application: Self)
        ensures
            application == (StatelessApplication {
                image,
                command,
                name,
                ports,
                logs,
                environment,
                nodes,
            }),
    {
        StatelessApplication { image, command, name, ports, logs, environment, nodes }
    }
}

/// A resource of a cluster.
#[derive(Debug)]
pub enum Resource {
    PostgreSQL(PostgreSQL),
    RabbitMQ(RabbitMQ),
    StatelessApplication(StatelessApplication),
}

/// A cluster: its configuration and its resources.
#[derive(Debug)]
pub struct Cluster {
    pub cluster_config: ClusterConfig,
    pub resources: Vec<Resource>,
}

impl Cluster {
    /// The cluster configured by `cluster_config` that holds `resources`.
    pub fn new(cluster_config: ClusterConfig, resources: Vec<Resource>) -> (cluster: Self)
        ensures
            cluster == (Cluster { cluster_config, resources }),
    {
        Cluster { cluster_config, resources }
    }
}

} // verus!
