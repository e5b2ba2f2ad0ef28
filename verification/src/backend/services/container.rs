//! Containers and images as the container runtime reports them.
use vstd::prelude::*;

verus! {

/// A container. `labels` lists the container's labels as key/value entries.
#[derive(Debug, Clone, PartialEq, Eq)]
pub struct ContainerInfo {
    pub id: String,
    pub names: Vec<String>,
    pub image: String,
    pub state: String,
    pub status: String,
    pub ports: Vec<PortMapping>,
    pub created: i64,
    pub labels: Vec<(String, String)>,
}

/// A published or exposed port of a container.
#[derive(Debug, Clone, PartialEq, Eq)]
pub struct PortMapping {
    pub private_port: u16,
    pub public_port: Option<u16>,
    pub port_type: String,
}

/// An image stored locally.
#[derive(Debug, Clone, PartialEq, Eq)]
pub struct ImageInfo {
    pub id: String,
    pub repo_tags: Vec<String>,
    pub size: i64,
    pub created: i64,
}

/// The configuration an image declares.
#[derive(Debug, Clone, PartialEq, Eq)]
pub struct ImageInspect {
    pub id: String,
    pub repo_tags: Vec<String>,
    pub exposed_ports: Vec<String>,
    pub env_vars: Vec<String>,
    pub working_dir: String,
    pub entrypoint: Vec<String>,
    pub cmd: Vec<String>,
    pub created: String,
    pub size: i64,
}

} // verus!
