//! What the application exchanges with the container daemon.
//!
//! The library never talks to the daemon itself. It hands out a
//! [`DockerRequest`], the caller performs it with whatever client it has,
//! and hands the outcome back as a [`DockerResponse`]. The records hold what
//! the views read of the daemon's answers.

use crate::app::ContainerId;
use vstd::prelude::*;

verus! {

/// A port that a container exposes.
#[derive(Debug, Clone, PartialEq, Eq)]
pub struct Port {
    /// The host address that the port is bound to, if it is published.
    pub ip: Option<String>,
    /// The port inside the container.
    pub private_port: u64,
    /// The port on the host, if it is published.
    pub public_port: Option<u64>,
    /// The protocol, such as `tcp`.
    pub typ: String,
}

/// A container as the daemon lists it.
#[derive(Debug, Clone, PartialEq, Eq)]
pub struct Container {
    /// Creation time, in seconds since the Unix epoch.
    pub created: u64,
    pub command: String,
    pub id: String,
    pub image: String,
    /// The labels, written out for display.
    pub labels: String,
    pub names: Vec<String>,
    pub ports: Vec<Port>,
    /// The daemon's wording of the state, such as `Up 2 hours`.
    pub status: String,
    pub size_rw: Option<u64>,
    pub size_root_fs: Option<u64>,
}

/// An image as the daemon lists it.
#[derive(Debug, Clone, PartialEq, Eq)]
pub struct Image {
    /// Creation time, in seconds since the Unix epoch.
    pub created: u64,
    pub id: String,
    pub parent_id: String,
    pub repo_tags: Option<Vec<String>>,
    pub virtual_size: u64,
}

/// System information of the daemon.
#[derive(Debug, Clone, PartialEq, Eq)]
pub struct Info {
    /// Number of containers, running or not.
    pub containers: u64,
    /// Number of images.
    pub images: u64,
    /// Host name.
    pub name: String,
    pub operating_system: String,
    pub kernel_version: String,
    pub n_cpu: u64,
    /// Total memory in bytes.
    pub mem_total: u64,
    pub docker_root_dir: String,
    /// Storage driver.
    pub driver: String,
}

/// Version information of the daemon.
#[derive(Debug, Clone, PartialEq, Eq)]
pub struct Version {
    pub version: String,
    pub api_version: String,
}

/// An operation on the life cycle of one container.
#[derive(Debug, Clone, Copy, PartialEq, Eq, Structural)]
pub enum LifecycleOp {
    Pause,
    Unpause,
    Start,
    Stop,
    Delete,
}

/// Which part of a container's output to fetch.
#[derive(Debug, Clone, Copy, PartialEq, Eq, Structural)]
pub struct LogsOptions {
    /// Keep the stream open for output to come.
    pub follow: bool,
    /// How many lines to fetch, counted from the end.
    pub tail: u64,
    pub stdout: bool,
    pub stderr: bool,
}

/// A call for the daemon.
#[derive(Debug, PartialEq, Eq)]
pub enum DockerRequest {
    /// Fetch the system information.
    Info,
    /// List the containers: all of them, or the running ones only.
    Containers { all: bool },
    /// List the images; with `all`, intermediate layers too.
    Images { all: bool },
    /// Inspect one container.
    Inspect(ContainerId),
    /// Fetch the multiplexed output of one container.
    Logs(ContainerId, LogsOptions),
    /// Pause, unpause, start, stop or delete one container.
    Lifecycle(LifecycleOp, ContainerId),
}

/// How a call for the daemon ended.
#[derive(Debug, PartialEq, Eq)]
pub enum DockerResponse {
    /// Answers [`DockerRequest::Info`].
    Info(Info),
    /// Answers [`DockerRequest::Containers`].
    Containers(Vec<Container>),
    /// Answers [`DockerRequest::Images`].
    Images(Vec<Image>),
    /// Answers [`DockerRequest::Inspect`]: the details, written out for
    /// display.
    Details(String),
    /// Answers [`DockerRequest::Logs`]: the bytes of the multiplexed stream.
    Logs(Vec<u8>),
    /// Answers [`DockerRequest::Lifecycle`]: the operation was carried out.
    Done,
    /// The call failed; the text describes the failure.
    Failed(String),
}

impl DockerRequest {
    /// Whether `response` is an outcome of this call: the answer that
    /// belongs to it, or a failure.
    pub open spec fn answered_by(self, response: DockerResponse) -> bool {
        match (self, response) {
            (_, DockerResponse::Failed(_)) => true,
            (DockerRequest::Info, DockerResponse::Info(_)) => true,
            (DockerRequest::Containers { .. }, DockerResponse::Containers(_)) => true,
            (DockerRequest::Images { .. }, DockerResponse::Images(_)) => true,
            (DockerRequest::Inspect(_), DockerResponse::Details(_)) => true,
            (DockerRequest::Logs(_, _), DockerResponse::Logs(_)) => true,
            (DockerRequest::Lifecycle(_, _), DockerResponse::Done) => true,
            _ => false,
        }
    }
}

} // verus!
