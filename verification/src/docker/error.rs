//! Docker-specific error types

use vstd::prelude::*;
use crate::platform::Error;
use crate::ssh::error::{SshError, ssh_error_text};
use crate::text::owned;

verus! {

/// Errors of Docker operations. `Io` carries the message of an I/O error.
#[derive(Debug, Clone, PartialEq, Eq)]
pub enum DockerError {
    ContainerNotFound(String),
    ImageNotFound(String),
    NetworkNotFound(String),
    VolumeNotFound(String),
    BuildFailed(String),
    PullFailed(String),
    CommandFailed(String),
    ContainerExists(String),
    ContainerNotRunning(String),
    InvalidConfig(String),
    ComposeError(String),
    HealthCheckFailed(String),
    Timeout,
    Ssh(SshError),
    Io(String),
}

/// A Docker error with its messages as character sequences.
pub enum DockerErrorView {
    ContainerNotFound(Seq<char>),
    ImageNotFound(Seq<char>),
    NetworkNotFound(Seq<char>),
    VolumeNotFound(Seq<char>),
    BuildFailed(Seq<char>),
    PullFailed(Seq<char>),
    CommandFailed(Seq<char>),
    ContainerExists(Seq<char>),
    ContainerNotRunning(Seq<char>),
    InvalidConfig(Seq<char>),
    ComposeError(Seq<char>),
    HealthCheckFailed(Seq<char>),
    Timeout,
    Ssh(SshError),
    Io(Seq<char>),
}

impl View for DockerError {
    type V = DockerErrorView;

    open spec fn view(&self) -> DockerErrorView {
        match self {
            DockerError::ContainerNotFound(m) => DockerErrorView::ContainerNotFound(m@),
            DockerError::ImageNotFound(m) => DockerErrorView::ImageNotFound(m@),
            DockerError::NetworkNotFound(m) => DockerErrorView::NetworkNotFound(m@),
            DockerError::VolumeNotFound(m) => DockerErrorView::VolumeNotFound(m@),
            DockerError::BuildFailed(m) => DockerErrorView::BuildFailed(m@),
            DockerError::PullFailed(m) => DockerErrorView::PullFailed(m@),
            DockerError::CommandFailed(m) => DockerErrorView::CommandFailed(m@),
            DockerError::ContainerExists(m) => DockerErrorView::ContainerExists(m@),
            DockerError::ContainerNotRunning(m) => DockerErrorView::ContainerNotRunning(m@),
            DockerError::InvalidConfig(m) => DockerErrorView::InvalidConfig(m@),
            DockerError::ComposeError(m) => DockerErrorView::ComposeError(m@),
            DockerError::HealthCheckFailed(m) => DockerErrorView::HealthCheckFailed(m@),
            DockerError::Timeout => DockerErrorView::Timeout,
            DockerError::Ssh(e) => DockerErrorView::Ssh(*e),
            DockerError::Io(m) => DockerErrorView::Io(m@),
        }
    }
}

/// The message an error displays.
pub open spec fn docker_error_text(e: DockerErrorView) -> Seq<char> {
    match e {
        DockerErrorView::ContainerNotFound(m) => "Container not found: "@ + m,
        DockerErrorView::ImageNotFound(m) => "Image not found: "@ + m,
        DockerErrorView::NetworkNotFound(m) => "Network not found: "@ + m,
        DockerErrorView::VolumeNotFound(m) => "Volume not found: "@ + m,
        DockerErrorView::BuildFailed(m) => "Build failed: "@ + m,
        DockerErrorView::PullFailed(m) => "Pull failed: "@ + m,
        DockerErrorView::CommandFailed(m) => "Command failed: "@ + m,
        DockerErrorView::ContainerExists(m) => "Container already exists: "@ + m,
        DockerErrorView::ContainerNotRunning(m) => "Container not running: "@ + m,
        DockerErrorView::InvalidConfig(m) => "Invalid configuration: "@ + m,
        DockerErrorView::ComposeError(m) => "Compose error: "@ + m,
        DockerErrorView::HealthCheckFailed(m) => "Health check failed: "@ + m,
        DockerErrorView::Timeout => "Timeout waiting for container"@,
        DockerErrorView::Ssh(e) => "SSH error: "@ + ssh_error_text(e),
        DockerErrorView::Io(m) => "IO error: "@ + m,
    }
}

fn prefixed(prefix: &str, m: &String) -> (r: String)
    ensures
        r@ == prefix@ + m@,
{
    let mut r = owned(prefix);
    r.append(m.as_str());
    r
}

impl DockerError {
    /// The message this error displays.
    pub fn message(&self) -> (r: String)
        ensures
            r@ == docker_error_text(self@),
    {
        match self {
            DockerError::ContainerNotFound(m) => prefixed("Container not found: ", m),
            DockerError::ImageNotFound(m) => prefixed("Image not found: ", m),
            DockerError::NetworkNotFound(m) => prefixed("Network not found: ", m),
            DockerError::VolumeNotFound(m) => prefixed("Volume not found: ", m),
            DockerError::BuildFailed(m) => prefixed("Build failed: ", m),
            DockerError::PullFailed(m) => prefixed("Pull failed: ", m),
            DockerError::CommandFailed(m) => prefixed("Command failed: ", m),
            DockerError::ContainerExists(m) => prefixed("Container already exists: ", m),
            DockerError::ContainerNotRunning(m) => prefixed("Container not running: ", m),
            DockerError::InvalidConfig(m) => prefixed("Invalid configuration: ", m),
            DockerError::ComposeError(m) => prefixed("Compose error: ", m),
            DockerError::HealthCheckFailed(m) => prefixed("Health check failed: ", m),
            DockerError::Timeout => owned("Timeout waiting for container"),
            DockerError::Ssh(e) => {
                let t = e.message();
                prefixed("SSH error: ", &t)
            },
            DockerError::Io(m) => prefixed("IO error: ", m),
        }
    }

    /// The platform error this becomes: a Docker error carrying the message.
    pub fn into_platform(&self) -> (r: Error)
        ensures
            r matches Error::Docker(m) && m@ == docker_error_text(self@),
    {
        Error::Docker(self.message())
    }
}

} // verus!
