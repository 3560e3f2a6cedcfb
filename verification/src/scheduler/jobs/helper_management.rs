//! Helper management jobs: proxy and helper image versions, helper and
//! preview containers, proxy networks, changelog and templates, volume
//! clones, stale connections and log drains.

use vstd::prelude::*;
use crate::scheduler::jobs::{Job, JobContext};

verus! {

#[derive(Debug, Clone)]
pub struct CheckTraefikVersionPayload {
    pub current_version: Option<String>,
}

pub struct CheckTraefikVersionJob;

impl CheckTraefikVersionJob {
    /// Nothing is done yet.
    pub fn handle(&self, ctx: JobContext<CheckTraefikVersionPayload>) -> (r: Result<(), String>)
        ensures
            r is Ok,
    {
        Ok(())
    }
}

impl Job for CheckTraefikVersionJob {
    fn name(&self) -> (r: &'static str)
        ensures
            r@ == "check_traefik_version"@,
    {
        "check_traefik_version"
    }
}

#[derive(Debug, Clone)]
pub struct CheckTraefikVersionForServerPayload {
    pub server_id: u128,
    pub server_ip: String,
}

pub struct CheckTraefikVersionForServerJob;

impl CheckTraefikVersionForServerJob {
    /// Nothing is done yet.
    pub fn handle(&self, ctx: JobContext<CheckTraefikVersionForServerPayload>) -> (r: Result<(), String>)
        ensures
            r is Ok,
    {
        Ok(())
    }
}

impl Job for CheckTraefikVersionForServerJob {
    fn name(&self) -> (r: &'static str)
        ensures
            r@ == "check_traefik_version_for_server"@,
    {
        "check_traefik_version_for_server"
    }
}

#[derive(Debug, Clone)]
pub struct CheckHelperImagePayload {
    pub current_version: Option<String>,
}

pub struct CheckHelperImageJob;

impl CheckHelperImageJob {
    /// Nothing is done yet.
    pub fn handle(&self, ctx: JobContext<CheckHelperImagePayload>) -> (r: Result<(), String>)
        ensures
            r is Ok,
    {
        Ok(())
    }
}

impl Job for CheckHelperImageJob {
    fn name(&self) -> (r: &'static str)
        ensures
            r@ == "check_helper_image"@,
    {
        "check_helper_image"
    }
}

#[derive(Debug, Clone)]
pub struct CleanupHelperContainersPayload {
    pub server_id: u128,
    pub max_age_hours: Option<u32>,
}

impl CleanupHelperContainersPayload {
    /// The age after which helper containers go: 24 hours unless set.
    pub fn max_age(&self) -> (r: u32)
        ensures
            r == match self.max_age_hours {
                Some(h) => h,
                None => 24u32,
            },
    {
        match self.max_age_hours {
            Some(h) => h,
            None => 24,
        }
    }
}

pub struct CleanupHelperContainersJob;

impl CleanupHelperContainersJob {
    /// Nothing is done yet.
    pub fn handle(&self, ctx: JobContext<CleanupHelperContainersPayload>) -> (r: Result<(), String>)
        ensures
            r is Ok,
    {
        Ok(())
    }
}

impl Job for CleanupHelperContainersJob {
    fn name(&self) -> (r: &'static str)
        ensures
            r@ == "cleanup_helper_containers"@,
    {
        "cleanup_helper_containers"
    }
}

#[derive(Debug, Clone)]
pub struct CleanupOrphanedPreviewsPayload {
    pub server_id: u128,
}

pub struct CleanupOrphanedPreviewsJob;

impl CleanupOrphanedPreviewsJob {
    /// Nothing is done yet.
    pub fn handle(&self, ctx: JobContext<CleanupOrphanedPreviewsPayload>) -> (r: Result<(), String>)
        ensures
            r is Ok,
    {
        Ok(())
    }
}

impl Job for CleanupOrphanedPreviewsJob {
    fn name(&self) -> (r: &'static str)
        ensures
            r@ == "cleanup_orphaned_previews"@,
    {
        "cleanup_orphaned_previews"
    }
}

#[derive(Debug, Clone)]
pub struct ConnectProxyToNetworksPayload {
    pub server_id: u128,
    pub networks: Vec<String>,
}

pub struct ConnectProxyToNetworksJob;

impl ConnectProxyToNetworksJob {
    /// Nothing is done yet.
    pub fn handle(&self, ctx: JobContext<ConnectProxyToNetworksPayload>) -> (r: Result<(), String>)
        ensures
            r is Ok,
    {
        Ok(())
    }
}

impl Job for ConnectProxyToNetworksJob {
    fn name(&self) -> (r: &'static str)
        ensures
            r@ == "connect_proxy_to_networks"@,
    {
        "connect_proxy_to_networks"
    }
}

#[derive(Debug, Clone)]
pub struct PullChangelogPayload {
    pub cdn_url: String,
}

pub struct PullChangelogJob;

impl PullChangelogJob {
    /// Nothing is done yet.
    pub fn handle(&self, ctx: JobContext<PullChangelogPayload>) -> (r: Result<(), String>)
        ensures
            r is Ok,
    {
        Ok(())
    }
}

impl Job for PullChangelogJob {
    fn name(&self) -> (r: &'static str)
        ensures
            r@ == "pull_changelog"@,
    {
        "pull_changelog"
    }
}

#[derive(Debug, Clone)]
pub struct PullTemplatesPayload {
    pub cdn_url: String,
    pub force: bool,
}

pub struct PullTemplatesJob;

impl PullTemplatesJob {
    /// Nothing is done yet.
    pub fn handle(&self, ctx: JobContext<PullTemplatesPayload>) -> (r: Result<(), String>)
        ensures
            r is Ok,
    {
        Ok(())
    }
}

impl Job for PullTemplatesJob {
    fn name(&self) -> (r: &'static str)
        ensures
            r@ == "pull_templates"@,
    {
        "pull_templates"
    }
}

#[derive(Debug, Clone)]
pub struct VolumeClonePayload {
    pub server_id: u128,
    pub source_volume: String,
    pub target_volume: String,
    pub container_for_clone: Option<String>,
}

pub struct VolumeCloneJob;

impl VolumeCloneJob {
    /// Nothing is done yet.
    pub fn handle(&self, ctx: JobContext<VolumeClonePayload>) -> (r: Result<(), String>)
        ensures
            r is Ok,
    {
        Ok(())
    }
}

impl Job for VolumeCloneJob {
    fn name(&self) -> (r: &'static str)
        ensures
            r@ == "volume_clone"@,
    {
        "volume_clone"
    }
}

#[derive(Debug, Clone)]
pub struct CleanupStaleConnectionsPayload {
    pub max_age_minutes: Option<u32>,
}

impl CleanupStaleConnectionsPayload {
    /// The age after which connections count as stale: 30 minutes unless set.
    pub fn max_age(&self) -> (r: u32)
        ensures
            r == match self.max_age_minutes {
                Some(m) => m,
                None => 30u32,
            },
    {
        match self.max_age_minutes {
            Some(m) => m,
            None => 30,
        }
    }
}

pub struct CleanupStaleConnectionsJob;

impl CleanupStaleConnectionsJob {
    /// Nothing is done yet.
    pub fn handle(&self, ctx: JobContext<CleanupStaleConnectionsPayload>) -> (r: Result<(), String>)
        ensures
            r is Ok,
    {
        Ok(())
    }
}

impl Job for CleanupStaleConnectionsJob {
    fn name(&self) -> (r: &'static str)
        ensures
            r@ == "cleanup_stale_connections"@,
    {
        "cleanup_stale_connections"
    }
}

#[derive(Debug, Clone)]
pub struct LogDrainPayload {
    pub server_id: u128,
    pub drain_type: LogDrainType,
    pub endpoint: String,
    pub api_key: Option<String>,
}

#[derive(Debug, Clone, Copy, PartialEq, Eq, Structural)]
pub enum LogDrainType {
    Axiom,
    Newrelic,
    Highlight,
    Custom,
}

impl LogDrainType {
    /// The drain's name on the wire.
    pub fn as_str(&self) -> (r: &'static str)
        ensures
            r@ == match *self {
                LogDrainType::Axiom => "axiom"@,
                LogDrainType::Newrelic => "newrelic"@,
                LogDrainType::Highlight => "highlight"@,
                LogDrainType::Custom => "custom"@,
            },
    {
        match self {
            LogDrainType::Axiom => "axiom",
            LogDrainType::Newrelic => "newrelic",
            LogDrainType::Highlight => "highlight",
            LogDrainType::Custom => "custom",
        }
    }
}

pub struct StartLogDrainJob;

impl StartLogDrainJob {
    /// Nothing is done yet.
    pub fn handle(&self, ctx: JobContext<LogDrainPayload>) -> (r: Result<(), String>)
        ensures
            r is Ok,
    {
        Ok(())
    }
}

impl Job for StartLogDrainJob {
    fn name(&self) -> (r: &'static str)
        ensures
            r@ == "start_log_drain"@,
    {
        "start_log_drain"
    }
}

pub struct StopLogDrainJob;

impl StopLogDrainJob {
    /// Nothing is done yet.
    pub fn handle(&self, ctx: JobContext<LogDrainPayload>) -> (r: Result<(), String>)
        ensures
            r is Ok,
    {
        Ok(())
    }
}

impl Job for StopLogDrainJob {
    fn name(&self) -> (r: &'static str)
        ensures
            r@ == "stop_log_drain"@,
    {
        "stop_log_drain"
    }
}

} // verus!
