//! Cleanup jobs: helper containers, instance data, orphaned previews, stale
//! connections, proxy networks and volume clones.

use vstd::prelude::*;
use crate::scheduler::{JobOutcome, JobResult, succeeded_with};
use crate::scheduler::jobs::{Job, JobContext};
use crate::text::owned;

verus! {

#[derive(Debug, Clone)]
pub struct CleanupHelperContainersPayload {
    pub server_id: u128,
    pub max_age_hours: u32,
}

pub struct CleanupHelperContainersJob;

impl CleanupHelperContainersJob {
    /// Reports the work as done.
    pub fn handle(&self, ctx: JobContext<CleanupHelperContainersPayload>) -> (r: JobOutcome)
        ensures
            succeeded_with(r, "Helper containers cleaned up"@),
    {
        Ok(JobResult::success("Helper containers cleaned up"))
    }
}

impl Job for CleanupHelperContainersJob {
    fn name(&self) -> (r: &'static str)
        ensures
            r@ == "cleanup_helper_containers"@,
    {
        "cleanup_helper_containers"
    }

    fn queue(&self) -> (r: &'static str)
        ensures
            r@ == "low"@,
    {
        "low"
    }
}

#[derive(Debug, Clone)]
pub struct CleanupInstancePayload {
    pub cleanup_logs: bool,
    pub cleanup_activities: bool,
    pub cleanup_tokens: bool,
    pub log_retention_days: u32,
}

pub struct CleanupInstanceJob;

impl CleanupInstanceJob {
    /// Reports the work as done.
    pub fn handle(&self, ctx: JobContext<CleanupInstancePayload>) -> (r: JobOutcome)
        ensures
            succeeded_with(r, "Instance cleanup completed"@),
    {
        Ok(JobResult::success("Instance cleanup completed"))
    }
}

impl Job for CleanupInstanceJob {
    fn name(&self) -> (r: &'static str)
        ensures
            r@ == "cleanup_instance"@,
    {
        "cleanup_instance"
    }

    fn queue(&self) -> (r: &'static str)
        ensures
            r@ == "low"@,
    {
        "low"
    }
}

#[derive(Debug, Clone)]
pub struct CleanupOrphanedPreviewsPayload {
    pub server_id: u128,
    pub application_id: Option<u128>,
}

pub struct CleanupOrphanedPreviewsJob;

impl CleanupOrphanedPreviewsJob {
    /// Reports the work as done.
    pub fn handle(&self, ctx: JobContext<CleanupOrphanedPreviewsPayload>) -> (r: JobOutcome)
        ensures
            succeeded_with(r, "Orphaned previews cleaned up"@),
    {
        Ok(JobResult::success("Orphaned previews cleaned up"))
    }
}

impl Job for CleanupOrphanedPreviewsJob {
    fn name(&self) -> (r: &'static str)
        ensures
            r@ == "cleanup_orphaned_previews"@,
    {
        "cleanup_orphaned_previews"
    }
}

#[derive(Debug, Clone)]
pub struct CleanupStaleConnectionsPayload {
    pub max_age_minutes: u32,
}

pub struct CleanupStaleConnectionsJob;

impl CleanupStaleConnectionsJob {
    /// Reports the work as done.
    pub fn handle(&self, ctx: JobContext<CleanupStaleConnectionsPayload>) -> (r: JobOutcome)
        ensures
            succeeded_with(r, "Stale connections cleaned up"@),
    {
        Ok(JobResult::success("Stale connections cleaned up"))
    }
}

impl Job for CleanupStaleConnectionsJob {
    fn name(&self) -> (r: &'static str)
        ensures
            r@ == "cleanup_stale_connections"@,
    {
        "cleanup_stale_connections"
    }

    fn queue(&self) -> (r: &'static str)
        ensures
            r@ == "low"@,
    {
        "low"
    }
}

#[derive(Debug, Clone)]
pub struct ConnectProxyToNetworksPayload {
    pub server_id: u128,
    pub networks: Vec<String>,
}

pub struct ConnectProxyToNetworksJob;

impl ConnectProxyToNetworksJob {
    /// Reports the work as done.
    pub fn handle(&self, ctx: JobContext<ConnectProxyToNetworksPayload>) -> (r: JobOutcome)
        ensures
            succeeded_with(r, "Proxy connected to networks"@),
    {
        Ok(JobResult::success("Proxy connected to networks"))
    }
}

impl Job for ConnectProxyToNetworksJob {
    fn name(&self) -> (r: &'static str)
        ensures
            r@ == "connect_proxy_to_networks"@,
    {
        "connect_proxy_to_networks"
    }

    fn queue(&self) -> (r: &'static str)
        ensures
            r@ == "high"@,
    {
        "high"
    }
}

#[derive(Debug, Clone)]
pub struct VolumeClonePayload {
    pub server_id: u128,
    pub source_volume: String,
    pub destination_volume: String,
    pub overwrite: bool,
}

pub struct VolumeCloneJob;

impl VolumeCloneJob {
    /// Reports the volume cloned: `Volume <source> cloned to <destination>`.
    pub fn handle(&self, ctx: JobContext<VolumeClonePayload>) -> (r: JobOutcome)
        ensures
            succeeded_with(
                r,
                "Volume "@ + ctx.payload.source_volume@ + " cloned to "@
                    + ctx.payload.destination_volume@,
            ),
    {
        let mut m = owned("Volume ");
        m.append(ctx.payload.source_volume.as_str());
        m.append(" cloned to ");
        m.append(ctx.payload.destination_volume.as_str());
        Ok(JobResult::success(m.as_str()))
    }
}

impl Job for VolumeCloneJob {
    fn name(&self) -> (r: &'static str)
        ensures
            r@ == "volume_clone"@,
    {
        "volume_clone"
    }
}

} // verus!
