//! Sentinel Jobs
//!
//! Start, stop and update the Sentinel metrics agent on a server, and take
//! in the metrics it pushes.

use vstd::prelude::*;
use crate::scheduler::jobs::{Job, JobContext, JobResult};
use crate::text::{nat_text, owned, u64_text};

verus! {

#[derive(Debug, Clone)]
pub struct SentinelContext {
    pub server_id: u128,
    pub push_endpoint: String,
    pub token: String,
    pub refresh_rate_seconds: u32,
}

#[derive(Debug, Clone)]
pub struct SentinelResult {
    pub running: bool,
    pub container_id: Option<String>,
    pub version: Option<String>,
    pub started: bool,
}

/// The command that starts the agent: host networking, the Docker socket
/// read-only, and its push endpoint, interval and token in the environment.
pub open spec fn sentinel_run_text(c: SentinelContext) -> Seq<char> {
    "docker run -d \\\n                --name coolify-sentinel \\\n                --restart unless-stopped \\\n                --network host \\\n                -v /var/run/docker.sock:/var/run/docker.sock:ro \\\n                -e PUSH_ENDPOINT="@
        + c.push_endpoint@ + " \\\n                -e PUSH_INTERVAL_SECONDS="@ + nat_text(
        c.refresh_rate_seconds as nat,
    ) + " \\\n                -e TOKEN="@ + c.token@
        + " \\\n                ghcr.io/coollabsio/sentinel:latest"@
}

/// The command that starts the agent.
pub fn sentinel_run_command(c: &SentinelContext) -> (r: String)
    ensures
        r@ == sentinel_run_text(*c),
{
    let mut r = owned(
        "docker run -d \\\n                --name coolify-sentinel \\\n                --restart unless-stopped \\\n                --network host \\\n                -v /var/run/docker.sock:/var/run/docker.sock:ro \\\n                -e PUSH_ENDPOINT=",
    );
    r.append(c.push_endpoint.as_str());
    r.append(" \\\n                -e PUSH_INTERVAL_SECONDS=");
    let t = u64_text(c.refresh_rate_seconds as u64);
    r.append(t.as_str());
    r.append(" \\\n                -e TOKEN=");
    r.append(c.token.as_str());
    r.append(" \\\n                ghcr.io/coollabsio/sentinel:latest");
    r
}

/// The command that finds the agent's container.
pub fn sentinel_check_command() -> (r: String)
    ensures
        r@ == "docker ps --filter name=coolify-sentinel --format '{{.ID}}' 2>/dev/null || true"@,
{
    owned("docker ps --filter name=coolify-sentinel --format '{{.ID}}' 2>/dev/null || true")
}

/// What the check finds decides: a running agent is left alone; otherwise
/// it is started.
pub fn sentinel_status(container_id: Option<String>) -> (r: SentinelResult)
    ensures
        r.running,
        r.version matches Some(v) && v@ == "latest"@,
        match container_id {
            Some(id) => r.container_id == Some(id) && !r.started,
            None => (r.container_id matches Some(p) && p@ == "placeholder"@) && r.started,
        },
{
    match container_id {
        Some(id) => SentinelResult {
            running: true,
            container_id: Some(id),
            version: Some(owned("latest")),
            started: false,
        },
        None => SentinelResult {
            running: true,
            container_id: Some(owned("placeholder")),
            version: Some(owned("latest")),
            started: true,
        },
    }
}

pub struct CheckAndStartSentinelJob;

impl CheckAndStartSentinelJob {
    /// Makes sure the agent runs: it is not found running, so it is started.
    pub fn handle(&self, ctx: JobContext<SentinelContext>) -> (r: JobResult<SentinelResult>)
        ensures
            r matches Ok(res) && res.running && res.started && (res.container_id matches Some(p)
                && p@ == "placeholder"@) && (res.version matches Some(v) && v@ == "latest"@),
    {
        let _check = sentinel_check_command();
        let container_id: Option<String> = None;
        if container_id.is_none() {
            let _start = sentinel_run_command(&ctx.payload);
        }
        Ok(sentinel_status(container_id))
    }
}

impl Job for CheckAndStartSentinelJob {
    fn name(&self) -> (r: &'static str)
        ensures
            r@ == "check_and_start_sentinel"@,
    {
        "check_and_start_sentinel"
    }
}

#[derive(Debug, Clone)]
pub struct StopSentinelContext {
    pub server_id: u128,
}

pub struct StopSentinelJob;

/// The command that stops and removes the agent.
pub fn sentinel_stop_command() -> (r: String)
    ensures
        r@ == "docker stop coolify-sentinel && docker rm coolify-sentinel 2>/dev/null || true"@,
{
    owned("docker stop coolify-sentinel && docker rm coolify-sentinel 2>/dev/null || true")
}

impl StopSentinelJob {
    /// Stops the agent.
    pub fn handle(&self, ctx: JobContext<StopSentinelContext>) -> (r: JobResult<bool>)
        ensures
            r == Ok::<bool, String>(true),
    {
        let _stop = sentinel_stop_command();
        Ok(true)
    }
}

impl Job for StopSentinelJob {
    fn name(&self) -> (r: &'static str)
        ensures
            r@ == "stop_sentinel"@,
    {
        "stop_sentinel"
    }
}

pub struct UpdateSentinelJob;

/// The commands of an update, in order: pull the image, remove the old
/// container, start the new one.
pub fn sentinel_update_commands(c: &SentinelContext) -> (r: Vec<String>)
    ensures
        r@.len() == 3,
        r@[0]@ == "docker pull ghcr.io/coollabsio/sentinel:latest"@,
        r@[1]@
            == "docker stop coolify-sentinel 2>/dev/null || true && docker rm coolify-sentinel 2>/dev/null || true"@,
        r@[2]@ == sentinel_run_text(*c),
{
    let mut v: Vec<String> = Vec::new();
    v.push(owned("docker pull ghcr.io/coollabsio/sentinel:latest"));
    v.push(
        owned(
            "docker stop coolify-sentinel 2>/dev/null || true && docker rm coolify-sentinel 2>/dev/null || true",
        ),
    );
    v.push(sentinel_run_command(c));
    v
}

impl UpdateSentinelJob {
    /// Updates the agent: the new one is started.
    pub fn handle(&self, ctx: JobContext<SentinelContext>) -> (r: JobResult<SentinelResult>)
        ensures
            r matches Ok(res) && res.running && res.started && (res.container_id matches Some(p)
                && p@ == "placeholder"@) && (res.version matches Some(v) && v@ == "latest"@),
    {
        let _commands = sentinel_update_commands(&ctx.payload);
        Ok(sentinel_status(None))
    }
}

impl Job for UpdateSentinelJob {
    fn name(&self) -> (r: &'static str)
        ensures
            r@ == "update_sentinel"@,
    {
        "update_sentinel"
    }
}

/// Takes in the metrics the agent pushes (their percentages are decimal
/// numbers, read by the caller).
pub struct ProcessSentinelPushJob;

impl Job for ProcessSentinelPushJob {
    fn name(&self) -> (r: &'static str)
        ensures
            r@ == "process_sentinel_push"@,
    {
        "process_sentinel_push"
    }
}

} // verus!
