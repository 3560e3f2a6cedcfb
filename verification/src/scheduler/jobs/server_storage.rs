//! Server storage, limit, patch, update and file jobs. Storage readings and
//! thresholds are decimal percentages and are handled by the caller.

use vstd::prelude::*;
use crate::scheduler::{JobOutcome, JobResult, succeeded_with};
use crate::scheduler::jobs::{Job, JobContext};
use crate::text::owned;

verus! {

/// Checks a server's storage (its thresholds are percentages handled by
/// the caller).
pub struct ServerStorageCheckJob;

impl Job for ServerStorageCheckJob {
    fn name(&self) -> (r: &'static str)
        ensures
            r@ == "server_storage_check"@,
    {
        "server_storage_check"
    }
}

/// Saves a server's storage readings (percentages, kept by the caller).
pub struct ServerStorageSaveJob;

impl Job for ServerStorageSaveJob {
    fn name(&self) -> (r: &'static str)
        ensures
            r@ == "server_storage_save"@,
    {
        "server_storage_save"
    }

    fn queue(&self) -> (r: &'static str)
        ensures
            r@ == "low"@,
    {
        "low"
    }
}

#[derive(Debug, Clone)]
pub struct ServerLimitCheckPayload {
    pub server_id: u128,
    pub check_cpu: bool,
    pub check_memory: bool,
    pub check_containers: bool,
}

pub struct ServerLimitCheckJob;

impl ServerLimitCheckJob {
    /// Reports the work as done.
    pub fn handle(&self, ctx: JobContext<ServerLimitCheckPayload>) -> (r: JobOutcome)
        ensures
            succeeded_with(r, "Limit check completed"@),
    {
        Ok(JobResult::success("Limit check completed"))
    }
}

impl Job for ServerLimitCheckJob {
    fn name(&self) -> (r: &'static str)
        ensures
            r@ == "server_limit_check"@,
    {
        "server_limit_check"
    }
}

#[derive(Debug, Clone)]
pub struct ServerPatchCheckPayload {
    pub server_id: u128,
    pub security_only: bool,
}

#[derive(Debug, Clone)]
pub struct PatchInfo {
    pub package: String,
    pub current_version: String,
    pub available_version: String,
    pub is_security: bool,
}

pub struct ServerPatchCheckJob;

impl ServerPatchCheckJob {
    /// Reports the work as done.
    pub fn handle(&self, ctx: JobContext<ServerPatchCheckPayload>) -> (r: JobOutcome)
        ensures
            succeeded_with(r, "Patch check completed"@),
    {
        Ok(JobResult::success("Patch check completed"))
    }
}

impl Job for ServerPatchCheckJob {
    fn name(&self) -> (r: &'static str)
        ensures
            r@ == "server_patch_check"@,
    {
        "server_patch_check"
    }

    fn queue(&self) -> (r: &'static str)
        ensures
            r@ == "low"@,
    {
        "low"
    }
}

#[derive(Debug, Clone)]
pub struct PushServerUpdatePayload {
    pub server_id: u128,
    pub files: Vec<FileUpdate>,
    pub post_commands: Vec<String>,
}

#[derive(Debug, Clone)]
pub struct FileUpdate {
    pub path: String,
    pub content: String,
    pub mode: Option<u32>,
}

pub struct PushServerUpdateJob;

impl PushServerUpdateJob {
    /// Reports the work as done.
    pub fn handle(&self, ctx: JobContext<PushServerUpdatePayload>) -> (r: JobOutcome)
        ensures
            succeeded_with(r, "Server update pushed"@),
    {
        Ok(JobResult::success("Server update pushed"))
    }
}

impl Job for PushServerUpdateJob {
    fn name(&self) -> (r: &'static str)
        ensures
            r@ == "push_server_update"@,
    {
        "push_server_update"
    }

    fn queue(&self) -> (r: &'static str)
        ensures
            r@ == "high"@,
    {
        "high"
    }
}

#[derive(Debug, Clone)]
pub struct ServerFilesPayload {
    pub server_id: u128,
    pub paths: Vec<String>,
    pub max_size: Option<u64>,
}

pub struct ServerFilesJob;

impl ServerFilesJob {
    /// Reports the work as done.
    pub fn handle(&self, ctx: JobContext<ServerFilesPayload>) -> (r: JobOutcome)
        ensures
            succeeded_with(r, "Files retrieved"@),
    {
        Ok(JobResult::success("Files retrieved"))
    }
}

impl Job for ServerFilesJob {
    fn name(&self) -> (r: &'static str)
        ensures
            r@ == "server_files"@,
    {
        "server_files"
    }
}

} // verus!
