//! The job handlers, their contexts and results.

use vstd::prelude::*;

pub mod container_status;
pub mod restart_proxy;
pub mod delete_resource;
pub mod scheduled_task;
pub mod server_connection_check;
pub mod validate_and_install_server;
pub mod log_cleanup;
pub mod notification;
pub mod notification_delivery;
pub mod database_backup;
pub mod docker_cleanup;
pub mod server_check;
pub mod server_metrics;
pub mod pull_request_preview;
pub mod ssl_certificate;
pub mod sentinel;
pub mod cleanup;
pub mod github_permission;
pub mod server_storage;
pub mod update_checker;
pub mod helper_management;
pub mod deployment;

verus! {

/// Generic job context that wraps the job payload
#[derive(Debug, Clone)]
pub struct JobContext<T> {
    /// Unique job ID
    pub job_id: u128,
    /// Current attempt number (1-indexed)
    pub attempt: u32,
    /// Maximum attempts allowed
    pub max_attempts: u32,
    /// When the job was queued, in milliseconds since the epoch
    pub queued_at: i64,
    /// Job-specific payload
    pub payload: T,
}

/// Result type for job handlers
pub type JobResult<T> = Result<T, String>;

/// What every job handler declares about itself.
pub trait Job {
    /// Job name for logging and metrics
    fn name(&self) -> &'static str;

    /// Maximum number of retry attempts
    fn max_tries(&self) -> (r: u32)
        default_ensures
            r == 3,
    {
        3
    }

    /// Timeout in seconds
    fn timeout_seconds(&self) -> (r: u64)
        default_ensures
            r == 120,
    {
        120
    }

    /// Queue name for this job
    fn queue(&self) -> (r: &'static str)
        default_ensures
            r@ == "default"@,
    {
        "default"
    }
}

} // verus!
