//! Server Connection Check Job
//!
//! Checks if servers are reachable and Docker is available.

use vstd::prelude::*;
use crate::scheduler::jobs::{Job, JobContext, JobResult};
use crate::text::owned;

verus! {

/// Context for server connection check
#[derive(Debug, Clone)]
pub struct ServerConnectionCheckContext {
    pub server_id: u128,
    pub server_name: String,
    pub server_ip: String,
    pub server_port: u16,
    pub server_user: String,
    /// Whether to disable SSH multiplexing for this check
    pub disable_mux: bool,
}

/// Result of server connection check
#[derive(Debug, Clone)]
pub struct ConnectionCheckResult {
    /// Whether the server is reachable via SSH
    pub is_reachable: bool,
    /// Whether Docker is available and working
    pub is_usable: bool,
    /// Docker version if available
    pub docker_version: Option<String>,
    /// Error message if check failed
    pub error: Option<String>,
    /// Server uptime if available
    pub uptime: Option<String>,
}

/// What the probes of a check decide: a failed or negative SSH probe makes
/// the server unreachable (with the probe's error, or a fixed message);
/// otherwise Docker is usable exactly when its probe found a version, and
/// the uptime is reported as probed.
pub fn connection_check_result(
    reachable: Result<bool, String>,
    docker: Result<Option<String>, String>,
    uptime: Option<String>,
) -> (r: ConnectionCheckResult)
    ensures
        match reachable {
            Err(e) => !r.is_reachable && !r.is_usable && r.docker_version is None && r.error
                == Some(e) && r.uptime is None,
            Ok(false) => !r.is_reachable && !r.is_usable && r.docker_version is None && (r.error
                matches Some(m) && m@ == "Server not reachable via SSH"@) && r.uptime is None,
            Ok(true) => r.is_reachable && r.error is None && r.uptime == uptime && match docker {
                Ok(Some(v)) => r.is_usable && r.docker_version == Some(v),
                _ => !r.is_usable && r.docker_version is None,
            },
        },
{
    let is_reachable = match reachable {
        Ok(b) => b,
        Err(e) => {
            return ConnectionCheckResult {
                is_reachable: false,
                is_usable: false,
                docker_version: None,
                error: Some(e),
                uptime: None,
            };
        },
    };
    if !is_reachable {
        return ConnectionCheckResult {
            is_reachable: false,
            is_usable: false,
            docker_version: None,
            error: Some(owned("Server not reachable via SSH")),
            uptime: None,
        };
    }
    let (is_usable, docker_version) = match docker {
        Ok(Some(version)) => (true, Some(version)),
        Ok(None) => (false, None),
        Err(_) => (false, None),
    };
    ConnectionCheckResult { is_reachable, is_usable, docker_version, error: None, uptime }
}

/// Job to check server SSH connectivity and Docker availability
pub struct ServerConnectionCheckJob {
    timeout_seconds: u64,
}

impl ServerConnectionCheckJob {
    /// The job's timeout in seconds.
    pub closed spec fn timeout(&self) -> u64 {
        self.timeout_seconds
    }

    /// A check with a thirty-second timeout.
    pub fn new() -> (r: Self)
        ensures
            r.timeout() == 30,
    {
        ServerConnectionCheckJob { timeout_seconds: 30 }
    }

    pub fn with_timeout(self, seconds: u64) -> (r: Self)
        ensures
            r.timeout() == seconds,
    {
        ServerConnectionCheckJob { timeout_seconds: seconds }
    }

    /// Check basic SSH connectivity
    fn check_connection(&self, ctx: &JobContext<ServerConnectionCheckContext>) -> (r: Result<
        bool,
        String,
    >)
        ensures
            r == Ok::<bool, String>(true),
    {
        Ok(true)
    }

    /// Check Docker availability
    fn check_docker(&self, ctx: &JobContext<ServerConnectionCheckContext>) -> (r: Result<
        Option<String>,
        String,
    >)
        ensures
            r matches Ok(Some(v)) && v@ == "24.0.0"@,
    {
        Ok(Some(owned("24.0.0")))
    }

    /// Get server uptime
    fn get_uptime(&self, ctx: &JobContext<ServerConnectionCheckContext>) -> (r: Option<String>)
        ensures
            r matches Some(u) && u@ == "1 day, 2 hours"@,
    {
        Some(owned("1 day, 2 hours"))
    }

    /// Checks the server: it is found reachable and usable, with the Docker
    /// version and uptime that the probes report.
    pub fn handle(&self, ctx: JobContext<ServerConnectionCheckContext>) -> (r: JobResult<
        ConnectionCheckResult,
    >)
        ensures
            r matches Ok(res) && res.is_reachable && res.is_usable && res.error is None
                && (res.docker_version matches Some(v) && v@ == "24.0.0"@) && (res.uptime matches Some(
                u,
            ) && u@ == "1 day, 2 hours"@),
    {
        let reachable = self.check_connection(&ctx);
        if let Ok(true) = reachable {
            let docker = self.check_docker(&ctx);
            let uptime = self.get_uptime(&ctx);
            Ok(connection_check_result(reachable, docker, uptime))
        } else {
            Ok(connection_check_result(reachable, Ok(None), None))
        }
    }
}

impl Job for ServerConnectionCheckJob {
    fn name(&self) -> (r: &'static str)
        ensures
            r@ == "server_connection_check"@,
    {
        "server_connection_check"
    }

    fn max_tries(&self) -> (r: u32)
        ensures
            r == 1,
    {
        1
    }

    fn timeout_seconds(&self) -> (r: u64)
        ensures
            r == self.timeout(),
    {
        self.timeout_seconds
    }
}

} // verus!
