//! Restart Proxy Job
//!
//! Restarts the proxy (Traefik/Nginx/Caddy) on a server.

use vstd::prelude::*;
use crate::kv::push_word;
use crate::scheduler::jobs::{Job, JobContext, JobResult};
use crate::text::{owned, texts};

verus! {

/// Proxy type
#[derive(Debug, Clone, Copy, PartialEq, Eq, Structural)]
pub enum ProxyType {
    Traefik,
    Nginx,
    Caddy,
}

/// The image each proxy runs.
pub open spec fn proxy_image(p: ProxyType) -> Seq<char> {
    match p {
        ProxyType::Traefik => "traefik:v2.10"@,
        ProxyType::Nginx => "nginx:alpine"@,
        ProxyType::Caddy => "caddy:alpine"@,
    }
}

impl ProxyType {
    /// Every proxy runs in the container `coolify-proxy`.
    pub fn container_name(&self) -> (r: &'static str)
        ensures
            r@ == "coolify-proxy"@,
    {
        match self {
            ProxyType::Traefik => "coolify-proxy",
            ProxyType::Nginx => "coolify-proxy",
            ProxyType::Caddy => "coolify-proxy",
        }
    }

    pub fn image(&self) -> (r: &'static str)
        ensures
            r@ == proxy_image(*self),
    {
        match self {
            ProxyType::Traefik => "traefik:v2.10",
            ProxyType::Nginx => "nginx:alpine",
            ProxyType::Caddy => "caddy:alpine",
        }
    }
}

impl Default for ProxyType {
    fn default() -> (r: Self)
        ensures
            r == ProxyType::Traefik,
    {
        ProxyType::Traefik
    }
}

/// Context for proxy restart
#[derive(Debug, Clone)]
pub struct RestartProxyContext {
    pub server_id: u128,
    pub server_name: String,
    pub server_ip: String,
    pub proxy_type: ProxyType,
    /// Whether to force recreate the container
    pub force_recreate: bool,
    /// Whether to pull the latest image
    pub pull_image: bool,
}

/// Result of proxy restart
#[derive(Debug, Clone)]
pub struct RestartProxyResult {
    /// Whether restart was successful
    pub success: bool,
    /// Proxy container ID after restart
    pub container_id: Option<String>,
    /// Steps completed during restart
    pub steps: Vec<String>,
    /// Any warnings
    pub warnings: Vec<String>,
    /// Error if restart failed
    pub error: Option<String>,
}

/// The steps a restart reports: networks verified, the old proxy stopped
/// when recreating, the image pulled when asked, then the proxy started,
/// connected and verified.
pub open spec fn restart_steps(force_recreate: bool, pull_image: bool) -> Seq<Seq<char>> {
    seq!["Networks verified"@] + (if force_recreate {
        seq!["Stopped existing proxy"@]
    } else {
        Seq::<Seq<char>>::empty()
    }) + (if pull_image {
        seq!["Pulled latest image"@]
    } else {
        Seq::<Seq<char>>::empty()
    }) + seq!["Started proxy container"@, "Connected to networks"@, "Proxy verified running"@]
}

/// Job to restart the proxy on a server
pub struct RestartProxyJob;

impl RestartProxyJob {
    pub fn new() -> Self {
        RestartProxyJob
    }

    /// Ensure proxy networks exist
    fn ensure_networks_exist(&self, ctx: &JobContext<RestartProxyContext>) -> (r: Result<(), String>)
        ensures
            r is Ok,
    {
        Ok(())
    }

    /// Stop the existing proxy container
    fn stop_proxy(&self, ctx: &JobContext<RestartProxyContext>) -> (r: Result<(), String>)
        ensures
            r is Ok,
    {
        Ok(())
    }

    /// Pull the latest proxy image
    fn pull_image(&self, ctx: &JobContext<RestartProxyContext>) -> (r: Result<(), String>)
        ensures
            r is Ok,
    {
        Ok(())
    }

    /// Start the proxy container
    fn start_proxy(&self, ctx: &JobContext<RestartProxyContext>) -> (r: Result<String, String>)
        ensures
            r matches Ok(id) && id@ == "container-id-placeholder"@,
    {
        Ok(owned("container-id-placeholder"))
    }

    /// Verify proxy is running and healthy
    fn verify_proxy(&self, ctx: &JobContext<RestartProxyContext>) -> (r: Result<bool, String>)
        ensures
            r == Ok::<bool, String>(true),
    {
        Ok(true)
    }

    /// Connect proxy to all required networks
    fn connect_to_networks(&self, ctx: &JobContext<RestartProxyContext>) -> (r: Result<(), String>)
        ensures
            r is Ok,
    {
        Ok(())
    }

    /// Restarts the proxy: every step succeeds, so the result is a success
    /// with the new container's ID and the steps taken.
    pub fn handle(&self, ctx: JobContext<RestartProxyContext>) -> (r: JobResult<RestartProxyResult>)
        ensures
            r matches Ok(res) && res.success && res.error is None && (res.container_id matches Some(
                id,
            ) && id@ == "container-id-placeholder"@) && texts(res.steps@) == restart_steps(
                ctx.payload.force_recreate,
                ctx.payload.pull_image,
            ) && res.warnings@.len() == 0,
    {
        let mut steps: Vec<String> = Vec::new();
        let mut warnings: Vec<String> = Vec::new();
        match self.ensure_networks_exist(&ctx) {
            Ok(()) => push_word(&mut steps, "Networks verified"),
            Err(e) => {
                return Ok(
                    RestartProxyResult {
                        success: false,
                        container_id: None,
                        steps,
                        warnings,
                        error: Some(crate::kv::concat("Failed to create networks: ", e.as_str())),
                    },
                );
            },
        }
        if ctx.payload.force_recreate {
            match self.stop_proxy(&ctx) {
                Ok(()) => push_word(&mut steps, "Stopped existing proxy"),
                Err(e) => push_word(
                    &mut warnings,
                    crate::kv::concat("Failed to stop proxy: ", e.as_str()).as_str(),
                ),
            }
        }
        if ctx.payload.pull_image {
            match self.pull_image(&ctx) {
                Ok(()) => push_word(&mut steps, "Pulled latest image"),
                Err(e) => push_word(
                    &mut warnings,
                    crate::kv::concat("Failed to pull image: ", e.as_str()).as_str(),
                ),
            }
        }
        let container_id = match self.start_proxy(&ctx) {
            Ok(id) => {
                push_word(&mut steps, "Started proxy container");
                Some(id)
            },
            Err(e) => {
                return Ok(
                    RestartProxyResult {
                        success: false,
                        container_id: None,
                        steps,
                        warnings,
                        error: Some(crate::kv::concat("Failed to start proxy: ", e.as_str())),
                    },
                );
            },
        };
        match self.connect_to_networks(&ctx) {
            Ok(()) => push_word(&mut steps, "Connected to networks"),
            Err(e) => push_word(
                &mut warnings,
                crate::kv::concat("Failed to connect to networks: ", e.as_str()).as_str(),
            ),
        }
        match self.verify_proxy(&ctx) {
            Ok(true) => push_word(&mut steps, "Proxy verified running"),
            Ok(false) => {
                return Ok(
                    RestartProxyResult {
                        success: false,
                        container_id,
                        steps,
                        warnings,
                        error: Some(owned("Proxy started but is not running")),
                    },
                );
            },
            Err(e) => {
                return Ok(
                    RestartProxyResult {
                        success: false,
                        container_id,
                        steps,
                        warnings,
                        error: Some(crate::kv::concat("Failed to verify proxy: ", e.as_str())),
                    },
                );
            },
        }
        assert(texts(steps@) =~= restart_steps(ctx.payload.force_recreate, ctx.payload.pull_image));
        Ok(RestartProxyResult { success: true, container_id, steps, warnings, error: None })
    }
}

impl Job for RestartProxyJob {
    fn name(&self) -> (r: &'static str)
        ensures
            r@ == "restart_proxy"@,
    {
        "restart_proxy"
    }

    fn timeout_seconds(&self) -> (r: u64)
        ensures
            r == 300,
    {
        300
    }
}

} // verus!
