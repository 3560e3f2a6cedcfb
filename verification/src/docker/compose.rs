//! Docker Compose file structure. Maps are kept as lists of entries, one
//! per key, in the order they were written.

use vstd::prelude::*;

verus! {

/// Docker Compose file structure
#[derive(Debug, Clone)]
pub struct ComposeFile {
    pub version: Option<String>,
    pub services: Vec<(String, ComposeService)>,
    pub networks: Vec<(String, ComposeNetwork)>,
    pub volumes: Vec<(String, ComposeVolume)>,
}

#[derive(Debug, Clone)]
pub struct ComposeService {
    pub image: Option<String>,
    pub build: Option<ComposeBuild>,
    pub ports: Vec<String>,
    pub volumes: Vec<String>,
    pub environment: Vec<(String, String)>,
    pub networks: Vec<String>,
    pub depends_on: Vec<String>,
    pub restart: Option<String>,
    pub healthcheck: Option<ComposeHealthcheck>,
    pub labels: Vec<(String, String)>,
    pub deploy: Option<ComposeDeploy>,
}

#[derive(Debug, Clone)]
pub enum ComposeBuild {
    Simple(String),
    Extended { context: String, dockerfile: Option<String>, args: Vec<(String, String)> },
}

#[derive(Debug, Clone)]
pub struct ComposeHealthcheck {
    pub test: Option<Vec<String>>,
    pub interval: Option<String>,
    pub timeout: Option<String>,
    pub retries: Option<u32>,
    pub start_period: Option<String>,
}

#[derive(Debug, Clone)]
pub struct ComposeDeploy {
    pub replicas: Option<u32>,
    pub resources: Option<ComposeResources>,
}

#[derive(Debug, Clone)]
pub struct ComposeResources {
    pub limits: Option<ComposeResourceLimits>,
    pub reservations: Option<ComposeResourceLimits>,
}

#[derive(Debug, Clone)]
pub struct ComposeResourceLimits {
    pub cpus: Option<String>,
    pub memory: Option<String>,
}

#[derive(Debug, Clone)]
pub struct ComposeNetwork {
    pub external: Option<bool>,
    pub driver: Option<String>,
}

impl Default for ComposeNetwork {
    fn default() -> (r: Self)
        ensures
            r.external is None && r.driver is None,
    {
        ComposeNetwork { external: None, driver: None }
    }
}

#[derive(Debug, Clone)]
pub struct ComposeVolume {
    pub external: Option<bool>,
    pub driver: Option<String>,
}

impl Default for ComposeVolume {
    fn default() -> (r: Self)
        ensures
            r.external is None && r.driver is None,
    {
        ComposeVolume { external: None, driver: None }
    }
}

} // verus!
