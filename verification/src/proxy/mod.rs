//! Reverse-proxy configuration for Traefik and Caddy.

use vstd::prelude::*;

pub mod caddy;
pub mod traefik;

verus! {

/// Service configuration for proxy
#[derive(Debug, Clone)]
pub struct ServiceConfig {
    pub name: String,
    pub container_name: String,
    pub domain: String,
    pub port: u16,
    pub https: bool,
    pub www_redirect: bool,
    pub headers: Vec<(String, String)>,
}

} // verus!
