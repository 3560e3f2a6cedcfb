//! Deployment platform core logic: command construction, output parsing,
//! proxy configuration and job state machines, verified with Verus.

pub mod text;
pub mod encoding;
pub mod kv;
pub mod ids;
pub mod json;
pub mod ssh;
pub mod scheduler;
pub mod platform;
pub mod docker;
pub mod proxy;
pub mod providers;
