//! Docker: image references, networks, volumes, containers, builds and the
//! commands that manage them on a remote host.

pub mod image;
pub mod network;
pub mod volume;
pub mod container;
pub mod error;
pub mod executor;
pub mod builder;
pub mod compose;
