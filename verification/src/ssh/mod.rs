//! Remote execution over SSH: commands and batches, their output, errors,
//! retry decisions, the connection pool's bookkeeping and file transfer
//! commands.

pub mod command;
pub mod error;
pub mod session;
pub mod multiplexer;
pub mod retry;
pub mod sftp;
pub mod executor;
pub mod key;
