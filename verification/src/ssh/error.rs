//! SSH-specific error types

use vstd::prelude::*;
use crate::platform::Error;
use crate::text::{nat_text, owned, u64_text};

verus! {

/// Errors of SSH connections and commands. `Io` carries the message of an
/// I/O error.
#[derive(Debug, Clone, PartialEq, Eq)]
pub enum SshError {
    ConnectionFailed(String),
    AuthenticationFailed(String),
    CommandFailed(String),
    SessionError(String),
    ChannelError(String),
    KeyError(String),
    SftpError(String),
    Timeout(u64),
    PoolExhausted,
    MaxRetriesExceeded(String),
    InvalidConfig(String),
    Io(String),
}

/// The message an error displays.
pub open spec fn ssh_error_text(e: SshError) -> Seq<char> {
    match e {
        SshError::ConnectionFailed(m) => "Connection failed: "@ + m@,
        SshError::AuthenticationFailed(m) => "Authentication failed: "@ + m@,
        SshError::CommandFailed(m) => "Command execution failed: "@ + m@,
        SshError::SessionError(m) => "Session error: "@ + m@,
        SshError::ChannelError(m) => "Channel error: "@ + m@,
        SshError::KeyError(m) => "Key parsing error: "@ + m@,
        SshError::SftpError(m) => "SFTP error: "@ + m@,
        SshError::Timeout(s) => "Timeout: operation took longer than "@ + nat_text(s as nat)
            + " seconds"@,
        SshError::PoolExhausted => "Connection pool exhausted"@,
        SshError::MaxRetriesExceeded(m) => "Max retries exceeded: "@ + m@,
        SshError::InvalidConfig(m) => "Invalid configuration: "@ + m@,
        SshError::Io(m) => "IO error: "@ + m@,
    }
}

fn prefixed(prefix: &str, m: &String) -> (r: String)
    ensures
        r@ == prefix@ + m@,
{
    let mut r = owned(prefix);
    r.append(m.as_str());
    r
}

/// Whether a failure may go away when the operation is tried again.
pub trait Retryable {
    fn is_retryable(&self) -> bool;
}

impl Retryable for SshError {
    /// Connection, session and channel failures and timeouts are retryable.
    fn is_retryable(&self) -> (b: bool)
        ensures
            b == (self is ConnectionFailed || self is SessionError || self is ChannelError
                || self is Timeout),
    {
        match self {
            SshError::ConnectionFailed(_) => true,
            SshError::SessionError(_) => true,
            SshError::ChannelError(_) => true,
            SshError::Timeout(_) => true,
            _ => false,
        }
    }
}

impl SshError {
    /// The message this error displays.
    pub fn message(&self) -> (r: String)
        ensures
            r@ == ssh_error_text(*self),
    {
        match self {
            SshError::ConnectionFailed(m) => prefixed("Connection failed: ", m),
            SshError::AuthenticationFailed(m) => prefixed("Authentication failed: ", m),
            SshError::CommandFailed(m) => prefixed("Command execution failed: ", m),
            SshError::SessionError(m) => prefixed("Session error: ", m),
            SshError::ChannelError(m) => prefixed("Channel error: ", m),
            SshError::KeyError(m) => prefixed("Key parsing error: ", m),
            SshError::SftpError(m) => prefixed("SFTP error: ", m),
            SshError::Timeout(s) => {
                let mut r = owned("Timeout: operation took longer than ");
                let t = u64_text(*s);
                r.append(t.as_str());
                r.append(" seconds");
                r
            },
            SshError::PoolExhausted => owned("Connection pool exhausted"),
            SshError::MaxRetriesExceeded(m) => prefixed("Max retries exceeded: ", m),
            SshError::InvalidConfig(m) => prefixed("Invalid configuration: ", m),
            SshError::Io(m) => prefixed("IO error: ", m),
        }
    }

    /// The platform error this becomes: an SSH error carrying the message.
    pub fn into_platform(&self) -> (r: Error)
        ensures
            r matches Error::Ssh(m) && m@ == ssh_error_text(*self),
    {
        Error::Ssh(self.message())
    }
}

} // verus!
