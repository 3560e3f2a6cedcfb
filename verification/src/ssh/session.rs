//! The output of a command run over SSH.

use vstd::prelude::*;
use crate::text::{chars_of, lines, lines_exec, string_from, views};

verus! {

/// What an authentication attempt concludes: a session when the server
/// accepted the key, else `Authentication rejected`.
pub fn authentication_outcome(authenticated: bool) -> (r: Result<(), crate::ssh::error::SshError>)
    ensures
        authenticated ==> r is Ok,
        !authenticated ==> (r matches Err(crate::ssh::error::SshError::AuthenticationFailed(m))
            && m@ == "Authentication rejected"@),
{
    if authenticated {
        Ok(())
    } else {
        Err(crate::ssh::error::SshError::AuthenticationFailed(crate::text::owned("Authentication rejected")))
    }
}

/// A command run through `sudo` without prompting for a password.
pub fn sudo_command(command: &str) -> (r: String)
    ensures
        r@ == "sudo -n "@ + command@,
{
    let mut r = crate::text::owned("sudo -n ");
    r.append(command);
    r
}

/// Output from a command execution
#[derive(Debug, Clone)]
pub struct CommandOutput {
    pub stdout: String,
    pub stderr: String,
    pub exit_code: i32,
}

/// Standard output and standard error together: either alone when the
/// other is empty, else both with a newline between.
pub open spec fn combined_text(stdout: Seq<char>, stderr: Seq<char>) -> Seq<char> {
    if stderr.len() == 0 {
        stdout
    } else if stdout.len() == 0 {
        stderr
    } else {
        stdout + "\n"@ + stderr
    }
}

impl CommandOutput {
    /// Check if the command succeeded (exit code 0)
    pub fn success(&self) -> (b: bool)
        ensures
            b == (self.exit_code == 0),
    {
        self.exit_code == 0
    }

    /// Get combined output (stdout + stderr)
    pub fn combined(&self) -> (r: String)
        ensures
            r@ == combined_text(self.stdout@, self.stderr@),
    {
        if self.stderr.as_str().is_empty() {
            self.stdout.clone()
        } else if self.stdout.as_str().is_empty() {
            self.stderr.clone()
        } else {
            let mut r = self.stdout.clone();
            r.append("\n");
            r.append(self.stderr.as_str());
            r
        }
    }

    /// Get stdout lines
    pub fn lines(&self) -> (r: Vec<String>)
        ensures
            r@.map_values(|s: String| s@) == lines(self.stdout@),
    {
        let v = chars_of(self.stdout.as_str());
        let ls = lines_exec(&v);
        let mut out: Vec<String> = Vec::new();
        let mut i: usize = 0;
        while i < ls.len()
            invariant
                i <= ls.len(),
                views(ls@) == lines(self.stdout@),
                out@.map_values(|s: String| s@) == views(ls@).take(i as int),
            decreases ls.len() - i,
        {
            let s = string_from(&ls[i]);
            assert(views(ls@)[i as int] == ls@[i as int]@);
            let ghost before = out@;
            out.push(s);
            assert(out@.map_values(|s: String| s@) =~= before.map_values(|s: String| s@).push(s@));
            assert(out@.map_values(|s: String| s@) =~= views(ls@).take(i + 1));
            i = i + 1;
        }
        assert(views(ls@).take(ls@.len() as int) =~= views(ls@));
        out
    }
}

} // verus!
