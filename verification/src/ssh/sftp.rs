//! File transfer over an SSH session: the shell commands that move and
//! inspect files, and the reading of their output.

use vstd::prelude::*;
use crate::encoding::{base64_decode, base64_encode, base64_std, law_base64_injective};
use crate::ssh::error::SshError;
use crate::ssh::session::CommandOutput;
use crate::text::{chars_of, equals, lines, owned, parse_u64, parse_unsigned, string_from, trim, trim_exec, views};
use vstd::utf8::{decode_utf8, valid_utf8};

verus! {

/// A path in single quotes.
pub open spec fn quoted(p: Seq<char>) -> Seq<char> {
    "'"@ + p + "'"@
}

fn command_on(verb: &str, path: &str) -> (r: String)
    ensures
        r@ == verb@ + quoted(path@),
{
    let mut r = owned(verb);
    r.append("'");
    r.append(path);
    r.append("'");
    r
}

/// The command that creates a directory and its parents.
pub fn mkdir_command(path: &str) -> (r: String)
    ensures
        r@ == "mkdir -p "@ + quoted(path@),
{
    command_on("mkdir -p ", path)
}

/// What `std::path::Path::parent` gives for a path: the path without its
/// final component.
pub uninterp spec fn path_parent(p: Seq<char>) -> Option<Seq<char>>;

/// `Path::new(p).parent()`, as text: the path without its final component
/// (`Some("")` for a relative path of one component), `None` for a root,
/// a prefix or the empty path. The contract names the result and states
/// only that the empty path has no parent.
#[verifier::external_body]
pub(crate) fn parent_of(p: &str) -> (r: Option<String>)
    ensures
        crate::providers::opt_text(r) == path_parent(p@),
        p@.len() == 0 ==> r is None,
{
    std::path::Path::new(p).parent().map(|q| q.to_string_lossy().into_owned())
}

/// The command that writes base64-encoded content to a file.
pub open spec fn write_text(encoded: Seq<char>, path: Seq<char>) -> Seq<char> {
    "echo "@ + quoted(encoded) + " | base64 -d > "@ + quoted(path)
}

/// The commands of an upload: the creation of the parent directory, when
/// the path has one, and the writing of the content.
pub struct UploadPlan {
    pub mkdir: Option<String>,
    pub write: String,
}

/// The commands that upload bytes to a path.
pub fn upload_plan(remote_path: &str, content: &[u8]) -> (r: UploadPlan)
    requires
        4 * ((content@.len() + 2) / 3) <= usize::MAX,
    ensures
        crate::providers::opt_text(r.mkdir) == match path_parent(remote_path@) {
            Some(d) => Some("mkdir -p "@ + quoted(d)),
            None => None,
        },
        r.write@ == write_text(base64_std(content@), remote_path@),
{
    let encoded = base64_encode(content);
    let mkdir = match parent_of(remote_path) {
        Some(d) => Some(mkdir_command(d.as_str())),
        None => None,
    };
    let mut write = owned("echo ");
    write.append("'");
    write.append(encoded.as_str());
    write.append("'");
    write.append(" | base64 -d > ");
    write.append("'");
    write.append(remote_path);
    write.append("'");
    assert(write@ =~= write_text(base64_std(content@), remote_path@));
    UploadPlan { mkdir, write }
}

/// A command's outcome: success, or the failure with its standard error
/// behind the prefix.
pub fn sftp_check(out: &CommandOutput, prefix: &str) -> (r: Result<(), SshError>)
    ensures
        out.exit_code == 0 ==> r is Ok,
        out.exit_code != 0 ==> (r matches Err(SshError::SftpError(m)) && m@ == prefix@
            + out.stderr@),
{
    if out.exit_code == 0 {
        Ok(())
    } else {
        let mut m = owned(prefix);
        m.append(out.stderr.as_str());
        Err(SshError::SftpError(m))
    }
}

/// The command that prints a file base64-encoded.
pub fn download_command(path: &str) -> (r: String)
    ensures
        r@ == "base64 "@ + quoted(path@),
{
    command_on("base64 ", path)
}

/// The bytes of a downloaded file: the decoding of the trimmed output.
/// A failed command, or output that is not base64, is an error.
pub fn downloaded_bytes(out: &CommandOutput) -> (r: Result<Vec<u8>, SshError>)
    ensures
        out.exit_code != 0 ==> (r matches Err(SshError::SftpError(m)) && m@ == "Failed to read file: "@
            + out.stderr@),
        out.exit_code == 0 ==> (r is Ok <==> exists|v: Seq<u8>| base64_std(v) == trim(out.stdout@)),
        r matches Ok(v) ==> base64_std(v@) == trim(out.stdout@),
        forall|c: Seq<u8>|
            out.exit_code == 0 && trim(out.stdout@) == #[trigger] base64_std(c) ==> (r matches Ok(v)
                && v@ == c),
{
    match sftp_check(out, "Failed to read file: ") {
        Ok(()) => {},
        Err(e) => {
            return Err(e);
        },
    }
    let s = chars_of(out.stdout.as_str());
    let t = string_from(&trim_exec(&s));
    match base64_decode(t.as_str()) {
        Ok(v) => {
            assert forall|c: Seq<u8>| trim(out.stdout@) == #[trigger] base64_std(c) implies v@
                == c by {
                law_base64_injective(v@, c);
            }
            Ok(v)
        },
        Err(e) => {
            let mut m = owned("Failed to decode file content: ");
            m.append(e.as_str());
            Err(SshError::SftpError(m))
        },
    }
}

/// `String::from_utf8`: the text that valid UTF-8 encodes; invalid bytes
/// give the error's message.
#[verifier::external_body]
fn from_utf8(bytes: Vec<u8>) -> (r: Result<String, String>)
    ensures
        r is Ok <==> valid_utf8(bytes@),
        r matches Ok(s) ==> s@ == decode_utf8(bytes@),
{
    String::from_utf8(bytes).map_err(|e| e.to_string())
}

/// The text of downloaded bytes: an error unless they are UTF-8.
pub fn downloaded_text(bytes: Vec<u8>) -> (r: Result<String, SshError>)
    ensures
        r is Ok <==> valid_utf8(bytes@),
        r matches Ok(s) ==> s@ == decode_utf8(bytes@),
        r is Err ==> r matches Err(SshError::SftpError(m)),
{
    match from_utf8(bytes) {
        Ok(s) => Ok(s),
        Err(e) => {
            let mut m = owned("Invalid UTF-8: ");
            m.append(e.as_str());
            Err(SshError::SftpError(m))
        },
    }
}

/// The command that prints `1` when a path exists, else `0`.
pub fn exists_command(path: &str) -> (r: String)
    ensures
        r@ == "test -e "@ + quoted(path@) + " && echo 1 || echo 0"@,
{
    let mut r = command_on("test -e ", path);
    r.append(" && echo 1 || echo 0");
    r
}

/// The command that prints `1` when a path is a directory, else `0`.
pub fn is_dir_command(path: &str) -> (r: String)
    ensures
        r@ == "test -d "@ + quoted(path@) + " && echo 1 || echo 0"@,
{
    let mut r = command_on("test -d ", path);
    r.append(" && echo 1 || echo 0");
    r
}

/// The answer of a test command: its trimmed output is `1`.
pub fn test_answer(out: &CommandOutput) -> (b: bool)
    ensures
        b == (trim(out.stdout@) == "1"@),
{
    let s = chars_of(out.stdout.as_str());
    let t = trim_exec(&s);
    equals(&t, "1")
}

/// The command that removes a path, recursively when asked.
pub fn remove_command(path: &str, recursive: bool) -> (r: String)
    ensures
        r@ == (if recursive {
            "rm -rf "@
        } else {
            "rm -f "@
        }) + quoted(path@),
{
    if recursive {
        command_on("rm -rf ", path)
    } else {
        command_on("rm -f ", path)
    }
}

/// The command that lists a directory, one name per line.
pub fn list_command(path: &str) -> (r: String)
    ensures
        r@ == "ls -1 "@ + quoted(path@),
{
    command_on("ls -1 ", path)
}

/// The names a listing printed, one per line; a failed listing is an
/// error.
pub fn listed_names(out: &CommandOutput) -> (r: Result<Vec<String>, SshError>)
    ensures
        out.exit_code != 0 ==> (r matches Err(SshError::SftpError(m)) && m@
            == "Failed to list directory: "@ + out.stderr@),
        out.exit_code == 0 ==> (r matches Ok(v) && v@.map_values(|s: String| s@) == lines(
            out.stdout@,
        )),
{
    match sftp_check(out, "Failed to list directory: ") {
        Ok(()) => Ok(out.lines()),
        Err(e) => Err(e),
    }
}

/// The command that prints the size of a file in bytes.
pub fn file_size_command(path: &str) -> (r: String)
    ensures
        r@ == "stat -c%s "@ + quoted(path@),
{
    command_on("stat -c%s ", path)
}

/// `str::parse::<u64>`: the number that the text denotes, or the parse
/// error's message. The message's wording is left unsaid.
#[verifier::external_body]
fn parse_u64_std(s: &str) -> (r: Result<u64, String>)
    ensures
        match r {
            Ok(n) => parse_unsigned(s@, u64::MAX as nat) == Some(n as nat),
            Err(_) => parse_unsigned(s@, u64::MAX as nat) is None,
        },
{
    s.parse::<u64>().map_err(|e| e.to_string())
}

/// The size a `stat` printed: its trimmed output as a number; a failed
/// command, or output that is not a number, is an error.
pub fn file_size_result(out: &CommandOutput) -> (r: Result<u64, SshError>)
    ensures
        out.exit_code != 0 ==> (r matches Err(SshError::SftpError(m)) && m@
            == "Failed to get file size: "@ + out.stderr@),
        out.exit_code == 0 ==> match r {
            Ok(n) => parse_unsigned(trim(out.stdout@), u64::MAX as nat) == Some(n as nat),
            Err(e) => parse_unsigned(trim(out.stdout@), u64::MAX as nat) is None
                && e matches SshError::SftpError(_),
        },
{
    match sftp_check(out, "Failed to get file size: ") {
        Ok(()) => {},
        Err(e) => {
            return Err(e);
        },
    }
    let s = chars_of(out.stdout.as_str());
    let t = string_from(&trim_exec(&s));
    match parse_u64_std(t.as_str()) {
        Ok(n) => Ok(n),
        Err(e) => {
            let mut m = owned("Invalid size: ");
            m.append(e.as_str());
            Err(SshError::SftpError(m))
        },
    }
}

/// The command that sets the permissions of a path.
pub fn chmod_command(path: &str, mode: &str) -> (r: String)
    ensures
        r@ == "chmod "@ + mode@ + " "@ + quoted(path@),
{
    let mut r = owned("chmod ");
    r.append(mode);
    r.append(" ");
    r.append("'");
    r.append(path);
    r.append("'");
    assert(r@ =~= "chmod "@ + mode@ + " "@ + quoted(path@));
    r
}

/// The command that changes the owner of a path (run with `sudo`).
pub fn chown_command(path: &str, owner: &str) -> (r: String)
    ensures
        r@ == "chown "@ + owner@ + " "@ + quoted(path@),
{
    let mut r = owned("chown ");
    r.append(owner);
    r.append(" ");
    r.append("'");
    r.append(path);
    r.append("'");
    assert(r@ =~= "chown "@ + owner@ + " "@ + quoted(path@));
    r
}

} // verus!
