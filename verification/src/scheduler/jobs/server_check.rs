//! Server Health Check Job
//!
//! The commands of a health check, the readings taken from their output,
//! and what the readings say about the server. Percentages and load
//! averages are decimal numbers and are judged by the caller.

use vstd::prelude::*;
use crate::platform::{Error, ServerStatus};
use crate::text::{
    chars_of, owned, parse_u64, parse_unsigned, string_from, trim, trim_exec, views, words,
    words_exec,
};

verus! {

/// Server check context
#[derive(Debug, Clone, Copy)]
pub struct ServerCheckContext {
    pub server_id: u128,
    pub check_docker: bool,
    pub check_disk: bool,
    pub check_memory: bool,
}

/// The checks of a health check, in the order they run.
#[derive(Debug, Clone, Copy, PartialEq, Eq, Structural)]
pub enum CheckStep {
    Reachability,
    Docker,
    Disk,
    Memory,
    CpuLoad,
    Done,
}

/// The first check from `s` on that the context switches on: the daemon,
/// disk and memory checks as asked, the load always.
pub open spec fn enabled_from(c: ServerCheckContext, s: CheckStep) -> CheckStep {
    match s {
        CheckStep::Docker => if c.check_docker {
            CheckStep::Docker
        } else if c.check_disk {
            CheckStep::Disk
        } else if c.check_memory {
            CheckStep::Memory
        } else {
            CheckStep::CpuLoad
        },
        CheckStep::Disk => if c.check_disk {
            CheckStep::Disk
        } else if c.check_memory {
            CheckStep::Memory
        } else {
            CheckStep::CpuLoad
        },
        CheckStep::Memory => if c.check_memory {
            CheckStep::Memory
        } else {
            CheckStep::CpuLoad
        },
        _ => s,
    }
}

/// The check after `s`: an unreachable server ends the health check;
/// otherwise the next check that the context switches on, the load check
/// last.
pub open spec fn next_enabled_check(c: ServerCheckContext, s: CheckStep, reachable: bool) -> CheckStep {
    match s {
        CheckStep::Reachability => if reachable {
            enabled_from(c, CheckStep::Docker)
        } else {
            CheckStep::Done
        },
        CheckStep::Docker => enabled_from(c, CheckStep::Disk),
        CheckStep::Disk => enabled_from(c, CheckStep::Memory),
        CheckStep::Memory => CheckStep::CpuLoad,
        _ => CheckStep::Done,
    }
}

fn enabled_from_exec(c: &ServerCheckContext, s: CheckStep) -> (r: CheckStep)
    ensures
        r == enabled_from(*c, s),
{
    match s {
        CheckStep::Docker => if c.check_docker {
            CheckStep::Docker
        } else if c.check_disk {
            CheckStep::Disk
        } else if c.check_memory {
            CheckStep::Memory
        } else {
            CheckStep::CpuLoad
        },
        CheckStep::Disk => if c.check_disk {
            CheckStep::Disk
        } else if c.check_memory {
            CheckStep::Memory
        } else {
            CheckStep::CpuLoad
        },
        CheckStep::Memory => if c.check_memory {
            CheckStep::Memory
        } else {
            CheckStep::CpuLoad
        },
        _ => s,
    }
}

/// The first check of a health check: whether the server can be reached.
pub fn first_check(ctx: &ServerCheckContext) -> (r: CheckStep)
    ensures
        r == CheckStep::Reachability,
{
    CheckStep::Reachability
}

/// The check after `s`, given whether the server was reachable.
pub fn next_check(ctx: &ServerCheckContext, s: CheckStep, reachable: bool) -> (r: CheckStep)
    ensures
        r == next_enabled_check(*ctx, s, reachable),
        (s == CheckStep::Reachability && !reachable) ==> r == CheckStep::Done,
{
    match s {
        CheckStep::Reachability => if reachable {
            enabled_from_exec(ctx, CheckStep::Docker)
        } else {
            CheckStep::Done
        },
        CheckStep::Docker => enabled_from_exec(ctx, CheckStep::Disk),
        CheckStep::Disk => enabled_from_exec(ctx, CheckStep::Memory),
        CheckStep::Memory => CheckStep::CpuLoad,
        _ => CheckStep::Done,
    }
}

/// The command that runs a check; `None` for the reachability probe, which
/// is the shell's own, and for the end.
pub fn check_command(s: CheckStep) -> (r: Option<String>)
    ensures
        match s {
            CheckStep::Docker => r matches Some(c) && c@
                == "docker info >/dev/null 2>&1 && echo 1 || echo 0"@,
            CheckStep::Disk => r matches Some(c) && c@
                == "df -h / | tail -1 | awk '{print $2,$3,$4,$5}'"@,
            CheckStep::Memory => r matches Some(c) && c@
                == "free -m | grep Mem | awk '{print $2,$3,$4,$7}'"@,
            CheckStep::CpuLoad => r matches Some(c) && c@ == "cat /proc/loadavg"@,
            _ => r is None,
        },
{
    match s {
        CheckStep::Docker => Some(docker_check_command()),
        CheckStep::Disk => Some(disk_usage_command()),
        CheckStep::Memory => Some(memory_usage_command()),
        CheckStep::CpuLoad => Some(cpu_load_command()),
        _ => None,
    }
}

/// The command that reports whether the Docker daemon runs (`1` or `0`).
pub fn docker_check_command() -> (r: String)
    ensures
        r@ == "docker info >/dev/null 2>&1 && echo 1 || echo 0"@,
{
    owned("docker info >/dev/null 2>&1 && echo 1 || echo 0")
}

/// The command that reports size, used, available and use% of `/`.
pub fn disk_usage_command() -> (r: String)
    ensures
        r@ == "df -h / | tail -1 | awk '{print $2,$3,$4,$5}'"@,
{
    owned("df -h / | tail -1 | awk '{print $2,$3,$4,$5}'")
}

/// The command that reports total, used, free and available memory in MiB.
pub fn memory_usage_command() -> (r: String)
    ensures
        r@ == "free -m | grep Mem | awk '{print $2,$3,$4,$7}'"@,
{
    owned("free -m | grep Mem | awk '{print $2,$3,$4,$7}'")
}

/// The command that reports the load averages.
pub fn cpu_load_command() -> (r: String)
    ensures
        r@ == "cat /proc/loadavg"@,
{
    owned("cat /proc/loadavg")
}

/// Docker runs when the check printed `1`.
pub fn docker_running_from(stdout: &str) -> (b: bool)
    ensures
        b == (trim(stdout@) == "1"@),
{
    let v = chars_of(stdout);
    let t = trim_exec(&v);
    crate::text::equals(&t, "1")
}

/// The first `n` whitespace-separated fields of `stdout`, or an internal
/// error with `failure` when there are fewer.
fn fields(stdout: &str, n: usize, failure: &str) -> (r: Result<Vec<String>, Error>)
    ensures
        match r {
            Ok(v) => words(trim(stdout@)).len() >= n && v@.len() == n && forall|i: int|
                0 <= i < n ==> (#[trigger] v@[i])@ == words(trim(stdout@))[i],
            Err(e) => words(trim(stdout@)).len() < n && (e matches Error::Internal(m) && m@
                == failure@),
        },
{
    let v = chars_of(stdout);
    let t = trim_exec(&v);
    let ws = words_exec(&t);
    assert(views(ws@).len() == ws@.len());
    if ws.len() < n {
        return Err(Error::Internal(owned(failure)));
    }
    let mut out: Vec<String> = Vec::new();
    let mut i: usize = 0;
    while i < n
        invariant
            i <= n <= ws@.len(),
            views(ws@) == words(trim(stdout@)),
            out@.len() == i,
            forall|j: int| 0 <= j < i ==> (#[trigger] out@[j])@ == words(trim(stdout@))[j],
        decreases n - i,
    {
        assert(views(ws@)[i as int] == ws@[i as int]@);
        out.push(string_from(&ws[i]));
        i = i + 1;
    }
    Ok(out)
}

/// The size, used, available and use% fields of the disk report (the
/// percentage still with its `%`).
pub fn disk_fields(stdout: &str) -> (r: Result<Vec<String>, Error>)
    ensures
        match r {
            Ok(v) => words(trim(stdout@)).len() >= 4 && v@.len() == 4 && forall|i: int|
                0 <= i < 4 ==> (#[trigger] v@[i])@ == words(trim(stdout@))[i],
            Err(e) => words(trim(stdout@)).len() < 4 && (e matches Error::Internal(m) && m@
                == "Failed to parse disk usage"@),
        },
{
    fields(stdout, 4, "Failed to parse disk usage")
}

/// The 1-, 5- and 15-minute load averages of the load report, as text.
pub fn cpu_fields(stdout: &str) -> (r: Result<Vec<String>, Error>)
    ensures
        match r {
            Ok(v) => words(trim(stdout@)).len() >= 3 && v@.len() == 3 && forall|i: int|
                0 <= i < 3 ==> (#[trigger] v@[i])@ == words(trim(stdout@))[i],
            Err(e) => words(trim(stdout@)).len() < 3 && (e matches Error::Internal(m) && m@
                == "Failed to parse CPU load"@),
        },
{
    fields(stdout, 3, "Failed to parse CPU load")
}

/// A number of MiB as reported, or 0 when the field is no number.
pub open spec fn mib_of(field: Seq<char>) -> nat {
    match parse_unsigned(field, u64::MAX as nat) {
        Some(n) => n,
        None => 0,
    }
}

/// Total, used, free and available memory in MiB from the memory report;
/// a field that is no number counts as 0.
pub fn memory_fields(stdout: &str) -> (r: Result<(u64, u64, u64, u64), Error>)
    ensures
        match r {
            Ok((t, u, f, a)) => words(trim(stdout@)).len() >= 4 && t == mib_of(
                words(trim(stdout@))[0],
            ) && u == mib_of(words(trim(stdout@))[1]) && f == mib_of(words(trim(stdout@))[2]) && a
                == mib_of(words(trim(stdout@))[3]),
            Err(e) => words(trim(stdout@)).len() < 4 && (e matches Error::Internal(m) && m@
                == "Failed to parse memory usage"@),
        },
{
    let v = chars_of(stdout);
    let t = trim_exec(&v);
    let ws = words_exec(&t);
    assert(views(ws@).len() == ws@.len());
    if ws.len() < 4 {
        return Err(Error::Internal(owned("Failed to parse memory usage")));
    }
    assert(views(ws@)[0] == ws@[0]@);
    assert(views(ws@)[1] == ws@[1]@);
    assert(views(ws@)[2] == ws@[2]@);
    assert(views(ws@)[3] == ws@[3]@);
    let total = match parse_u64(&ws[0]) {
        Some(n) => n,
        None => 0,
    };
    let used = match parse_u64(&ws[1]) {
        Some(n) => n,
        None => 0,
    };
    let free = match parse_u64(&ws[2]) {
        Some(n) => n,
        None => 0,
    };
    let available = match parse_u64(&ws[3]) {
        Some(n) => n,
        None => 0,
    };
    Ok((total, used, free, available))
}

/// What the SSH probe decides: reachable, or the error to report and stop.
pub fn reachability(probe: Result<bool, String>) -> (r: Result<(), String>)
    ensures
        match probe {
            Ok(true) => r is Ok,
            Ok(false) => r matches Err(m) && m@ == "SSH connection failed"@,
            Err(e) => r matches Err(m) && m@ == "SSH error: "@ + e@,
        },
{
    match probe {
        Ok(true) => Ok(()),
        Ok(false) => Err(owned("SSH connection failed")),
        Err(e) => Err(crate::kv::concat("SSH error: ", e.as_str())),
    }
}

/// What the Docker probe decides: whether the daemon runs, and the error
/// to report, if any.
pub fn docker_verdict(probe: Result<bool, String>) -> (r: (bool, Option<String>))
    ensures
        match probe {
            Ok(true) => r.0 && r.1 is None,
            Ok(false) => !r.0 && (r.1 matches Some(m) && m@ == "Docker daemon not running"@),
            Err(e) => !r.0 && (r.1 matches Some(m) && m@ == "Docker check failed: "@ + e@),
        },
{
    match probe {
        Ok(true) => (true, None),
        Ok(false) => (false, Some(owned("Docker daemon not running"))),
        Err(e) => (false, Some(crate::kv::concat("Docker check failed: ", e.as_str()))),
    }
}

/// The status a health check suggests: unreachable, else error without
/// Docker, else warning with errors, else running.
pub open spec fn status_for(is_reachable: bool, docker_running: bool, has_errors: bool) -> ServerStatus {
    if !is_reachable {
        ServerStatus::Unreachable
    } else if !docker_running {
        ServerStatus::Error
    } else if has_errors {
        ServerStatus::Warning
    } else {
        ServerStatus::Running
    }
}

/// The status a health check suggests.
pub fn suggested_status(is_reachable: bool, docker_running: bool, error_count: usize) -> (r:
    ServerStatus)
    ensures
        r == status_for(is_reachable, docker_running, error_count > 0),
{
    if !is_reachable {
        ServerStatus::Unreachable
    } else if !docker_running {
        ServerStatus::Error
    } else if error_count > 0 {
        ServerStatus::Warning
    } else {
        ServerStatus::Running
    }
}

/// A server is healthy when it is reachable, runs Docker and reported no errors.
pub fn is_healthy(is_reachable: bool, docker_running: bool, error_count: usize) -> (b: bool)
    ensures
        b == (is_reachable && docker_running && error_count == 0),
{
    is_reachable && docker_running && error_count == 0
}

/// A server is healthy exactly when its suggested status is `Running`.
pub proof fn law_healthy_iff_running(is_reachable: bool, docker_running: bool, error_count: nat)
    ensures
        (is_reachable && docker_running && error_count == 0) <==> status_for(
            is_reachable,
            docker_running,
            error_count > 0,
        ) == ServerStatus::Running,
{
}

} // verus!
