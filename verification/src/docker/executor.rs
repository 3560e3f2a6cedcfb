//! The Docker operations run on a remote host: the command line of each,
//! and what its SSH outcome means.
//!
//! An SSH outcome is the command's output, or the message of the error that
//! kept it from running. Each `*_command` function builds the command line
//! that the operation runs; each `*_result` function turns the outcome into
//! the operation's result.

use vstd::prelude::*;
use crate::docker::error::{DockerError, DockerErrorView};
use crate::kv::{concat, push_word};
use crate::ssh::command::CommandBatch;
use crate::ssh::session::{CommandOutput, combined_text};
use crate::text::{
    chars_of, contains, contains_str, join, join_exec, nat_text, owned, string_from, texts, trim,
    trim_exec, u64_text,
};

verus! {

/// What running a command over SSH gave: its output, or the message of the
/// error that kept it from running.
pub type SshOutcome = Result<CommandOutput, String>;

/// A result with its text and error as views.
pub open spec fn text_result(r: Result<String, DockerError>) -> Result<Seq<char>, DockerErrorView> {
    match r {
        Ok(s) => Ok(s@),
        Err(e) => Err(e@),
    }
}

/// A result with its error as a view.
pub open spec fn unit_result(r: Result<(), DockerError>) -> Result<(), DockerErrorView> {
    match r {
        Ok(_) => Ok(()),
        Err(e) => Err(e@),
    }
}

/// How a failure is reported: an SSH error as `CommandFailed` with its
/// message, a non-zero exit as `CommandFailed` with the standard error
/// unless it mentions `marker`, in which case as `special`.
pub open spec fn failure_of(
    out: SshOutcome,
    marker: Option<Seq<char>>,
    special: DockerErrorView,
) -> Option<DockerErrorView> {
    match out {
        Err(m) => Some(DockerErrorView::CommandFailed(m@)),
        Ok(o) => if o.exit_code == 0 {
            None
        } else if marker is Some && contains(o.stderr@, marker.unwrap()) {
            Some(special)
        } else {
            Some(DockerErrorView::CommandFailed(o.stderr@))
        },
    }
}

/// Succeeds with the trimmed standard output unless the command failed.
pub open spec fn trimmed_result(
    out: SshOutcome,
    marker: Option<Seq<char>>,
    special: DockerErrorView,
) -> Result<Seq<char>, DockerErrorView> {
    match failure_of(out, marker, special) {
        Some(e) => Err(e),
        None => Ok(trim(out.unwrap().stdout@)),
    }
}

/// Succeeds unless the command failed.
pub open spec fn unit_of(
    out: SshOutcome,
    marker: Option<Seq<char>>,
    special: DockerErrorView,
) -> Result<(), DockerErrorView> {
    match failure_of(out, marker, special) {
        Some(e) => Err(e),
        None => Ok(()),
    }
}

/// Succeeds unless SSH failed or the command failed without mentioning
/// `marker` (a missing object counts as removed).
pub open spec fn removal_of(out: SshOutcome, marker: Seq<char>) -> Result<(), DockerErrorView> {
    match out {
        Err(m) => Err(DockerErrorView::CommandFailed(m@)),
        Ok(o) => if o.exit_code != 0 && !contains(o.stderr@, marker) {
            Err(DockerErrorView::CommandFailed(o.stderr@))
        } else {
            Ok(())
        },
    }
}

fn stderr_mentions(o: &CommandOutput, marker: &str) -> (b: bool)
    ensures
        b == contains(o.stderr@, marker@),
{
    let v = chars_of(o.stderr.as_str());
    contains_str(&v, marker)
}

fn trimmed(s: &String) -> (r: String)
    ensures
        r@ == trim(s@),
{
    let v = chars_of(s.as_str());
    let t = trim_exec(&v);
    string_from(&t)
}

/// Classifies an outcome; `special` is the error for a failure whose
/// standard error mentions `marker`.
fn check(out: SshOutcome, marker: Option<&str>, special: DockerError) -> (r: Result<
    CommandOutput,
    DockerError,
>)
    ensures
        match r {
            Ok(o) => failure_of(out, marker_view(marker), special@) is None && out == Ok::<
                CommandOutput,
                String,
            >(o),
            Err(e) => failure_of(out, marker_view(marker), special@) == Some(e@),
        },
{
    match out {
        Err(m) => Err(DockerError::CommandFailed(m)),
        Ok(o) => {
            if o.exit_code == 0 {
                Ok(o)
            } else {
                let hit = match marker {
                    Some(mk) => stderr_mentions(&o, mk),
                    None => false,
                };
                if hit {
                    Err(special)
                } else {
                    Err(DockerError::CommandFailed(o.stderr))
                }
            }
        },
    }
}

/// The view of an optional marker.
pub open spec fn marker_view(m: Option<&str>) -> Option<Seq<char>> {
    match m {
        Some(s) => Some(s@),
        None => None,
    }
}

fn removal(out: SshOutcome, marker: &str) -> (r: Result<(), DockerError>)
    ensures
        unit_result(r) == removal_of(out, marker@),
{
    match out {
        Err(m) => Err(DockerError::CommandFailed(m)),
        Ok(o) => {
            if o.exit_code != 0 && !stderr_mentions(&o, marker) {
                Err(DockerError::CommandFailed(o.stderr))
            } else {
                Ok(())
            }
        },
    }
}

// ===== Container operations =====

/// Outcome of `docker run`: the new container's ID, or `ContainerExists`
/// when the name is taken.
pub fn run_container_result(name: &str, out: SshOutcome) -> (r: Result<String, DockerError>)
    ensures
        text_result(r) == trimmed_result(
            out,
            Some("already in use"@),
            DockerErrorView::ContainerExists(name@),
        ),
{
    match check(out, Some("already in use"), DockerError::ContainerExists(owned(name))) {
        Ok(o) => Ok(trimmed(&o.stdout)),
        Err(e) => Err(e),
    }
}

/// `docker <verb> -t <seconds> <container>`, ten seconds by default.
pub open spec fn timed_command(verb: Seq<char>, container: Seq<char>, timeout: Option<u64>) -> Seq<
    char,
> {
    "docker "@ + verb + " -t "@ + nat_text(
        (match timeout {
            Some(t) => t,
            None => 10u64,
        }) as nat,
    ) + " "@ + container
}

fn timed_command_exec(verb: &str, container: &str, timeout: Option<u64>) -> (r: String)
    ensures
        r@ == timed_command(verb@, container@, timeout),
{
    let secs: u64 = match timeout {
        Some(t) => t,
        None => 10,
    };
    let mut r = owned("docker ");
    r.append(verb);
    r.append(" -t ");
    let t = u64_text(secs);
    r.append(t.as_str());
    r.append(" ");
    r.append(container);
    r
}

/// `docker stop -t <seconds> <container>`.
pub fn stop_container_command(container: &str, timeout_secs: Option<u64>) -> (r: String)
    ensures
        r@ == timed_command("stop"@, container@, timeout_secs),
{
    timed_command_exec("stop", container, timeout_secs)
}

/// Outcome of stopping or starting a container: `ContainerNotFound` when
/// Docker reports no such container.
pub fn stop_container_result(container: &str, out: SshOutcome) -> (r: Result<(), DockerError>)
    ensures
        unit_result(r) == unit_of(
            out,
            Some("No such container"@),
            DockerErrorView::ContainerNotFound(container@),
        ),
{
    match check(out, Some("No such container"), DockerError::ContainerNotFound(owned(container))) {
        Ok(_) => Ok(()),
        Err(e) => Err(e),
    }
}

/// `docker start <container>`.
pub fn start_container_command(container: &str) -> (r: String)
    ensures
        r@ == "docker start "@ + container@,
{
    concat("docker start ", container)
}

/// `docker restart -t <seconds> <container>`.
pub fn restart_container_command(container: &str, timeout_secs: Option<u64>) -> (r: String)
    ensures
        r@ == timed_command("restart"@, container@, timeout_secs),
{
    timed_command_exec("restart", container, timeout_secs)
}

/// Outcome of a command with no result of its own.
pub fn plain_result(out: SshOutcome) -> (r: Result<(), DockerError>)
    ensures
        unit_result(r) == unit_of(out, None, DockerErrorView::Timeout),
{
    match check(out, None, DockerError::Timeout) {
        Ok(_) => Ok(()),
        Err(e) => Err(e),
    }
}

/// Outcome of a command whose result is its trimmed standard output (the
/// ID of a created network or volume).
pub fn created_result(out: SshOutcome) -> (r: Result<String, DockerError>)
    ensures
        text_result(r) == trimmed_result(out, None, DockerErrorView::Timeout),
{
    match check(out, None, DockerError::Timeout) {
        Ok(o) => Ok(trimmed(&o.stdout)),
        Err(e) => Err(e),
    }
}

/// The words of `docker rm`.
pub open spec fn remove_container_words(container: Seq<char>, force: bool, volumes: bool) -> Seq<
    Seq<char>,
> {
    seq!["docker"@, "rm"@] + (if force {
        seq!["-f"@]
    } else {
        Seq::<Seq<char>>::empty()
    }) + (if volumes {
        seq!["-v"@]
    } else {
        Seq::<Seq<char>>::empty()
    }) + seq![container]
}

/// `docker rm [-f] [-v] <container>`.
pub fn remove_container_command(container: &str, force: bool, volumes: bool) -> (r: String)
    ensures
        r@ == join(remove_container_words(container@, force, volumes), " "@),
{
    let mut cmd: Vec<String> = Vec::new();
    push_word(&mut cmd, "docker");
    push_word(&mut cmd, "rm");
    if force {
        push_word(&mut cmd, "-f");
    }
    if volumes {
        push_word(&mut cmd, "-v");
    }
    push_word(&mut cmd, container);
    assert(texts(cmd@) =~= remove_container_words(container@, force, volumes));
    join_exec(&cmd, " ")
}

/// Outcome of removing a container: one that does not exist counts as removed.
pub fn remove_container_result(out: SshOutcome) -> (r: Result<(), DockerError>)
    ensures
        unit_result(r) == removal_of(out, "No such container"@),
{
    removal(out, "No such container")
}

/// The words of `docker logs`.
pub open spec fn logs_words(container: Seq<char>, tail: Option<u64>, since: Option<Seq<char>>) -> Seq<
    Seq<char>,
> {
    seq!["docker"@, "logs"@] + match tail {
        Some(n) => seq!["--tail"@, nat_text(n as nat)],
        None => Seq::<Seq<char>>::empty(),
    } + match since {
        Some(s) => seq!["--since"@, s],
        None => Seq::<Seq<char>>::empty(),
    } + seq![container]
}

/// `docker logs [--tail n] [--since s] <container>`.
pub fn logs_command(container: &str, tail: Option<u64>, since: Option<&str>) -> (r: String)
    ensures
        r@ == join(logs_words(container@, tail, marker_view(since)), " "@),
{
    let mut cmd: Vec<String> = Vec::new();
    push_word(&mut cmd, "docker");
    push_word(&mut cmd, "logs");
    match tail {
        Some(n) => {
            push_word(&mut cmd, "--tail");
            let t = u64_text(n);
            push_word(&mut cmd, t.as_str());
        },
        None => {},
    }
    match since {
        Some(s) => {
            push_word(&mut cmd, "--since");
            push_word(&mut cmd, s);
        },
        None => {},
    }
    push_word(&mut cmd, container);
    assert(texts(cmd@) =~= logs_words(container@, tail, marker_view(since)));
    join_exec(&cmd, " ")
}

/// Outcome of reading logs: standard output and error together.
pub fn output_text_result(out: SshOutcome, compose: bool) -> (r: Result<String, DockerError>)
    ensures
        text_result(r) == match out {
            Err(m) => if compose {
                Err(DockerErrorView::ComposeError(m@))
            } else {
                Err(DockerErrorView::CommandFailed(m@))
            },
            Ok(o) => Ok(combined_text(o.stdout@, o.stderr@)),
        },
{
    match out {
        Err(m) => if compose {
            Err(DockerError::ComposeError(m))
        } else {
            Err(DockerError::CommandFailed(m))
        },
        Ok(o) => Ok(o.combined()),
    }
}

/// The words of `docker exec`: the command runs under `sh -c` in single quotes.
pub open spec fn exec_words(container: Seq<char>, command: Seq<char>, interactive: bool) -> Seq<
    Seq<char>,
> {
    seq!["docker"@, "exec"@] + (if interactive {
        seq!["-it"@]
    } else {
        Seq::<Seq<char>>::empty()
    }) + seq![container, "sh"@, "-c"@, "'"@ + command + "'"@]
}

/// `docker exec [-it] <container> sh -c '<command>'`.
pub fn exec_command(container: &str, command: &str, interactive: bool) -> (r: String)
    ensures
        r@ == join(exec_words(container@, command@, interactive), " "@),
{
    let mut cmd: Vec<String> = Vec::new();
    push_word(&mut cmd, "docker");
    push_word(&mut cmd, "exec");
    if interactive {
        push_word(&mut cmd, "-it");
    }
    push_word(&mut cmd, container);
    push_word(&mut cmd, "sh");
    push_word(&mut cmd, "-c");
    let mut q = owned("'");
    q.append(command);
    q.append("'");
    push_word(&mut cmd, q.as_str());
    assert(texts(cmd@) =~= exec_words(container@, command@, interactive));
    join_exec(&cmd, " ")
}

/// Outcome of `docker exec`: the output whatever the exit code.
pub fn exec_result(out: SshOutcome) -> (r: Result<CommandOutput, DockerError>)
    ensures
        match out {
            Err(m) => r matches Err(e) && e@ == DockerErrorView::CommandFailed(m@),
            Ok(o) => r == Ok::<CommandOutput, DockerError>(o),
        },
{
    match out {
        Err(m) => Err(DockerError::CommandFailed(m)),
        Ok(o) => Ok(o),
    }
}

/// `docker stats <container> --no-stream --format '{{json .}}'`.
pub fn stats_command(container: &str) -> (r: String)
    ensures
        r@ == "docker stats "@ + container@ + " --no-stream --format '{{json .}}'"@,
{
    let mut r = concat("docker stats ", container);
    r.append(" --no-stream --format '{{json .}}'");
    r
}

/// Outcome of a command whose standard output is then read as JSON.
pub fn json_output_result(out: SshOutcome) -> (r: Result<String, DockerError>)
    ensures
        text_result(r) == match failure_of(out, None, DockerErrorView::Timeout) {
            Some(e) => Err(e),
            None => Ok(out.unwrap().stdout@),
        },
{
    match check(out, None, DockerError::Timeout) {
        Ok(o) => Ok(o.stdout),
        Err(e) => Err(e),
    }
}

/// The command that reads a container's health status.
pub fn health_status_command(container: &str) -> (r: String)
    ensures
        r@ == "docker inspect --format='{{.State.Health.Status}}' "@ + container@,
{
    concat("docker inspect --format='{{.State.Health.Status}}' ", container)
}

/// What one health poll decides: `Some` ends the wait (healthy, unhealthy
/// or the command failed), `None` waits for another poll.
pub open spec fn health_poll(container: Seq<char>, out: SshOutcome) -> Option<
    Result<(), DockerErrorView>,
> {
    match out {
        Err(m) => Some(Err(DockerErrorView::CommandFailed(m@))),
        Ok(o) => if trim(o.stdout@) == "healthy"@ {
            Some(Ok(()))
        } else if trim(o.stdout@) == "unhealthy"@ {
            Some(Err(DockerErrorView::HealthCheckFailed(container)))
        } else {
            None
        },
    }
}

/// One poll of the health wait.
pub fn health_poll_step(container: &str, out: SshOutcome) -> (r: Option<Result<(), DockerError>>)
    ensures
        match r {
            Some(x) => health_poll(container@, out) == Some(unit_result(x)),
            None => health_poll(container@, out) is None,
        },
{
    match out {
        Err(m) => Some(Err(DockerError::CommandFailed(m))),
        Ok(o) => {
            let v = chars_of(o.stdout.as_str());
            let t = trim_exec(&v);
            if crate::text::equals(&t, "healthy") {
                Some(Ok(()))
            } else if crate::text::equals(&t, "unhealthy") {
                Some(Err(DockerError::HealthCheckFailed(owned(container))))
            } else {
                None
            }
        },
    }
}

/// `docker inspect <container>`.
pub fn inspect_command(container: &str) -> (r: String)
    ensures
        r@ == "docker inspect "@ + container@,
{
    concat("docker inspect ", container)
}

/// Outcome of `docker inspect` before its JSON is read: `ContainerNotFound`
/// when Docker reports no such object.
pub fn inspect_result(container: &str, out: SshOutcome) -> (r: Result<String, DockerError>)
    ensures
        text_result(r) == match failure_of(
            out,
            Some("No such"@),
            DockerErrorView::ContainerNotFound(container@),
        ) {
            Some(e) => Err(e),
            None => Ok(out.unwrap().stdout@),
        },
{
    match check(out, Some("No such"), DockerError::ContainerNotFound(owned(container))) {
        Ok(o) => Ok(o.stdout),
        Err(e) => Err(e),
    }
}

/// The first of the inspected objects, or `ContainerNotFound`.
pub fn first_inspected<T>(container: &str, inspects: Vec<T>) -> (r: Result<T, DockerError>)
    ensures
        inspects@.len() > 0 ==> r == Ok::<T, DockerError>(inspects@[0]),
        inspects@.len() == 0 ==> (r matches Err(e) && e@ == DockerErrorView::ContainerNotFound(
            container@,
        )),
{
    let mut v = inspects;
    if v.len() == 0 {
        Err(DockerError::ContainerNotFound(owned(container)))
    } else {
        Ok(v.remove(0))
    }
}

// ===== Network and volume operations =====

/// `docker network rm <network>`.
pub fn remove_network_command(network: &str) -> (r: String)
    ensures
        r@ == "docker network rm "@ + network@,
{
    concat("docker network rm ", network)
}

/// Outcome of removing a network: one that does not exist counts as removed.
pub fn remove_network_result(out: SshOutcome) -> (r: Result<(), DockerError>)
    ensures
        unit_result(r) == removal_of(out, "No such network"@),
{
    removal(out, "No such network")
}

/// `docker network connect <network> <container>`.
pub fn connect_network_command(network: &str, container: &str) -> (r: String)
    ensures
        r@ == "docker network connect "@ + network@ + " "@ + container@,
{
    let mut r = concat("docker network connect ", network);
    r.append(" ");
    r.append(container);
    r
}

/// `docker volume rm [-f] <volume>`.
pub fn remove_volume_command(volume: &str, force: bool) -> (r: String)
    ensures
        r@ == (if force {
            "docker volume rm -f "@
        } else {
            "docker volume rm "@
        }) + volume@,
{
    if force {
        concat("docker volume rm -f ", volume)
    } else {
        concat("docker volume rm ", volume)
    }
}

/// Outcome of removing a volume: one that does not exist counts as removed.
pub fn remove_volume_result(out: SshOutcome) -> (r: Result<(), DockerError>)
    ensures
        unit_result(r) == removal_of(out, "No such volume"@),
{
    removal(out, "No such volume")
}

// ===== Compose operations =====

/// Where the compose file goes.
pub fn compose_path(working_dir: &str) -> (r: String)
    ensures
        r@ == working_dir@ + "/docker-compose.yml"@,
{
    concat(working_dir, "/docker-compose.yml")
}

/// `cd <dir> && docker compose -p <project> <rest>`.
pub open spec fn compose_line(working_dir: Seq<char>, project: Seq<char>, rest: Seq<char>) -> Seq<
    char,
> {
    "cd "@ + working_dir + " && docker compose -p "@ + project + " "@ + rest
}

fn compose_line_exec(working_dir: &str, project: &str, rest: &str) -> (r: String)
    ensures
        r@ == compose_line(working_dir@, project@, rest@),
{
    let mut r = owned("cd ");
    r.append(working_dir);
    r.append(" && docker compose -p ");
    r.append(project);
    r.append(" ");
    r.append(rest);
    r
}

/// The batch that pulls the images and then brings the project up.
pub fn compose_up_batch(working_dir: &str, project: &str) -> (r: CommandBatch)
    ensures
        r.commands().len() == 2,
        r.commands()[0].command@ == compose_line(working_dir@, project@, "pull"@),
        r.commands()[1].command@ == compose_line(
            working_dir@,
            project@,
            "up -d --remove-orphans"@,
        ),
        forall|i: int|
            0 <= i < 2 ==> !(#[trigger] r.commands()[i]).sudo && r.commands()[i].working_dir is None
                && r.commands()[i].env@.len() == 0,
        r.stops_on_error(),
{
    let pull = compose_line_exec(working_dir, project, "pull");
    let up = compose_line_exec(working_dir, project, "up -d --remove-orphans");
    let b0 = CommandBatch::new();
    let b1 = b0.cmd(pull.as_str());
    let b2 = b1.cmd(up.as_str());
    assert(b2.commands()[0] == b1.commands()[0]);
    b2
}

/// Outcome of an upload or command of a compose operation: failures are
/// compose errors carrying the message or the standard error.
pub fn compose_result(out: SshOutcome) -> (r: Result<(), DockerError>)
    ensures
        unit_result(r) == match out {
            Err(m) => Err(DockerErrorView::ComposeError(m@)),
            Ok(o) => if o.exit_code != 0 {
                Err(DockerErrorView::ComposeError(o.stderr@))
            } else {
                Ok(())
            },
        },
{
    match out {
        Err(m) => Err(DockerError::ComposeError(m)),
        Ok(o) => if o.exit_code != 0 {
            Err(DockerError::ComposeError(o.stderr))
        } else {
            Ok(())
        },
    }
}

/// `docker compose down`, removing volumes when asked.
pub fn compose_down_command(working_dir: &str, project: &str, volumes: bool) -> (r: String)
    ensures
        r@ == compose_line(
            working_dir@,
            project@,
            if volumes {
                "down -v"@
            } else {
                "down"@
            },
        ),
{
    if volumes {
        compose_line_exec(working_dir, project, "down -v")
    } else {
        compose_line_exec(working_dir, project, "down")
    }
}

/// Outcome of `docker compose down`: only an SSH failure is an error (a
/// failing command is reported as a warning).
pub fn compose_down_result(out: SshOutcome) -> (r: Result<(), DockerError>)
    ensures
        unit_result(r) == match out {
            Err(m) => Err(DockerErrorView::ComposeError(m@)),
            Ok(_) => Ok(()),
        },
{
    match out {
        Err(m) => Err(DockerError::ComposeError(m)),
        Ok(_) => Ok(()),
    }
}

/// `docker compose logs`, with ` --tail n` and ` <service>` when given.
pub open spec fn compose_logs_text(
    working_dir: Seq<char>,
    project: Seq<char>,
    service: Option<Seq<char>>,
    tail: Option<u64>,
) -> Seq<char> {
    compose_line(working_dir, project, "logs"@) + match tail {
        Some(n) => " --tail "@ + nat_text(n as nat),
        None => Seq::<char>::empty(),
    } + match service {
        Some(s) => " "@ + s,
        None => Seq::<char>::empty(),
    }
}

/// The command that reads a compose project's logs.
pub fn compose_logs_command(
    working_dir: &str,
    project: &str,
    service: Option<&str>,
    tail: Option<u64>,
) -> (r: String)
    ensures
        r@ == compose_logs_text(working_dir@, project@, marker_view(service), tail),
{
    let mut r = compose_line_exec(working_dir, project, "logs");
    match tail {
        Some(n) => {
            r.append(" --tail ");
            let t = u64_text(n);
            r.append(t.as_str());
        },
        None => {},
    }
    match service {
        Some(s) => {
            r.append(" ");
            r.append(s);
        },
        None => {},
    }
    r
}

// ===== System operations =====

/// The words of `docker system prune -f`.
pub open spec fn system_prune_words(all: bool, volumes: bool) -> Seq<Seq<char>> {
    seq!["docker"@, "system"@, "prune"@, "-f"@] + (if all {
        seq!["-a"@]
    } else {
        Seq::<Seq<char>>::empty()
    }) + (if volumes {
        seq!["--volumes"@]
    } else {
        Seq::<Seq<char>>::empty()
    })
}

/// `docker system prune -f [-a] [--volumes]`.
pub fn system_prune_command(all: bool, volumes: bool) -> (r: String)
    ensures
        r@ == join(system_prune_words(all, volumes), " "@),
{
    let mut cmd: Vec<String> = Vec::new();
    push_word(&mut cmd, "docker");
    push_word(&mut cmd, "system");
    push_word(&mut cmd, "prune");
    push_word(&mut cmd, "-f");
    if all {
        push_word(&mut cmd, "-a");
    }
    if volumes {
        push_word(&mut cmd, "--volumes");
    }
    assert(texts(cmd@) =~= system_prune_words(all, volumes));
    join_exec(&cmd, " ")
}

/// The command that reports Docker's version as JSON.
pub fn version_command() -> (r: String)
    ensures
        r@ == "docker version --format '{{json .}}'"@,
{
    owned("docker version --format '{{json .}}'")
}

/// The command that lists all containers, one JSON object per line.
pub fn list_containers_command() -> (r: String)
    ensures
        r@ == "docker ps -a --format '{{json .}}'"@,
{
    owned("docker ps -a --format '{{json .}}'")
}

// ===== Reports =====

/// Resource usage of a container, as `docker stats` prints it.
#[derive(Debug, Clone)]
pub struct ContainerStats {
    pub container: String,
    pub cpu_perc: String,
    pub mem_usage: String,
    pub mem_perc: String,
    pub net_io: String,
    pub block_io: String,
}

/// What `docker inspect` reports of a container.
#[derive(Debug, Clone)]
pub struct ContainerInspect {
    pub id: String,
    pub name: String,
    pub state: ContainerState,
    pub config: ContainerInspectConfig,
}

/// The run state of an inspected container.
#[derive(Debug, Clone)]
pub struct ContainerState {
    pub status: String,
    pub running: bool,
    pub paused: bool,
    pub restarting: bool,
    pub oom_killed: bool,
    pub exit_code: i32,
}

/// The configuration of an inspected container.
#[derive(Debug, Clone)]
pub struct ContainerInspectConfig {
    pub image: String,
    pub env: Vec<String>,
    pub labels: Vec<(String, String)>,
}

/// Client and server versions.
#[derive(Debug, Clone)]
pub struct DockerVersion {
    pub client: DockerVersionInfo,
    pub server: DockerVersionInfo,
}

#[derive(Debug, Clone)]
pub struct DockerVersionInfo {
    pub version: String,
    pub api_version: String,
    pub os: String,
    pub arch: String,
}

} // verus!
