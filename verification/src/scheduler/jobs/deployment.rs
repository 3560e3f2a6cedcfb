//! Application Deployment Job
//!
//! The deployment pipeline of an application: its steps and log, the
//! commands each step runs on the server, and the decisions taken from
//! their output. The steps run in a fixed order; the first failing step
//! fails the deployment, which is then rolled back unless it was itself a
//! rollback.

use vstd::prelude::*;
use crate::docker::builder::BuildConfig;
use crate::docker::container::{ContainerConfig, PortBinding, Protocol, ResourceConfig, RestartPolicy};
use crate::ids::{id_text, now_millis, uuid_text};
use crate::kv::pair_views;
use crate::platform::{Application, DeploymentType, Error};
use crate::ssh::command::CommandBatch;
use crate::text::{chars_of, owned, string_of, trim, trim_exec, utf8_len};

verus! {

/// Deployment context containing all necessary data
#[derive(Debug, Clone)]
pub struct DeploymentContext {
    pub deployment_id: u128,
    pub application_id: u128,
    pub server_id: u128,
    pub deployment_type: DeploymentType,
    pub commit_sha: Option<String>,
    pub force_rebuild: bool,
    pub rollback_to: Option<u128>,
}

/// Steps in the deployment process
#[derive(Debug, Clone, Copy, PartialEq, Eq, Structural)]
pub enum DeploymentStep {
    Queued,
    PreparingServer,
    CloningRepository,
    GeneratingDockerfile,
    BuildingImage,
    StoppingOldContainers,
    StartingNewContainers,
    ConfiguringProxy,
    RunningHealthChecks,
    Cleanup,
    Finished,
    Failed,
    RollingBack,
}

/// The text shown for a step.
pub open spec fn step_text(s: DeploymentStep) -> Seq<char> {
    match s {
        DeploymentStep::Queued => "Queued"@,
        DeploymentStep::PreparingServer => "Preparing server..."@,
        DeploymentStep::CloningRepository => "Cloning repository..."@,
        DeploymentStep::GeneratingDockerfile => "Generating Dockerfile..."@,
        DeploymentStep::BuildingImage => "Building image..."@,
        DeploymentStep::StoppingOldContainers => "Stopping old containers..."@,
        DeploymentStep::StartingNewContainers => "Starting new containers..."@,
        DeploymentStep::ConfiguringProxy => "Configuring proxy..."@,
        DeploymentStep::RunningHealthChecks => "Running health checks..."@,
        DeploymentStep::Cleanup => "Cleaning up..."@,
        DeploymentStep::Finished => "Deployment finished"@,
        DeploymentStep::Failed => "Deployment failed"@,
        DeploymentStep::RollingBack => "Rolling back..."@,
    }
}

impl DeploymentStep {
    pub fn display(&self) -> (r: &'static str)
        ensures
            r@ == step_text(*self),
    {
        match self {
            DeploymentStep::Queued => "Queued",
            DeploymentStep::PreparingServer => "Preparing server...",
            DeploymentStep::CloningRepository => "Cloning repository...",
            DeploymentStep::GeneratingDockerfile => "Generating Dockerfile...",
            DeploymentStep::BuildingImage => "Building image...",
            DeploymentStep::StoppingOldContainers => "Stopping old containers...",
            DeploymentStep::StartingNewContainers => "Starting new containers...",
            DeploymentStep::ConfiguringProxy => "Configuring proxy...",
            DeploymentStep::RunningHealthChecks => "Running health checks...",
            DeploymentStep::Cleanup => "Cleaning up...",
            DeploymentStep::Finished => "Deployment finished",
            DeploymentStep::Failed => "Deployment failed",
            DeploymentStep::RollingBack => "Rolling back...",
        }
    }
}

/// The pipeline's steps in the order they run.
pub open spec fn pipeline() -> Seq<DeploymentStep> {
    seq![
        DeploymentStep::PreparingServer,
        DeploymentStep::CloningRepository,
        DeploymentStep::GeneratingDockerfile,
        DeploymentStep::BuildingImage,
        DeploymentStep::StoppingOldContainers,
        DeploymentStep::StartingNewContainers,
        DeploymentStep::ConfiguringProxy,
        DeploymentStep::RunningHealthChecks,
        DeploymentStep::Cleanup,
    ]
}

/// The step that follows `s` in the pipeline; after the last step the
/// deployment is finished.
pub open spec fn step_after(s: DeploymentStep) -> Option<DeploymentStep> {
    match s {
        DeploymentStep::Queued => Some(DeploymentStep::PreparingServer),
        DeploymentStep::PreparingServer => Some(DeploymentStep::CloningRepository),
        DeploymentStep::CloningRepository => Some(DeploymentStep::GeneratingDockerfile),
        DeploymentStep::GeneratingDockerfile => Some(DeploymentStep::BuildingImage),
        DeploymentStep::BuildingImage => Some(DeploymentStep::StoppingOldContainers),
        DeploymentStep::StoppingOldContainers => Some(DeploymentStep::StartingNewContainers),
        DeploymentStep::StartingNewContainers => Some(DeploymentStep::ConfiguringProxy),
        DeploymentStep::ConfiguringProxy => Some(DeploymentStep::RunningHealthChecks),
        DeploymentStep::RunningHealthChecks => Some(DeploymentStep::Cleanup),
        DeploymentStep::Cleanup => Some(DeploymentStep::Finished),
        _ => None,
    }
}

/// The step reached after `k` advances from a queued deployment.
pub open spec fn reached(k: nat) -> Option<DeploymentStep>
    decreases k,
{
    if k == 0 {
        Some(DeploymentStep::Queued)
    } else {
        match reached((k - 1) as nat) {
            Some(s) => step_after(s),
            None => None,
        }
    }
}

/// Advancing a queued deployment runs the pipeline's steps once each, in
/// order, and then finishes it.
pub proof fn law_pipeline_order()
    ensures
        forall|i: int| 0 <= i < pipeline().len() ==> reached((i + 1) as nat) == Some(#[trigger] pipeline()[i]),
        reached((pipeline().len() + 1) as nat) == Some(DeploymentStep::Finished),
{
    reveal_with_fuel(reached, 11);
    assert(reached(10) == Some(DeploymentStep::Finished));
}

/// Deployment log entry. `timestamp` is in milliseconds since the epoch.
#[derive(Debug, Clone)]
pub struct DeploymentLog {
    pub timestamp: i64,
    pub step: DeploymentStep,
    pub message: String,
    pub is_error: bool,
}

/// Result of a deployment. `duration_ms` is in milliseconds.
#[derive(Debug, Clone)]
pub struct DeploymentResult {
    pub success: bool,
    pub error: Option<String>,
    pub duration_ms: i64,
    pub logs: Vec<DeploymentLog>,
}

/// A log entry's step, message and error flag.
pub open spec fn entry_view(l: DeploymentLog) -> (DeploymentStep, Seq<char>, bool) {
    (l.step, l.message@, l.is_error)
}

/// The entries of a deployment log.
pub open spec fn log_view(ls: Seq<DeploymentLog>) -> Seq<(DeploymentStep, Seq<char>, bool)> {
    ls.map_values(|l: DeploymentLog| entry_view(l))
}

/// Application deployment job: its context, the log so far and the step
/// it is at.
pub struct ApplicationDeploymentJob {
    context: DeploymentContext,
    logs: Vec<DeploymentLog>,
    current_step: DeploymentStep,
}

impl ApplicationDeploymentJob {
    pub closed spec fn context(&self) -> DeploymentContext {
        self.context
    }

    /// The log so far.
    pub closed spec fn log_entries(&self) -> Seq<(DeploymentStep, Seq<char>, bool)> {
        log_view(self.logs@)
    }

    /// The step the deployment is at.
    pub closed spec fn step(&self) -> DeploymentStep {
        self.current_step
    }

    /// A queued deployment with an empty log.
    pub fn new(context: DeploymentContext) -> (r: Self)
        ensures
            r.context() == context,
            r.log_entries().len() == 0,
            r.step() == DeploymentStep::Queued,
    {
        let r = ApplicationDeploymentJob {
            context,
            logs: Vec::new(),
            current_step: DeploymentStep::Queued,
        };
        assert(log_view(r.logs@) =~= Seq::<(DeploymentStep, Seq<char>, bool)>::empty());
        r
    }

    /// The step the deployment is at.
    pub fn current_step(&self) -> (s: DeploymentStep)
        ensures
            s == self.step(),
    {
        self.current_step
    }

    fn push_entry(&mut self, message: &str, is_error: bool)
        ensures
            final(self).context() == old(self).context(),
            final(self).step() == old(self).step(),
            final(self).log_entries() == old(self).log_entries().push(
                (old(self).step(), message@, is_error),
            ),
    {
        let ghost before = self.logs@;
        self.logs.push(
            DeploymentLog {
                timestamp: now_millis(),
                step: self.current_step,
                message: owned(message),
                is_error,
            },
        );
        assert(log_view(self.logs@) =~= log_view(before).push((self.current_step, message@, is_error)));
    }

    /// Add a log entry
    pub fn log(&mut self, message: &str)
        ensures
            final(self).context() == old(self).context(),
            final(self).step() == old(self).step(),
            final(self).log_entries() == old(self).log_entries().push(
                (old(self).step(), message@, false),
            ),
    {
        self.push_entry(message, false)
    }

    /// Add an error log entry
    pub fn log_error(&mut self, message: &str)
        ensures
            final(self).context() == old(self).context(),
            final(self).step() == old(self).step(),
            final(self).log_entries() == old(self).log_entries().push(
                (old(self).step(), message@, true),
            ),
    {
        self.push_entry(message, true)
    }

    /// Set current step and log it
    pub fn set_step(&mut self, step: DeploymentStep)
        ensures
            final(self).context() == old(self).context(),
            final(self).step() == step,
            final(self).log_entries() == old(self).log_entries().push((step, step_text(step), false)),
    {
        self.current_step = step;
        self.log(step.display());
    }

    /// Moves to the next step of the pipeline, logging it, and returns the
    /// step to run; `None`, with nothing changed, when the last step has
    /// run or the deployment is already over.
    pub fn advance(&mut self) -> (next: Option<DeploymentStep>)
        ensures
            final(self).context() == old(self).context(),
            match step_after(old(self).step()) {
                Some(s) => if s == DeploymentStep::Finished {
                    next is None && final(self).step() == old(self).step()
                        && final(self).log_entries() == old(self).log_entries()
                } else {
                    next == Some(s) && final(self).step() == s && final(self).log_entries()
                        == old(self).log_entries().push((s, step_text(s), false))
                },
                None => next is None && final(self).step() == old(self).step()
                    && final(self).log_entries() == old(self).log_entries(),
            },
    {
        let next = match self.current_step {
            DeploymentStep::Queued => DeploymentStep::PreparingServer,
            DeploymentStep::PreparingServer => DeploymentStep::CloningRepository,
            DeploymentStep::CloningRepository => DeploymentStep::GeneratingDockerfile,
            DeploymentStep::GeneratingDockerfile => DeploymentStep::BuildingImage,
            DeploymentStep::BuildingImage => DeploymentStep::StoppingOldContainers,
            DeploymentStep::StoppingOldContainers => DeploymentStep::StartingNewContainers,
            DeploymentStep::StartingNewContainers => DeploymentStep::ConfiguringProxy,
            DeploymentStep::ConfiguringProxy => DeploymentStep::RunningHealthChecks,
            DeploymentStep::RunningHealthChecks => DeploymentStep::Cleanup,
            _ => {
                return None;
            },
        };
        self.set_step(next);
        Some(next)
    }

    /// Ends the pipeline: a success finishes the deployment; a failure logs
    /// `Deployment failed: <error>` and reports whether to roll back (only
    /// a deployment that is not itself a rollback is rolled back).
    pub fn conclude(&mut self, outcome: Result<(), String>) -> (rollback: bool)
        ensures
            final(self).context() == old(self).context(),
            match outcome {
                Ok(()) => final(self).step() == DeploymentStep::Finished && final(self).log_entries()
                    == old(self).log_entries().push(
                    (DeploymentStep::Finished, step_text(DeploymentStep::Finished), false),
                ).push((DeploymentStep::Finished, "Deployment completed successfully"@, false))
                    && !rollback,
                Err(e) => final(self).step() == DeploymentStep::Failed && final(self).log_entries()
                    == old(self).log_entries().push(
                    (DeploymentStep::Failed, step_text(DeploymentStep::Failed), false),
                ).push((DeploymentStep::Failed, "Deployment failed: "@ + e@, true)) && rollback
                    == (old(self).context().deployment_type != DeploymentType::Rollback),
            },
    {
        match outcome {
            Ok(()) => {
                self.set_step(DeploymentStep::Finished);
                self.log("Deployment completed successfully");
                false
            },
            Err(e) => {
                self.set_step(DeploymentStep::Failed);
                let m = crate::kv::concat("Deployment failed: ", e.as_str());
                self.log_error(m.as_str());
                self.context.deployment_type != DeploymentType::Rollback
            },
        }
    }

    /// The deployment's result: successful exactly when the pipeline
    /// succeeded, with its error and the log.
    pub fn result(self, outcome: Result<(), String>, duration_ms: i64) -> (r: DeploymentResult)
        ensures
            r.success == outcome is Ok,
            match outcome {
                Ok(()) => r.error is None,
                Err(e) => r.error == Some(e),
            },
            r.duration_ms == duration_ms,
            log_view(r.logs@) == self.log_entries(),
    {
        let success = outcome.is_ok();
        let error = match outcome {
            Ok(()) => None,
            Err(e) => Some(e),
        };
        DeploymentResult { success, error, duration_ms, logs: self.logs }
    }
}

// ===== Commands of the steps =====

/// The directory of an application's deployments.
pub open spec fn app_dir(app_id: u128) -> Seq<char> {
    "/data/coolify/applications/"@ + uuid_text(app_id)
}

/// Where the application's source is checked out.
pub open spec fn source_dir(app_id: u128) -> Seq<char> {
    app_dir(app_id) + "/source"@
}

/// The name of the application's container and network.
pub open spec fn app_container(app_id: u128) -> Seq<char> {
    "coolify-"@ + uuid_text(app_id)
}

/// The application's source directory.
pub fn source_dir_exec(app_id: u128) -> (r: String)
    ensures
        r@ == source_dir(app_id),
{
    let mut r = owned("/data/coolify/applications/");
    let id = id_text(app_id);
    r.append(id.as_str());
    r.append("/source");
    r
}

/// The application's container (and network) name.
pub fn app_container_exec(app_id: u128) -> (r: String)
    ensures
        r@ == app_container(app_id),
{
    let mut r = owned("coolify-");
    let id = id_text(app_id);
    r.append(id.as_str());
    r
}

/// The batch that creates the deployment directories.
pub fn prepare_batch(app_id: u128) -> (r: CommandBatch)
    ensures
        r.commands().len() == 2,
        r.commands()[0].command@ == "mkdir -p "@ + app_dir(app_id) + "/source"@,
        r.commands()[1].command@ == "mkdir -p "@ + app_dir(app_id) + "/volumes"@,
        r.stops_on_error(),
{
    let mut dir = owned("/data/coolify/applications/");
    let id = id_text(app_id);
    dir.append(id.as_str());
    let mut a = owned("mkdir -p ");
    a.append(dir.as_str());
    a.append("/source");
    let mut b = owned("mkdir -p ");
    b.append(dir.as_str());
    b.append("/volumes");
    let b1 = CommandBatch::new().cmd(a.as_str());
    let b2 = b1.cmd(b.as_str());
    assert(b2.commands()[0] == b1.commands()[0]);
    b2
}

/// What preparing the directories gave: a failure is a deployment error
/// carrying the standard error.
pub fn prepare_result(exit_code: i32, stderr: &String) -> (r: Result<(), Error>)
    ensures
        exit_code == 0 ==> r is Ok,
        exit_code != 0 ==> (r matches Err(Error::Deployment(m)) && m@
            == "Failed to prepare directory: "@ + stderr@),
{
    if exit_code == 0 {
        Ok(())
    } else {
        Err(Error::Deployment(crate::kv::concat("Failed to prepare directory: ", stderr.as_str())))
    }
}

/// The command that creates the application's network if needed.
pub fn network_create_command(app_id: u128) -> (r: String)
    ensures
        r@ == "docker network create "@ + app_container(app_id) + " 2>/dev/null || true"@,
{
    let mut r = owned("docker network create ");
    let n = app_container_exec(app_id);
    r.append(n.as_str());
    r.append(" 2>/dev/null || true");
    r
}

/// The branch to deploy: the application's, else `main`.
pub open spec fn branch_of(app: Application) -> Seq<char> {
    match app.git_branch {
        Some(b) => b@,
        None => "main"@,
    }
}

/// The command that prints `1` when `path` passes `test <flag>`, else `0`.
pub open spec fn test_command(flag: Seq<char>, path: Seq<char>) -> Seq<char> {
    "test "@ + flag + " "@ + path + " && echo 1 || echo 0"@
}

fn test_command_exec(flag: &str, dir: &String, file: &str) -> (r: String)
    ensures
        r@ == test_command(flag@, dir@ + file@),
{
    let mut r = owned("test ");
    r.append(flag);
    r.append(" ");
    r.append(dir.as_str());
    r.append(file);
    r.append(" && echo 1 || echo 0");
    r
}

/// The command that tells whether the source is already a repository.
pub fn repo_exists_command(app_id: u128) -> (r: String)
    ensures
        r@ == test_command("-d"@, source_dir(app_id) + "/.git"@),
{
    let d = source_dir_exec(app_id);
    test_command_exec("-d", &d, "/.git")
}

/// A check printed `1`.
pub fn check_passed(stdout: &str) -> (b: bool)
    ensures
        b == (trim(stdout@) == "1"@),
{
    let v = chars_of(stdout);
    let t = trim_exec(&v);
    crate::text::equals(&t, "1")
}

/// The batch that brings the source up to date: fetch, check out and reset
/// an existing repository, or clone the branch afresh.
pub fn checkout_batch(app: &Application, repo_exists: bool) -> (r: CommandBatch)
    ensures
        r.stops_on_error(),
        repo_exists ==> r.commands().len() == 3 && r.commands()[0].command@ == "cd "@ + source_dir(
            app.id,
        ) + " && git fetch origin"@ && r.commands()[1].command@ == "cd "@ + source_dir(app.id)
            + " && git checkout "@ + branch_of(*app) && r.commands()[2].command@ == "cd "@
            + source_dir(app.id) + " && git reset --hard origin/"@ + branch_of(*app),
        !repo_exists ==> r.commands().len() == 2 && r.commands()[0].command@ == "rm -rf "@
            + source_dir(app.id) && r.commands()[1].command@ == "git clone -b "@ + branch_of(*app)
            + " --single-branch "@ + app.git_repository@ + " "@ + source_dir(app.id),
{
    let dir = source_dir_exec(app.id);
    let branch = match &app.git_branch {
        Some(b) => b.clone(),
        None => owned("main"),
    };
    if repo_exists {
        let mut a = owned("cd ");
        a.append(dir.as_str());
        a.append(" && git fetch origin");
        let mut b = owned("cd ");
        b.append(dir.as_str());
        b.append(" && git checkout ");
        b.append(branch.as_str());
        let mut c = owned("cd ");
        c.append(dir.as_str());
        c.append(" && git reset --hard origin/");
        c.append(branch.as_str());
        let b1 = CommandBatch::new().cmd(a.as_str());
        let b2 = b1.cmd(b.as_str());
        let b3 = b2.cmd(c.as_str());
        assert(b3.commands()[0] == b1.commands()[0]);
        assert(b3.commands()[1] == b2.commands()[1]);
        b3
    } else {
        let mut a = owned("rm -rf ");
        a.append(dir.as_str());
        let mut b = owned("git clone -b ");
        b.append(branch.as_str());
        b.append(" --single-branch ");
        b.append(app.git_repository.as_str());
        b.append(" ");
        b.append(dir.as_str());
        let b1 = CommandBatch::new().cmd(a.as_str());
        let b2 = b1.cmd(b.as_str());
        assert(b2.commands()[0] == b1.commands()[0]);
        b2
    }
}

/// The command that prints the checked-out commit.
pub fn head_sha_command(app_id: u128) -> (r: String)
    ensures
        r@ == "cd "@ + source_dir(app_id) + " && git rev-parse HEAD"@,
{
    let mut r = owned("cd ");
    let d = source_dir_exec(app_id);
    r.append(d.as_str());
    r.append(" && git rev-parse HEAD");
    r
}

/// The command that tells whether the source has a Dockerfile.
pub fn dockerfile_exists_command(app_id: u128) -> (r: String)
    ensures
        r@ == test_command("-f"@, source_dir(app_id) + "/Dockerfile"@),
{
    let d = source_dir_exec(app_id);
    test_command_exec("-f", &d, "/Dockerfile")
}

/// The marker files that identify a project type, in the order they are
/// looked for, with the type each marks.
pub open spec fn project_markers() -> Seq<(Seq<char>, Seq<char>)> {
    seq![
        ("/package.json"@, "nodejs"@),
        ("/requirements.txt"@, "python"@),
        ("/Cargo.toml"@, "rust"@),
        ("/go.mod"@, "golang"@),
        ("/composer.json"@, "php"@),
    ]
}

/// The command that looks for the `i`-th marker file.
pub fn marker_check_command(source: &String, i: usize) -> (r: String)
    requires
        i < 5,
    ensures
        r@ == test_command("-f"@, source@ + project_markers()[i as int].0),
{
    let f = if i == 0 {
        "/package.json"
    } else if i == 1 {
        "/requirements.txt"
    } else if i == 2 {
        "/Cargo.toml"
    } else if i == 3 {
        "/go.mod"
    } else {
        "/composer.json"
    };
    test_command_exec("-f", source, f)
}

/// The project type from which marker files were found (one flag per
/// marker, in order): the first found decides, else `static`.
pub open spec fn detected_type(found: Seq<bool>) -> Seq<char> {
    if found.len() > 0 && found[0] {
        "nodejs"@
    } else if found.len() > 1 && found[1] {
        "python"@
    } else if found.len() > 2 && found[2] {
        "rust"@
    } else if found.len() > 3 && found[3] {
        "golang"@
    } else if found.len() > 4 && found[4] {
        "php"@
    } else {
        "static"@
    }
}

/// The project type from the marker checks.
pub fn detect_project_type(found: &Vec<bool>) -> (r: String)
    ensures
        r@ == detected_type(found@),
{
    if found.len() > 0 && found[0] {
        owned("nodejs")
    } else if found.len() > 1 && found[1] {
        owned("python")
    } else if found.len() > 2 && found[2] {
        owned("rust")
    } else if found.len() > 3 && found[3] {
        owned("golang")
    } else if found.len() > 4 && found[4] {
        owned("php")
    } else {
        owned("static")
    }
}

/// The generated Dockerfile of each project type.
pub open spec fn dockerfile_for(project_type: Seq<char>) -> Seq<char> {
    if project_type == "nodejs"@ {
        "FROM node:20-alpine AS builder\nWORKDIR /app\nCOPY package*.json ./\nRUN npm ci\nCOPY . .\nRUN npm run build || true\n\nFROM node:20-alpine\nWORKDIR /app\nCOPY --from=builder /app .\nEXPOSE 3000\nCMD [\"npm\", \"start\"]\n"@
    } else if project_type == "python"@ {
        "FROM python:3.11-slim\nWORKDIR /app\nCOPY requirements.txt .\nRUN pip install --no-cache-dir -r requirements.txt\nCOPY . .\nEXPOSE 8000\nCMD [\"python\", \"app.py\"]\n"@
    } else if project_type == "rust"@ {
        "FROM rust:alpine AS builder\nRUN apk add --no-cache musl-dev\nWORKDIR /app\nCOPY . .\nRUN cargo build --release\n\nFROM alpine:latest\nWORKDIR /app\nCOPY --from=builder /app/target/release/* .\nEXPOSE 8080\nCMD [\"./app\"]\n"@
    } else if project_type == "golang"@ {
        "FROM golang:alpine AS builder\nWORKDIR /app\nCOPY go.* ./\nRUN go mod download\nCOPY . .\nRUN CGO_ENABLED=0 go build -o app .\n\nFROM alpine:latest\nWORKDIR /app\nCOPY --from=builder /app/app .\nEXPOSE 8080\nCMD [\"./app\"]\n"@
    } else if project_type == "php"@ {
        "FROM php:8.2-fpm-alpine\nRUN apk add --no-cache nginx\nCOPY . /var/www/html\nEXPOSE 80\nCMD [\"php-fpm\"]\n"@
    } else {
        "FROM nginx:alpine\nCOPY . /usr/share/nginx/html\nEXPOSE 80\nCMD [\"nginx\", \"-g\", \"daemon off;\"]\n"@
    }
}

/// Generate Dockerfile based on project type
pub fn generate_dockerfile(project_type: &str) -> (r: Result<String, Error>)
    ensures
        r matches Ok(d) && d@ == dockerfile_for(project_type@),
{
    let v = chars_of(project_type);
    let d = if crate::text::equals(&v, "nodejs") {
        owned(
            "FROM node:20-alpine AS builder\nWORKDIR /app\nCOPY package*.json ./\nRUN npm ci\nCOPY . .\nRUN npm run build || true\n\nFROM node:20-alpine\nWORKDIR /app\nCOPY --from=builder /app .\nEXPOSE 3000\nCMD [\"npm\", \"start\"]\n",
        )
    } else if crate::text::equals(&v, "python") {
        owned(
            "FROM python:3.11-slim\nWORKDIR /app\nCOPY requirements.txt .\nRUN pip install --no-cache-dir -r requirements.txt\nCOPY . .\nEXPOSE 8000\nCMD [\"python\", \"app.py\"]\n",
        )
    } else if crate::text::equals(&v, "rust") {
        owned(
            "FROM rust:alpine AS builder\nRUN apk add --no-cache musl-dev\nWORKDIR /app\nCOPY . .\nRUN cargo build --release\n\nFROM alpine:latest\nWORKDIR /app\nCOPY --from=builder /app/target/release/* .\nEXPOSE 8080\nCMD [\"./app\"]\n",
        )
    } else if crate::text::equals(&v, "golang") {
        owned(
            "FROM golang:alpine AS builder\nWORKDIR /app\nCOPY go.* ./\nRUN go mod download\nCOPY . .\nRUN CGO_ENABLED=0 go build -o app .\n\nFROM alpine:latest\nWORKDIR /app\nCOPY --from=builder /app/app .\nEXPOSE 8080\nCMD [\"./app\"]\n",
        )
    } else if crate::text::equals(&v, "php") {
        owned(
            "FROM php:8.2-fpm-alpine\nRUN apk add --no-cache nginx\nCOPY . /var/www/html\nEXPOSE 80\nCMD [\"php-fpm\"]\n",
        )
    } else {
        owned(
            "FROM nginx:alpine\nCOPY . /usr/share/nginx/html\nEXPOSE 80\nCMD [\"nginx\", \"-g\", \"daemon off;\"]\n",
        )
    };
    Ok(d)
}

/// Byte `b` of the UTF-8 form of `s` is a character boundary within it:
/// some leading characters of `s` take exactly `b` bytes.
pub open spec fn char_boundary(s: Seq<char>, b: nat) -> bool {
    exists|n: int| 0 <= n <= s.len() && utf8_len(s.take(n)) == b
}

/// The leading characters of `s` that take exactly `b` bytes (`&s[..b]`).
pub open spec fn byte_prefix(s: Seq<char>, b: nat) -> Seq<char> {
    s.take(choose|n: int| 0 <= n <= s.len() && utf8_len(s.take(n)) == b)
}

/// More leading characters take more bytes.
proof fn lemma_utf8_take_mono(s: Seq<char>, i: int, j: int)
    requires
        0 <= i < j <= s.len(),
    ensures
        utf8_len(s.take(i)) < utf8_len(s.take(j)),
    decreases j - i,
{
    assert(s.take(j).drop_last() =~= s.take(j - 1));
    if i < j - 1 {
        lemma_utf8_take_mono(s, i, j - 1);
    }
}

/// The image built for a commit: `coolify-<app>:<first 8 bytes of the sha>`.
pub open spec fn image_name_text(app_id: u128, sha: Seq<char>) -> Seq<char> {
    app_container(app_id) + ":"@ + byte_prefix(sha, 8)
}

/// The image name of a build; byte 8 of the sha must be a character
/// boundary, where slicing it would otherwise panic.
pub fn image_name(app_id: u128, commit_sha: &str) -> (r: String)
    requires
        char_boundary(commit_sha@, 8),
    ensures
        r@ == image_name_text(app_id, commit_sha@),
{
    let mut r = app_container_exec(app_id);
    r.append(":");
    let v = chars_of(commit_sha);
    let ghost n = choose|n: int| 0 <= n <= v@.len() && utf8_len(v@.take(n)) == 8;
    let mut i: usize = 0;
    let mut bytes: usize = 0;
    while bytes < 8
        invariant
            0 <= n <= v@.len(),
            v@.len() == v.len(),
            utf8_len(v@.take(n)) == 8,
            i <= n,
            bytes as nat == utf8_len(v@.take(i as int)),
            bytes <= 8,
        decreases 8 - bytes,
    {
        assert(i < n);
        assert(v@.take(i + 1).drop_last() =~= v@.take(i as int));
        let c = v[i] as u32;
        let w: usize = if c < 0x80 {
            1
        } else if c < 0x800 {
            2
        } else if c < 0x10000 {
            3
        } else {
            4
        };
        proof {
            if i + 1 < n {
                lemma_utf8_take_mono(v@, i + 1, n);
            }
        }
        bytes = bytes + w;
        i = i + 1;
    }
    proof {
        if i < n {
            lemma_utf8_take_mono(v@, i as int, n);
        }
    }
    let short = string_of(&v, 0, i);
    assert(short@ =~= v@.take(i as int));
    r.append(short.as_str());
    r
}

/// The build of an image from the source, labelled with the application
/// and commit.
pub fn image_build_config(app_id: u128, image: &str, commit_sha: &str) -> (r: BuildConfig)
    ensures
        r.image_name@ == image@,
        r.context_path@ == source_dir(app_id),
        pair_views(r.labels@) == seq![
            ("coolify.application_id"@, uuid_text(app_id)),
            ("coolify.commit_sha"@, commit_sha@),
        ],
        r.build_args@.len() == 0,
        r.dockerfile_path is None && r.target is None && r.platform is None && !r.no_cache
            && !r.pull,
{
    proof {
        reveal_strlit("coolify.application_id");
        reveal_strlit("coolify.commit_sha");
    }
    let d = source_dir_exec(app_id);
    let id = id_text(app_id);
    let c = BuildConfig::new(image).context(d.as_str());
    assert(pair_views(c.labels@) =~= Seq::<(Seq<char>, Seq<char>)>::empty());
    assert(!crate::kv::has_key(pair_views(c.labels@), "coolify.application_id"@));
    let c = c.label("coolify.application_id", id.as_str());
    assert(pair_views(c.labels@) =~= seq![("coolify.application_id"@, uuid_text(app_id))]);
    assert("coolify.commit_sha"@ != "coolify.application_id"@) by {
        assert("coolify.commit_sha"@[8] != "coolify.application_id"@[8]);
    }
    assert(!crate::kv::has_key(pair_views(c.labels@), "coolify.commit_sha"@));
    let c = c.label("coolify.commit_sha", commit_sha);
    assert(pair_views(c.labels@) =~= seq![
        ("coolify.application_id"@, uuid_text(app_id)),
        ("coolify.commit_sha"@, commit_sha@),
    ]);
    c
}

/// The container of a deployment: named after the application, on its
/// network, restarting unless stopped, publishing its first port (on a
/// port Docker picks), with its environment and the managed labels.
pub fn app_container_config(app: &Application, image: &str) -> (r: ContainerConfig)
    ensures
        r.name@ == app_container(app.id),
        r.image@ == image@,
        r.network matches Some(n) && n@ == app_container(app.id),
        r.restart_policy == RestartPolicy::UnlessStopped,
        r.volumes@.len() == 0,
        app.ports@.len() == 0 ==> r.ports@.len() == 0,
        app.ports@.len() > 0 ==> r.ports@.len() == 1 && r.ports@[0].container_port
            == app.ports@[0] && r.ports@[0].host_port is None && r.ports@[0].protocol
            == Protocol::Tcp,
        pair_views(r.environment@) == app.environment_variables@.map_values(
            |e: crate::platform::EnvironmentVariable| (e.key@, e.value@),
        ),
        pair_views(r.labels@) == seq![
            ("coolify.managed"@, "true"@),
            ("coolify.application_id"@, uuid_text(app.id)),
        ],
        r.resources.memory_limit is None && r.resources.cpu_limit_millis is None,
{
    let mut ports: Vec<PortBinding> = Vec::new();
    if app.ports.len() > 0 {
        ports.push(PortBinding { container_port: app.ports[0], host_port: None, protocol: Protocol::Tcp });
    }
    let mut environment: Vec<(String, String)> = Vec::new();
    let mut i: usize = 0;
    while i < app.environment_variables.len()
        invariant
            i <= app.environment_variables@.len(),
            pair_views(environment@) == app.environment_variables@.take(i as int).map_values(
                |e: crate::platform::EnvironmentVariable| (e.key@, e.value@),
            ),
        decreases app.environment_variables@.len() - i,
    {
        let ev = &app.environment_variables[i];
        let ghost before = environment@;
        environment.push((ev.key.clone(), ev.value.clone()));
        assert(pair_views(environment@) =~= pair_views(before).push((ev.key@, ev.value@)));
        assert(app.environment_variables@.take(i + 1) =~= app.environment_variables@.take(
            i as int,
        ).push(*ev));
        i = i + 1;
    }
    assert(app.environment_variables@.take(app.environment_variables@.len() as int)
        =~= app.environment_variables@);
    let mut labels: Vec<(String, String)> = Vec::new();
    labels.push((owned("coolify.managed"), owned("true")));
    labels.push((owned("coolify.application_id"), id_text(app.id)));
    assert(pair_views(labels@) =~= seq![
        ("coolify.managed"@, "true"@),
        ("coolify.application_id"@, uuid_text(app.id)),
    ]);
    ContainerConfig {
        name: app_container_exec(app.id),
        image: owned(image),
        ports,
        volumes: Vec::new(),
        environment,
        labels,
        network: Some(app_container_exec(app.id)),
        restart_policy: RestartPolicy::UnlessStopped,
        resources: ResourceConfig::default(),
    }
}

/// The command that adds the Traefik routing labels for the application's
/// domain to its container.
pub open spec fn proxy_labels_text(app_id: u128, fqdn: Seq<char>) -> Seq<char> {
    let id = uuid_text(app_id);
    "docker container update --label-add \"traefik.enable=true\" \\\n               --label-add \"traefik.http.routers."@
        + id + ".rule=Host(`"@ + fqdn
        + "`)\" \\\n               --label-add \"traefik.http.routers."@ + id
        + ".entrypoints=websecure\" \\\n               --label-add \"traefik.http.routers."@ + id
        + ".tls.certresolver=letsencrypt\" \\\n               "@ + app_container(app_id)
}

/// The proxy-labels command when the application has a domain; without
/// one the proxy step is skipped.
pub fn proxy_labels_command(app: &Application) -> (r: Option<String>)
    ensures
        match app.fqdn {
            Some(f) => r matches Some(c) && c@ == proxy_labels_text(app.id, f@),
            None => r is None,
        },
{
    match &app.fqdn {
        None => None,
        Some(fqdn) => {
            let id = id_text(app.id);
            let mut c = owned(
                "docker container update --label-add \"traefik.enable=true\" \\\n               --label-add \"traefik.http.routers.",
            );
            c.append(id.as_str());
            c.append(".rule=Host(`");
            c.append(fqdn.as_str());
            c.append("`)\" \\\n               --label-add \"traefik.http.routers.");
            c.append(id.as_str());
            c.append(".entrypoints=websecure\" \\\n               --label-add \"traefik.http.routers.");
            c.append(id.as_str());
            c.append(".tls.certresolver=letsencrypt\" \\\n               ");
            let n = app_container_exec(app.id);
            c.append(n.as_str());
            Some(c)
        },
    }
}

/// The command that reads the container's state.
pub fn container_status_command(app_id: u128) -> (r: String)
    ensures
        r@ == "docker inspect --format='{{.State.Status}}' "@ + app_container(app_id),
{
    let mut r = owned("docker inspect --format='{{.State.Status}}' ");
    let n = app_container_exec(app_id);
    r.append(n.as_str());
    r
}

/// What the container's state decides: a container that is not running
/// fails the deployment, with its status and recent logs.
pub fn running_check(status_stdout: &str, logs: &str) -> (r: Result<(), Error>)
    ensures
        trim(status_stdout@) == "running"@ ==> r is Ok,
        trim(status_stdout@) != "running"@ ==> (r matches Err(Error::Deployment(m)) && m@
            == "Container not running (status: "@ + trim(status_stdout@) + "). Logs:\n"@ + logs@),
{
    let v = chars_of(status_stdout);
    let t = trim_exec(&v);
    if crate::text::equals(&t, "running") {
        Ok(())
    } else {
        let mut m = owned("Container not running (status: ");
        let s = crate::text::string_from(&t);
        m.append(s.as_str());
        m.append("). Logs:\n");
        m.append(logs);
        Err(Error::Deployment(m))
    }
}

/// The cleanup commands: prune day-old dangling images, then keep only the
/// application's three newest images.
pub fn cleanup_commands(app_id: u128) -> (r: Vec<String>)
    ensures
        r@.len() == 2,
        r@[0]@ == "docker image prune -f --filter 'until=24h'"@,
        r@[1]@ == "docker images '"@ + app_container(app_id)
            + "' --format '{{.ID}}' | tail -n +4 | xargs -r docker rmi"@,
{
    let mut v: Vec<String> = Vec::new();
    v.push(owned("docker image prune -f --filter 'until=24h'"));
    let mut c = owned("docker images '");
    let n = app_container_exec(app_id);
    c.append(n.as_str());
    c.append("' --format '{{.ID}}' | tail -n +4 | xargs -r docker rmi");
    v.push(c);
    v
}

/// The command that finds the tag of the previous image.
pub fn previous_tag_command(app_id: u128) -> (r: String)
    ensures
        r@ == "docker images '"@ + app_container(app_id)
            + "' --format '{{.Tag}}' | head -2 | tail -1"@,
{
    let mut c = owned("docker images '");
    let n = app_container_exec(app_id);
    c.append(n.as_str());
    c.append("' --format '{{.Tag}}' | head -2 | tail -1");
    c
}

/// The image to roll back to: the application's image with the previous
/// tag, or an error when there is none.
pub fn rollback_image(app_id: u128, tag_stdout: &str) -> (r: Result<String, Error>)
    ensures
        trim(tag_stdout@).len() == 0 ==> (r matches Err(Error::Deployment(m)) && m@
            == "No previous version to rollback to"@),
        trim(tag_stdout@).len() > 0 ==> (r matches Ok(i) && i@ == app_container(app_id) + ":"@
            + trim(tag_stdout@)),
{
    let v = chars_of(tag_stdout);
    let t = trim_exec(&v);
    if t.len() == 0 {
        return Err(Error::Deployment(owned("No previous version to rollback to")));
    }
    let mut r = app_container_exec(app_id);
    r.append(":");
    let s = crate::text::string_from(&t);
    r.append(s.as_str());
    Ok(r)
}

} // verus!
