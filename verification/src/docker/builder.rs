//! Docker image building: build configurations, the commands of the image
//! operations and what their outcomes mean, and Dockerfile templates.

use vstd::prelude::*;
use crate::docker::error::{DockerError, DockerErrorView};
use crate::docker::executor::{SshOutcome, marker_view, text_result, unit_result};
use crate::kv::{concat, flag_pairs, pair_views, push_flag_pairs, push_word, upsert, upsert_exec};
use crate::ssh::session::{CommandOutput, combined_text};
use crate::text::{
    chars_of, contains, contains_str, join, join_exec, lines, lines_exec, owned, split, split_char,
    string_from, texts, trim, trim_exec, views,
};

verus! {

/// Build configuration
#[derive(Debug, Clone)]
pub struct BuildConfig {
    pub image_name: String,
    pub context_path: String,
    pub dockerfile_path: Option<String>,
    /// Build arguments, one entry per key.
    pub build_args: Vec<(String, String)>,
    /// Labels, one entry per key.
    pub labels: Vec<(String, String)>,
    pub target: Option<String>,
    pub platform: Option<String>,
    pub no_cache: bool,
    pub pull: bool,
}

impl Default for BuildConfig {
    fn default() -> (r: Self)
        ensures
            r.image_name@ == Seq::<char>::empty(),
            r.context_path@ == "."@,
            r.dockerfile_path is None,
            r.build_args@.len() == 0,
            r.labels@.len() == 0,
            r.target is None,
            r.platform is None,
            !r.no_cache,
            !r.pull,
    {
        BuildConfig {
            image_name: String::new(),
            context_path: owned("."),
            dockerfile_path: None,
            build_args: Vec::new(),
            labels: Vec::new(),
            target: None,
            platform: None,
            no_cache: false,
            pull: false,
        }
    }
}

/// An optional flag with its value.
pub open spec fn opt_flag(flag: Seq<char>, v: Option<String>) -> Seq<Seq<char>> {
    match v {
        Some(s) => seq![flag, s@],
        None => Seq::<Seq<char>>::empty(),
    }
}

/// A flag present when `b` holds.
pub open spec fn bool_flag(flag: Seq<char>, b: bool) -> Seq<Seq<char>> {
    if b {
        seq![flag]
    } else {
        Seq::<Seq<char>>::empty()
    }
}

/// The words of `docker build` for a configuration.
pub open spec fn build_words(c: BuildConfig) -> Seq<Seq<char>> {
    seq!["docker"@, "build"@, "-t"@, c.image_name@] + opt_flag("-f"@, c.dockerfile_path)
        + flag_pairs("--build-arg"@, pair_views(c.build_args@)) + flag_pairs(
        "--label"@,
        pair_views(c.labels@),
    ) + opt_flag("--target"@, c.target) + bool_flag("--no-cache"@, c.no_cache) + bool_flag(
        "--pull"@,
        c.pull,
    ) + opt_flag("--platform"@, c.platform) + seq![c.context_path@]
}

fn push_opt_flag(words: &mut Vec<String>, flag: &str, v: &Option<String>)
    ensures
        texts(final(words)@) == texts(old(words)@) + opt_flag(flag@, *v),
{
    match v {
        Some(s) => {
            push_word(words, flag);
            push_word(words, s.as_str());
        },
        None => {
            assert(texts(words@) =~= texts(old(words)@) + opt_flag(flag@, *v));
        },
    }
}

impl BuildConfig {
    /// A configuration that builds `image_name` from the current directory.
    pub fn new(image_name: &str) -> (r: Self)
        ensures
            r.image_name@ == image_name@,
            r.context_path@ == "."@,
            r.dockerfile_path is None,
            r.build_args@.len() == 0,
            r.labels@.len() == 0,
            r.target is None,
            r.platform is None,
            !r.no_cache,
            !r.pull,
    {
        BuildConfig { image_name: owned(image_name), ..Default::default() }
    }

    pub fn context(self, path: &str) -> (r: Self)
        ensures
            r.context_path@ == path@,
            r == (BuildConfig { context_path: r.context_path, ..self }),
    {
        BuildConfig { context_path: owned(path), ..self }
    }

    pub fn dockerfile(self, path: &str) -> (r: Self)
        ensures
            r.dockerfile_path matches Some(p) && p@ == path@,
            r == (BuildConfig { dockerfile_path: r.dockerfile_path, ..self }),
    {
        BuildConfig { dockerfile_path: Some(owned(path)), ..self }
    }

    /// Sets a build argument (a later value for the same key replaces the earlier one).
    pub fn build_arg(self, key: &str, value: &str) -> (r: Self)
        ensures
            pair_views(r.build_args@) == upsert(pair_views(self.build_args@), key@, value@),
            r == (BuildConfig { build_args: r.build_args, ..self }),
    {
        let mut s = self;
        upsert_exec(&mut s.build_args, key, value);
        s
    }

    /// Sets a label (a later value for the same key replaces the earlier one).
    pub fn label(self, key: &str, value: &str) -> (r: Self)
        ensures
            pair_views(r.labels@) == upsert(pair_views(self.labels@), key@, value@),
            r == (BuildConfig { labels: r.labels, ..self }),
    {
        let mut s = self;
        upsert_exec(&mut s.labels, key, value);
        s
    }

    pub fn target(self, target: &str) -> (r: Self)
        ensures
            r.target matches Some(t) && t@ == target@,
            r == (BuildConfig { target: r.target, ..self }),
    {
        BuildConfig { target: Some(owned(target)), ..self }
    }

    pub fn platform(self, platform: &str) -> (r: Self)
        ensures
            r.platform matches Some(p) && p@ == platform@,
            r == (BuildConfig { platform: r.platform, ..self }),
    {
        BuildConfig { platform: Some(owned(platform)), ..self }
    }

    pub fn no_cache(self) -> (r: Self)
        ensures
            r == (BuildConfig { no_cache: true, ..self }),
    {
        BuildConfig { no_cache: true, ..self }
    }

    pub fn pull(self) -> (r: Self)
        ensures
            r == (BuildConfig { pull: true, ..self }),
    {
        BuildConfig { pull: true, ..self }
    }

    /// The `docker build` command for this configuration.
    pub fn build_command(&self) -> (r: String)
        ensures
            r@ == join(build_words(*self), " "@),
    {
        let mut cmd: Vec<String> = Vec::new();
        push_word(&mut cmd, "docker");
        push_word(&mut cmd, "build");
        push_word(&mut cmd, "-t");
        push_word(&mut cmd, self.image_name.as_str());
        push_opt_flag(&mut cmd, "-f", &self.dockerfile_path);
        push_flag_pairs(&mut cmd, "--build-arg", &self.build_args);
        push_flag_pairs(&mut cmd, "--label", &self.labels);
        push_opt_flag(&mut cmd, "--target", &self.target);
        if self.no_cache {
            push_word(&mut cmd, "--no-cache");
        }
        if self.pull {
            push_word(&mut cmd, "--pull");
        }
        push_opt_flag(&mut cmd, "--platform", &self.platform);
        push_word(&mut cmd, self.context_path.as_str());
        assert(texts(cmd@) =~= build_words(*self));
        join_exec(&cmd, " ")
    }
}

/// Result of a build operation
#[derive(Debug, Clone)]
pub struct BuildResult {
    pub build_id: u128,
    pub image_name: String,
    pub image_id: String,
    pub logs: String,
}

/// Result of a prune operation
#[derive(Debug, Clone)]
pub struct PruneResult {
    pub images_deleted: usize,
    pub space_reclaimed: u64,
}

/// Outcome of `docker build`: any failure is `BuildFailed`, with the SSH
/// message or the standard error.
pub fn build_outcome(out: SshOutcome) -> (r: Result<CommandOutput, DockerError>)
    ensures
        match out {
            Err(m) => r matches Err(e) && e@ == DockerErrorView::BuildFailed(m@),
            Ok(o) => if o.exit_code != 0 {
                r matches Err(e) && e@ == DockerErrorView::BuildFailed(o.stderr@)
            } else {
                r == Ok::<CommandOutput, DockerError>(o)
            },
        },
{
    match out {
        Err(m) => Err(DockerError::BuildFailed(m)),
        Ok(o) => if o.exit_code != 0 {
            Err(DockerError::BuildFailed(o.stderr))
        } else {
            Ok(o)
        },
    }
}

/// `docker images -q <image>`.
pub fn image_id_command(image_name: &str) -> (r: String)
    ensures
        r@ == "docker images -q "@ + image_name@,
{
    concat("docker images -q ", image_name)
}

/// Outcome of looking up an image's ID: the trimmed standard output, or
/// `ImageNotFound` when the command fails.
pub fn image_id_result(image_name: &str, out: SshOutcome) -> (r: Result<String, DockerError>)
    ensures
        text_result(r) == match out {
            Err(m) => Err(DockerErrorView::CommandFailed(m@)),
            Ok(o) => if o.exit_code == 0 {
                Ok(trim(o.stdout@))
            } else {
                Err(DockerErrorView::ImageNotFound(image_name@))
            },
        },
{
    match out {
        Err(m) => Err(DockerError::CommandFailed(m)),
        Ok(o) => if o.exit_code == 0 {
            let v = chars_of(o.stdout.as_str());
            let t = trim_exec(&v);
            Ok(string_from(&t))
        } else {
            Err(DockerError::ImageNotFound(owned(image_name)))
        },
    }
}

/// What a successful build reports: its ID, the image's name and ID, and
/// the build's output and errors together.
pub fn build_result(build_id: u128, config: &BuildConfig, image_id: String, output: &CommandOutput) -> (r:
    BuildResult)
    ensures
        r.build_id == build_id,
        r.image_name@ == config.image_name@,
        r.image_id == image_id,
        r.logs@ == combined_text(output.stdout@, output.stderr@),
{
    BuildResult {
        build_id,
        image_name: config.image_name.clone(),
        image_id,
        logs: output.combined(),
    }
}

/// `docker pull <image>`.
pub fn pull_command(image: &str) -> (r: String)
    ensures
        r@ == "docker pull "@ + image@,
{
    concat("docker pull ", image)
}

/// Outcome of `docker pull`: any failure is `PullFailed`.
pub fn pull_result(out: SshOutcome) -> (r: Result<(), DockerError>)
    ensures
        unit_result(r) == match out {
            Err(m) => Err(DockerErrorView::PullFailed(m@)),
            Ok(o) => if o.exit_code != 0 {
                Err(DockerErrorView::PullFailed(o.stderr@))
            } else {
                Ok(())
            },
        },
{
    match out {
        Err(m) => Err(DockerError::PullFailed(m)),
        Ok(o) => if o.exit_code != 0 {
            Err(DockerError::PullFailed(o.stderr))
        } else {
            Ok(())
        },
    }
}

/// `docker push <image>`.
pub fn push_command(image: &str) -> (r: String)
    ensures
        r@ == "docker push "@ + image@,
{
    concat("docker push ", image)
}

/// `docker tag <source> <target>`.
pub fn tag_command(source: &str, target: &str) -> (r: String)
    ensures
        r@ == "docker tag "@ + source@ + " "@ + target@,
{
    let mut r = concat("docker tag ", source);
    r.append(" ");
    r.append(target);
    r
}

/// `docker rmi [-f] <image>`.
pub fn remove_image_command(image: &str, force: bool) -> (r: String)
    ensures
        r@ == (if force {
            "docker rmi -f "@
        } else {
            "docker rmi "@
        }) + image@,
{
    if force {
        concat("docker rmi -f ", image)
    } else {
        concat("docker rmi ", image)
    }
}

/// `docker image prune`, of all unused images or only dangling ones.
pub fn prune_images_command(all: bool) -> (r: String)
    ensures
        r@ == (if all {
            "docker image prune -af"@
        } else {
            "docker image prune -f"@
        }),
{
    if all {
        owned("docker image prune -af")
    } else {
        owned("docker image prune -f")
    }
}

/// Outcome of pruning images: the standard output, whatever the exit code.
pub fn prune_output(out: SshOutcome) -> (r: Result<String, DockerError>)
    ensures
        text_result(r) == match out {
            Err(m) => Err(DockerErrorView::CommandFailed(m@)),
            Ok(o) => Ok(o.stdout@),
        },
{
    match out {
        Err(m) => Err(DockerError::CommandFailed(m)),
        Ok(o) => Ok(o.stdout),
    }
}

/// The size field of the first line that mentions `reclaimed space`: the
/// trimmed text after its first `:`. `None` when no such line has one.
pub open spec fn reclaimed_field_from(ls: Seq<Seq<char>>) -> Option<Seq<char>>
    decreases ls.len(),
{
    if ls.len() == 0 {
        None
    } else if contains(ls[0], "reclaimed space"@) && split(ls[0], seq![':']).len() >= 2 {
        Some(trim(split(ls[0], seq![':'])[1]))
    } else {
        reclaimed_field_from(ls.skip(1))
    }
}

/// The size text that prune output reports as reclaimed space
/// (`Total reclaimed space: 1.234GB` gives `1.234GB`).
pub fn reclaimed_space_field(output: &str) -> (r: Option<String>)
    ensures
        match r {
            Some(s) => reclaimed_field_from(lines(output@)) == Some(s@),
            None => reclaimed_field_from(lines(output@)) is None,
        },
{
    let v = chars_of(output);
    let ls = lines_exec(&v);
    let mut i: usize = 0;
    assert(views(ls@).skip(0) =~= views(ls@));
    while i < ls.len()
        invariant
            i <= ls.len(),
            views(ls@) == lines(output@),
            reclaimed_field_from(lines(output@)) == reclaimed_field_from(views(ls@).skip(i as int)),
        decreases ls.len() - i,
    {
        let ghost rest = views(ls@).skip(i as int);
        assert(rest[0] == ls@[i as int]@);
        assert(rest.skip(1) =~= views(ls@).skip(i + 1));
        if contains_str(&ls[i], "reclaimed space") {
            let parts = split_char(&ls[i], ':');
            if parts.len() >= 2 {
                assert(views(parts@)[1] == parts@[1]@);
                let t = trim_exec(&parts[1]);
                return Some(string_from(&t));
            }
        }
        i = i + 1;
    }
    None
}

/// `echo <password> | docker login <registry> -u <user> --password-stdin`.
pub fn login_command(registry: &str, username: &str, password: &str) -> (r: String)
    ensures
        r@ == "echo "@ + password@ + " | docker login "@ + registry@ + " -u "@ + username@
            + " --password-stdin"@,
{
    let mut r = concat("echo ", password);
    r.append(" | docker login ");
    r.append(registry);
    r.append(" -u ");
    r.append(username);
    r.append(" --password-stdin");
    r
}

/// Dockerfile generator for common application types
pub struct DockerfileGenerator;

/// The Node.js Dockerfile: a build stage and a runtime stage on the given
/// Node version, exposing port 3000.
pub open spec fn nodejs_dockerfile(
    node_version: Seq<char>,
    install_cmd: Seq<char>,
    build_cmd: Seq<char>,
    start_cmd: Seq<char>,
) -> Seq<char> {
    "FROM node:"@ + node_version + "-alpine AS builder\nWORKDIR /app\nCOPY package*.json ./\nRUN "@
        + install_cmd + "\nCOPY . .\nRUN "@ + build_cmd + "\n\nFROM node:"@ + node_version
        + "-alpine\nWORKDIR /app\nCOPY --from=builder /app .\nEXPOSE 3000\nCMD ["@ + start_cmd
        + "]\n"@
}

/// The static-site Dockerfile: nginx serving `build_output`.
pub open spec fn static_site_dockerfile(build_output: Seq<char>) -> Seq<char> {
    "FROM nginx:alpine\nCOPY "@ + build_output
        + " /usr/share/nginx/html\nEXPOSE 80\nCMD [\"nginx\", \"-g\", \"daemon off;\"]\n"@
}

/// The Python Dockerfile on the given Python version, exposing port 8000.
pub open spec fn python_dockerfile(python_version: Seq<char>) -> Seq<char> {
    "FROM python:"@ + python_version
        + "-slim\nWORKDIR /app\nCOPY requirements.txt .\nRUN pip install --no-cache-dir -r requirements.txt\nCOPY . .\nEXPOSE 8000\nCMD [\"python\", \"app.py\"]\n"@
}

impl DockerfileGenerator {
    /// Generate Dockerfile for a Node.js application
    pub fn nodejs(node_version: &str, install_cmd: &str, build_cmd: &str, start_cmd: &str) -> (r:
        String)
        ensures
            r@ == nodejs_dockerfile(node_version@, install_cmd@, build_cmd@, start_cmd@),
    {
        let mut r = owned("FROM node:");
        r.append(node_version);
        r.append("-alpine AS builder\nWORKDIR /app\nCOPY package*.json ./\nRUN ");
        r.append(install_cmd);
        r.append("\nCOPY . .\nRUN ");
        r.append(build_cmd);
        r.append("\n\nFROM node:");
        r.append(node_version);
        r.append("-alpine\nWORKDIR /app\nCOPY --from=builder /app .\nEXPOSE 3000\nCMD [");
        r.append(start_cmd);
        r.append("]\n");
        r
    }

    /// Generate Dockerfile for a static site
    pub fn static_site(build_output: &str) -> (r: String)
        ensures
            r@ == static_site_dockerfile(build_output@),
    {
        let mut r = owned("FROM nginx:alpine\nCOPY ");
        r.append(build_output);
        r.append(" /usr/share/nginx/html\nEXPOSE 80\nCMD [\"nginx\", \"-g\", \"daemon off;\"]\n");
        r
    }

    /// Generate Dockerfile for a Python application
    pub fn python(python_version: &str) -> (r: String)
        ensures
            r@ == python_dockerfile(python_version@),
    {
        let mut r = owned("FROM python:");
        r.append(python_version);
        r.append(
            "-slim\nWORKDIR /app\nCOPY requirements.txt .\nRUN pip install --no-cache-dir -r requirements.txt\nCOPY . .\nEXPOSE 8000\nCMD [\"python\", \"app.py\"]\n",
        );
        r
    }

    /// Generate Dockerfile for a Rust application
    pub fn rust() -> (r: String)
        ensures
            r@ == "FROM rust:alpine AS builder\nWORKDIR /app\nCOPY . .\nRUN cargo build --release\n\nFROM alpine:latest\nWORKDIR /app\nCOPY --from=builder /app/target/release/app .\nEXPOSE 8080\nCMD [\"./app\"]\n"@,
    {
        owned(
            "FROM rust:alpine AS builder\nWORKDIR /app\nCOPY . .\nRUN cargo build --release\n\nFROM alpine:latest\nWORKDIR /app\nCOPY --from=builder /app/target/release/app .\nEXPOSE 8080\nCMD [\"./app\"]\n",
        )
    }

    /// Generate Dockerfile for a Go application
    pub fn golang() -> (r: String)
        ensures
            r@ == "FROM golang:alpine AS builder\nWORKDIR /app\nCOPY go.* ./\nRUN go mod download\nCOPY . .\nRUN CGO_ENABLED=0 go build -o app .\n\nFROM alpine:latest\nWORKDIR /app\nCOPY --from=builder /app/app .\nEXPOSE 8080\nCMD [\"./app\"]\n"@,
    {
        owned(
            "FROM golang:alpine AS builder\nWORKDIR /app\nCOPY go.* ./\nRUN go mod download\nCOPY . .\nRUN CGO_ENABLED=0 go build -o app .\n\nFROM alpine:latest\nWORKDIR /app\nCOPY --from=builder /app/app .\nEXPOSE 8080\nCMD [\"./app\"]\n",
        )
    }
}

} // verus!
