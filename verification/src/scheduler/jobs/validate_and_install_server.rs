//! Validate and Install Server Job
//!
//! Validates server configuration and installs required components (Docker, prerequisites).

use vstd::prelude::*;
use crate::scheduler::jobs::{Job, JobContext, JobResult};
use crate::text::{
    chars_of, join, join_exec, nat_text, owned, parse_u32, parse_unsigned, split, split_char,
    texts, u64_text, views,
};

verus! {

/// Context for server validation and installation
#[derive(Debug, Clone)]
pub struct ValidateAndInstallContext {
    pub server_id: u128,
    pub server_name: String,
    pub server_ip: String,
    pub server_port: u16,
    pub server_user: String,
    /// Current attempt number (for retries)
    pub attempt_number: u32,
    /// Whether this is a build server (no proxy needed)
    pub is_build_server: bool,
}

/// Validation step result
#[derive(Debug, Clone, Copy, PartialEq, Eq, Structural)]
pub enum ValidationStep {
    ConnectionCheck,
    OsValidation,
    PrerequisitesCheck,
    PrerequisitesInstall,
    DockerCheck,
    DockerInstall,
    DockerVersionCheck,
    ProxySetup,
    Complete,
}

/// Result of server validation
#[derive(Debug, Clone)]
pub struct ValidationResult {
    /// Whether validation was successful
    pub success: bool,
    /// Current step that was reached
    pub step: ValidationStep,
    /// Detected OS type
    pub os_type: Option<String>,
    /// Docker version if installed
    pub docker_version: Option<String>,
    /// Missing prerequisites
    pub missing_prerequisites: Vec<String>,
    /// Validation logs for display
    pub validation_logs: String,
    /// Whether a retry is needed
    pub needs_retry: bool,
}

/// Minimum Docker major version required
pub const MIN_DOCKER_MAJOR: u32 = 24;

/// The major version of a Docker version string: its part before the
/// first `.` read as a `u32`, or 0 when that is no number.
pub open spec fn docker_major(version: Seq<char>) -> nat {
    match parse_unsigned(split(version, seq!['.'])[0], u32::MAX as nat) {
        Some(n) => n,
        None => 0,
    }
}

/// A name that prints the same with and without debug quoting.
pub open spec fn plain_name(s: Seq<char>) -> bool {
    forall|i: int|
        0 <= i < s.len() ==> ('a' <= #[trigger] s[i] <= 'z' || 'A' <= s[i] <= 'Z' || '0' <= s[i]
            <= '9' || s[i] == '-' || s[i] == '_' || s[i] == '.')
}

/// A list of names as debug formatting prints it: `["a", "b"]`.
pub open spec fn debug_list(v: Seq<Seq<char>>) -> Seq<char> {
    "["@ + join(v.map_values(|s: Seq<char>| "\""@ + s + "\""@), ", "@) + "]"@
}

fn debug_list_exec(v: &Vec<String>) -> (r: String)
    ensures
        r@ == debug_list(texts(v@)),
{
    let mut quoted: Vec<String> = Vec::new();
    let mut i: usize = 0;
    while i < v.len()
        invariant
            i <= v.len(),
            texts(quoted@) == texts(v@).take(i as int).map_values(
                |s: Seq<char>| "\""@ + s + "\""@,
            ),
        decreases v.len() - i,
    {
        let mut q = owned("\"");
        q.append(v[i].as_str());
        q.append("\"");
        assert(texts(v@)[i as int] == v@[i as int]@);
        let ghost before = quoted@;
        quoted.push(q);
        assert(texts(quoted@) =~= texts(before).push(q@));
        assert(texts(quoted@) =~= texts(v@).take(i + 1).map_values(
            |s: Seq<char>| "\""@ + s + "\""@,
        ));
        i = i + 1;
    }
    assert(texts(v@).take(v@.len() as int) =~= texts(v@));
    let body = join_exec(&quoted, ", ");
    let mut r = owned("[");
    r.append(body.as_str());
    r.append("]");
    r
}

/// Files a prerequisite as found or missing: only `jq` is missing.
fn classify_prerequisite(name: &str, found: &mut Vec<String>, missing: &mut Vec<String>)
    ensures
        if name@ == "jq"@ {
            final(found)@ == old(found)@ && texts(final(missing)@) == texts(old(missing)@).push(
                name@,
            )
        } else {
            texts(final(found)@) == texts(old(found)@).push(name@) && final(missing)@
                == old(missing)@
        },
{
    if owned(name) != owned("jq") {
        crate::kv::push_word(found, name);
    } else {
        crate::kv::push_word(missing, name);
    }
}

/// Job to validate and install server components
pub struct ValidateAndInstallServerJob {
    max_tries: u32,
}

/// The log lines of the checks that passed before the prerequisites were judged.
pub open spec fn probe_log(uptime: Seq<char>, os: Seq<char>, found: Seq<Seq<char>>) -> Seq<char> {
    "✓ Server reachable. Uptime: "@ + uptime + "\n✓ OS detected: "@ + os
        + "\n✓ Found prerequisites: "@ + debug_list(found) + "\n"@
}

/// "... could not be installed after N attempts. Please install manually."
pub open spec fn gave_up_text(what: Seq<char>, tries: u32) -> Seq<char> {
    what + " could not be installed after "@ + nat_text(tries as nat)
        + " attempts. Please install manually."@
}

fn gave_up_exec(what: &str, tries: u32) -> (r: String)
    ensures
        r@ == gave_up_text(what@, tries),
{
    let mut r = owned(what);
    r.append(" could not be installed after ");
    let t = u64_text(tries as u64);
    r.append(t.as_str());
    r.append(" attempts. Please install manually.");
    r
}

impl ValidateAndInstallServerJob {
    /// How many attempts installation gets.
    pub closed spec fn tries(&self) -> u32 {
        self.max_tries
    }

    /// A job that gives installation three attempts.
    pub fn new() -> (r: Self)
        ensures
            r.tries() == 3,
    {
        ValidateAndInstallServerJob { max_tries: 3 }
    }

    /// Validate Docker version meets minimum requirements
    pub fn validate_docker_version(&self, version: &str) -> (b: bool)
        ensures
            b == (docker_major(version@) >= MIN_DOCKER_MAJOR),
    {
        let v = chars_of(version);
        let parts = split_char(&v, '.');
        proof {
            crate::scheduler::jobs::container_status::lemma_split_nonempty(v@, seq!['.'], 0);
            assert(views(parts@)[0] == parts@[0]@);
        }
        let major: u32 = match parse_u32(&parts[0]) {
            Some(n) => n,
            None => 0,
        };
        major >= MIN_DOCKER_MAJOR
    }

    /// What the probes of a validation decide. Names of prerequisites are
    /// plain words.
    pub fn validation_result(
        &self,
        attempt_number: u32,
        is_build_server: bool,
        connection: Result<String, String>,
        os: Result<String, String>,
        found: &Vec<String>,
        missing: Vec<String>,
        docker: Result<Option<String>, String>,
        compose_available: bool,
        proxy: Result<(), String>,
    ) -> (r: ValidationResult)
        ensures
            match connection {
                Err(e) => !r.success && r.step == ValidationStep::ConnectionCheck && r.os_type is None
                    && r.docker_version is None && r.missing_prerequisites@.len() == 0
                    && r.validation_logs@
                    == "Server is not reachable. Please validate your configuration.\nError: "@ + e@
                    && !r.needs_retry,
                Ok(uptime) => match os {
                    Err(e) => !r.success && r.step == ValidationStep::OsValidation && r.os_type is None
                        && r.docker_version is None && r.missing_prerequisites@.len() == 0
                        && r.validation_logs@
                        == "Server OS type is not supported. Please install Docker manually.\nError: "@
                        + e@ && !r.needs_retry,
                    Ok(os_name) => r.os_type == Some(os_name) && if missing@.len() > 0 {
                        !r.success && r.docker_version is None && r.missing_prerequisites
                            == missing && if attempt_number >= self.tries() {
                            r.step == ValidationStep::PrerequisitesCheck && r.validation_logs@
                                == gave_up_text("Prerequisites"@, self.tries()) && !r.needs_retry
                        } else {
                            r.step == ValidationStep::PrerequisitesInstall && r.validation_logs@
                                == probe_log(uptime@, os_name@, texts(found@))
                                + "⚠ Missing prerequisites: "@ + debug_list(texts(missing@))
                                + "\n⏳ Prerequisites installation initiated. Retrying...\n"@
                                && r.needs_retry
                        }
                    } else {
                        r.missing_prerequisites@.len() == 0 && match docker {
                            Ok(Some(v)) => if docker_major(v@) < MIN_DOCKER_MAJOR {
                                !r.success && r.step == ValidationStep::DockerVersionCheck
                                    && r.docker_version == Some(v) && r.validation_logs@
                                    == "Minimum Docker Engine version 24 is not installed. Found: "@
                                    + v@ && !r.needs_retry
                            } else {
                                r.success && r.step == ValidationStep::Complete && r.docker_version
                                    == Some(v) && !r.needs_retry && r.validation_logs@ == probe_log(
                                    uptime@,
                                    os_name@,
                                    texts(found@),
                                ) + "✓ Docker installed: v"@ + v@ + "\n"@ + (if compose_available {
                                    "✓ Docker Compose available\n"@
                                } else {
                                    "⚠ Docker Compose not available\n"@
                                }) + (if is_build_server {
                                    Seq::<char>::empty()
                                } else {
                                    match proxy {
                                        Ok(()) => "✓ Proxy setup complete\n"@,
                                        Err(e) => "⚠ Proxy setup failed: "@ + e@ + "\n"@,
                                    }
                                }) + "✓ Server validation complete!\n"@
                            },
                            _ => !r.success && r.docker_version is None && if attempt_number
                                >= self.tries() {
                                r.step == ValidationStep::DockerCheck && r.validation_logs@
                                    == gave_up_text("Docker Engine"@, self.tries()) && !r.needs_retry
                            } else {
                                r.step == ValidationStep::DockerInstall && r.validation_logs@
                                    == probe_log(uptime@, os_name@, texts(found@))
                                    + "⚠ Docker not found. Installing...\n"@ && r.needs_retry
                            },
                        }
                    },
                },
            },
    {
        let mut logs = String::new();
        let uptime = match connection {
            Ok(u) => u,
            Err(e) => {
                let mut msg = owned(
                    "Server is not reachable. Please validate your configuration.\nError: ",
                );
                msg.append(e.as_str());
                return ValidationResult {
                    success: false,
                    step: ValidationStep::ConnectionCheck,
                    os_type: None,
                    docker_version: None,
                    missing_prerequisites: Vec::new(),
                    validation_logs: msg,
                    needs_retry: false,
                };
            },
        };
        logs.append("✓ Server reachable. Uptime: ");
        logs.append(uptime.as_str());
        let os_name = match os {
            Ok(o) => o,
            Err(e) => {
                let mut msg = owned(
                    "Server OS type is not supported. Please install Docker manually.\nError: ",
                );
                msg.append(e.as_str());
                return ValidationResult {
                    success: false,
                    step: ValidationStep::OsValidation,
                    os_type: None,
                    docker_version: None,
                    missing_prerequisites: Vec::new(),
                    validation_logs: msg,
                    needs_retry: false,
                };
            },
        };
        logs.append("\n✓ OS detected: ");
        logs.append(os_name.as_str());
        logs.append("\n✓ Found prerequisites: ");
        let fl = debug_list_exec(found);
        logs.append(fl.as_str());
        logs.append("\n");
        assert(logs@ =~= probe_log(uptime@, os_name@, texts(found@)));
        if missing.len() > 0 {
            if attempt_number >= self.max_tries {
                return ValidationResult {
                    success: false,
                    step: ValidationStep::PrerequisitesCheck,
                    os_type: Some(os_name),
                    docker_version: None,
                    missing_prerequisites: missing,
                    validation_logs: gave_up_exec("Prerequisites", self.max_tries),
                    needs_retry: false,
                };
            }
            logs.append("⚠ Missing prerequisites: ");
            let ml = debug_list_exec(&missing);
            logs.append(ml.as_str());
            logs.append("\n⏳ Prerequisites installation initiated. Retrying...\n");
            return ValidationResult {
                success: false,
                step: ValidationStep::PrerequisitesInstall,
                os_type: Some(os_name),
                docker_version: None,
                missing_prerequisites: missing,
                validation_logs: logs,
                needs_retry: true,
            };
        }
        let version = match docker {
            Ok(Some(v)) => v,
            _ => {
                if attempt_number >= self.max_tries {
                    return ValidationResult {
                        success: false,
                        step: ValidationStep::DockerCheck,
                        os_type: Some(os_name),
                        docker_version: None,
                        missing_prerequisites: Vec::new(),
                        validation_logs: gave_up_exec("Docker Engine", self.max_tries),
                        needs_retry: false,
                    };
                }
                logs.append("⚠ Docker not found. Installing...\n");
                return ValidationResult {
                    success: false,
                    step: ValidationStep::DockerInstall,
                    os_type: Some(os_name),
                    docker_version: None,
                    missing_prerequisites: Vec::new(),
                    validation_logs: logs,
                    needs_retry: true,
                };
            },
        };
        if !self.validate_docker_version(version.as_str()) {
            let mut msg = owned("Minimum Docker Engine version 24 is not installed. Found: ");
            msg.append(version.as_str());
            return ValidationResult {
                success: false,
                step: ValidationStep::DockerVersionCheck,
                os_type: Some(os_name),
                docker_version: Some(version),
                missing_prerequisites: Vec::new(),
                validation_logs: msg,
                needs_retry: false,
            };
        }
        logs.append("✓ Docker installed: v");
        logs.append(version.as_str());
        logs.append("\n");
        if !compose_available {
            logs.append("⚠ Docker Compose not available\n");
        } else {
            logs.append("✓ Docker Compose available\n");
        }
        if !is_build_server {
            match proxy {
                Ok(()) => logs.append("✓ Proxy setup complete\n"),
                Err(e) => {
                    logs.append("⚠ Proxy setup failed: ");
                    logs.append(e.as_str());
                    logs.append("\n");
                },
            }
        }
        logs.append("✓ Server validation complete!\n");
        ValidationResult {
            success: true,
            step: ValidationStep::Complete,
            os_type: Some(os_name),
            docker_version: Some(version),
            missing_prerequisites: Vec::new(),
            validation_logs: logs,
            needs_retry: false,
        }
    }

    /// Validate SSH connection and get uptime
    fn validate_connection(&self, ctx: &JobContext<ValidateAndInstallContext>) -> (r: Result<
        String,
        String,
    >)
        ensures
            r matches Ok(u) && u@ == "up 1 day, 2 hours"@,
    {
        Ok(owned("up 1 day, 2 hours"))
    }

    /// Validate OS type
    fn validate_os(&self, ctx: &JobContext<ValidateAndInstallContext>) -> (r: Result<String, String>)
        ensures
            r matches Ok(o) && o@ == "ubuntu"@,
    {
        Ok(owned("ubuntu"))
    }

    /// Sorts the required prerequisites (curl, wget, git, jq) into found
    /// and missing: every one but `jq` is found.
    fn check_prerequisites(&self, ctx: &JobContext<ValidateAndInstallContext>) -> (r: (
        Vec<String>,
        Vec<String>,
    ))
        ensures
            texts(r.0@) == seq!["curl"@, "wget"@, "git"@],
            texts(r.1@) == seq!["jq"@],
    {
        let mut found: Vec<String> = Vec::new();
        let mut missing: Vec<String> = Vec::new();
        assert(texts(found@) =~= Seq::<Seq<char>>::empty());
        assert(texts(missing@) =~= Seq::<Seq<char>>::empty());
        proof {
            reveal_strlit("jq");
            reveal_strlit("curl");
            reveal_strlit("wget");
            reveal_strlit("git");
        }
        assert("curl"@ != "jq"@ && "wget"@ != "jq"@ && "git"@ != "jq"@) by {
            assert("curl"@.len() != "jq"@.len());
            assert("wget"@.len() != "jq"@.len());
            assert("git"@[0] != "jq"@[0]);
        }
        classify_prerequisite("curl", &mut found, &mut missing);
        classify_prerequisite("wget", &mut found, &mut missing);
        classify_prerequisite("git", &mut found, &mut missing);
        classify_prerequisite("jq", &mut found, &mut missing);
        assert(texts(found@) =~= seq!["curl"@, "wget"@, "git"@]);
        assert(texts(missing@) =~= seq!["jq"@]);
        (found, missing)
    }

    /// Check if Docker is installed
    fn check_docker(&self, ctx: &JobContext<ValidateAndInstallContext>) -> (r: Result<
        Option<String>,
        String,
    >)
        ensures
            r matches Ok(Some(v)) && v@ == "24.0.7"@,
    {
        Ok(Some(owned("24.0.7")))
    }

    /// Check if Docker Compose is installed
    fn check_docker_compose(&self, ctx: &JobContext<ValidateAndInstallContext>) -> (b: bool)
        ensures
            b,
    {
        true
    }

    /// Setup proxy (Traefik/Nginx)
    fn setup_proxy(&self, ctx: &JobContext<ValidateAndInstallContext>) -> (r: Result<(), String>)
        ensures
            r is Ok,
    {
        Ok(())
    }

    /// Validates the server: `jq` is reported missing, so the job asks for
    /// a retry while attempts remain and gives up after the last one.
    pub fn handle(&self, ctx: JobContext<ValidateAndInstallContext>) -> (r: JobResult<
        ValidationResult,
    >)
        ensures
            r matches Ok(res) && !res.success && (res.os_type matches Some(o) && o@ == "ubuntu"@)
                && texts(res.missing_prerequisites@) == seq!["jq"@] && if ctx.payload.attempt_number
                >= self.tries() {
                res.step == ValidationStep::PrerequisitesCheck && res.validation_logs@
                    == gave_up_text("Prerequisites"@, self.tries()) && !res.needs_retry
            } else {
                res.step == ValidationStep::PrerequisitesInstall && res.validation_logs@ == probe_log(
                    "up 1 day, 2 hours"@,
                    "ubuntu"@,
                    seq!["curl"@, "wget"@, "git"@],
                ) + "⚠ Missing prerequisites: "@ + debug_list(seq!["jq"@])
                    + "\n⏳ Prerequisites installation initiated. Retrying...\n"@ && res.needs_retry
            },
    {
        let connection = self.validate_connection(&ctx);
        let os = self.validate_os(&ctx);
        let (found, missing) = self.check_prerequisites(&ctx);
        let docker = self.check_docker(&ctx);
        let compose = self.check_docker_compose(&ctx);
        let proxy = self.setup_proxy(&ctx);
        Ok(
            self.validation_result(
                ctx.payload.attempt_number,
                ctx.payload.is_build_server,
                connection,
                os,
                &found,
                missing,
                docker,
                compose,
                proxy,
            ),
        )
    }
}

impl Job for ValidateAndInstallServerJob {
    fn name(&self) -> (r: &'static str)
        ensures
            r@ == "validate_and_install_server"@,
    {
        "validate_and_install_server"
    }

    fn max_tries(&self) -> (r: u32)
        ensures
            r == self.tries(),
    {
        self.max_tries
    }

    fn timeout_seconds(&self) -> (r: u64)
        ensures
            r == 600,
    {
        600
    }

    fn queue(&self) -> (r: &'static str)
        ensures
            r@ == "high"@,
    {
        "high"
    }
}

} // verus!
