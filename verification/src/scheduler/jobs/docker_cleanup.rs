//! Docker Cleanup Job
//!
//! Cleans up unused Docker resources (images, containers, volumes,
//! networks, build cache). The cleanup runs in stages; each stage runs its
//! commands on the server, and its outputs are read into counts that the
//! result collects.

use vstd::prelude::*;
use crate::kv::push_word;
use crate::ssh::session::CommandOutput;
use crate::text::{
    chars_of, contains, lines, lines_exec, owned, parse_u32, parse_unsigned, starts_with, texts,
    trim, trim_exec, utf8_len, utf8_len_exec, views,
};

verus! {

/// Cleanup context
#[derive(Debug, Clone, Copy)]
pub struct DockerCleanupContext {
    pub server_id: u128,
    /// Cleanup unused images
    pub cleanup_images: bool,
    /// Cleanup stopped containers
    pub cleanup_containers: bool,
    /// Cleanup unused volumes
    pub cleanup_volumes: bool,
    /// Cleanup unused networks
    pub cleanup_networks: bool,
    /// Cleanup build cache
    pub cleanup_builder_cache: bool,
    /// Force cleanup (bypass confirmation)
    pub force: bool,
}

impl Default for DockerCleanupContext {
    /// Everything but volumes is cleaned (volumes hold data), without asking.
    fn default() -> (r: Self)
        ensures
            r.server_id == 0,
            r.cleanup_images && r.cleanup_containers && !r.cleanup_volumes && r.cleanup_networks
                && r.cleanup_builder_cache && r.force,
    {
        DockerCleanupContext {
            server_id: 0,
            cleanup_images: true,
            cleanup_containers: true,
            cleanup_volumes: false,
            cleanup_networks: true,
            cleanup_builder_cache: true,
            force: true,
        }
    }
}

/// Cleanup result. Times are milliseconds since the epoch.
#[derive(Debug, Clone)]
pub struct CleanupResult {
    pub server_id: u128,
    pub started_at: i64,
    pub completed_at: i64,
    pub space_reclaimed_bytes: i64,
    pub images_removed: u32,
    pub containers_removed: u32,
    pub volumes_removed: u32,
    pub networks_removed: u32,
    pub build_cache_cleared: bool,
    pub errors: Vec<String>,
}

impl CleanupResult {
    /// An empty result for a server, started and completed at `now`.
    pub fn start(server_id: u128, now: i64) -> (r: Self)
        ensures
            r.server_id == server_id && r.started_at == now && r.completed_at == now
                && r.space_reclaimed_bytes == 0 && r.images_removed == 0 && r.containers_removed
                == 0 && r.volumes_removed == 0 && r.networks_removed == 0 && !r.build_cache_cleared
                && r.errors@.len() == 0,
    {
        CleanupResult {
            server_id,
            started_at: now,
            completed_at: now,
            space_reclaimed_bytes: 0,
            images_removed: 0,
            containers_removed: 0,
            volumes_removed: 0,
            networks_removed: 0,
            build_cache_cleared: false,
            errors: Vec::new(),
        }
    }

    /// A cleanup succeeded when no stage failed.
    pub fn is_success(&self) -> (b: bool)
        ensures
            b == (self.errors@.len() == 0),
    {
        self.errors.len() == 0
    }

    /// Whole seconds from start to completion, rounded toward zero.
    pub fn duration_seconds(&self) -> (r: i64)
        ensures
            r as int == if self.completed_at >= self.started_at {
                (self.completed_at as int - self.started_at as int) / 1000
            } else {
                -((self.started_at as int - self.completed_at as int) / 1000)
            },
    {
        if self.completed_at >= self.started_at {
            let d: i128 = self.completed_at as i128 - self.started_at as i128;
            (d / 1000) as i64
        } else {
            let d: i128 = self.started_at as i128 - self.completed_at as i128;
            (0 - d / 1000) as i64
        }
    }
}

/// The stages of a cleanup, in the order they run.
#[derive(Debug, Clone, Copy, PartialEq, Eq, Structural)]
pub enum CleanupStage {
    Containers,
    Images,
    Volumes,
    Networks,
    BuildCache,
}

/// The position of a stage in the run.
pub open spec fn stage_index(s: CleanupStage) -> int {
    match s {
        CleanupStage::Containers => 0,
        CleanupStage::Images => 1,
        CleanupStage::Volumes => 2,
        CleanupStage::Networks => 3,
        CleanupStage::BuildCache => 4,
    }
}

/// The stage at a position.
pub open spec fn stage_at(i: int) -> CleanupStage {
    if i == 0 {
        CleanupStage::Containers
    } else if i == 1 {
        CleanupStage::Images
    } else if i == 2 {
        CleanupStage::Volumes
    } else if i == 3 {
        CleanupStage::Networks
    } else {
        CleanupStage::BuildCache
    }
}

/// Whether the context asks for a stage.
pub open spec fn stage_enabled(c: DockerCleanupContext, s: CleanupStage) -> bool {
    match s {
        CleanupStage::Containers => c.cleanup_containers,
        CleanupStage::Images => c.cleanup_images,
        CleanupStage::Volumes => c.cleanup_volumes,
        CleanupStage::Networks => c.cleanup_networks,
        CleanupStage::BuildCache => c.cleanup_builder_cache,
    }
}

/// The first enabled stage at or after position `from`.
pub open spec fn first_enabled_from(c: DockerCleanupContext, from: int) -> Option<CleanupStage>
    decreases 5 - from,
{
    if from >= 5 || from < 0 {
        None
    } else if stage_enabled(c, stage_at(from)) {
        Some(stage_at(from))
    } else {
        first_enabled_from(c, from + 1)
    }
}

/// The stages a run goes through from position `from`: the first enabled
/// one, then those after it; the outcome of a stage plays no part.
pub open spec fn run_order(c: DockerCleanupContext, from: int) -> Seq<CleanupStage>
    decreases 5 - from,
{
    if from < 0 || from >= 5 {
        seq![]
    } else {
        match first_enabled_from(c, from) {
            Some(t) => if stage_index(t) >= from {
                seq![t] + run_order(c, stage_index(t) + 1)
            } else {
                seq![]
            },
            None => seq![],
        }
    }
}

proof fn lemma_first_enabled(c: DockerCleanupContext, from: int)
    requires
        0 <= from < 5,
    ensures
        match first_enabled_from(c, from) {
            Some(t) => from <= stage_index(t) < 5 && stage_enabled(c, t) && (forall|i: int|
                from <= i < stage_index(t) ==> !stage_enabled(c, #[trigger] stage_at(i))),
            None => forall|i: int| from <= i < 5 ==> !stage_enabled(c, #[trigger] stage_at(i)),
        },
    decreases 5 - from,
{
    lemma_stage_at_index(from);
    if !stage_enabled(c, stage_at(from)) && from + 1 < 5 {
        lemma_first_enabled(c, from + 1);
        assert forall|i: int| from <= i < 5 && !(from + 1 <= i) implies !stage_enabled(
            c,
            #[trigger] stage_at(i),
        ) by {
            assert(i == from);
        }
    }
    if !stage_enabled(c, stage_at(from)) && from + 1 == 5 {
        assert forall|i: int| from <= i < 5 implies !stage_enabled(c, #[trigger] stage_at(i)) by {
            assert(i == from);
        }
    }
}

proof fn lemma_stage_at_index(i: int)
    requires
        0 <= i < 5,
    ensures
        stage_index(stage_at(i)) == i,
{
}

/// Law: a run reaches every stage the context asks for and no other,
/// whatever the stages before it gave, since the next stage depends on
/// the context alone; a failing stage is recorded and the run goes on.
pub proof fn law_enabled_stages_run(c: DockerCleanupContext, s: CleanupStage, from: int)
    requires
        0 <= from <= 5,
    ensures
        run_order(c, from).contains(s) <==> (stage_enabled(c, s) && from <= stage_index(s)),
    decreases 5 - from,
{
    if from < 5 {
        lemma_first_enabled(c, from);
        match first_enabled_from(c, from) {
            Some(t) => {
                law_enabled_stages_run(c, s, stage_index(t) + 1);
                let r = run_order(c, from);
                assert(r == seq![t] + run_order(c, stage_index(t) + 1));
                if r.contains(s) {
                    let k = choose|k: int| 0 <= k < r.len() && r[k] == s;
                    if k > 0 {
                        assert(run_order(c, stage_index(t) + 1)[k - 1] == s);
                    }
                }
                if stage_enabled(c, s) && from <= stage_index(s) {
                    if s == t {
                        assert(r[0] == s);
                    } else {
                        assert(stage_at(stage_index(s)) == s);
                        assert(stage_index(s) > stage_index(t));
                        let rest = run_order(c, stage_index(t) + 1);
                        let k = choose|k: int| 0 <= k < rest.len() && rest[k] == s;
                        assert(r[k + 1] == s);
                    }
                }
            },
            None => {
                if stage_enabled(c, s) && from <= stage_index(s) {
                    assert(stage_at(stage_index(s)) == s);
                }
            },
        }
    }
}

/// The force flag of the prune commands: `-f` when forcing, else nothing.
pub open spec fn force_flag(force: bool) -> Seq<char> {
    if force {
        "-f"@
    } else {
        ""@
    }
}

/// The commands a stage runs, in order.
pub open spec fn stage_command_texts(c: DockerCleanupContext, s: CleanupStage) -> Seq<Seq<char>> {
    let f = force_flag(c.force);
    match s {
        CleanupStage::Containers => seq![
            "docker container prune "@ + f
                + " 2>&1 | grep -oP 'Total reclaimed space: \\K[0-9]+' || echo 0"@,
            "docker ps -a -q -f status=exited | wc -l"@,
        ],
        CleanupStage::Images => seq![
            "docker system df --format '{{.Size}}' | head -1"@,
            "docker image prune -a "@ + f + " 2>&1"@,
            "docker system df --format '{{.Size}}' | head -1"@,
        ],
        CleanupStage::Volumes => seq!["docker volume prune "@ + f + " 2>&1"@],
        CleanupStage::Networks => seq!["docker network prune "@ + f + " 2>&1"@],
        CleanupStage::BuildCache => seq!["docker builder prune "@ + f + " --all 2>&1"@],
    }
}

/// The number of lines of `ls` that `keep` accepts.
pub open spec fn count_lines(ls: Seq<Seq<char>>, keep: spec_fn(Seq<char>) -> bool) -> nat
    decreases ls.len(),
{
    if ls.len() == 0 {
        0
    } else {
        count_lines(ls.drop_last(), keep) + if keep(ls.last()) {
            1nat
        } else {
            0nat
        }
    }
}

/// A line that reports a deleted image.
pub open spec fn image_deleted_line(l: Seq<char>) -> bool {
    starts_with(l, "deleted:"@) || contains(l, "Deleted"@)
}

/// A line that reports a deleted volume: a `Deleted` line or a volume ID
/// (64 bytes long).
pub open spec fn volume_deleted_line(l: Seq<char>) -> bool {
    contains(l, "Deleted"@) || utf8_len(l) == 64
}

/// A line that reports a deleted network.
pub open spec fn network_deleted_line(l: Seq<char>) -> bool {
    contains(l, "Deleted"@)
}

/// The number read from `wc -l`, or 0 when the output is no number.
pub open spec fn count_of(stdout: Seq<char>) -> nat {
    match parse_unsigned(trim(stdout), u32::MAX as nat) {
        Some(n) => n,
        None => 0,
    }
}

/// What a stage reports from the outputs of its commands: the number of
/// objects removed and the bytes reclaimed (never measured, so 0).
pub open spec fn stage_report_of(s: CleanupStage, outputs: Seq<CommandOutput>) -> (nat, int) {
    match s {
        CleanupStage::Containers => (count_of(outputs[1].stdout@), 0),
        CleanupStage::Images => (
            count_lines(lines(outputs[1].stdout@), |l: Seq<char>| image_deleted_line(l)),
            0,
        ),
        CleanupStage::Volumes => (
            count_lines(lines(outputs[0].stdout@), |l: Seq<char>| volume_deleted_line(l)),
            0,
        ),
        CleanupStage::Networks => (
            count_lines(lines(outputs[0].stdout@), |l: Seq<char>| network_deleted_line(l)),
            0,
        ),
        CleanupStage::BuildCache => (0, 0),
    }
}

/// The error message prefix of a failed stage.
pub open spec fn stage_failure_text(s: CleanupStage) -> Seq<char> {
    match s {
        CleanupStage::Containers => "Container cleanup failed: "@,
        CleanupStage::Images => "Image cleanup failed: "@,
        CleanupStage::Volumes => "Volume cleanup failed: "@,
        CleanupStage::Networks => "Network cleanup failed: "@,
        CleanupStage::BuildCache => "Build cache cleanup failed: "@,
    }
}

/// Counts the lines of `stdout` of the given kind (0: images, 1: volumes,
/// 2: networks), wrapping as the count's `u32` conversion does.
fn count_matching(stdout: &String, kind: u8) -> (r: u32)
    requires
        kind < 3,
    ensures
        r as int == (count_lines(
            lines(stdout@),
            if kind == 0 {
                |l: Seq<char>| image_deleted_line(l)
            } else if kind == 1 {
                |l: Seq<char>| volume_deleted_line(l)
            } else {
                |l: Seq<char>| network_deleted_line(l)
            },
        ) as int) % 0x1_0000_0000,
{
    let ghost keep = if kind == 0 {
        |l: Seq<char>| image_deleted_line(l)
    } else if kind == 1 {
        |l: Seq<char>| volume_deleted_line(l)
    } else {
        |l: Seq<char>| network_deleted_line(l)
    };
    let v = chars_of(stdout.as_str());
    let ls = lines_exec(&v);
    let mut n: u32 = 0;
    let mut i: usize = 0;
    while i < ls.len()
        invariant
            kind < 3,
            i <= ls.len(),
            views(ls@) == lines(stdout@),
            keep == (if kind == 0 {
                |l: Seq<char>| image_deleted_line(l)
            } else if kind == 1 {
                |l: Seq<char>| volume_deleted_line(l)
            } else {
                |l: Seq<char>| network_deleted_line(l)
            }),
            n as int == (count_lines(views(ls@).take(i as int), keep) as int) % 0x1_0000_0000,
        decreases ls.len() - i,
    {
        let l = &ls[i];
        assert(views(ls@)[i as int] == l@);
        assert(views(ls@).take(i + 1).drop_last() =~= views(ls@).take(i as int));
        assert(views(ls@).take(i + 1).last() == l@);
        let hit = if kind == 0 {
            crate::text::starts_with_str(l, "deleted:") || crate::text::contains_str(l, "Deleted")
        } else if kind == 1 {
            crate::text::contains_str(l, "Deleted") || utf8_len_exec(l) == 64
        } else {
            crate::text::contains_str(l, "Deleted")
        };
        if hit {
            n = n.wrapping_add(1);
        }
        i = i + 1;
    }
    assert(views(ls@).take(ls@.len() as int) =~= views(ls@));
    n
}

/// Docker cleanup job
pub struct DockerCleanupJob {
    context: DockerCleanupContext,
}

impl DockerCleanupJob {
    pub closed spec fn context(&self) -> DockerCleanupContext {
        self.context
    }

    pub fn new(context: DockerCleanupContext) -> (r: Self)
        ensures
            r.context() == context,
    {
        DockerCleanupJob { context }
    }

    /// The first stage to run, if any.
    pub fn first_stage(&self) -> (r: Option<CleanupStage>)
        ensures
            r == first_enabled_from(self.context(), 0),
    {
        self.stage_from(0)
    }

    /// The stage that runs after `s`, if any.
    pub fn next_stage(&self, s: CleanupStage) -> (r: Option<CleanupStage>)
        ensures
            r == first_enabled_from(self.context(), stage_index(s) + 1),
    {
        let i: u8 = match s {
            CleanupStage::Containers => 1,
            CleanupStage::Images => 2,
            CleanupStage::Volumes => 3,
            CleanupStage::Networks => 4,
            CleanupStage::BuildCache => 5,
        };
        self.stage_from(i)
    }

    fn stage_from(&self, from: u8) -> (r: Option<CleanupStage>)
        requires
            from <= 5,
        ensures
            r == first_enabled_from(self.context(), from as int),
        decreases 5 - from,
    {
        if from >= 5 {
            return None;
        }
        let s = if from == 0 {
            CleanupStage::Containers
        } else if from == 1 {
            CleanupStage::Images
        } else if from == 2 {
            CleanupStage::Volumes
        } else if from == 3 {
            CleanupStage::Networks
        } else {
            CleanupStage::BuildCache
        };
        let enabled = match s {
            CleanupStage::Containers => self.context.cleanup_containers,
            CleanupStage::Images => self.context.cleanup_images,
            CleanupStage::Volumes => self.context.cleanup_volumes,
            CleanupStage::Networks => self.context.cleanup_networks,
            CleanupStage::BuildCache => self.context.cleanup_builder_cache,
        };
        if enabled {
            Some(s)
        } else {
            self.stage_from(from + 1)
        }
    }

    /// The commands a stage runs on the server, in order.
    pub fn stage_commands(&self, s: CleanupStage) -> (r: Vec<String>)
        ensures
            texts(r@) == stage_command_texts(self.context(), s),
    {
        let f = if self.context.force {
            "-f"
        } else {
            ""
        };
        let mut v: Vec<String> = Vec::new();
        match s {
            CleanupStage::Containers => {
                let mut a = owned("docker container prune ");
                a.append(f);
                a.append(" 2>&1 | grep -oP 'Total reclaimed space: \\K[0-9]+' || echo 0");
                push_word(&mut v, a.as_str());
                push_word(&mut v, "docker ps -a -q -f status=exited | wc -l");
            },
            CleanupStage::Images => {
                push_word(&mut v, "docker system df --format '{{.Size}}' | head -1");
                let mut a = owned("docker image prune -a ");
                a.append(f);
                a.append(" 2>&1");
                push_word(&mut v, a.as_str());
                push_word(&mut v, "docker system df --format '{{.Size}}' | head -1");
            },
            CleanupStage::Volumes => {
                let mut a = owned("docker volume prune ");
                a.append(f);
                a.append(" 2>&1");
                push_word(&mut v, a.as_str());
            },
            CleanupStage::Networks => {
                let mut a = owned("docker network prune ");
                a.append(f);
                a.append(" 2>&1");
                push_word(&mut v, a.as_str());
            },
            CleanupStage::BuildCache => {
                let mut a = owned("docker builder prune ");
                a.append(f);
                a.append(" --all 2>&1");
                push_word(&mut v, a.as_str());
            },
        }
        assert(texts(v@) =~= stage_command_texts(self.context(), s));
        v
    }

    /// What a stage reports from the outputs of its commands (one output
    /// per command, in order): removed objects (counted modulo 2^32, as the
    /// count's conversion wraps) and reclaimed bytes.
    pub fn stage_report(&self, s: CleanupStage, outputs: &Vec<CommandOutput>) -> (r: (u32, i64))
        requires
            outputs@.len() == stage_command_texts(self.context(), s).len(),
        ensures
            r.0 as int == (stage_report_of(s, outputs@).0 as int) % 0x1_0000_0000,
            r.1 as int == stage_report_of(s, outputs@).1,
    {
        match s {
            CleanupStage::Containers => {
                let v = chars_of(outputs[1].stdout.as_str());
                let t = trim_exec(&v);
                let n: u32 = match parse_u32(&t) {
                    Some(n) => n,
                    None => 0,
                };
                (n, 0)
            },
            CleanupStage::Images => (count_matching(&outputs[1].stdout, 0), 0),
            CleanupStage::Volumes => (count_matching(&outputs[0].stdout, 1), 0),
            CleanupStage::Networks => (count_matching(&outputs[0].stdout, 2), 0),
            CleanupStage::BuildCache => (0, 0),
        }
    }

    /// Folds a stage's outcome into the result: a failure adds the stage's
    /// error message; a success sets the stage's count (and marks the
    /// build cache cleared) and adds the reclaimed bytes.
    pub fn record(result: &mut CleanupResult, s: CleanupStage, outcome: Result<(u32, i64), String>)
        requires
            outcome matches Ok((_, b)) ==> i64::MIN <= old(result).space_reclaimed_bytes + b
                <= i64::MAX,
        ensures
            final(result).server_id == old(result).server_id,
            final(result).started_at == old(result).started_at,
            final(result).completed_at == old(result).completed_at,
            match outcome {
                Err(e) => texts(final(result).errors@) == texts(old(result).errors@).push(
                    stage_failure_text(s) + e@,
                ) && final(result).space_reclaimed_bytes == old(result).space_reclaimed_bytes
                    && final(result).images_removed == old(result).images_removed
                    && final(result).containers_removed == old(result).containers_removed
                    && final(result).volumes_removed == old(result).volumes_removed
                    && final(result).networks_removed == old(result).networks_removed
                    && final(result).build_cache_cleared == old(result).build_cache_cleared,
                Ok((n, b)) => final(result).errors@ == old(result).errors@
                    && final(result).space_reclaimed_bytes == old(result).space_reclaimed_bytes + b
                    && final(result).containers_removed == (if s is Containers {
                    n
                } else {
                    old(result).containers_removed
                }) && final(result).images_removed == (if s is Images {
                    n
                } else {
                    old(result).images_removed
                }) && final(result).volumes_removed == (if s is Volumes {
                    n
                } else {
                    old(result).volumes_removed
                }) && final(result).networks_removed == (if s is Networks {
                    n
                } else {
                    old(result).networks_removed
                }) && final(result).build_cache_cleared == (s is BuildCache
                    || old(result).build_cache_cleared),
            },
    {
        match outcome {
            Err(e) => {
                let prefix = match s {
                    CleanupStage::Containers => "Container cleanup failed: ",
                    CleanupStage::Images => "Image cleanup failed: ",
                    CleanupStage::Volumes => "Volume cleanup failed: ",
                    CleanupStage::Networks => "Network cleanup failed: ",
                    CleanupStage::BuildCache => "Build cache cleanup failed: ",
                };
                let m = crate::kv::concat(prefix, e.as_str());
                push_word(&mut result.errors, m.as_str());
            },
            Ok((n, b)) => {
                result.space_reclaimed_bytes = result.space_reclaimed_bytes + b;
                match s {
                    CleanupStage::Containers => result.containers_removed = n,
                    CleanupStage::Images => result.images_removed = n,
                    CleanupStage::Volumes => result.volumes_removed = n,
                    CleanupStage::Networks => result.networks_removed = n,
                    CleanupStage::BuildCache => result.build_cache_cleared = true,
                }
            },
        }
    }
}

} // verus!
