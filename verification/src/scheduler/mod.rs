//! Job queue, job state machines and the decisions of the job handlers.

use vstd::prelude::*;
use crate::ids::{new_id, now_millis, MAX_UTC_MS};
use dashmap::DashMap;
use crate::text::owned;

pub mod cron;
pub mod interval;
pub mod job;
pub mod jobs;

verus! {

/// Job status
#[derive(Debug, Clone, Copy, PartialEq, Eq, Structural)]
pub enum JobStatus {
    Queued,
    Running,
    Completed,
    Failed,
    Cancelled,
}

/// What a finished job reports.
#[derive(Debug)]
pub struct JobResult {
    pub success: bool,
    pub message: Option<String>,
    pub data: Option<serde_json::Value>,
    pub duration_ms: u64,
}

impl JobResult {
    /// A successful result with a message.
    pub fn success(message: &str) -> (r: Self)
        ensures
            r.success,
            r.message matches Some(m) && m@ == message@,
            r.data is None,
            r.duration_ms == 0,
    {
        JobResult { success: true, message: Some(owned(message)), data: None, duration_ms: 0 }
    }
}

/// Why a job failed.
#[derive(Debug)]
pub struct JobError {
    pub message: String,
    pub retryable: bool,
    pub details: Option<serde_json::Value>,
}

impl JobError {
    /// The text the error displays: its message.
    pub fn message_text(&self) -> (r: String)
        ensures
            r@ == self.message@,
    {
        self.message.clone()
    }
}

/// Outcome of a job that reports a message.
pub type JobOutcome = Result<JobResult, JobError>;

/// The outcome succeeded with the given message.
pub open spec fn succeeded_with(r: JobOutcome, message: Seq<char>) -> bool {
    r matches Ok(res) && res.success && (res.message matches Some(m) && m@ == message) && res.data
        is None
}

/// Job entry in the queue. Times are milliseconds since the epoch.
#[derive(Debug, Clone)]
pub struct JobEntry {
    pub id: u128,
    pub job_type: String,
    pub payload: serde_json::Value,
    pub status: JobStatus,
    pub attempts: u32,
    pub max_retries: u32,
    pub created_at: i64,
    pub started_at: Option<i64>,
    pub finished_at: Option<i64>,
    pub last_error: Option<String>,
}

impl JobEntry {
    /// A queued entry with a fresh ID and three retries.
    pub fn new(job_type: &str, payload: serde_json::Value) -> (r: Self)
        ensures
            r.job_type@ == job_type@,
            r.payload == payload,
            r.status == JobStatus::Queued,
            r.attempts == 0,
            r.max_retries == 3,
            r.started_at is None && r.finished_at is None && r.last_error is None,
    {
        JobEntry {
            id: new_id(),
            job_type: owned(job_type),
            payload,
            status: JobStatus::Queued,
            attempts: 0,
            max_retries: 3,
            created_at: now_millis(),
            started_at: None,
            finished_at: None,
            last_error: None,
        }
    }
}

/// Scheduler configuration. Durations are in milliseconds.
#[derive(Debug, Clone)]
pub struct SchedulerConfig {
    /// Number of worker threads
    pub workers: usize,
    /// Maximum concurrent jobs per worker
    pub max_concurrent_jobs: usize,
    /// Job polling interval
    pub poll_interval_ms: u64,
    /// Job timeout
    pub job_timeout_ms: u64,
    /// Redis URL for queue
    pub redis_url: Option<String>,
}

impl Default for SchedulerConfig {
    /// Four workers of ten jobs each, polling every second, with an hour
    /// per job and no Redis.
    fn default() -> (r: Self)
        ensures
            r.workers == 4 && r.max_concurrent_jobs == 10 && r.poll_interval_ms == 1000
                && r.job_timeout_ms == 3_600_000 && r.redis_url is None,
    {
        SchedulerConfig {
            workers: 4,
            max_concurrent_jobs: 10,
            poll_interval_ms: 1000,
            job_timeout_ms: 3_600_000,
            redis_url: None,
        }
    }
}

/// What the job registry holds: each entry under its key.
pub uninterp spec fn job_contents(m: DashMap<u128, JobEntry>) -> Map<u128, JobEntry>;

/// The entry held under `k`, if any.
pub open spec fn entry_at(c: Map<u128, JobEntry>, k: u128) -> Option<JobEntry> {
    if c.contains_key(k) {
        Some(c[k])
    } else {
        None
    }
}

/// `s` lists every entry of `c` once, each with its key, in some order.
pub open spec fn snapshot_of(c: Map<u128, JobEntry>, s: Seq<(u128, JobEntry)>) -> bool {
    &&& forall|i: int| 0 <= i < s.len() ==> c.contains_key(#[trigger] s[i].0) && c[s[i].0] == s[i].1
    &&& forall|i: int, j: int| 0 <= i < j < s.len() ==> #[trigger] s[i].0 != #[trigger] s[j].0
    &&& forall|k: u128| c.contains_key(k) ==> exists|i: int| 0 <= i < s.len() && #[trigger] s[i].0 == k
}

/// `DashMap::new`: an empty registry.
#[verifier::external_body]
fn jobs_new() -> (r: DashMap<u128, JobEntry>)
    ensures
        job_contents(r).dom() == Set::<u128>::empty(),
{
    DashMap::new()
}

/// `DashMap::insert`: the key now holds the entry, in place of any earlier
/// one; no other key changes.
#[verifier::external_body]
fn jobs_insert(m: &mut DashMap<u128, JobEntry>, k: u128, v: JobEntry)
    ensures
        job_contents(*final(m)) == job_contents(*old(m)).insert(k, v),
{
    m.insert(k, v);
}

/// `DashMap::get`, the entry cloned out (a derived `Clone`, equal to the
/// entry).
#[verifier::external_body]
fn jobs_get(m: &DashMap<u128, JobEntry>, k: u128) -> (r: Option<JobEntry>)
    ensures
        r == entry_at(job_contents(*m), k),
{
    m.get(&k).map(|e| e.value().clone())
}

/// `DashMap::iter`, each entry cloned out with its key: every entry once,
/// in an order the map does not promise.
#[verifier::external_body]
fn jobs_snapshot(m: &DashMap<u128, JobEntry>) -> (r: Vec<(u128, JobEntry)>)
    ensures
        snapshot_of(job_contents(*m), r@),
{
    m.iter().map(|e| (*e.key(), e.value().clone())).collect()
}

/// `DashMap::retain` with the cleanup's rule: the entries that cleanup
/// keeps stay, the others leave.
#[verifier::external_body]
fn jobs_retain(m: &mut DashMap<u128, JobEntry>, cutoff: i64)
    ensures
        job_contents(*final(m)) == cleaned_map(job_contents(*old(m)), cutoff as int),
{
    m.retain(|_, e| keeps(e, cutoff));
}

/// A finished job: completed, failed or cancelled.
pub open spec fn is_terminal(st: JobStatus) -> bool {
    st == JobStatus::Completed || st == JobStatus::Failed || st == JobStatus::Cancelled
}

/// Whether cleanup keeps an entry: every unfinished job, and every
/// finished one that finished after the cutoff or has no finish time.
pub open spec fn kept_by_cleanup(e: JobEntry, cutoff: int) -> bool {
    !is_terminal(e.status) || match e.finished_at {
        Some(t) => t > cutoff,
        None => true,
    }
}

/// Whether cleanup keeps an entry (exec).
fn keeps(e: &JobEntry, cutoff: i64) -> (b: bool)
    ensures
        b == kept_by_cleanup(*e, cutoff as int),
{
    match e.status {
        JobStatus::Completed | JobStatus::Failed | JobStatus::Cancelled => match e.finished_at {
            Some(t) => t > cutoff,
            None => true,
        },
        _ => true,
    }
}

/// The registry `c` after cleanup with the given cutoff.
pub open spec fn cleaned_map(c: Map<u128, JobEntry>, cutoff: int) -> Map<u128, JobEntry> {
    Map::new(|k: u128| c.contains_key(k) && kept_by_cleanup(c[k], cutoff), |k: u128| c[k])
}

/// The entry as it is after a processing pass starts it.
pub open spec fn started(e: JobEntry, at: i64) -> JobEntry {
    JobEntry {
        status: JobStatus::Running,
        started_at: Some(at),
        attempts: (e.attempts + 1) as u32,
        ..e
    }
}

/// `after` is `before` with every queued entry started at `at`.
pub open spec fn started_queued(before: Map<u128, JobEntry>, after: Map<u128, JobEntry>, at: i64) -> bool {
    &&& after.dom() == before.dom()
    &&& forall|k: u128|
        before.contains_key(k) ==> #[trigger] after[k] == if before[k].status == JobStatus::Queued {
            started(before[k], at)
        } else {
            before[k]
        }
}

/// The cutoff that `cleanup_old_jobs` uses at `now`: `max_age_ms` earlier,
/// no age when it exceeds what an `i64` holds, the least instant where the
/// subtraction would leave the range.
pub open spec fn age_cutoff(now: i64, max_age_ms: u64) -> int {
    let age: int = if max_age_ms > i64::MAX {
        0
    } else {
        max_age_ms as int
    };
    if now < i64::MIN + age {
        i64::MIN as int
    } else {
        now - age
    }
}

/// The job registry the scheduler keeps, keyed by job ID.
pub struct Scheduler {
    config: SchedulerConfig,
    jobs: DashMap<u128, JobEntry>,
}

impl Scheduler {
    /// The entries by ID.
    pub closed spec fn entries(&self) -> Map<u128, JobEntry> {
        job_contents(self.jobs)
    }

    pub closed spec fn config(&self) -> SchedulerConfig {
        self.config
    }

    /// The registry's invariant: each entry is held under its own ID.
    pub open spec fn wf(&self) -> bool {
        forall|k: u128| #[trigger] self.entries().contains_key(k) ==> self.entries()[k].id == k
    }

    /// A scheduler with no jobs.
    pub fn new(config: SchedulerConfig) -> (r: Self)
        ensures
            r.wf(),
            r.entries().dom() == Set::<u128>::empty(),
            r.config() == config,
    {
        Scheduler { config, jobs: jobs_new() }
    }

    /// Adds an entry under its ID, in place of any entry with that ID;
    /// returns the ID.
    pub fn insert(&mut self, entry: JobEntry) -> (id: u128)
        requires
            old(self).wf(),
        ensures
            final(self).wf(),
            id == entry.id,
            final(self).config() == old(self).config(),
            final(self).entries() == old(self).entries().insert(entry.id, entry),
    {
        let id = entry.id;
        jobs_insert(&mut self.jobs, id, entry);
        id
    }

    /// Queue a deployment job
    pub fn queue_deployment(&mut self, payload: serde_json::Value) -> (id: u128)
        requires
            old(self).wf(),
        ensures
            final(self).wf(),
            final(self).entries() == old(self).entries().insert(id, final(self).entries()[id]),
            final(self).entries()[id].job_type@ == "deployment"@,
            final(self).entries()[id].status == JobStatus::Queued,
            final(self).entries()[id].attempts == 0,
    {
        let entry = JobEntry::new("deployment", payload);
        self.insert(entry)
    }

    /// Queue a server check job
    pub fn queue_server_check(&mut self, payload: serde_json::Value) -> (id: u128)
        requires
            old(self).wf(),
        ensures
            final(self).wf(),
            final(self).entries() == old(self).entries().insert(id, final(self).entries()[id]),
            final(self).entries()[id].job_type@ == "server_check"@,
            final(self).entries()[id].status == JobStatus::Queued,
            final(self).entries()[id].attempts == 0,
    {
        let entry = JobEntry::new("server_check", payload);
        self.insert(entry)
    }

    /// Get job status
    pub fn get_job(&self, id: u128) -> (r: Option<JobEntry>)
        ensures
            r == entry_at(self.entries(), id),
    {
        jobs_get(&self.jobs, id)
    }

    /// Cancels a job: only a queued job can be cancelled; it becomes
    /// cancelled, finished now. Every other entry stays as it was.
    pub fn cancel_job(&mut self, id: u128) -> (cancelled: bool)
        requires
            old(self).wf(),
        ensures
            final(self).wf(),
            final(self).config() == old(self).config(),
            match entry_at(old(self).entries(), id) {
                Some(e) => if e.status == JobStatus::Queued {
                    cancelled && final(self).entries() == old(self).entries().insert(
                        id,
                        final(self).entries()[id],
                    ) && final(self).entries()[id] == (JobEntry {
                        status: JobStatus::Cancelled,
                        finished_at: final(self).entries()[id].finished_at,
                        ..e
                    }) && final(self).entries()[id].finished_at is Some
                } else {
                    !cancelled && final(self).entries() == old(self).entries()
                },
                None => !cancelled && final(self).entries() == old(self).entries(),
            },
    {
        match jobs_get(&self.jobs, id) {
            Some(mut e) => {
                if e.status == JobStatus::Queued {
                    e.status = JobStatus::Cancelled;
                    e.finished_at = Some(now_millis());
                    jobs_insert(&mut self.jobs, id, e);
                    true
                } else {
                    false
                }
            },
            None => false,
        }
    }

    fn entries_where(&self, status: Option<JobStatus>) -> (r: Vec<JobEntry>)
        requires
            self.wf(),
        ensures
            lists(self.entries(), r@, status),
    {
        let mut snap = jobs_snapshot(&self.jobs);
        let ghost s0 = snap@;
        let ghost c = self.entries();
        let mut r: Vec<JobEntry> = Vec::new();
        let mut i: usize = 0;
        let n = snap.len();
        while snap.len() > 0
            invariant
                snapshot_of(c, s0),
                c == self.entries(),
                self.wf(),
                n == s0.len(),
                i + snap@.len() == n,
                snap@ == s0.skip(i as int),
                forall|t: int| 0 <= t < r@.len() ==> c.contains_key((#[trigger] r@[t]).id)
                    && c[r@[t].id] == r@[t] && status_fits(r@[t], status)
                    && exists|j: int| 0 <= j < i && s0[j].0 == r@[t].id,
                forall|t: int, u: int| 0 <= t < u < r@.len() ==> #[trigger] r@[t].id != #[trigger] r@[u].id,
                forall|j: int| 0 <= j < i && status_fits(#[trigger] s0[j].1, status) ==> exists|t: int|
                    0 <= t < r@.len() && r@[t].id == s0[j].0,
            decreases snap@.len(),
        {
            let (k, e) = snap.remove(0);
            assert(s0[i as int] == (k, e));
            assert(snap@ =~= s0.skip(i + 1));
            assert(c.contains_key(k) && c[k] == e);
            let ghost old_r = r@;
            if Self::fits(&e, status) {
                proof {
                    assert forall|t: int| 0 <= t < old_r.len() implies old_r[t].id != k by {
                        let j = choose|j: int| 0 <= j < i && s0[j].0 == old_r[t].id;
                        assert(s0[j].0 != s0[i as int].0);
                    }
                }
                r.push(e);
                proof {
                    assert(r@[old_r.len() as int] == e);
                    assert forall|j: int| 0 <= j < i + 1 && status_fits(#[trigger] s0[j].1, status) implies exists|t: int|
                        0 <= t < r@.len() && r@[t].id == s0[j].0 by {
                        if j == i as int {
                            assert(r@[old_r.len() as int].id == s0[j].0);
                        } else {
                            let t = choose|t: int| 0 <= t < old_r.len() && old_r[t].id == s0[j].0;
                            assert(r@[t] == old_r[t]);
                        }
                    }
                }
            }
            i = i + 1;
        }
        proof {
            assert forall|k: u128| c.contains_key(k) && status_fits(c[k], status) implies exists|t: int|
                0 <= t < r@.len() && #[trigger] r@[t].id == k by {
                let j = choose|j: int| 0 <= j < s0.len() && #[trigger] s0[j].0 == k;
                assert(status_fits(s0[j].1, status));
            }
        }
        r
    }

    fn fits(e: &JobEntry, status: Option<JobStatus>) -> (b: bool)
        ensures
            b == status_fits(*e, status),
    {
        match status {
            Some(st) => e.status == st,
            None => true,
        }
    }

    /// List all jobs, each once, in an order the registry does not promise.
    pub fn list_jobs(&self) -> (r: Vec<JobEntry>)
        requires
            self.wf(),
        ensures
            lists(self.entries(), r@, None),
    {
        self.entries_where(None)
    }

    /// List the jobs with a status, each once, in an order the registry
    /// does not promise.
    pub fn list_jobs_by_status(&self, status: JobStatus) -> (r: Vec<JobEntry>)
        requires
            self.wf(),
        ensures
            lists(self.entries(), r@, Some(status)),
    {
        self.entries_where(Some(status))
    }

    /// One processing pass: every queued job is started (running, started
    /// now, one more attempt), every other entry stays as it was; returns
    /// the IDs of the started jobs, each once.
    pub fn start_queued_jobs(&mut self) -> (ids: Vec<u128>)
        requires
            old(self).wf(),
            forall|k: u128|
                #[trigger] old(self).entries().contains_key(k) && old(self).entries()[k].status
                    == JobStatus::Queued ==> old(self).entries()[k].attempts < u32::MAX,
        ensures
            final(self).wf(),
            final(self).config() == old(self).config(),
            exists|at: i64|
                0 <= at <= MAX_UTC_MS && #[trigger] started_queued(
                    old(self).entries(),
                    final(self).entries(),
                    at,
                ),
            ids@.no_duplicates(),
            forall|t: int| 0 <= t < ids@.len() ==> old(self).entries().contains_key(#[trigger] ids@[t])
                && old(self).entries()[ids@[t]].status == JobStatus::Queued,
            forall|k: u128|
                #[trigger] old(self).entries().contains_key(k) && old(self).entries()[k].status
                    == JobStatus::Queued ==> ids@.contains(k),
    {
        let now = now_millis();
        let mut snap = jobs_snapshot(&self.jobs);
        let ghost s0 = snap@;
        let ghost orig = self.entries();
        let ghost cfg = self.config;
        let mut ids: Vec<u128> = Vec::new();
        let mut i: usize = 0;
        let n = snap.len();
        while snap.len() > 0
            invariant
                snapshot_of(orig, s0),
                forall|k: u128| #[trigger] orig.contains_key(k) ==> orig[k].id == k,
                forall|k: u128|
                    #[trigger] orig.contains_key(k) && orig[k].status == JobStatus::Queued
                        ==> orig[k].attempts < u32::MAX,
                self.config == cfg,
                n == s0.len(),
                i + snap@.len() == n,
                snap@ == s0.skip(i as int),
                self.entries().dom() == orig.dom(),
                forall|k: u128|
                    #[trigger] orig.contains_key(k) ==> self.entries()[k] == if (exists|j: int|
                        0 <= j < i && s0[j].0 == k) && orig[k].status == JobStatus::Queued {
                        started(orig[k], now)
                    } else {
                        orig[k]
                    },
                ids@.no_duplicates(),
                forall|t: int| 0 <= t < ids@.len() ==> orig.contains_key(#[trigger] ids@[t])
                    && orig[ids@[t]].status == JobStatus::Queued && exists|j: int|
                    0 <= j < i && s0[j].0 == ids@[t],
                forall|j: int| 0 <= j < i && (#[trigger] s0[j]).1.status == JobStatus::Queued
                    ==> ids@.contains(s0[j].0),
            decreases snap@.len(),
        {
            let (k, mut e) = snap.remove(0);
            assert(s0[i as int] == (k, e));
            assert(snap@ =~= s0.skip(i + 1));
            assert(orig.contains_key(k) && orig[k] == e);
            let ghost before = self.entries();
            let ghost old_ids = ids@;
            proof {
                assert(!(exists|j: int| 0 <= j < i && s0[j].0 == k)) by {
                    if exists|j: int| 0 <= j < i && s0[j].0 == k {
                        let j = choose|j: int| 0 <= j < i && s0[j].0 == k;
                        assert(s0[j].0 != s0[i as int].0);
                    }
                }
            }
            if e.status == JobStatus::Queued {
                e.status = JobStatus::Running;
                e.started_at = Some(now);
                e.attempts = e.attempts + 1;
                assert(e == started(orig[k], now));
                jobs_insert(&mut self.jobs, k, e);
                proof {
                    assert(!old_ids.contains(k)) by {
                        if old_ids.contains(k) {
                            let t = choose|t: int| 0 <= t < old_ids.len() && old_ids[t] == k;
                            assert(orig.contains_key(old_ids[t]));
                        }
                    }
                }
                ids.push(k);
                proof {
                    assert(ids@ == old_ids.push(k));
                    assert(ids@.no_duplicates()) by {
                        assert forall|a: int, b: int| 0 <= a < b < ids@.len() implies ids@[a] != ids@[b] by {
                            if b == old_ids.len() {
                                assert(old_ids.contains(old_ids[a]));
                            } else {
                                assert(old_ids.no_duplicates());
                            }
                        }
                    }
                    assert forall|t: int| 0 <= t < ids@.len() implies orig.contains_key(#[trigger] ids@[t])
                        && orig[ids@[t]].status == JobStatus::Queued && exists|j: int|
                        0 <= j < i + 1 && s0[j].0 == ids@[t] by {
                        if t == old_ids.len() {
                            assert(s0[i as int].0 == ids@[t]);
                        } else {
                            assert(ids@[t] == old_ids[t]);
                            let j = choose|j: int| 0 <= j < i && s0[j].0 == old_ids[t];
                            assert(s0[j].0 == ids@[t]);
                        }
                    }
                    assert forall|j: int| 0 <= j < i + 1 && (#[trigger] s0[j]).1.status == JobStatus::Queued
                        implies ids@.contains(s0[j].0) by {
                        if j == i as int {
                            assert(ids@[old_ids.len() as int] == k);
                        } else {
                            assert(old_ids.contains(s0[j].0));
                            let t = choose|t: int| 0 <= t < old_ids.len() && old_ids[t] == s0[j].0;
                            assert(ids@[t] == old_ids[t]);
                        }
                    }
                }
            } else {
                proof {
                    assert forall|t: int| 0 <= t < ids@.len() implies orig.contains_key(#[trigger] ids@[t])
                        && orig[ids@[t]].status == JobStatus::Queued && exists|j: int|
                        0 <= j < i + 1 && s0[j].0 == ids@[t] by {
                        let j = choose|j: int| 0 <= j < i && s0[j].0 == ids@[t];
                        assert(s0[j].0 == ids@[t]);
                    }
                }
            }
            proof {
                assert forall|q: u128| #[trigger] orig.contains_key(q) implies self.entries()[q] == if (exists|j: int|
                    0 <= j < i + 1 && s0[j].0 == q) && orig[q].status == JobStatus::Queued {
                    started(orig[q], now)
                } else {
                    orig[q]
                } by {
                    if q == k {
                        assert(s0[i as int].0 == q);
                    } else {
                        if exists|j: int| 0 <= j < i + 1 && s0[j].0 == q {
                            let j = choose|j: int| 0 <= j < i + 1 && s0[j].0 == q;
                            assert(j < i);
                        }
                        if exists|j: int| 0 <= j < i && s0[j].0 == q {
                            let j = choose|j: int| 0 <= j < i && s0[j].0 == q;
                            assert(0 <= j < i + 1 && s0[j].0 == q);
                        }
                    }
                }
            }
            i = i + 1;
        }
        proof {
            assert forall|q: u128| #[trigger] orig.contains_key(q) implies (exists|j: int|
                0 <= j < i && s0[j].0 == q) by {
                let j = choose|j: int| 0 <= j < s0.len() && #[trigger] s0[j].0 == q;
                assert(0 <= j < i && s0[j].0 == q);
            }
            assert(started_queued(orig, self.entries(), now));
            assert forall|q: u128|
                #[trigger] orig.contains_key(q) && orig[q].status == JobStatus::Queued implies ids@.contains(q) by {
                let j = choose|j: int| 0 <= j < s0.len() && #[trigger] s0[j].0 == q;
                assert(s0[j].1.status == JobStatus::Queued);
            }
        }
        ids
    }

    /// Marks a job completed, finished now.
    pub fn complete_job(&mut self, id: u128)
        requires
            old(self).wf(),
        ensures
            final(self).wf(),
            final(self).config() == old(self).config(),
            match entry_at(old(self).entries(), id) {
                Some(e) => final(self).entries() == old(self).entries().insert(
                    id,
                    final(self).entries()[id],
                ) && final(self).entries()[id] == (JobEntry {
                    status: JobStatus::Completed,
                    finished_at: final(self).entries()[id].finished_at,
                    ..e
                }) && final(self).entries()[id].finished_at is Some,
                None => final(self).entries() == old(self).entries(),
            },
    {
        match jobs_get(&self.jobs, id) {
            Some(mut e) => {
                e.status = JobStatus::Completed;
                e.finished_at = Some(now_millis());
                jobs_insert(&mut self.jobs, id, e);
            },
            None => {},
        }
    }

    /// Removes finished jobs that finished at or before `cutoff`
    /// (milliseconds since the epoch); keeps the others.
    pub fn cleanup_finished_before(&mut self, cutoff: i64)
        requires
            old(self).wf(),
        ensures
            final(self).wf(),
            final(self).config() == old(self).config(),
            final(self).entries() == cleaned_map(old(self).entries(), cutoff as int),
    {
        jobs_retain(&mut self.jobs, cutoff);
    }

    /// Clean up old completed jobs: those finished more than `max_age_ms`
    /// before the clock's reading.
    pub fn cleanup_old_jobs(&mut self, max_age_ms: u64)
        requires
            old(self).wf(),
        ensures
            final(self).wf(),
            exists|now: i64|
                0 <= now <= MAX_UTC_MS && final(self).entries() == cleaned_map(
                    old(self).entries(),
                    #[trigger] age_cutoff(now, max_age_ms),
                ),
    {
        let now = now_millis();
        let age: i64 = if max_age_ms > i64::MAX as u64 {
            0
        } else {
            max_age_ms as i64
        };
        let cutoff: i64 = if now < i64::MIN + age {
            i64::MIN
        } else {
            now - age
        };
        assert(cutoff == age_cutoff(now, max_age_ms));
        self.cleanup_finished_before(cutoff);
    }
}

/// Whether an entry has the status asked for (any, for `None`).
pub open spec fn status_fits(e: JobEntry, status: Option<JobStatus>) -> bool {
    match status {
        Some(st) => e.status == st,
        None => true,
    }
}

/// `s` lists every entry of `c` with the status asked for, each once, as
/// held.
pub open spec fn lists(c: Map<u128, JobEntry>, s: Seq<JobEntry>, status: Option<JobStatus>) -> bool {
    &&& forall|t: int| 0 <= t < s.len() ==> c.contains_key((#[trigger] s[t]).id) && c[s[t].id] == s[t]
        && status_fits(s[t], status)
    &&& forall|t: int, u: int| 0 <= t < u < s.len() ==> #[trigger] s[t].id != #[trigger] s[u].id
    &&& forall|k: u128| c.contains_key(k) && status_fits(c[k], status) ==> exists|t: int|
        0 <= t < s.len() && #[trigger] s[t].id == k
}

/// Cleanup never removes an unfinished job, nor a finished one that
/// finished after the cutoff, and changes none it keeps.
pub proof fn law_cleanup_keeps_unfinished(before: Map<u128, JobEntry>, cutoff: int, k: u128)
    requires
        before.contains_key(k),
        kept_by_cleanup(before[k], cutoff),
    ensures
        cleaned_map(before, cutoff).contains_key(k),
        cleaned_map(before, cutoff)[k] == before[k],
{
}

/// Cleanup removes every finished job that finished at or before the
/// cutoff.
pub proof fn law_cleanup_drops_old(before: Map<u128, JobEntry>, cutoff: int, k: u128)
    requires
        before.contains_key(k),
        !kept_by_cleanup(before[k], cutoff),
    ensures
        !cleaned_map(before, cutoff).contains_key(k),
{
}

} // verus!
