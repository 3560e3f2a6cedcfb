//! Recurring jobs: each runs again once its interval has passed since its
//! last run.

use vstd::prelude::*;
use crate::scheduler::job::JobType;
use crate::text::owned;

verus! {

/// A fresh empty JSON object (`serde_json::json!({})`).
#[verifier::external_body]
pub(crate) fn empty_json_object() -> (v: serde_json::Value) {
    serde_json::Value::Object(serde_json::Map::new())
}

/// A recurring job. Times are in milliseconds.
#[derive(Debug)]
pub struct ScheduledJob {
    pub name: String,
    pub job_type: JobType,
    pub payload: serde_json::Value,
    pub interval_ms: i64,
    pub last_run: Option<i64>,
}

/// A job is due when it never ran or its interval has passed since.
pub open spec fn is_due(last_run: Option<i64>, interval_ms: i64, now: i64) -> bool {
    match last_run {
        None => true,
        Some(last) => now - last >= interval_ms,
    }
}

/// The recurring jobs.
pub struct Scheduler {
    schedules: Vec<ScheduledJob>,
}

impl Scheduler {
    pub closed spec fn jobs(&self) -> Seq<ScheduledJob> {
        self.schedules@
    }

    /// A scheduler without recurring jobs.
    pub fn new() -> (r: Self)
        ensures
            r.jobs().len() == 0,
    {
        Scheduler { schedules: Vec::new() }
    }

    /// Adds a recurring job that has not run yet.
    pub fn schedule(&mut self, name: &str, job_type: JobType, payload: serde_json::Value, interval_ms: i64)
        ensures
            final(self).jobs().len() == old(self).jobs().len() + 1,
            final(self).jobs().take(old(self).jobs().len() as int) == old(self).jobs(),
            final(self).jobs().last().name@ == name@,
            final(self).jobs().last().job_type == job_type,
            final(self).jobs().last().payload == payload,
            final(self).jobs().last().interval_ms == interval_ms,
            final(self).jobs().last().last_run is None,
    {
        self.schedules.push(
            ScheduledJob { name: owned(name), job_type, payload, interval_ms, last_run: None },
        );
        assert(self.schedules@.take(old(self).jobs().len() as int) =~= old(self).jobs());
    }

    /// Server checks every minute.
    pub fn schedule_server_checks(&mut self)
        ensures
            final(self).jobs().len() == old(self).jobs().len() + 1,
            final(self).jobs().last().name@ == "server_checks"@,
            final(self).jobs().last().job_type == JobType::ServerCheck,
            final(self).jobs().last().interval_ms == 60_000,
    {
        self.schedule("server_checks", JobType::ServerCheck, empty_json_object(), 60_000);
    }

    /// Docker cleanup every hour.
    pub fn schedule_docker_cleanup(&mut self)
        ensures
            final(self).jobs().len() == old(self).jobs().len() + 1,
            final(self).jobs().last().name@ == "docker_cleanup"@,
            final(self).jobs().last().job_type == JobType::DockerCleanup,
            final(self).jobs().last().interval_ms == 3_600_000,
    {
        self.schedule("docker_cleanup", JobType::DockerCleanup, empty_json_object(), 3_600_000);
    }

    /// SSL renewal every day.
    pub fn schedule_ssl_renewal(&mut self)
        ensures
            final(self).jobs().len() == old(self).jobs().len() + 1,
            final(self).jobs().last().name@ == "ssl_renewal"@,
            final(self).jobs().last().job_type == JobType::SslRenewal,
            final(self).jobs().last().interval_ms == 86_400_000,
    {
        self.schedule("ssl_renewal", JobType::SslRenewal, empty_json_object(), 86_400_000);
    }

    /// One tick at `now`: the positions of the due jobs, in order; each of
    /// them is recorded as run at `now`, the others are unchanged.
    pub fn take_due(&mut self, now: i64) -> (due: Vec<usize>)
        ensures
            final(self).jobs().len() == old(self).jobs().len(),
            forall|i: int|
                0 <= i < old(self).jobs().len() ==> {
                    let j = #[trigger] old(self).jobs()[i];
                    let k = final(self).jobs()[i];
                    k.name == j.name && k.job_type == j.job_type && k.payload == j.payload
                        && k.interval_ms == j.interval_ms && k.last_run == if is_due(
                        j.last_run,
                        j.interval_ms,
                        now,
                    ) {
                        Some(now)
                    } else {
                        j.last_run
                    }
                },
            forall|k: int|
                0 <= k < due@.len() ==> (#[trigger] due@[k] as int) < old(self).jobs().len()
                    && is_due(
                    old(self).jobs()[due@[k] as int].last_run,
                    old(self).jobs()[due@[k] as int].interval_ms,
                    now,
                ),
            forall|i: int|
                0 <= i < old(self).jobs().len() && is_due(
                    old(self).jobs()[i].last_run,
                    old(self).jobs()[i].interval_ms,
                    now,
                ) ==> due@.contains(i as usize),
            forall|a: int, b: int| 0 <= a < b < due@.len() ==> due@[a] < due@[b],
    {
        let ghost orig = self.schedules@;
        let mut due: Vec<usize> = Vec::new();
        let mut i: usize = 0;
        while i < self.schedules.len()
            invariant
                self.schedules@.len() == orig.len(),
                i <= orig.len(),
                forall|k: int|
                    0 <= k < orig.len() ==> {
                        let j = #[trigger] orig[k];
                        let x = self.schedules@[k];
                        x.name == j.name && x.job_type == j.job_type && x.payload == j.payload
                            && x.interval_ms == j.interval_ms && x.last_run == if k < i && is_due(
                            j.last_run,
                            j.interval_ms,
                            now,
                        ) {
                            Some(now)
                        } else {
                            j.last_run
                        }
                    },
                forall|k: int|
                    0 <= k < due@.len() ==> (#[trigger] due@[k] as int) < i && is_due(
                        orig[due@[k] as int].last_run,
                        orig[due@[k] as int].interval_ms,
                        now,
                    ),
                forall|k: int|
                    0 <= k < i && is_due(orig[k].last_run, orig[k].interval_ms, now)
                        ==> due@.contains(k as usize),
                forall|a: int, b: int| 0 <= a < b < due@.len() ==> due@[a] < due@[b],
            decreases orig.len() - i,
        {
            let should_run = match self.schedules[i].last_run {
                None => true,
                Some(last) => (now as i128) - (last as i128) >= self.schedules[i].interval_ms as i128,
            };
            if should_run {
                let mut s = self.schedules.remove(i);
                s.last_run = Some(now);
                self.schedules.insert(i, s);
                let ghost before = due@;
                due.push(i);
                assert forall|k: int|
                    0 <= k < i + 1 && is_due(orig[k].last_run, orig[k].interval_ms, now)
                        implies due@.contains(k as usize) by {
                    if k < i {
                        assert(before.contains(k as usize));
                        let w = choose|w: int| 0 <= w < before.len() && before[w] == k as usize;
                        assert(due@[w] == k as usize);
                    } else {
                        assert(due@[due@.len() - 1] == i);
                    }
                }
            }
            i = i + 1;
        }
        due
    }
}

/// After a tick, no job is due again at the same instant unless its
/// interval is not positive: a recurring job runs at most once per interval.
pub proof fn law_not_due_twice(last_run: Option<i64>, interval_ms: i64, now: i64)
    requires
        is_due(last_run, interval_ms, now),
        interval_ms > 0,
    ensures
        !is_due(Some(now), interval_ms, now),
{
}

} // verus!
