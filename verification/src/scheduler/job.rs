//! Job definitions: a job's kind, status and attempts, and how they change
//! as it is started, completed or failed.

use vstd::prelude::*;
use crate::ids::{new_id, now_millis};

verus! {

#[derive(Debug, Clone, Copy, PartialEq, Eq, Structural)]
pub enum JobType {
    ApplicationDeployment,
    DatabaseBackup,
    ServerCheck,
    DockerCleanup,
    SslRenewal,
    ScheduledTask,
    Notification,
}

#[derive(Debug, Clone, Copy, PartialEq, Eq, Structural)]
pub enum JobStatus {
    Pending,
    Scheduled,
    Running,
    Completed,
    Failed,
    Cancelled,
}

/// A job to be executed. Times are milliseconds since the epoch.
#[derive(Debug)]
pub struct Job {
    pub id: u128,
    pub job_type: JobType,
    pub payload: serde_json::Value,
    pub status: JobStatus,
    pub attempts: u32,
    pub max_attempts: u32,
    pub scheduled_at: i64,
    pub started_at: Option<i64>,
    pub completed_at: Option<i64>,
    pub error: Option<String>,
    pub created_at: i64,
}

/// A job is ready when it waits to run and its time has come.
pub open spec fn ready_at(j: Job, now: i64) -> bool {
    (j.status == JobStatus::Pending || j.status == JobStatus::Scheduled) && j.scheduled_at <= now
}

impl Job {
    /// A pending job, due now, with three attempts.
    pub fn new(job_type: JobType, payload: serde_json::Value) -> (r: Self)
        ensures
            r.job_type == job_type && r.payload == payload && r.status == JobStatus::Pending
                && r.attempts == 0 && r.max_attempts == 3 && r.scheduled_at == r.created_at
                && r.started_at is None && r.completed_at is None && r.error is None,
    {
        let now = now_millis();
        Job {
            id: new_id(),
            job_type,
            payload,
            status: JobStatus::Pending,
            attempts: 0,
            max_attempts: 3,
            scheduled_at: now,
            started_at: None,
            completed_at: None,
            error: None,
            created_at: now,
        }
    }

    /// A job scheduled for a later time, with three attempts.
    pub fn scheduled(job_type: JobType, payload: serde_json::Value, scheduled_at: i64) -> (r: Self)
        ensures
            r.job_type == job_type && r.payload == payload && r.status == JobStatus::Scheduled
                && r.attempts == 0 && r.max_attempts == 3 && r.scheduled_at == scheduled_at
                && r.started_at is None && r.completed_at is None && r.error is None,
    {
        Job {
            id: new_id(),
            job_type,
            payload,
            status: JobStatus::Scheduled,
            attempts: 0,
            max_attempts: 3,
            scheduled_at,
            started_at: None,
            completed_at: None,
            error: None,
            created_at: now_millis(),
        }
    }

    /// Whether the job is ready at `now`.
    pub fn is_ready_at(&self, now: i64) -> (b: bool)
        ensures
            b == ready_at(*self, now),
    {
        (self.status == JobStatus::Pending || self.status == JobStatus::Scheduled)
            && self.scheduled_at <= now
    }

    /// Whether the job is ready now: never when it is not waiting.
    pub fn is_ready(&self) -> (b: bool)
        ensures
            b ==> self.status == JobStatus::Pending || self.status == JobStatus::Scheduled,
            exists|now: i64| b == ready_at(*self, now),
    {
        self.is_ready_at(now_millis())
    }

    /// A job may be tried again while it has attempts left.
    pub fn can_retry(&self) -> (b: bool)
        ensures
            b == (self.attempts < self.max_attempts),
    {
        self.attempts < self.max_attempts
    }

    /// Starts an attempt: the job runs, from now, with one more attempt counted.
    pub fn mark_started(&mut self)
        requires
            old(self).attempts < u32::MAX,
        ensures
            final(self).status == JobStatus::Running,
            final(self).started_at is Some,
            final(self).attempts == old(self).attempts + 1,
            final(self).id == old(self).id && final(self).max_attempts == old(self).max_attempts
                && final(self).completed_at == old(self).completed_at && final(self).error == old(
                self,
            ).error,
    {
        self.status = JobStatus::Running;
        self.started_at = Some(now_millis());
        self.attempts = self.attempts + 1;
    }

    /// The job completed now.
    pub fn mark_completed(&mut self)
        ensures
            final(self).status == JobStatus::Completed,
            final(self).completed_at is Some,
            final(self).attempts == old(self).attempts && final(self).id == old(self).id
                && final(self).error == old(self).error,
    {
        self.status = JobStatus::Completed;
        self.completed_at = Some(now_millis());
    }

    /// The job failed now with an error.
    pub fn mark_failed(&mut self, error: String)
        ensures
            final(self).status == JobStatus::Failed,
            final(self).completed_at is Some,
            final(self).error == Some(error),
            final(self).attempts == old(self).attempts && final(self).id == old(self).id,
    {
        self.status = JobStatus::Failed;
        self.completed_at = Some(now_millis());
        self.error = Some(error);
    }
}

/// A job started only while it may be retried never exceeds its attempts:
/// if it could be retried before starting, its attempts after starting are
/// at most its maximum.
pub proof fn law_attempts_bounded(attempts: u32, max_attempts: u32)
    requires
        attempts < max_attempts,
    ensures
        attempts + 1 <= max_attempts,
{
}

} // verus!
