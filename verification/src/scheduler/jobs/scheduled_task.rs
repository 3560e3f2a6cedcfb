//! Scheduled Task Job
//!
//! Executes user-defined scheduled tasks (cron jobs).

use vstd::prelude::*;
use crate::ids::{new_id, now_millis, MAX_UTC_MS};
use crate::scheduler::jobs::{Job, JobContext, JobResult};
use crate::text::owned;
use crate::scheduler::cron::{
    cron_due, cron_due_exec, cron_matches, cron_matches_exec, parse_cron, CronTime,
};

verus! {

/// Type of resource the scheduled task belongs to
#[derive(Debug, Clone, Copy, PartialEq, Eq, Structural)]
pub enum ScheduledTaskResourceType {
    Application,
    Service,
}

/// Context for scheduled task execution
#[derive(Debug, Clone)]
pub struct ScheduledTaskContext {
    /// Unique identifier for the scheduled task
    pub task_id: u128,
    /// Name of the task
    pub task_name: String,
    /// Resource type (application or service)
    pub resource_type: ScheduledTaskResourceType,
    /// Resource ID
    pub resource_id: u128,
    /// Resource name
    pub resource_name: String,
    /// Server to execute on
    pub server_id: u128,
    pub server_ip: String,
    /// Container to execute in
    pub container_name: String,
    /// Command to execute
    pub command: String,
    /// Cron expression for scheduling
    pub cron_expression: String,
    /// Timezone for cron evaluation
    pub timezone: String,
    /// Whether the task is enabled
    pub enabled: bool,
    /// Team ID for notification context
    pub team_id: u128,
}

/// Result of scheduled task execution. Times are milliseconds since the epoch.
#[derive(Debug, Clone)]
pub struct ScheduledTaskResult {
    /// Whether execution was successful
    pub success: bool,
    /// Exit code from command
    pub exit_code: Option<i32>,
    /// Standard output
    pub stdout: String,
    /// Standard error
    pub stderr: String,
    /// Execution duration in milliseconds
    pub duration_ms: u64,
    /// When execution started
    pub started_at: i64,
    /// When execution finished
    pub finished_at: i64,
}

/// Execution log entry for a scheduled task
#[derive(Debug, Clone)]
pub struct ScheduledTaskExecution {
    pub id: u128,
    pub scheduled_task_id: u128,
    pub status: ExecutionStatus,
    pub message: Option<String>,
    pub started_at: i64,
    pub finished_at: Option<i64>,
}

/// Status of task execution
#[derive(Debug, Clone, Copy, PartialEq, Eq, Structural)]
pub enum ExecutionStatus {
    Running,
    Success,
    Failed,
}

/// The milliseconds from `start` to `end`, as the clock's difference read
/// as an unsigned count.
pub open spec fn elapsed_ms(start: i64, end: i64) -> u64 {
    (end as int - start as int) as u64
}

fn elapsed_exec(start: i64, end: i64) -> (r: u64)
    ensures
        r == elapsed_ms(start, end),
{
    let d: i128 = end as i128 - start as i128;
    d as u64
}

/// Job to execute scheduled tasks
pub struct ScheduledTaskJob {
    timeout_seconds: u64,
}

impl ScheduledTaskJob {
    /// The job's timeout in seconds.
    pub closed spec fn timeout(&self) -> u64 {
        self.timeout_seconds
    }

    /// A job with a one-hour timeout.
    pub fn new() -> (r: Self)
        ensures
            r.timeout() == 3600,
    {
        ScheduledTaskJob { timeout_seconds: 3600 }
    }

    pub fn with_timeout(self, seconds: u64) -> (r: Self)
        ensures
            r.timeout() == seconds,
    {
        ScheduledTaskJob { timeout_seconds: seconds }
    }

    /// Create an execution log entry
    fn create_execution_log(&self, ctx: &JobContext<ScheduledTaskContext>) -> (r:
        ScheduledTaskExecution)
        ensures
            r.scheduled_task_id == ctx.payload.task_id,
            r.status == ExecutionStatus::Running,
            r.message is None,
            r.finished_at is None,
    {
        ScheduledTaskExecution {
            id: new_id(),
            scheduled_task_id: ctx.payload.task_id,
            status: ExecutionStatus::Running,
            message: None,
            started_at: now_millis(),
            finished_at: None,
        }
    }

    /// Records the result in the execution log: finished when the run
    /// finished, successful or failed with the standard error as message.
    pub fn update_execution_log(
        &self,
        execution: &mut ScheduledTaskExecution,
        result: &ScheduledTaskResult,
    )
        ensures
            final(execution).id == old(execution).id,
            final(execution).scheduled_task_id == old(execution).scheduled_task_id,
            final(execution).started_at == old(execution).started_at,
            final(execution).finished_at == Some(result.finished_at),
            final(execution).status == (if result.success {
                ExecutionStatus::Success
            } else {
                ExecutionStatus::Failed
            }),
            if result.success {
                final(execution).message is None
            } else {
                final(execution).message matches Some(m) && m@ == result.stderr@
            },
    {
        execution.finished_at = Some(result.finished_at);
        execution.status = if result.success {
            ExecutionStatus::Success
        } else {
            ExecutionStatus::Failed
        };
        execution.message = if result.success {
            None
        } else {
            Some(result.stderr.clone())
        };
    }

    /// Execute the command in the container
    fn execute_command(&self, ctx: &JobContext<ScheduledTaskContext>) -> (r: Result<
        ScheduledTaskResult,
        String,
    >)
        ensures
            r matches Ok(res) && res.success && res.exit_code == Some(0i32) && res.stdout@
                == "Task completed successfully"@ && res.stderr@.len() == 0 && res.duration_ms
                == elapsed_ms(res.started_at, res.finished_at),
    {
        let started_at = now_millis();
        let finished_at = now_millis();
        let duration_ms = elapsed_exec(started_at, finished_at);
        Ok(
            ScheduledTaskResult {
                success: true,
                exit_code: Some(0),
                stdout: owned("Task completed successfully"),
                stderr: String::new(),
                duration_ms,
                started_at,
                finished_at,
            },
        )
    }

    /// Whether a notification goes out about a run: only about a failed one.
    pub fn notifies(&self, result: &ScheduledTaskResult) -> (b: bool)
        ensures
            b == !result.success,
    {
        !result.success
    }

    /// Runs the task: a disabled task is skipped and reported as a success
    /// that did nothing; an enabled one runs and reports its output.
    pub fn handle(&self, ctx: JobContext<ScheduledTaskContext>) -> (r: JobResult<
        ScheduledTaskResult,
    >)
        ensures
            r matches Ok(res) && res.success && res.stderr@.len() == 0 && if ctx.payload.enabled {
                res.exit_code == Some(0i32) && res.stdout@ == "Task completed successfully"@
                    && res.duration_ms == elapsed_ms(res.started_at, res.finished_at)
            } else {
                res.exit_code is None && res.stdout@ == "Task is disabled"@ && res.duration_ms == 0
            },
    {
        if !ctx.payload.enabled {
            return Ok(
                ScheduledTaskResult {
                    success: true,
                    exit_code: None,
                    stdout: owned("Task is disabled"),
                    stderr: String::new(),
                    duration_ms: 0,
                    started_at: now_millis(),
                    finished_at: now_millis(),
                },
            );
        }
        let mut execution = self.create_execution_log(&ctx);
        let result = match self.execute_command(&ctx) {
            Ok(result) => result,
            Err(e) => ScheduledTaskResult {
                success: false,
                exit_code: Some(-1),
                stdout: String::new(),
                stderr: e,
                duration_ms: 0,
                started_at: now_millis(),
                finished_at: now_millis(),
            },
        };
        self.update_execution_log(&mut execution, &result);
        Ok(result)
    }
}

impl Job for ScheduledTaskJob {
    fn name(&self) -> (r: &'static str)
        ensures
            r@ == "scheduled_task"@,
    {
        "scheduled_task"
    }

    /// Scheduled tasks are not retried.
    fn max_tries(&self) -> (r: u32)
        ensures
            r == 1,
    {
        1
    }

    fn timeout_seconds(&self) -> (r: u64)
        ensures
            r == self.timeout(),
    {
        self.timeout_seconds
    }
}

/// Manager for scheduling and dispatching scheduled tasks
pub struct ScheduledTaskManager;

impl ScheduledTaskManager {
    /// Parses the cron expression and checks it against the current time
    /// in the time zone (`UTC`, `+HH:MM`, `-HH:MM` or an IANA name such as
    /// `Europe/Berlin`): false where the expression cannot be read or the
    /// zone is none that can be named; otherwise whether the current moment
    /// there matches every field. The current moment is the clock's reading,
    /// an instant from the Unix epoch to the end of chrono's range.
    pub fn should_run_now(cron_expression: &str, timezone: &str) -> (b: bool)
        ensures
            parse_cron(cron_expression@) is None ==> !b,
            exists|now_ms: i64|
                0 <= now_ms <= MAX_UTC_MS && b == cron_due(cron_expression@, timezone@, now_ms),
    {
        let now = now_millis();
        Self::should_run_at(cron_expression, timezone, now)
    }

    /// Whether a task with this cron expression and time zone is due at
    /// the instant `now_ms` (milliseconds since the Unix epoch).
    pub fn should_run_at(cron_expression: &str, timezone: &str, now_ms: i64) -> (b: bool)
        ensures
            b == cron_due(cron_expression@, timezone@, now_ms),
    {
        cron_due_exec(cron_expression, timezone, now_ms)
    }

    /// Whether the moment `time` matches the cron expression; false where
    /// the expression cannot be read.
    pub fn matches_time(cron_expression: &str, time: &CronTime) -> (b: bool)
        ensures
            b == cron_matches(cron_expression@, *time),
    {
        cron_matches_exec(cron_expression, time)
    }
}

} // verus!
