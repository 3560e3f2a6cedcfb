//! Log and data cleanup job
//!
//! Periodically cleans up old logs, metrics, and temporary data to prevent
//! disk space exhaustion.

use vstd::prelude::*;
use crate::ids::{now_millis, utc_display, utc_text, MAX_UTC_MS};
use crate::kv::push_word;
use crate::text::{owned, texts};

verus! {

/// Log cleanup configuration
#[derive(Debug, Clone)]
pub struct CleanupConfig {
    /// Days to retain deployment logs
    pub deployment_logs_retention_days: i64,
    /// Days to retain server metrics
    pub server_metrics_retention_days: i64,
    /// Days to retain activity logs
    pub activity_logs_retention_days: i64,
    /// Days to retain scheduled task executions
    pub task_executions_retention_days: i64,
    /// Days to retain failed jobs
    pub failed_jobs_retention_days: i64,
    /// Whether to vacuum database after cleanup
    pub vacuum_after_cleanup: bool,
}

impl Default for CleanupConfig {
    fn default() -> (r: Self)
        ensures
            r.deployment_logs_retention_days == 30,
            r.server_metrics_retention_days == 7,
            r.activity_logs_retention_days == 90,
            r.task_executions_retention_days == 14,
            r.failed_jobs_retention_days == 30,
            !r.vacuum_after_cleanup,
    {
        CleanupConfig {
            deployment_logs_retention_days: 30,
            server_metrics_retention_days: 7,
            activity_logs_retention_days: 90,
            task_executions_retention_days: 14,
            failed_jobs_retention_days: 30,
            vacuum_after_cleanup: false,
        }
    }
}

/// Result of cleanup operation
#[derive(Debug)]
pub struct CleanupResult {
    pub deployment_logs_deleted: u64,
    pub server_metrics_deleted: u64,
    pub activity_logs_deleted: u64,
    pub task_executions_deleted: u64,
    pub failed_jobs_deleted: u64,
    pub container_status_deleted: u64,
    pub total_deleted: u64,
    pub duration_ms: u64,
    /// Milliseconds since the epoch
    pub completed_at: i64,
}

/// Milliseconds in a day.
pub const DAY_MS: i64 = 86_400_000;

/// The instant `days` days before `now` (milliseconds).
pub open spec fn cutoff_ms(now: i64, days: i64) -> int {
    now - days * DAY_MS
}

/// `days` days before `now` is an instant that a date can show: the
/// subtraction stays in range and chrono can display the result.
pub open spec fn cutoff_ok(now: i64, days: i64) -> bool {
    &&& i64::MIN <= days * DAY_MS <= i64::MAX
    &&& i64::MIN <= cutoff_ms(now, days) <= i64::MAX
    &&& utc_text(cutoff_ms(now, days) as i64) is Some
}

/// Every retention period of `c` gives a displayable cutoff from `now`.
pub open spec fn cutoffs_ok(c: CleanupConfig, now: i64) -> bool {
    &&& cutoff_ok(now, c.deployment_logs_retention_days)
    &&& cutoff_ok(now, c.server_metrics_retention_days)
    &&& cutoff_ok(now, c.activity_logs_retention_days)
    &&& cutoff_ok(now, c.task_executions_retention_days)
    &&& cutoff_ok(now, c.failed_jobs_retention_days)
}

/// A retention period that reaches back no further than chrono's range
/// does forward: its cutoff from any clock reading can be shown.
pub open spec fn retention_in_range(days: i64) -> bool {
    0 <= days && days * DAY_MS <= MAX_UTC_MS
}

/// Every retention period of `c` is in range.
pub open spec fn retentions_in_range(c: CleanupConfig) -> bool {
    &&& retention_in_range(c.deployment_logs_retention_days)
    &&& retention_in_range(c.server_metrics_retention_days)
    &&& retention_in_range(c.activity_logs_retention_days)
    &&& retention_in_range(c.task_executions_retention_days)
    &&& retention_in_range(c.failed_jobs_retention_days)
}

/// The displayed cutoff date.
pub open spec fn cutoff_text(now: i64, days: i64) -> Seq<char> {
    utc_text(cutoff_ms(now, days) as i64).unwrap()
}

/// The cleanup statements for a configuration at `now`.
pub open spec fn cleanup_sql_texts(c: CleanupConfig, now: i64) -> Seq<Seq<char>> {
    seq![
        "UPDATE application_deployments SET logs = NULL WHERE finished_at < '"@ + cutoff_text(
            now,
            c.deployment_logs_retention_days,
        ) + "' AND logs IS NOT NULL;"@,
        "DELETE FROM server_metrics WHERE recorded_at < '"@ + cutoff_text(
            now,
            c.server_metrics_retention_days,
        ) + "';"@,
        "DELETE FROM activity_logs WHERE created_at < '"@ + cutoff_text(
            now,
            c.activity_logs_retention_days,
        ) + "';"@,
        "DELETE FROM scheduled_task_executions WHERE started_at < '"@ + cutoff_text(
            now,
            c.task_executions_retention_days,
        ) + "';"@,
        "DELETE FROM failed_jobs WHERE failed_at < '"@ + cutoff_text(
            now,
            c.failed_jobs_retention_days,
        ) + "';"@,
        "DELETE FROM container_status WHERE last_checked_at < '"@ + cutoff_text(
            now,
            c.server_metrics_retention_days,
        ) + "' AND status IN ('exited', 'dead');"@,
    ]
}

/// The displayed cutoff `days` before `now`, when there is one.
fn cutoff_display(now: i64, days: i64) -> (r: Option<String>)
    ensures
        match r {
            Some(s) => cutoff_ok(now, days) && s@ == cutoff_text(now, days),
            None => !cutoff_ok(now, days),
        },
        0 <= now <= MAX_UTC_MS && retention_in_range(days) ==> r is Some,
{
    let span = match days.checked_mul(DAY_MS) {
        Some(s) => s,
        None => {
            return None;
        },
    };
    let t = match now.checked_sub(span) {
        Some(t) => t,
        None => {
            return None;
        },
    };
    utc_display(t)
}

fn statement(prefix: &str, date: &String, suffix: &str) -> (r: String)
    ensures
        r@ == prefix@ + date@ + suffix@,
{
    let mut r = owned(prefix);
    r.append(date.as_str());
    r.append(suffix);
    r
}

/// Log cleanup job
pub struct LogCleanupJob;

impl LogCleanupJob {
    pub fn new() -> Self {
        LogCleanupJob
    }

    /// Runs the cleanup: every cleanup step deletes nothing, so every count
    /// is zero and the database is not vacuumed.
    pub fn run(&self, config: CleanupConfig) -> (r: Result<CleanupResult, String>)
        ensures
            r matches Ok(res) && res.deployment_logs_deleted == 0 && res.server_metrics_deleted == 0
                && res.activity_logs_deleted == 0 && res.task_executions_deleted == 0
                && res.failed_jobs_deleted == 0 && res.container_status_deleted == 0
                && res.total_deleted == 0,
    {
        let start = now_millis();
        let deployment_logs_deleted: u64 = 0;
        let server_metrics_deleted: u64 = 0;
        let activity_logs_deleted: u64 = 0;
        let task_executions_deleted: u64 = 0;
        let failed_jobs_deleted: u64 = 0;
        let container_status_deleted: u64 = 0;
        let total_deleted = deployment_logs_deleted + server_metrics_deleted + activity_logs_deleted
            + task_executions_deleted + failed_jobs_deleted + container_status_deleted;
        let end = now_millis();
        let d: i128 = end as i128 - start as i128;
        let duration_ms: u64 = if d < 0 {
            0
        } else if d > u64::MAX as i128 {
            u64::MAX
        } else {
            d as u64
        };
        Ok(
            CleanupResult {
                deployment_logs_deleted,
                server_metrics_deleted,
                activity_logs_deleted,
                task_executions_deleted,
                failed_jobs_deleted,
                container_status_deleted,
                total_deleted,
                duration_ms,
                completed_at: now_millis(),
            },
        )
    }

    /// Whether the database is vacuumed after deleting `total_deleted` rows.
    pub fn should_vacuum(config: &CleanupConfig, total_deleted: u64) -> (b: bool)
        ensures
            b == (config.vacuum_after_cleanup && total_deleted > 1000),
    {
        config.vacuum_after_cleanup && total_deleted > 1000
    }

    /// The cleanup statements at the instant `now`.
    pub fn cleanup_sql_at(&self, config: &CleanupConfig, now: i64) -> (r: Vec<String>)
        requires
            cutoffs_ok(*config, now),
        ensures
            texts(r@) == cleanup_sql_texts(*config, now),
    {
        let d1 = cutoff_display(now, config.deployment_logs_retention_days).unwrap();
        let d2 = cutoff_display(now, config.server_metrics_retention_days).unwrap();
        let d3 = cutoff_display(now, config.activity_logs_retention_days).unwrap();
        let d4 = cutoff_display(now, config.task_executions_retention_days).unwrap();
        let d5 = cutoff_display(now, config.failed_jobs_retention_days).unwrap();
        let mut v: Vec<String> = Vec::new();
        v.push(
            statement(
                "UPDATE application_deployments SET logs = NULL WHERE finished_at < '",
                &d1,
                "' AND logs IS NOT NULL;",
            ),
        );
        v.push(statement("DELETE FROM server_metrics WHERE recorded_at < '", &d2, "';"));
        v.push(statement("DELETE FROM activity_logs WHERE created_at < '", &d3, "';"));
        v.push(statement("DELETE FROM scheduled_task_executions WHERE started_at < '", &d4, "';"));
        v.push(statement("DELETE FROM failed_jobs WHERE failed_at < '", &d5, "';"));
        v.push(
            statement(
                "DELETE FROM container_status WHERE last_checked_at < '",
                &d2,
                "' AND status IN ('exited', 'dead');",
            ),
        );
        assert(texts(v@) =~= cleanup_sql_texts(*config, now));
        v
    }

    /// Generate SQL statements for cleanup (for debugging/manual execution)
    /// at the current time (the clock's reading, an instant from the Unix
    /// epoch to the end of chrono's range); `None` when a retention period
    /// reaches outside the dates that can be shown, which no period from
    /// zero days up to chrono's range does.
    pub fn generate_cleanup_sql(&self, config: &CleanupConfig) -> (r: Option<Vec<String>>)
        ensures
            r matches Some(v) ==> exists|now: i64|
                0 <= now <= MAX_UTC_MS && cutoffs_ok(*config, now) && texts(v@)
                    == cleanup_sql_texts(*config, now),
            r is None ==> exists|now: i64| 0 <= now <= MAX_UTC_MS && !cutoffs_ok(*config, now),
            retentions_in_range(*config) ==> r is Some,
    {
        let now = now_millis();
        if cutoff_display(now, config.deployment_logs_retention_days).is_some()
            && cutoff_display(now, config.server_metrics_retention_days).is_some()
            && cutoff_display(now, config.activity_logs_retention_days).is_some()
            && cutoff_display(now, config.task_executions_retention_days).is_some()
            && cutoff_display(now, config.failed_jobs_retention_days).is_some() {
            Some(self.cleanup_sql_at(config, now))
        } else {
            assert(!cutoffs_ok(*config, now));
            None
        }
    }
}

/// Disk cleanup job for servers (runs via SSH)
pub struct ServerDiskCleanupJob;

/// The commands that clean a server's disk, in order.
pub open spec fn disk_cleanup_commands() -> Seq<Seq<char>> {
    seq![
        "docker system prune -f --filter 'until=24h'"@,
        "docker builder prune -f --filter 'until=72h'"@,
        "journalctl --vacuum-time=7d 2>/dev/null || true"@,
        "apt-get clean 2>/dev/null || true"@,
        "find /tmp -type f -atime +7 -delete 2>/dev/null || true"@,
        "find /var/log -name '*.gz' -type f -mtime +30 -delete 2>/dev/null || true"@,
    ]
}

/// Disk usage after a cleanup.
#[derive(Debug)]
pub struct DiskCleanupResult {
    pub server_id: u128,
    pub commands_executed: u32,
    pub disk_used_gb: u64,
    pub disk_total_gb: u64,
    /// Used share of the disk in whole percent
    pub disk_percent: u32,
    /// Milliseconds since the epoch
    pub completed_at: i64,
}

impl ServerDiskCleanupJob {
    pub fn new() -> Self {
        ServerDiskCleanupJob
    }

    /// Generate cleanup commands for a server
    pub fn generate_cleanup_commands(&self) -> (r: Vec<String>)
        ensures
            texts(r@) == disk_cleanup_commands(),
    {
        let mut v: Vec<String> = Vec::new();
        push_word(&mut v, "docker system prune -f --filter 'until=24h'");
        push_word(&mut v, "docker builder prune -f --filter 'until=72h'");
        push_word(&mut v, "journalctl --vacuum-time=7d 2>/dev/null || true");
        push_word(&mut v, "apt-get clean 2>/dev/null || true");
        push_word(&mut v, "find /tmp -type f -atime +7 -delete 2>/dev/null || true");
        push_word(&mut v, "find /var/log -name '*.gz' -type f -mtime +30 -delete 2>/dev/null || true");
        assert(texts(v@) =~= disk_cleanup_commands());
        v
    }

    /// The command that reads disk usage after a cleanup.
    pub fn disk_usage_command(&self) -> (r: String)
        ensures
            r@ == "df -BG / | awk 'NR==2 {gsub(\"G\",\"\"); print $3\",\"$2\",\"$5}'"@,
    {
        owned("df -BG / | awk 'NR==2 {gsub(\"G\",\"\"); print $3\",\"$2\",\"$5}'")
    }

    /// Runs the cleanup on a server: every command counts as executed and
    /// no disk usage is read back.
    pub fn run(&self, server_id: u128) -> (r: Result<DiskCleanupResult, String>)
        ensures
            r matches Ok(res) && res.server_id == server_id && res.commands_executed == 6
                && res.disk_used_gb == 0 && res.disk_total_gb == 0 && res.disk_percent == 0,
    {
        let commands = self.generate_cleanup_commands();
        assert(commands@.len() == 6) by {
            assert(texts(commands@).len() == commands@.len());
        }
        Ok(
            DiskCleanupResult {
                server_id,
                commands_executed: commands.len() as u32,
                disk_used_gb: 0,
                disk_total_gb: 0,
                disk_percent: 0,
                completed_at: now_millis(),
            },
        )
    }
}

} // verus!
