use kornetti::kv::{lookup_exec, upsert_exec};
use kornetti::scheduler::interval::Scheduler as IntervalScheduler;
use kornetti::scheduler::job::{Job, JobStatus as QueueStatus, JobType};
use kornetti::scheduler::{JobEntry, JobStatus, Scheduler, SchedulerConfig};

#[test]
fn scheduler_queue_cancel_and_process() {
    let mut s = Scheduler::new(SchedulerConfig::default());
    let a = s.queue_deployment(serde_json::Value::Null);
    let b = s.queue_server_check(serde_json::Value::Null);
    assert_eq!(s.list_jobs().len(), 2);
    assert_eq!(s.get_job(a).unwrap().job_type, "deployment");
    assert_eq!(s.get_job(b).unwrap().job_type, "server_check");
    assert!(s.cancel_job(b));
    // a cancelled job cannot be cancelled again
    assert!(!s.cancel_job(b));
    assert_eq!(s.get_job(b).unwrap().status, JobStatus::Cancelled);
    let started = s.start_queued_jobs();
    assert_eq!(started, vec![a]);
    let job = s.get_job(a).unwrap();
    assert_eq!(job.status, JobStatus::Running);
    assert_eq!(job.attempts, 1);
    // a running job cannot be cancelled
    assert!(!s.cancel_job(a));
    s.complete_job(a);
    assert_eq!(s.get_job(a).unwrap().status, JobStatus::Completed);
    assert_eq!(s.list_jobs_by_status(JobStatus::Completed).len(), 1);
    assert!(s.get_job(12345).is_none());
}

#[test]
fn cleanup_keeps_unfinished_jobs() {
    let mut s = Scheduler::new(SchedulerConfig::default());
    let queued = s.queue_deployment(serde_json::Value::Null);
    let done = s.queue_deployment(serde_json::Value::Null);
    s.start_queued_jobs();
    s.complete_job(done);
    let running = queued;
    // everything finished up to the far future goes; the unfinished job stays
    s.cleanup_finished_before(i64::MAX);
    assert!(s.get_job(done).is_none());
    assert!(s.get_job(running).is_some());
    let mut t = Scheduler::new(SchedulerConfig::default());
    let fin = t.queue_deployment(serde_json::Value::Null);
    t.cancel_job(fin);
    // a cutoff before the finish keeps it
    t.cleanup_finished_before(0);
    assert!(t.get_job(fin).is_some());
    t.cleanup_old_jobs(0);
    assert!(t.get_job(fin).is_none());
}

#[test]
fn job_entry_defaults() {
    let e = JobEntry::new("x", serde_json::Value::Null);
    assert_eq!(e.status, JobStatus::Queued);
    assert_eq!(e.attempts, 0);
    assert_eq!(e.max_retries, 3);
}

#[test]
fn interval_jobs_run_when_due_and_not_twice() {
    let mut s = IntervalScheduler::new();
    s.schedule_server_checks();
    s.schedule_docker_cleanup();
    s.schedule("custom", JobType::ServerCheck, serde_json::Value::Null, 10);
    // never run: all due
    assert_eq!(s.take_due(1_000), vec![0, 1, 2]);
    // at the same time, none is due again
    assert_eq!(s.take_due(1_000), Vec::<usize>::new());
    assert_eq!(s.take_due(1_010), vec![2]);
    assert_eq!(s.take_due(61_000), vec![0, 2]);
}

#[test]
fn job_lifecycle() {
    let mut j = Job::scheduled(JobType::ServerCheck, serde_json::Value::Null, 100);
    assert_eq!(j.status, QueueStatus::Scheduled);
    assert!(!j.is_ready_at(99));
    assert!(j.is_ready_at(100));
    assert!(j.can_retry());
    j.mark_started();
    assert_eq!(j.status, QueueStatus::Running);
    assert_eq!(j.attempts, 1);
    assert!(!j.is_ready_at(1_000));
    j.mark_failed("boom".to_string());
    assert_eq!(j.status, QueueStatus::Failed);
    assert_eq!(j.error, Some("boom".to_string()));
    j.mark_started();
    j.mark_started();
    assert!(!j.can_retry());
    j.mark_completed();
    assert_eq!(j.status, QueueStatus::Completed);
}

#[test]
fn upsert_behaves_as_a_map() {
    let mut ps = vec![("a".to_string(), "1".to_string())];
    upsert_exec(&mut ps, "b", "2");
    upsert_exec(&mut ps, "a", "3");
    assert_eq!(ps.len(), 2);
    assert_eq!(lookup_exec(&ps, "a"), Some("3".to_string()));
    assert_eq!(lookup_exec(&ps, "b"), Some("2".to_string()));
    assert_eq!(lookup_exec(&ps, "c"), None);
}
