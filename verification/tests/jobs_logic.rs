use kornetti::platform::{Error, ServerStatus};
use kornetti::scheduler::jobs::github_permission::{webhook_event_kind, WebhookEventKind};
use kornetti::scheduler::jobs::notification::{escape_markdown, reply_result};
use kornetti::scheduler::jobs::server_check::{
    cpu_fields, disk_fields, docker_running_from, is_healthy, memory_fields, reachability,
    suggested_status,
};
use kornetti::scheduler::jobs::server_metrics::{MetricCounters, ServerMetricsJob};

#[test]
fn telegram_markdown_is_escaped() {
    assert_eq!(escape_markdown("a_b*c.d!"), "a\\_b\\*c\\.d\\!");
    assert_eq!(escape_markdown("plain"), "plain");
    assert_eq!(escape_markdown(""), "");
}

#[test]
fn channel_replies() {
    assert!(reply_result("Discord", Ok((204, "204 No Content".to_string(), String::new()))).is_ok());
    assert_eq!(
        reply_result("Slack", Ok((500, "500 Internal Server Error".to_string(), "oops".to_string()))),
        Err(Error::Internal("Slack API error: 500 Internal Server Error - oops".to_string()))
    );
    assert_eq!(
        reply_result("Telegram", Err("dns".to_string())),
        Err(Error::Internal("Telegram request failed: dns".to_string()))
    );
}

#[test]
fn server_check_readings() {
    assert!(docker_running_from(" 1\n"));
    assert!(!docker_running_from("0"));
    assert_eq!(
        disk_fields("50G 20G 30G 40%\n").unwrap(),
        vec!["50G".to_string(), "20G".to_string(), "30G".to_string(), "40%".to_string()]
    );
    assert_eq!(disk_fields("50G 20G"), Err(Error::Internal("Failed to parse disk usage".to_string())));
    assert_eq!(cpu_fields("0.5 0.4"), Err(Error::Internal("Failed to parse CPU load".to_string())));
    assert_eq!(memory_fields("8000 3000 x 4500").unwrap(), (8000, 3000, 0, 4500));
    assert_eq!(memory_fields(""), Err(Error::Internal("Failed to parse memory usage".to_string())));
    assert_eq!(reachability(Ok(true)), Ok(()));
    assert!(reachability(Ok(false)).is_err());
}

#[test]
fn health_verdicts() {
    assert!(is_healthy(true, true, 0));
    assert!(!is_healthy(true, true, 1));
    assert!(!is_healthy(true, false, 0));
    assert_eq!(suggested_status(false, false, 0), ServerStatus::Unreachable);
    assert_eq!(suggested_status(true, true, 0), ServerStatus::Running);
    assert_eq!(suggested_status(true, false, 0), ServerStatus::Error);
    assert_eq!(suggested_status(true, true, 2), ServerStatus::Warning);
}

#[test]
fn metric_counters() {
    let job = ServerMetricsJob::new();
    let c = job.parse_counters("CPU:25.5\nMEM:4096,8192\nDISK:50,100\nLOAD:1.5,1.2,0.8\nNET:1000000,500000\nDOCKER:5,10");
    assert_eq!(
        c,
        MetricCounters {
            memory_used_mb: 4096,
            memory_total_mb: 8192,
            disk_used_gb: 50,
            disk_total_gb: 100,
            network_rx_bytes: 1000000,
            network_tx_bytes: 500000,
            docker_containers_running: 5,
            docker_containers_total: 10,
        }
    );
}

#[test]
fn webhook_events() {
    assert_eq!(webhook_event_kind("push"), WebhookEventKind::Push);
    assert_eq!(webhook_event_kind("pull_request"), WebhookEventKind::PullRequest);
}
