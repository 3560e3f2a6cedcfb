use kornetti::scheduler::jobs::container_status::ContainerStatusJob;
use kornetti::scheduler::jobs::deployment::source_dir_exec;
use kornetti::scheduler::jobs::log_cleanup::{CleanupConfig, LogCleanupJob};

#[test]
fn application_directory_names_the_uuid() {
    let id = uuid::Uuid::parse_str("67e55044-10b1-426f-9247-bb680e5fe0c8").unwrap();
    assert_eq!(
        source_dir_exec(id.as_u128()),
        "/data/coolify/applications/67e55044-10b1-426f-9247-bb680e5fe0c8/source"
    );
}

#[test]
fn resource_ids_are_read_from_labels() {
    let labels = vec![
        ("coolify.resource.type".to_string(), "service".to_string()),
        ("kornetti.resource.id".to_string(), "not-a-uuid".to_string()),
        ("coolify.resource.id".to_string(), "67e55044-10b1-426f-9247-bb680e5fe0c8".to_string()),
    ];
    let (ty, id) = ContainerStatusJob::extract_resource_from_labels(&labels);
    assert_eq!(ty, Some("service".to_string()));
    assert_eq!(id, Some(uuid::Uuid::parse_str("67e55044-10b1-426f-9247-bb680e5fe0c8").unwrap().as_u128()));
    let (ty, id) = ContainerStatusJob::extract_resource_from_labels(&vec![]);
    assert_eq!((ty, id), (None, None));
}

#[test]
fn cleanup_statements_show_the_cutoff_date() {
    let job = LogCleanupJob::new();
    let config = CleanupConfig::default();
    let now = 30 * 86_400_000;
    let sql = job.cleanup_sql_at(&config, now);
    assert_eq!(
        sql[0],
        "UPDATE application_deployments SET logs = NULL WHERE finished_at < '1970-01-01 00:00:00 UTC' AND logs IS NOT NULL;"
    );
    assert_eq!(sql[1], "DELETE FROM server_metrics WHERE recorded_at < '1970-01-24 00:00:00 UTC';");
    assert_eq!(sql.len(), 6);
}
