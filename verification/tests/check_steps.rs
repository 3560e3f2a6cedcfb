use kornetti::scheduler::jobs::docker_cleanup::{CleanupResult, CleanupStage, DockerCleanupContext, DockerCleanupJob};
use kornetti::scheduler::jobs::server_check::{check_command, first_check, next_check, CheckStep, ServerCheckContext};

fn ctx(docker: bool, disk: bool, memory: bool) -> ServerCheckContext {
    ServerCheckContext { server_id: 1, check_docker: docker, check_disk: disk, check_memory: memory }
}

fn order(c: &ServerCheckContext, reachable: bool) -> Vec<CheckStep> {
    let mut steps = Vec::new();
    let mut s = first_check(c);
    while s != CheckStep::Done {
        steps.push(s);
        s = next_check(c, s, reachable);
    }
    steps
}

#[test]
fn checks_run_in_order_as_switched_on() {
    assert_eq!(order(&ctx(true, true, true), true), vec![CheckStep::Reachability, CheckStep::Docker, CheckStep::Disk, CheckStep::Memory, CheckStep::CpuLoad]);
    assert_eq!(order(&ctx(false, true, false), true), vec![CheckStep::Reachability, CheckStep::Disk, CheckStep::CpuLoad]);
    assert_eq!(order(&ctx(false, false, false), true), vec![CheckStep::Reachability, CheckStep::CpuLoad]);
    assert_eq!(order(&ctx(true, true, true), false), vec![CheckStep::Reachability]);
    assert_eq!(check_command(CheckStep::CpuLoad).unwrap(), "cat /proc/loadavg");
    assert!(check_command(CheckStep::Reachability).is_none());
}

#[test]
fn cleanup_runs_every_enabled_stage_in_order() {
    let job = DockerCleanupJob::new(DockerCleanupContext {
        server_id: 1,
        cleanup_images: true,
        cleanup_containers: false,
        cleanup_volumes: true,
        cleanup_networks: false,
        cleanup_builder_cache: true,
        force: true,
    });
    let mut stages = Vec::new();
    let mut s = job.first_stage();
    let mut result = CleanupResult::start(1, 0);
    while let Some(st) = s {
        stages.push(st);
        // every stage fails; the run still goes on to the next one
        DockerCleanupJob::record(&mut result, st, Err("boom".to_string()));
        s = job.next_stage(st);
    }
    assert_eq!(stages, vec![CleanupStage::Images, CleanupStage::Volumes, CleanupStage::BuildCache]);
    assert_eq!(result.errors.len(), 3);
    assert!(!result.is_success());
}
