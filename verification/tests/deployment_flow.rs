use kornetti::platform::DeploymentType;
use kornetti::scheduler::jobs::deployment::{ApplicationDeploymentJob, DeploymentContext, DeploymentStep};

fn job(kind: DeploymentType) -> ApplicationDeploymentJob {
    ApplicationDeploymentJob::new(DeploymentContext {
        deployment_id: 1,
        application_id: 2,
        server_id: 3,
        deployment_type: kind,
        commit_sha: None,
        force_rebuild: false,
        rollback_to: None,
    })
}

#[test]
fn advancing_runs_the_pipeline_in_order() {
    let mut j = job(DeploymentType::Manual);
    let mut seen = Vec::new();
    while let Some(step) = j.advance() {
        seen.push(step);
    }
    assert_eq!(
        seen,
        vec![
            DeploymentStep::PreparingServer,
            DeploymentStep::CloningRepository,
            DeploymentStep::GeneratingDockerfile,
            DeploymentStep::BuildingImage,
            DeploymentStep::StoppingOldContainers,
            DeploymentStep::StartingNewContainers,
            DeploymentStep::ConfiguringProxy,
            DeploymentStep::RunningHealthChecks,
            DeploymentStep::Cleanup,
        ]
    );
    assert!(!j.conclude(Ok(())));
    assert_eq!(j.current_step(), DeploymentStep::Finished);
    assert_eq!(j.advance(), None);
    let r = j.result(Ok(()), 5);
    assert!(r.success);
    assert_eq!(r.logs.len(), 11);
    assert_eq!(r.logs[0].message, "Preparing server...");
    assert_eq!(r.logs[10].message, "Deployment completed successfully");
}

#[test]
fn a_failure_rolls_back_unless_it_is_a_rollback() {
    let mut j = job(DeploymentType::Webhook);
    j.advance();
    assert!(j.conclude(Err("boom".to_string())));
    assert_eq!(j.current_step(), DeploymentStep::Failed);
    let r = j.result(Err("boom".to_string()), 1);
    assert_eq!(r.error, Some("boom".to_string()));
    assert_eq!(r.logs.last().unwrap().message, "Deployment failed: boom");
    assert!(r.logs.last().unwrap().is_error);
    let mut k = job(DeploymentType::Rollback);
    assert!(!k.conclude(Err("again".to_string())));
}
