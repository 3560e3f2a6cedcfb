use kornetti::docker::builder::{
    build_outcome, image_id_result, login_command, prune_output, pull_result,
    reclaimed_space_field, BuildConfig,
};
use kornetti::docker::container::{
    ContainerConfig, PortBinding, Protocol, ResourceConfig, RestartPolicy, VolumeMount,
};
use kornetti::docker::error::DockerError;
use kornetti::docker::executor::{
    compose_result, exec_command, first_inspected, health_poll_step, inspect_result,
    logs_command, output_text_result, plain_result, remove_container_command,
    remove_container_result, run_container_result, stop_container_command,
    stop_container_result,
};
use kornetti::docker::image::ImageRef;
use kornetti::docker::network::{NetworkConfig, NetworkDriver};
use kornetti::docker::volume::VolumeMount as Mount;
use kornetti::ssh::session::CommandOutput;

fn ok(stdout: &str, stderr: &str, code: i32) -> Result<CommandOutput, String> {
    Ok(CommandOutput { stdout: stdout.to_string(), stderr: stderr.to_string(), exit_code: code })
}

#[test]
fn run_command_lists_every_option() {
    let c = ContainerConfig {
        name: "web".to_string(),
        image: "nginx:latest".to_string(),
        ports: vec![
            PortBinding { container_port: 80, host_port: Some(8080), protocol: Protocol::Tcp },
            PortBinding { container_port: 53, host_port: None, protocol: Protocol::Udp },
        ],
        volumes: vec![VolumeMount { source: "data".to_string(), target: "/data".to_string(), read_only: true }],
        environment: vec![("A".to_string(), "1".to_string())],
        labels: vec![("l".to_string(), "v".to_string())],
        network: Some("net".to_string()),
        restart_policy: RestartPolicy::UnlessStopped,
        resources: ResourceConfig {
            memory_limit: Some(512 * 1024 * 1024),
            memory_reservation: None,
            cpu_limit_millis: Some(1500),
            cpu_reservation_millis: None,
        },
    };
    assert_eq!(
        c.to_docker_run_command(),
        "docker run -d --name web -p 8080:80/tcp -v data:/data:ro -e A=1 --label l=v --network net --restart unless-stopped --memory 512m --cpus 1.5 nginx:latest"
    );
}

#[test]
fn container_outcomes() {
    assert_eq!(run_container_result("web", ok("abc123\n", "", 0)), Ok("abc123".to_string()));
    assert_eq!(
        run_container_result("web", ok("", "Conflict. The container name is already in use", 125)),
        Err(DockerError::ContainerExists("web".to_string()))
    );
    assert_eq!(
        run_container_result("web", Err("ssh down".to_string())),
        Err(DockerError::CommandFailed("ssh down".to_string()))
    );
    assert_eq!(
        stop_container_result("web", ok("", "Error: No such container: web", 1)),
        Err(DockerError::ContainerNotFound("web".to_string()))
    );
    assert_eq!(stop_container_result("web", ok("", "", 0)), Ok(()));
    assert_eq!(stop_container_command("web", None), "docker stop -t 10 web");
    assert_eq!(remove_container_command("web", true, true), "docker rm -f -v web");
    assert_eq!(remove_container_result(ok("", "Error: No such container: web", 1)), Ok(()));
    assert_eq!(
        remove_container_result(ok("", "permission denied", 1)),
        Err(DockerError::CommandFailed("permission denied".to_string()))
    );
    assert_eq!(plain_result(ok("", "boom", 2)), Err(DockerError::CommandFailed("boom".to_string())));
    assert_eq!(logs_command("web", Some(50), Some("1h")), "docker logs --tail 50 --since 1h web");
    assert_eq!(output_text_result(ok("out", "err", 0), false), Ok("out\nerr".to_string()));
    assert_eq!(
        output_text_result(Err("x".to_string()), true),
        Err(DockerError::ComposeError("x".to_string()))
    );
    assert_eq!(exec_command("web", "ls -la", true), "docker exec -it web sh -c 'ls -la'");
}

#[test]
fn health_and_inspect_outcomes() {
    assert_eq!(health_poll_step("web", ok("healthy\n", "", 0)), Some(Ok(())));
    assert_eq!(
        health_poll_step("web", ok("unhealthy\n", "", 0)),
        Some(Err(DockerError::HealthCheckFailed("web".to_string())))
    );
    assert_eq!(health_poll_step("web", ok("starting\n", "", 0)), None);
    assert_eq!(
        inspect_result("web", ok("", "Error: No such object: web", 1)),
        Err(DockerError::ContainerNotFound("web".to_string()))
    );
    assert_eq!(first_inspected::<u8>("web", vec![]), Err(DockerError::ContainerNotFound("web".to_string())));
    assert_eq!(first_inspected("web", vec![7u8, 8]), Ok(7));
    assert_eq!(compose_result(ok("", "no such service", 1)), Err(DockerError::ComposeError("no such service".to_string())));
}

#[test]
fn image_outcomes() {
    assert_eq!(
        build_outcome(ok("", "failed to solve", 1)).map(|_| ()),
        Err(DockerError::BuildFailed("failed to solve".to_string()))
    );
    assert_eq!(image_id_result("app", ok("sha256:1\n", "", 0)), Ok("sha256:1".to_string()));
    assert_eq!(image_id_result("app", ok("", "", 1)), Err(DockerError::ImageNotFound("app".to_string())));
    assert_eq!(pull_result(ok("", "manifest unknown", 1)), Err(DockerError::PullFailed("manifest unknown".to_string())));
    assert_eq!(prune_output(ok("Deleted: x\nTotal reclaimed space: 1.5GB\n", "", 1)), Ok("Deleted: x\nTotal reclaimed space: 1.5GB\n".to_string()));
    assert_eq!(reclaimed_space_field("Deleted: x\nTotal reclaimed space: 1.5GB\n"), Some("1.5GB".to_string()));
    assert_eq!(reclaimed_space_field("nothing"), None);
    assert_eq!(login_command("ghcr.io", "me", "pw"), "echo pw | docker login ghcr.io -u me --password-stdin");
    let b = BuildConfig::new("app:1").dockerfile("Dockerfile.prod").build_arg("V", "2").no_cache();
    let cmd = b.build_command();
    assert!(cmd.starts_with("docker build -t app:1"));
    assert!(cmd.contains("-f Dockerfile.prod"));
    assert!(cmd.contains("--build-arg V=2"));
    assert!(cmd.contains("--no-cache"));
}

#[test]
fn image_references() {
    let img = ImageRef::parse("nginx").unwrap();
    assert!(img.is_official());
    assert_eq!(ImageRef::parse("ghcr.io/owner/repo:v1.0").unwrap().to_string(), "ghcr.io/owner/repo:v1.0");
    assert!(!ImageRef::parse("owner/repo").unwrap().is_official());
}

#[test]
fn network_and_volume_commands() {
    let n = NetworkConfig::new("app-net").driver(NetworkDriver::Overlay).internal().label("k", "v");
    assert_eq!(n.to_create_command(), "docker network create --driver overlay --attachable --internal --label k=v app-net");
    assert_eq!(Mount::bind("/src", "/dst").read_only().to_volume_arg(), "/src:/dst:ro");
    assert_eq!(Mount::named("data", "/var/lib").to_volume_arg(), "data:/var/lib");
}
