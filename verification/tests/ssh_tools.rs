use kornetti::platform::Server;
use kornetti::ssh::executor::{docker_version_of, parse_containers, system_info, total_and_used};
use kornetti::ssh::multiplexer::{ConnectionPool, PoolConfig, ServerKey};
use kornetti::ssh::retry::{after_failure, RetryDecision};
use kornetti::ssh::session::{sudo_command, CommandOutput};
use kornetti::ssh::sftp::{
    chmod_command, downloaded_bytes, downloaded_text, exists_command, file_size_result,
    listed_names, remove_command, sftp_check, test_answer, upload_plan,
};
use kornetti::ssh::error::SshError;

fn out(stdout: &str, stderr: &str, code: i32) -> CommandOutput {
    CommandOutput { stdout: stdout.to_string(), stderr: stderr.to_string(), exit_code: code }
}

#[test]
fn retry_gives_up_after_the_allowed_retries() {
    assert_eq!(after_failure(0, 2), RetryDecision::Retry(1));
    assert_eq!(after_failure(1, 2), RetryDecision::Retry(2));
    assert_eq!(after_failure(2, 2), RetryDecision::GiveUp(3));
    assert_eq!(after_failure(0, 0), RetryDecision::GiveUp(1));
    // an always-failing operation runs max_retries + 1 times
    let mut runs = 1;
    let mut failures = 0;
    loop {
        match after_failure(failures, 3) {
            RetryDecision::Retry(n) => {
                failures = n;
                runs += 1;
            }
            RetryDecision::GiveUp(_) => break,
        }
    }
    assert_eq!(runs, 4);
}

#[test]
fn pool_reuses_idle_connections() {
    let mut pool = ConnectionPool::new(PoolConfig::default());
    let key = ServerKey::new("10.0.0.1", 22, "root");
    assert_eq!(pool.acquire_idle(&key, 1_000, 300_000), None);
    pool.add_connection(ServerKey::new("10.0.0.1", 22, "root"), 7, 1_000);
    pool.add_connection(ServerKey::new("10.0.0.2", 22, "root"), 8, 1_000);
    let s = pool.stats();
    assert_eq!((s.total_connections, s.idle_connections, s.in_use_connections, s.servers_connected), (2, 2, 0, 2));
    assert_eq!(pool.acquire_idle(&key, 2_000, 300_000), Some(7));
    assert_eq!(pool.acquire_idle(&key, 2_000, 300_000), None);
    let s = pool.stats();
    assert_eq!((s.total_connections, s.idle_connections, s.in_use_connections), (2, 1, 1));
    pool.release(&key, 7, 3_000);
    assert_eq!(pool.acquire_idle(&key, 4_000, 300_000), Some(7));
}

#[test]
fn pool_cleanup_keeps_connections_in_use() {
    let mut pool = ConnectionPool::new(PoolConfig::default());
    let a = ServerKey::new("10.0.0.1", 22, "root");
    pool.add_connection(ServerKey::new("10.0.0.1", 22, "root"), 1, 0);
    pool.add_connection(ServerKey::new("10.0.0.1", 22, "root"), 2, 0);
    pool.add_connection(ServerKey::new("10.0.0.2", 22, "deploy"), 3, 0);
    assert_eq!(pool.acquire_idle(&a, 0, 100), Some(1));
    // long after: 2 and 3 are idle and stale, 1 is in use
    let removed = pool.cleanup(10_000, 100);
    assert_eq!(removed, 2);
    let s = pool.stats();
    assert_eq!((s.total_connections, s.in_use_connections, s.servers_connected), (1, 1, 1));
}

#[test]
fn pool_acquire_drops_stale_connections() {
    let mut pool = ConnectionPool::new(PoolConfig::default());
    let a = ServerKey::new("h", 22, "u");
    pool.add_connection(ServerKey::new("h", 22, "u"), 1, 0);
    assert_eq!(pool.acquire_idle(&a, 1_000, 100), None);
    let s = pool.stats();
    assert_eq!((s.total_connections, s.servers_connected), (0, 1));
}

#[test]
fn pool_private_keys() {
    let mut pool = ConnectionPool::new(PoolConfig::default());
    pool.register_key(5, "first".to_string());
    pool.register_key(6, "other".to_string());
    pool.register_key(5, "second".to_string());
    let server = |id: Option<u128>| Server {
        id: 1,
        name: "s".to_string(),
        ip: "h".to_string(),
        port: 22,
        user: "u".to_string(),
        private_key_id: id,
    };
    assert_eq!(pool.private_key_for(&server(Some(5))), Some("second".to_string()));
    assert_eq!(pool.private_key_for(&server(Some(6))), Some("other".to_string()));
    assert_eq!(pool.private_key_for(&server(Some(7))), None);
    assert_eq!(pool.private_key_for(&server(None)), None);
    let k = ServerKey::for_server(&server(None));
    assert!(k.same(&ServerKey::new("h", 22, "u")));
    assert!(!k.same(&ServerKey::new("h", 2222, "u")));
}

#[test]
fn sftp_upload_commands() {
    let p = upload_plan("/etc/app/conf.txt", b"hi");
    assert_eq!(p.mkdir, Some("mkdir -p '/etc/app'".to_string()));
    assert_eq!(p.write, "echo 'aGk=' | base64 -d > '/etc/app/conf.txt'");
    let p = upload_plan("/", b"");
    assert_eq!(p.mkdir, None);
    assert_eq!(p.write, "echo '' | base64 -d > '/'");
}

#[test]
fn sftp_download_decodes_base64() {
    let bytes = downloaded_bytes(&out("aGVsbG8=\n", "", 0)).unwrap();
    assert_eq!(bytes, b"hello".to_vec());
    assert_eq!(downloaded_text(bytes).unwrap(), "hello");
    match downloaded_bytes(&out("not base64!", "", 0)) {
        Err(SshError::SftpError(m)) => assert!(m.starts_with("Failed to decode file content: ")),
        _ => panic!("expected a decode error"),
    }
    assert_eq!(
        downloaded_bytes(&out("", "no such file", 1)),
        Err(SshError::SftpError("Failed to read file: no such file".to_string()))
    );
    assert!(downloaded_text(vec![0xff, 0xfe]).is_err());
}

#[test]
fn sftp_small_commands() {
    assert_eq!(exists_command("/a b"), "test -e '/a b' && echo 1 || echo 0");
    assert_eq!(remove_command("/x", true), "rm -rf '/x'");
    assert_eq!(remove_command("/x", false), "rm -f '/x'");
    assert_eq!(chmod_command("/x", "600"), "chmod 600 '/x'");
    assert!(test_answer(&out(" 1\n", "", 0)));
    assert!(!test_answer(&out("0\n", "", 0)));
    assert_eq!(sftp_check(&out("", "denied", 1), "Failed to remove: "), Err(SshError::SftpError("Failed to remove: denied".to_string())));
    assert_eq!(listed_names(&out("a\nb\n", "", 0)).unwrap(), vec!["a".to_string(), "b".to_string()]);
    assert_eq!(file_size_result(&out(" 1024\n", "", 0)), Ok(1024));
    assert!(matches!(file_size_result(&out("abc", "", 0)), Err(SshError::SftpError(_))));
    assert_eq!(sudo_command("whoami"), "sudo -n whoami");
}

#[test]
fn executor_output_reading() {
    assert_eq!(docker_version_of(&out("  \n", "", 0)), None);
    assert_eq!(
        docker_version_of(&out("Docker version 24.0.7, build afdd53b\n", "", 0)),
        Some("Docker version 24.0.7, build afdd53b".to_string())
    );
    assert_eq!(total_and_used(&out("8000 2000\n", "", 0)), (8000, 2000));
    assert_eq!(total_and_used(&out("x 5\n", "", 0)), (0, 0));
    let cs = parse_containers(&out("abc|web|nginx:latest|Up 2 hours\n\nbad line\nx|y|z\n", "", 0));
    assert_eq!(cs.len(), 1);
    assert_eq!(cs[0].name, "web");
    assert_eq!(cs[0].status, "Up 2 hours");
    let info = system_info(&out("host\n", "", 0), &out("Ubuntu 22.04\n", "", 0), &out("6.1\n", "", 0), &out("x86_64\n", "", 0));
    assert_eq!(info.hostname, "host");
    assert_eq!(info.arch, "x86_64");
}

#[test]
fn new_pool_keeps_its_configuration_and_starts_empty() {
    let mut config = PoolConfig::default();
    config.max_connections_per_server = 2;
    config.idle_timeout_ms = 1_000;
    let pool = ConnectionPool::new(config);
    assert_eq!(pool.config.max_connections_per_server, 2);
    assert_eq!(pool.config.max_total_connections, 100);
    assert_eq!(pool.config.idle_timeout_ms, 1_000);
    assert!(pool.slots.is_empty());
    assert!(pool.private_keys.is_empty());
}
