use kornetti::docker::image::ImageRef;
use kornetti::proxy::caddy::generate;
use kornetti::proxy::ServiceConfig;
use kornetti::scheduler::jobs::container_status::{ContainerState, ContainerStatusJob};
use kornetti::scheduler::jobs::deployment::{app_container_exec, image_name};
use kornetti::text::{chars_of, split_str};

fn service(domain: &str, port: u16) -> ServiceConfig {
    ServiceConfig {
        name: "svc".to_string(),
        container_name: "ctr".to_string(),
        domain: domain.to_string(),
        port,
        https: false,
        www_redirect: false,
        headers: vec![],
    }
}

#[test]
fn image_references_print_and_parse_back() {
    for text in [
        "nginx",
        "nginx:1.21",
        "ghcr.io/owner/repo:v1.0",
        "localhost:5000/app",
        "library/redis:7",
        "reg.io/a:b:c",
        "reg.io:5000/team/app",
    ] {
        let r = ImageRef::parse(text).unwrap();
        let back = ImageRef::parse(&r.to_string()).unwrap();
        assert_eq!(back.registry, r.registry);
        assert_eq!(back.repository, r.repository);
        assert_eq!(back.tag, r.tag);
    }
}

#[test]
fn state_words_read_back_in_any_case() {
    let all = [
        ContainerState::Created,
        ContainerState::Running,
        ContainerState::Paused,
        ContainerState::Restarting,
        ContainerState::Removing,
        ContainerState::Exited,
        ContainerState::Dead,
    ];
    for st in all {
        assert_eq!(ContainerStatusJob::parse_state(st.as_str()), st);
        assert_eq!(ContainerStatusJob::parse_state(&st.as_str().to_uppercase()), st);
    }
    assert_eq!(ContainerStatusJob::parse_state("Running"), ContainerState::Running);
    assert_eq!(ContainerStatusJob::parse_state("bogus"), ContainerState::Dead);
}

#[test]
fn caddyfile_of_joined_lists_is_joined_text() {
    let a = vec![service("a.example.com", 80)];
    let b = vec![service("b.example.com", 81), service("c.example.com", 82)];
    let both: Vec<ServiceConfig> = a.iter().chain(b.iter()).cloned().collect();
    assert_eq!(generate(&both), generate(&a) + &generate(&b));
    assert_eq!(generate(&[]), "");
}

#[test]
fn image_name_takes_the_first_eight_bytes_of_the_sha() {
    let id: u128 = 0x0123_4567_89ab_cdef_0123_4567_89ab_cdef;
    assert_eq!(app_container_exec(id), "coolify-01234567-89ab-cdef-0123-456789abcdef");
    assert_eq!(
        image_name(id, "abcdef0123456789"),
        "coolify-01234567-89ab-cdef-0123-456789abcdef:abcdef01"
    );
    assert_eq!(
        image_name(id, "ééééx"),
        "coolify-01234567-89ab-cdef-0123-456789abcdef:éééé"
    );
}

#[test]
fn splitting_by_the_empty_pattern_matches_std() {
    let pieces: Vec<String> = split_str(&chars_of("abc"), "")
        .into_iter()
        .map(|v| v.into_iter().collect())
        .collect();
    let expected: Vec<String> = "abc".split("").map(|s| s.to_string()).collect();
    assert_eq!(pieces, expected);
}
