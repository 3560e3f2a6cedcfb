use kornetti::proxy::caddy::{generate, json_routes};
use kornetti::proxy::traefik::{config_model, generate_labels};
use kornetti::proxy::ServiceConfig;

fn service(https: bool, www: bool, headers: Vec<(&str, &str)>) -> ServiceConfig {
    ServiceConfig {
        name: "app".to_string(),
        container_name: "app-1".to_string(),
        domain: "example.com".to_string(),
        port: 3000,
        https,
        www_redirect: www,
        headers: headers.into_iter().map(|(k, v)| (k.to_string(), v.to_string())).collect(),
    }
}

#[test]
fn caddyfile_for_one_service() {
    let c = generate(&[service(true, true, vec![("X-Frame-Options", "DENY")])]);
    assert_eq!(
        c,
        "example.com {\n    reverse_proxy app-1:3000\n    tls {\n        on_demand\n    }\n    header X-Frame-Options \"DENY\"\n    @www host www.example.com\n    redir @www https://{}{}\n}\n\n"
    );
    let plain = generate(&[service(false, false, vec![])]);
    assert_eq!(plain, "example.com {\n    reverse_proxy app-1:3000\n}\n\n");
    assert_eq!(generate(&[]), "");
}

#[test]
fn caddy_routes() {
    let r = json_routes(&[service(false, false, vec![])]);
    assert_eq!(r.len(), 1);
    assert_eq!(r[0].host, "example.com");
    assert_eq!(r[0].dial, "app-1:3000");
}

#[test]
fn traefik_labels_and_routers() {
    let labels = generate_labels(&service(true, false, vec![]));
    assert_eq!(labels[0], ("traefik.enable".to_string(), "true".to_string()));
    assert!(labels.contains(&("traefik.http.routers.app.rule".to_string(), "Host(`example.com`)".to_string())));
    assert!(labels.contains(&("traefik.http.services.app.loadbalancer.server.port".to_string(), "3000".to_string())));
    assert!(labels.contains(&("traefik.http.routers.app.entrypoints".to_string(), "websecure".to_string())));
    assert!(labels.contains(&("traefik.http.routers.app.tls.certresolver".to_string(), "letsencrypt".to_string())));
    let c = config_model(&[service(false, false, vec![])]);
    assert_eq!(c.http.routers[0].0, "app-router");
    assert_eq!(c.http.routers[0].1.entry_points, vec!["web".to_string()]);
    assert!(c.http.routers[0].1.tls.is_none());
    assert_eq!(c.http.services[0].1.load_balancer.servers[0].url, "http://app-1:3000");
}
