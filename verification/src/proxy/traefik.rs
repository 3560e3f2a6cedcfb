//! Traefik configuration generation: the dynamic configuration's routers
//! and services, and the labels that configure a container.

use vstd::prelude::*;
use crate::kv::concat;
use crate::proxy::ServiceConfig;
use crate::text::{nat_text, owned, u64_text};

verus! {

/// TLS settings of a router.
#[derive(Debug, Clone)]
pub struct TlsConfig {
    pub cert_resolver: String,
}

/// A router: the rule it matches, the service it serves and its entry
/// points.
#[derive(Debug, Clone)]
pub struct Router {
    pub rule: String,
    pub service: String,
    pub entry_points: Vec<String>,
    pub tls: Option<TlsConfig>,
    pub middlewares: Vec<String>,
}

/// A load-balanced service.
#[derive(Debug, Clone)]
pub struct Service {
    pub load_balancer: LoadBalancer,
}

#[derive(Debug, Clone)]
pub struct LoadBalancer {
    pub servers: Vec<BackendServer>,
}

/// One backend of a service.
#[derive(Debug, Clone)]
pub struct BackendServer {
    pub url: String,
}

/// The HTTP section of the dynamic configuration: routers and services by
/// name.
#[derive(Debug, Clone)]
pub struct HttpConfig {
    pub routers: Vec<(String, Router)>,
    pub services: Vec<(String, Service)>,
}

/// Traefik's dynamic configuration.
#[derive(Debug, Clone)]
pub struct TraefikConfig {
    pub http: HttpConfig,
}

/// `Host(`domain`)`.
pub open spec fn host_rule(domain: Seq<char>) -> Seq<char> {
    "Host(`"@ + domain + "`)"@
}

/// What the configuration says of one service: the router named
/// `<name>-router` matches the domain on `websecure` with Let's Encrypt
/// (HTTPS) or on `web`, and serves `<name>-service`, which balances to
/// `http://container:port`.
pub open spec fn describes(c: TraefikConfig, i: int, s: ServiceConfig) -> bool {
    let (rname, r) = c.http.routers@[i];
    let (sname, v) = c.http.services@[i];
    &&& rname@ == s.name@ + "-router"@
    &&& sname@ == s.name@ + "-service"@
    &&& r.rule@ == host_rule(s.domain@)
    &&& r.service@ == s.name@ + "-service"@
    &&& r.entry_points@.len() == 1
    &&& r.entry_points@[0]@ == (if s.https {
        "websecure"@
    } else {
        "web"@
    })
    &&& (if s.https {
        r.tls matches Some(t) && t.cert_resolver@ == "letsencrypt"@
    } else {
        r.tls is None
    })
    &&& r.middlewares@.len() == 0
    &&& v.load_balancer.servers@.len() == 1
    &&& v.load_balancer.servers@[0].url@ == "http://"@ + s.container_name@ + ":"@ + nat_text(
        s.port as nat,
    )
}

/// The dynamic configuration of a list of services: one router and one
/// service per service, in order.
pub fn config_model(services: &[ServiceConfig]) -> (c: TraefikConfig)
    ensures
        c.http.routers@.len() == services@.len(),
        c.http.services@.len() == services@.len(),
        forall|i: int| 0 <= i < services@.len() ==> describes(c, i, #[trigger] services@[i]),
{
    let mut routers: Vec<(String, Router)> = Vec::new();
    let mut svcs: Vec<(String, Service)> = Vec::new();
    let mut i: usize = 0;
    while i < services.len()
        invariant
            i <= services@.len(),
            routers@.len() == i,
            svcs@.len() == i,
            forall|k: int|
                0 <= k < i ==> describes(
                    TraefikConfig { http: HttpConfig { routers, services: svcs } },
                    k,
                    #[trigger] services@[k],
                ),
        decreases services@.len() - i,
    {
        let svc = &services[i];
        let router_name = concat(svc.name.as_str(), "-router");
        let service_name = concat(svc.name.as_str(), "-service");
        let mut entry_points: Vec<String> = Vec::new();
        let tls = if svc.https {
            entry_points.push(owned("websecure"));
            Some(TlsConfig { cert_resolver: owned("letsencrypt") })
        } else {
            entry_points.push(owned("web"));
            None
        };
        let mut rule = owned("Host(`");
        rule.append(svc.domain.as_str());
        rule.append("`)");
        let mut url = owned("http://");
        url.append(svc.container_name.as_str());
        url.append(":");
        let p = u64_text(svc.port as u64);
        url.append(p.as_str());
        let mut servers: Vec<BackendServer> = Vec::new();
        servers.push(BackendServer { url });
        let ghost old_routers = routers@;
        let ghost old_svcs = svcs@;
        routers.push(
            (
                router_name,
                Router {
                    rule,
                    service: service_name.clone(),
                    entry_points,
                    tls,
                    middlewares: Vec::new(),
                },
            ),
        );
        svcs.push((service_name, Service { load_balancer: LoadBalancer { servers } }));
        assert forall|k: int| 0 <= k < i + 1 implies describes(
            TraefikConfig { http: HttpConfig { routers, services: svcs } },
            k,
            #[trigger] services@[k],
        ) by {
            if k < i {
                assert(routers@[k] == old_routers[k]);
                assert(svcs@[k] == old_svcs[k]);
            }
        }
        i = i + 1;
    }
    TraefikConfig { http: HttpConfig { routers, services: svcs } }
}

/// The labels that configure Traefik for a container: enabled, the host
/// rule, the service's port, and the entry point (with Let's Encrypt for
/// HTTPS).
pub open spec fn traefik_labels(s: ServiceConfig) -> Seq<(Seq<char>, Seq<char>)> {
    seq![
        ("traefik.enable"@, "true"@),
        ("traefik.http.routers."@ + s.name@ + ".rule"@, host_rule(s.domain@)),
        (
            "traefik.http.services."@ + s.name@ + ".loadbalancer.server.port"@,
            nat_text(s.port as nat),
        ),
    ] + if s.https {
        seq![
            ("traefik.http.routers."@ + s.name@ + ".entrypoints"@, "websecure"@),
            ("traefik.http.routers."@ + s.name@ + ".tls.certresolver"@, "letsencrypt"@),
        ]
    } else {
        seq![("traefik.http.routers."@ + s.name@ + ".entrypoints"@, "web"@)]
    }
}

/// Law: a service's labels and its router in the dynamic configuration
/// agree on the entry point: the `entrypoints` label names the router's
/// single entry point, and it names `websecure` exactly when the labels
/// also carry a certificate resolver, the one the router's TLS names. The
/// labels enable Traefik, carry the router's rule, and give the port that
/// ends the URL of the service's backend.
pub proof fn law_entrypoint_label_matches_router(c: TraefikConfig, i: int, s: ServiceConfig)
    requires
        0 <= i < c.http.routers@.len(),
        0 <= i < c.http.services@.len(),
        describes(c, i, s),
    ensures
        traefik_labels(s).len() >= 4,
        traefik_labels(s)[3].0 == "traefik.http.routers."@ + s.name@ + ".entrypoints"@,
        traefik_labels(s)[3].1 == c.http.routers@[i].1.entry_points@[0]@,
        traefik_labels(s)[3].1 == "websecure"@ <==> (traefik_labels(s).len() == 5
            && traefik_labels(s)[4].0 == "traefik.http.routers."@ + s.name@ + ".tls.certresolver"@),
        (traefik_labels(s)[3].1 == "websecure"@) == c.http.routers@[i].1.tls is Some,
        traefik_labels(s)[0] == ("traefik.enable"@, "true"@),
        traefik_labels(s)[1].1 == c.http.routers@[i].1.rule@,
        c.http.services@[i].1.load_balancer.servers@[0].url@ == "http://"@ + s.container_name@
            + ":"@ + traefik_labels(s)[2].1,
        c.http.routers@[i].1.tls matches Some(t) ==> traefik_labels(s).len() == 5
            && traefik_labels(s)[4].1 == t.cert_resolver@,
{
    reveal_strlit("web");
    reveal_strlit("websecure");
    assert("web"@.len() != "websecure"@.len());
}

fn named(prefix: &str, name: &String, suffix: &str) -> (r: String)
    ensures
        r@ == prefix@ + name@ + suffix@,
{
    let mut r = owned(prefix);
    r.append(name.as_str());
    r.append(suffix);
    r
}

/// Generate Traefik labels for a container
pub fn generate_labels(svc: &ServiceConfig) -> (r: Vec<(String, String)>)
    ensures
        crate::kv::pair_views(r@) == traefik_labels(*svc),
{
    let mut labels: Vec<(String, String)> = Vec::new();
    labels.push((owned("traefik.enable"), owned("true")));
    let mut rule = owned("Host(`");
    rule.append(svc.domain.as_str());
    rule.append("`)");
    labels.push((named("traefik.http.routers.", &svc.name, ".rule"), rule));
    labels.push(
        (
            named("traefik.http.services.", &svc.name, ".loadbalancer.server.port"),
            u64_text(svc.port as u64),
        ),
    );
    if svc.https {
        labels.push((named("traefik.http.routers.", &svc.name, ".entrypoints"), owned("websecure")));
        labels.push(
            (named("traefik.http.routers.", &svc.name, ".tls.certresolver"), owned("letsencrypt")),
        );
    } else {
        labels.push((named("traefik.http.routers.", &svc.name, ".entrypoints"), owned("web")));
    }
    assert(crate::kv::pair_views(labels@) =~= traefik_labels(*svc));
    labels
}

} // verus!
