//! Caddy configuration generation

use vstd::prelude::*;
use crate::kv::pair_views;
use crate::proxy::ServiceConfig;
use crate::text::{nat_text, owned, u64_text};

verus! {

/// The `header` lines of a site block.
pub open spec fn header_lines(hs: Seq<(Seq<char>, Seq<char>)>) -> Seq<char>
    decreases hs.len(),
{
    if hs.len() == 0 {
        seq![]
    } else {
        header_lines(hs.drop_last()) + "    header "@ + hs.last().0 + " \""@ + hs.last().1 + "\"\n"@
    }
}

/// The opening of a site block: the domain, the reverse proxy to the
/// container's port and, for HTTPS, on-demand TLS.
pub open spec fn site_head(s: ServiceConfig) -> Seq<char> {
    s.domain@ + " {\n"@ + "    reverse_proxy "@ + s.container_name@ + ":"@ + nat_text(s.port as nat)
        + "\n"@ + (if s.https {
        "    tls {\n"@ + "        on_demand\n"@ + "    }\n"@
    } else {
        Seq::<char>::empty()
    })
}

/// The close of a site block: the redirect from `www.` when asked.
pub open spec fn site_tail(s: ServiceConfig) -> Seq<char> {
    (if s.www_redirect {
        "    @www host www."@ + s.domain@ + "\n"@ + "    redir @www "@ + (if s.https {
            "https"@
        } else {
            "http"@
        }) + "://{}{}\n"@
    } else {
        Seq::<char>::empty()
    }) + "}\n\n"@
}

/// The site block of one service: its opening, its `header` lines and its
/// close.
pub open spec fn site_block(s: ServiceConfig) -> Seq<char> {
    site_head(s) + header_lines(pair_views(s.headers@)) + site_tail(s)
}

/// The Caddyfile of a list of services: their blocks in order.
pub open spec fn caddyfile(ss: Seq<ServiceConfig>) -> Seq<char>
    decreases ss.len(),
{
    if ss.len() == 0 {
        seq![]
    } else {
        caddyfile(ss.drop_last()) + site_block(ss.last())
    }
}

/// Law: a Caddyfile is the Caddyfile of its first services followed by
/// that of the rest; no services give the empty file. Each service adds
/// one block of its own, in order.
pub proof fn law_caddyfile_concat(a: Seq<ServiceConfig>, b: Seq<ServiceConfig>)
    ensures
        caddyfile(a + b) == caddyfile(a) + caddyfile(b),
        caddyfile(Seq::<ServiceConfig>::empty()) == Seq::<char>::empty(),
    decreases b.len(),
{
    if b.len() == 0 {
        assert(a + b =~= a);
        assert(caddyfile(a) + caddyfile(b) =~= caddyfile(a));
    } else {
        law_caddyfile_concat(a, b.drop_last());
        assert((a + b).drop_last() =~= a + b.drop_last());
        assert((a + b).last() == b.last());
        assert(caddyfile(a + b) =~= caddyfile(a) + caddyfile(b));
    }
}

fn append_head(config: &mut String, svc: &ServiceConfig)
    ensures
        final(config)@ == old(config)@ + site_head(*svc),
{
    let ghost start = config@;
    config.append(svc.domain.as_str());
    config.append(" {\n");
    config.append("    reverse_proxy ");
    config.append(svc.container_name.as_str());
    config.append(":");
    let p = u64_text(svc.port as u64);
    config.append(p.as_str());
    config.append("\n");
    if svc.https {
        config.append("    tls {\n");
        config.append("        on_demand\n");
        config.append("    }\n");
    }
    assert(config@ =~= start + site_head(*svc));
}

fn append_headers(config: &mut String, headers: &Vec<(String, String)>)
    ensures
        final(config)@ == old(config)@ + header_lines(pair_views(headers@)),
{
    let ghost before_headers = config@;
    let mut i: usize = 0;
    while i < headers.len()
        invariant
            i <= headers@.len(),
            config@ == before_headers + header_lines(pair_views(headers@).take(i as int)),
        decreases headers@.len() - i,
    {
        assert(pair_views(headers@).take(i + 1).drop_last() =~= pair_views(headers@).take(
            i as int,
        ));
        config.append("    header ");
        config.append(headers[i].0.as_str());
        config.append(" \"");
        config.append(headers[i].1.as_str());
        config.append("\"\n");
        i = i + 1;
    }
    assert(pair_views(headers@).take(headers@.len() as int) =~= pair_views(headers@));
}

fn append_tail(config: &mut String, svc: &ServiceConfig)
    ensures
        final(config)@ == old(config)@ + site_tail(*svc),
{
    let ghost start = config@;
    if svc.www_redirect {
        config.append("    @www host www.");
        config.append(svc.domain.as_str());
        config.append("\n");
        config.append("    redir @www ");
        if svc.https {
            config.append("https");
        } else {
            config.append("http");
        }
        config.append("://{}{}\n");
    }
    config.append("}\n\n");
    assert(config@ =~= start + site_tail(*svc));
}

fn append_block(config: &mut String, svc: &ServiceConfig)
    ensures
        final(config)@ == old(config)@ + site_block(*svc),
{
    let ghost start = config@;
    append_head(config, svc);
    append_headers(config, &svc.headers);
    append_tail(config, svc);
    assert(config@ =~= start + site_block(*svc));
}

/// Generate Caddyfile configuration
pub fn generate(services: &[ServiceConfig]) -> (r: String)
    ensures
        r@ == caddyfile(services@),
{
    let mut config = String::new();
    let mut i: usize = 0;
    while i < services.len()
        invariant
            i <= services@.len(),
            config@ == caddyfile(services@.take(i as int)),
        decreases services@.len() - i,
    {
        assert(services@.take(i + 1).drop_last() =~= services@.take(i as int));
        append_block(&mut config, &services[i]);
        i = i + 1;
    }
    assert(services@.take(services@.len() as int) =~= services@);
    config
}

/// One route of Caddy's JSON configuration: the host it matches and the
/// upstream it dials.
#[derive(Debug, Clone)]
pub struct CaddyRoute {
    pub host: String,
    pub dial: String,
}

/// The routes of Caddy's JSON configuration, one per service in order:
/// the service's domain, dialling `container:port`.
pub fn json_routes(services: &[ServiceConfig]) -> (r: Vec<CaddyRoute>)
    ensures
        r@.len() == services@.len(),
        forall|i: int|
            0 <= i < r@.len() ==> (#[trigger] r@[i]).host@ == services@[i].domain@ && r@[i].dial@
                == services@[i].container_name@ + ":"@ + nat_text(services@[i].port as nat),
{
    let mut r: Vec<CaddyRoute> = Vec::new();
    let mut i: usize = 0;
    while i < services.len()
        invariant
            i <= services@.len(),
            r@.len() == i,
            forall|k: int|
                0 <= k < i ==> (#[trigger] r@[k]).host@ == services@[k].domain@ && r@[k].dial@
                    == services@[k].container_name@ + ":"@ + nat_text(services@[k].port as nat),
        decreases services@.len() - i,
    {
        let svc = &services[i];
        let mut dial = svc.container_name.clone();
        dial.append(":");
        let p = u64_text(svc.port as u64);
        dial.append(p.as_str());
        r.push(CaddyRoute { host: svc.domain.clone(), dial });
        i = i + 1;
    }
    r
}

} // verus!
