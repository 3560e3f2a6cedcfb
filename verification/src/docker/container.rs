//! Container operations

use vstd::prelude::*;
use crate::kv::{flag_pairs, pair_views, push_flag_pairs, push_word};
use crate::text::{digit_char, digit_exec, join, join_exec, nat_text, owned, push_char, texts, u64_text};

verus! {

/// A published port.
#[derive(Debug, Clone)]
pub struct PortBinding {
    pub container_port: u16,
    pub host_port: Option<u16>,
    pub protocol: Protocol,
}

#[derive(Debug, Clone, Copy, PartialEq, Eq, Structural)]
pub enum Protocol {
    Tcp,
    Udp,
}

/// A mount from a host path or named volume into the container.
#[derive(Debug, Clone)]
pub struct VolumeMount {
    pub source: String,
    pub target: String,
    pub read_only: bool,
}

#[derive(Debug, Clone, Copy, PartialEq, Eq, Structural)]
pub enum RestartPolicy {
    No,
    Always,
    OnFailure,
    UnlessStopped,
}

impl Default for RestartPolicy {
    fn default() -> (r: Self)
        ensures
            r == RestartPolicy::No,
    {
        RestartPolicy::No
    }
}

/// Resource limits. CPU amounts are in thousandths of a CPU.
#[derive(Debug, Clone)]
pub struct ResourceConfig {
    pub memory_limit: Option<u64>,
    pub memory_reservation: Option<u64>,
    pub cpu_limit_millis: Option<u64>,
    pub cpu_reservation_millis: Option<u64>,
}

impl Default for ResourceConfig {
    fn default() -> (r: Self)
        ensures
            r.memory_limit is None && r.memory_reservation is None && r.cpu_limit_millis is None
                && r.cpu_reservation_millis is None,
    {
        ResourceConfig {
            memory_limit: None,
            memory_reservation: None,
            cpu_limit_millis: None,
            cpu_reservation_millis: None,
        }
    }
}

/// Container run configuration
#[derive(Debug, Clone)]
pub struct ContainerConfig {
    pub name: String,
    pub image: String,
    pub ports: Vec<PortBinding>,
    pub volumes: Vec<VolumeMount>,
    pub environment: Vec<(String, String)>,
    pub labels: Vec<(String, String)>,
    pub network: Option<String>,
    pub restart_policy: RestartPolicy,
    pub resources: ResourceConfig,
}

pub open spec fn protocol_name(p: Protocol) -> Seq<char> {
    match p {
        Protocol::Tcp => "tcp"@,
        Protocol::Udp => "udp"@,
    }
}

/// Law: a published port's `-p` word names the protocol of its binding:
/// it ends in `/udp` exactly for a UDP binding and in `/tcp` exactly for a
/// TCP one; the protocols print as `tcp` and `udp`, never alike.
pub proof fn law_port_word_protocol(b: PortBinding, hp: u16)
    requires
        b.host_port == Some(hp),
    ensures
        port_words(seq![b]).len() == 2,
        port_words(seq![b])[0] == "-p"@,
        crate::text::ends_with(port_words(seq![b])[1], "/udp"@) <==> b.protocol == Protocol::Udp,
        crate::text::ends_with(port_words(seq![b])[1], "/tcp"@) <==> b.protocol == Protocol::Tcp,
        protocol_name(Protocol::Tcp) == "tcp"@,
        protocol_name(Protocol::Udp) == "udp"@,
        protocol_name(Protocol::Tcp) != protocol_name(Protocol::Udp),
{
    reveal_strlit("/udp");
    reveal_strlit("/tcp");
    reveal_strlit("/");
    reveal_strlit("udp");
    reveal_strlit("tcp");
    let s = seq![b];
    assert(s.drop_last() =~= Seq::<PortBinding>::empty());
    assert(s.last() == b);
    let w = nat_text(hp as nat) + ":"@ + nat_text(b.container_port as nat) + "/"@ + protocol_name(
        b.protocol,
    );
    assert(port_words(s.drop_last()).len() == 0);
    assert(port_words(s) == port_words(s.drop_last()) + seq!["-p"@, w]);
    assert(port_words(s) =~= seq!["-p"@, w]);
    let n = w.len();
    assert(w.skip(n - 4) =~= "/"@ + protocol_name(b.protocol));
    assert(("/"@ + "udp"@) =~= "/udp"@);
    assert(("/"@ + "tcp"@) =~= "/tcp"@);
    assert("/udp"@[1] != "/tcp"@[1]);
    assert("udp"@[0] != "tcp"@[0]);
}

pub open spec fn restart_name(p: RestartPolicy) -> Seq<char> {
    match p {
        RestartPolicy::No => "no"@,
        RestartPolicy::Always => "always"@,
        RestartPolicy::OnFailure => "on-failure"@,
        RestartPolicy::UnlessStopped => "unless-stopped"@,
    }
}

/// The `-p` words of the bindings that name a host port: `host:container/proto`.
pub open spec fn port_words(ps: Seq<PortBinding>) -> Seq<Seq<char>>
    decreases ps.len(),
{
    if ps.len() == 0 {
        seq![]
    } else {
        let b = ps.last();
        port_words(ps.drop_last()) + match b.host_port {
            Some(hp) => seq![
                "-p"@,
                nat_text(hp as nat) + ":"@ + nat_text(b.container_port as nat) + "/"@
                    + protocol_name(b.protocol),
            ],
            None => Seq::<Seq<char>>::empty(),
        }
    }
}

/// The `-v` words of the mounts: `source:target`, with `:ro` when read-only.
pub open spec fn mount_words(vs: Seq<VolumeMount>) -> Seq<Seq<char>>
    decreases vs.len(),
{
    if vs.len() == 0 {
        seq![]
    } else {
        let m = vs.last();
        mount_words(vs.drop_last()) + seq![
            "-v"@,
            if m.read_only {
                m.source@ + ":"@ + m.target@ + ":ro"@
            } else {
                m.source@ + ":"@ + m.target@
            },
        ]
    }
}

/// Three decimal digits of `f` (below 1000) without trailing zeros.
pub open spec fn fraction_text(f: nat) -> Seq<char> {
    let d1 = digit_char(f / 100);
    let d2 = digit_char((f / 10) % 10);
    let d3 = digit_char(f % 10);
    if f % 100 == 0 {
        seq![d1]
    } else if f % 10 == 0 {
        seq![d1, d2]
    } else {
        seq![d1, d2, d3]
    }
}

/// The shortest decimal text of `m` thousandths: `1.5`, `0.25`, `2`.
pub open spec fn millis_text(m: nat) -> Seq<char> {
    if m % 1000 == 0 {
        nat_text(m / 1000)
    } else {
        nat_text(m / 1000) + "."@ + fraction_text(m % 1000)
    }
}

/// The words of `docker run -d` for a configuration.
pub open spec fn run_words(c: ContainerConfig) -> Seq<Seq<char>> {
    seq!["docker"@, "run"@, "-d"@, "--name"@, c.name@] + port_words(c.ports@) + mount_words(
        c.volumes@,
    ) + flag_pairs("-e"@, pair_views(c.environment@)) + flag_pairs(
        "--label"@,
        pair_views(c.labels@),
    ) + match c.network {
        Some(n) => seq!["--network"@, n@],
        None => Seq::<Seq<char>>::empty(),
    } + seq!["--restart"@, restart_name(c.restart_policy)] + match c.resources.memory_limit {
        Some(m) => seq!["--memory"@, nat_text(m as nat / 1024 / 1024) + "m"@],
        None => Seq::<Seq<char>>::empty(),
    } + match c.resources.cpu_limit_millis {
        Some(m) => seq!["--cpus"@, millis_text(m as nat)],
        None => Seq::<Seq<char>>::empty(),
    } + seq![c.image@]
}

fn protocol_str(p: Protocol) -> (r: &'static str)
    ensures
        r@ == protocol_name(p),
{
    match p {
        Protocol::Tcp => "tcp",
        Protocol::Udp => "udp",
    }
}

fn restart_str(p: RestartPolicy) -> (r: &'static str)
    ensures
        r@ == restart_name(p),
{
    match p {
        RestartPolicy::No => "no",
        RestartPolicy::Always => "always",
        RestartPolicy::OnFailure => "on-failure",
        RestartPolicy::UnlessStopped => "unless-stopped",
    }
}

/// The decimal text of `m` thousandths.
pub fn millis_text_exec(m: u64) -> (r: String)
    ensures
        r@ == millis_text(m as nat),
{
    let mut r = u64_text(m / 1000);
    let f = m % 1000;
    if f != 0 {
        r.append(".");
        let ghost before = r@;
        push_char(&mut r, digit_exec(f / 100));
        if f % 100 != 0 {
            push_char(&mut r, digit_exec((f / 10) % 10));
            if f % 10 != 0 {
                push_char(&mut r, digit_exec(f % 10));
            }
        }
        assert(r@ =~= before + fraction_text(f as nat));
    }
    r
}

fn push_ports(words: &mut Vec<String>, ps: &Vec<PortBinding>)
    ensures
        texts(final(words)@) == texts(old(words)@) + port_words(ps@),
{
    let ghost start = texts(words@);
    let mut i: usize = 0;
    while i < ps.len()
        invariant
            i <= ps.len(),
            texts(words@) == start + port_words(ps@.take(i as int)),
        decreases ps.len() - i,
    {
        assert(ps@.take(i + 1).drop_last() =~= ps@.take(i as int));
        let b = &ps[i];
        match b.host_port {
            Some(hp) => {
                push_word(words, "-p");
                let mut t = u64_text(hp as u64);
                t.append(":");
                let c = u64_text(b.container_port as u64);
                t.append(c.as_str());
                t.append("/");
                t.append(protocol_str(b.protocol));
                push_word(words, t.as_str());
            },
            None => {},
        }
        i = i + 1;
    }
    assert(ps@.take(ps@.len() as int) =~= ps@);
}

fn push_mounts(words: &mut Vec<String>, vs: &Vec<VolumeMount>)
    ensures
        texts(final(words)@) == texts(old(words)@) + mount_words(vs@),
{
    let ghost start = texts(words@);
    let mut i: usize = 0;
    while i < vs.len()
        invariant
            i <= vs.len(),
            texts(words@) == start + mount_words(vs@.take(i as int)),
        decreases vs.len() - i,
    {
        assert(vs@.take(i + 1).drop_last() =~= vs@.take(i as int));
        let m = &vs[i];
        push_word(words, "-v");
        let mut t = m.source.clone();
        t.append(":");
        t.append(m.target.as_str());
        if m.read_only {
            t.append(":ro");
        }
        push_word(words, t.as_str());
        i = i + 1;
    }
    assert(vs@.take(vs@.len() as int) =~= vs@);
}

impl ContainerConfig {
    /// Generate docker run command from config
    pub fn to_docker_run_command(&self) -> (r: String)
        ensures
            r@ == join(run_words(*self), " "@),
    {
        let mut cmd: Vec<String> = Vec::new();
        push_word(&mut cmd, "docker");
        push_word(&mut cmd, "run");
        push_word(&mut cmd, "-d");
        push_word(&mut cmd, "--name");
        push_word(&mut cmd, self.name.as_str());
        push_ports(&mut cmd, &self.ports);
        push_mounts(&mut cmd, &self.volumes);
        push_flag_pairs(&mut cmd, "-e", &self.environment);
        push_flag_pairs(&mut cmd, "--label", &self.labels);
        match &self.network {
            Some(n) => {
                push_word(&mut cmd, "--network");
                push_word(&mut cmd, n.as_str());
            },
            None => {},
        }
        push_word(&mut cmd, "--restart");
        push_word(&mut cmd, restart_str(self.restart_policy));
        match self.resources.memory_limit {
            Some(mem) => {
                push_word(&mut cmd, "--memory");
                let mut t = u64_text(mem / 1024 / 1024);
                t.append("m");
                push_word(&mut cmd, t.as_str());
            },
            None => {},
        }
        match self.resources.cpu_limit_millis {
            Some(m) => {
                push_word(&mut cmd, "--cpus");
                let t = millis_text_exec(m);
                push_word(&mut cmd, t.as_str());
            },
            None => {},
        }
        push_word(&mut cmd, self.image.as_str());
        assert(texts(cmd@) =~= run_words(*self));
        join_exec(&cmd, " ")
    }
}

} // verus!
