//! Container status: parsing `docker ps` output into container records.

use vstd::prelude::*;
use crate::text::{
    chars_of, contains, equals, find, find_from_exec, has_char_exec, lemma_find_from_bounds,
    ascii_lower, is_ascii, lines, lines_exec, lower_chars, lowercase, owned, parse_i32, parse_signed, parse_u16,
    parse_unsigned, split, split_char, split_from, split_str, starts_with, starts_with_str,
    seq_equal, string_from, sub_vec, trim, trim_exec, views, contains_str,
};
use crate::ids::{now_millis, parse_id, uuid_parse};

verus! {

/// The state of a container as Docker reports it.
#[derive(Clone, Copy, Debug, PartialEq, Eq, Structural)]
pub enum ContainerState {
    Created,
    Running,
    Paused,
    Restarting,
    Removing,
    Exited,
    Dead,
}

impl ContainerState {
    /// The lower-case name of the state.
    pub fn as_str(&self) -> (r: &'static str)
        ensures
            r@ == state_name(*self),
    {
        match self {
            ContainerState::Created => "created",
            ContainerState::Running => "running",
            ContainerState::Paused => "paused",
            ContainerState::Restarting => "restarting",
            ContainerState::Removing => "removing",
            ContainerState::Exited => "exited",
            ContainerState::Dead => "dead",
        }
    }

    /// Whether the container is running.
    pub fn is_running(&self) -> (b: bool)
        ensures
            b == (*self == ContainerState::Running),
    {
        match self {
            ContainerState::Running => true,
            _ => false,
        }
    }
}

/// The lower-case name of a state.
pub open spec fn state_name(s: ContainerState) -> Seq<char> {
    match s {
        ContainerState::Created => "created"@,
        ContainerState::Running => "running"@,
        ContainerState::Paused => "paused"@,
        ContainerState::Restarting => "restarting"@,
        ContainerState::Removing => "removing"@,
        ContainerState::Exited => "exited"@,
        ContainerState::Dead => "dead"@,
    }
}

/// The state that a lower-cased state word names; unknown words are `Dead`.
pub open spec fn state_named(l: Seq<char>) -> ContainerState {
    if l == "created"@ {
        ContainerState::Created
    } else if l == "running"@ {
        ContainerState::Running
    } else if l == "paused"@ {
        ContainerState::Paused
    } else if l == "restarting"@ {
        ContainerState::Restarting
    } else if l == "removing"@ {
        ContainerState::Removing
    } else if l == "exited"@ {
        ContainerState::Exited
    } else {
        ContainerState::Dead
    }
}

/// Law: reading a state word back. Each state's name is ASCII and already
/// lower case, so it reads as that state; an ASCII text that lower-cases to
/// a state's name (`RUNNING`, `Running`) reads as that state; an ASCII
/// text that lower-cases to no state's name reads as `Dead`. With
/// `parse_state`'s contract this is what `parse_state` does.
pub proof fn law_state_names_read_back(st: ContainerState, s: Seq<char>)
    requires
        is_ascii(s),
    ensures
        is_ascii(state_name(st)),
        ascii_lower(state_name(st)) == state_name(st),
        state_named(state_name(st)) == st,
        ascii_lower(s) == state_name(st) ==> state_named(ascii_lower(s)) == st,
        (forall|x: ContainerState| ascii_lower(s) != #[trigger] state_name(x)) ==> state_named(
            ascii_lower(s),
        ) == ContainerState::Dead,
{
    reveal_strlit("created");
    reveal_strlit("running");
    reveal_strlit("paused");
    reveal_strlit("restarting");
    reveal_strlit("removing");
    reveal_strlit("exited");
    reveal_strlit("dead");
    assert("created"@.len() == 7 && "created"@[0] == 'c');
    assert("running"@.len() == 7 && "running"@[0] == 'r');
    assert("paused"@.len() == 6 && "paused"@[0] == 'p');
    assert("restarting"@.len() == 10 && "restarting"@[0] == 'r');
    assert("removing"@.len() == 8 && "removing"@[0] == 'r');
    assert("exited"@.len() == 6 && "exited"@[0] == 'e');
    assert("dead"@.len() == 4 && "dead"@[0] == 'd');
    let n = state_name(st);
    assert(ascii_lower(n) =~= n);
    if (forall|x: ContainerState| ascii_lower(s) != #[trigger] state_name(x)) {
        assert(ascii_lower(s) != state_name(ContainerState::Created));
        assert(ascii_lower(s) != state_name(ContainerState::Running));
        assert(ascii_lower(s) != state_name(ContainerState::Paused));
        assert(ascii_lower(s) != state_name(ContainerState::Restarting));
        assert(ascii_lower(s) != state_name(ContainerState::Removing));
        assert(ascii_lower(s) != state_name(ContainerState::Exited));
    }
}

/// Health of a container with a health check.
#[derive(Clone, Copy, Debug, PartialEq, Eq, Structural)]
pub enum HealthStatus {
    Starting,
    Healthy,
    Unhealthy,
    /// No health check is configured (`HealthStatus::None` in the wire format)
    NoHealthCheck,
}

/// The health that a lower-cased status text reports.
pub open spec fn health_named(l: Seq<char>) -> Option<HealthStatus> {
    if contains(l, "(healthy)"@) {
        Some(HealthStatus::Healthy)
    } else if contains(l, "(unhealthy)"@) {
        Some(HealthStatus::Unhealthy)
    } else if contains(l, "(health: starting)"@) {
        Some(HealthStatus::Starting)
    } else {
        None
    }
}

/// Law: what the status text must show for each health. A status reads
/// as healthy only when it shows `(healthy)`, and whenever it does; one
/// that shows `(unhealthy)` but not `(healthy)` reads as unhealthy, and
/// reads so only when it shows `(unhealthy)`; one that shows neither reads
/// as starting or as no health at all.
pub proof fn law_health_words(l: Seq<char>)
    ensures
        health_named(l) == Some(HealthStatus::Healthy) <==> contains(l, "(healthy)"@),
        contains(l, "(unhealthy)"@) && !contains(l, "(healthy)"@) ==> health_named(l) == Some(
            HealthStatus::Unhealthy,
        ),
        health_named(l) == Some(HealthStatus::Unhealthy) ==> contains(l, "(unhealthy)"@),
        !contains(l, "(healthy)"@) && !contains(l, "(unhealthy)"@) ==> (health_named(l) is None
            || health_named(l) == Some(HealthStatus::Starting)),
        !contains(l, "(healthy)"@) && !contains(l, "(unhealthy)"@) && contains(
            l,
            "(health: starting)"@,
        ) ==> health_named(l) == Some(HealthStatus::Starting),
        health_named(l) == Some(HealthStatus::Starting) ==> contains(l, "(health: starting)"@),
        health_named(l) is None ==> !contains(l, "(healthy)"@) && !contains(l, "(unhealthy)"@)
            && !contains(l, "(health: starting)"@),
{
}

/// Reading the exit code of `s` slices between a `(` and a `)` that comes
/// before it, which panics.
pub open spec fn exit_code_panics(s: Seq<char>) -> bool {
    &&& starts_with(lowercase(s), "exited"@)
    &&& find(s, seq!['(']) matches Some(a)
    &&& find(s, seq![')']) matches Some(b)
    &&& b < a
}

/// The exit code in a status such as `Exited (0) 2 hours ago`: the integer
/// between the first `(` and the first `)` of a status that starts with
/// `exited` in any case.
pub open spec fn exit_code_of(s: Seq<char>) -> Option<i32> {
    if starts_with(lowercase(s), "exited"@) {
        match (find(s, seq!['(']), find(s, seq![')'])) {
            (Some(a), Some(b)) => match parse_signed(
                s.subrange(a + 1, b),
                i32::MIN as int,
                i32::MAX as int,
            ) {
                Some(n) => Some(n as i32),
                None => None,
            },
            _ => None,
        }
    } else {
        None
    }
}

/// A published port.
#[derive(Clone, Debug)]
pub struct PortMapping {
    pub container_port: u16,
    pub host_port: Option<u16>,
    pub protocol: String,
}

/// A published port, as values.
pub struct PortView {
    pub container_port: u16,
    pub host_port: Option<u16>,
    pub protocol: Seq<char>,
}

impl View for PortMapping {
    type V = PortView;

    open spec fn view(&self) -> PortView {
        PortView {
            container_port: self.container_port,
            host_port: self.host_port,
            protocol: self.protocol@,
        }
    }
}

/// A number read as a `u16`, or `default` when it does not parse.
pub open spec fn u16_or(s: Seq<char>, default: nat) -> nat {
    match parse_unsigned(s, u16::MAX as nat) {
        Some(n) => n,
        None => default,
    }
}

/// The port that one entry of the ports column describes, such as
/// `0.0.0.0:8080->80/tcp` or `443/tcp`; entries whose container port is
/// missing or 0 describe none.
pub open spec fn port_of(pm: Seq<char>) -> Option<PortView> {
    if pm.len() == 0 {
        None
    } else {
        let arrow = contains(pm, "->"@);
        let parts = split(pm, "->"@);
        let host: Option<u16> = if arrow {
            match parse_unsigned(split(parts[0], seq![':']).last(), u16::MAX as nat) {
                Some(n) => Some(n as u16),
                None => None,
            }
        } else {
            None
        };
        let cpart = if arrow {
            if parts.len() > 1 {
                parts[1]
            } else {
                Seq::<char>::empty()
            }
        } else {
            pm
        };
        let sp = split(cpart, seq!['/']);
        let slash = cpart.contains('/');
        let cport = if slash {
            u16_or(sp[0], 0)
        } else {
            u16_or(cpart, 0)
        };
        let proto = if slash && sp.len() > 1 {
            sp[1]
        } else {
            "tcp"@
        };
        if cport > 0 {
            Some(PortView { container_port: cport as u16, host_port: host, protocol: proto })
        } else {
            None
        }
    }
}

/// The ports that a sequence of entries describes, in order.
pub open spec fn ports_from(pieces: Seq<Seq<char>>) -> Seq<PortView>
    decreases pieces.len(),
{
    if pieces.len() == 0 {
        seq![]
    } else {
        let rest = ports_from(pieces.drop_last());
        match port_of(pieces.last()) {
            Some(p) => rest.push(p),
            None => rest,
        }
    }
}

/// The ports of a ports column: its `, `-separated entries.
pub open spec fn ports_of(s: Seq<char>) -> Seq<PortView> {
    ports_from(split(s, ", "@))
}

/// The label that one `key=value` entry sets (split at the first `=`).
pub open spec fn label_of(piece: Seq<char>) -> Option<(Seq<char>, Seq<char>)> {
    match find(piece, seq!['=']) {
        Some(k) => Some((piece.take(k), piece.skip(k + 1))),
        None => None,
    }
}

/// The labels that a sequence of entries sets, in order.
pub open spec fn labels_from(pieces: Seq<Seq<char>>) -> Seq<(Seq<char>, Seq<char>)>
    decreases pieces.len(),
{
    if pieces.len() == 0 {
        seq![]
    } else {
        let rest = labels_from(pieces.drop_last());
        match label_of(pieces.last()) {
            Some(p) => rest.push(p),
            None => rest,
        }
    }
}

/// The labels of a labels column: its `,`-separated `key=value` entries.
pub open spec fn labels_of(s: Seq<char>) -> Seq<(Seq<char>, Seq<char>)> {
    labels_from(split(s, seq![',']))
}

/// The value of `key` among `labels`; a later entry overrides an earlier one.
pub open spec fn label_lookup(labels: Seq<(Seq<char>, Seq<char>)>, key: Seq<char>) -> Option<
    Seq<char>,
>
    decreases labels.len(),
{
    if labels.len() == 0 {
        None
    } else if labels.last().0 == key {
        Some(labels.last().1)
    } else {
        label_lookup(labels.drop_last(), key)
    }
}

/// The views of a sequence of label pairs.
pub open spec fn pair_views(v: Seq<(String, String)>) -> Seq<(Seq<char>, Seq<char>)> {
    v.map_values(|p: (String, String)| (p.0@, p.1@))
}

/// Container status information
#[derive(Clone, Debug)]
pub struct ContainerInfo {
    pub container_id: String,
    pub container_name: String,
    pub image: String,
    pub status: ContainerState,
    pub health: Option<HealthStatus>,
    /// Start time, milliseconds since the epoch
    pub started_at: Option<i64>,
    /// Finish time, milliseconds since the epoch
    pub finished_at: Option<i64>,
    pub exit_code: Option<i32>,
    pub ports: Vec<PortMapping>,
    /// Labels in the order read; a later pair overrides an earlier one with the same key
    pub labels: Vec<(String, String)>,
}

/// Container status information, as values.
pub struct ContainerInfoView {
    pub container_id: Seq<char>,
    pub container_name: Seq<char>,
    pub image: Seq<char>,
    pub status: ContainerState,
    pub health: Option<HealthStatus>,
    pub started_at: Option<i64>,
    pub finished_at: Option<i64>,
    pub exit_code: Option<i32>,
    pub ports: Seq<PortView>,
    pub labels: Seq<(Seq<char>, Seq<char>)>,
}

impl View for ContainerInfo {
    type V = ContainerInfoView;

    open spec fn view(&self) -> ContainerInfoView {
        ContainerInfoView {
            container_id: self.container_id@,
            container_name: self.container_name@,
            image: self.image@,
            status: self.status,
            health: self.health,
            started_at: self.started_at,
            finished_at: self.finished_at,
            exit_code: self.exit_code,
            ports: self.ports@.map_values(|p: PortMapping| p@),
            labels: pair_views(self.labels@),
        }
    }
}

/// The container that one line of `docker ps` output describes: lines that
/// are blank or have fewer than seven `|`-separated fields describe none.
pub open spec fn info_of(line: Seq<char>) -> Option<ContainerInfoView> {
    let parts = split(line, seq!['|']);
    if trim(line).len() == 0 || parts.len() < 7 {
        None
    } else {
        Some(
            ContainerInfoView {
                container_id: parts[0],
                container_name: parts[1],
                image: parts[2],
                status: state_named(lowercase(parts[3])),
                health: health_named(lowercase(parts[4])),
                started_at: None,
                finished_at: None,
                exit_code: exit_code_of(parts[4]),
                ports: ports_of(parts[5]),
                labels: labels_of(parts[6]),
            },
        )
    }
}

/// Reading the line panics (its status field does).
pub open spec fn line_panics(line: Seq<char>) -> bool {
    let parts = split(line, seq!['|']);
    trim(line).len() != 0 && parts.len() >= 7 && exit_code_panics(parts[4])
}

/// The containers that a sequence of lines describes, in order.
pub open spec fn infos_from(ls: Seq<Seq<char>>) -> Seq<ContainerInfoView>
    decreases ls.len(),
{
    if ls.len() == 0 {
        seq![]
    } else {
        let rest = infos_from(ls.drop_last());
        match info_of(ls.last()) {
            Some(c) => rest.push(c),
            None => rest,
        }
    }
}

/// The containers that `docker ps` output describes.
pub open spec fn ps_output(output: Seq<char>) -> Seq<ContainerInfoView> {
    infos_from(lines(output))
}

/// Reading `docker ps` output panics on one of its lines.
pub open spec fn ps_output_panics(output: Seq<char>) -> bool {
    exists|i: int| 0 <= i < lines(output).len() && line_panics(#[trigger] lines(output)[i])
}

pub proof fn lemma_split_nonempty(s: Seq<char>, p: Seq<char>, pos: int)
    ensures
        split_from(s, p, pos).len() >= 1,
{
    reveal_with_fuel(split_from, 2);
}

/// Context for the container status job
#[derive(Clone, Debug)]
pub struct ContainerStatusContext {
    pub server_id: u128,
    /// Only check containers matching these labels (if specified)
    pub label_filter: Option<String>,
}

/// Result of checking container status
#[derive(Debug)]
pub struct ContainerStatusResult {
    pub server_id: u128,
    pub containers: Vec<ContainerInfo>,
    pub running_count: usize,
    pub total_count: usize,
    /// Milliseconds since the epoch
    pub checked_at: i64,
    /// Containers that changed state since last check
    pub state_changes: Vec<ContainerStateChange>,
}

/// A container whose state changed since the last check.
#[derive(Debug)]
pub struct ContainerStateChange {
    pub container_id: String,
    pub container_name: String,
    pub previous_state: Option<ContainerState>,
    pub current_state: ContainerState,
    pub resource_type: Option<String>,
    pub resource_id: Option<u128>,
}

/// The `docker ps` format that the parser reads.
pub open spec fn ps_format() -> Seq<char> {
    "{{.ID}}|{{.Names}}|{{.Image}}|{{.State}}|{{.Status}}|{{.Ports}}|{{.Labels}}"@
}

/// The `docker ps` command for a context: all containers in the parser's
/// format, restricted to a label when one is given.
pub open spec fn ps_command(label_filter: Option<Seq<char>>) -> Seq<char> {
    let base = "docker ps -a --format '"@ + ps_format() + "'"@;
    match label_filter {
        Some(f) => base + " --filter 'label="@ + f + "'"@,
        None => base,
    }
}

/// Container status check job
pub struct ContainerStatusJob;

impl ContainerStatusJob {
    pub fn new() -> Self {
        ContainerStatusJob
    }

    /// The command that lists the containers of the context's server.
    pub fn status_command(ctx: &ContainerStatusContext) -> (r: String)
        ensures
            r@ == ps_command(
                match ctx.label_filter {
                    Some(f) => Some(f@),
                    None => None,
                },
            ),
    {
        let mut cmd = owned("docker ps -a --format '");
        cmd.append("{{.ID}}|{{.Names}}|{{.Image}}|{{.State}}|{{.Status}}|{{.Ports}}|{{.Labels}}");
        cmd.append("'");
        match &ctx.label_filter {
            Some(f) => {
                cmd.append(" --filter 'label=");
                cmd.append(f.as_str());
                cmd.append("'");
            },
            None => {},
        }
        cmd
    }

    /// Run the container status check: no containers are read yet, so the
    /// result lists none, stamped with the current time.
    pub fn run(&self, ctx: &ContainerStatusContext) -> (r: ContainerStatusResult)
        ensures
            r.server_id == ctx.server_id,
            r.containers@.len() == 0,
            r.running_count == 0,
            r.total_count == 0,
            r.state_changes@.len() == 0,
    {
        ContainerStatusResult {
            server_id: ctx.server_id,
            containers: Vec::new(),
            running_count: 0,
            total_count: 0,
            checked_at: now_millis(),
            state_changes: Vec::new(),
        }
    }

    /// Parse docker ps output into ContainerInfo
    pub fn parse_docker_ps_output(output: &str) -> (r: Vec<ContainerInfo>)
        requires
            !ps_output_panics(output@),
        ensures
            r@.map_values(|c: ContainerInfo| c@) == ps_output(output@),
    {
        let v = chars_of(output);
        let ls = lines_exec(&v);
        let mut containers: Vec<ContainerInfo> = Vec::new();
        let mut i: usize = 0;
        while i < ls.len()
            invariant
                i <= ls.len(),
                views(ls@) == lines(output@),
                !ps_output_panics(output@),
                containers@.map_values(|c: ContainerInfo| c@) == infos_from(
                    views(ls@).take(i as int),
                ),
            decreases ls.len() - i,
        {
            let ghost before = containers@;
            let line = &ls[i];
            assert(views(ls@)[i as int] == line@);
            assert(views(ls@).take(i + 1).drop_last() =~= views(ls@).take(i as int));
            assert(views(ls@).take(i + 1).last() == line@);
            let t = trim_exec(line);
            if t.len() != 0 {
                let parts = split_char(line, '|');
                if parts.len() >= 7 {
                    assert(!line_panics(lines(output@)[i as int]));
                    let c = ContainerInfo {
                        container_id: string_from(&parts[0]),
                        container_name: string_from(&parts[1]),
                        image: string_from(&parts[2]),
                        status: Self::parse_state_chars(&parts[3]),
                        health: Self::parse_health_chars(&parts[4]),
                        started_at: None,
                        finished_at: None,
                        exit_code: Self::parse_exit_code_chars(&parts[4]),
                        ports: Self::parse_ports_chars(&parts[5]),
                        labels: Self::parse_labels_chars(&parts[6]),
                    };
                    containers.push(c);
                    assert(containers@.map_values(|c: ContainerInfo| c@) =~= before.map_values(
                        |c: ContainerInfo| c@,
                    ).push(c@));
                }
            }
            i = i + 1;
        }
        assert(views(ls@).take(ls@.len() as int) =~= views(ls@));
        containers
    }

    /// Parses docker ps output, or answers `None` where reading a line's
    /// status would slice backwards.
    pub fn parse_docker_ps_output_checked(output: &str) -> (r: Option<Vec<ContainerInfo>>)
        ensures
            r is None <==> ps_output_panics(output@),
            r matches Some(cs) ==> cs@.map_values(|c: ContainerInfo| c@) == ps_output(output@),
    {
        let v = chars_of(output);
        let ls = lines_exec(&v);
        let mut i: usize = 0;
        while i < ls.len()
            invariant
                i <= ls.len(),
                views(ls@) == lines(output@),
                forall|j: int| 0 <= j < i ==> !line_panics(#[trigger] lines(output@)[j]),
            decreases ls.len() - i,
        {
            let line = &ls[i];
            assert(views(ls@)[i as int] == line@);
            let t = trim_exec(line);
            if t.len() != 0 {
                let parts = split_char(line, '|');
                if parts.len() >= 7 {
                    if !Self::exit_code_safe(&parts[4]) {
                        return None;
                    }
                }
            }
            i = i + 1;
        }
        Some(Self::parse_docker_ps_output(output))
    }

    fn exit_code_safe(status: &Vec<char>) -> (b: bool)
        ensures
            b == !exit_code_panics(status@),
    {
        let low = lower_chars(status);
        if !starts_with_str(&low, "exited") {
            return true;
        }
        let mut open_p: Vec<char> = Vec::new();
        open_p.push('(');
        let mut close_p: Vec<char> = Vec::new();
        close_p.push(')');
        assert(open_p@ =~= seq!['(']);
        assert(close_p@ =~= seq![')']);
        match (find_from_exec(status, &open_p, 0), find_from_exec(status, &close_p, 0)) {
            (Some(a), Some(b)) => !(b < a),
            _ => true,
        }
    }

    fn parse_state_chars(state: &Vec<char>) -> (r: ContainerState)
        ensures
            r == state_named(lowercase(state@)),
            is_ascii(state@) ==> r == state_named(ascii_lower(state@)),
    {
        let l = lower_chars(state);
        if equals(&l, "created") {
            ContainerState::Created
        } else if equals(&l, "running") {
            ContainerState::Running
        } else if equals(&l, "paused") {
            ContainerState::Paused
        } else if equals(&l, "restarting") {
            ContainerState::Restarting
        } else if equals(&l, "removing") {
            ContainerState::Removing
        } else if equals(&l, "exited") {
            ContainerState::Exited
        } else {
            ContainerState::Dead
        }
    }

    /// The state that a `State` column value names, in any case.
    pub fn parse_state(state: &str) -> (r: ContainerState)
        ensures
            r == state_named(lowercase(state@)),
            is_ascii(state@) ==> r == state_named(ascii_lower(state@)),
    {
        Self::parse_state_chars(&chars_of(state))
    }

    fn parse_health_chars(status: &Vec<char>) -> (r: Option<HealthStatus>)
        ensures
            r == health_named(lowercase(status@)),
    {
        let l = lower_chars(status);
        if contains_str(&l, "(healthy)") {
            Some(HealthStatus::Healthy)
        } else if contains_str(&l, "(unhealthy)") {
            Some(HealthStatus::Unhealthy)
        } else if contains_str(&l, "(health: starting)") {
            Some(HealthStatus::Starting)
        } else {
            None
        }
    }

    /// The health that a `Status` column value reports.
    pub fn parse_health_from_status(status: &str) -> (r: Option<HealthStatus>)
        ensures
            r == health_named(lowercase(status@)),
    {
        Self::parse_health_chars(&chars_of(status))
    }

    fn parse_exit_code_chars(status: &Vec<char>) -> (r: Option<i32>)
        requires
            !exit_code_panics(status@),
        ensures
            r == exit_code_of(status@),
    {
        let low = lower_chars(status);
        if !starts_with_str(&low, "exited") {
            return None;
        }
        let mut open_p: Vec<char> = Vec::new();
        open_p.push('(');
        let mut close_p: Vec<char> = Vec::new();
        close_p.push(')');
        assert(open_p@ =~= seq!['(']);
        assert(close_p@ =~= seq![')']);
        let a = match find_from_exec(status, &open_p, 0) {
            Some(a) => a,
            None => {
                return None;
            },
        };
        let b = match find_from_exec(status, &close_p, 0) {
            Some(b) => b,
            None => {
                return None;
            },
        };
        proof {
            lemma_find_from_bounds(status@, seq!['('], 0);
            lemma_find_from_bounds(status@, seq![')'], 0);
            assert(status@.subrange(a as int, a + 1)[0] == '(');
            assert(status@.subrange(b as int, b + 1)[0] == ')');
        }
        let code = sub_vec(status, a + 1, b);
        parse_i32(&code)
    }

    /// The exit code in a status such as `Exited (0) 2 hours ago`.
    pub fn parse_exit_code(status: &str) -> (r: Option<i32>)
        requires
            !exit_code_panics(status@),
        ensures
            r == exit_code_of(status@),
    {
        Self::parse_exit_code_chars(&chars_of(status))
    }

    /// The exit code in a status, or `None` where reading it would slice
    /// backwards (a `)` before the first `(`).
    pub fn parse_exit_code_checked(status: &str) -> (r: Option<Option<i32>>)
        ensures
            r is None <==> exit_code_panics(status@),
            r matches Some(c) ==> c == exit_code_of(status@),
    {
        let v = chars_of(status);
        if Self::exit_code_safe(&v) {
            Some(Self::parse_exit_code_chars(&v))
        } else {
            None
        }
    }

    fn port_of_chars(pm: &Vec<char>) -> (r: Option<PortMapping>)
        ensures
            match r {
                Some(p) => port_of(pm@) == Some(p@),
                None => port_of(pm@) is None,
            },
    {
        if pm.len() == 0 {
            return None;
        }
        let arrow = contains_str(pm, "->");
        let parts = split_str(pm, "->");
        proof {
            lemma_split_nonempty(pm@, "->"@, 0);
        }
        let host: Option<u16> = if arrow {
            let hp = split_char(&parts[0], ':');
            proof {
                lemma_split_nonempty(parts@[0]@, seq![':'], 0);
            }
            parse_u16(&hp[hp.len() - 1])
        } else {
            None
        };
        let cpart: Vec<char> = if arrow {
            if parts.len() > 1 {
                sub_vec(&parts[1], 0, parts[1].len())
            } else {
                Vec::new()
            }
        } else {
            sub_vec(pm, 0, pm.len())
        };
        assert(parts@[1]@.subrange(0, parts@[1]@.len() as int) =~= parts@[1]@) by {
            if parts.len() > 1 {
            }
        }
        assert(pm@.subrange(0, pm@.len() as int) =~= pm@);
        assert(arrow && parts.len() <= 1 ==> cpart@ =~= Seq::<char>::empty());
        let sp = split_char(&cpart, '/');
        proof {
            lemma_split_nonempty(cpart@, seq!['/'], 0);
        }
        let slash = has_char_exec(&cpart, '/');
        let cport: u16 = if slash {
            match parse_u16(&sp[0]) {
                Some(n) => n,
                None => 0,
            }
        } else {
            match parse_u16(&cpart) {
                Some(n) => n,
                None => 0,
            }
        };
        let proto = if slash && sp.len() > 1 {
            string_from(&sp[1])
        } else {
            owned("tcp")
        };
        if cport > 0 {
            Some(PortMapping { container_port: cport, host_port: host, protocol: proto })
        } else {
            None
        }
    }

    fn parse_ports_chars(ports_str: &Vec<char>) -> (r: Vec<PortMapping>)
        ensures
            r@.map_values(|p: PortMapping| p@) == ports_of(ports_str@),
    {
        let pieces = split_str(ports_str, ", ");
        let mut ports: Vec<PortMapping> = Vec::new();
        let mut i: usize = 0;
        while i < pieces.len()
            invariant
                i <= pieces.len(),
                views(pieces@) == split(ports_str@, ", "@),
                ports@.map_values(|p: PortMapping| p@) == ports_from(views(pieces@).take(i as int)),
            decreases pieces.len() - i,
        {
            let ghost before = ports@;
            assert(views(pieces@).take(i + 1).drop_last() =~= views(pieces@).take(i as int));
            assert(views(pieces@).take(i + 1).last() == pieces@[i as int]@);
            match Self::port_of_chars(&pieces[i]) {
                Some(p) => {
                    ports.push(p);
                    assert(ports@.map_values(|p: PortMapping| p@) =~= before.map_values(
                        |p: PortMapping| p@,
                    ).push(p@));
                },
                None => {},
            }
            i = i + 1;
        }
        assert(views(pieces@).take(pieces@.len() as int) =~= views(pieces@));
        ports
    }

    /// The ports of a ports column such as `0.0.0.0:8080->80/tcp, 443/tcp`.
    pub fn parse_ports(ports_str: &str) -> (r: Vec<PortMapping>)
        ensures
            r@.map_values(|p: PortMapping| p@) == ports_of(ports_str@),
    {
        Self::parse_ports_chars(&chars_of(ports_str))
    }

    fn parse_labels_chars(labels_str: &Vec<char>) -> (r: Vec<(String, String)>)
        ensures
            pair_views(r@) == labels_of(labels_str@),
    {
        let pieces = split_char(labels_str, ',');
        let mut eq: Vec<char> = Vec::new();
        eq.push('=');
        assert(eq@ =~= seq!['=']);
        let mut labels: Vec<(String, String)> = Vec::new();
        let mut i: usize = 0;
        while i < pieces.len()
            invariant
                i <= pieces.len(),
                eq@ == seq!['='],
                views(pieces@) == split(labels_str@, seq![',']),
                pair_views(labels@) == labels_from(views(pieces@).take(i as int)),
            decreases pieces.len() - i,
        {
            let ghost before = labels@;
            assert(views(pieces@).take(i + 1).drop_last() =~= views(pieces@).take(i as int));
            assert(views(pieces@).take(i + 1).last() == pieces@[i as int]@);
            let piece = &pieces[i];
            match find_from_exec(piece, &eq, 0) {
                Some(k) => {
                    proof {
                        lemma_find_from_bounds(piece@, eq@, 0);
                    }
                    assert(k < piece.len());
                    let key = sub_vec(piece, 0, k);
                    let value = sub_vec(piece, k + 1, piece.len());
                    assert(key@ =~= piece@.take(k as int));
                    assert(value@ =~= piece@.skip(k + 1));
                    let pair = (string_from(&key), string_from(&value));
                    labels.push(pair);
                    assert(pair_views(labels@) =~= pair_views(before).push((key@, value@)));
                },
                None => {},
            }
            i = i + 1;
        }
        assert(views(pieces@).take(pieces@.len() as int) =~= views(pieces@));
        labels
    }

    /// The labels of a labels column such as `key=value,key2=value2`.
    pub fn parse_labels(labels_str: &str) -> (r: Vec<(String, String)>)
        ensures
            pair_views(r@) == labels_of(labels_str@),
    {
        Self::parse_labels_chars(&chars_of(labels_str))
    }

    /// The value of `key` among `labels`, the last pair with that key winning.
    pub fn label_get(labels: &Vec<(String, String)>, key: &str) -> (r: Option<String>)
        ensures
            match r {
                Some(v) => label_lookup(pair_views(labels@), key@) == Some(v@),
                None => label_lookup(pair_views(labels@), key@) is None,
            },
    {
        let k = chars_of(key);
        let mut i = labels.len();
        assert(labels@.take(labels@.len() as int) =~= labels@);
        while i > 0
            invariant
                i <= labels.len(),
                k@ == key@,
                label_lookup(pair_views(labels@), key@) == label_lookup(
                    pair_views(labels@.take(i as int)),
                    key@,
                ),
            decreases i,
        {
            assert(pair_views(labels@.take(i as int)).drop_last() =~= pair_views(
                labels@.take(i - 1),
            ));
            let lk = chars_of(labels[i - 1].0.as_str());
            if seq_equal(&lk, &k) {
                return Some(labels[i - 1].1.clone());
            }
            i = i - 1;
        }
        None
    }

    /// The resource type and id that a container's labels name: the
    /// `kornetti.resource.*` labels, each falling back to its
    /// `coolify.resource.*` counterpart.
    pub fn extract_resource_from_labels(labels: &Vec<(String, String)>) -> (r: (
        Option<String>,
        Option<u128>,
    ))
        ensures
            ({
                let ls = pair_views(labels@);
                let ty = match label_lookup(ls, "kornetti.resource.type"@) {
                    Some(t) => Some(t),
                    None => label_lookup(ls, "coolify.resource.type"@),
                };
                let kid = match label_lookup(ls, "kornetti.resource.id"@) {
                    Some(t) => uuid_parse(t),
                    None => None,
                };
                let id = match kid {
                    Some(x) => Some(x),
                    None => match label_lookup(ls, "coolify.resource.id"@) {
                        Some(t) => uuid_parse(t),
                        None => None,
                    },
                };
                &&& match r.0 {
                    Some(t) => ty == Some(t@),
                    None => ty is None,
                }
                &&& r.1 == id
            }),
    {
        let ty = match Self::label_get(labels, "kornetti.resource.type") {
            Some(t) => Some(t),
            None => Self::label_get(labels, "coolify.resource.type"),
        };
        let kid = match Self::label_get(labels, "kornetti.resource.id") {
            Some(t) => parse_id(t.as_str()),
            None => None,
        };
        let id = match kid {
            Some(x) => Some(x),
            None => match Self::label_get(labels, "coolify.resource.id") {
                Some(t) => parse_id(t.as_str()),
                None => None,
            },
        };
        (ty, id)
    }
}

} // verus!
