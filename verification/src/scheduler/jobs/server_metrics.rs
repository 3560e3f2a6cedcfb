//! Server metrics collection job
//!
//! The command that collects a server's metrics in one call, and the
//! whole-number readings of its output. Percentages and load averages are
//! decimal numbers and are read by the caller.

use vstd::prelude::*;
use crate::text::{
    chars_of, lines, lines_exec, owned, parse_unsigned, parse_u32, parse_u64, split, split_char,
    starts_with, starts_with_str, sub_vec, trim, trim_exec, views,
};

verus! {

/// Context for server metrics job
#[derive(Debug, Clone, Copy)]
pub struct ServerMetricsContext {
    pub server_id: u128,
    /// Whether to store metrics in the database
    pub persist: bool,
}

#[derive(Debug, Clone, Copy, PartialEq, Eq, Structural)]
pub enum AlertSeverity {
    Info,
    Warning,
    Critical,
}

/// The whole-number readings of a metrics report.
#[derive(Debug, Clone, Copy, PartialEq, Eq, Structural)]
pub struct MetricCounters {
    pub memory_used_mb: u64,
    pub memory_total_mb: u64,
    pub disk_used_gb: u64,
    pub disk_total_gb: u64,
    pub network_rx_bytes: u64,
    pub network_tx_bytes: u64,
    pub docker_containers_running: u32,
    pub docker_containers_total: u32,
}

/// A field read as an unsigned number no larger than `max`, trimmed; 0
/// when it is no such number.
pub open spec fn number_or_zero(field: Seq<char>, max: nat) -> nat {
    match parse_unsigned(trim(field), max) {
        Some(n) => n,
        None => 0,
    }
}

/// The two comma-separated numbers after a prefix of length `k`, when
/// there are exactly two fields.
pub open spec fn pair_after(line: Seq<char>, k: int, max: nat) -> Option<(nat, nat)> {
    let parts = split(line.skip(k), seq![',']);
    if parts.len() == 2 {
        Some((number_or_zero(parts[0], max), number_or_zero(parts[1], max)))
    } else {
        None
    }
}

/// The readings after one more line of the report: a `MEM:`, `DISK:`,
/// `NET:` or `DOCKER:` line with exactly two comma-separated fields sets
/// its pair; other lines change nothing.
pub open spec fn counters_step(c: MetricCounters, line: Seq<char>) -> MetricCounters {
    if starts_with(line, "CPU:"@) {
        c
    } else if starts_with(line, "MEM:"@) {
        match pair_after(line, 4, u64::MAX as nat) {
            Some((a, b)) => MetricCounters { memory_used_mb: a as u64, memory_total_mb: b as u64, ..c },
            None => c,
        }
    } else if starts_with(line, "DISK:"@) {
        match pair_after(line, 5, u64::MAX as nat) {
            Some((a, b)) => MetricCounters { disk_used_gb: a as u64, disk_total_gb: b as u64, ..c },
            None => c,
        }
    } else if starts_with(line, "LOAD:"@) {
        c
    } else if starts_with(line, "NET:"@) {
        match pair_after(line, 4, u64::MAX as nat) {
            Some((a, b)) => MetricCounters {
                network_rx_bytes: a as u64,
                network_tx_bytes: b as u64,
                ..c
            },
            None => c,
        }
    } else if starts_with(line, "DOCKER:"@) {
        match pair_after(line, 7, u32::MAX as nat) {
            Some((a, b)) => MetricCounters {
                docker_containers_running: a as u32,
                docker_containers_total: b as u32,
                ..c
            },
            None => c,
        }
    } else {
        c
    }
}

/// The readings of a sequence of lines, starting from all zero.
pub open spec fn counters_of(ls: Seq<Seq<char>>) -> MetricCounters
    decreases ls.len(),
{
    if ls.len() == 0 {
        MetricCounters {
            memory_used_mb: 0,
            memory_total_mb: 0,
            disk_used_gb: 0,
            disk_total_gb: 0,
            network_rx_bytes: 0,
            network_tx_bytes: 0,
            docker_containers_running: 0,
            docker_containers_total: 0,
        }
    } else {
        counters_step(counters_of(ls.drop_last()), ls.last())
    }
}

fn number_field(v: &Vec<char>, max: u64) -> (r: u64)
    ensures
        r as nat == number_or_zero(v@, max as nat),
{
    let t = trim_exec(v);
    match crate::text::parse_unsigned_exec(&t, max) {
        Some(n) => n,
        None => 0,
    }
}

fn pair_exec(line: &Vec<char>, k: usize, max: u64) -> (r: Option<(u64, u64)>)
    requires
        k <= line@.len(),
    ensures
        match r {
            Some((a, b)) => pair_after(line@, k as int, max as nat) == Some((a as nat, b as nat)),
            None => pair_after(line@, k as int, max as nat) is None,
        },
{
    let rest = sub_vec(line, k, line.len());
    assert(rest@ =~= line@.skip(k as int));
    let parts = split_char(&rest, ',');
    assert(views(parts@).len() == parts@.len());
    if parts.len() == 2 {
        assert(views(parts@)[0] == parts@[0]@);
        assert(views(parts@)[1] == parts@[1]@);
        Some((number_field(&parts[0], max), number_field(&parts[1], max)))
    } else {
        None
    }
}

/// Server metrics collection job
pub struct ServerMetricsJob;

impl ServerMetricsJob {
    pub fn new() -> Self {
        ServerMetricsJob
    }

    /// The command that prints every metric, one `NAME:` line each.
    pub fn metrics_command(&self) -> (r: String)
        ensures
            r@
                == "\necho \"CPU:$(top -bn1 | grep 'Cpu(s)' | awk '{print $2}' | cut -d'%' -f1)\"\necho \"MEM:$(free -m | awk '/Mem:/ {print $3\",\"$2}')\"\necho \"DISK:$(df -BG / | awk 'NR==2 {gsub(\"G\",\"\"); print $3\",\"$2}')\"\necho \"LOAD:$(cat /proc/loadavg | awk '{print $1\",\"$2\",\"$3}')\"\necho \"NET:$(cat /proc/net/dev | awk '/eth0|ens|enp/ {gsub(\":\", \"\"); print $2\",\"$10}' | head -1)\"\necho \"DOCKER:$(docker info --format '{{.ContainersRunning}},{{.Containers}}' 2>/dev/null || echo '0,0')\"\n"@,
    {
        owned(
            "\necho \"CPU:$(top -bn1 | grep 'Cpu(s)' | awk '{print $2}' | cut -d'%' -f1)\"\necho \"MEM:$(free -m | awk '/Mem:/ {print $3\",\"$2}')\"\necho \"DISK:$(df -BG / | awk 'NR==2 {gsub(\"G\",\"\"); print $3\",\"$2}')\"\necho \"LOAD:$(cat /proc/loadavg | awk '{print $1\",\"$2\",\"$3}')\"\necho \"NET:$(cat /proc/net/dev | awk '/eth0|ens|enp/ {gsub(\":\", \"\"); print $2\",\"$10}' | head -1)\"\necho \"DOCKER:$(docker info --format '{{.ContainersRunning}},{{.Containers}}' 2>/dev/null || echo '0,0')\"\n",
        )
    }

    /// The whole-number readings of a metrics report; a later line for the
    /// same metric overrides an earlier one.
    pub fn parse_counters(&self, output: &str) -> (r: MetricCounters)
        ensures
            r == counters_of(lines(output@)),
    {
        let v = chars_of(output);
        let ls = lines_exec(&v);
        let mut c = MetricCounters {
            memory_used_mb: 0,
            memory_total_mb: 0,
            disk_used_gb: 0,
            disk_total_gb: 0,
            network_rx_bytes: 0,
            network_tx_bytes: 0,
            docker_containers_running: 0,
            docker_containers_total: 0,
        };
        let mut i: usize = 0;
        while i < ls.len()
            invariant
                i <= ls.len(),
                views(ls@) == lines(output@),
                c == counters_of(views(ls@).take(i as int)),
            decreases ls.len() - i,
        {
            let line = &ls[i];
            proof {
                reveal_strlit("MEM:");
                reveal_strlit("DISK:");
                reveal_strlit("NET:");
                reveal_strlit("DOCKER:");
            }
            assert(views(ls@)[i as int] == line@);
            assert(views(ls@).take(i + 1).drop_last() =~= views(ls@).take(i as int));
            assert(views(ls@).take(i + 1).last() == line@);
            if starts_with_str(line, "CPU:") {
            } else if starts_with_str(line, "MEM:") {
                if let Some((a, b)) = pair_exec(line, 4, u64::MAX) {
                    c = MetricCounters { memory_used_mb: a, memory_total_mb: b, ..c };
                }
            } else if starts_with_str(line, "DISK:") {
                if let Some((a, b)) = pair_exec(line, 5, u64::MAX) {
                    c = MetricCounters { disk_used_gb: a, disk_total_gb: b, ..c };
                }
            } else if starts_with_str(line, "LOAD:") {
            } else if starts_with_str(line, "NET:") {
                if let Some((a, b)) = pair_exec(line, 4, u64::MAX) {
                    c = MetricCounters { network_rx_bytes: a, network_tx_bytes: b, ..c };
                }
            } else if starts_with_str(line, "DOCKER:") {
                if let Some((a, b)) = pair_exec(line, 7, u32::MAX as u64) {
                    c = MetricCounters {
                        docker_containers_running: a as u32,
                        docker_containers_total: b as u32,
                        ..c
                    };
                }
            }
            i = i + 1;
        }
        assert(views(ls@).take(ls@.len() as int) =~= views(ls@));
        c
    }
}

} // verus!
