//! Common server queries over SSH: the commands sent and the reading of
//! their output.

use vstd::prelude::*;
use crate::ssh::session::CommandOutput;
use crate::text::{
    all_digits, chars_of, digits_value, has_char, has_char_exec, lines, lines_exec, owned,
    parse_u64, parse_unsigned, split, split_char, string_from, trim, trim_exec, views, words,
    words_exec,
};

verus! {

/// The command that prints Docker's version, or nothing without Docker.
pub fn check_docker_command() -> (r: &'static str)
    ensures
        r@ == "docker --version 2>/dev/null || echo ''"@,
{
    "docker --version 2>/dev/null || echo ''"
}

/// Docker's version line: the trimmed output, unless it is empty.
pub fn docker_version_of(out: &CommandOutput) -> (r: Option<String>)
    ensures
        crate::providers::opt_text(r) == (if trim(out.stdout@).len() == 0 {
            None
        } else {
            Some(trim(out.stdout@))
        }),
{
    let s = chars_of(out.stdout.as_str());
    let t = trim_exec(&s);
    if t.len() == 0 {
        None
    } else {
        Some(string_from(&t))
    }
}

/// The system of a server.
#[derive(Debug, Clone)]
pub struct SystemInfo {
    pub hostname: String,
    pub os: String,
    pub kernel: String,
    pub arch: String,
}

/// The commands that print the host name, the distribution's name, the
/// kernel release and the machine architecture.
pub fn system_info_commands() -> (r: [&'static str; 4])
    ensures
        r[0]@ == "hostname"@,
        r[1]@ == "cat /etc/os-release | grep PRETTY_NAME | cut -d'=' -f2 | tr -d '\"'"@,
        r[2]@ == "uname -r"@,
        r[3]@ == "uname -m"@,
{
    [
        "hostname",
        "cat /etc/os-release | grep PRETTY_NAME | cut -d'=' -f2 | tr -d '\"'",
        "uname -r",
        "uname -m",
    ]
}

fn trimmed(s: &String) -> (r: String)
    ensures
        r@ == trim(s@),
{
    let v = chars_of(s.as_str());
    string_from(&trim_exec(&v))
}

/// The system of a server from the outputs of the four commands, each
/// trimmed.
pub fn system_info(hostname: &CommandOutput, os: &CommandOutput, kernel: &CommandOutput, arch: &CommandOutput) -> (r: SystemInfo)
    ensures
        r.hostname@ == trim(hostname.stdout@),
        r.os@ == trim(os.stdout@),
        r.kernel@ == trim(kernel.stdout@),
        r.arch@ == trim(arch.stdout@),
{
    SystemInfo {
        hostname: trimmed(&hostname.stdout),
        os: trimmed(&os.stdout),
        kernel: trimmed(&kernel.stdout),
        arch: trimmed(&arch.stdout),
    }
}

/// The command that prints the total and used memory in bytes.
pub fn memory_command() -> (r: &'static str)
    ensures
        r@ == "free -b | grep Mem | awk '{print $2,$3}'"@,
{
    "free -b | grep Mem | awk '{print $2,$3}'"
}

/// The command that prints the total and used bytes of the root
/// filesystem.
pub fn disk_command() -> (r: &'static str)
    ensures
        r@ == "df -B1 / | tail -1 | awk '{print $2,$3}'"@,
{
    "df -B1 / | tail -1 | awk '{print $2,$3}'"
}

/// The words of a text that are `u64` numbers, in order.
pub open spec fn numbers_of(ws: Seq<Seq<char>>) -> Seq<nat>
    decreases ws.len(),
{
    if ws.len() == 0 {
        seq![]
    } else {
        match parse_unsigned(ws.last(), u64::MAX as nat) {
            Some(n) => numbers_of(ws.drop_last()).push(n),
            None => numbers_of(ws.drop_last()),
        }
    }
}

/// The first two numbers of an output (total and used), or zeros when it
/// holds fewer than two.
pub fn total_and_used(out: &CommandOutput) -> (r: (u64, u64))
    ensures
        ({
            let ns = numbers_of(words(out.stdout@));
            if ns.len() >= 2 {
                r.0 as nat == ns[0] && r.1 as nat == ns[1]
            } else {
                r.0 == 0 && r.1 == 0
            }
        }),
{
    let s = chars_of(out.stdout.as_str());
    let ws = words_exec(&s);
    let ghost w = views(ws@);
    let mut nums: Vec<u64> = Vec::new();
    let mut i: usize = 0;
    while i < ws.len()
        invariant
            i <= ws@.len(),
            views(ws@) == w,
            w == words(out.stdout@),
            nums@.map_values(|n: u64| n as nat) == numbers_of(w.take(i as int)),
        decreases ws@.len() - i,
    {
        assert(w.take(i + 1).drop_last() =~= w.take(i as int));
        assert(w.take(i + 1).last() == ws@[i as int]@);
        let ghost before = nums@;
        match parse_u64(&ws[i]) {
            Some(n) => {
                nums.push(n);
                assert(nums@.map_values(|n: u64| n as nat) =~= before.map_values(|n: u64| n as nat).push(
                    n as nat,
                ));
            },
            None => {},
        }
        i = i + 1;
    }
    assert(w.take(w.len() as int) =~= w);
    if nums.len() >= 2 {
        assert(nums@.map_values(|n: u64| n as nat)[0] == nums@[0] as nat);
        assert(nums@.map_values(|n: u64| n as nat)[1] == nums@[1] as nat);
        (nums[0], nums[1])
    } else {
        (0, 0)
    }
}

/// A container as `docker ps` lists it.
#[derive(Debug, Clone)]
pub struct ContainerInfo {
    pub id: String,
    pub name: String,
    pub image: String,
    pub status: String,
}

/// The command that lists the running containers, one per line, as
/// `id|name|image|status`.
pub fn list_containers_command() -> (r: &'static str)
    ensures
        r@ == "docker ps --format '{{.ID}}|{{.Names}}|{{.Image}}|{{.Status}}' 2>/dev/null || echo ''"@,
{
    "docker ps --format '{{.ID}}|{{.Names}}|{{.Image}}|{{.Status}}' 2>/dev/null || echo ''"
}

/// The container a line describes: a non-empty line with at least four
/// `|`-separated fields.
pub open spec fn container_of(l: Seq<char>) -> Option<(Seq<char>, Seq<char>, Seq<char>, Seq<char>)> {
    let ps = split(l, seq!['|']);
    if l.len() > 0 && has_char(l, '|') && ps.len() >= 4 {
        Some((ps[0], ps[1], ps[2], ps[3]))
    } else {
        None
    }
}

/// The containers the lines describe, in order.
pub open spec fn containers_of(ls: Seq<Seq<char>>) -> Seq<(Seq<char>, Seq<char>, Seq<char>, Seq<char>)>
    decreases ls.len(),
{
    if ls.len() == 0 {
        seq![]
    } else {
        match container_of(ls.last()) {
            Some(c) => containers_of(ls.drop_last()).push(c),
            None => containers_of(ls.drop_last()),
        }
    }
}

/// The text of a container record.
pub open spec fn container_text(c: ContainerInfo) -> (Seq<char>, Seq<char>, Seq<char>, Seq<char>) {
    (c.id@, c.name@, c.image@, c.status@)
}

/// The containers that `docker ps` listed.
pub fn parse_containers(out: &CommandOutput) -> (r: Vec<ContainerInfo>)
    ensures
        r@.map_values(|c: ContainerInfo| container_text(c)) == containers_of(lines(out.stdout@)),
{
    let s = chars_of(out.stdout.as_str());
    let ls = lines_exec(&s);
    let ghost lv = views(ls@);
    let mut r: Vec<ContainerInfo> = Vec::new();
    let mut i: usize = 0;
    while i < ls.len()
        invariant
            i <= ls@.len(),
            views(ls@) == lv,
            lv == lines(out.stdout@),
            r@.map_values(|c: ContainerInfo| container_text(c)) == containers_of(lv.take(i as int)),
        decreases ls@.len() - i,
    {
        assert(lv.take(i + 1).drop_last() =~= lv.take(i as int));
        assert(lv.take(i + 1).last() == ls@[i as int]@);
        let l = &ls[i];
        if l.len() > 0 && has_char_exec(l, '|') {
            let ps = split_char(l, '|');
            if ps.len() >= 4 {
                let c = ContainerInfo {
                    id: string_from(&ps[0]),
                    name: string_from(&ps[1]),
                    image: string_from(&ps[2]),
                    status: string_from(&ps[3]),
                };
                assert(views(ps@)[0] == ps@[0]@ && views(ps@)[1] == ps@[1]@ && views(ps@)[2]
                    == ps@[2]@ && views(ps@)[3] == ps@[3]@);
                let ghost before = r@;
                r.push(c);
                assert(r@.map_values(|c: ContainerInfo| container_text(c)) =~= before.map_values(
                    |c: ContainerInfo| container_text(c),
                ).push(container_text(c)));
            }
        }
        i = i + 1;
    }
    assert(lv.take(lv.len() as int) =~= lv);
    r
}

} // verus!
