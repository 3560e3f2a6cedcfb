//! Docker network management

use vstd::prelude::*;
use crate::kv::{flag_pairs, pair_views, push_flag_pairs, push_word, upsert, upsert_exec};
use crate::text::{chars_of, join, join_exec, lines, lines_exec, owned, string_from, texts, views, words, words_exec};

verus! {

/// Network drivers. `Null` is Docker's `none` driver.
#[derive(Debug, Clone, Copy, PartialEq, Eq, Structural)]
pub enum NetworkDriver {
    Bridge,
    Overlay,
    Host,
    Null,
    Macvlan,
}

/// The name Docker uses for a driver.
pub open spec fn driver_name(d: NetworkDriver) -> Seq<char> {
    match d {
        NetworkDriver::Bridge => "bridge"@,
        NetworkDriver::Overlay => "overlay"@,
        NetworkDriver::Host => "host"@,
        NetworkDriver::Null => "none"@,
        NetworkDriver::Macvlan => "macvlan"@,
    }
}

fn driver_str(d: NetworkDriver) -> (r: &'static str)
    ensures
        r@ == driver_name(d),
{
    match d {
        NetworkDriver::Bridge => "bridge",
        NetworkDriver::Overlay => "overlay",
        NetworkDriver::Host => "host",
        NetworkDriver::Null => "none",
        NetworkDriver::Macvlan => "macvlan",
    }
}

/// IP address management settings.
#[derive(Debug, Clone)]
pub struct IpamConfig {
    pub driver: String,
    pub subnet: Option<String>,
    pub gateway: Option<String>,
}

/// Network configuration
#[derive(Debug, Clone)]
pub struct NetworkConfig {
    pub name: String,
    pub driver: NetworkDriver,
    pub attachable: bool,
    pub internal: bool,
    pub ipam: Option<IpamConfig>,
    /// Labels, one entry per key.
    pub labels: Vec<(String, String)>,
}

impl Default for NetworkConfig {
    fn default() -> (r: Self)
        ensures
            r.name@ == Seq::<char>::empty(),
            r.driver == NetworkDriver::Bridge,
            r.attachable,
            !r.internal,
            r.ipam is None,
            r.labels@.len() == 0,
    {
        NetworkConfig {
            name: String::new(),
            driver: NetworkDriver::Bridge,
            attachable: true,
            internal: false,
            ipam: None,
            labels: Vec::new(),
        }
    }
}

/// The words of `docker network create` for a configuration.
pub open spec fn network_create_words(c: NetworkConfig) -> Seq<Seq<char>> {
    seq!["docker"@, "network"@, "create"@, "--driver"@, driver_name(c.driver)] + (if c.attachable {
        seq!["--attachable"@]
    } else {
        Seq::<Seq<char>>::empty()
    }) + (if c.internal {
        seq!["--internal"@]
    } else {
        Seq::<Seq<char>>::empty()
    }) + flag_pairs("--label"@, pair_views(c.labels@)) + seq![c.name@]
}

impl NetworkConfig {
    /// A bridge network that containers can attach to, with no labels.
    pub fn new(name: &str) -> (r: Self)
        ensures
            r.name@ == name@,
            r.driver == NetworkDriver::Bridge,
            r.attachable,
            !r.internal,
            r.ipam is None,
            r.labels@.len() == 0,
    {
        NetworkConfig { name: owned(name), ..Default::default() }
    }

    pub fn driver(self, driver: NetworkDriver) -> (r: Self)
        ensures
            r == (NetworkConfig { driver, ..self }),
    {
        NetworkConfig { driver, ..self }
    }

    pub fn internal(self) -> (r: Self)
        ensures
            r == (NetworkConfig { internal: true, ..self }),
    {
        NetworkConfig { internal: true, ..self }
    }

    /// Sets a label (a later value for the same key replaces the earlier one).
    pub fn label(self, key: &str, value: &str) -> (r: Self)
        ensures
            pair_views(r.labels@) == upsert(pair_views(self.labels@), key@, value@),
            r.name == self.name && r.driver == self.driver && r.attachable == self.attachable
                && r.internal == self.internal && r.ipam == self.ipam,
    {
        let mut s = self;
        upsert_exec(&mut s.labels, key, value);
        s
    }

    /// Generate docker network create command
    pub fn to_create_command(&self) -> (r: String)
        ensures
            r@ == join(network_create_words(*self), " "@),
    {
        let mut cmd: Vec<String> = Vec::new();
        push_word(&mut cmd, "docker");
        push_word(&mut cmd, "network");
        push_word(&mut cmd, "create");
        push_word(&mut cmd, "--driver");
        push_word(&mut cmd, driver_str(self.driver));
        let ghost w1 = texts(cmd@);
        if self.attachable {
            push_word(&mut cmd, "--attachable");
        }
        let ghost w2 = texts(cmd@);
        if self.internal {
            push_word(&mut cmd, "--internal");
        }
        let ghost w3 = texts(cmd@);
        push_flag_pairs(&mut cmd, "--label", &self.labels);
        push_word(&mut cmd, self.name.as_str());
        assert(texts(cmd@) =~= network_create_words(*self));
        join_exec(&cmd, " ")
    }
}

/// Network information from Docker
#[derive(Debug, Clone)]
pub struct NetworkInfo {
    pub id: String,
    pub name: String,
    pub driver: String,
    pub scope: String,
    pub internal: bool,
    pub attachable: bool,
    /// Attached containers by container ID.
    pub containers: Vec<(String, NetworkContainer)>,
}

/// A container attached to a network.
#[derive(Debug, Clone)]
pub struct NetworkContainer {
    pub name: String,
    pub ipv4_address: String,
    pub ipv6_address: String,
}

/// One row of `docker network ls`.
#[derive(Debug, Clone)]
pub struct NetworkListEntry {
    pub id: String,
    pub name: String,
    pub driver: String,
    pub scope: String,
}

/// A row of `docker network ls` as character sequences.
pub struct NetworkListEntryView {
    pub id: Seq<char>,
    pub name: Seq<char>,
    pub driver: Seq<char>,
    pub scope: Seq<char>,
}

impl View for NetworkListEntry {
    type V = NetworkListEntryView;

    open spec fn view(&self) -> NetworkListEntryView {
        NetworkListEntryView {
            id: self.id@,
            name: self.name@,
            driver: self.driver@,
            scope: self.scope@,
        }
    }
}

/// The lines of `s` after its first (the header).
pub open spec fn body_lines(s: Seq<char>) -> Seq<Seq<char>> {
    if lines(s).len() == 0 {
        lines(s)
    } else {
        lines(s).skip(1)
    }
}

/// The networks that rows describe: a row with at least four
/// whitespace-separated fields gives ID, name, driver and scope.
pub open spec fn network_rows(ls: Seq<Seq<char>>) -> Seq<NetworkListEntryView>
    decreases ls.len(),
{
    if ls.len() == 0 {
        seq![]
    } else {
        let rest = network_rows(ls.drop_last());
        let w = words(ls.last());
        if w.len() >= 4 {
            rest.push(NetworkListEntryView { id: w[0], name: w[1], driver: w[2], scope: w[3] })
        } else {
            rest
        }
    }
}

/// Parse network list output from docker network ls
pub fn parse_network_list(output: &str) -> (r: Vec<NetworkListEntry>)
    ensures
        r@.map_values(|e: NetworkListEntry| e@) == network_rows(body_lines(output@)),
{
    let v = chars_of(output);
    let ls = lines_exec(&v);
    let mut out: Vec<NetworkListEntry> = Vec::new();
    if ls.len() == 0 {
        return out;
    }
    let ghost body = body_lines(output@);
    let mut i: usize = 1;
    while i < ls.len()
        invariant
            1 <= i <= ls.len(),
            views(ls@) == lines(output@),
            body == views(ls@).skip(1),
            out@.map_values(|e: NetworkListEntry| e@) == network_rows(body.take(i - 1)),
        decreases ls.len() - i,
    {
        let ghost before = out@;
        assert(views(ls@)[i as int] == ls@[i as int]@);
        assert(body.take(i as int).drop_last() =~= body.take(i - 1));
        assert(body.take(i as int).last() == ls@[i as int]@);
        let w = words_exec(&ls[i]);
        assert(views(w@).len() == w@.len());
        if w.len() >= 4 {
            assert(views(w@)[0] == w@[0]@);
            assert(views(w@)[1] == w@[1]@);
            assert(views(w@)[2] == w@[2]@);
            assert(views(w@)[3] == w@[3]@);
            let e = NetworkListEntry {
                id: string_from(&w[0]),
                name: string_from(&w[1]),
                driver: string_from(&w[2]),
                scope: string_from(&w[3]),
            };
            out.push(e);
            assert(out@.map_values(|e: NetworkListEntry| e@) =~= before.map_values(
                |e: NetworkListEntry| e@,
            ).push(e@));
        }
        i = i + 1;
    }
    assert(body.take(ls.len() - 1) =~= body);
    out
}

} // verus!
