//! Docker volume management

use vstd::prelude::*;
use crate::kv::{flag_pairs, pair_views, push_flag_pairs, push_word, upsert, upsert_exec};
use crate::docker::network::body_lines;
use crate::text::{
    chars_of, join, join_exec, lines, lines_exec, nat_text, owned, string_from, texts, u64_text,
    views, words, words_exec,
};

verus! {

/// Volume drivers. NFS volumes use the local driver with options.
#[derive(Debug, Clone)]
pub enum VolumeDriver {
    Local,
    Nfs,
    Custom(String),
}

/// The name Docker is given for a driver.
pub open spec fn volume_driver_name(d: VolumeDriver) -> Seq<char> {
    match d {
        VolumeDriver::Local => "local"@,
        VolumeDriver::Nfs => "local"@,
        VolumeDriver::Custom(s) => s@,
    }
}

/// Volume configuration
#[derive(Debug, Clone)]
pub struct VolumeConfig {
    pub name: String,
    pub driver: VolumeDriver,
    /// Driver options, one entry per key.
    pub driver_opts: Vec<(String, String)>,
    /// Labels, one entry per key.
    pub labels: Vec<(String, String)>,
}

impl Default for VolumeConfig {
    fn default() -> (r: Self)
        ensures
            r.name@ == Seq::<char>::empty(),
            r.driver is Local,
            r.driver_opts@.len() == 0,
            r.labels@.len() == 0,
    {
        VolumeConfig {
            name: String::new(),
            driver: VolumeDriver::Local,
            driver_opts: Vec::new(),
            labels: Vec::new(),
        }
    }
}

/// The words of `docker volume create` for a configuration.
pub open spec fn volume_create_words(c: VolumeConfig) -> Seq<Seq<char>> {
    seq!["docker"@, "volume"@, "create"@, "--driver"@, volume_driver_name(c.driver)]
        + flag_pairs("--opt"@, pair_views(c.driver_opts@)) + flag_pairs(
        "--label"@,
        pair_views(c.labels@),
    ) + seq![c.name@]
}

impl VolumeConfig {
    /// A local volume with no options or labels.
    pub fn new(name: &str) -> (r: Self)
        ensures
            r.name@ == name@,
            r.driver is Local,
            r.driver_opts@.len() == 0,
            r.labels@.len() == 0,
    {
        VolumeConfig { name: owned(name), ..Default::default() }
    }

    pub fn driver(self, driver: VolumeDriver) -> (r: Self)
        ensures
            r == (VolumeConfig { driver, ..self }),
    {
        VolumeConfig { driver, ..self }
    }

    /// Sets a driver option (a later value for the same key replaces the earlier one).
    pub fn driver_opt(self, key: &str, value: &str) -> (r: Self)
        ensures
            pair_views(r.driver_opts@) == upsert(pair_views(self.driver_opts@), key@, value@),
            r.name == self.name && r.driver == self.driver && r.labels == self.labels,
    {
        let mut s = self;
        upsert_exec(&mut s.driver_opts, key, value);
        s
    }

    /// Sets a label (a later value for the same key replaces the earlier one).
    pub fn label(self, key: &str, value: &str) -> (r: Self)
        ensures
            pair_views(r.labels@) == upsert(pair_views(self.labels@), key@, value@),
            r.name == self.name && r.driver == self.driver && r.driver_opts == self.driver_opts,
    {
        let mut s = self;
        upsert_exec(&mut s.labels, key, value);
        s
    }

    /// Generate docker volume create command
    pub fn to_create_command(&self) -> (r: String)
        ensures
            r@ == join(volume_create_words(*self), " "@),
    {
        let mut cmd: Vec<String> = Vec::new();
        push_word(&mut cmd, "docker");
        push_word(&mut cmd, "volume");
        push_word(&mut cmd, "create");
        push_word(&mut cmd, "--driver");
        match &self.driver {
            VolumeDriver::Local => push_word(&mut cmd, "local"),
            VolumeDriver::Nfs => push_word(&mut cmd, "local"),
            VolumeDriver::Custom(s) => push_word(&mut cmd, s.as_str()),
        }
        push_flag_pairs(&mut cmd, "--opt", &self.driver_opts);
        push_flag_pairs(&mut cmd, "--label", &self.labels);
        push_word(&mut cmd, self.name.as_str());
        assert(texts(cmd@) =~= volume_create_words(*self));
        join_exec(&cmd, " ")
    }
}

/// Volume information from Docker
#[derive(Debug, Clone)]
pub struct VolumeInfo {
    pub name: String,
    pub driver: String,
    pub mountpoint: String,
    pub scope: String,
    pub labels: Vec<(String, String)>,
    pub options: Option<Vec<(String, String)>>,
}

/// One row of `docker volume ls`.
#[derive(Debug, Clone)]
pub struct VolumeListEntry {
    pub driver: String,
    pub name: String,
}

/// The volumes that rows describe: a row with at least two
/// whitespace-separated fields gives driver and name.
pub open spec fn volume_rows(ls: Seq<Seq<char>>) -> Seq<(Seq<char>, Seq<char>)>
    decreases ls.len(),
{
    if ls.len() == 0 {
        seq![]
    } else {
        let rest = volume_rows(ls.drop_last());
        let w = words(ls.last());
        if w.len() >= 2 {
            rest.push((w[0], w[1]))
        } else {
            rest
        }
    }
}

/// Parse volume list output from docker volume ls
pub fn parse_volume_list(output: &str) -> (r: Vec<VolumeListEntry>)
    ensures
        r@.map_values(|e: VolumeListEntry| (e.driver@, e.name@)) == volume_rows(
            body_lines(output@),
        ),
{
    let v = chars_of(output);
    let ls = lines_exec(&v);
    let mut out: Vec<VolumeListEntry> = Vec::new();
    if ls.len() == 0 {
        return out;
    }
    let ghost body = body_lines(output@);
    let mut i: usize = 1;
    while i < ls.len()
        invariant
            1 <= i <= ls.len(),
            views(ls@) == lines(output@),
            body == views(ls@).skip(1),
            out@.map_values(|e: VolumeListEntry| (e.driver@, e.name@)) == volume_rows(
                body.take(i - 1),
            ),
        decreases ls.len() - i,
    {
        let ghost before = out@;
        assert(views(ls@)[i as int] == ls@[i as int]@);
        assert(body.take(i as int).drop_last() =~= body.take(i - 1));
        assert(body.take(i as int).last() == ls@[i as int]@);
        let w = words_exec(&ls[i]);
        assert(views(w@).len() == w@.len());
        if w.len() >= 2 {
            assert(views(w@)[0] == w@[0]@);
            assert(views(w@)[1] == w@[1]@);
            let e = VolumeListEntry { driver: string_from(&w[0]), name: string_from(&w[1]) };
            out.push(e);
            assert(out@.map_values(|e: VolumeListEntry| (e.driver@, e.name@)) =~= before.map_values(
                |e: VolumeListEntry| (e.driver@, e.name@),
            ).push((e.driver@, e.name@)));
        }
        i = i + 1;
    }
    assert(body.take(ls.len() - 1) =~= body);
    out
}

/// Volume mount types
#[derive(Debug, Clone)]
pub enum VolumeMount {
    /// Named volume
    Named { name: String, target: String, read_only: bool },
    /// Bind mount from host
    Bind { source: String, target: String, read_only: bool },
    /// Tmpfs mount
    Tmpfs { target: String, size: Option<u64> },
}

/// `source:target`, with `:ro` appended when read-only.
pub open spec fn mount_text(source: Seq<char>, target: Seq<char>, read_only: bool) -> Seq<char> {
    if read_only {
        source + ":"@ + target + ":ro"@
    } else {
        source + ":"@ + target
    }
}

/// The `-v` argument for a mount.
pub open spec fn volume_arg(m: VolumeMount) -> Seq<char> {
    match m {
        VolumeMount::Named { name, target, read_only } => mount_text(name@, target@, read_only),
        VolumeMount::Bind { source, target, read_only } => mount_text(source@, target@, read_only),
        VolumeMount::Tmpfs { target, size } => match size {
            Some(n) => "type=tmpfs,destination="@ + target@ + ",tmpfs-size="@ + nat_text(n as nat),
            None => "type=tmpfs,destination="@ + target@,
        },
    }
}

fn mount_text_exec(source: &str, target: &str, read_only: bool) -> (r: String)
    ensures
        r@ == mount_text(source@, target@, read_only),
{
    let mut r = owned(source);
    r.append(":");
    r.append(target);
    if read_only {
        r.append(":ro");
    }
    r
}

impl VolumeMount {
    /// A writable named volume.
    pub fn named(name: &str, target: &str) -> (r: Self)
        ensures
            r matches VolumeMount::Named { name: n, target: t, read_only: false } && n@ == name@
                && t@ == target@,
    {
        VolumeMount::Named { name: owned(name), target: owned(target), read_only: false }
    }

    /// A writable bind mount from the host.
    pub fn bind(source: &str, target: &str) -> (r: Self)
        ensures
            r matches VolumeMount::Bind { source: s, target: t, read_only: false } && s@ == source@
                && t@ == target@,
    {
        VolumeMount::Bind { source: owned(source), target: owned(target), read_only: false }
    }

    /// A tmpfs mount without a size limit.
    pub fn tmpfs(target: &str) -> (r: Self)
        ensures
            r matches VolumeMount::Tmpfs { target: t, size: None } && t@ == target@,
    {
        VolumeMount::Tmpfs { target: owned(target), size: None }
    }

    /// Marks a named or bind mount read-only; a tmpfs mount is unchanged.
    pub fn read_only(self) -> (r: Self)
        ensures
            r == (match self {
                VolumeMount::Named { name, target, .. } => VolumeMount::Named {
                    name,
                    target,
                    read_only: true,
                },
                VolumeMount::Bind { source, target, .. } => VolumeMount::Bind {
                    source,
                    target,
                    read_only: true,
                },
                VolumeMount::Tmpfs { .. } => self,
            }),
    {
        match self {
            VolumeMount::Named { name, target, .. } => VolumeMount::Named {
                name,
                target,
                read_only: true,
            },
            VolumeMount::Bind { source, target, .. } => VolumeMount::Bind {
                source,
                target,
                read_only: true,
            },
            VolumeMount::Tmpfs { target, size } => VolumeMount::Tmpfs { target, size },
        }
    }

    /// Convert to docker -v argument
    pub fn to_volume_arg(&self) -> (r: String)
        ensures
            r@ == volume_arg(*self),
    {
        match self {
            VolumeMount::Named { name, target, read_only } => mount_text_exec(
                name.as_str(),
                target.as_str(),
                *read_only,
            ),
            VolumeMount::Bind { source, target, read_only } => mount_text_exec(
                source.as_str(),
                target.as_str(),
                *read_only,
            ),
            VolumeMount::Tmpfs { target, size } => {
                let mut r = owned("type=tmpfs,destination=");
                r.append(target.as_str());
                match size {
                    Some(n) => {
                        r.append(",tmpfs-size=");
                        let t = u64_text(*n);
                        r.append(t.as_str());
                    },
                    None => {},
                }
                r
            },
        }
    }
}

} // verus!
