//! Hetzner Cloud: requests, reply checks and the mapping of replies.

use vstd::prelude::*;
use crate::kv::pair_views;
use crate::platform::{CreateServerConfig, OsImage, ProvisionedServer, ProvisionedServerStatus, Region};
use crate::providers::{bearer, bearer_header, image_text, image_texts, region_text};
use crate::text::{chars_of, equals, nat_text, owned, texts, u64_text};

verus! {

/// The base of every Hetzner Cloud API path.
pub open spec fn hetzner_api_base() -> Seq<char> {
    "https://api.hetzner.cloud/v1"@
}

/// A Hetzner Cloud account.
pub struct HetznerProvider {
    pub api_token: String,
}

impl HetznerProvider {
    pub fn new(api_token: String) -> (r: Self)
        ensures
            r.api_token == api_token,
    {
        HetznerProvider { api_token }
    }

    /// The provider's name.
    pub fn name(&self) -> (r: &'static str)
        ensures
            r@ == "hetzner"@,
    {
        "hetzner"
    }

    /// The `Authorization` header of the account.
    pub fn auth_header(&self) -> (r: String)
        ensures
            r@ == bearer(self.api_token@),
    {
        bearer_header(self.api_token.as_str())
    }

    /// The URL of an API path.
    pub fn url(&self, path: &str) -> (r: String)
        ensures
            r@ == hetzner_api_base() + path@,
    {
        let mut r = owned("https://api.hetzner.cloud/v1");
        r.append(path);
        r
    }
}

/// Law: Hetzner's status words map as the provider names them: a server
/// reads as running exactly for `running`, as pending exactly for
/// `initializing` and `starting`, as stopped exactly for `off` and `stopping`,
/// and as an error exactly for every other word.
pub proof fn law_hetzner_status_words(s: Seq<char>)
    ensures
        hetzner_status(s) == ProvisionedServerStatus::Running <==> s == "running"@,
        hetzner_status(s) == ProvisionedServerStatus::Pending <==> (s == "initializing"@ ||
            s == "starting"@),
        hetzner_status(s) == ProvisionedServerStatus::Stopped <==> (s == "off"@ ||
            s == "stopping"@),
        hetzner_status(s) == ProvisionedServerStatus::Error <==> !(s == "running"@ ||
            s == "initializing"@ || s == "starting"@ || s == "off"@ || s == "stopping"@),
{
    reveal_strlit("running");
    reveal_strlit("initializing");
    reveal_strlit("starting");
    reveal_strlit("off");
    reveal_strlit("stopping");
    assert("running"@[0] != "initializing"@[0]);
    assert("running"@[0] != "starting"@[0]);
    assert("running"@.len() != "off"@.len());
    assert("running"@[0] != "stopping"@[0]);
    assert("initializing"@.len() != "off"@.len());
    assert("initializing"@[0] != "stopping"@[0]);
    assert("starting"@.len() != "off"@.len());
    assert("starting"@[2] != "stopping"@[2]);
}

/// The server state of a Hetzner status word.
pub open spec fn hetzner_status(s: Seq<char>) -> ProvisionedServerStatus {
    if s == "running"@ {
        ProvisionedServerStatus::Running
    } else if s == "initializing"@ || s == "starting"@ {
        ProvisionedServerStatus::Pending
    } else if s == "off"@ || s == "stopping"@ {
        ProvisionedServerStatus::Stopped
    } else {
        ProvisionedServerStatus::Error
    }
}

/// The server state of a Hetzner status word.
pub fn parse_hetzner_status(status: &str) -> (r: ProvisionedServerStatus)
    ensures
        r == hetzner_status(status@),
{
    let v = chars_of(status);
    if equals(&v, "running") {
        ProvisionedServerStatus::Running
    } else if equals(&v, "initializing") || equals(&v, "starting") {
        ProvisionedServerStatus::Pending
    } else if equals(&v, "off") || equals(&v, "stopping") {
        ProvisionedServerStatus::Stopped
    } else {
        ProvisionedServerStatus::Error
    }
}

/// The body of a server-creation request.
pub struct HetznerCreateServerRequest {
    pub name: String,
    pub server_type: String,
    pub image: String,
    pub location: String,
    pub ssh_keys: Vec<String>,
    pub user_data: Option<String>,
    pub labels: Vec<(String, String)>,
}

/// The labels that carry a server's tags: `tag_<i>` for the tag at
/// position `i`.
pub open spec fn tag_labels(tags: Seq<Seq<char>>) -> Seq<(Seq<char>, Seq<char>)> {
    Seq::new(tags.len(), |i: int| ("tag_"@ + nat_text(i as nat), tags[i]))
}

/// The request that creates the server a configuration describes.
pub fn create_server_request(config: CreateServerConfig) -> (r: HetznerCreateServerRequest)
    ensures
        r.name == config.name,
        r.server_type == config.size,
        r.image == config.image,
        r.location == config.region,
        r.ssh_keys == config.ssh_key_ids,
        r.user_data == config.user_data,
        pair_views(r.labels@) == tag_labels(texts(config.tags@)),
{
    let mut labels: Vec<(String, String)> = Vec::new();
    let mut i: usize = 0;
    while i < config.tags.len()
        invariant
            i <= config.tags@.len(),
            pair_views(labels@) == tag_labels(texts(config.tags@)).take(i as int),
        decreases config.tags@.len() - i,
    {
        let mut key = owned("tag_");
        let n = u64_text(i as u64);
        key.append(n.as_str());
        let t = config.tags[i].clone();
        assert(t@ == texts(config.tags@)[i as int]);
        assert(key@ == tag_labels(texts(config.tags@))[i as int].0);
        let ghost before = labels@;
        labels.push((key, t));
        assert(labels@ == before.push((key, t)));
        assert(pair_views(before.push((key, t))) =~= pair_views(before).push((key@, t@)));
        assert(pair_views(labels@) =~= tag_labels(texts(config.tags@)).take(i + 1));
        i = i + 1;
    }
    assert(tag_labels(texts(config.tags@)).take(config.tags@.len() as int) =~= tag_labels(
        texts(config.tags@),
    ));
    HetznerCreateServerRequest {
        name: config.name,
        server_type: config.size,
        image: config.image,
        location: config.region,
        ssh_keys: config.ssh_key_ids,
        user_data: config.user_data,
        labels,
    }
}

/// A server as the API describes it.
pub struct HetznerServer {
    pub id: u64,
    pub name: String,
    pub ipv4: Option<String>,
    pub ipv6: Option<String>,
    pub status: String,
    pub server_type: String,
    pub location: String,
}

/// The platform's record of a server the API described, whether just
/// created or looked up.
pub fn provisioned_server(server: HetznerServer) -> (r: ProvisionedServer)
    ensures
        r.provider_id@ == nat_text(server.id as nat),
        r.name == server.name,
        r.ip_address == server.ipv4,
        r.ipv6_address == server.ipv6,
        r.status == hetzner_status(server.status@),
        r.region == server.location,
        r.size == server.server_type,
{
    let status = parse_hetzner_status(server.status.as_str());
    ProvisionedServer {
        provider_id: u64_text(server.id),
        name: server.name,
        ip_address: server.ipv4,
        ipv6_address: server.ipv6,
        status,
        region: server.location,
        size: server.server_type,
    }
}

/// A location as the API describes it.
pub struct HetznerLocation {
    pub id: u64,
    pub name: String,
    pub description: String,
    pub country: String,
    pub city: String,
    pub network_zone: String,
}

/// The region record of a location: named by its city and description.
pub open spec fn location_region(l: HetznerLocation) -> (Seq<char>, Seq<char>, Option<Seq<char>>, bool) {
    (l.name@, l.city@ + " ("@ + l.description@ + ")"@, Some(l.country@), true)
}

/// The region records of the locations, in order.
pub fn regions_from_locations(locations: &Vec<HetznerLocation>) -> (r: Vec<Region>)
    ensures
        r@.len() == locations@.len(),
        forall|i: int|
            0 <= i < r@.len() ==> region_text(#[trigger] r@[i]) == location_region(locations@[i]),
{
    let mut r: Vec<Region> = Vec::new();
    let mut i: usize = 0;
    while i < locations.len()
        invariant
            i <= locations@.len(),
            r@.len() == i,
            forall|k: int|
                0 <= k < i ==> region_text(#[trigger] r@[k]) == location_region(locations@[k]),
        decreases locations@.len() - i,
    {
        let l = &locations[i];
        let mut name = l.city.clone();
        name.append(" (");
        name.append(l.description.as_str());
        name.append(")");
        r.push(Region { id: l.name.clone(), name, country: Some(l.country.clone()), available: true });
        i = i + 1;
    }
    r
}

/// An image as the API describes it.
pub struct HetznerImage {
    pub id: u64,
    pub name: Option<String>,
    pub description: String,
    pub os_flavor: String,
    pub os_version: Option<String>,
    pub image_type: String,
}

/// The distributions the platform installs on.
pub open spec fn supported_flavor(f: Seq<char>) -> bool {
    f == "ubuntu"@ || f == "debian"@ || f == "centos"@
}

/// The image record of an image: the version falls back to the
/// description.
pub open spec fn hetzner_image(i: HetznerImage) -> (Seq<char>, Seq<char>, Seq<char>, Seq<char>) {
    (
        nat_text(i.id as nat),
        i.description@,
        i.os_flavor@,
        match i.os_version {
            Some(v) => v@,
            None => i.description@,
        },
    )
}

/// The image records of the images of supported distributions, in order.
pub open spec fn hetzner_images(s: Seq<HetznerImage>) -> Seq<(Seq<char>, Seq<char>, Seq<char>, Seq<char>)>
    decreases s.len(),
{
    if s.len() == 0 {
        seq![]
    } else if supported_flavor(s.last().os_flavor@) {
        hetzner_images(s.drop_last()).push(hetzner_image(s.last()))
    } else {
        hetzner_images(s.drop_last())
    }
}

/// The image records of the images of supported distributions, in order.
pub fn images_from(images: &Vec<HetznerImage>) -> (r: Vec<OsImage>)
    ensures
        image_texts(r@) == hetzner_images(images@),
{
    let mut r: Vec<OsImage> = Vec::new();
    let mut k: usize = 0;
    while k < images.len()
        invariant
            k <= images@.len(),
            image_texts(r@) == hetzner_images(images@.take(k as int)),
        decreases images@.len() - k,
    {
        let i = &images[k];
        assert(images@.take(k + 1).drop_last() =~= images@.take(k as int));
        assert(images@.take(k + 1).last() == images@[k as int]);
        let f = chars_of(i.os_flavor.as_str());
        if equals(&f, "ubuntu") || equals(&f, "debian") || equals(&f, "centos") {
            let version = match &i.os_version {
                Some(v) => v.clone(),
                None => i.description.clone(),
            };
            let o = OsImage {
                id: u64_text(i.id),
                name: i.description.clone(),
                distribution: i.os_flavor.clone(),
                version,
            };
            assert(image_text(o) == hetzner_image(*i));
            r.push(o);
        }
        assert(image_texts(r@) =~= hetzner_images(images@.take(k + 1)));
        k = k + 1;
    }
    assert(images@.take(images@.len() as int) =~= images@);
    r
}

/// The API path of one server.
pub fn server_path(provider_id: &str) -> (r: String)
    ensures
        r@ == "/servers/"@ + provider_id@,
{
    let mut r = owned("/servers/");
    r.append(provider_id);
    r
}

/// The API path that reboots one server.
pub fn reboot_path(provider_id: &str) -> (r: String)
    ensures
        r@ == "/servers/"@ + provider_id@ + "/actions/reboot"@,
{
    let mut r = server_path(provider_id);
    r.append("/actions/reboot");
    r
}

} // verus!

