//! DigitalOcean: requests, reply checks and the mapping of replies.

use vstd::prelude::*;
use crate::platform::{CreateServerConfig, Error, OsImage, ProvisionedServer, ProvisionedServerStatus, Region};
use crate::providers::{api_error_text, bearer, bearer_header, check_status, image_text, image_texts, region_text};
use crate::text::{chars_of, contains, contains_str, equals, lowercase, nat_text, owned, to_lowercase, u64_text};

verus! {

/// The base of every DigitalOcean API path.
pub open spec fn do_api_base() -> Seq<char> {
    "https://api.digitalocean.com/v2"@
}

/// A DigitalOcean account.
pub struct DigitalOceanProvider {
    pub api_token: String,
}

impl DigitalOceanProvider {
    pub fn new(api_token: String) -> (r: Self)
        ensures
            r.api_token == api_token,
    {
        DigitalOceanProvider { api_token }
    }

    /// The provider's name.
    pub fn name(&self) -> (r: &'static str)
        ensures
            r@ == "digitalocean"@,
    {
        "digitalocean"
    }

    /// The `Authorization` header of the account.
    pub fn auth_header(&self) -> (r: String)
        ensures
            r@ == bearer(self.api_token@),
    {
        bearer_header(self.api_token.as_str())
    }

    /// The URL of an API path.
    pub fn url(&self, path: &str) -> (r: String)
        ensures
            r@ == do_api_base() + path@,
    {
        let mut r = owned("https://api.digitalocean.com/v2");
        r.append(path);
        r
    }
}

/// The check made on the reply to a deletion: a successful status or
/// `204 No Content` passes; any other is an error.
pub fn check_delete_status(success: bool, code: u16, status: &str, body: &str) -> (r: Result<
    (),
    Error,
>)
    ensures
        (success || code == 204) ==> r is Ok,
        !(success || code == 204) ==> (r matches Err(Error::Provider(m)) && m@ == api_error_text(
            "DigitalOcean"@,
            status@,
            body@,
        )),
{
    check_status("DigitalOcean", success || code == 204, status, body)
}

/// Law: DigitalOcean's status words map as the provider names them: a server
/// reads as running exactly for `active`, as pending exactly for
/// `new`, as stopped exactly for `off` and `archive`, and as an
/// error exactly for every other word.
pub proof fn law_do_status_words(s: Seq<char>)
    ensures
        do_status(s) == ProvisionedServerStatus::Running <==> s == "active"@,
        do_status(s) == ProvisionedServerStatus::Pending <==> s == "new"@,
        do_status(s) == ProvisionedServerStatus::Stopped <==> (s == "off"@ || s == "archive"@),
        do_status(s) == ProvisionedServerStatus::Error <==> !(s == "active"@ ||
            s == "new"@ || s == "off"@ || s == "archive"@),
{
    reveal_strlit("active");
    reveal_strlit("new");
    reveal_strlit("off");
    reveal_strlit("archive");
    assert("active"@.len() != "new"@.len());
    assert("active"@.len() != "off"@.len());
    assert("active"@.len() != "archive"@.len());
    assert("new"@[0] != "off"@[0]);
    assert("new"@.len() != "archive"@.len());
}

/// The server state of a droplet status word.
pub open spec fn do_status(s: Seq<char>) -> ProvisionedServerStatus {
    if s == "active"@ {
        ProvisionedServerStatus::Running
    } else if s == "new"@ {
        ProvisionedServerStatus::Pending
    } else if s == "off"@ || s == "archive"@ {
        ProvisionedServerStatus::Stopped
    } else {
        ProvisionedServerStatus::Error
    }
}

/// The server state of a droplet status word.
pub fn parse_do_status(status: &str) -> (r: ProvisionedServerStatus)
    ensures
        r == do_status(status@),
{
    let v = chars_of(status);
    if equals(&v, "active") {
        ProvisionedServerStatus::Running
    } else if equals(&v, "new") {
        ProvisionedServerStatus::Pending
    } else if equals(&v, "off") || equals(&v, "archive") {
        ProvisionedServerStatus::Stopped
    } else {
        ProvisionedServerStatus::Error
    }
}

/// The body of a droplet-creation request.
pub struct DoCreateDropletRequest {
    pub name: String,
    pub region: String,
    pub size: String,
    pub image: String,
    pub ssh_keys: Vec<String>,
    pub user_data: Option<String>,
    pub tags: Vec<String>,
}

/// The request that creates the droplet a configuration describes.
pub fn create_droplet_request(config: CreateServerConfig) -> (r: DoCreateDropletRequest)
    ensures
        r.name == config.name,
        r.region == config.region,
        r.size == config.size,
        r.image == config.image,
        r.ssh_keys == config.ssh_key_ids,
        r.user_data == config.user_data,
        r.tags == config.tags,
{
    DoCreateDropletRequest {
        name: config.name,
        region: config.region,
        size: config.size,
        image: config.image,
        ssh_keys: config.ssh_key_ids,
        user_data: config.user_data,
        tags: config.tags,
    }
}

/// A network interface of a droplet.
pub struct DoNetwork {
    pub ip_address: String,
    pub network_type: String,
}

/// The address of the first public interface.
pub open spec fn first_public(nets: Seq<DoNetwork>) -> Option<Seq<char>>
    decreases nets.len(),
{
    if nets.len() == 0 {
        None
    } else if nets[0].network_type@ == "public"@ {
        Some(nets[0].ip_address@)
    } else {
        first_public(nets.drop_first())
    }
}

/// The address of the first public interface.
pub fn first_public_address(nets: &Vec<DoNetwork>) -> (r: Option<String>)
    ensures
        crate::providers::opt_text(r) == first_public(nets@),
{
    let mut i: usize = 0;
    assert(nets@.skip(0) =~= nets@);
    while i < nets.len()
        invariant
            i <= nets@.len(),
            first_public(nets@) == first_public(nets@.skip(i as int)),
        decreases nets@.len() - i,
    {
        assert(nets@.skip(i as int).drop_first() =~= nets@.skip(i + 1));
        assert(nets@.skip(i as int)[0] == nets@[i as int]);
        let v = chars_of(nets[i].network_type.as_str());
        if equals(&v, "public") {
            return Some(nets[i].ip_address.clone());
        }
        i = i + 1;
    }
    None
}

/// A droplet as the API describes it.
pub struct DoDroplet {
    pub id: u64,
    pub name: String,
    pub status: String,
    pub v4: Vec<DoNetwork>,
    pub v6: Vec<DoNetwork>,
    pub size_slug: String,
    pub region: String,
}

/// The platform's record of a droplet the API described, whether just
/// created or looked up: its first public addresses.
pub fn provisioned_server(droplet: DoDroplet) -> (r: ProvisionedServer)
    ensures
        r.provider_id@ == nat_text(droplet.id as nat),
        r.name == droplet.name,
        crate::providers::opt_text(r.ip_address) == first_public(droplet.v4@),
        crate::providers::opt_text(r.ipv6_address) == first_public(droplet.v6@),
        r.status == do_status(droplet.status@),
        r.region == droplet.region,
        r.size == droplet.size_slug,
{
    let ip_address = first_public_address(&droplet.v4);
    let ipv6_address = first_public_address(&droplet.v6);
    let status = parse_do_status(droplet.status.as_str());
    ProvisionedServer {
        provider_id: u64_text(droplet.id),
        name: droplet.name,
        ip_address,
        ipv6_address,
        status,
        region: droplet.region,
        size: droplet.size_slug,
    }
}

/// A region as the API describes it.
pub struct DoRegion {
    pub slug: String,
    pub name: String,
    pub available: bool,
}

/// The region records of the regions, in order.
pub fn regions_from(regions: &Vec<DoRegion>) -> (r: Vec<Region>)
    ensures
        r@.len() == regions@.len(),
        forall|i: int|
            0 <= i < r@.len() ==> region_text(#[trigger] r@[i]) == (
                regions@[i].slug@,
                regions@[i].name@,
                None::<Seq<char>>,
                regions@[i].available,
            ),
{
    let mut r: Vec<Region> = Vec::new();
    let mut i: usize = 0;
    while i < regions.len()
        invariant
            i <= regions@.len(),
            r@.len() == i,
            forall|k: int|
                0 <= k < i ==> region_text(#[trigger] r@[k]) == (
                    regions@[k].slug@,
                    regions@[k].name@,
                    None::<Seq<char>>,
                    regions@[k].available,
                ),
        decreases regions@.len() - i,
    {
        let g = &regions[i];
        r.push(
            Region { id: g.slug.clone(), name: g.name.clone(), country: None, available: g.available },
        );
        i = i + 1;
    }
    r
}

/// An image as the API describes it.
pub struct DoImage {
    pub id: u64,
    pub name: String,
    pub distribution: String,
    pub slug: Option<String>,
    pub public: bool,
    pub image_type: String,
}

/// A public image with a slug, of a supported distribution (matched
/// without regard to case).
pub open spec fn do_image_kept(i: DoImage) -> bool {
    &&& i.public
    &&& i.slug is Some
    &&& {
        let d = lowercase(i.distribution@);
        contains(d, "ubuntu"@) || contains(d, "debian"@) || contains(d, "centos"@)
    }
}

/// The image record of an image: identified by its slug, with its
/// distribution in lower case.
pub open spec fn do_image(i: DoImage) -> (Seq<char>, Seq<char>, Seq<char>, Seq<char>) {
    (
        match i.slug {
            Some(s) => s@,
            None => nat_text(i.id as nat),
        },
        i.name@,
        lowercase(i.distribution@),
        i.name@,
    )
}

/// The image records of the kept images, in order.
pub open spec fn do_images(s: Seq<DoImage>) -> Seq<(Seq<char>, Seq<char>, Seq<char>, Seq<char>)>
    decreases s.len(),
{
    if s.len() == 0 {
        seq![]
    } else if do_image_kept(s.last()) {
        do_images(s.drop_last()).push(do_image(s.last()))
    } else {
        do_images(s.drop_last())
    }
}

/// The image records of the public distribution images with a slug, in
/// order.
pub fn images_from(images: &Vec<DoImage>) -> (r: Vec<OsImage>)
    ensures
        image_texts(r@) == do_images(images@),
{
    let mut r: Vec<OsImage> = Vec::new();
    let mut k: usize = 0;
    while k < images.len()
        invariant
            k <= images@.len(),
            image_texts(r@) == do_images(images@.take(k as int)),
        decreases images@.len() - k,
    {
        let i = &images[k];
        assert(images@.take(k + 1).drop_last() =~= images@.take(k as int));
        assert(images@.take(k + 1).last() == images@[k as int]);
        if i.public {
            match &i.slug {
                Some(slug) => {
                    let dist = to_lowercase(i.distribution.as_str());
                    let d = chars_of(dist.as_str());
                    if contains_str(&d, "ubuntu") || contains_str(&d, "debian") || contains_str(
                        &d,
                        "centos",
                    ) {
                        let o = OsImage {
                            id: slug.clone(),
                            name: i.name.clone(),
                            distribution: dist,
                            version: i.name.clone(),
                        };
                        assert(image_text(o) == do_image(*i));
                        r.push(o);
                    }
                },
                None => {},
            }
        }
        assert(image_texts(r@) =~= do_images(images@.take(k + 1)));
        k = k + 1;
    }
    assert(images@.take(images@.len() as int) =~= images@);
    r
}

/// The API path of one droplet.
pub fn server_path(provider_id: &str) -> (r: String)
    ensures
        r@ == "/droplets/"@ + provider_id@,
{
    let mut r = owned("/droplets/");
    r.append(provider_id);
    r
}

/// The API path that reboots one droplet.
pub fn reboot_path(provider_id: &str) -> (r: String)
    ensures
        r@ == "/droplets/"@ + provider_id@ + "/actions"@,
{
    let mut r = server_path(provider_id);
    r.append("/actions");
    r
}

} // verus!

