//! Linode: requests, reply checks and the mapping of replies.

use vstd::prelude::*;
use crate::platform::{CreateServerConfig, OsImage, ProvisionedServer, ProvisionedServerStatus, Region};
use crate::providers::{bearer, bearer_header, image_text, image_texts, opt_text, region_text};
use crate::text::{chars_of, equals, lowercase, nat_text, owned, push_char, to_lowercase, u64_text};

verus! {

/// The base of every Linode API path.
pub open spec fn linode_api_base() -> Seq<char> {
    "https://api.linode.com/v4"@
}

/// A Linode account.
pub struct LinodeProvider {
    pub api_token: String,
}

impl LinodeProvider {
    pub fn new(api_token: String) -> (r: Self)
        ensures
            r.api_token == api_token,
    {
        LinodeProvider { api_token }
    }

    /// The provider's name.
    pub fn name(&self) -> (r: &'static str)
        ensures
            r@ == "linode"@,
    {
        "linode"
    }

    /// The `Authorization` header of the account.
    pub fn auth_header(&self) -> (r: String)
        ensures
            r@ == bearer(self.api_token@),
    {
        bearer_header(self.api_token.as_str())
    }

    /// The URL of an API path.
    pub fn url(&self, path: &str) -> (r: String)
        ensures
            r@ == linode_api_base() + path@,
    {
        let mut r = owned("https://api.linode.com/v4");
        r.append(path);
        r
    }
}

/// The server state of a Linode status word.
pub open spec fn linode_status(s: Seq<char>) -> ProvisionedServerStatus {
    if s == "running"@ {
        ProvisionedServerStatus::Running
    } else if s == "booting"@ || s == "provisioning"@ || s == "rebooting"@ {
        ProvisionedServerStatus::Pending
    } else if s == "offline"@ || s == "shutting_down"@ {
        ProvisionedServerStatus::Stopped
    } else {
        ProvisionedServerStatus::Error
    }
}

/// The status words Linode reports for an instance that exists.
pub open spec fn linode_live_word(s: Seq<char>) -> bool {
    s == "running"@ || s == "booting"@ || s == "provisioning"@ || s == "rebooting"@ || s
        == "offline"@ || s == "shutting_down"@
}

/// Law: Linode's status words map as the provider names them: an instance
/// reads as running exactly when Linode says `running`, as pending exactly
/// for `booting`, `provisioning` and `rebooting`, as stopped exactly for
/// `offline` and `shutting_down`; no word Linode reports for a live
/// instance reads as an error, and every other word does.
pub proof fn law_linode_status_words(s: Seq<char>)
    ensures
        linode_status(s) == ProvisionedServerStatus::Running <==> s == "running"@,
        linode_status(s) == ProvisionedServerStatus::Pending <==> (s == "booting"@ || s
            == "provisioning"@ || s == "rebooting"@),
        linode_status(s) == ProvisionedServerStatus::Stopped <==> (s == "offline"@ || s
            == "shutting_down"@),
        linode_status(s) == ProvisionedServerStatus::Error <==> !linode_live_word(s),
{
    reveal_strlit("running");
    reveal_strlit("booting");
    reveal_strlit("provisioning");
    reveal_strlit("rebooting");
    reveal_strlit("offline");
    reveal_strlit("shutting_down");
    assert("running"@[0] != "booting"@[0]);
    assert("running"@[0] != "provisioning"@[0]);
    assert("running"@.len() != "rebooting"@.len());
    assert("running"@[0] != "offline"@[0]);
    assert("running"@[0] != "shutting_down"@[0]);
    assert("booting"@[0] != "offline"@[0]);
    assert("booting"@[0] != "shutting_down"@[0]);
    assert("provisioning"@[0] != "offline"@[0]);
    assert("provisioning"@[0] != "shutting_down"@[0]);
    assert("rebooting"@[0] != "offline"@[0]);
    assert("rebooting"@[0] != "shutting_down"@[0]);
}

/// The server state of a Linode status word.
pub fn parse_linode_status(status: &str) -> (r: ProvisionedServerStatus)
    ensures
        r == linode_status(status@),
{
    let v = chars_of(status);
    if equals(&v, "running") {
        ProvisionedServerStatus::Running
    } else if equals(&v, "booting") || equals(&v, "provisioning") || equals(&v, "rebooting") {
        ProvisionedServerStatus::Pending
    } else if equals(&v, "offline") || equals(&v, "shutting_down") {
        ProvisionedServerStatus::Stopped
    } else {
        ProvisionedServerStatus::Error
    }
}

/// The characters a root password is drawn from.
pub open spec fn password_alphabet() -> Seq<char> {
    "abcdefghijklmnopqrstuvwxyzABCDEFGHIJKLMNOPQRSTUVWXYZ0123456789"@
}

/// The password that a sequence of random draws picks: one character per
/// draw, the draw taken modulo the size of the alphabet.
pub open spec fn password_of(draws: Seq<usize>) -> Seq<char> {
    Seq::new(draws.len(), |i: int| password_alphabet()[draws[i] as int % 62])
}

/// The password that a sequence of random draws picks.
pub fn password_from_draws(draws: &Vec<usize>) -> (r: String)
    ensures
        r@ == password_of(draws@),
{
    let alphabet = chars_of("abcdefghijklmnopqrstuvwxyzABCDEFGHIJKLMNOPQRSTUVWXYZ0123456789");
    proof {
        reveal_strlit("abcdefghijklmnopqrstuvwxyzABCDEFGHIJKLMNOPQRSTUVWXYZ0123456789");
    }
    assert(alphabet@.len() == 62);
    let mut r = String::new();
    let mut i: usize = 0;
    while i < draws.len()
        invariant
            i <= draws@.len(),
            alphabet@ == password_alphabet(),
            alphabet@.len() == 62,
            r@ == password_of(draws@).take(i as int),
        decreases draws@.len() - i,
    {
        let idx = draws[i] % 62;
        push_char(&mut r, alphabet[idx]);
        assert(r@ =~= password_of(draws@).take(i + 1));
        i = i + 1;
    }
    assert(password_of(draws@).take(draws@.len() as int) =~= password_of(draws@));
    r
}

/// `rand::random::<usize>()`: a value drawn from the thread-local
/// generator. Nothing is stated of the value.
#[verifier::external_body]
fn random_usize() -> (r: usize) {
    rand::random::<usize>()
}

/// A fresh root password: 32 characters of the alphabet, drawn at random.
pub fn root_password() -> (r: String)
    ensures
        r@.len() == 32,
        forall|i: int| 0 <= i < 32 ==> password_alphabet().contains(#[trigger] r@[i]),
{
    let mut draws: Vec<usize> = Vec::new();
    let mut i: usize = 0;
    while i < 32
        invariant
            i <= 32,
            draws@.len() == i,
        decreases 32 - i,
    {
        draws.push(random_usize());
        i = i + 1;
    }
    let r = password_from_draws(&draws);
    proof {
        reveal_strlit("abcdefghijklmnopqrstuvwxyzABCDEFGHIJKLMNOPQRSTUVWXYZ0123456789");
    }
    assert(password_alphabet().len() == 62);
    assert forall|i: int| 0 <= i < 32 implies password_alphabet().contains(#[trigger] r@[i]) by {
        let k = draws@[i] as int % 62;
        assert(r@[i] == password_alphabet()[k]);
    }
    r
}

/// The body of an instance-creation request.
pub struct LinodeCreateRequest {
    pub label: String,
    pub region: String,
    pub linode_type: String,
    pub image: String,
    pub authorized_keys: Vec<String>,
    pub root_pass: String,
    pub tags: Vec<String>,
}

/// The request that creates the instance a configuration describes, with
/// the root password that Linode requires.
pub fn create_linode_request_with(config: CreateServerConfig, root_pass: String) -> (r:
    LinodeCreateRequest)
    ensures
        r.label == config.name,
        r.region == config.region,
        r.linode_type == config.size,
        r.image == config.image,
        r.authorized_keys == config.ssh_key_ids,
        r.root_pass == root_pass,
        r.tags == config.tags,
{
    LinodeCreateRequest {
        label: config.name,
        region: config.region,
        linode_type: config.size,
        image: config.image,
        authorized_keys: config.ssh_key_ids,
        root_pass,
        tags: config.tags,
    }
}

/// The request that creates the instance a configuration describes, with
/// a fresh random root password.
pub fn create_linode_request(config: CreateServerConfig) -> (r: LinodeCreateRequest)
    ensures
        r.label == config.name,
        r.region == config.region,
        r.linode_type == config.size,
        r.image == config.image,
        r.authorized_keys == config.ssh_key_ids,
        r.tags == config.tags,
        r.root_pass@.len() == 32,
        forall|i: int| 0 <= i < 32 ==> password_alphabet().contains(#[trigger] r.root_pass@[i]),
{
    let pass = root_password();
    create_linode_request_with(config, pass)
}

/// An instance as the API describes it.
pub struct LinodeInstance {
    pub id: u64,
    pub label: String,
    pub status: String,
    pub ipv4: Vec<String>,
    pub ipv6: Option<String>,
    pub region: String,
    pub linode_type: String,
}

/// The platform's record of an instance the API described, whether just
/// created or looked up: its first IPv4 address.
pub fn provisioned_server(instance: LinodeInstance) -> (r: ProvisionedServer)
    ensures
        r.provider_id@ == nat_text(instance.id as nat),
        r.name == instance.label,
        opt_text(r.ip_address) == (if instance.ipv4@.len() > 0 {
            Some(instance.ipv4@[0]@)
        } else {
            None
        }),
        r.ipv6_address == instance.ipv6,
        r.status == linode_status(instance.status@),
        r.region == instance.region,
        r.size == instance.linode_type,
{
    let status = parse_linode_status(instance.status.as_str());
    let ip_address = if instance.ipv4.len() > 0 {
        Some(instance.ipv4[0].clone())
    } else {
        None
    };
    ProvisionedServer {
        provider_id: u64_text(instance.id),
        name: instance.label,
        ip_address,
        ipv6_address: instance.ipv6,
        status,
        region: instance.region,
        size: instance.linode_type,
    }
}

/// A region as the API describes it.
pub struct LinodeRegion {
    pub id: String,
    pub label: String,
    pub country: String,
    pub status: String,
}

/// The region records of the regions, in order: available when their
/// status is `ok`.
pub fn regions_from(regions: &Vec<LinodeRegion>) -> (r: Vec<Region>)
    ensures
        r@.len() == regions@.len(),
        forall|i: int|
            0 <= i < r@.len() ==> region_text(#[trigger] r@[i]) == (
                regions@[i].id@,
                regions@[i].label@,
                Some(regions@[i].country@),
                regions@[i].status@ == "ok"@,
            ),
{
    let mut r: Vec<Region> = Vec::new();
    let mut i: usize = 0;
    while i < regions.len()
        invariant
            i <= regions@.len(),
            r@.len() == i,
            forall|k: int|
                0 <= k < i ==> region_text(#[trigger] r@[k]) == (
                    regions@[k].id@,
                    regions@[k].label@,
                    Some(regions@[k].country@),
                    regions@[k].status@ == "ok"@,
                ),
        decreases regions@.len() - i,
    {
        let g = &regions[i];
        let s = chars_of(g.status.as_str());
        let available = equals(&s, "ok");
        r.push(
            Region {
                id: g.id.clone(),
                name: g.label.clone(),
                country: Some(g.country.clone()),
                available,
            },
        );
        i = i + 1;
    }
    r
}

/// An image as the API describes it.
pub struct LinodeImage {
    pub id: String,
    pub label: String,
    pub vendor: Option<String>,
    pub is_public: bool,
}

/// A public image of a supported vendor.
pub open spec fn linode_image_kept(i: LinodeImage) -> bool {
    i.is_public && match i.vendor {
        Some(v) => v@ == "Ubuntu"@ || v@ == "Debian"@ || v@ == "CentOS"@,
        None => false,
    }
}

/// The image record of an image: the vendor, in lower case, is the
/// distribution.
pub open spec fn linode_image(i: LinodeImage) -> (Seq<char>, Seq<char>, Seq<char>, Seq<char>) {
    (
        i.id@,
        i.label@,
        lowercase(
            match i.vendor {
                Some(v) => v@,
                None => seq![],
            },
        ),
        i.label@,
    )
}

/// The image records of the kept images, in order.
pub open spec fn linode_images(s: Seq<LinodeImage>) -> Seq<(Seq<char>, Seq<char>, Seq<char>, Seq<char>)>
    decreases s.len(),
{
    if s.len() == 0 {
        seq![]
    } else if linode_image_kept(s.last()) {
        linode_images(s.drop_last()).push(linode_image(s.last()))
    } else {
        linode_images(s.drop_last())
    }
}

/// The image records of the public images of supported vendors, in order.
pub fn images_from(images: &Vec<LinodeImage>) -> (r: Vec<OsImage>)
    ensures
        image_texts(r@) == linode_images(images@),
{
    let mut r: Vec<OsImage> = Vec::new();
    let mut k: usize = 0;
    while k < images.len()
        invariant
            k <= images@.len(),
            image_texts(r@) == linode_images(images@.take(k as int)),
        decreases images@.len() - k,
    {
        let i = &images[k];
        assert(images@.take(k + 1).drop_last() =~= images@.take(k as int));
        assert(images@.take(k + 1).last() == images@[k as int]);
        if i.is_public {
            match &i.vendor {
                Some(v) => {
                    let c = chars_of(v.as_str());
                    if equals(&c, "Ubuntu") || equals(&c, "Debian") || equals(&c, "CentOS") {
                        let o = OsImage {
                            id: i.id.clone(),
                            name: i.label.clone(),
                            distribution: to_lowercase(v.as_str()),
                            version: i.label.clone(),
                        };
                        assert(image_text(o) == linode_image(*i));
                        r.push(o);
                    }
                },
                None => {},
            }
        }
        assert(image_texts(r@) =~= linode_images(images@.take(k + 1)));
        k = k + 1;
    }
    assert(images@.take(images@.len() as int) =~= images@);
    r
}

/// The API path of one Linode instance.
pub fn server_path(provider_id: &str) -> (r: String)
    ensures
        r@ == "/linode/instances/"@ + provider_id@,
{
    let mut r = owned("/linode/instances/");
    r.append(provider_id);
    r
}

/// The API path that reboots one Linode instance.
pub fn reboot_path(provider_id: &str) -> (r: String)
    ensures
        r@ == "/linode/instances/"@ + provider_id@ + "/reboot"@,
{
    let mut r = server_path(provider_id);
    r.append("/reboot");
    r
}

} // verus!

