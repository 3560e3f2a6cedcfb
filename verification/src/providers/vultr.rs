//! Vultr: requests, reply checks and the mapping of replies.

use vstd::prelude::*;
use crate::encoding::{base64_encode, base64_std};
use crate::platform::{CreateServerConfig, Error, OsImage, ProvisionedServer, ProvisionedServerStatus, Region};
use crate::providers::{bearer, bearer_header, image_text, image_texts, opt_text, region_text};
use crate::text::{chars_of, equals, nat_text, owned, parse_u32, parse_unsigned, texts, u64_text};
use vstd::utf8::encode_utf8;

verus! {

/// The base of every Vultr API path.
pub open spec fn vultr_api_base() -> Seq<char> {
    "https://api.vultr.com/v2"@
}

/// A Vultr account.
pub struct VultrProvider {
    pub api_key: String,
}

impl VultrProvider {
    pub fn new(api_key: String) -> (r: Self)
        ensures
            r.api_key == api_key,
    {
        VultrProvider { api_key }
    }

    /// The provider's name.
    pub fn name(&self) -> (r: &'static str)
        ensures
            r@ == "vultr"@,
    {
        "vultr"
    }

    /// The `Authorization` header of the account.
    pub fn auth_header(&self) -> (r: String)
        ensures
            r@ == bearer(self.api_key@),
    {
        bearer_header(self.api_key.as_str())
    }

    /// The URL of an API path.
    pub fn url(&self, path: &str) -> (r: String)
        ensures
            r@ == vultr_api_base() + path@,
    {
        let mut r = owned("https://api.vultr.com/v2");
        r.append(path);
        r
    }
}

/// Law: Vultr's status words map as the provider names them: a server
/// reads as running exactly for `active`, as pending exactly for
/// `pending` and `installing`, as stopped exactly for `stopped` and
/// `suspended`, and as an error exactly for every other word.
pub proof fn law_vultr_status_words(s: Seq<char>)
    ensures
        vultr_status(s) == ProvisionedServerStatus::Running <==> s == "active"@,
        vultr_status(s) == ProvisionedServerStatus::Pending <==> (s == "pending"@ ||
            s == "installing"@),
        vultr_status(s) == ProvisionedServerStatus::Stopped <==> (s == "stopped"@ ||
            s == "suspended"@),
        vultr_status(s) == ProvisionedServerStatus::Error <==> !(s == "active"@ ||
            s == "pending"@ || s == "installing"@ || s == "stopped"@ || s == "suspended"@),
{
    reveal_strlit("active");
    reveal_strlit("pending");
    reveal_strlit("installing");
    reveal_strlit("stopped");
    reveal_strlit("suspended");
    assert("active"@[0] != "pending"@[0]);
    assert("active"@[0] != "installing"@[0]);
    assert("active"@[0] != "stopped"@[0]);
    assert("active"@[0] != "suspended"@[0]);
    assert("pending"@[0] != "stopped"@[0]);
    assert("pending"@[0] != "suspended"@[0]);
    assert("installing"@[0] != "stopped"@[0]);
    assert("installing"@[0] != "suspended"@[0]);
}

/// The server state of a Vultr status word.
pub open spec fn vultr_status(s: Seq<char>) -> ProvisionedServerStatus {
    if s == "active"@ {
        ProvisionedServerStatus::Running
    } else if s == "pending"@ || s == "installing"@ {
        ProvisionedServerStatus::Pending
    } else if s == "stopped"@ || s == "suspended"@ {
        ProvisionedServerStatus::Stopped
    } else {
        ProvisionedServerStatus::Error
    }
}

/// The server state of a Vultr status word.
pub fn parse_vultr_status(status: &str) -> (r: ProvisionedServerStatus)
    ensures
        r == vultr_status(status@),
{
    let v = chars_of(status);
    if equals(&v, "active") {
        ProvisionedServerStatus::Running
    } else if equals(&v, "pending") || equals(&v, "installing") {
        ProvisionedServerStatus::Pending
    } else if equals(&v, "stopped") || equals(&v, "suspended") {
        ProvisionedServerStatus::Stopped
    } else {
        ProvisionedServerStatus::Error
    }
}

/// The body of an instance-creation request.
pub struct VultrCreateInstanceRequest {
    pub region: String,
    pub plan: String,
    pub os_id: u32,
    pub label: String,
    pub sshkey_id: Vec<String>,
    pub user_data: Option<String>,
    pub tags: Vec<String>,
}

/// The user data of a configuration fits, once base64-encoded, in memory.
pub open spec fn user_data_encodable(d: Option<String>) -> bool {
    match d {
        Some(t) => 4 * ((encode_utf8(t@).len() + 2) / 3) <= usize::MAX,
        None => true,
    }
}

/// The request that creates the instance a configuration describes: the
/// image names the operating system by number, and the user data is sent
/// base64-encoded. An image that is not a `u32` is refused.
pub fn create_instance_request(config: CreateServerConfig) -> (r: Result<
    VultrCreateInstanceRequest,
    Error,
>)
    requires
        user_data_encodable(config.user_data),
    ensures
        parse_unsigned(config.image@, u32::MAX as nat) is None <==> (r matches Err(
            Error::Validation(m),
        ) && m@ == "Invalid OS ID"@),
        r is Ok <==> parse_unsigned(config.image@, u32::MAX as nat) is Some,
        r matches Ok(q) ==> {
            &&& parse_unsigned(config.image@, u32::MAX as nat) == Some(q.os_id as nat)
            &&& q.region == config.region
            &&& q.plan == config.size
            &&& q.label == config.name
            &&& q.sshkey_id == config.ssh_key_ids
            &&& q.tags == config.tags
            &&& opt_text(q.user_data) == match config.user_data {
                Some(d) => Some(base64_std(encode_utf8(d@))),
                None => None::<Seq<char>>,
            }
        },
{
    let image = chars_of(config.image.as_str());
    let os_id = match parse_u32(&image) {
        Some(n) => n,
        None => {
            return Err(Error::Validation(owned("Invalid OS ID")));
        },
    };
    let user_data = match &config.user_data {
        Some(d) => Some(base64_encode(d.as_str().as_bytes())),
        None => None,
    };
    Ok(
        VultrCreateInstanceRequest {
            region: config.region,
            plan: config.size,
            os_id,
            label: config.name,
            sshkey_id: config.ssh_key_ids,
            user_data,
            tags: config.tags,
        },
    )
}

/// An instance as the API describes it.
pub struct VultrInstance {
    pub id: String,
    pub label: String,
    pub main_ip: String,
    pub v6_main_ip: String,
    pub status: String,
    pub region: String,
    pub plan: String,
}

/// An address, unless the API left it empty or gave `unassigned` for it.
pub open spec fn assigned(ip: Seq<char>, unassigned: Seq<char>) -> Option<Seq<char>> {
    if ip.len() == 0 || ip == unassigned {
        None
    } else {
        Some(ip)
    }
}

fn assigned_address(ip: String, unassigned: &str) -> (r: Option<String>)
    ensures
        opt_text(r) == assigned(ip@, unassigned@),
        r matches Some(s) ==> s == ip,
{
    let v = chars_of(ip.as_str());
    if v.len() == 0 || equals(&v, unassigned) {
        None
    } else {
        Some(ip)
    }
}

/// The platform's record of an instance just created: an empty address
/// means none.
pub fn created_server(instance: VultrInstance) -> (r: ProvisionedServer)
    ensures
        r.provider_id == instance.id,
        r.name == instance.label,
        opt_text(r.ip_address) == assigned(instance.main_ip@, seq![]),
        opt_text(r.ipv6_address) == assigned(instance.v6_main_ip@, seq![]),
        r.status == vultr_status(instance.status@),
        r.region == instance.region,
        r.size == instance.plan,
{
    let status = parse_vultr_status(instance.status.as_str());
    let ip_address = assigned_address(instance.main_ip, "");
    let ipv6_address = assigned_address(instance.v6_main_ip, "");
    proof {
        reveal_strlit("");
    }
    ProvisionedServer {
        provider_id: instance.id,
        name: instance.label,
        ip_address,
        ipv6_address,
        status,
        region: instance.region,
        size: instance.plan,
    }
}

/// The platform's record of an instance looked up: an empty address, or
/// `0.0.0.0` for IPv4, means none.
pub fn looked_up_server(instance: VultrInstance) -> (r: ProvisionedServer)
    ensures
        r.provider_id == instance.id,
        r.name == instance.label,
        opt_text(r.ip_address) == assigned(instance.main_ip@, "0.0.0.0"@),
        opt_text(r.ipv6_address) == assigned(instance.v6_main_ip@, seq![]),
        r.status == vultr_status(instance.status@),
        r.region == instance.region,
        r.size == instance.plan,
{
    let status = parse_vultr_status(instance.status.as_str());
    let ip_address = assigned_address(instance.main_ip, "0.0.0.0");
    let ipv6_address = assigned_address(instance.v6_main_ip, "");
    proof {
        reveal_strlit("");
    }
    ProvisionedServer {
        provider_id: instance.id,
        name: instance.label,
        ip_address,
        ipv6_address,
        status,
        region: instance.region,
        size: instance.plan,
    }
}

/// A region as the API describes it.
pub struct VultrRegion {
    pub id: String,
    pub city: String,
    pub country: String,
    pub continent: String,
    pub options: Vec<String>,
}

/// The region record of a region: named `city, country`, and available
/// when it offers bare metal or compute.
pub open spec fn vultr_region(g: VultrRegion) -> (Seq<char>, Seq<char>, Option<Seq<char>>, bool) {
    (
        g.id@,
        g.city@ + ", "@ + g.country@,
        Some(g.country@),
        texts(g.options@).contains("bare_metal"@) || texts(g.options@).contains("compute"@),
    )
}

/// Whether a list of strings holds `w`.
pub fn holds_word(v: &Vec<String>, w: &str) -> (b: bool)
    ensures
        b == texts(v@).contains(w@),
{
    let mut i: usize = 0;
    while i < v.len()
        invariant
            i <= v@.len(),
            forall|k: int| 0 <= k < i ==> v@[k]@ != w@,
        decreases v@.len() - i,
    {
        let c = chars_of(v[i].as_str());
        if equals(&c, w) {
            assert(texts(v@)[i as int] == w@);
            return true;
        }
        i = i + 1;
    }
    assert(!texts(v@).contains(w@)) by {
        if texts(v@).contains(w@) {
            let k = choose|k: int| 0 <= k < texts(v@).len() && texts(v@)[k] == w@;
            assert(v@[k]@ == w@);
        }
    }
    false
}

/// The region records of the regions, in order.
pub fn regions_from(regions: &Vec<VultrRegion>) -> (r: Vec<Region>)
    ensures
        r@.len() == regions@.len(),
        forall|i: int|
            0 <= i < r@.len() ==> region_text(#[trigger] r@[i]) == vultr_region(regions@[i]),
{
    let mut r: Vec<Region> = Vec::new();
    let mut i: usize = 0;
    while i < regions.len()
        invariant
            i <= regions@.len(),
            r@.len() == i,
            forall|k: int|
                0 <= k < i ==> region_text(#[trigger] r@[k]) == vultr_region(regions@[k]),
        decreases regions@.len() - i,
    {
        let g = &regions[i];
        let mut name = g.city.clone();
        name.append(", ");
        name.append(g.country.as_str());
        let available = holds_word(&g.options, "bare_metal") || holds_word(&g.options, "compute");
        r.push(Region { id: g.id.clone(), name, country: Some(g.country.clone()), available });
        i = i + 1;
    }
    r
}

/// An operating system as the API describes it.
pub struct VultrOs {
    pub id: u32,
    pub name: String,
    pub arch: String,
    pub family: String,
}

/// The families the platform installs on.
pub open spec fn supported_family(f: Seq<char>) -> bool {
    f == "ubuntu"@ || f == "debian"@ || f == "centos"@
}

/// The image record of an operating system.
pub open spec fn vultr_image(o: VultrOs) -> (Seq<char>, Seq<char>, Seq<char>, Seq<char>) {
    (nat_text(o.id as nat), o.name@, o.family@, o.name@)
}

/// The image records of the operating systems of supported families, in
/// order.
pub open spec fn vultr_images(s: Seq<VultrOs>) -> Seq<(Seq<char>, Seq<char>, Seq<char>, Seq<char>)>
    decreases s.len(),
{
    if s.len() == 0 {
        seq![]
    } else if supported_family(s.last().family@) {
        vultr_images(s.drop_last()).push(vultr_image(s.last()))
    } else {
        vultr_images(s.drop_last())
    }
}

/// The image records of the operating systems of supported families, in
/// order.
pub fn images_from(os: &Vec<VultrOs>) -> (r: Vec<OsImage>)
    ensures
        image_texts(r@) == vultr_images(os@),
{
    let mut r: Vec<OsImage> = Vec::new();
    let mut k: usize = 0;
    while k < os.len()
        invariant
            k <= os@.len(),
            image_texts(r@) == vultr_images(os@.take(k as int)),
        decreases os@.len() - k,
    {
        let o = &os[k];
        assert(os@.take(k + 1).drop_last() =~= os@.take(k as int));
        assert(os@.take(k + 1).last() == os@[k as int]);
        let f = chars_of(o.family.as_str());
        if equals(&f, "ubuntu") || equals(&f, "debian") || equals(&f, "centos") {
            let img = OsImage {
                id: u64_text(o.id as u64),
                name: o.name.clone(),
                distribution: o.family.clone(),
                version: o.name.clone(),
            };
            assert(image_text(img) == vultr_image(*o));
            r.push(img);
        }
        assert(image_texts(r@) =~= vultr_images(os@.take(k + 1)));
        k = k + 1;
    }
    assert(os@.take(os@.len() as int) =~= os@);
    r
}

/// The API path of one instance.
pub fn server_path(provider_id: &str) -> (r: String)
    ensures
        r@ == "/instances/"@ + provider_id@,
{
    let mut r = owned("/instances/");
    r.append(provider_id);
    r
}

/// The API path that reboots one instance.
pub fn reboot_path(provider_id: &str) -> (r: String)
    ensures
        r@ == "/instances/"@ + provider_id@ + "/reboot"@,
{
    let mut r = server_path(provider_id);
    r.append("/reboot");
    r
}

} // verus!

