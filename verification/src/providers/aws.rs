//! AWS EC2: the instances requested and the mapping of the SDK's replies.

use vstd::prelude::*;
use crate::platform::{CreateServerConfig, Error, OsImage, ProvisionedServer, ProvisionedServerStatus, Region};
use crate::providers::{image_text, image_texts, opt_text, region_text};
use crate::text::{chars_of, equals, owned};

verus! {

/// The state of an EC2 instance.
#[derive(Debug, Clone, Copy, PartialEq, Eq, Structural)]
pub enum AwsInstanceState {
    Pending,
    Running,
    ShuttingDown,
    Terminated,
    Stopping,
    Stopped,
    Unknown,
}

/// The server state of an instance state, when the SDK gave one.
pub open spec fn aws_status(s: Option<AwsInstanceState>) -> ProvisionedServerStatus {
    match s {
        Some(AwsInstanceState::Running) => ProvisionedServerStatus::Running,
        Some(AwsInstanceState::Pending) => ProvisionedServerStatus::Pending,
        Some(AwsInstanceState::Stopped) => ProvisionedServerStatus::Stopped,
        Some(AwsInstanceState::Stopping) => ProvisionedServerStatus::Stopped,
        _ => ProvisionedServerStatus::Error,
    }
}

/// Law: an instance reads as running exactly in the `running` state, as
/// pending exactly in `pending`, as stopped exactly in `stopping` and
/// `stopped`, and as an error in any other state or when no state came.
pub proof fn law_aws_states(s: Option<AwsInstanceState>)
    ensures
        aws_status(s) == ProvisionedServerStatus::Running <==> s == Some(AwsInstanceState::Running),
        aws_status(s) == ProvisionedServerStatus::Pending <==> s == Some(AwsInstanceState::Pending),
        aws_status(s) == ProvisionedServerStatus::Stopped <==> (s == Some(AwsInstanceState::Stopping)
            || s == Some(AwsInstanceState::Stopped)),
        aws_status(s) == ProvisionedServerStatus::Error <==> (s is None || s == Some(
            AwsInstanceState::ShuttingDown,
        ) || s == Some(AwsInstanceState::Terminated) || s == Some(AwsInstanceState::Unknown)),
{
}

/// The server state of an instance state, when the SDK gave one.
pub fn parse_aws_status(state: Option<AwsInstanceState>) -> (r: ProvisionedServerStatus)
    ensures
        r == aws_status(state),
{
    match state {
        Some(AwsInstanceState::Running) => ProvisionedServerStatus::Running,
        Some(AwsInstanceState::Pending) => ProvisionedServerStatus::Pending,
        Some(AwsInstanceState::Stopped) => ProvisionedServerStatus::Stopped,
        Some(AwsInstanceState::Stopping) => ProvisionedServerStatus::Stopped,
        _ => ProvisionedServerStatus::Error,
    }
}

/// A tag of an instance.
pub struct AwsTag {
    pub key: Option<String>,
    pub value: Option<String>,
}

/// An instance as the SDK describes it.
pub struct AwsInstance {
    pub instance_id: Option<String>,
    pub public_ip_address: Option<String>,
    pub state: Option<AwsInstanceState>,
    pub instance_type: Option<String>,
    pub tags: Vec<AwsTag>,
}

/// An image as the SDK describes it.
pub struct AwsImage {
    pub image_id: Option<String>,
    pub name: Option<String>,
}

/// The instance to launch for a configuration: its image and type, the
/// first SSH key as the key pair, the user data, and a `Name` tag.
pub struct AwsRunInstancesRequest {
    pub image_id: String,
    pub instance_type: String,
    pub key_name: Option<String>,
    pub user_data: Option<String>,
    pub name_tag: String,
}

/// The instance to launch for a configuration.
pub fn run_instances_request(config: &CreateServerConfig) -> (r: AwsRunInstancesRequest)
    ensures
        r.image_id@ == config.image@,
        r.instance_type@ == config.size@,
        opt_text(r.key_name) == (if config.ssh_key_ids@.len() > 0 {
            Some(config.ssh_key_ids@[0]@)
        } else {
            None
        }),
        opt_text(r.user_data) == opt_text(config.user_data),
        r.name_tag@ == config.name@,
{
    let key_name = if config.ssh_key_ids.len() > 0 {
        Some(config.ssh_key_ids[0].clone())
    } else {
        None
    };
    let user_data = match &config.user_data {
        Some(d) => Some(d.clone()),
        None => None,
    };
    AwsRunInstancesRequest {
        image_id: config.image.clone(),
        instance_type: config.size.clone(),
        key_name,
        user_data,
        name_tag: config.name.clone(),
    }
}

/// The value of the first `Name` tag, or `unnamed`.
pub open spec fn name_tag(tags: Seq<AwsTag>) -> Seq<char>
    decreases tags.len(),
{
    if tags.len() == 0 {
        "unnamed"@
    } else if opt_text(tags[0].key) == Some("Name"@) {
        match tags[0].value {
            Some(v) => v@,
            None => "unnamed"@,
        }
    } else {
        name_tag(tags.drop_first())
    }
}

/// The value of the first `Name` tag, or `unnamed`.
pub fn name_of(tags: &Vec<AwsTag>) -> (r: String)
    ensures
        r@ == name_tag(tags@),
{
    let mut i: usize = 0;
    assert(tags@.skip(0) =~= tags@);
    while i < tags.len()
        invariant
            i <= tags@.len(),
            name_tag(tags@) == name_tag(tags@.skip(i as int)),
        decreases tags@.len() - i,
    {
        assert(tags@.skip(i as int).drop_first() =~= tags@.skip(i + 1));
        assert(tags@.skip(i as int)[0] == tags@[i as int]);
        match &tags[i].key {
            Some(k) => {
                let c = chars_of(k.as_str());
                if equals(&c, "Name") {
                    return match &tags[i].value {
                        Some(v) => v.clone(),
                        None => owned("unnamed"),
                    };
                }
            },
            None => {},
        }
        i = i + 1;
    }
    owned("unnamed")
}

/// An AWS account in one region.
pub struct AwsProvider {
    pub region: String,
}

impl AwsProvider {
    pub fn new(region: String) -> (r: Self)
        ensures
            r.region == region,
    {
        AwsProvider { region }
    }

    /// The provider's name.
    pub fn name(&self) -> (r: &'static str)
        ensures
            r@ == "aws"@,
    {
        "aws"
    }

    /// The record of the instance just launched: the first instance of
    /// the reply, under the configured name and size. A reply without an
    /// instance, or whose instance has no id, is an error.
    pub fn created_server(&self, instances: Vec<AwsInstance>, name: String, size: String) -> (r:
        Result<ProvisionedServer, Error>)
        ensures
            instances@.len() == 0 ==> (r matches Err(Error::Provider(m)) && m@
                == "No instance created"@),
            instances@.len() > 0 && instances@[0].instance_id is None ==> (r matches Err(
                Error::Provider(m),
            ) && m@ == "No instance ID"@),
            r is Ok <==> instances@.len() > 0 && instances@[0].instance_id is Some,
            r matches Ok(s) ==> {
                &&& Some(s.provider_id@) == opt_text(instances@[0].instance_id)
                &&& s.name == name
                &&& opt_text(s.ip_address) == opt_text(instances@[0].public_ip_address)
                &&& s.ipv6_address is None
                &&& s.status == aws_status(instances@[0].state)
                &&& s.region@ == self.region@
                &&& s.size == size
            },
    {
        if instances.len() == 0 {
            return Err(Error::Provider(owned("No instance created")));
        }
        let instance = &instances[0];
        let id = match &instance.instance_id {
            Some(id) => id.clone(),
            None => {
                return Err(Error::Provider(owned("No instance ID")));
            },
        };
        let ip_address = match &instance.public_ip_address {
            Some(ip) => Some(ip.clone()),
            None => None,
        };
        Ok(
            ProvisionedServer {
                provider_id: id,
                name,
                ip_address,
                ipv6_address: None,
                status: parse_aws_status(instance.state),
                region: self.region.clone(),
                size,
            },
        )
    }

    /// The record of an instance looked up: the first instance of the
    /// first reservation, named by its `Name` tag. A reply without one is
    /// `NotFound`.
    pub fn looked_up_server(&self, reservations: &Vec<Vec<AwsInstance>>, provider_id: &str) -> (r:
        Result<ProvisionedServer, Error>)
        ensures
            r is Ok <==> reservations@.len() > 0 && reservations@[0]@.len() > 0,
            r is Err ==> (r matches Err(Error::NotFound(m)) && m@ == "Instance "@ + provider_id@
                + " not found"@),
            r matches Ok(s) ==> {
                let i = reservations@[0]@[0];
                &&& s.provider_id@ == provider_id@
                &&& s.name@ == name_tag(i.tags@)
                &&& opt_text(s.ip_address) == opt_text(i.public_ip_address)
                &&& s.ipv6_address is None
                &&& s.status == aws_status(i.state)
                &&& s.region@ == self.region@
                &&& s.size@ == match i.instance_type {
                    Some(t) => t@,
                    None => seq![],
                }
            },
    {
        if reservations.len() == 0 || reservations[0].len() == 0 {
            let mut m = owned("Instance ");
            m.append(provider_id);
            m.append(" not found");
            return Err(Error::NotFound(m));
        }
        let instance = &reservations[0][0];
        let name = name_of(&instance.tags);
        let ip_address = match &instance.public_ip_address {
            Some(ip) => Some(ip.clone()),
            None => None,
        };
        let size = match &instance.instance_type {
            Some(t) => t.clone(),
            None => String::new(),
        };
        Ok(
            ProvisionedServer {
                provider_id: owned(provider_id),
                name,
                ip_address,
                ipv6_address: None,
                status: parse_aws_status(instance.state),
                region: self.region.clone(),
                size,
            },
        )
    }
}

/// The region records of the region names the SDK gave, in order: an
/// absent name is empty.
pub fn regions_from(names: &Vec<Option<String>>) -> (r: Vec<Region>)
    ensures
        r@.len() == names@.len(),
        forall|i: int|
            0 <= i < r@.len() ==> region_text(#[trigger] r@[i]) == {
                let n = match names@[i] {
                    Some(s) => s@,
                    None => seq![],
                };
                (n, n, None::<Seq<char>>, true)
            },
{
    let mut r: Vec<Region> = Vec::new();
    let mut i: usize = 0;
    while i < names.len()
        invariant
            i <= names@.len(),
            r@.len() == i,
            forall|k: int|
                0 <= k < i ==> region_text(#[trigger] r@[k]) == {
                    let n = match names@[k] {
                        Some(s) => s@,
                        None => seq![],
                    };
                    (n, n, None::<Seq<char>>, true)
                },
        decreases names@.len() - i,
    {
        let n = match &names[i] {
            Some(s) => s.clone(),
            None => String::new(),
        };
        r.push(Region { id: n.clone(), name: n, country: None, available: true });
        i = i + 1;
    }
    r
}

/// The image records of the images with both an id and a name, in order.
pub open spec fn aws_images(s: Seq<AwsImage>) -> Seq<(Seq<char>, Seq<char>, Seq<char>, Seq<char>)>
    decreases s.len(),
{
    if s.len() == 0 {
        seq![]
    } else {
        match (s.last().image_id, s.last().name) {
            (Some(id), Some(n)) => aws_images(s.drop_last()).push((id@, n@, "ubuntu"@, n@)),
            _ => aws_images(s.drop_last()),
        }
    }
}

/// At most the first `n` elements of a sequence.
pub open spec fn at_most<A>(s: Seq<A>, n: nat) -> Seq<A> {
    if s.len() <= n {
        s
    } else {
        s.take(n as int)
    }
}

/// The image records of the first twenty images with both an id and a
/// name.
pub fn images_from(images: &Vec<AwsImage>) -> (r: Vec<OsImage>)
    ensures
        image_texts(r@) == at_most(aws_images(images@), 20),
{
    let mut r: Vec<OsImage> = Vec::new();
    let mut k: usize = 0;
    while k < images.len()
        invariant
            k <= images@.len(),
            image_texts(r@) == at_most(aws_images(images@.take(k as int)), 20),
        decreases images@.len() - k,
    {
        let i = &images[k];
        assert(images@.take(k + 1).drop_last() =~= images@.take(k as int));
        assert(images@.take(k + 1).last() == images@[k as int]);
        let ghost before = aws_images(images@.take(k as int));
        match (&i.image_id, &i.name) {
            (Some(id), Some(n)) => {
                if r.len() < 20 {
                    let o = OsImage {
                        id: id.clone(),
                        name: n.clone(),
                        distribution: owned("ubuntu"),
                        version: n.clone(),
                    };
                    let ghost old_r = r@;
                    assert(image_texts(old_r).len() == old_r.len());
                    assert(before.len() < 20);
                    assert(at_most(before, 20) == before);
                    assert(image_text(o) == (id@, n@, "ubuntu"@, n@));
                    r.push(o);
                    assert(image_texts(r@) =~= image_texts(old_r).push(image_text(o)));
                    assert(at_most(before.push((id@, n@, "ubuntu"@, n@)), 20) == before.push(
                        (id@, n@, "ubuntu"@, n@),
                    ));
                } else {
                    assert(at_most(before.push((id@, n@, "ubuntu"@, n@)), 20) =~= at_most(before, 20));
                }
            },
            _ => {},
        }
        assert(image_texts(r@) =~= at_most(aws_images(images@.take(k + 1)), 20));
        k = k + 1;
    }
    assert(images@.take(images@.len() as int) =~= images@);
    r
}

} // verus!
