use kornetti::platform::{
    AwsConfig, CloudProvider, CreateServerConfig, DigitalOceanConfig, Error, LinodeConfig,
    ProvidersConfig, ProvisionedServerStatus, VultrConfig,
};
use kornetti::providers::aws::{AwsImage, AwsInstance, AwsInstanceState, AwsProvider, AwsTag, parse_aws_status, run_instances_request};
use kornetti::providers::azure::AzureProvider;
use kornetti::providers::digitalocean::{
    check_delete_status, create_droplet_request, first_public_address, parse_do_status, DoDroplet,
    DoImage, DoNetwork,
};
use kornetti::providers::factory::{ProviderFactory, ProviderHandle};
use kornetti::providers::gcp::GcpProvider;
use kornetti::providers::hetzner::{
    create_server_request, images_from, parse_hetzner_status, provisioned_server,
    regions_from_locations, HetznerImage, HetznerLocation, HetznerProvider, HetznerServer,
};
use kornetti::providers::linode::{password_from_draws, root_password, LinodeImage, LinodeInstance};
use kornetti::providers::vultr::{create_instance_request, looked_up_server, VultrInstance, VultrRegion};
use kornetti::providers::{check_status, parse_failed, request_failed};

fn config(image: &str, tags: Vec<&str>, user_data: Option<&str>) -> CreateServerConfig {
    CreateServerConfig {
        name: "web-1".to_string(),
        region: "fsn1".to_string(),
        size: "cx21".to_string(),
        image: image.to_string(),
        ssh_key_ids: vec!["k1".to_string(), "k2".to_string()],
        user_data: user_data.map(|s| s.to_string()),
        tags: tags.into_iter().map(|t| t.to_string()).collect(),
    }
}

#[test]
fn hetzner_status_words() {
    assert_eq!(parse_hetzner_status("running"), ProvisionedServerStatus::Running);
    assert_eq!(parse_hetzner_status("initializing"), ProvisionedServerStatus::Pending);
    assert_eq!(parse_hetzner_status("starting"), ProvisionedServerStatus::Pending);
    assert_eq!(parse_hetzner_status("off"), ProvisionedServerStatus::Stopped);
    assert_eq!(parse_hetzner_status("deleting"), ProvisionedServerStatus::Error);
}

#[test]
fn hetzner_request_labels_tags_by_position() {
    let r = create_server_request(config("ubuntu-22.04", vec!["web", "prod"], None));
    assert_eq!(r.name, "web-1");
    assert_eq!(r.server_type, "cx21");
    assert_eq!(r.location, "fsn1");
    assert_eq!(
        r.labels,
        vec![("tag_0".to_string(), "web".to_string()), ("tag_1".to_string(), "prod".to_string())]
    );
}

#[test]
fn hetzner_server_mapping() {
    let s = provisioned_server(HetznerServer {
        id: 4711,
        name: "web-1".to_string(),
        ipv4: Some("1.2.3.4".to_string()),
        ipv6: None,
        status: "running".to_string(),
        server_type: "cx21".to_string(),
        location: "fsn1".to_string(),
    });
    assert_eq!(s.provider_id, "4711");
    assert_eq!(s.ip_address, Some("1.2.3.4".to_string()));
    assert_eq!(s.ipv6_address, None);
    assert_eq!(s.status, ProvisionedServerStatus::Running);
    assert_eq!(s.region, "fsn1");
    assert_eq!(s.size, "cx21");
}

#[test]
fn hetzner_regions_and_images() {
    let regions = regions_from_locations(&vec![HetznerLocation {
        id: 1,
        name: "fsn1".to_string(),
        description: "Falkenstein DC Park 1".to_string(),
        country: "DE".to_string(),
        city: "Falkenstein".to_string(),
        network_zone: "eu-central".to_string(),
    }]);
    assert_eq!(regions[0].name, "Falkenstein (Falkenstein DC Park 1)");
    assert_eq!(regions[0].country, Some("DE".to_string()));
    let img = |id: u64, flavor: &str, version: Option<&str>| HetznerImage {
        id,
        name: None,
        description: format!("image {}", id),
        os_flavor: flavor.to_string(),
        os_version: version.map(|v| v.to_string()),
        image_type: "system".to_string(),
    };
    let images = images_from(&vec![img(1, "ubuntu", Some("22.04")), img(2, "fedora", None), img(3, "debian", None)]);
    assert_eq!(images.len(), 2);
    assert_eq!(images[0].id, "1");
    assert_eq!(images[0].version, "22.04");
    assert_eq!(images[1].id, "3");
    assert_eq!(images[1].version, "image 3");
}

#[test]
fn provider_names_and_urls() {
    let h = HetznerProvider::new("tok".to_string());
    assert_eq!(h.name(), "hetzner");
    assert_eq!(h.auth_header(), "Bearer tok");
    assert_eq!(h.url("/servers"), "https://api.hetzner.cloud/v1/servers");
}

#[test]
fn reply_checks() {
    assert!(check_status("Hetzner", true, "200 OK", "").is_ok());
    assert_eq!(
        check_status("Hetzner", false, "404 Not Found", "gone"),
        Err(Error::Provider("Hetzner API error 404 Not Found: gone".to_string()))
    );
    assert_eq!(
        request_failed("Vultr", "timeout"),
        Error::Provider("Vultr API request failed: timeout".to_string())
    );
    assert_eq!(
        parse_failed("Linode", "eof"),
        Error::Provider("Failed to parse Linode response: eof".to_string())
    );
    assert!(check_delete_status(false, 204, "204 No Content", "").is_ok());
    assert!(check_delete_status(false, 500, "500", "x").is_err());
}

#[test]
fn digitalocean_droplet_uses_first_public_addresses() {
    let net = |ip: &str, t: &str| DoNetwork { ip_address: ip.to_string(), network_type: t.to_string() };
    assert_eq!(first_public_address(&vec![net("10.0.0.2", "private"), net("5.6.7.8", "public"), net("9.9.9.9", "public")]), Some("5.6.7.8".to_string()));
    assert_eq!(first_public_address(&vec![net("10.0.0.2", "private")]), None);
    let s = kornetti::providers::digitalocean::provisioned_server(DoDroplet {
        id: 99,
        name: "d".to_string(),
        status: "new".to_string(),
        v4: vec![net("5.6.7.8", "public")],
        v6: vec![],
        size_slug: "s-1vcpu".to_string(),
        region: "ams3".to_string(),
    });
    assert_eq!(s.provider_id, "99");
    assert_eq!(s.ip_address, Some("5.6.7.8".to_string()));
    assert_eq!(s.ipv6_address, None);
    assert_eq!(s.status, ProvisionedServerStatus::Pending);
    assert_eq!(parse_do_status("archive"), ProvisionedServerStatus::Stopped);
    let r = create_droplet_request(config("ubuntu-22-04-x64", vec!["a"], None));
    assert_eq!(r.tags, vec!["a".to_string()]);
}

#[test]
fn digitalocean_images_keep_public_distributions() {
    let img = |slug: Option<&str>, dist: &str, public: bool| DoImage {
        id: 7,
        name: "Ubuntu 22.04".to_string(),
        distribution: dist.to_string(),
        slug: slug.map(|s| s.to_string()),
        public,
        image_type: "base".to_string(),
    };
    let images = kornetti::providers::digitalocean::images_from(&vec![
        img(Some("ubuntu-22-04-x64"), "Ubuntu", true),
        img(None, "Ubuntu", true),
        img(Some("fedora-39"), "Fedora", true),
        img(Some("debian-12"), "Debian", false),
    ]);
    assert_eq!(images.len(), 1);
    assert_eq!(images[0].id, "ubuntu-22-04-x64");
    assert_eq!(images[0].distribution, "ubuntu");
}

#[test]
fn vultr_request_refuses_a_non_numeric_image() {
    match create_instance_request(config("ubuntu", vec![], None)) {
        Err(Error::Validation(m)) => assert_eq!(m, "Invalid OS ID"),
        _ => panic!("expected a validation error"),
    }
}

#[test]
fn vultr_request_encodes_user_data() {
    let r = create_instance_request(config("1743", vec!["t"], Some("#!/bin/sh\n"))).unwrap();
    assert_eq!(r.os_id, 1743);
    assert_eq!(r.label, "web-1");
    assert_eq!(r.user_data, Some("IyEvYmluL3NoCg==".to_string()));
    let r = create_instance_request(config("+12", vec![], None)).unwrap();
    assert_eq!(r.os_id, 12);
    assert_eq!(r.user_data, None);
}

#[test]
fn vultr_unassigned_addresses() {
    let inst = |ip: &str| VultrInstance {
        id: "abc".to_string(),
        label: "web".to_string(),
        main_ip: ip.to_string(),
        v6_main_ip: "".to_string(),
        status: "installing".to_string(),
        region: "ewr".to_string(),
        plan: "vc2".to_string(),
    };
    let s = looked_up_server(inst("0.0.0.0"));
    assert_eq!(s.ip_address, None);
    assert_eq!(s.ipv6_address, None);
    assert_eq!(s.status, ProvisionedServerStatus::Pending);
    let s = kornetti::providers::vultr::created_server(inst("0.0.0.0"));
    assert_eq!(s.ip_address, Some("0.0.0.0".to_string()));
    let regions = kornetti::providers::vultr::regions_from(&vec![VultrRegion {
        id: "ewr".to_string(),
        city: "New Jersey".to_string(),
        country: "US".to_string(),
        continent: "North America".to_string(),
        options: vec!["ddos_protection".to_string(), "compute".to_string()],
    }]);
    assert_eq!(regions[0].name, "New Jersey, US");
    assert!(regions[0].available);
}

#[test]
fn linode_password_and_mapping() {
    assert_eq!(password_from_draws(&vec![0, 25, 26, 51, 61, 62]), "azAZ9a");
    let p = root_password();
    assert_eq!(p.chars().count(), 32);
    assert!(p.chars().all(|c| c.is_ascii_alphanumeric()));
    let s = kornetti::providers::linode::provisioned_server(LinodeInstance {
        id: 5,
        label: "l".to_string(),
        status: "provisioning".to_string(),
        ipv4: vec!["1.1.1.1".to_string(), "2.2.2.2".to_string()],
        ipv6: Some("::1".to_string()),
        region: "eu-west".to_string(),
        linode_type: "g6-nanode-1".to_string(),
    });
    assert_eq!(s.ip_address, Some("1.1.1.1".to_string()));
    assert_eq!(s.status, ProvisionedServerStatus::Pending);
    let images = kornetti::providers::linode::images_from(&vec![
        LinodeImage { id: "linode/ubuntu22.04".to_string(), label: "Ubuntu 22.04".to_string(), vendor: Some("Ubuntu".to_string()), is_public: true },
        LinodeImage { id: "private/1".to_string(), label: "Mine".to_string(), vendor: None, is_public: false },
    ]);
    assert_eq!(images.len(), 1);
    assert_eq!(images[0].distribution, "ubuntu");
}

#[test]
fn aws_mapping_and_errors() {
    let p = AwsProvider::new("eu-west-1".to_string());
    match p.created_server(vec![], "n".to_string(), "t3.micro".to_string()) {
        Err(Error::Provider(m)) => assert_eq!(m, "No instance created"),
        _ => panic!("expected an error"),
    }
    let inst = |id: Option<&str>| AwsInstance {
        instance_id: id.map(|s| s.to_string()),
        public_ip_address: Some("3.3.3.3".to_string()),
        state: Some(AwsInstanceState::Stopping),
        instance_type: None,
        tags: vec![
            AwsTag { key: Some("env".to_string()), value: Some("prod".to_string()) },
            AwsTag { key: Some("Name".to_string()), value: Some("web".to_string()) },
        ],
    };
    match p.created_server(vec![inst(None)], "n".to_string(), "t3.micro".to_string()) {
        Err(Error::Provider(m)) => assert_eq!(m, "No instance ID"),
        _ => panic!("expected an error"),
    }
    let s = p.created_server(vec![inst(Some("i-1"))], "n".to_string(), "t3.micro".to_string()).unwrap();
    assert_eq!(s.provider_id, "i-1");
    assert_eq!(s.status, ProvisionedServerStatus::Stopped);
    assert_eq!(s.region, "eu-west-1");
    match p.looked_up_server(&vec![], "i-9") {
        Err(Error::NotFound(m)) => assert_eq!(m, "Instance i-9 not found"),
        _ => panic!("expected NotFound"),
    }
    let s = p.looked_up_server(&vec![vec![inst(Some("i-1"))]], "i-1").unwrap();
    assert_eq!(s.name, "web");
    assert_eq!(s.size, "");
    assert_eq!(parse_aws_status(None), ProvisionedServerStatus::Error);
    let images: Vec<AwsImage> = (0..25)
        .map(|i| AwsImage { image_id: Some(format!("ami-{}", i)), name: Some(format!("ubuntu-{}", i)) })
        .collect();
    let out = kornetti::providers::aws::images_from(&images);
    assert_eq!(out.len(), 20);
    assert_eq!(out[19].id, "ami-19");
    let r = run_instances_request(&config("ami-1", vec![], Some("x")));
    assert_eq!(r.key_name, Some("k1".to_string()));
    assert_eq!(r.name_tag, "web-1");
}

#[test]
fn unimplemented_providers_say_so() {
    let g = GcpProvider::new("p".to_string(), "{}".to_string());
    assert_eq!(g.name(), "gcp");
    match g.list_regions() {
        Err(Error::Provider(m)) => assert_eq!(m, "GCP provider not yet implemented"),
        _ => panic!("expected an error"),
    }
    let a = AzureProvider::new("s".to_string(), "t".to_string(), "c".to_string(), "x".to_string());
    match a.delete_server("id") {
        Err(Error::Provider(m)) => assert_eq!(m, "Azure provider not yet implemented"),
        _ => panic!("expected an error"),
    }
}

#[test]
fn factory_choices() {
    let f = ProviderFactory::new(ProvidersConfig {
        vultr: Some(VultrConfig { api_key: "v".to_string() }),
        hetzner: None,
        digitalocean: Some(DigitalOceanConfig { api_token: "d".to_string() }),
        aws: Some(AwsConfig { access_key_id: "a".to_string(), secret_access_key: "s".to_string(), region: "r".to_string() }),
        linode: Some(LinodeConfig { api_token: "l".to_string() }),
    });
    assert_eq!(f.configured_providers(), vec!["vultr", "digitalocean", "aws", "linode"]);
    match f.get_provider(CloudProvider::Vultr) {
        Ok(ProviderHandle::Vultr(p)) => assert_eq!(p.api_key, "v"),
        _ => panic!("expected Vultr"),
    }
    match f.get_provider(CloudProvider::Hetzner) {
        Err(Error::Config(m)) => assert_eq!(m, "Hetzner configuration not found"),
        _ => panic!("expected a configuration error"),
    }
    match f.get_provider(CloudProvider::Gcp) {
        Err(Error::Provider(m)) => assert_eq!(m, "GCP not yet implemented"),
        _ => panic!("expected a provider error"),
    }
    match f.get_provider(CloudProvider::Custom) {
        Err(Error::Provider(m)) => assert_eq!(m, "Custom provider requires manual configuration"),
        _ => panic!("expected a provider error"),
    }
    match f.aws() {
        Ok(c) => assert_eq!(c.region, "r"),
        Err(_) => panic!("expected credentials"),
    }
}

#[test]
fn provider_server_and_reboot_paths() {
    assert_eq!(kornetti::providers::hetzner::server_path("42"), "/servers/42");
    assert_eq!(kornetti::providers::hetzner::reboot_path("42"), "/servers/42/actions/reboot");
    assert_eq!(kornetti::providers::digitalocean::server_path("7"), "/droplets/7");
    assert_eq!(kornetti::providers::digitalocean::reboot_path("7"), "/droplets/7/actions");
    assert_eq!(kornetti::providers::vultr::server_path("ab"), "/instances/ab");
    assert_eq!(kornetti::providers::vultr::reboot_path("ab"), "/instances/ab/reboot");
    assert_eq!(kornetti::providers::linode::server_path("9"), "/linode/instances/9");
    assert_eq!(kornetti::providers::linode::reboot_path("9"), "/linode/instances/9/reboot");
}
